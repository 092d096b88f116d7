//! The delivery pipeline's decision logic: outcome classification and the
//! bounded retry policy.  The transport performs each send and hands the
//! result back; all decisions are made here.

use vstd::prelude::*;

use crate::host::pair_views;
use crate::json::{json_bytes, json_of};
use crate::schema::MachineInfo;
use crate::sign::{agent_key, secret_key, signature_header_value, SignatureMiddleware};

verus! {

/// How many times one delivery is attempted in all.
pub const MAX_ATTEMPTS: u8 = 3;

/// What one send attempt came back with, as the transport saw it.
#[derive(Debug, Clone, Copy, PartialEq, Eq)]
pub enum SendResult {
    /// The collector answered with this HTTP status.
    Status(u16),
    /// The request never completed: a transport-level error.
    NetworkError,
}

/// How an attempt's result is classified.
#[derive(Debug, Clone, Copy, PartialEq, Eq)]
pub enum DeliveryClass {
    /// A success status: the delivery is done.
    Success,
    /// A server error or a transport error: worth retrying.
    Transient,
    /// Any other status: retrying cannot help.
    Fatal,
}

/// The final word on one delivery.
#[derive(Debug, Clone, Copy, PartialEq, Eq)]
pub enum Outcome {
    /// Delivered, with the collector's status.
    Delivered(u16),
    /// Given up; the next scheduled cycle simply tries again.
    Failed,
}

/// What the driver does after one attempt.
#[derive(Debug, Clone, Copy, PartialEq, Eq)]
pub enum Decision {
    /// Send again after this many milliseconds.
    Retry(u64),
    /// Stop with this outcome.
    Done(Outcome),
}

/// Attempts made so far on the current delivery.
#[derive(Debug, Clone, Copy, PartialEq, Eq)]
pub struct RetryState {
    pub attempts: u8,
}

/// Success statuses end the delivery; server errors and transport errors are
/// transient; every other status is final.
pub open spec fn class_of(r: SendResult) -> DeliveryClass {
    match r {
        SendResult::Status(s) => if 200 <= s < 300 {
            DeliveryClass::Success
        } else if 500 <= s < 600 {
            DeliveryClass::Transient
        } else {
            DeliveryClass::Fatal
        },
        SendResult::NetworkError => DeliveryClass::Transient,
    }
}

/// The status a result carried, zero for a transport error.
pub open spec fn status_of(r: SendResult) -> u16 {
    match r {
        SendResult::Status(s) => s,
        SendResult::NetworkError => 0,
    }
}

/// The backoff before the next attempt, doubling with each retry.
pub open spec fn backoff_of(attempts: u8) -> u64 {
    if attempts <= 1 {
        1000
    } else if attempts == 2 {
        2000
    } else {
        4000
    }
}

/// The policy's whole step: given how many attempts have now been made and
/// what the last one returned, either retry after a backoff or stop.
pub open spec fn decision_of(attempts_after: u8, r: SendResult) -> Decision {
    match class_of(r) {
        DeliveryClass::Success => Decision::Done(Outcome::Delivered(status_of(r))),
        DeliveryClass::Fatal => Decision::Done(Outcome::Failed),
        DeliveryClass::Transient => if attempts_after < MAX_ATTEMPTS {
            Decision::Retry(backoff_of(attempts_after))
        } else {
            Decision::Done(Outcome::Failed)
        },
    }
}

/// Classifies one attempt's result.
pub fn classify(r: &SendResult) -> (c: DeliveryClass)
    ensures
        c == class_of(*r),
{
    match *r {
        SendResult::Status(s) => {
            if 200 <= s && s < 300 {
                DeliveryClass::Success
            } else if 500 <= s && s < 600 {
                DeliveryClass::Transient
            } else {
                DeliveryClass::Fatal
            }
        },
        SendResult::NetworkError => DeliveryClass::Transient,
    }
}

impl RetryState {
    /// A fresh delivery: nothing attempted yet.
    pub fn new() -> (r: RetryState)
        ensures
            r.attempts == 0,
    {
        RetryState { attempts: 0 }
    }

    /// Records one attempt and decides what to do next.  The attempt count
    /// never passes the bound, and only a transient result below the bound
    /// earns another try.
    pub fn next_decision(&mut self, r: &SendResult) -> (d: Decision)
        requires
            old(self).attempts < MAX_ATTEMPTS,
        ensures
            final(self).attempts == old(self).attempts + 1,
            d == decision_of(final(self).attempts, *r),
    {
        self.attempts = self.attempts + 1;
        match classify(r) {
            DeliveryClass::Success => {
                let status = match *r {
                    SendResult::Status(s) => s,
                    SendResult::NetworkError => 0,
                };
                Decision::Done(Outcome::Delivered(status))
            },
            DeliveryClass::Fatal => Decision::Done(Outcome::Failed),
            DeliveryClass::Transient => {
                if self.attempts < MAX_ATTEMPTS {
                    let delay: u64 = if self.attempts <= 1 {
                        1000
                    } else {
                        2000
                    };
                    Decision::Retry(delay)
                } else {
                    Decision::Done(Outcome::Failed)
                }
            },
        }
    }
}

/// A delivery whose every attempt comes back transient — a server that
/// always answers with a server error, or a line that always fails — is
/// attempted exactly three times, then reported as a failure outcome.
pub proof fn lemma_retry_bound(r: SendResult)
    requires
        class_of(r) == DeliveryClass::Transient,
    ensures
        decision_of(1, r) == Decision::Retry(backoff_of(1)),
        decision_of(2, r) == Decision::Retry(backoff_of(2)),
        decision_of(3, r) == Decision::Done(Outcome::Failed),
{
}

/// A non-transient status is never retried: a client error ends the
/// delivery at once, and a success ends it with its status.
pub proof fn lemma_no_retry_on_fatal(s: u16, attempts_after: u8)
    requires
        s < 500 || s >= 600,
        !(200 <= s < 300),
    ensures
        decision_of(attempts_after, SendResult::Status(s)) == Decision::Done(Outcome::Failed),
{
}

/// The collector endpoint; heartbeat and inventory share it.
pub open spec fn report_url() -> Seq<char> {
    "http://cmdb-debug-server/v1/heartbeat"@
}

/// The headers every request carries.
pub open spec fn base_headers() -> Seq<(Seq<char>, Seq<char>)> {
    seq![
        ("User-Agent"@, "CMDB Agent/reqwest client"@),
        ("Content-Type"@, "application/json"@),
    ]
}

/// The headers of one request: the fixed pair always, and the signature
/// exactly when a body is present.
pub open spec fn envelope_headers(body: Option<Seq<u8>>) -> Seq<(Seq<char>, Seq<char>)> {
    match body {
        Option::None => base_headers(),
        Option::Some(b) => base_headers().push(
            ("X-CMDB-Signature"@, signature_header_value(agent_key(), b)),
        ),
    }
}

/// One request ready for the transport: destination, headers, and the exact
/// body bytes if any.
#[derive(Debug)]
pub struct Envelope {
    pub url: String,
    pub headers: Vec<(String, String)>,
    pub body: Option<Vec<u8>>,
}

fn base_header_vec() -> (r: Vec<(String, String)>)
    ensures
        pair_views(r@) == base_headers(),
{
    let mut headers: Vec<(String, String)> = Vec::new();
    headers.push((String::from_str("User-Agent"), String::from_str("CMDB Agent/reqwest client")));
    headers.push((String::from_str("Content-Type"), String::from_str("application/json")));
    proof {
        assert(pair_views(headers@) =~= base_headers());
    }
    headers
}

/// Plans a heartbeat: no body, so no signature.
pub fn plan_heartbeat() -> (e: Envelope)
    ensures
        e.url@ == report_url(),
        pair_views(e.headers@) == envelope_headers(Option::None),
        e.body is None,
{
    Envelope {
        url: String::from_str("http://cmdb-debug-server/v1/heartbeat"),
        headers: base_header_vec(),
        body: None,
    }
}

/// Plans a full inventory report: the serialized record as the body, signed
/// with the pre-shared key over those exact bytes.
pub fn plan_machine_info(m: &MachineInfo) -> (e: Envelope)
    ensures
        e.url@ == report_url(),
        e.body is Some && e.body->0@ == json_of(m@),
        pair_views(e.headers@) == envelope_headers(Option::Some(json_of(m@))),
{
    let body = json_bytes(m);
    let key = secret_key();
    let mut headers = base_header_vec();
    let sig = SignatureMiddleware::sign(&body, &key);
    let mut value = String::from_str("SHA1=");
    value.append(sig.as_str());
    headers.push((String::from_str("X-CMDB-Signature"), value));
    proof {
        assert(pair_views(headers@) =~= envelope_headers(Option::Some(json_of(m@))));
    }
    Envelope {
        url: String::from_str("http://cmdb-debug-server/v1/heartbeat"),
        headers,
        body: Some(body),
    }
}

/// A heartbeat carries no signature header at all: its header names are the
/// two fixed ones, and neither is the signature's.
pub proof fn lemma_heartbeat_unsigned()
    ensures
        envelope_headers(Option::None).len() == 2,
        forall|i: int|
            0 <= i < 2 ==> (#[trigger] envelope_headers(Option::None)[i]).0
                != "X-CMDB-Signature"@,
{
    reveal_strlit("User-Agent");
    reveal_strlit("Content-Type");
    reveal_strlit("X-CMDB-Signature");
    assert("User-Agent"@.len() == 10);
    assert("Content-Type"@.len() == 12);
    assert("X-CMDB-Signature"@.len() == 16);
}

} // verus!
