//! Request signing: a keyed message-authentication code over the exact body
//! bytes, rendered in hexadecimal.

use vstd::prelude::*;

use hmac::Mac;

use vstd::string::StringSliceAdditionalSpecFns;

use crate::text::hex_of;

verus! {

/// The twenty-byte keyed digest of a message.  Named, not written out: the
/// code is computed by the outside crates and is a function of key and
/// message alone.
pub uninterp spec fn hmac_sha1_of(key: Seq<u8>, msg: Seq<u8>) -> Seq<u8>;

/// Relies on `hmac::Hmac` over `sha1::Sha1`: the digest is twenty bytes and
/// a function of key and message alone; a key of any length is accepted, so
/// building the code cannot fail.
#[verifier::external_body]
fn hmac_sha1(key: &Vec<u8>, msg: &Vec<u8>) -> (r: Vec<u8>)
    ensures
        r@ == hmac_sha1_of(key@, msg@),
        r@.len() == 20,
{
    let mut mac: hmac::Hmac<sha1::Sha1> = hmac::Hmac::new_from_slice(key.as_slice()).unwrap();
    mac.update(msg.as_slice());
    mac.finalize().into_bytes().to_vec()
}

/// Relies on `hex::encode`: two lowercase hexadecimal digits per byte, in
/// byte order.
#[verifier::external_body]
fn hex_encode(b: &Vec<u8>) -> (r: String)
    ensures
        r@ == hex_of(b@),
{
    hex::encode(b.as_slice())
}

/// The fixed pre-shared key every request is signed with.
pub open spec fn agent_key() -> Seq<u8> {
    ("b35057912c5def0e848b14fb").spec_bytes()
}

/// Hands out the pre-shared key as bytes.
pub fn secret_key() -> (r: Vec<u8>)
    ensures
        r@ == agent_key(),
{
    ("b35057912c5def0e848b14fb").as_bytes_vec()
}

/// The value of the signature header for a signed body.
pub open spec fn signature_header_value(key: Seq<u8>, body: Seq<u8>) -> Seq<char> {
    "SHA1="@ + hex_of(hmac_sha1_of(key, body))
}

/// Attaches the signature header to outbound requests.
pub struct SignatureMiddleware;

impl SignatureMiddleware {
    /// Signs the exact body bytes with the given key.
    pub fn sign(bytes: &Vec<u8>, secret_key: &Vec<u8>) -> (r: String)
        ensures
            r@ == hex_of(hmac_sha1_of(secret_key@, bytes@)),
    {
        hex_encode(&hmac_sha1(secret_key, bytes))
    }

    /// The signature header value: present exactly when a body is present;
    /// an absent body is never signed.
    pub fn signature_header(body: &Option<Vec<u8>>, key: &Vec<u8>) -> (r: Option<String>)
        ensures
            match body {
                Option::Some(b) => r is Some && r->0@ == signature_header_value(key@, b@),
                Option::None => r is None,
            },
    {
        match body {
            Some(b) => {
                let mut v = String::from_str("SHA1=");
                v.append(Self::sign(b, key).as_str());
                Some(v)
            },
            None => None,
        }
    }
}

/// Signing is deterministic: one key and one body always yield one
/// signature text, whichever call produced it.
pub proof fn lemma_sign_deterministic(key: Seq<u8>, body: Seq<u8>, r1: Seq<char>, r2: Seq<char>)
    requires
        r1 == hex_of(hmac_sha1_of(key, body)),
        r2 == hex_of(hmac_sha1_of(key, body)),
    ensures
        r1 == r2,
{
}

} // verus!
