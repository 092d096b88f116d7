//! Signing, serialization, envelopes, retry decisions, and the agent shell.

use cmdb_agent::agent::{Agent, AgentState, Config};
use cmdb_agent::delivery::{
    classify, plan_heartbeat, plan_machine_info, Decision, DeliveryClass, Outcome, RetryState,
    SendResult,
};
use cmdb_agent::json::json_bytes;
use cmdb_agent::schema::{Devices, MachineInfo, Memory, Network, Processor, OS};
use cmdb_agent::sign::SignatureMiddleware;
use cmdb_agent::text::{byte_to_hex, u64_to_dec};

fn record() -> MachineInfo {
    MachineInfo {
        hostname: String::from("h"),
        serial_number: String::from("s"),
        cloud: None,
        os: OS {
            platform: String::from("linux"),
            os: String::from("O"),
            version: String::from("1"),
            arch: String::from("x"),
            kernel: String::from("k"),
        },
        devices: Devices {
            processor: vec![],
            memory: Memory { total_memory: 0, unit: String::from("B") },
        },
        networks: vec![],
    }
}

#[test]
fn test_signing_matches_known_digest() {
    // A published keyed-digest example: key "Jefe" over a short question.
    let key = b"Jefe".to_vec();
    let body = b"what do ya want for nothing?".to_vec();
    assert_eq!(
        SignatureMiddleware::sign(&body, &key),
        "effcdf6ae5eb2fa2d27416d5f184df9c259a7c79"
    );
}

#[test]
fn test_signing_deterministic() {
    let key = b"b35057912c5def0e848b14fb".to_vec();
    let body = b"{\"x\":1}".to_vec();
    let first = SignatureMiddleware::sign(&body, &key);
    let second = SignatureMiddleware::sign(&body, &key);
    assert_eq!(first, second);
    assert_eq!(first.len(), 40);
}

#[test]
fn test_empty_body_is_not_signed() {
    let key = b"k".to_vec();
    assert_eq!(SignatureMiddleware::signature_header(&None, &key), None);
    let hb = plan_heartbeat();
    assert!(hb.body.is_none());
    assert_eq!(hb.headers.len(), 2);
    assert!(hb.headers.iter().all(|h| h.0 != "X-CMDB-Signature"));
}

#[test]
fn test_report_envelope_signed_over_exact_bytes() {
    let m = record();
    let e = plan_machine_info(&m);
    assert_eq!(e.url, "http://cmdb-debug-server/v1/heartbeat");
    let body = e.body.expect("a report has a body");
    assert_eq!(body, json_bytes(&m));
    let sig = e
        .headers
        .iter()
        .find(|h| h.0 == "X-CMDB-Signature")
        .expect("signature header")
        .1
        .clone();
    let expected = SignatureMiddleware::sign(&body, &b"b35057912c5def0e848b14fb".to_vec());
    assert_eq!(sig, format!("SHA1={}", expected));
    assert!(e.headers.iter().any(|h| h.0 == "User-Agent" && h.1 == "CMDB Agent/reqwest client"));
    assert!(e.headers.iter().any(|h| h.0 == "Content-Type" && h.1 == "application/json"));
}

#[test]
fn test_json_shape_exact() {
    let m = record();
    let expected = "{\"hostname\":\"h\",\"serialNumber\":\"s\",\"cloud\":null,\"os\":{\"platform\":\"linux\",\"os\":\"O\",\"version\":\"1\",\"arch\":\"x\",\"kernel\":\"k\"},\"devices\":{\"processor\":[],\"memory\":{\"totalMemory\":0,\"unit\":\"B\"}},\"networks\":[]}";
    assert_eq!(json_bytes(&m), expected.as_bytes());
}

#[test]
fn test_json_full_record() {
    let mut m = record();
    m.devices.processor = vec![Processor {
        version: String::from("Xeon"),
        max_speed: 3000,
        current_speed: 2400,
        core_count: 8,
        cores_enabled: 8,
        thread_count: 16,
        thread_enabled: 0,
    }];
    m.networks = vec![Network {
        name: String::from("eth0"),
        address: vec![String::from("10.0.0.2"), String::from("fe80::1")],
        mac_address: String::from("aa:bb"),
    }];
    let expected = "{\"hostname\":\"h\",\"serialNumber\":\"s\",\"cloud\":null,\"os\":{\"platform\":\"linux\",\"os\":\"O\",\"version\":\"1\",\"arch\":\"x\",\"kernel\":\"k\"},\"devices\":{\"processor\":[{\"version\":\"Xeon\",\"maxSpeed\":3000,\"currentSpeed\":2400,\"coreCount\":8,\"coresEnabled\":8,\"threadCount\":16,\"threadEnabled\":0}],\"memory\":{\"totalMemory\":0,\"unit\":\"B\"}},\"networks\":[{\"name\":\"eth0\",\"address\":[\"10.0.0.2\",\"fe80::1\"],\"macAddress\":\"aa:bb\"}]}";
    assert_eq!(json_bytes(&m), expected.as_bytes());
}

#[test]
fn test_json_escapes_specials() {
    let mut m = record();
    m.hostname = String::from("a\"b\\c\nd");
    let out = json_bytes(&m);
    let text = String::from_utf8(out).expect("seven-bit output");
    assert!(text.starts_with("{\"hostname\":\"a\\\"b\\\\c\\u000ad\""));
}

#[test]
fn test_retry_bound_three_attempts_on_server_error() {
    // A collector that always answers 503: exactly three attempts, then a
    // failure outcome, never a panic.
    let mut st = RetryState::new();
    let mut attempts = 0;
    let outcome = loop {
        attempts += 1;
        match st.next_decision(&SendResult::Status(503)) {
            Decision::Retry(_) => continue,
            Decision::Done(o) => break o,
        }
    };
    assert_eq!(attempts, 3);
    assert_eq!(outcome, Outcome::Failed);
}

#[test]
fn test_no_retry_on_client_error() {
    let mut st = RetryState::new();
    assert_eq!(
        st.next_decision(&SendResult::Status(404)),
        Decision::Done(Outcome::Failed)
    );
    let mut st = RetryState::new();
    assert_eq!(
        st.next_decision(&SendResult::Status(200)),
        Decision::Done(Outcome::Delivered(200))
    );
}

#[test]
fn test_network_errors_are_transient() {
    assert_eq!(classify(&SendResult::NetworkError), DeliveryClass::Transient);
    assert_eq!(classify(&SendResult::Status(500)), DeliveryClass::Transient);
    assert_eq!(classify(&SendResult::Status(204)), DeliveryClass::Success);
    assert_eq!(classify(&SendResult::Status(301)), DeliveryClass::Fatal);
}

#[test]
fn test_agent_lifecycle() {
    let mut agent = Agent::new(Config {});
    assert!(matches!(agent.state, AgentState::Ready));
    agent.start();
    assert!(matches!(agent.state, AgentState::Start));
    assert!(matches!(AgentState::default(), AgentState::Ready));
}

#[test]
fn test_text_rendering() {
    assert_eq!(u64_to_dec(0), "0");
    assert_eq!(u64_to_dec(18446744073709551615), "18446744073709551615");
    assert_eq!(byte_to_hex(0x0F), "0f");
    assert_eq!(byte_to_hex(0xA0), "a0");
}
