//! Sending pipeline and wire-format behaviour.

use ton_client::errors::{ClientError, ErrorKind};
use ton_client::query::AttemptOutcome;
use ton_client::send::{
    plan_chunks, pre_send_events, prepare_message, send_message_race, send_to_endpoint,
    ParamsOfSendMessage, ProcessingEvent, ResultOfSendMessage,
};
use ton_client::wire::{
    classify_response_body, first_block_id, outcome_of_response, parse_info, probe_result_from,
    r_blocks, r_info, u64_to_dec, ResponseClass,
};

fn net_err(msg: &str) -> ClientError {
    ClientError::new(ErrorKind::NetworkError, msg.to_string())
}

#[test]
fn prepare_message_requires_destination() {
    let r = prepare_message("boc".to_string(), "00ff".to_string(), None, None, 10);
    assert_eq!(r.unwrap_err().kind, ErrorKind::MessageHasNoDestination);
}

#[test]
fn prepare_message_rejects_expired() {
    let r = prepare_message(
        "boc".to_string(),
        "00ff".to_string(),
        Some("0:abc".to_string()),
        Some(10),
        10,
    );
    assert_eq!(r.unwrap_err().kind, ErrorKind::MessageAlreadyExpired);
}

#[test]
fn prepare_message_rejects_bad_hex_id() {
    let r = prepare_message(
        "boc".to_string(),
        "xyz".to_string(),
        Some("0:abc".to_string()),
        None,
        10,
    );
    assert_eq!(r.unwrap_err().kind, ErrorKind::InvalidData);
}

#[test]
fn prepare_message_decodes_id() {
    let m = prepare_message(
        "boc".to_string(),
        "00ff2A".to_string(),
        Some("0:abc".to_string()),
        Some(11),
        10,
    )
    .unwrap();
    assert_eq!(m.id_bytes, vec![0u8, 255, 42]);
    assert_eq!(m.id_bytes, hex::decode("00ff2A").unwrap());
    assert_eq!(m.dst, "0:abc");
    assert_eq!(m.serialized, "boc");
}

fn sending_message() -> ton_client::send::SendingMessage {
    prepare_message(
        "boc".to_string(),
        "00ff".to_string(),
        Some("0:abc".to_string()),
        None,
        10,
    )
    .unwrap()
}

#[test]
fn send_to_endpoint_fetch_failure() {
    let msg = sending_message();
    let (events, r) = send_to_endpoint(&msg, Err(net_err("no block")), None, true);
    assert_eq!(events.len(), 1);
    assert!(matches!(&events[0], ProcessingEvent::FetchFirstBlockFailed { .. }));
    let err = r.unwrap_err();
    assert_eq!(err.kind, ErrorKind::FetchFirstBlockFailed);
    assert_eq!(err.message, "no block");
}

#[test]
fn send_to_endpoint_success_events() {
    let msg = sending_message();
    let (events, r) = send_to_endpoint(&msg, Ok("B1".to_string()), None, true);
    assert_eq!(events.len(), 2);
    assert!(
        matches!(&events[0], ProcessingEvent::WillSend { shard_block_id, message_id, message }
            if shard_block_id == "B1" && message_id == "00ff" && message == "boc")
    );
    assert!(matches!(&events[1], ProcessingEvent::DidSend { .. }));
    assert_eq!(r.unwrap(), ResultOfSendMessage { shard_block_id: "B1".to_string() });
}

#[test]
fn send_to_endpoint_post_failure_fails_the_race() {
    let msg = sending_message();
    let (events, r) = send_to_endpoint(
        &msg,
        Ok("B1".to_string()),
        Some(net_err("rejected")),
        true,
    );
    assert_eq!(events.len(), 2);
    assert!(matches!(&events[0], ProcessingEvent::WillSend { .. }));
    assert!(matches!(&events[1], ProcessingEvent::SendFailed { .. }));
    assert_eq!(r.unwrap_err().message, "rejected");
}

#[test]
fn send_to_endpoint_without_events() {
    let msg = sending_message();
    let (events, r) = send_to_endpoint(&msg, Ok("B1".to_string()), None, false);
    assert!(events.is_empty());
    assert!(r.is_ok());
}

#[test]
fn plan_chunks_widths() {
    let addrs: Vec<String> = ["a", "b", "c", "d", "e"].iter().map(|s| s.to_string()).collect();
    let chunks = plan_chunks(&addrs, 2);
    assert_eq!(chunks.len(), 3);
    assert_eq!(chunks[0], vec!["a", "b"]);
    assert_eq!(chunks[1], vec!["c", "d"]);
    assert_eq!(chunks[2], vec!["e"]);

    let one = plan_chunks(&addrs, 10);
    assert_eq!(one.len(), 1);
    assert_eq!(one[0], addrs);

    let none = plan_chunks(&Vec::new(), 2);
    assert!(none.is_empty());
}

#[test]
fn race_first_success_wins() {
    let chunks = vec![
        vec![Err(net_err("e1")), Err(net_err("e2"))],
        vec![Err(net_err("e3")), Ok("B7".to_string()), Ok("B8".to_string())],
    ];
    let r = send_message_race(&chunks).unwrap();
    assert_eq!(r.shard_block_id, "B7");
}

#[test]
fn race_reports_last_error_when_all_fail() {
    let chunks = vec![
        vec![Err(net_err("e1")), Err(net_err("e2"))],
        vec![Err(net_err("e3"))],
    ];
    let err = send_message_race(&chunks).unwrap_err();
    assert_eq!(err.message, "e3");
}

#[test]
fn race_without_endpoints() {
    let chunks: Vec<Vec<Result<String, ClientError>>> = Vec::new();
    let err = send_message_race(&chunks).unwrap_err();
    assert_eq!(err.kind, ErrorKind::BlockNotFound);
    assert_eq!(err.message, "no endpoints");
}

#[test]
fn params_default() {
    let p = ParamsOfSendMessage::default();
    assert_eq!(p.message, "");
    assert!(p.abi.is_none());
    assert!(!p.send_events);
}

#[test]
fn decimal_rendering() {
    assert_eq!(u64_to_dec(0), "0");
    assert_eq!(u64_to_dec(7), "7");
    assert_eq!(u64_to_dec(10), "10");
    assert_eq!(u64_to_dec(65535), "65535");
    assert_eq!(u64_to_dec(u64::MAX), "18446744073709551615");
}

#[test]
fn r_info_exact_body() {
    assert_eq!(
        r_info(1000, 100),
        "{\"data\":{\"info\":{\"lastBlockTime\":100,\"time\":1000,\"version\":\"0.37.0\"}}}"
    );
}

#[test]
fn r_info_is_what_serde_json_serializes() {
    let body = r_info(123456789, 42);
    let v: serde_json::Value = serde_json::from_str(&body).unwrap();
    assert_eq!(v.to_string(), body);
    assert_eq!(v["data"]["info"]["time"].as_u64(), Some(123456789));
    assert_eq!(v["data"]["info"]["lastBlockTime"].as_u64(), Some(42));
    assert_eq!(v["data"]["info"]["version"].as_str(), Some("0.37.0"));
}

#[test]
fn r_blocks_exact_body() {
    assert_eq!(r_blocks("1"), "{\"data\":{\"blocks\":[{\"id\":\"1\"}]}}");
    let v: serde_json::Value = serde_json::from_str(&r_blocks("abc")).unwrap();
    assert_eq!(v["data"]["blocks"][0]["id"].as_str(), Some("abc"));
}

#[test]
fn r_blocks_escapes_like_serde_json() {
    let id = "a\"b\\c\nd\te\u{1}f";
    let body = r_blocks(id);
    // round trip: the escaped document holds exactly the original id
    let v: serde_json::Value = serde_json::from_str(&body).unwrap();
    assert_eq!(v["data"]["blocks"][0]["id"].as_str(), Some(id));
    // byte-exact: serde_json re-serializes the parsed document to the
    // same text, so the escaping matches serde_json's own
    assert_eq!(v.to_string(), body);
    assert_eq!(
        body,
        "{\"data\":{\"blocks\":[{\"id\":\"a\\\"b\\\\c\\nd\\te\\u0001f\"}]}}"
    );
}

#[test]
fn parse_info_round_trip() {
    let info = parse_info(&r_info(1000, 100)).unwrap();
    assert_eq!(info.time, 1000);
    assert_eq!(info.last_block_time, 100);
    assert_eq!(info.version, "0.37.0");
    assert!(parse_info(&r_blocks("1")).is_none());
    assert!(parse_info("not json").is_none());
}

#[test]
fn first_block_id_extraction() {
    assert_eq!(first_block_id(&r_blocks("1")), Some("1".to_string()));
    assert_eq!(first_block_id(&r_blocks("abcdef")), Some("abcdef".to_string()));
    assert_eq!(first_block_id(&r_info(1, 2)), None);
    assert_eq!(first_block_id("not json"), None);
    assert_eq!(first_block_id("{\"data\":{\"blocks\":[]}}"), None);
}

#[test]
fn pre_send_event_decision() {
    let evs = pre_send_events(true);
    assert_eq!(evs.len(), 1);
    assert!(matches!(evs[0], ProcessingEvent::WillFetchFirstBlock));
    assert!(pre_send_events(false).is_empty());
}

#[test]
fn classify_envelopes() {
    assert_eq!(classify_response_body(&r_blocks("1")), ResponseClass::Data);
    assert_eq!(classify_response_body("not json"), ResponseClass::Malformed);
    assert_eq!(
        classify_response_body("{\"errors\":[{\"message\":\"x\"}]}"),
        ResponseClass::Logical
    );
    assert_eq!(classify_response_body("{\"errors\":[]}"), ResponseClass::Malformed);
    assert_eq!(classify_response_body("{\"other\":1}"), ResponseClass::Malformed);
}

#[test]
fn outcomes_by_status_and_class() {
    assert!(matches!(
        outcome_of_response(500, r_blocks("1")),
        AttemptOutcome::Transport(_)
    ));
    assert!(matches!(
        outcome_of_response(200, r_blocks("1")),
        AttemptOutcome::Data(_)
    ));
    assert!(matches!(
        outcome_of_response(200, "{\"errors\":[{}]}".to_string()),
        AttemptOutcome::Logical(_)
    ));
    assert!(matches!(
        outcome_of_response(200, "garbage".to_string()),
        AttemptOutcome::Transport(_)
    ));
}

#[test]
fn probe_from_times_and_payload() {
    let p = probe_result_from(1000, 1200, Some(700));
    assert!(p.success);
    assert_eq!(p.latency, 200);
    assert_eq!(p.time_delta, 500);

    let q = probe_result_from(1000, 1200, None);
    assert!(!q.success);
    assert_eq!(q.latency, 200);

    // a fresh server can be ahead of the local clock: the delta is negative
    let r = probe_result_from(1000, 1200, Some(1500));
    assert!(r.success);
    assert_eq!(r.time_delta, -300);
}
