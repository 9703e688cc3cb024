use crier::direct::{decode_direct, response_line, take_line, DirectAction, DirectSession, Stage};
use crier::envelope::{
    auth_line_text, decode_relay, decode_relay_payload, encode_direct, encode_relay, DecodeError,
};

#[test]
fn direct_round_trip_with_token() {
    let wire = encode_direct(Some("secret"), "hello world");
    assert_eq!(wire, "AUTH:secret\nhello world\n");
    let env = decode_direct(&wire, Some("secret")).ok().unwrap();
    assert_eq!(env.auth.as_deref(), Some("secret"));
    assert_eq!(env.message, "hello world");
}

#[test]
fn direct_round_trip_without_token() {
    let wire = encode_direct(None, "a: b: c");
    assert_eq!(wire, "a: b: c\n");
    let env = decode_direct(&wire, None).ok().unwrap();
    assert_eq!(env.auth, None);
    assert_eq!(env.message, "a: b: c");
}

#[test]
fn direct_round_trip_empty_message() {
    let wire = encode_direct(Some("t"), "");
    let env = decode_direct(&wire, Some("t")).ok().unwrap();
    assert_eq!(env.message, "");
}

#[test]
fn relay_round_trip_with_token() {
    let payload = encode_relay(Some("secret"), "x:y:z");
    assert_eq!(payload, "AUTH:secret:x:y:z");
    let env = decode_relay(&payload, Some("secret")).ok().unwrap();
    assert_eq!(env.auth.as_deref(), Some("secret"));
    assert_eq!(env.message, "x:y:z");
}

#[test]
fn relay_round_trip_without_token() {
    let payload = encode_relay(None, "ping");
    assert_eq!(payload, "ping");
    let env = decode_relay(&payload, None).ok().unwrap();
    assert_eq!(env.message, "ping");
}

#[test]
fn direct_accepts_right_token() {
    let env = decode_direct("AUTH:secret\nhello\n", Some("secret")).ok().unwrap();
    assert_eq!(env.message, "hello");
}

#[test]
fn direct_rejects_wrong_token() {
    let r = decode_direct("AUTH:wrong\nhello\n", Some("secret"));
    assert!(matches!(r, Err(DecodeError::Auth)));
}

#[test]
fn direct_rejects_missing_token() {
    let r = decode_direct("hello\n", Some("secret"));
    assert!(matches!(r, Err(DecodeError::Auth)));
    let r = decode_direct("", Some("secret"));
    assert!(matches!(r, Err(DecodeError::Auth)));
}

#[test]
fn direct_session_reject_answers_err_auth() {
    let mut s = DirectSession::new(Some("secret"));
    let a = s.feed(Some("AUTH:nope".to_string()));
    assert!(matches!(a, DirectAction::Reject));
    assert_eq!(response_line(&a), Some("ERR:AUTH\n"));
    assert_eq!(s.stage, Stage::Finished);
}

#[test]
fn direct_session_accepts_and_answers_ok() {
    let mut s = DirectSession::new(Some("secret"));
    let a = s.feed(Some("AUTH:secret".to_string()));
    assert!(matches!(a, DirectAction::ReadLine));
    assert_eq!(response_line(&a), None);
    let b = s.feed(Some("hello".to_string()));
    match &b {
        DirectAction::Deliver(m) => assert_eq!(m, "hello"),
        _ => panic!("expected delivery"),
    }
    assert_eq!(response_line(&b), Some("OK\n"));
}

#[test]
fn relay_accepts_right_token() {
    let env = decode_relay("AUTH:secret:ping", Some("secret")).ok().unwrap();
    assert_eq!(env.message, "ping");
}

#[test]
fn relay_rejects_wrong_token() {
    assert!(matches!(decode_relay("AUTH:wrong:ping", Some("secret")), Err(DecodeError::Auth)));
    assert!(matches!(decode_relay("ping", Some("secret")), Err(DecodeError::Auth)));
    assert!(matches!(decode_relay("AUTH:secret", Some("secret")), Err(DecodeError::Auth)));
}

#[test]
fn relay_payload_bytes() {
    let env = decode_relay_payload(b"AUTH:secret:caf\xc3\xa9", Some("secret")).ok().unwrap();
    assert_eq!(env.message, "caf\u{e9}");
    let env = decode_relay_payload(b"bad\xffbyte", None).ok().unwrap();
    assert_eq!(env.message, "bad\u{fffd}byte");
}

#[test]
fn no_auth_passes_auth_looking_line() {
    let env = decode_direct("AUTH:secret\nhello\n", None).ok().unwrap();
    assert_eq!(env.message, "AUTH:secret");
    let env = decode_relay("AUTH:secret:ping", None).ok().unwrap();
    assert_eq!(env.message, "AUTH:secret:ping");
}

#[test]
fn malformed_direct_input_is_dropped() {
    let r = decode_direct("AUTH:secret\n", Some("secret"));
    assert!(matches!(r, Err(DecodeError::Format)));
    let mut s = DirectSession::new(Some("secret"));
    assert!(matches!(s.feed(Some("AUTH:secret".to_string())), DirectAction::ReadLine));
    let a = s.feed(None);
    assert!(matches!(a, DirectAction::Drop));
    assert_eq!(response_line(&a), None);
}

#[test]
fn empty_connection_without_token_is_dropped() {
    assert!(matches!(decode_direct("", None), Err(DecodeError::Format)));
}

#[test]
fn take_line_strips_terminators() {
    let (l, rest) = take_line("ab\r\ncd\n").unwrap();
    assert_eq!(l, "ab");
    assert_eq!(rest, "cd\n");
    let (l, rest) = take_line("last").unwrap();
    assert_eq!(l, "last");
    assert_eq!(rest, "");
    assert!(take_line("").is_none());
}

#[test]
fn auth_line_format() {
    assert_eq!(auth_line_text("tok"), "AUTH:tok");
}
