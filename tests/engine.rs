use crier::dispatch::build_command;
use crier::operation::{
    client_id, keep_alive_secs, relay_guarantee, resolve, ConfigError, Guarantee, Role, Settings,
    Transport,
};
use crier::outcome::{
    acknowledgment_outcome, classify_ack, relay_send_step, BrokerEvent, FailureKind, SendProgress,
};

fn empty() -> Settings {
    Settings { addr: None, relay: None, port: None, topic: None, message: None, auth: None }
}

#[test]
fn template_substitutes_every_placeholder() {
    assert_eq!(build_command("echo \"{}\" \"{}\"", "hi"), "echo \"hi\" \"hi\"");
}

#[test]
fn template_without_placeholder() {
    assert_eq!(build_command("true", "hi"), "true");
    assert_eq!(build_command("", "hi"), "");
}

#[test]
fn template_inserts_verbatim() {
    assert_eq!(build_command("{{}}", "$(x)"), "{$(x)}");
    assert_eq!(build_command("{}{}", "{}"), "{}{}");
    assert_eq!(build_command("say {} {", "\u{e9}"), "say \u{e9} {");
}

#[test]
fn ack_ok() {
    assert!(acknowledgment_outcome("OK\n").is_ok());
    assert!(acknowledgment_outcome("OK \r\n").is_ok());
}

#[test]
fn ack_auth_refused() {
    let e = acknowledgment_outcome("ERR:AUTH\n").err().unwrap();
    assert_eq!(e.kind, FailureKind::Auth);
    assert_eq!(e.detail, "ERR:AUTH");
}

#[test]
fn ack_unexpected() {
    let e = acknowledgment_outcome("WHAT\n").err().unwrap();
    assert_eq!(e.kind, FailureKind::Protocol);
    assert_eq!(e.detail, "WHAT");
    let e = acknowledgment_outcome("").err().unwrap();
    assert_eq!(e.kind, FailureKind::Protocol);
    assert!(classify_ack("ok").is_err());
}

#[test]
fn relay_send_times_out() {
    match relay_send_step(5001, BrokerEvent::PublishSent) {
        SendProgress::Failed(e) => {
            assert_eq!(e.kind, FailureKind::Timeout);
            assert_eq!(e.detail, "Timeout waiting for broker");
        }
        _ => panic!("expected a timeout"),
    }
}

#[test]
fn relay_send_confirms() {
    assert!(matches!(relay_send_step(5000, BrokerEvent::PublishSent), SendProgress::Delivered));
    assert!(matches!(relay_send_step(0, BrokerEvent::ConnAck), SendProgress::Waiting));
    assert!(matches!(relay_send_step(10, BrokerEvent::Other), SendProgress::Waiting));
    match relay_send_step(10, BrokerEvent::Failure("refused".to_string())) {
        SendProgress::Failed(e) => {
            assert_eq!(e.kind, FailureKind::Connect);
            assert_eq!(e.detail, "refused");
        }
        _ => panic!("expected a failure"),
    }
}

#[test]
fn resolve_direct_from_command_line() {
    let mut given = empty();
    given.addr = Some("127.0.0.1:5555".to_string());
    given.message = Some("hi".to_string());
    given.port = Some(1883);
    let op = resolve(Role::Send, given, empty()).ok().unwrap();
    assert_eq!(op.role, Role::Send);
    assert_eq!(op.text, "hi");
    assert_eq!(op.auth, None);
    match op.transport {
        Transport::Direct { address } => assert_eq!(address, "127.0.0.1:5555"),
        _ => panic!("expected direct"),
    }
}

#[test]
fn resolve_relay_prefers_preset_port_over_default() {
    let mut given = empty();
    given.relay = Some("broker".to_string());
    given.port = Some(1883);
    given.message = Some("cmd {}".to_string());
    let mut preset = empty();
    preset.port = Some(1999);
    preset.topic = Some("builds".to_string());
    preset.auth = Some("k".to_string());
    preset.addr = Some("ignored:1".to_string());
    let op = resolve(Role::Listen, given, preset).ok().unwrap();
    assert_eq!(op.auth.as_deref(), Some("k"));
    match op.transport {
        Transport::Relay { broker, port, topic } => {
            assert_eq!(broker, "broker");
            assert_eq!(port, 1999);
            assert_eq!(topic, "builds");
        }
        _ => panic!("expected relay"),
    }
}

#[test]
fn resolve_command_line_port_wins() {
    let mut given = empty();
    given.relay = Some("b".to_string());
    given.topic = Some("t".to_string());
    given.port = Some(8883);
    given.message = Some("m".to_string());
    let mut preset = empty();
    preset.port = Some(1999);
    let op = resolve(Role::Send, given, preset).ok().unwrap();
    match op.transport {
        Transport::Relay { port, .. } => assert_eq!(port, 8883),
        _ => panic!("expected relay"),
    }
}

#[test]
fn resolve_errors() {
    let mut g = empty();
    g.addr = Some("a:1".to_string());
    assert!(matches!(resolve(Role::Send, g, empty()), Err(ConfigError::MissingMessage)));
    let mut g = empty();
    g.relay = Some("b".to_string());
    g.message = Some("m".to_string());
    assert!(matches!(resolve(Role::Send, g, empty()), Err(ConfigError::MissingTopic)));
    let mut g = empty();
    g.message = Some("m".to_string());
    assert!(matches!(resolve(Role::Listen, g, empty()), Err(ConfigError::MissingTransport)));
}

#[test]
fn broker_session_parameters() {
    assert_eq!(client_id(Role::Listen), "crier-listener");
    assert_eq!(client_id(Role::Send), "crier-sender");
    assert_eq!(keep_alive_secs(Role::Listen), 60);
    assert_eq!(keep_alive_secs(Role::Send), 5);
    assert_eq!(relay_guarantee(Role::Listen), Guarantee::AtLeastOnce);
    assert_eq!(relay_guarantee(Role::Send), Guarantee::AtMostOnce);
}
