//! Send-side outcomes: the acknowledgment of a direct send, and the progress of
//! a relay send while the broker connection is pumped.
use vstd::prelude::*;
use crate::text::same_text;

verus! {

/// The kinds of failure an operation reports.
#[derive(PartialEq, Eq, Structural, Clone, Copy, Debug)]
pub enum FailureKind {
    /// The transport could not be established, or the broker connection failed.
    Connect,
    /// The peer rejected the auth token.
    Auth,
    /// The broker did not confirm the publish in time.
    Timeout,
    /// The peer answered something unexpected.
    Protocol,
}

/// A failed operation, with a human-readable detail.
pub struct DeliveryError {
    pub kind: FailureKind,
    pub detail: String,
}

/// The acknowledgment that a direct listener sends for a dispatched message.
pub open spec fn ok_text() -> Seq<char> {
    seq!['O', 'K']
}

/// The answer that a direct listener sends when the token is wrong.
pub open spec fn auth_refused_text() -> Seq<char> {
    seq!['E', 'R', 'R', ':', 'A', 'U', 'T', 'H']
}

/// `line` without its trailing whitespace.
pub uninterp spec fn trim_end_of(s: Seq<char>) -> Seq<char>;

/// Relies on `str::trim_end`: the result depends on the characters alone.
#[verifier::external_body]
fn trimmed_end(s: &str) -> (r: String)
    ensures
        r@ == trim_end_of(s@),
{
    s.trim_end().to_string()
}

/// `r` is `Ok` when `line` is `OK`; otherwise it fails with `kind` (`Auth` for
/// `ERR:AUTH`, else `Protocol`) and the line as detail.
pub open spec fn ack_verdict(r: Result<(), DeliveryError>, line: Seq<char>) -> bool {
    if line == ok_text() {
        r is Ok
    } else {
        match r {
            Ok(_) => false,
            Err(e) => e.detail@ == line && e.kind == (if line == auth_refused_text() {
                FailureKind::Auth
            } else {
                FailureKind::Protocol
            }),
        }
    }
}

/// What a direct send amounts to, given the acknowledgment line with its
/// trailing whitespace removed.
pub fn classify_ack(line: &str) -> (r: Result<(), DeliveryError>)
    ensures
        ack_verdict(r, line@),
{
    proof {
        reveal_strlit("OK");
        reveal_strlit("ERR:AUTH");
        assert("OK"@ =~= ok_text());
        assert("ERR:AUTH"@ =~= auth_refused_text());
    }
    if same_text(line, "OK") {
        Ok(())
    } else if same_text(line, "ERR:AUTH") {
        Err(DeliveryError { kind: FailureKind::Auth, detail: String::from_str(line) })
    } else {
        Err(DeliveryError { kind: FailureKind::Protocol, detail: String::from_str(line) })
    }
}

/// What a direct send amounts to, given the raw acknowledgment line (empty when
/// nothing could be read).
pub fn acknowledgment_outcome(response: &str) -> (r: Result<(), DeliveryError>)
    ensures
        ack_verdict(r, trim_end_of(response@)),
{
    let line = trimmed_end(response);
    classify_ack(line.as_str())
}

/// How long a relay send waits for the broker to confirm, in milliseconds.
pub const CONFIRM_TIMEOUT_MS: u64 = 5000;

/// What the broker connection of a relay sender reported.
pub enum BrokerEvent {
    /// The broker acknowledged the connection.
    ConnAck,
    /// The publish left the client.
    PublishSent,
    /// The connection failed, with a description.
    Failure(String),
    /// Anything else.
    Other,
}

/// Where a relay send stands after an event.
pub enum SendProgress {
    /// Keep pumping the connection.
    Waiting,
    /// The publish was confirmed.
    Delivered,
    /// The send failed.
    Failed(DeliveryError),
}

/// Decides a relay send after `event`, observed `elapsed_ms` milliseconds after
/// the publish was issued. Past the bound the send times out whatever came;
/// otherwise a confirmed publish ends it, a connection failure fails it, and
/// anything else (a connection acknowledgment included) keeps it waiting.
pub fn relay_send_step(elapsed_ms: u64, event: BrokerEvent) -> (r: SendProgress)
    ensures
        elapsed_ms > CONFIRM_TIMEOUT_MS ==> match r {
            SendProgress::Failed(e) => e.kind == FailureKind::Timeout
                && e.detail@ == "Timeout waiting for broker"@,
            _ => false,
        },
        elapsed_ms <= CONFIRM_TIMEOUT_MS ==> match event {
            BrokerEvent::PublishSent => r is Delivered,
            BrokerEvent::Failure(d) => match r {
                SendProgress::Failed(e) => e.kind == FailureKind::Connect && e.detail == d,
                _ => false,
            },
            _ => r is Waiting,
        },
{
    if elapsed_ms > CONFIRM_TIMEOUT_MS {
        return SendProgress::Failed(
            DeliveryError {
                kind: FailureKind::Timeout,
                detail: String::from_str("Timeout waiting for broker"),
            },
        );
    }
    match event {
        BrokerEvent::PublishSent => SendProgress::Delivered,
        BrokerEvent::Failure(d) => SendProgress::Failed(
            DeliveryError { kind: FailureKind::Connect, detail: d },
        ),
        _ => SendProgress::Waiting,
    }
}

} // verus!
