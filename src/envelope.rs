//! The envelope (an optional auth token and a one-line message) and its two
//! wire forms: newline-delimited lines for direct connections, and a single
//! colon-prefixed payload for broker relay.
use vstd::prelude::*;
use crate::text::{has_prefix, opt_view, starts_with_text, suffix_from};

verus! {

/// What a listener receives once the wire form has been accepted.
pub struct Envelope {
    pub auth: Option<String>,
    pub message: String,
}

/// Why a wire form was not accepted.
#[derive(PartialEq, Eq, Structural, Clone, Copy, Debug)]
pub enum DecodeError {
    /// The auth token was missing or did not match the expected one.
    Auth,
    /// The wire form ended before the message.
    Format,
}

/// The tag that starts every auth token on the wire.
pub open spec fn auth_word() -> Seq<char> {
    seq!['A', 'U', 'T', 'H', ':']
}

/// The line (without terminator) that carries token `t` on a direct connection.
pub open spec fn auth_line(t: Seq<char>) -> Seq<char> {
    auth_word() + t
}

/// The prefix that carries token `t` in a relay payload.
pub open spec fn relay_prefix(t: Seq<char>) -> Seq<char> {
    auth_line(t).push(':')
}

/// The view of an optional string slice.
pub open spec fn opt_str_view(o: Option<&str>) -> Option<Seq<char>> {
    match o {
        Some(s) => Some(s@),
        None => None,
    }
}

/// Direct wire form: an optional `AUTH:<token>` line, then the message line.
pub open spec fn direct_wire(auth: Option<Seq<char>>, m: Seq<char>) -> Seq<char> {
    match auth {
        Some(t) => auth_line(t).push('\n') + m.push('\n'),
        None => m.push('\n'),
    }
}

/// Relay wire form: an optional `AUTH:<token>:` prefix, then the message.
pub open spec fn relay_wire(auth: Option<Seq<char>>, m: Seq<char>) -> Seq<char> {
    match auth {
        Some(t) => relay_prefix(t) + m,
        None => m,
    }
}

/// The message a relay listener expecting `expected` takes from `payload`.
pub open spec fn relay_decoded(payload: Seq<char>, expected: Option<Seq<char>>) -> Result<
    Seq<char>,
    DecodeError,
> {
    match expected {
        Some(t) => if has_prefix(payload, relay_prefix(t)) {
            Ok(payload.skip(relay_prefix(t).len() as int))
        } else {
            Err(DecodeError::Auth)
        },
        None => Ok(payload),
    }
}

/// `r` is the envelope `(auth, message)` when `expected` is `Ok(message)`, and
/// the same error otherwise.
pub open spec fn decodes_as(
    r: Result<Envelope, DecodeError>,
    auth: Option<Seq<char>>,
    expected: Result<Seq<char>, DecodeError>,
) -> bool {
    match (r, expected) {
        (Ok(e), Ok(m)) => opt_view(e.auth) == auth && e.message@ == m,
        (Err(a), Err(b)) => a == b,
        _ => false,
    }
}

/// The text of a payload whose bytes were read as UTF-8, with each invalid
/// sequence replaced by U+FFFD.
pub uninterp spec fn lossy_text_of(b: Seq<u8>) -> Seq<char>;

/// Relies on `String::from_utf8_lossy`: it reads the bytes as UTF-8 and its
/// result depends on the bytes alone.
#[verifier::external_body]
fn text_of_payload(b: &[u8]) -> (r: String)
    ensures
        r@ == lossy_text_of(b@),
{
    String::from_utf8_lossy(b).into_owned()
}

/// `AUTH:<token>`.
pub fn auth_line_text(token: &str) -> (r: String)
    ensures
        r@ == auth_line(token@),
{
    let mut s = String::from_str("AUTH:");
    proof {
        reveal_strlit("AUTH:");
        assert("AUTH:"@ =~= auth_word());
    }
    s.append(token);
    s
}

/// The bytes a direct sender writes for `message`, with `auth` when present.
pub fn encode_direct(auth: Option<&str>, message: &str) -> (r: String)
    ensures
        r@ == direct_wire(opt_str_view(auth), message@),
{
    proof {
        reveal_strlit("\n");
        assert("\n"@ =~= seq!['\n']);
    }
    let mut s = match auth {
        Some(t) => {
            let mut line = auth_line_text(t);
            line.append("\n");
            line
        },
        None => String::new(),
    };
    s.append(message);
    s.append("\n");
    proof {
        match auth {
            Some(t) => {
                assert(s@ =~= auth_line(t@).push('\n') + message@.push('\n'));
            },
            None => {
                assert(s@ =~= message@.push('\n'));
            },
        }
    }
    s
}

/// The payload a relay sender publishes for `message`, with `auth` when present.
pub fn encode_relay(auth: Option<&str>, message: &str) -> (r: String)
    ensures
        r@ == relay_wire(opt_str_view(auth), message@),
{
    match auth {
        Some(t) => {
            let mut s = auth_line_text(t);
            proof {
                reveal_strlit(":");
                assert(":"@ =~= seq![':']);
            }
            s.append(":");
            s.append(message);
            proof {
                assert(s@ =~= relay_prefix(t@) + message@);
            }
            s
        },
        None => String::from_str(message),
    }
}

/// `AUTH:<token>:`.
fn relay_prefix_text(token: &str) -> (r: String)
    ensures
        r@ == relay_prefix(token@),
{
    let mut s = auth_line_text(token);
    proof {
        reveal_strlit(":");
        assert(":"@ =~= seq![':']);
    }
    s.append(":");
    proof {
        assert(s@ =~= auth_line(token@).push(':'));
    }
    s
}

/// Reads a relay payload as a listener expecting `expected` does: with a
/// token, the payload must start with `AUTH:<token>:` and the message is what
/// follows; without one, the whole payload is the message.
pub fn decode_relay(payload: &str, expected: Option<&str>) -> (r: Result<Envelope, DecodeError>)
    ensures
        decodes_as(r, opt_str_view(expected), relay_decoded(payload@, opt_str_view(expected))),
{
    match expected {
        Some(t) => {
            let prefix = relay_prefix_text(t);
            if starts_with_text(payload, prefix.as_str()) {
                let n = prefix.as_str().unicode_len();
                let message = suffix_from(payload, n);
                Ok(Envelope { auth: Some(String::from_str(t)), message })
            } else {
                Err(DecodeError::Auth)
            }
        },
        None => Ok(Envelope { auth: None, message: String::from_str(payload) }),
    }
}

/// Reads the bytes of a relay payload as text, then as `decode_relay` does.
pub fn decode_relay_payload(payload: &[u8], expected: Option<&str>) -> (r: Result<
    Envelope,
    DecodeError,
>)
    ensures
        decodes_as(
            r,
            opt_str_view(expected),
            relay_decoded(lossy_text_of(payload@), opt_str_view(expected)),
        ),
{
    let text = text_of_payload(payload);
    decode_relay(text.as_str(), expected)
}

} // verus!
