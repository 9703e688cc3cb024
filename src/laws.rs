//! Properties that relate the encoders, the decoders and the listener's steps.
use vstd::prelude::*;
use crate::text::has_prefix;
use crate::direct::{direct_decoded, line_end, line_of, next_line, strip_cr};
use crate::envelope::{
    auth_line, auth_word, direct_wire, relay_decoded, relay_prefix, relay_wire, DecodeError,
};

verus! {

/// A text that fits on one line: no `\n`, and no `\r` that a line reader
/// would take for part of a terminator.
pub open spec fn single_line(s: Seq<char>) -> bool {
    (forall|j: int| 0 <= j < s.len() ==> s[j] != '\n') && !(s.len() > 0 && s.last() == '\r')
}

proof fn lemma_line_end_prefix(a: Seq<char>, b: Seq<char>)
    requires
        forall|j: int| 0 <= j < a.len() ==> a[j] != '\n',
    ensures
        line_end(a.push('\n') + b) == a.len(),
    decreases a.len(),
{
    let s = a.push('\n') + b;
    if a.len() > 0 {
        assert(s.skip(1) =~= a.skip(1).push('\n') + b);
        lemma_line_end_prefix(a.skip(1), b);
    }
}

proof fn lemma_next_line_of(a: Seq<char>, b: Seq<char>)
    requires
        single_line(a),
    ensures
        next_line(a.push('\n') + b) == Some((a, b)),
{
    let s = a.push('\n') + b;
    lemma_line_end_prefix(a, b);
    assert(s.take(a.len() as int) =~= a);
    assert(strip_cr(a) == a);
    assert(s.skip((a.len() + 1) as int) =~= b);
}

/// Whatever token and one-line message a direct sender encodes, a listener
/// expecting that token (or none, when none was sent) reads back the message.
pub proof fn lemma_direct_round_trip(auth: Option<Seq<char>>, m: Seq<char>)
    requires
        single_line(m),
        auth matches Some(t) ==> single_line(t),
    ensures
        direct_decoded(direct_wire(auth, m), auth) == Ok::<Seq<char>, DecodeError>(m),
{
    match auth {
        Some(t) => {
            let line = auth_line(t);
            assert(single_line(line)) by {
                assert forall|j: int| 0 <= j < line.len() implies line[j] != '\n' by {
                    if j >= auth_word().len() {
                        assert(line[j] == t[j - auth_word().len()]);
                    }
                }
                if t.len() > 0 {
                    assert(line.last() == t.last());
                }
            }
            assert(direct_wire(auth, m) =~= line.push('\n') + m.push('\n'));
            lemma_next_line_of(line, m.push('\n'));
            lemma_next_line_of(m, Seq::empty());
            assert(m.push('\n') + Seq::empty() =~= m.push('\n'));
        },
        None => {
            lemma_next_line_of(m, Seq::empty());
            assert(m.push('\n') + Seq::empty() =~= m.push('\n'));
        },
    }
}

/// Whatever token and message a relay sender encodes, a listener expecting
/// that token (or none, when none was sent) reads back the message.
pub proof fn lemma_relay_round_trip(auth: Option<Seq<char>>, m: Seq<char>)
    ensures
        relay_decoded(relay_wire(auth, m), auth) == Ok::<Seq<char>, DecodeError>(m),
{
    if let Some(t) = auth {
        let p = relay_prefix(t);
        assert((p + m).subrange(0, p.len() as int) =~= p);
        assert((p + m).skip(p.len() as int) =~= m);
    }
}

/// A direct listener that expects token `t` rejects, with an auth error, any
/// connection whose first line is not `AUTH:<t>`, and dispatches nothing.
pub proof fn lemma_direct_rejects_wrong_token(wire: Seq<char>, t: Seq<char>)
    requires
        line_of(next_line(wire)) != Some(auth_line(t)),
    ensures
        direct_decoded(wire, Some(t)) == Err::<Seq<char>, DecodeError>(DecodeError::Auth),
{
}

/// A relay listener that expects token `t` rejects, with an auth error, any
/// payload that does not start with `AUTH:<t>:`.
pub proof fn lemma_relay_rejects_wrong_token(payload: Seq<char>, t: Seq<char>)
    requires
        !has_prefix(payload, relay_prefix(t)),
    ensures
        relay_decoded(payload, Some(t)) == Err::<Seq<char>, DecodeError>(DecodeError::Auth),
{
}

/// Without an expected token, a direct listener takes the first line as the
/// message, whatever it holds (a line that starts with `AUTH:` included), and a
/// relay listener takes the whole payload.
pub proof fn lemma_no_auth_pass_through(wire: Seq<char>, payload: Seq<char>)
    requires
        wire.len() > 0,
    ensures
        direct_decoded(wire, None) == Ok::<Seq<char>, DecodeError>(
            strip_cr(wire.take(line_end(wire) as int)),
        ),
        relay_decoded(payload, None) == Ok::<Seq<char>, DecodeError>(payload),
{
}

} // verus!
