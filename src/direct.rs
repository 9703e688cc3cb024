//! Direct transport: one connection carries an optional `AUTH:<token>` line and
//! a message line, and the listener answers with one line.
use vstd::prelude::*;
use crate::envelope::{
    auth_line, auth_line_text, opt_str_view, DecodeError, Envelope, decodes_as,
};
use crate::text::{opt_view, same_text, suffix_from};

verus! {

/// How many characters of `s` come before its first `\n` (all of them if
/// there is none).
pub open spec fn line_end(s: Seq<char>) -> nat
    decreases s.len(),
{
    if s.len() == 0 {
        0
    } else if s[0] == '\n' {
        0
    } else {
        1 + line_end(s.skip(1))
    }
}

/// A line without the `\r` of a `\r\n` terminator.
pub open spec fn strip_cr(l: Seq<char>) -> Seq<char> {
    if l.len() > 0 && l.last() == '\r' {
        l.drop_last()
    } else {
        l
    }
}

/// The first line of `s` and what follows its terminator, or `None` when `s`
/// is empty.
pub open spec fn next_line(s: Seq<char>) -> Option<(Seq<char>, Seq<char>)> {
    if s.len() == 0 {
        None
    } else {
        let k = line_end(s);
        Some(
            (
                strip_cr(s.take(k as int)),
                if k < s.len() {
                    s.skip((k + 1) as int)
                } else {
                    Seq::empty()
                },
            ),
        )
    }
}

proof fn lemma_line_end_at(s: Seq<char>, k: int)
    requires
        0 <= k <= s.len(),
        forall|j: int| 0 <= j < k ==> s[j] != '\n',
        k == s.len() || s[k] == '\n',
    ensures
        line_end(s) == k,
    decreases k,
{
    if k > 0 {
        lemma_line_end_at(s.skip(1), k - 1);
    }
}

/// Splits off the first line of `s`, as a line reader does.
pub fn take_line(s: &str) -> (r: Option<(String, String)>)
    ensures
        match (r, next_line(s@)) {
            (Some((l, rest)), Some((a, b))) => l@ == a && rest@ == b,
            (None, None) => true,
            _ => false,
        },
{
    let n = s.unicode_len();
    if n == 0 {
        return None;
    }
    let mut i: usize = 0;
    while i < n && s.get_char(i) != '\n'
        invariant
            n == s@.len(),
            i <= n,
            forall|j: int| 0 <= j < i ==> s@[j] != '\n',
        decreases n - i,
    {
        i = i + 1;
    }
    proof {
        lemma_line_end_at(s@, i as int);
    }
    let mut end: usize = i;
    if i > 0 && s.get_char(i - 1) == '\r' {
        end = i - 1;
    }
    let line = String::from_str(s.substring_char(0, end));
    let rest = if i < n {
        suffix_from(s, i + 1)
    } else {
        String::new()
    };
    assert(line@ =~= strip_cr(s@.take(i as int)));
    Some((line, rest))
}

/// Where a direct connection stands on the listening side.
#[derive(PartialEq, Eq, Structural, Clone, Copy, Debug)]
pub enum Stage {
    /// The next line must be the auth line.
    AwaitAuth,
    /// The next line is the message.
    AwaitMessage,
    /// The exchange is over.
    Finished,
}

/// What the listener does after a line (or the end of the input) arrived.
pub enum DirectAction {
    /// Read the next line.
    ReadLine,
    /// Answer `ERR:AUTH` and close.
    Reject,
    /// Dispatch the message, answer `OK` and close.
    Deliver(String),
    /// Close without an answer.
    Drop,
}

/// The line the listener writes back for `action`: `OK` once a message was
/// dispatched, `ERR:AUTH` on a rejected token, nothing otherwise.
pub fn response_line(action: &DirectAction) -> (r: Option<&'static str>)
    ensures
        match action {
            DirectAction::Deliver(_) => r matches Some(l) && l@ == "OK\n"@,
            DirectAction::Reject => r matches Some(l) && l@ == "ERR:AUTH\n"@,
            _ => r is None,
        },
{
    match action {
        DirectAction::Deliver(_) => Some("OK\n"),
        DirectAction::Reject => Some("ERR:AUTH\n"),
        _ => None,
    }
}

/// The model of a `DirectAction`.
pub enum Verdict {
    ReadLine,
    Reject,
    Deliver(Seq<char>),
    Drop,
}

impl DirectAction {
    pub open spec fn view(self) -> Verdict {
        match self {
            DirectAction::ReadLine => Verdict::ReadLine,
            DirectAction::Reject => Verdict::Reject,
            DirectAction::Deliver(m) => Verdict::Deliver(m@),
            DirectAction::Drop => Verdict::Drop,
        }
    }
}

/// The stage a connection starts in.
pub open spec fn initial_stage(expected: Option<Seq<char>>) -> Stage {
    if expected is Some {
        Stage::AwaitAuth
    } else {
        Stage::AwaitMessage
    }
}

/// One step of a connection: `line` is the next line, or `None` at the end of
/// the input or on a read error.
pub open spec fn direct_next(
    stage: Stage,
    expected: Option<Seq<char>>,
    line: Option<Seq<char>>,
) -> (Stage, Verdict) {
    match stage {
        Stage::AwaitAuth => match (expected, line) {
            (Some(t), Some(l)) => if l == auth_line(t) {
                (Stage::AwaitMessage, Verdict::ReadLine)
            } else {
                (Stage::Finished, Verdict::Reject)
            },
            _ => (Stage::Finished, Verdict::Reject),
        },
        Stage::AwaitMessage => match line {
            Some(l) => (Stage::Finished, Verdict::Deliver(l)),
            None => (Stage::Finished, Verdict::Drop),
        },
        Stage::Finished => (Stage::Finished, Verdict::Drop),
    }
}

/// The listening side of one direct connection.
pub struct DirectSession {
    pub expected: Option<String>,
    pub stage: Stage,
}

impl DirectSession {
    /// A connection to a listener that expects `expected`.
    pub fn new(expected: Option<&str>) -> (r: DirectSession)
        ensures
            opt_view(r.expected) == opt_str_view(expected),
            r.stage == initial_stage(opt_str_view(expected)),
    {
        match expected {
            Some(t) => DirectSession { expected: Some(String::from_str(t)), stage: Stage::AwaitAuth },
            None => DirectSession { expected: None, stage: Stage::AwaitMessage },
        }
    }

    /// Takes the next line (`None` at the end of the input or on a read error)
    /// and says what to do.
    pub fn feed(&mut self, line: Option<String>) -> (r: DirectAction)
        ensures
            final(self).expected == old(self).expected,
            (final(self).stage, r@) == direct_next(
                old(self).stage,
                opt_view(old(self).expected),
                opt_view(line),
            ),
    {
        match self.stage {
            Stage::AwaitAuth => {
                self.stage = Stage::Finished;
                match (&self.expected, line) {
                    (Some(t), Some(l)) => {
                        let want = auth_line_text(t.as_str());
                        if same_text(l.as_str(), want.as_str()) {
                            self.stage = Stage::AwaitMessage;
                            DirectAction::ReadLine
                        } else {
                            DirectAction::Reject
                        }
                    },
                    _ => DirectAction::Reject,
                }
            },
            Stage::AwaitMessage => {
                self.stage = Stage::Finished;
                match line {
                    Some(l) => DirectAction::Deliver(l),
                    None => DirectAction::Drop,
                }
            },
            Stage::Finished => DirectAction::Drop,
        }
    }
}

/// The line of an optional split.
pub open spec fn line_of(o: Option<(Seq<char>, Seq<char>)>) -> Option<Seq<char>> {
    match o {
        Some((l, _)) => Some(l),
        None => None,
    }
}

/// What follows the line of an optional split.
pub open spec fn rest_of(o: Option<(Seq<char>, Seq<char>)>) -> Seq<char> {
    match o {
        Some((_, r)) => r,
        None => Seq::empty(),
    }
}

/// The outcome of a connection that ended with `v`.
pub open spec fn verdict_result(v: Verdict) -> Result<Seq<char>, DecodeError> {
    match v {
        Verdict::Deliver(m) => Ok(m),
        Verdict::Reject => Err(DecodeError::Auth),
        _ => Err(DecodeError::Format),
    }
}

/// What a listener expecting `expected` makes of a connection that sent `wire`.
pub open spec fn direct_decoded(wire: Seq<char>, expected: Option<Seq<char>>) -> Result<
    Seq<char>,
    DecodeError,
> {
    let l1 = next_line(wire);
    let (s1, v1) = direct_next(initial_stage(expected), expected, line_of(l1));
    match v1 {
        Verdict::ReadLine => verdict_result(
            direct_next(s1, expected, line_of(next_line(rest_of(l1)))).1,
        ),
        _ => verdict_result(v1),
    }
}

/// Reads everything a direct connection sent, as a listener expecting
/// `expected` does.
pub fn decode_direct(wire: &str, expected: Option<&str>) -> (r: Result<Envelope, DecodeError>)
    ensures
        decodes_as(r, opt_str_view(expected), direct_decoded(wire@, opt_str_view(expected))),
{
    let mut session = DirectSession::new(expected);
    let first = take_line(wire);
    let (line, rest) = match first {
        Some((l, r)) => (Some(l), r),
        None => (None, String::new()),
    };
    let mut action = session.feed(line);
    if let DirectAction::ReadLine = action {
        let second = take_line(rest.as_str());
        let line2 = match second {
            Some((l, _)) => Some(l),
            None => None,
        };
        action = session.feed(line2);
    }
    match action {
        DirectAction::Deliver(m) => {
            let auth = match expected {
                Some(t) => Some(String::from_str(t)),
                None => None,
            };
            Ok(Envelope { auth, message: m })
        },
        DirectAction::Reject => Err(DecodeError::Auth),
        _ => Err(DecodeError::Format),
    }
}

} // verus!
