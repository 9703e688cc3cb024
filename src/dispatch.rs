//! Dispatch: a received message is substituted into a command template.
use vstd::prelude::*;

verus! {

/// `template` with every `{}`, taken left to right, replaced by `message`.
pub open spec fn substituted(template: Seq<char>, message: Seq<char>) -> Seq<char>
    decreases template.len(),
{
    if template.len() == 0 {
        Seq::empty()
    } else if template.len() >= 2 && template[0] == '{' && template[1] == '}' {
        message + substituted(template.skip(2), message)
    } else {
        seq![template[0]] + substituted(template.skip(1), message)
    }
}

/// The command to run for `message`: `template` with every `{}` replaced by
/// the message, inserted verbatim.
pub fn build_command(template: &str, message: &str) -> (r: String)
    ensures
        r@ == substituted(template@, message@),
{
    let n = template.unicode_len();
    let mut out = String::new();
    let mut i: usize = 0;
    assert(template@.skip(0) =~= template@);
    assert(out@ + substituted(template@.skip(0), message@) =~= substituted(template@, message@));
    while i < n
        invariant
            n == template@.len(),
            i <= n,
            out@ + substituted(template@.skip(i as int), message@) == substituted(
                template@,
                message@,
            ),
        decreases n - i,
    {
        let ghost rest = template@.skip(i as int);
        if i + 1 < n && template.get_char(i) == '{' && template.get_char(i + 1) == '}' {
            assert(rest.skip(2) =~= template@.skip(i + 2));
            out.append(message);
            assert(out@ + substituted(template@.skip(i + 2), message@) =~= substituted(
                template@,
                message@,
            ));
            i = i + 2;
        } else {
            let piece = template.substring_char(i, i + 1);
            assert(rest.skip(1) =~= template@.skip(i + 1));
            assert(piece@ =~= seq![rest[0]]);
            out.append(piece);
            assert(out@ + substituted(template@.skip(i + 1), message@) =~= substituted(
                template@,
                message@,
            ));
            i = i + 1;
        }
    }
    assert(template@.skip(n as int) =~= Seq::<char>::empty());
    assert(out@ =~= substituted(template@, message@));
    out
}

/// How a command run ended.
pub enum ExecutionOutcome {
    /// The interpreter ran and returned a status.
    Completed(bool),
    /// The interpreter could not be started.
    LaunchFailed(String),
}

} // verus!
