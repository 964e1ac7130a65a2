//! Text rules of the line reader: trimming, the exit commands, and the
//! confirmation line.

use vstd::prelude::*;
use vstd::string::StringExecFns;

verus! {

/// The code points with the Unicode property `White_Space`.
pub open spec fn is_white_space(c: char) -> bool {
    let n = c as u32;
    ||| 0x09 <= n <= 0x0d
    ||| n == 0x20
    ||| n == 0x85
    ||| n == 0xa0
    ||| n == 0x1680
    ||| 0x2000 <= n <= 0x200a
    ||| n == 0x2028
    ||| n == 0x2029
    ||| n == 0x202f
    ||| n == 0x205f
    ||| n == 0x3000
}

/// `s` without its leading white space.
pub open spec fn trim_start(s: Seq<char>) -> Seq<char>
    decreases s.len(),
{
    if s.len() > 0 && is_white_space(s[0]) {
        trim_start(s.drop_first())
    } else {
        s
    }
}

/// `s` without its trailing white space.
pub open spec fn trim_end(s: Seq<char>) -> Seq<char>
    decreases s.len(),
{
    if s.len() > 0 && is_white_space(s.last()) {
        trim_end(s.drop_last())
    } else {
        s
    }
}

/// `s` without its leading and trailing white space.
pub open spec fn trimmed(s: Seq<char>) -> Seq<char> {
    trim_end(trim_start(s))
}

/// Whether a submitted line asks to leave: trimmed, it is exactly `exit` or
/// `quit`, in lower case.
pub open spec fn is_exit_text(s: Seq<char>) -> bool {
    trimmed(s) == "exit"@ || trimmed(s) == "quit"@
}

/// The text of the line that confirms a submission.
pub open spec fn confirmation_text(input: Seq<char>) -> Seq<char> {
    "\r\nYou entered: "@ + input + "\r\n"@
}

/// Calls `str::trim` of the standard library. Not proved: that the slice it
/// returns is the argument with the leading and trailing characters of the
/// Unicode property `White_Space` removed, which is what `trimmed` says.
#[verifier::external_body]
fn trim<'a>(s: &'a str) -> (r: &'a str)
    ensures
        r@ == trimmed(s@),
{
    s.trim()
}

/// Calls `String::push` of the standard library. Not proved: that it appends
/// the character at the end and changes nothing else.
#[verifier::external_body]
pub(crate) fn push_char(s: &mut String, c: char)
    ensures
        final(s)@ == old(s)@.push(c),
{
    s.push(c)
}

/// Calls `String::pop` of the standard library. Not proved: that it removes
/// the last character and returns it, and that on an empty string it returns
/// `None` and changes nothing.
#[verifier::external_body]
pub(crate) fn pop_char(s: &mut String) -> (r: Option<char>)
    ensures
        old(s)@.len() == 0 ==> r is None && final(s)@ == old(s)@,
        old(s)@.len() > 0 ==> r == Some(old(s)@.last()) && final(s)@ == old(s)@.drop_last(),
{
    s.pop()
}

/// Calls `String::clear` of the standard library. Not proved: that the string
/// is empty afterwards.
#[verifier::external_body]
pub(crate) fn clear(s: &mut String)
    ensures
        final(s)@ == Seq::<char>::empty(),
{
    s.clear()
}

/// Whether the line asks to leave the session.
pub fn is_exit_command(input: &str) -> (b: bool)
    ensures
        b == is_exit_text(input@),
{
    let t = String::from_str(trim(input));
    t == String::from_str("exit") || t == String::from_str("quit")
}

/// The line that confirms a submission: the input between a line break and
/// the words `You entered: ` before it, and a line break after it. The input
/// is kept as it was typed, inner and trailing white space included.
pub fn confirmation(input: &str) -> (line: String)
    ensures
        line@ == confirmation_text(input@),
{
    let mut line = String::from_str("\r\nYou entered: ");
    line.append(input);
    line.append("\r\n");
    line
}

} // verus!
