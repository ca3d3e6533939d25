//! Reading the user's command line: blank lines, the session commands, and
//! messages for the agent.

use vstd::prelude::*;
use vstd::string::*;

verus! {

/// The characters with the Unicode `White_Space` property, which `char::is_whitespace`
/// recognises and `str::trim` removes.
pub open spec fn is_white_space(c: char) -> bool {
    let u = c as int;
    (0x09 <= u <= 0x0D) || u == 0x20 || u == 0x85 || u == 0xA0 || u == 0x1680 || (0x2000 <= u <= 0x200A)
        || u == 0x2028 || u == 0x2029 || u == 0x202F || u == 0x205F || u == 0x3000
}

/// `s` without leading white space.
pub open spec fn trim_start(s: Seq<char>) -> Seq<char>
    decreases s.len(),
{
    if s.len() > 0 && is_white_space(s[0]) {
        trim_start(s.drop_first())
    } else {
        s
    }
}

/// `s` without trailing white space.
pub open spec fn trim_end(s: Seq<char>) -> Seq<char>
    decreases s.len(),
{
    if s.len() > 0 && is_white_space(s.last()) {
        trim_end(s.drop_last())
    } else {
        s
    }
}

/// `s` without leading and trailing white space (as `str::trim`).
pub open spec fn trimmed(s: Seq<char>) -> Seq<char> {
    trim_end(trim_start(s))
}

fn white_space(c: char) -> (r: bool)
    ensures
        r == is_white_space(c),
{
    let u = c as u32;
    (0x09 <= u && u <= 0x0D) || u == 0x20 || u == 0x85 || u == 0xA0 || u == 0x1680 || (0x2000 <= u
        && u <= 0x200A) || u == 0x2028 || u == 0x2029 || u == 0x202F || u == 0x205F || u == 0x3000
}

/// The text without leading and trailing white space.
pub fn trim_text(s: &str) -> (r: String)
    ensures
        r@ == trimmed(s@),
{
    let n = s.unicode_len();
    let mut start: usize = 0;
    assert(s@.subrange(0, n as int) =~= s@);
    while start < n && white_space(s.get_char(start))
        invariant
            n == s@.len(),
            start <= n,
            trim_start(s@.subrange(start as int, n as int)) == trim_start(s@),
        decreases n - start,
    {
        assert(s@.subrange(start as int, n as int).drop_first() =~= s@.subrange(start + 1, n as int));
        start = start + 1;
    }
    assert(trim_start(s@) == s@.subrange(start as int, n as int));
    let mut end: usize = n;
    assert(s@.subrange(start as int, end as int) =~= trim_start(s@));
    while end > start && white_space(s.get_char(end - 1))
        invariant
            n == s@.len(),
            start <= end <= n,
            trim_end(s@.subrange(start as int, end as int)) == trimmed(s@),
        decreases end - start,
    {
        assert(s@.subrange(start as int, end as int).drop_last() =~= s@.subrange(start as int, end - 1));
        end = end - 1;
    }
    String::from_str(s.substring_char(start, end))
}

/// What a line typed at the prompt asks for.
pub enum ReplCommand {
    /// A blank line: nothing to do.
    Skip,
    /// `/quit` or `/exit`: end the session.
    Quit,
    /// `/reset`: clear the conversation.
    Reset,
    /// Anything else: a message for the agent, trimmed.
    Chat(String),
}

/// Reads a line: trims it, then recognises a blank line, `/quit`, `/exit` and
/// `/reset`; any other text is a message for the agent.
pub fn classify_line(line: &str) -> (c: ReplCommand)
    ensures
        trimmed(line@).len() == 0 ==> c is Skip,
        trimmed(line@) == "/quit"@ || trimmed(line@) == "/exit"@ ==> c is Quit,
        trimmed(line@) == "/reset"@ ==> c is Reset,
        trimmed(line@).len() != 0 && trimmed(line@) != "/quit"@ && trimmed(line@) != "/exit"@ && trimmed(
            line@,
        ) != "/reset"@ ==> (c matches ReplCommand::Chat(t) && t@ == trimmed(line@)),
{
    proof {
        reveal_strlit("/quit");
        reveal_strlit("/exit");
        reveal_strlit("/reset");
        assert("/reset"@.len() == 6 && "/quit"@.len() == 5 && "/exit"@.len() == 5);
    }
    let input = trim_text(line);
    if input.as_str().unicode_len() == 0 {
        ReplCommand::Skip
    } else if input == String::from_str("/quit") || input == String::from_str("/exit") {
        ReplCommand::Quit
    } else if input == String::from_str("/reset") {
        ReplCommand::Reset
    } else {
        ReplCommand::Chat(input)
    }
}

} // verus!
