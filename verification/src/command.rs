//! The line protocol of the command channel.
//!
//! A request is one line of text: a command word, then optionally one space
//! and an argument that runs to the end of the line. Surrounding whitespace
//! is not part of the request.

use crate::text::{find_from, from_chars, next_index_of, next_index_of_is_first, range_equals, to_chars};
use vstd::prelude::*;

verus! {

/// One request, as read from a line of the command channel.
#[derive(Debug, PartialEq, Eq)]
pub enum Command {
    /// Replace the payload by the library at this path.
    Reload(String),
    /// A command word that the loader does not know.
    Unrecognized(String),
    /// A line with nothing on it.
    Empty,
}

/// What a `Command` holds, as sequences of characters.
pub enum CommandView {
    Reload(Seq<char>),
    Unrecognized(Seq<char>),
    Empty,
}

impl View for Command {
    type V = CommandView;

    open spec fn view(&self) -> CommandView {
        match self {
            Command::Reload(path) => CommandView::Reload(path@),
            Command::Unrecognized(word) => CommandView::Unrecognized(word@),
            Command::Empty => CommandView::Empty,
        }
    }
}

/// The characters that count as whitespace around a request: the Unicode
/// code points with the White_Space property.
pub open spec fn is_whitespace(c: char) -> bool {
    let n = c as u32;
    ||| 0x09 <= n <= 0x0D
    ||| n == 0x20
    ||| n == 0x85
    ||| n == 0xA0
    ||| n == 0x1680
    ||| 0x2000 <= n <= 0x200A
    ||| n == 0x2028
    ||| n == 0x2029
    ||| n == 0x202F
    ||| n == 0x205F
    ||| n == 0x3000
}

/// `s` without its leading whitespace.
pub open spec fn trim_start(s: Seq<char>) -> Seq<char>
    decreases s.len(),
{
    if s.len() > 0 && is_whitespace(s[0]) {
        trim_start(s.drop_first())
    } else {
        s
    }
}

/// `s` without its trailing whitespace.
pub open spec fn trim_end(s: Seq<char>) -> Seq<char>
    decreases s.len(),
{
    if s.len() > 0 && is_whitespace(s.last()) {
        trim_end(s.drop_last())
    } else {
        s
    }
}

/// `s` without the whitespace at either end.
pub open spec fn trim(s: Seq<char>) -> Seq<char> {
    trim_end(trim_start(s))
}

/// The word that asks for a reload.
pub open spec fn reload_word() -> Seq<char> {
    seq!['r', 'e', 'l', 'o', 'a', 'd']
}

/// The request that a line stands for.
///
/// The line is trimmed. Nothing left means `Empty`. Otherwise the command
/// word runs up to the first space. The word `reload` followed by a space
/// gives `Reload` with everything after that space; any other word, and a
/// bare `reload` that names no path, gives `Unrecognized` with the word.
pub open spec fn parse(line: Seq<char>) -> CommandView {
    let t = trim(line);
    let cut = next_index_of(t, ' ', 0);
    if t.len() == 0 {
        CommandView::Empty
    } else if t.take(cut) == reload_word() && cut < t.len() {
        CommandView::Reload(t.skip(cut + 1))
    } else {
        CommandView::Unrecognized(t.take(cut))
    }
}

/// Decides whether `c` is whitespace.
pub fn is_whitespace_char(c: char) -> (ws: bool)
    ensures
        ws == is_whitespace(c),
{
    let n: u32 = c as u32;
    (0x09 <= n && n <= 0x0D) || n == 0x20 || n == 0x85 || n == 0xA0 || n == 0x1680 || (0x2000 <= n
        && n <= 0x200A) || n == 0x2028 || n == 0x2029 || n == 0x202F || n == 0x205F || n == 0x3000
}

proof fn trim_start_is_skip(s: Seq<char>, i: int)
    requires
        0 <= i <= s.len(),
        forall|j: int| 0 <= j < i ==> is_whitespace(s[j]),
        i == s.len() || !is_whitespace(s[i]),
    ensures
        trim_start(s) == s.skip(i),
    decreases i,
{
    if i == 0 {
        assert(s.skip(0) =~= s);
    } else {
        let rest = s.drop_first();
        assert forall|j: int| 0 <= j < i - 1 implies is_whitespace(rest[j]) by {
            assert(rest[j] == s[j + 1]);
        }
        trim_start_is_skip(rest, i - 1);
        assert(rest.skip(i - 1) =~= s.skip(i));
    }
}

proof fn trim_end_is_take(s: Seq<char>, k: int)
    requires
        0 <= k <= s.len(),
        forall|j: int| k <= j < s.len() ==> is_whitespace(s[j]),
        k == 0 || !is_whitespace(s[k - 1]),
    ensures
        trim_end(s) == s.take(k),
    decreases s.len() - k,
{
    if k == s.len() {
        assert(s.take(k) =~= s);
    } else {
        let rest = s.drop_last();
        trim_end_is_take(rest, k);
        assert(rest.take(k) =~= s.take(k));
    }
}

/// Reads one line of the command channel.
pub fn parse_command(line: &str) -> (command: Command)
    ensures
        command@ == parse(line@),
{
    let v = to_chars(line);
    let mut start: usize = 0;
    while start < v.len() && is_whitespace_char(v[start])
        invariant
            start <= v.len(),
            forall|j: int| 0 <= j < start ==> is_whitespace(v@[j]),
        decreases v.len() - start,
    {
        start += 1;
    }
    let mut end: usize = v.len();
    while end > start && is_whitespace_char(v[end - 1])
        invariant
            start <= end <= v.len(),
            forall|j: int| end <= j < v.len() ==> is_whitespace(v@[j]),
        decreases end - start,
    {
        end -= 1;
    }
    let ghost t = v@.subrange(start as int, end as int);
    proof {
        trim_start_is_skip(v@, start as int);
        let tail = v@.skip(start as int);
        assert forall|j: int| end - start <= j < tail.len() implies is_whitespace(tail[j]) by {
            assert(tail[j] == v@[start + j]);
        }
        trim_end_is_take(tail, end - start);
        assert(tail.take(end - start) =~= t);
        assert(trim(line@) == t);
    }
    if start == end {
        return Command::Empty;
    }
    let cut = find_from(&v, ' ', start);
    let cut = if cut < end {
        cut
    } else {
        end
    };
    proof {
        next_index_of_is_first(v@, ' ', start as int);
        next_index_of_is_first(t, ' ', 0);
        let c = next_index_of(t, ' ', 0);
        assert forall|j: int| 0 <= j < t.len() implies t[j] == v@[start + j] by {}
        if c < cut - start {
            assert(t[c] == ' ');
            assert(v@[start + c] == ' ');
        }
        if cut - start < c {
            assert(t[cut - start] != ' ');
        }
        assert(c == cut - start);
        assert(t.take(c) =~= v@.subrange(start as int, cut as int));
        if cut < end {
            assert(t.skip(c + 1) =~= v@.subrange(cut + 1, end as int));
        }
    }
    let mut word: Vec<char> = Vec::new();
    word.push('r');
    word.push('e');
    word.push('l');
    word.push('o');
    word.push('a');
    word.push('d');
    assert(word@ =~= reload_word());
    if cut < end && range_equals(&v, start, cut, &word) {
        Command::Reload(from_chars(&v, cut + 1, end))
    } else {
        Command::Unrecognized(from_chars(&v, start, cut))
    }
}

/// A `Reload` never carries an empty path: the trimmed line ends in a
/// character that is not whitespace, so something follows the space.
pub proof fn reload_path_is_not_empty(line: Seq<char>)
    ensures
        parse(line) matches CommandView::Reload(path) ==> path.len() > 0,
{
    let t = trim(line);
    trim_ends_in_text(line);
    next_index_of_is_first(t, ' ', 0);
    let cut = next_index_of(t, ' ', 0);
    if t.len() > 0 && cut < t.len() {
        if cut == t.len() - 1 {
            assert(t.last() == ' ');
            assert(is_whitespace(' '));
        }
    }
}

/// A trimmed line neither starts nor ends with whitespace.
pub proof fn trim_ends_in_text(s: Seq<char>)
    ensures
        trim(s).len() > 0 ==> !is_whitespace(trim(s)[0]) && !is_whitespace(trim(s).last()),
{
    trim_start_starts_in_text(s);
    trim_end_keeps_head(trim_start(s));
}

proof fn trim_start_starts_in_text(s: Seq<char>)
    ensures
        trim_start(s).len() > 0 ==> !is_whitespace(trim_start(s)[0]),
    decreases s.len(),
{
    if s.len() > 0 && is_whitespace(s[0]) {
        trim_start_starts_in_text(s.drop_first());
    }
}

proof fn trim_end_keeps_head(s: Seq<char>)
    ensures
        trim_end(s).len() > 0 ==> !is_whitespace(trim_end(s).last()) && trim_end(s)[0] == s[0],
        trim_end(s).len() <= s.len(),
    decreases s.len(),
{
    if s.len() > 0 && is_whitespace(s.last()) {
        trim_end_keeps_head(s.drop_last());
    }
}

} // verus!
