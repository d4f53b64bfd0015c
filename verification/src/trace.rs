//! Reading the public address out of the address service's trace page.
//!
//! The page is plain text, one `key=value` pair per line. Lines end with a
//! line feed; a carriage return directly before that line feed belongs to the
//! line ending, not to the line. The address is the value of the first line
//! whose key is `ip`.

use vstd::prelude::*;
use vstd::string::*;
use crate::error::ClientError;

verus! {

/// Whether a line of `text` begins at position `at`: at the very start, or
/// directly behind a line feed. The position past the last character begins
/// no line.
pub open spec fn starts_line(text: Seq<char>, at: int) -> bool {
    0 <= at < text.len() && (at == 0 || text[at - 1] == '\n')
}

/// Whether the characters `ip=` stand at position `at`.
pub open spec fn holds_ip_key(text: Seq<char>, at: int) -> bool {
    &&& 0 <= at
    &&& at + 3 <= text.len()
    &&& text[at] == 'i'
    &&& text[at + 1] == 'p'
    &&& text[at + 2] == '='
}

/// Whether a line that carries the address begins at position `at`.
pub open spec fn is_ip_line(text: Seq<char>, at: int) -> bool {
    starts_line(text, at) && holds_ip_key(text, at)
}

/// The position of the first line feed at or behind `from`, or the length of
/// `text` where none follows.
pub open spec fn line_break(text: Seq<char>, from: int) -> int
    decreases text.len() - from,
{
    if from < 0 || from >= text.len() {
        text.len() as int
    } else if text[from] == '\n' {
        from
    } else {
        line_break(text, from + 1)
    }
}

/// Where the value that begins at `from` ends: at the line's end, without the
/// carriage return of a `\r\n` line ending.
pub open spec fn value_end(text: Seq<char>, from: int) -> int {
    let stop = line_break(text, from);
    if stop < text.len() && from < stop && text[stop - 1] == '\r' {
        stop - 1
    } else {
        stop
    }
}

/// The position of the first line at or behind `from` that carries the
/// address.
pub open spec fn ip_line_from(text: Seq<char>, from: int) -> Option<int>
    decreases text.len() - from,
{
    if from < 0 || from >= text.len() {
        None
    } else if is_ip_line(text, from) {
        Some(from)
    } else {
        ip_line_from(text, from + 1)
    }
}

/// The address that a trace page reports: the value of its first `ip` line.
pub open spec fn traced_ip(text: Seq<char>) -> Option<Seq<char>> {
    match ip_line_from(text, 0) {
        Some(at) => Some(text.subrange(at + 3, value_end(text, at + 3))),
        None => None,
    }
}

/// The line break found from `from` lies between `from` and the end of the
/// text, it is a line feed unless it is the end, and no line feed stands
/// before it.
pub proof fn lemma_line_break(text: Seq<char>, from: int)
    requires
        0 <= from <= text.len(),
    ensures
        from <= line_break(text, from) <= text.len(),
        line_break(text, from) < text.len() ==> text[line_break(text, from)] == '\n',
        forall|i: int| from <= i < line_break(text, from) ==> text[i] != '\n',
    decreases text.len() - from,
{
    if from < text.len() && text[from] != '\n' {
        lemma_line_break(text, from + 1);
    }
}

/// What `ip_line_from` finds is the first `ip` line at or behind `from`, and
/// it finds nothing only where no such line exists.
pub proof fn lemma_ip_line_from(text: Seq<char>, from: int)
    requires
        0 <= from,
    ensures
        match ip_line_from(text, from) {
            Some(at) => {
                &&& from <= at
                &&& is_ip_line(text, at)
                &&& forall|i: int| from <= i < at ==> !is_ip_line(text, i)
            },
            None => forall|i: int| from <= i ==> !is_ip_line(text, i),
        },
    decreases text.len() - from,
{
    if from < text.len() && !is_ip_line(text, from) {
        lemma_ip_line_from(text, from + 1);
    }
}

/// The reported address is the rest of the first line that begins with
/// `ip=`, and a page without such a line reports none. The value lies within
/// the page and holds no line feed.
pub proof fn lemma_traced_ip(text: Seq<char>)
    ensures
        traced_ip(text) is None <==> forall|at: int| !is_ip_line(text, at),
        traced_ip(text) matches Some(ip) ==> exists|at: int|
            {
                &&& #[trigger] is_ip_line(text, at)
                &&& forall|i: int| 0 <= i < at ==> !is_ip_line(text, i)
                &&& at + 3 <= value_end(text, at + 3) <= text.len()
                &&& ip == text.subrange(at + 3, value_end(text, at + 3))
                &&& forall|i: int| 0 <= i < ip.len() ==> ip[i] != '\n'
            },
{
    lemma_ip_line_from(text, 0);
    match ip_line_from(text, 0) {
        Some(at) => {
            lemma_line_break(text, at + 3);
            assert(is_ip_line(text, at));
        },
        None => {},
    }
}

/// The characters of `text`, in order.
fn chars_of(text: &str) -> (chars: Vec<char>)
    ensures
        chars@ == text@,
{
    let mut chars: Vec<char> = Vec::new();
    for c in it: text.chars()
        invariant
            it.seq() == text@,
            chars@ == it.seq().take(it.index()),
    {
        chars.push(c);
    }
    chars
}

/// Where the line that holds position `from` ends.
fn find_line_break(chars: &Vec<char>, from: usize) -> (stop: usize)
    requires
        from <= chars.len(),
    ensures
        stop == line_break(chars@, from as int),
        from <= stop <= chars.len(),
{
    let mut stop: usize = from;
    while stop < chars.len() && chars[stop] != '\n'
        invariant
            from <= stop <= chars.len(),
            line_break(chars@, from as int) == line_break(chars@, stop as int),
        decreases chars.len() - stop,
    {
        stop += 1;
    }
    stop
}

/// Extracts the public address from the body of a trace page.
///
/// Fails with `NotFound` exactly when no line of the page begins with `ip=`.
pub fn parse_public_ip(body: &str) -> (found: Result<String, ClientError>)
    ensures
        match found {
            Ok(ip) => traced_ip(body@) == Some(ip@),
            Err(e) => e == ClientError::NotFound && traced_ip(body@) is None,
        },
{
    let chars = chars_of(body);
    let len = chars.len();
    let mut at: usize = 0;
    while at < len
        invariant
            at <= len,
            len == chars.len(),
            chars@ == body@,
            ip_line_from(body@, 0) == ip_line_from(body@, at as int),
        decreases len - at,
    {
        let fresh = at == 0 || chars[at - 1] == '\n';
        let keyed = len - at >= 3 && chars[at] == 'i' && chars[at + 1] == 'p' && chars[at + 2]
            == '=';
        if fresh && keyed {
            let start = at + 3;
            let stop = find_line_break(&chars, start);
            let end = if stop < len && start < stop && chars[stop - 1] == '\r' {
                stop - 1
            } else {
                stop
            };
            return Ok(body.substring_char(start, end).to_owned());
        }
        at += 1;
    }
    Err(ClientError::NotFound)
}

} // verus!
