//! The line the user types at startup, and the city name taken from it.

use vstd::prelude::*;
use vstd::string::*;

verus! {

/// Whether `c` is white space: a character with the Unicode property
/// `White_Space`.
pub open spec fn is_white_space(c: char) -> bool {
    let code = c as u32;
    ||| 0x09 <= code <= 0x0d
    ||| code == 0x20
    ||| code == 0x85
    ||| code == 0xa0
    ||| code == 0x1680
    ||| 0x2000 <= code <= 0x200a
    ||| code == 0x2028
    ||| code == 0x2029
    ||| code == 0x202f
    ||| code == 0x205f
    ||| code == 0x3000
}

/// `rest` is `line` from position `start` up to `end`, everything before
/// and after it is white space, and `rest` itself neither begins nor ends
/// with white space.
pub open spec fn trims_at(line: Seq<char>, start: int, end: int, rest: Seq<char>) -> bool {
    &&& 0 <= start <= end <= line.len()
    &&& rest == line.subrange(start, end)
    &&& forall|i: int| 0 <= i < start ==> is_white_space(#[trigger] line[i])
    &&& forall|i: int| end <= i < line.len() ==> is_white_space(#[trigger] line[i])
    &&& start < end ==> !is_white_space(line[start]) && !is_white_space(line[end - 1])
}

/// `rest` is `line` without the white space that surrounds it.
pub open spec fn trims_to(line: Seq<char>, rest: Seq<char>) -> bool {
    exists|start: int, end: int| trims_at(line, start, end, rest)
}

/// A line has one trimmed form only.
pub proof fn lemma_trim_unique(line: Seq<char>, first: Seq<char>, second: Seq<char>)
    requires
        trims_to(line, first),
        trims_to(line, second),
    ensures
        first == second,
{
    let (a, b) = choose|a: int, b: int| trims_at(line, a, b, first);
    let (c, d) = choose|c: int, d: int| trims_at(line, c, d, second);
    // Both ranges begin at the first character that is not white space and
    // end behind the last one; where there is none, both are empty.
    if a < b || c < d {
        assert(a == c && b == d);
    }
}

/// A line of nothing but white space, the empty line among them, trims to
/// the empty name; a line without surrounding white space is its own name.
pub proof fn lemma_trim_edges(line: Seq<char>)
    ensures
        (forall|i: int| 0 <= i < line.len() ==> is_white_space(#[trigger] line[i])) ==> trims_to(
            line,
            Seq::empty(),
        ),
        line.len() > 0 && !is_white_space(line[0]) && !is_white_space(line[line.len() - 1])
            ==> trims_to(line, line),
{
    if forall|i: int| 0 <= i < line.len() ==> is_white_space(#[trigger] line[i]) {
        assert(line.subrange(0, 0) =~= Seq::<char>::empty());
        assert(trims_at(line, 0, 0, Seq::empty()));
    }
    if line.len() > 0 && !is_white_space(line[0]) && !is_white_space(line[line.len() - 1]) {
        assert(line.subrange(0, line.len() as int) =~= line);
        assert(trims_at(line, 0, line.len() as int, line));
    }
}

/// Whether `c` is white space.
pub fn white_space(c: char) -> (white: bool)
    ensures
        white == is_white_space(c),
{
    let code: u32 = c as u32;
    (0x09 <= code && code <= 0x0d) || code == 0x20 || code == 0x85 || code == 0xa0 || code
        == 0x1680 || (0x2000 <= code && code <= 0x200a) || code == 0x2028 || code == 0x2029
        || code == 0x202f || code == 0x205f || code == 0x3000
}

/// The city name in a line of input: the line without the white space that
/// surrounds it. An empty or blank line gives the empty name, which is passed
/// on like any other.
pub fn city_from_line(line: &str) -> (city: String)
    ensures
        trims_to(line@, city@),
{
    let length: usize = line.unicode_len();
    let mut start: usize = 0;
    while start < length && white_space(line.get_char(start))
        invariant
            length == line@.len(),
            start <= length,
            forall|i: int| 0 <= i < start ==> is_white_space(#[trigger] line@[i]),
        decreases length - start,
    {
        start = start + 1;
    }
    let mut end: usize = length;
    while start < end && white_space(line.get_char(end - 1))
        invariant
            length == line@.len(),
            start <= end <= length,
            forall|i: int| end <= i < length ==> is_white_space(#[trigger] line@[i]),
        decreases end,
    {
        end = end - 1;
    }
    let city: String = line.substring_char(start, end).to_owned();
    assert(trims_at(line@, start as int, end as int, city@));
    city
}

} // verus!
