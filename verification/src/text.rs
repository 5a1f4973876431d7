//! Small operations on text that the rest of the crate shares.

use vstd::prelude::*;
use vstd::string::*;

verus! {

/// The line feed that ends every record of a log file.
pub open spec fn line_feed() -> char {
    '\n'
}

/// `text` holds no line feed, so it occupies one line of a file.
pub open spec fn single_line(text: Seq<char>) -> bool {
    forall|i: int| 0 <= i < text.len() ==> text[i] != line_feed()
}

/// Every entry of `lines` is a single line.
pub open spec fn all_single_line(lines: Seq<Seq<char>>) -> bool {
    forall|i: int| 0 <= i < lines.len() ==> single_line(#[trigger] lines[i])
}

/// The characters of a text that may be absent.
pub open spec fn optional_text(text: Option<String>) -> Option<Seq<char>> {
    match text {
        Some(present) => Some(present@),
        None => None,
    }
}

/// `first` followed by `second`.
pub fn join(first: &str, second: &str) -> (joined: String)
    ensures
        joined@ == first@ + second@,
{
    let mut joined = first.to_owned();
    joined.append(second);
    joined
}

/// Whether two texts hold the same characters.
pub fn same(left: &str, right: &str) -> (equal: bool)
    ensures
        equal == (left@ == right@),
{
    let owned_left = left.to_owned();
    let owned_right = right.to_owned();
    owned_left == owned_right
}

/// A line feed inside a joined text lies in one of its parts.
pub proof fn lemma_single_line_join(first: Seq<char>, second: Seq<char>)
    ensures
        single_line(first + second) <==> single_line(first) && single_line(second),
{
    let joined = first + second;
    if single_line(joined) {
        assert forall|i: int| 0 <= i < first.len() implies first[i] != line_feed() by {
            assert(joined[i] == first[i]);
        }
        assert forall|i: int| 0 <= i < second.len() implies second[i] != line_feed() by {
            assert(joined[first.len() + i] == second[i]);
        }
    }
}

} // verus!
