//! Replacing every occurrence of one text in another.

use vstd::prelude::*;
use vstd::string::*;

verus! {

/// `text` with every occurrence of `search` replaced by `replacement`.
///
/// Occurrences are found from the left and do not overlap: after one is replaced
/// the scan goes on behind it. An empty `search` occurs before every character
/// and at the end, so the replacement is put in all those places.
pub open spec fn replace_all(
    text: Seq<char>,
    search: Seq<char>,
    replacement: Seq<char>,
) -> Seq<char>
    decreases text.len(),
{
    if search.len() == 0 {
        if text.len() == 0 {
            replacement
        } else {
            replacement + seq![text[0]] + replace_all(text.drop_first(), search, replacement)
        }
    } else if text.len() < search.len() {
        text
    } else if text.subrange(0, search.len() as int) == search {
        replacement + replace_all(
            text.subrange(search.len() as int, text.len() as int),
            search,
            replacement,
        )
    } else {
        seq![text[0]] + replace_all(text.drop_first(), search, replacement)
    }
}

/// `search` stands in `text` at `position`.
pub open spec fn occurs_at(text: Seq<char>, position: int, search: Seq<char>) -> bool {
    &&& 0 <= position
    &&& position + search.len() <= text.len()
    &&& text.subrange(position, position + search.len()) == search
}

/// A text in which occurrences of other texts are replaced, one call after the
/// other.
#[derive(Debug)]
pub struct StrReplace {
    data: String,
}

impl View for StrReplace {
    type V = Seq<char>;

    closed spec fn view(&self) -> Seq<char> {
        self.data@
    }
}

/// `String::push`: puts one character at the end of a text.
#[verifier::external_body]
fn push_char(text: &mut String, c: char)
    ensures
        final(text)@ == old(text)@.push(c),
{
    text.push(c);
}

/// The characters of a text.
fn chars_of(text: &str) -> (chars: Vec<char>)
    ensures
        chars@ == text@,
{
    let mut chars: Vec<char> = Vec::new();
    for c in it: text.chars()
        invariant
            it.seq() == text@,
            chars@ == it.seq().take(it.index()),
    {
        chars.push(c);
    }
    chars
}

/// Whether `search` stands in `text` at `position`.
fn found_at(text: &Vec<char>, position: usize, search: &Vec<char>) -> (found: bool)
    requires
        position <= text@.len(),
    ensures
        found == occurs_at(text@, position as int, search@),
{
    if search.len() > text.len() - position {
        return false;
    }
    let mut offset: usize = 0;
    while offset < search.len()
        invariant
            position + search@.len() <= text@.len(),
            text@.len() <= usize::MAX,
            offset <= search@.len(),
            forall|k: int| 0 <= k < offset ==> text@[position + k] == search@[k],
        decreases search@.len() - offset,
    {
        if text[position + offset] != search[offset] {
            proof {
                let window = text@.subrange(position as int, position + search@.len());
                assert(window[offset as int] == text@[position + offset]);
            }
            return false;
        }
        offset += 1;
    }
    assert(text@.subrange(position as int, position + search@.len()) =~= search@);
    true
}

/// Replaces every occurrence of `search` in `text`.
fn replace_chars(text: &Vec<char>, search: &Vec<char>, replacement: &str) -> (replaced: String)
    ensures
        replaced@ == replace_all(text@, search@, replacement@),
{
    let mut replaced = String::new();
    let mut position: usize = 0;
    let ghost whole = replace_all(text@, search@, replacement@);
    assert(text@.subrange(0, text@.len() as int) =~= text@);
    while position < text.len()
        invariant
            position <= text@.len(),
            whole == replace_all(text@, search@, replacement@),
            replaced@ + replace_all(
                text@.subrange(position as int, text@.len() as int),
                search@,
                replacement@,
            ) == whole,
        decreases text@.len() - position,
    {
        let ghost rest = text@.subrange(position as int, text@.len() as int);
        let ghost before = replaced@;
        if search.len() == 0 {
            replaced.append(replacement);
            push_char(&mut replaced, text[position]);
            proof {
                assert(rest.drop_first() =~= text@.subrange(position + 1, text@.len() as int));
                assert(rest[0] == text@[position as int]);
                assert(replaced@ =~= before + replacement@ + seq![rest[0]]);
            }
            position += 1;
        } else if found_at(text, position, search) {
            replaced.append(replacement);
            proof {
                assert(rest.subrange(0, search@.len() as int) =~= text@.subrange(
                    position as int,
                    position + search@.len(),
                ));
                assert(rest.subrange(search@.len() as int, rest.len() as int) =~= text@.subrange(
                    position + search@.len(),
                    text@.len() as int,
                ));
            }
            position += search.len();
        } else {
            push_char(&mut replaced, text[position]);
            proof {
                assert(rest.drop_first() =~= text@.subrange(position + 1, text@.len() as int));
                assert(rest[0] == text@[position as int]);
                if rest.len() >= search@.len() {
                    assert(rest.subrange(0, search@.len() as int) =~= text@.subrange(
                        position as int,
                        position + search@.len(),
                    ));
                } else {
                    assert(rest =~= seq![rest[0]] + rest.drop_first());
                }
            }
            position += 1;
        }
    }
    if search.len() == 0 {
        replaced.append(replacement);
    }
    replaced
}

impl StrReplace {
    /// Takes a text to work on.
    pub fn from_str(str: &str) -> (made: StrReplace)
        ensures
            made@ == str@,
    {
        StrReplace { data: str.to_owned() }
    }

    /// Replaces every occurrence of `search` by `replacement`, and hands the
    /// value back for the next call.
    pub fn replace(&mut self, search: &str, replacement: &str) -> (chained: &mut Self)
        ensures
            chained@ == replace_all(old(self)@, search@, replacement@),
            *final(self) == *final(chained),
    {
        self.data = StrReplace::replace_here(search, replacement, self.data.as_str());
        self
    }

    /// The text as it stands.
    pub fn to_str(&self) -> (text: &str)
        ensures
            text@ == self@,
    {
        self.data.as_str()
    }

    /// `input` with every occurrence of `search` replaced by `replacement`.
    pub fn replace_here(search: &str, replacement: &str, input: &str) -> (replaced: String)
        ensures
            replaced@ == replace_all(input@, search@, replacement@),
    {
        let text = chars_of(input);
        let pattern = chars_of(search);
        replace_chars(&text, &pattern, replacement)
    }
}

} // verus!
