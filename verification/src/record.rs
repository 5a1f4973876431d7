//! Log records: the header that opens a job's log, the marker that closes it, and
//! the text of the local file that a sequence of records makes.

use vstd::prelude::*;
use vstd::string::*;
use crate::text::{all_single_line, join, lemma_single_line_join, line_feed, single_line};

verus! {

/// The record that closes every job log.
pub open spec fn exit_marker() -> Seq<char> {
    "exit"@
}

/// The record that opens a job log: the job's identity, the time the job started
/// and the command as the user wrote it.
pub open spec fn header(identity: Seq<char>, timestamp: Seq<char>, command: Seq<char>) -> Seq<
    char,
> {
    "Kraken - Job - "@ + identity + " - "@ + timestamp + " - $> "@ + command
}

/// A record as it is appended to the local file: its text and one line feed.
pub open spec fn terminated(line: Seq<char>) -> Seq<char> {
    line.push(line_feed())
}

/// The text of a file to which `lines` were appended in order, each terminated.
pub open spec fn file_text(lines: Seq<Seq<char>>) -> Seq<char>
    decreases lines.len(),
{
    if lines.len() == 0 {
        Seq::empty()
    } else {
        file_text(lines.drop_last()) + terminated(lines.last())
    }
}

/// The position of the first line feed of `text`, or its length if it has none.
pub open spec fn first_line_end(text: Seq<char>) -> int
    decreases text.len(),
{
    if text.len() == 0 || text[0] == line_feed() {
        0
    } else {
        1 + first_line_end(text.drop_first())
    }
}

/// The lines of a text: the stretches between line feeds, in order. A last stretch
/// without a line feed counts as a line unless it is empty.
pub open spec fn lines_of(text: Seq<char>) -> Seq<Seq<char>>
    decreases text.len(),
{
    if text.len() == 0 {
        Seq::empty()
    } else {
        let end = first_line_end(text);
        if end < 0 || end >= text.len() {
            seq![text]
        } else {
            seq![text.subrange(0, end)] + lines_of(text.subrange(end + 1, text.len() as int))
        }
    }
}

/// The header record of a job.
pub fn header_line(identity: &str, timestamp: &str, command: &str) -> (line: String)
    ensures
        line@ == header(identity@, timestamp@, command@),
{
    let mut line = join("Kraken - Job - ", identity);
    line.append(" - ");
    line.append(timestamp);
    line.append(" - $> ");
    line.append(command);
    line
}

/// The terminal marker record.
pub fn exit_line() -> (line: String)
    ensures
        line@ == exit_marker(),
{
    "exit".to_owned()
}

/// The text to append to the local file for one record.
pub fn terminate(line: &str) -> (text: String)
    ensures
        text@ == terminated(line@),
{
    proof {
        reveal_strlit("\n");
    }
    let text = join(line, "\n");
    assert(text@ =~= terminated(line@));
    text
}

/// The terminal marker holds no line feed.
pub proof fn lemma_exit_marker_single_line()
    ensures
        single_line(exit_marker()),
        exit_marker().len() == 4,
{
    reveal_strlit("exit");
}

/// A header is a single line exactly when its three parts are.
pub proof fn lemma_header_single_line(
    identity: Seq<char>,
    timestamp: Seq<char>,
    command: Seq<char>,
)
    ensures
        single_line(header(identity, timestamp, command)) <==> single_line(identity)
            && single_line(timestamp) && single_line(command),
{
    reveal_strlit("Kraken - Job - ");
    reveal_strlit(" - ");
    reveal_strlit(" - $> ");
    let a = "Kraken - Job - "@;
    let b = " - "@;
    let c = " - $> "@;
    assert(single_line(a));
    assert(single_line(b));
    assert(single_line(c));
    lemma_single_line_join(a, identity);
    lemma_single_line_join(a + identity, b);
    lemma_single_line_join(a + identity + b, timestamp);
    lemma_single_line_join(a + identity + b + timestamp, c);
    lemma_single_line_join(a + identity + b + timestamp + c, command);
}

/// A single line followed by a line feed ends at that line feed, whatever follows.
pub proof fn lemma_first_line_end_terminated(line: Seq<char>, rest: Seq<char>)
    requires
        single_line(line),
    ensures
        first_line_end(terminated(line) + rest) == line.len(),
    decreases line.len(),
{
    let text = terminated(line) + rest;
    if line.len() == 0 {
        assert(text[0] == line_feed());
    } else {
        assert(text[0] == line[0]);
        let tail = line.drop_first();
        assert forall|i: int| 0 <= i < tail.len() implies tail[i] != line_feed() by {
            assert(tail[i] == line[i + 1]);
        }
        assert(text.drop_first() =~= terminated(tail) + rest);
        lemma_first_line_end_terminated(tail, rest);
    }
}

/// Reading back a text that starts with a terminated single line gives that line
/// and then the lines of what follows.
pub proof fn lemma_lines_of_terminated(line: Seq<char>, rest: Seq<char>)
    requires
        single_line(line),
    ensures
        lines_of(terminated(line) + rest) == seq![line] + lines_of(rest),
{
    let text = terminated(line) + rest;
    lemma_first_line_end_terminated(line, rest);
    let end = first_line_end(text);
    assert(text.subrange(0, end) =~= line);
    assert(text.subrange(end + 1, text.len() as int) =~= rest);
}

/// The text of a file is its first record, terminated, and then the text of the
/// remaining records.
pub proof fn lemma_file_text_first(line: Seq<char>, lines: Seq<Seq<char>>)
    ensures
        file_text(seq![line] + lines) == terminated(line) + file_text(lines),
    decreases lines.len(),
{
    let all = seq![line] + lines;
    if lines.len() == 0 {
        assert(all.drop_last() =~= lines);
        assert(all.last() == line);
        assert(file_text(all) =~= terminated(line) + file_text(lines));
    } else {
        assert(all.drop_last() =~= seq![line] + lines.drop_last());
        assert(all.last() == lines.last());
        lemma_file_text_first(line, lines.drop_last());
        assert(file_text(all) =~= terminated(line) + file_text(lines));
    }
}

/// Appending one record to a file appends its terminated text.
pub proof fn lemma_file_text_push(lines: Seq<Seq<char>>, line: Seq<char>)
    ensures
        file_text(lines.push(line)) == file_text(lines) + terminated(line),
{
    assert(lines.push(line).drop_last() =~= lines);
}

/// Records that hold no line feed are read back from the file unchanged: the lines
/// of the file are the records, in the order in which they were appended.
pub proof fn lemma_lines_of_file_text(lines: Seq<Seq<char>>)
    requires
        all_single_line(lines),
    ensures
        lines_of(file_text(lines)) == lines,
    decreases lines.len(),
{
    if lines.len() == 0 {
    } else {
        let first = lines[0];
        let rest = lines.drop_first();
        assert(lines =~= seq![first] + rest);
        assert forall|i: int| 0 <= i < rest.len() implies single_line(#[trigger] rest[i]) by {
            assert(rest[i] == lines[i + 1]);
        }
        lemma_file_text_first(first, rest);
        lemma_lines_of_terminated(first, file_text(rest));
        lemma_lines_of_file_text(rest);
    }
}

} // verus!
