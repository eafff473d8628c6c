//! Writing the entries over the limit as CSV text.
//!
//! The text is a header line and one line for each entry. A path stands
//! between double quotes, and each double quote inside it is written twice;
//! the length follows after a comma. Every line ends with a line feed.

use vstd::prelude::*;
use vstd::string::StringExecFns;
use crate::classify::{long_paths, LongPath, OverLimit};
use crate::reader::{law_document_is_read_back, read_document};
use crate::text::{append_decimal, decimal, push_char};

verus! {

/// The header line, with its line feed.
pub open spec fn header() -> Seq<char> {
    seq!['P', 'a', 't', 'h', ',', 'L', 'e', 'n', 'g', 't', 'h', '\n']
}

/// `text` with each of its double quotes written twice.
pub open spec fn escaped(text: Seq<char>) -> Seq<char>
    decreases text.len(),
{
    if text.len() == 0 {
        Seq::empty()
    } else if text.last() == '"' {
        escaped(text.drop_last()).push('"').push('"')
    } else {
        escaped(text.drop_last()).push(text.last())
    }
}

/// `text` with each pair of double quotes read as one, as a reader of the
/// field between its outer quotes does.
pub open spec fn unescaped(text: Seq<char>) -> Seq<char>
    decreases text.len(),
{
    if text.len() == 0 {
        Seq::empty()
    } else if text.last() != '"' {
        unescaped(text.drop_last()).push(text.last())
    } else if text.len() >= 2 && text[text.len() - 2] == '"' {
        unescaped(text.drop_last().drop_last()).push('"')
    } else {
        unescaped(text.drop_last()).push('"')
    }
}

/// Escaping loses nothing: reading the pairs of double quotes of an escaped
/// text as one gives the text back.
pub proof fn law_escaping_can_be_undone(text: Seq<char>)
    ensures
        unescaped(escaped(text)) == text,
    decreases text.len(),
{
    if text.len() > 0 {
        let front = text.drop_last();
        law_escaping_can_be_undone(front);
        let out = escaped(text);
        if text.last() == '"' {
            assert(out.drop_last().drop_last() =~= escaped(front));
        } else {
            assert(out.drop_last() =~= escaped(front));
        }
        assert(front.push(text.last()) =~= text);
    }
}

/// The line of one entry, with its line feed.
pub open spec fn line(entry: LongPath) -> Seq<char> {
    seq!['"'] + escaped(entry.path) + seq!['"', ','] + decimal(entry.size) + seq!['\n']
}

/// The lines of `entries`, one after the other.
pub open spec fn lines(entries: Seq<LongPath>) -> Seq<char>
    decreases entries.len(),
{
    if entries.len() == 0 {
        Seq::empty()
    } else {
        lines(entries.drop_last()) + line(entries.last())
    }
}

/// The whole text: the header, then the lines of `entries`.
pub open spec fn document(entries: Seq<LongPath>) -> Seq<char> {
    header() + lines(entries)
}

/// Appends `text` to `out` with each double quote written twice.
pub fn append_escaped(out: &mut String, text: &str)
    ensures
        final(out)@ == old(out)@ + escaped(text@),
{
    for c in it: text.chars()
        invariant
            it.seq() == text@,
            out@ == old(out)@ + escaped(text@.take(it.index() as int)),
    {
        assert(text@.take(it.index() + 1).drop_last() =~= text@.take(it.index() as int));
        if c == '"' {
            push_char(out, '"');
        }
        push_char(out, c);
    }
    assert(text@.take(text@.len() as int) =~= text@);
}

/// Appends the line of `entry` to `out`.
pub fn append_line(out: &mut String, entry: &OverLimit)
    ensures
        final(out)@ == old(out)@ + line(entry@),
{
    push_char(out, '"');
    append_escaped(out, entry.path.as_str());
    push_char(out, '"');
    push_char(out, ',');
    append_decimal(out, entry.size);
    push_char(out, '\n');
}

/// Renders `entries` as CSV text. With no entries the text is the header
/// line alone. A reader of quoted fields reads the text back as the
/// entries.
pub fn render(entries: &Vec<OverLimit>) -> (text: String)
    ensures
        text@ == document(long_paths(entries@)),
        read_document(text@) == Some(long_paths(entries@)),
{
    proof {
        law_document_is_read_back(long_paths(entries@));
    }
    let mut text = String::new();
    text.append("Path,Length\n");
    proof {
        reveal_strlit("Path,Length\n");
    }
    assert(text@ =~= header());
    let ghost all = long_paths(entries@);
    let mut i: usize = 0;
    while i < entries.len()
        invariant
            i <= entries.len(),
            all == long_paths(entries@),
            text@ == header() + lines(all.take(i as int)),
        decreases entries.len() - i,
    {
        assert(all.take(i + 1).drop_last() =~= all.take(i as int));
        append_line(&mut text, &entries[i]);
        i = i + 1;
    }
    assert(all.take(i as int) =~= all);
    text
}

} // verus!
