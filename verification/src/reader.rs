//! Reading the CSV text back.
//!
//! Nothing in the crate reads CSV when it runs. The reader here is a
//! mathematical one: it says how a reader of quoted fields takes the text
//! apart, so that it can be proved that the text that `render` writes is
//! read back as the entries it was written from.

use vstd::prelude::*;
use crate::classify::LongPath;
use crate::csv::{document, escaped, header, line, lines};
use crate::text::{all_digits, decimal, decimal_value, is_digit, lemma_decimal_writes_the_number};

verus! {

/// Reads a quoted field from behind its opening quote: the field's content,
/// with each pair of double quotes read as one, and the text behind the
/// closing quote. There is no field if no quote closes it.
pub open spec fn read_quoted(text: Seq<char>) -> Option<(Seq<char>, Seq<char>)>
    decreases text.len(),
{
    if text.len() == 0 {
        None
    } else if text[0] != '"' {
        match read_quoted(text.drop_first()) {
            Some((content, rest)) => Some((seq![text[0]] + content, rest)),
            None => None,
        }
    } else if text.len() >= 2 && text[1] == '"' {
        match read_quoted(text.skip(2)) {
            Some((content, rest)) => Some((seq!['"'] + content, rest)),
            None => None,
        }
    } else {
        Some((Seq::empty(), text.drop_first()))
    }
}

/// Splits `text` at its first line feed: what stands before it and what
/// stands behind it. There is no split if there is no line feed.
pub open spec fn read_to_line_end(text: Seq<char>) -> Option<(Seq<char>, Seq<char>)>
    decreases text.len(),
{
    if text.len() == 0 {
        None
    } else if text[0] == '\n' {
        Some((Seq::empty(), text.drop_first()))
    } else {
        match read_to_line_end(text.drop_first()) {
            Some((before, rest)) => Some((seq![text[0]] + before, rest)),
            None => None,
        }
    }
}

/// Reads one record from the front of `text`: a quoted path, a comma, a
/// number in decimal digits and a line feed. The result is the record and
/// the text behind it.
pub open spec fn read_record(text: Seq<char>) -> Option<(LongPath, Seq<char>)> {
    if text.len() > 0 && text[0] == '"' {
        match read_quoted(text.drop_first()) {
            Some((path, behind)) => if behind.len() > 0 && behind[0] == ',' {
                match read_to_line_end(behind.drop_first()) {
                    Some((digits, rest)) => if digits.len() > 0 && all_digits(digits) {
                        Some((LongPath { path, size: decimal_value(digits) }, rest))
                    } else {
                        None
                    },
                    None => None,
                }
            } else {
                None
            },
            None => None,
        }
    } else {
        None
    }
}

/// Reads records until `text` is used up.
pub open spec fn read_records(text: Seq<char>) -> Option<Seq<LongPath>>
    decreases text.len(),
{
    if text.len() == 0 {
        Some(Seq::empty())
    } else {
        match read_record(text) {
            Some((record, rest)) => if rest.len() < text.len() {
                match read_records(rest) {
                    Some(records) => Some(seq![record] + records),
                    None => None,
                }
            } else {
                None
            },
            None => None,
        }
    }
}

/// Reads a whole text: the header line, then records to the end.
pub open spec fn read_document(text: Seq<char>) -> Option<Seq<LongPath>> {
    if text.len() >= header().len() && text.take(header().len() as int) == header() {
        read_records(text.skip(header().len() as int))
    } else {
        None
    }
}

/// How one character is written in an escaped text.
pub open spec fn escaped_char(c: char) -> Seq<char> {
    if c == '"' {
        seq!['"', '"']
    } else {
        seq![c]
    }
}

/// An escaped text begins with its first character escaped and goes on
/// with the rest escaped.
pub proof fn lemma_escaped_front(text: Seq<char>)
    requires
        text.len() > 0,
    ensures
        escaped(text) == escaped_char(text[0]) + escaped(text.drop_first()),
    decreases text.len(),
{
    let last = text.last();
    if text.len() == 1 {
        assert(text.drop_last() =~= Seq::<char>::empty());
        assert(text.drop_first() =~= Seq::<char>::empty());
        assert(escaped(text.drop_last()) =~= Seq::<char>::empty());
        assert(escaped(text) =~= escaped_char(text[0]) + escaped(text.drop_first()));
    } else {
        let front = text.drop_last();
        lemma_escaped_front(front);
        assert(front[0] == text[0]);
        assert(front.drop_first() =~= text.drop_first().drop_last());
        assert(text.drop_first().last() == last);
        assert(escaped(text) =~= escaped(front) + escaped_char(last));
        assert(escaped(text.drop_first()) =~= escaped(front.drop_first()) + escaped_char(last));
        assert(escaped(text) =~= escaped_char(text[0]) + escaped(text.drop_first()));
    }
}

/// A path written between quotes is read back as it was, up to the closing
/// quote, whatever it holds, if what follows the closing quote is no quote.
pub proof fn lemma_quoted_is_read_back(path: Seq<char>, rest: Seq<char>)
    requires
        rest.len() == 0 || rest[0] != '"',
    ensures
        read_quoted(escaped(path) + seq!['"'] + rest) == Some((path, rest)),
    decreases path.len(),
{
    let text = escaped(path) + seq!['"'] + rest;
    if path.len() == 0 {
        assert(escaped(path) =~= Seq::<char>::empty());
        assert(text =~= seq!['"'] + rest);
        assert(text[0] == '"');
        assert(text.drop_first() =~= rest);
        if text.len() >= 2 {
            assert(text[1] == rest[0]);
        }
    } else {
        let c = path[0];
        let tail = path.drop_first();
        lemma_escaped_front(path);
        lemma_quoted_is_read_back(tail, rest);
        let behind = escaped(tail) + seq!['"'] + rest;
        assert(text =~= escaped_char(c) + behind);
        if c == '"' {
            assert(text[0] == '"' && text[1] == '"');
            assert(text.skip(2) =~= behind);
            assert(seq!['"'] + tail =~= path);
        } else {
            assert(text[0] == c);
            assert(text.drop_first() =~= behind);
            assert(seq![c] + tail =~= path);
        }
    }
}

/// Text without a line feed is read back whole in front of the first line
/// feed that follows it.
pub proof fn lemma_line_end_is_found(before: Seq<char>, rest: Seq<char>)
    requires
        forall|i: int| 0 <= i < before.len() ==> before[i] != '\n',
    ensures
        read_to_line_end(before + seq!['\n'] + rest) == Some((before, rest)),
    decreases before.len(),
{
    let text = before + seq!['\n'] + rest;
    if before.len() == 0 {
        assert(text =~= seq!['\n'] + rest);
        assert(text.drop_first() =~= rest);
    } else {
        let tail = before.drop_first();
        lemma_line_end_is_found(tail, rest);
        assert(text[0] == before[0]);
        assert(text.drop_first() =~= tail + seq!['\n'] + rest);
        assert(seq![before[0]] + tail =~= before);
    }
}

/// The line of an entry is read back as that entry, and what follows the
/// line is left over.
pub proof fn lemma_line_is_read_back(entry: LongPath, rest: Seq<char>)
    ensures
        read_record(line(entry) + rest) == Some((entry, rest)),
{
    let number = decimal(entry.size);
    let text = line(entry) + rest;
    let after_path = seq![','] + number + seq!['\n'] + rest;
    lemma_decimal_writes_the_number(entry.size);
    assert(text[0] == '"');
    assert(text.drop_first() =~= escaped(entry.path) + seq!['"'] + after_path);
    lemma_quoted_is_read_back(entry.path, after_path);
    assert(after_path[0] == ',');
    assert(after_path.drop_first() =~= number + seq!['\n'] + rest);
    assert forall|i: int| 0 <= i < number.len() implies number[i] != '\n' by {
        assert(is_digit(number[i]));
    }
    lemma_line_end_is_found(number, rest);
}

/// The lines of a sequence of entries begin with the line of the first and
/// go on with the lines of the others.
pub proof fn lemma_lines_front(entries: Seq<LongPath>)
    requires
        entries.len() > 0,
    ensures
        lines(entries) == line(entries[0]) + lines(entries.drop_first()),
    decreases entries.len(),
{
    if entries.len() == 1 {
        assert(entries.drop_last() =~= Seq::<LongPath>::empty());
        assert(entries.drop_first() =~= Seq::<LongPath>::empty());
        assert(lines(entries.drop_last()) =~= Seq::<char>::empty());
        assert(lines(entries) =~= line(entries[0]) + lines(entries.drop_first()));
    } else {
        let front = entries.drop_last();
        lemma_lines_front(front);
        assert(front[0] == entries[0]);
        assert(front.drop_first() =~= entries.drop_first().drop_last());
        assert(entries.drop_first().last() == entries.last());
        assert(lines(entries) =~= line(entries[0]) + lines(entries.drop_first()));
    }
}

/// The lines of a sequence of entries are read back as those entries.
pub proof fn lemma_lines_are_read_back(entries: Seq<LongPath>)
    ensures
        read_records(lines(entries)) == Some(entries),
    decreases entries.len(),
{
    if entries.len() == 0 {
        assert(lines(entries) =~= Seq::<char>::empty());
    } else {
        let first = entries[0];
        let others = entries.drop_first();
        lemma_lines_front(entries);
        lemma_line_is_read_back(first, lines(others));
        lemma_lines_are_read_back(others);
        assert(line(first).len() > 0);
        assert(seq![first] + others =~= entries);
    }
}

/// The text written for a sequence of entries is read back as exactly those
/// entries, in their order, whatever their paths hold: double quotes,
/// commas and line breaks too.
pub proof fn law_document_is_read_back(entries: Seq<LongPath>)
    ensures
        read_document(document(entries)) == Some(entries),
{
    let text = document(entries);
    assert(text.take(header().len() as int) =~= header());
    assert(text.skip(header().len() as int) =~= lines(entries));
    lemma_lines_are_read_back(entries);
}

} // verus!
