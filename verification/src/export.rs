//! Exporting the entries over the limit to a CSV file.
//!
//! Asking for a destination and writing the file are the caller's part. The
//! steps in between are decided here: an export without a destination ends
//! as cancelled, one with a destination yields the text to write, and the
//! result of the write becomes a summary or an error.

use vstd::prelude::*;
use vstd::string::StringExecFns;
use crate::classify::{long_paths, LongPath, OverLimit};
use crate::csv::{document, render};
use crate::text::{append_decimal, decimal};

verus! {

/// Why an export failed, as a mathematical value.
pub enum ExportFailure {
    Io(Seq<char>),
    Cancelled,
}

/// Why an export failed.
#[derive(Debug)]
pub enum ExportError {
    /// The file could not be created or written; the message says why.
    Io(String),
    /// No destination was chosen.
    Cancelled,
}

impl View for ExportError {
    type V = ExportFailure;

    open spec fn view(&self) -> ExportFailure {
        match self {
            ExportError::Io(message) => ExportFailure::Io(message@),
            ExportError::Cancelled => ExportFailure::Cancelled,
        }
    }
}

impl Clone for ExportError {
    /// A copy of the same kind with the same message.
    fn clone(&self) -> (copy: ExportError)
        ensures
            copy@ == self@,
    {
        match self {
            ExportError::Io(message) => ExportError::Io(message.clone()),
            ExportError::Cancelled => ExportError::Cancelled,
        }
    }
}

/// The sentence that tells a user of `failure`.
pub open spec fn failure_text(failure: ExportFailure) -> Seq<char> {
    match failure {
        ExportFailure::Io(message) => "Failed to write CSV file: "@ + message,
        ExportFailure::Cancelled => "Export cancelled"@,
    }
}

/// The sentence that tells a user that `count` entries went to
/// `destination`.
pub open spec fn summary_text(count: nat, destination: Seq<char>) -> Seq<char> {
    "Exported "@ + decimal(count) + " paths to "@ + destination
}

impl ExportError {
    /// The sentence that tells a user of this error.
    pub fn describe(&self) -> (text: String)
        ensures
            text@ == failure_text(self@),
    {
        match self {
            ExportError::Io(message) => {
                let mut text = String::from_str("Failed to write CSV file: ");
                text.append(message.as_str());
                text
            },
            ExportError::Cancelled => String::from_str("Export cancelled"),
        }
    }
}

/// The outcome of an export's first step, as a mathematical value.
pub struct WriteView {
    pub destination: Seq<char>,
    pub text: Seq<char>,
    pub count: nat,
}

/// An export that waits for its destination.
#[derive(Debug)]
pub struct Export {
    entries: Vec<OverLimit>,
}

/// An export that waits for its text to be written.
#[derive(Debug)]
pub struct PendingWrite {
    destination: String,
    text: String,
    count: usize,
}

impl View for Export {
    type V = Seq<LongPath>;

    closed spec fn view(&self) -> Seq<LongPath> {
        long_paths(self.entries@)
    }
}

impl View for PendingWrite {
    type V = WriteView;

    closed spec fn view(&self) -> WriteView {
        WriteView { destination: self.destination@, text: self.text@, count: self.count as nat }
    }
}

/// What choosing `destination` for an export of `entries` leads to.
pub open spec fn saving(entries: Seq<LongPath>, destination: Option<Seq<char>>) -> Result<
    WriteView,
    ExportFailure,
> {
    match destination {
        Some(path) => Ok(
            WriteView { destination: path, text: document(entries), count: entries.len() },
        ),
        None => Err(ExportFailure::Cancelled),
    }
}

/// What the result of the write leads to.
pub open spec fn completed(write: WriteView, written: Result<(), Seq<char>>) -> Result<
    Seq<char>,
    ExportFailure,
> {
    match written {
        Ok(_) => Ok(summary_text(write.count, write.destination)),
        Err(message) => Err(ExportFailure::Io(message)),
    }
}

impl Export {
    /// An export of `entries`.
    pub fn new(entries: Vec<OverLimit>) -> (export: Export)
        ensures
            export@ == long_paths(entries@),
    {
        Export { entries }
    }

    /// The number of entries to export.
    pub fn count(&self) -> (count: usize)
        ensures
            count == self@.len(),
    {
        self.entries.len()
    }

    /// Takes the destination that was chosen, or `None` if the choice was
    /// given up. With a destination the export goes on to the write, with
    /// the whole CSV text ready; without one it ends as cancelled.
    pub fn save_to(self, destination: Option<String>) -> (next: Result<PendingWrite, ExportError>)
        ensures
            match next {
                Ok(write) => saving(self@, option_text(destination)) == Ok::<
                    WriteView,
                    ExportFailure,
                >(write@),
                Err(error) => saving(self@, option_text(destination)) == Err::<
                    WriteView,
                    ExportFailure,
                >(error@),
            },
    {
        match destination {
            Some(path) => {
                let text = render(&self.entries);
                Ok(PendingWrite { destination: path, text, count: self.entries.len() })
            },
            None => Err(ExportError::Cancelled),
        }
    }
}

/// The view of an optional string.
pub open spec fn option_text(text: Option<String>) -> Option<Seq<char>> {
    match text {
        Some(s) => Some(s@),
        None => None,
    }
}

impl PendingWrite {
    /// Where the text is to be written.
    pub fn destination(&self) -> (path: &String)
        ensures
            path@ == self@.destination,
    {
        &self.destination
    }

    /// The text to write.
    pub fn text(&self) -> (text: &String)
        ensures
            text@ == self@.text,
    {
        &self.text
    }

    /// Takes the result of the write: `Ok` if the file was written, the
    /// message of the failure otherwise. A written file is answered with a
    /// summary, a failure with an input-output error.
    pub fn complete(self, written: Result<(), String>) -> (result: Result<String, ExportError>)
        ensures
            match result {
                Ok(summary) => completed(self@, result_text(written)) == Ok::<
                    Seq<char>,
                    ExportFailure,
                >(summary@),
                Err(error) => completed(self@, result_text(written)) == Err::<
                    Seq<char>,
                    ExportFailure,
                >(error@),
            },
    {
        match written {
            Ok(_) => {
                let mut summary = String::from_str("Exported ");
                append_decimal(&mut summary, self.count as u64);
                summary.append(" paths to ");
                summary.append(self.destination.as_str());
                Ok(summary)
            },
            Err(message) => Err(ExportError::Io(message)),
        }
    }
}

/// The view of the result of a write.
pub open spec fn result_text(written: Result<(), String>) -> Result<(), Seq<char>> {
    match written {
        Ok(_) => Ok(()),
        Err(message) => Err(message@),
    }
}

} // verus!
