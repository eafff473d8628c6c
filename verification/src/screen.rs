//! What the session shows: which controls can be used and which lines of
//! text stand below them. How it is drawn is the caller's part.

use vstd::prelude::*;
use vstd::string::StringExecFns;
use crate::scanner::texts;
use crate::text::{append_decimal, decimal};

verus! {

/// The line that names the selected folder.
pub open spec fn selected_line(path: Seq<char>) -> Seq<char> {
    "Selected: "@ + path
}

/// The line that tells how far a running scan has come.
pub open spec fn progress_line(scanned: nat) -> Seq<char> {
    "Scanning... "@ + decimal(scanned) + " paths checked"@
}

/// The line that tells how many paths were found over which limit.
pub open spec fn results_line(found: nat, limit: nat) -> Seq<char> {
    "Found "@ + decimal(found) + " paths over limit ("@ + decimal(limit) + ")"@
}

/// The line shown while an export is under way.
pub open spec fn exporting_line() -> Seq<char> {
    "Exporting to CSV..."@
}

/// The title above the list of errors.
pub open spec fn errors_line(count: nat) -> Seq<char> {
    "Errors ("@ + decimal(count) + ")"@
}

/// Writes the line that names the selected folder.
pub fn write_selected_line(path: &str) -> (line: String)
    ensures
        line@ == selected_line(path@),
{
    let mut line = String::from_str("Selected: ");
    line.append(path);
    line
}

/// Writes the line that tells how far a running scan has come.
pub fn write_progress_line(scanned: u64) -> (line: String)
    ensures
        line@ == progress_line(scanned as nat),
{
    let mut line = String::from_str("Scanning... ");
    append_decimal(&mut line, scanned);
    line.append(" paths checked");
    line
}

/// Writes the line that tells how many paths were found over which limit.
pub fn write_results_line(found: usize, limit: usize) -> (line: String)
    ensures
        line@ == results_line(found as nat, limit as nat),
{
    let mut line = String::from_str("Found ");
    append_decimal(&mut line, found as u64);
    line.append(" paths over limit (");
    append_decimal(&mut line, limit as u64);
    line.append(")");
    line
}

/// Writes the title above the list of errors.
pub fn write_errors_line(count: usize) -> (line: String)
    ensures
        line@ == errors_line(count as nat),
{
    let mut line = String::from_str("Errors (");
    append_decimal(&mut line, count as u64);
    line.append(")");
    line
}

/// What the session shows, as a mathematical value.
pub struct Shown {
    pub can_select_folder: bool,
    pub limit_input: Seq<char>,
    pub can_start: bool,
    pub can_abort: bool,
    pub can_export: bool,
    pub selected: Option<Seq<char>>,
    pub progress: Option<Seq<char>>,
    pub results: Option<Seq<char>>,
    pub exporting: Option<Seq<char>>,
    pub export_message: Option<Seq<char>>,
    pub export_success: bool,
    pub errors_title: Option<Seq<char>>,
    pub errors: Seq<Seq<char>>,
}

/// What the session shows.
#[derive(Debug)]
pub struct Screen {
    /// Whether a folder can be selected: no selection is under way.
    pub can_select_folder: bool,
    /// The text in the field for the limit.
    pub limit_input: String,
    /// Whether a scan can be started: a folder is selected and no scan runs.
    pub can_start: bool,
    /// Whether the scan can be aborted: one runs.
    pub can_abort: bool,
    /// Whether the results can be exported: there are some, and neither an
    /// export nor a scan is under way.
    pub can_export: bool,
    /// The line that names the selected folder, if one is selected.
    pub selected: Option<String>,
    /// The line that tells of the scan's progress, while one runs.
    pub progress: Option<String>,
    /// The line that counts the results, if there are any.
    pub results: Option<String>,
    /// The line that tells of the export, while one is under way.
    pub exporting: Option<String>,
    /// How the last export ended, if one has ended.
    pub export_message: Option<String>,
    /// Whether that export succeeded: the message is good or bad news.
    pub export_success: bool,
    /// The title above the errors, if there are any.
    pub errors_title: Option<String>,
    /// The errors, one line each.
    pub errors: Vec<String>,
}

/// The view of an optional string.
pub open spec fn optional(text: Option<String>) -> Option<Seq<char>> {
    match text {
        Some(s) => Some(s@),
        None => None,
    }
}

impl View for Screen {
    type V = Shown;

    open spec fn view(&self) -> Shown {
        Shown {
            can_select_folder: self.can_select_folder,
            limit_input: self.limit_input@,
            can_start: self.can_start,
            can_abort: self.can_abort,
            can_export: self.can_export,
            selected: optional(self.selected),
            progress: optional(self.progress),
            results: optional(self.results),
            exporting: optional(self.exporting),
            export_message: optional(self.export_message),
            export_success: self.export_success,
            errors_title: optional(self.errors_title),
            errors: texts(self.errors@),
        }
    }
}

/// A copy of `lines`.
pub fn copy_lines(lines: &Vec<String>) -> (copy: Vec<String>)
    ensures
        texts(copy@) == texts(lines@),
{
    let mut copy: Vec<String> = Vec::new();
    let mut i: usize = 0;
    while i < lines.len()
        invariant
            i <= lines.len(),
            texts(copy@) == texts(lines@).take(i as int),
        decreases lines.len() - i,
    {
        let ghost before = texts(copy@);
        let line = lines[i].clone();
        copy.push(line);
        assert(texts(copy@) =~= before.push(line@));
        assert(texts(copy@) =~= texts(lines@).take(i + 1));
        i = i + 1;
    }
    assert(texts(lines@).take(i as int) =~= texts(lines@));
    copy
}

} // verus!
