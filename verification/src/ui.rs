//! The session: what is selected, what a scan has found so far, and how each
//! message changes that.
//!
//! Messages come from the controls and from the work that the session asked
//! for. `update` takes one message, changes the session, and answers with
//! the work to do next.

use vstd::prelude::*;
use vstd::string::StringExecFns;
use tokio_util::sync::CancellationToken;
use crate::classify::{long_paths, LongPath, OverLimit, PathView, ScanPath};
use crate::export::{failure_text, Export, ExportError, ExportFailure};
use crate::batcher::{ProgressSnapshot, Snapshot};
use crate::scanner::{
    failure_line, failures, texts, Failure, ScanError, ScanOutcome, ScanState, Scanner,
};
use crate::screen::{
    copy_lines, errors_line, exporting_line, optional, progress_line, results_line,
    selected_line, write_errors_line, write_progress_line, write_results_line,
    write_selected_line, Screen, Shown,
};
use crate::text::{parse_number, parsed_number};

verus! {

/// The limit of a session that has not been given one.
pub const DEFAULT_LIMIT: usize = 240;

/// A message to the session, as a mathematical value.
pub enum Event {
    SelectFolder,
    SelectedFolder(Option<PathView>),
    AbortScan,
    ScanComplete(u64),
    Error(u64, Seq<char>),
    LimitChanged(Seq<char>),
    StartScan,
    ScanUpdate { scan: u64, now_scanned: u64, new_paths_over_limit: Seq<LongPath> },
    ExportCsv,
    CsvExportComplete(Result<Seq<char>, ExportFailure>),
}

/// A message to the session.
///
/// What comes from a scan carries the number that the session gave that
/// scan, so that what an earlier scan still sends can be told apart from
/// what the latest one sends.
#[derive(Debug)]
pub enum Message {
    /// The user wants to select a folder.
    SelectFolder,
    /// The selection ended, with a folder or without one.
    SelectedFolder(Option<ScanPath>),
    /// The user wants the running scan to stop.
    AbortScan,
    /// The scan with this number has ended.
    ScanComplete(u64),
    /// The scan with this number met an error.
    Error(u64, String),
    /// The text in the field for the limit has changed.
    LimitChanged(String),
    /// The user wants to scan the selected folder.
    StartScan,
    /// A progress report of the scan numbered `scan`.
    ScanUpdate { scan: u64, now_scanned: u64, new_paths_over_limit: Vec<OverLimit> },
    /// The user wants to export the results.
    ExportCsv,
    /// The export has ended, with a summary or with an error.
    CsvExportComplete(Result<String, ExportError>),
}

impl View for Message {
    type V = Event;

    open spec fn view(&self) -> Event {
        match self {
            Message::SelectFolder => Event::SelectFolder,
            Message::SelectedFolder(folder) => Event::SelectedFolder(optional_path(*folder)),
            Message::AbortScan => Event::AbortScan,
            Message::ScanComplete(scan) => Event::ScanComplete(*scan),
            Message::Error(scan, text) => Event::Error(*scan, text@),
            Message::LimitChanged(text) => Event::LimitChanged(text@),
            Message::StartScan => Event::StartScan,
            Message::ScanUpdate { scan, now_scanned, new_paths_over_limit } => Event::ScanUpdate {
                scan: *scan,
                now_scanned: *now_scanned,
                new_paths_over_limit: long_paths(new_paths_over_limit@),
            },
            Message::ExportCsv => Event::ExportCsv,
            Message::CsvExportComplete(result) => Event::CsvExportComplete(
                match result {
                    Ok(summary) => Ok(summary@),
                    Err(error) => Err(error@),
                },
            ),
        }
    }
}

/// The message that carries `report` to the session under the number
/// `scan`.
pub open spec fn report_event(scan: u64, report: Snapshot) -> Event {
    Event::ScanUpdate {
        scan,
        now_scanned: report.scanned_count as u64,
        new_paths_over_limit: report.new_entries,
    }
}

/// The message that tells the session of `failure` under the number `scan`.
pub open spec fn error_event(scan: u64, failure: Failure) -> Event {
    Event::Error(scan, failure_line(failure))
}

/// What the end of a scan sends before its completion: its last report,
/// then one message for each of its errors, in their order.
pub open spec fn closing_events(scan: u64, report: Snapshot, errors: Seq<Failure>) -> Seq<Event> {
    seq![report_event(scan, report)] + errors.map_values(|f: Failure| error_event(scan, f))
}

/// The views of a sequence of messages, in the same order.
pub open spec fn events(messages: Seq<Message>) -> Seq<Event> {
    messages.map_values(|m: Message| m@)
}

impl Message {
    /// The message that carries `report` to the session under the number
    /// `scan`.
    pub fn progress(scan: u64, report: ProgressSnapshot) -> (message: Message)
        ensures
            message@ == report_event(scan, report@),
    {
        Message::ScanUpdate {
            scan,
            now_scanned: report.scanned_count,
            new_paths_over_limit: report.new_entries,
        }
    }

    /// The message that tells the session of `error` under the number
    /// `scan`.
    pub fn failure(scan: u64, error: &ScanError) -> (message: Message)
        ensures
            message@ == error_event(scan, error@),
    {
        Message::Error(scan, error.describe())
    }

    /// The messages that the end of a scan sends before its completion: its
    /// last report, then its errors.
    pub fn closing(scan: u64, report: ProgressSnapshot, outcome: &ScanOutcome) -> (messages: Vec<
        Message,
    >)
        ensures
            events(messages@) == closing_events(scan, report@, outcome@.errors),
    {
        let ghost last = report@;
        let ghost all = closing_events(scan, last, outcome@.errors);
        let mut messages: Vec<Message> = Vec::new();
        messages.push(Message::progress(scan, report));
        assert(events(messages@) =~= all.take(1));
        let mut i: usize = 0;
        while i < outcome.errors.len()
            invariant
                i <= outcome.errors.len(),
                all == closing_events(scan, last, outcome@.errors),
                events(messages@) == all.take(i + 1),
            decreases outcome.errors.len() - i,
        {
            let ghost before = events(messages@);
            let message = Message::failure(scan, &outcome.errors[i]);
            messages.push(message);
            assert(events(messages@) =~= before.push(message@));
            assert(events(messages@) =~= all.take(i + 2));
            i = i + 1;
        }
        assert(all.take(i + 1) =~= all);
        messages
    }
}

impl Clone for Message {
    /// A copy that stands for the same message.
    fn clone(&self) -> (copy: Message)
        ensures
            copy@ == self@,
    {
        match self {
            Message::SelectFolder => Message::SelectFolder,
            Message::SelectedFolder(folder) => Message::SelectedFolder(
                match folder {
                    Some(path) => Some(path.clone()),
                    None => None,
                },
            ),
            Message::AbortScan => Message::AbortScan,
            Message::ScanComplete(scan) => Message::ScanComplete(*scan),
            Message::Error(scan, text) => Message::Error(*scan, text.clone()),
            Message::LimitChanged(text) => Message::LimitChanged(text.clone()),
            Message::StartScan => Message::StartScan,
            Message::ScanUpdate { scan, now_scanned, new_paths_over_limit } => Message::ScanUpdate {
                scan: *scan,
                now_scanned: *now_scanned,
                new_paths_over_limit: copy_entries(new_paths_over_limit),
            },
            Message::ExportCsv => Message::ExportCsv,
            Message::CsvExportComplete(result) => Message::CsvExportComplete(
                match result {
                    Ok(summary) => Ok(summary.clone()),
                    Err(error) => Err(error.clone()),
                },
            ),
        }
    }
}

/// The view of an optional path.
pub open spec fn optional_path(path: Option<ScanPath>) -> Option<PathView> {
    match path {
        Some(p) => Some(p@),
        None => None,
    }
}

/// The work that the session asks for, as a mathematical value.
pub enum Effect {
    Nothing,
    PickFolder,
    Scan { scan: u64, scanner: ScanState },
    Export(Seq<LongPath>),
}

/// The work that the session asks for in answer to a message.
pub enum Command {
    /// Nothing.
    Nothing,
    /// Let the user select a folder, and answer with `SelectedFolder`.
    PickFolder,
    /// Run this scan, and send what it yields under the number `scan`.
    Scan { scan: u64, scanner: Scanner },
    /// Carry out this export, and answer with `CsvExportComplete`.
    Export(Export),
}

impl View for Command {
    type V = Effect;

    open spec fn view(&self) -> Effect {
        match self {
            Command::Nothing => Effect::Nothing,
            Command::PickFolder => Effect::PickFolder,
            Command::Scan { scan, scanner } => Effect::Scan { scan: *scan, scanner: scanner@ },
            Command::Export(export) => Effect::Export(export@),
        }
    }
}

/// The number of the scan that follows the one numbered `scan`.
pub open spec fn following(scan: Option<u64>) -> u64 {
    match scan {
        Some(n) => if n == u64::MAX {
            0
        } else {
            (n + 1) as u64
        },
        None => 0,
    }
}

/// The session, as a mathematical value.
pub struct Session {
    /// Whether the user is selecting a folder.
    pub selecting: bool,
    /// The selected folder.
    pub selected: Option<PathView>,
    /// Whether a scan runs, as far as the session knows.
    pub scanning: bool,
    /// The number of the latest scan.
    pub scan: Option<u64>,
    /// What the latest scan has found so far.
    pub paths_over_limit: Seq<LongPath>,
    /// How many entries the latest scan has visited so far.
    pub scanned: u64,
    /// The text in the field for the limit.
    pub limit_input: Seq<char>,
    /// The limit for the next scan: the last number that the field held.
    pub limit: usize,
    /// The limit of the latest scan.
    pub scan_limit: usize,
    /// The errors of the latest scan.
    pub errors: Seq<Seq<char>>,
    /// Whether an export is under way.
    pub exporting: bool,
    /// How the last export ended.
    pub export_message: Option<Seq<char>>,
    /// Whether the last export succeeded.
    pub export_success: bool,
}

impl Session {
    /// A new session: nothing selected, nothing found, the default limit.
    pub open spec fn start() -> Session {
        Session {
            selecting: false,
            selected: None,
            scanning: false,
            scan: None,
            paths_over_limit: Seq::empty(),
            scanned: 0,
            limit_input: "240"@,
            limit: DEFAULT_LIMIT,
            scan_limit: DEFAULT_LIMIT,
            errors: Seq::empty(),
            exporting: false,
            export_message: None,
            export_success: false,
        }
    }

    /// Whether a message numbered `scan` is taken: it is unless the session
    /// has a latest scan and that scan has another number.
    pub open spec fn current(self, scan: u64) -> bool {
        self.scan is None || self.scan == Some(scan)
    }

    /// The session after `event`.
    pub open spec fn after(self, event: Event) -> Session {
        match event {
            Event::SelectFolder => Session { selecting: true, ..self },
            Event::SelectedFolder(folder) => Session {
                selecting: false,
                selected: if folder is Some {
                    folder
                } else {
                    self.selected
                },
                ..self
            },
            Event::AbortScan => Session { scanning: false, ..self },
            Event::ScanComplete(scan) => if self.current(scan) {
                Session { scanning: false, ..self }
            } else {
                self
            },
            Event::Error(scan, text) => if self.current(scan) {
                Session { errors: self.errors.push(text), ..self }
            } else {
                self
            },
            Event::LimitChanged(text) => Session {
                limit_input: text,
                limit: match parsed_number(text) {
                    Some(limit) => limit,
                    None => self.limit,
                },
                ..self
            },
            Event::StartScan => if self.selected is Some {
                Session {
                    scanning: true,
                    scan: Some(following(self.scan)),
                    paths_over_limit: Seq::empty(),
                    scanned: 0,
                    scan_limit: self.limit,
                    errors: Seq::empty(),
                    ..self
                }
            } else {
                self
            },
            Event::ScanUpdate { scan, now_scanned, new_paths_over_limit } => if self.current(
                scan,
            ) {
                Session {
                    scanned: now_scanned,
                    paths_over_limit: self.paths_over_limit + new_paths_over_limit,
                    ..self
                }
            } else {
                self
            },
            Event::ExportCsv => if self.paths_over_limit.len() == 0 {
                self
            } else {
                Session { exporting: true, export_message: None, ..self }
            },
            Event::CsvExportComplete(result) => Session {
                exporting: false,
                export_message: Some(
                    match result {
                        Ok(summary) => summary,
                        Err(failure) => failure_text(failure),
                    },
                ),
                export_success: result is Ok,
                ..self
            },
        }
    }

    /// The work that the session asks for in answer to `event`.
    pub open spec fn effect(self, event: Event) -> Effect {
        match event {
            Event::SelectFolder => Effect::PickFolder,
            Event::StartScan => match self.selected {
                Some(root) => Effect::Scan {
                    scan: following(self.scan),
                    scanner: ScanState::start(root, self.limit as nat),
                },
                None => Effect::Nothing,
            },
            Event::ExportCsv => if self.paths_over_limit.len() == 0 {
                Effect::Nothing
            } else {
                Effect::Export(self.paths_over_limit)
            },
            _ => Effect::Nothing,
        }
    }

    /// What the session shows.
    pub open spec fn shown(self) -> Shown {
        Shown {
            can_select_folder: !self.selecting,
            limit_input: self.limit_input,
            can_start: self.selected is Some && !self.scanning,
            can_abort: self.scanning,
            can_export: self.paths_over_limit.len() > 0 && !self.exporting && !self.scanning,
            selected: match self.selected {
                Some(path) => Some(selected_line(path.text)),
                None => None,
            },
            progress: if self.scanning {
                Some(progress_line(self.scanned as nat))
            } else {
                None
            },
            results: if self.paths_over_limit.len() > 0 {
                Some(results_line(self.paths_over_limit.len(), self.scan_limit as nat))
            } else {
                None
            },
            exporting: if self.exporting {
                Some(exporting_line())
            } else {
                None
            },
            export_message: self.export_message,
            export_success: self.export_success,
            errors_title: if self.errors.len() > 0 {
                Some(errors_line(self.errors.len()))
            } else {
                None
            },
            errors: self.errors,
        }
    }
}

/// The session.
pub struct UI {
    selecting: bool,
    selected: Option<ScanPath>,
    cancellation_token: Option<CancellationToken>,
    scan: Option<u64>,
    paths_over_limit: Vec<OverLimit>,
    scanned: u64,
    limit_input: String,
    limit: usize,
    scan_limit: usize,
    errors: Vec<String>,
    exporting: bool,
    export_message: Option<String>,
    export_success: bool,
}

/// A copy of `entries`.
pub fn copy_entries(entries: &Vec<OverLimit>) -> (copy: Vec<OverLimit>)
    ensures
        long_paths(copy@) == long_paths(entries@),
{
    let mut copy: Vec<OverLimit> = Vec::new();
    let mut i: usize = 0;
    while i < entries.len()
        invariant
            i <= entries.len(),
            long_paths(copy@) == long_paths(entries@).take(i as int),
        decreases entries.len() - i,
    {
        let ghost before = long_paths(copy@);
        let entry = entries[i].clone();
        copy.push(entry);
        assert(long_paths(copy@) =~= before.push(entry@));
        assert(long_paths(copy@) =~= long_paths(entries@).take(i + 1));
        i = i + 1;
    }
    assert(long_paths(entries@).take(i as int) =~= long_paths(entries@));
    copy
}

impl UI {
    /// The session as a mathematical value.
    pub closed spec fn model(&self) -> Session {
        Session {
            selecting: self.selecting,
            selected: optional_path(self.selected),
            scanning: self.cancellation_token is Some,
            scan: self.scan,
            paths_over_limit: long_paths(self.paths_over_limit@),
            scanned: self.scanned,
            limit_input: self.limit_input@,
            limit: self.limit,
            scan_limit: self.scan_limit,
            errors: texts(self.errors@),
            exporting: self.exporting,
            export_message: optional(self.export_message),
            export_success: self.export_success,
        }
    }

    /// The token of the scan that runs, if one does. A clone of it is what
    /// that scan looks at.
    pub closed spec fn token(&self) -> Option<CancellationToken> {
        self.cancellation_token
    }

    /// The session takes a scan to be running exactly while it keeps a
    /// token.
    pub proof fn lemma_scanning_keeps_a_token(&self)
        ensures
            self.model().scanning == (self.token() is Some),
    {
    }

    /// A new session, which asks for nothing yet.
    pub fn start() -> (begun: (UI, Command))
        ensures
            begun.0.model() == Session::start(),
            begun.0.token() is None,
            begun.1@ == Effect::Nothing,
    {
        let ui = UI {
            selecting: false,
            selected: None,
            cancellation_token: None,
            scan: None,
            paths_over_limit: Vec::new(),
            scanned: 0,
            limit_input: String::from_str("240"),
            limit: DEFAULT_LIMIT,
            scan_limit: DEFAULT_LIMIT,
            errors: Vec::new(),
            exporting: false,
            export_message: None,
            export_success: false,
        };
        assert(long_paths(ui.paths_over_limit@) =~= Seq::empty());
        assert(texts(ui.errors@) =~= Seq::empty());
        (ui, Command::Nothing)
    }

    /// What the latest scan has found so far.
    pub fn paths_over_limit(&self) -> (found: &Vec<OverLimit>)
        ensures
            long_paths(found@) == self.model().paths_over_limit,
    {
        &self.paths_over_limit
    }

    /// How many entries the latest scan has visited so far.
    pub fn scanned(&self) -> (count: u64)
        ensures
            count == self.model().scanned,
    {
        self.scanned
    }

    /// The limit for the next scan.
    pub fn limit(&self) -> (limit: usize)
        ensures
            limit == self.model().limit,
    {
        self.limit
    }

    /// The limit of the latest scan.
    pub fn scan_limit(&self) -> (limit: usize)
        ensures
            limit == self.model().scan_limit,
    {
        self.scan_limit
    }

    /// Whether a scan runs, as far as the session knows.
    pub fn is_scanning(&self) -> (scanning: bool)
        ensures
            scanning == self.model().scanning,
    {
        self.cancellation_token.is_some()
    }

    /// Whether a message numbered `scan` is taken.
    fn is_current(&self, scan: u64) -> (current: bool)
        ensures
            current == self.model().current(scan),
    {
        match self.scan {
            Some(latest) => latest == scan,
            None => true,
        }
    }

    /// Forgets the token of the running scan, if there is one, and cancels
    /// it, so that the scan stops before its next directory.
    fn stop_scan(&mut self)
        ensures
            final(self).model() == (Session { scanning: false, ..old(self).model() }),
            final(self).token() is None,
    {
        match self.cancellation_token.take() {
            Some(token) => {
                token.cancel();
            },
            None => {},
        }
    }

    /// Takes one message: changes the session and answers with the work to
    /// do next.
    ///
    /// A report, an error or a completion that carries another number than
    /// that of the latest scan changes nothing; before the first scan every
    /// number is taken. A new scan cancels the one that runs, and looks at
    /// the token that the session keeps from then on; any other message
    /// leaves the token in place or lets go of it.
    pub fn update(&mut self, message: Message) -> (command: Command)
        ensures
            final(self).model() == old(self).model().after(message@),
            command@ == old(self).model().effect(message@),
            match command {
                Command::Scan { scanner, .. } => final(self).token() == Some(scanner.watched()),
                _ => final(self).token() == (if final(self).model().scanning {
                    old(self).token()
                } else {
                    None
                }),
            },
    {
        match message {
            Message::SelectFolder => {
                self.selecting = true;
                Command::PickFolder
            },
            Message::SelectedFolder(folder) => {
                self.selecting = false;
                match folder {
                    Some(path) => {
                        self.selected = Some(path);
                    },
                    None => {},
                }
                Command::Nothing
            },
            Message::AbortScan => {
                self.stop_scan();
                Command::Nothing
            },
            Message::ScanComplete(scan) => {
                if self.is_current(scan) {
                    self.stop_scan();
                }
                Command::Nothing
            },
            Message::Error(scan, text) => {
                if self.is_current(scan) {
                    self.errors.push(text);
                    assert(texts(self.errors@) =~= texts(old(self).errors@).push(text@));
                }
                Command::Nothing
            },
            Message::LimitChanged(text) => {
                match parse_number(text.as_str()) {
                    Some(limit) => {
                        self.limit = limit;
                    },
                    None => {},
                }
                self.limit_input = text;
                Command::Nothing
            },
            Message::StartScan => {
                let root = match &self.selected {
                    Some(folder) => Some(folder.clone()),
                    None => None,
                };
                match root {
                    Some(root) => {
                        self.stop_scan();
                        self.paths_over_limit.clear();
                        self.errors.clear();
                        self.scanned = 0;
                        let scan: u64 = match self.scan {
                            Some(n) => if n == u64::MAX {
                                0
                            } else {
                                n + 1
                            },
                            None => 0,
                        };
                        self.scan = Some(scan);
                        let token = CancellationToken::new();
                        self.cancellation_token = Some(token.clone());
                        self.scan_limit = self.limit;
                        assert(long_paths(self.paths_over_limit@) =~= Seq::empty());
                        assert(texts(self.errors@) =~= Seq::empty());
                        Command::Scan { scan, scanner: Scanner::new(root, self.limit, token) }
                    },
                    None => Command::Nothing,
                }
            },
            Message::ScanUpdate { scan, now_scanned, new_paths_over_limit } => {
                if self.is_current(scan) {
                    let mut found = new_paths_over_limit;
                    self.scanned = now_scanned;
                    self.paths_over_limit.append(&mut found);
                    assert(long_paths(self.paths_over_limit@) =~= long_paths(
                        old(self).paths_over_limit@,
                    ) + long_paths(new_paths_over_limit@));
                }
                Command::Nothing
            },
            Message::ExportCsv => {
                if self.paths_over_limit.len() == 0 {
                    Command::Nothing
                } else {
                    self.exporting = true;
                    self.export_message = None;
                    Command::Export(Export::new(copy_entries(&self.paths_over_limit)))
                }
            },
            Message::CsvExportComplete(result) => {
                self.exporting = false;
                match result {
                    Ok(summary) => {
                        self.export_message = Some(summary);
                        self.export_success = true;
                    },
                    Err(error) => {
                        self.export_message = Some(error.describe());
                        self.export_success = false;
                    },
                }
                Command::Nothing
            },
        }
    }

    /// What the session shows now.
    pub fn view(&self) -> (screen: Screen)
        ensures
            screen@ == self.model().shown(),
    {
        let scanning = self.cancellation_token.is_some();
        let found = self.paths_over_limit.len();
        Screen {
            can_select_folder: !self.selecting,
            limit_input: self.limit_input.clone(),
            can_start: self.selected.is_some() && !scanning,
            can_abort: scanning,
            can_export: found > 0 && !self.exporting && !scanning,
            selected: match &self.selected {
                Some(path) => Some(write_selected_line(path.text.as_str())),
                None => None,
            },
            progress: if scanning {
                Some(write_progress_line(self.scanned))
            } else {
                None
            },
            results: if found > 0 {
                Some(write_results_line(found, self.scan_limit))
            } else {
                None
            },
            exporting: if self.exporting {
                Some(String::from_str("Exporting to CSV..."))
            } else {
                None
            },
            export_message: match &self.export_message {
                Some(text) => Some(text.clone()),
                None => None,
            },
            export_success: self.export_success,
            errors_title: if self.errors.len() > 0 {
                Some(write_errors_line(self.errors.len()))
            } else {
                None
            },
            errors: copy_lines(&self.errors),
        }
    }
}

} // verus!
