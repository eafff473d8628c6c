//! The traversal: which directory to list next, what to do with each entry,
//! when to stop.
//!
//! The scanner never touches the file system. It tells its caller which
//! directory to list, the caller lists it and hands back each entry, and the
//! scanner decides what follows. Pending directories wait on a stack, so the
//! walk is depth-first without recursion, and a request to cancel is honoured
//! between two directories.

use vstd::prelude::*;
use vstd::string::StringExecFns;
use tokio_util::sync::CancellationToken;
use crate::batcher::{Batch, ProgressBatcher, ProgressSnapshot, Snapshot};
use crate::classify::{
    classify, is_over_limit, measured, paths, LongPath, OverLimit, PathView, ScanPath,
};

verus! {

/// What the file system said an entry is, as a mathematical value.
pub enum Kind {
    Directory,
    Other,
    Unknown(Seq<char>),
}

/// What the file system said an entry is.
#[derive(Debug)]
pub enum EntryType {
    /// A directory: it will be listed in its turn.
    Directory,
    /// Anything that is not a directory.
    Other,
    /// The entry's metadata could not be read; the message says why.
    Unknown(String),
}

impl View for EntryType {
    type V = Kind;

    open spec fn view(&self) -> Kind {
        match self {
            EntryType::Directory => Kind::Directory,
            EntryType::Other => Kind::Other,
            EntryType::Unknown(message) => Kind::Unknown(message@),
        }
    }
}

/// An error met during a scan, as a mathematical value.
pub enum Failure {
    DirectoryRead { path: Seq<char>, message: Seq<char> },
    Metadata { path: Seq<char>, message: Seq<char> },
}

/// An error met during a scan. None of them ends the scan.
#[derive(Debug)]
pub enum ScanError {
    /// The directory at `path` could not be listed.
    DirectoryRead { path: String, message: String },
    /// The type of the entry at `path` could not be determined.
    Metadata { path: String, message: String },
}

impl View for ScanError {
    type V = Failure;

    open spec fn view(&self) -> Failure {
        match self {
            ScanError::DirectoryRead { path, message } => Failure::DirectoryRead {
                path: path@,
                message: message@,
            },
            ScanError::Metadata { path, message } => Failure::Metadata {
                path: path@,
                message: message@,
            },
        }
    }
}

/// The sentence that tells a user of `failure`.
pub open spec fn failure_line(failure: Failure) -> Seq<char> {
    match failure {
        Failure::DirectoryRead { path, message } => "Error reading directory "@ + path + ": "@
            + message,
        Failure::Metadata { path, message } => "Error reading metadata for "@ + path + ": "@
            + message,
    }
}

impl ScanError {
    /// The sentence that tells a user of this error.
    pub fn describe(&self) -> (line: String)
        ensures
            line@ == failure_line(self@),
    {
        match self {
            ScanError::DirectoryRead { path, message } => {
                let mut line = String::from_str("Error reading directory ");
                line.append(path.as_str());
                line.append(": ");
                line.append(message.as_str());
                line
            },
            ScanError::Metadata { path, message } => {
                let mut line = String::from_str("Error reading metadata for ");
                line.append(path.as_str());
                line.append(": ");
                line.append(message.as_str());
                line
            },
        }
    }
}

/// The views of a sequence of errors, in the same order.
pub open spec fn failures(errors: Seq<ScanError>) -> Seq<Failure> {
    errors.map_values(|e: ScanError| e@)
}

/// The views of a sequence of strings, in the same order.
pub open spec fn texts(strings: Seq<String>) -> Seq<Seq<char>> {
    strings.map_values(|s: String| s@)
}

/// How a scan ended.
#[derive(Clone, Copy, Debug, PartialEq, Eq, Structural)]
pub enum Completion {
    /// Every directory that was reached has been listed.
    Completed,
    /// A request to cancel was seen before the stack was empty.
    Cancelled,
}

/// The end of a scan, as a mathematical value.
pub struct End {
    pub completion: Completion,
    pub errors: Seq<Failure>,
}

/// The end of a scan: how it ended, and the errors met on the way.
#[derive(Debug)]
pub struct ScanOutcome {
    /// Whether the scan ran to its end or was cancelled.
    pub completion: Completion,
    /// Every error recorded during the scan, in the order they were met.
    pub errors: Vec<ScanError>,
}

impl View for ScanOutcome {
    type V = End;

    open spec fn view(&self) -> End {
        End { completion: self.completion, errors: failures(self.errors@) }
    }
}

/// The entries among `visited` whose path is over `limit`, each with its
/// length, in the order of the visits.
pub open spec fn over_limit(visited: Seq<PathView>, limit: nat) -> Seq<LongPath>
    decreases visited.len(),
{
    if visited.len() == 0 {
        Seq::empty()
    } else if is_over_limit(visited.last(), limit) {
        over_limit(visited.drop_last(), limit).push(measured(visited.last()))
    } else {
        over_limit(visited.drop_last(), limit)
    }
}

/// All the entries that a sequence of reports delivered, in order.
pub open spec fn delivered(reports: Seq<Snapshot>) -> Seq<LongPath>
    decreases reports.len(),
{
    if reports.len() == 0 {
        Seq::empty()
    } else {
        delivered(reports.drop_last()) + reports.last().new_entries
    }
}

/// Whether the counts of `reports` never go down from one to the next.
pub open spec fn non_decreasing(reports: Seq<Snapshot>) -> bool {
    forall|i: int, j: int|
        0 <= i <= j < reports.len() ==> reports[i].scanned_count <= reports[j].scanned_count
}

/// The state of a scan between two directories, as a mathematical value.
///
/// `root`, `visited`, `emitted` and `origins` are the scan's history; the
/// scanner itself keeps them only for the proofs.
pub struct ScanState {
    /// Paths longer than this are reported.
    pub limit: nat,
    /// Directories still to list; the last one is listed next.
    pub stack: Seq<PathView>,
    /// The count and the entries not yet reported.
    pub batch: Batch,
    /// Errors recorded so far.
    pub errors: Seq<Failure>,
    /// The path of every entry visited so far, in order.
    pub visited: Seq<PathView>,
    /// Every report handed out so far, in order.
    pub emitted: Seq<Snapshot>,
    /// Where the scan began.
    pub root: PathView,
    /// For each directory on the stack, where it came from: 0 for the root,
    /// and `i + 1` for the entry of the `i`-th visit.
    pub origins: Seq<int>,
}

/// What a scan asks for next, as a mathematical value.
pub enum Next {
    /// List this directory.
    Read(ListingState),
    /// The scan is over: its last report and its outcome.
    Finished { snapshot: Snapshot, outcome: End },
}

impl Next {
    /// Whether what is asked for fits the history of the scan: a listing
    /// goes on from a state that agrees with its history, and the last
    /// report of a scan that ends counts every visit, never less than a
    /// report before it, and delivers the last of the visited paths over
    /// the limit. `before` is the state that the step was taken from.
    pub open spec fn follows(self, before: ScanState) -> bool {
        match self {
            Next::Read(listing) => listing.scan.consistent(),
            Next::Finished { snapshot, outcome } => {
                &&& snapshot.scanned_count == before.visited.len()
                &&& non_decreasing(before.emitted.push(snapshot))
                &&& delivered(before.emitted.push(snapshot)) == over_limit(
                    before.visited,
                    before.limit,
                )
            },
        }
    }
}

impl ScanState {
    /// A scan of `root` that has not begun: only the root waits on the
    /// stack, and the clock of the reports starts at zero.
    pub open spec fn start(root: PathView, limit: nat) -> ScanState {
        ScanState {
            limit,
            stack: seq![root],
            batch: Batch::start(0),
            errors: Seq::empty(),
            visited: Seq::empty(),
            emitted: Seq::empty(),
            root,
            origins: seq![0int],
        }
    }

    /// The root followed by the path of every entry visited so far.
    pub open spec fn met(self) -> Seq<PathView> {
        seq![self.root] + self.visited
    }

    /// Whether each directory on the stack is the root or an entry that was
    /// visited, each from a place of its own and in the order of the visits.
    pub open spec fn traced(self) -> bool {
        &&& self.origins.len() == self.stack.len()
        &&& forall|i: int|
            0 <= i < self.stack.len() ==> 0 <= #[trigger] self.origins[i] < self.met().len()
                && self.met()[self.origins[i]] == self.stack[i]
        &&& forall|i: int, j: int|
            0 <= i < j < self.stack.len() ==> self.origins[i] < self.origins[j]
    }

    /// Whether the state agrees with its history: every visit was counted,
    /// every visited path over the limit was kept or has gone out in a
    /// report, and no report counted more than a later one or than the
    /// scan has counted by now.
    pub open spec fn consistent(self) -> bool {
        &&& self.traced()
        &&& self.batch.scanned == self.visited.len()
        &&& delivered(self.emitted) + self.batch.pending == over_limit(self.visited, self.limit)
        &&& non_decreasing(self.emitted)
        &&& forall|i: int|
            0 <= i < self.emitted.len() ==> (#[trigger] self.emitted[i]).scanned_count
                <= self.batch.scanned
    }

    /// After the entry at `path` has been classified, kept if it is over the
    /// limit, pushed if it is a directory, and counted.
    ///
    /// A directory is pushed whether or not its own path is over the limit.
    pub open spec fn counted(self, path: PathView, kind: Kind) -> ScanState {
        let kept = if is_over_limit(path, self.limit) {
            self.batch.record(measured(path))
        } else {
            self.batch
        };
        ScanState {
            stack: if kind is Directory {
                self.stack.push(path)
            } else {
                self.stack
            },
            batch: kept.tick(),
            errors: if let Kind::Unknown(message) = kind {
                self.errors.push(Failure::Metadata { path: path.text, message })
            } else {
                self.errors
            },
            visited: self.visited.push(path),
            origins: if kind is Directory {
                self.origins.push(self.visited.len() as int + 1)
            } else {
                self.origins
            },
            ..self
        }
    }

    /// The report that goes out when the entry at `path` is visited at time
    /// `now`, if one does.
    pub open spec fn report(self, path: PathView, kind: Kind, now: nat) -> Option<Snapshot> {
        let counted = self.counted(path, kind);
        if counted.batch.due(now) {
            Some(counted.batch.snapshot())
        } else {
            None
        }
    }

    /// After the entry at `path` has been visited at time `now`.
    pub open spec fn visit(self, path: PathView, kind: Kind, now: nat) -> ScanState {
        let counted = self.counted(path, kind);
        if counted.batch.due(now) {
            ScanState {
                batch: counted.batch.flushed(now),
                emitted: counted.emitted.push(counted.batch.snapshot()),
                ..counted
            }
        } else {
            counted
        }
    }

    /// After the directory at `path` could not be listed.
    pub open spec fn fail(self, path: PathView, message: Seq<char>) -> ScanState {
        ScanState {
            errors: self.errors.push(Failure::DirectoryRead { path: path.text, message }),
            ..self
        }
    }

    /// The last report of the scan.
    pub open spec fn last_report(self) -> Snapshot {
        self.batch.snapshot()
    }

    /// The history of reports once the last one has gone out.
    pub open spec fn all_reports(self) -> Seq<Snapshot> {
        self.emitted.push(self.last_report())
    }

    /// What the scan asks for next, given whether a request to cancel was
    /// seen.
    pub open spec fn proceed(self, cancelled: bool) -> Next {
        if cancelled {
            Next::Finished {
                snapshot: self.last_report(),
                outcome: End { completion: Completion::Cancelled, errors: self.errors },
            }
        } else if self.stack.len() == 0 {
            Next::Finished {
                snapshot: self.last_report(),
                outcome: End { completion: Completion::Completed, errors: self.errors },
            }
        } else {
            Next::Read(
                ListingState {
                    scan: ScanState {
                        stack: self.stack.drop_last(),
                        origins: self.origins.drop_last(),
                        ..self
                    },
                    directory: self.stack.last(),
                },
            )
        }
    }
}

/// The state of a scan while one directory is being listed, as a
/// mathematical value.
pub struct ListingState {
    /// The scan, without the directory being listed on its stack.
    pub scan: ScanState,
    /// The directory being listed.
    pub directory: PathView,
}

/// A scan that has not begun agrees with its history, which is empty.
pub proof fn lemma_start_consistent(root: PathView, limit: nat)
    ensures
        ScanState::start(root, limit).consistent(),
{
    let s = ScanState::start(root, limit);
    assert(delivered(s.emitted) + s.batch.pending =~= Seq::empty());
    assert(s.met() =~= seq![root]);
}

/// Visiting an entry keeps the state in agreement with its history.
pub proof fn lemma_visit_consistent(s: ScanState, path: PathView, kind: Kind, now: nat)
    requires
        s.consistent(),
    ensures
        s.visit(path, kind, now).consistent(),
{
    let counted = s.counted(path, kind);
    let after = s.visit(path, kind, now);
    assert(counted.visited.drop_last() =~= s.visited);
    if is_over_limit(path, s.limit) {
        assert(delivered(s.emitted) + s.batch.pending.push(measured(path)) =~= (delivered(
            s.emitted,
        ) + s.batch.pending).push(measured(path)));
    }
    assert(delivered(counted.emitted) + counted.batch.pending == over_limit(
        counted.visited,
        counted.limit,
    ));
    if counted.batch.due(now) {
        assert(after.emitted.drop_last() =~= counted.emitted);
        assert(delivered(after.emitted) + after.batch.pending =~= delivered(counted.emitted)
            + counted.batch.pending);
    }
}

/// A directory that cannot be listed leaves the state in agreement with its
/// history.
pub proof fn lemma_fail_consistent(s: ScanState, path: PathView, message: Seq<char>)
    requires
        s.consistent(),
    ensures
        s.fail(path, message).consistent(),
{
}

/// Whatever a scan that agrees with its history asks for next fits that
/// history.
pub proof fn lemma_proceed_follows(s: ScanState, cancelled: bool)
    requires
        s.consistent(),
    ensures
        s.proceed(cancelled).follows(s),
{
    assert(s.all_reports().drop_last() =~= s.emitted);
}

/// A scan between two directories.
pub struct Scanner {
    limit: usize,
    token: CancellationToken,
    stack: Vec<ScanPath>,
    batcher: ProgressBatcher,
    errors: Vec<ScanError>,
    visited: Ghost<Seq<PathView>>,
    emitted: Ghost<Seq<Snapshot>>,
    root: Ghost<PathView>,
    origins: Ghost<Seq<int>>,
}

/// A scan in the middle of one directory.
pub struct Listing {
    scanner: Scanner,
    directory: ScanPath,
}

/// What a scan asks for next.
pub enum Step {
    /// List the directory of this listing and hand its entries to it.
    Read(Listing),
    /// The scan is over. The snapshot is its last report: it carries the
    /// final count even when nothing new was found.
    Finished { snapshot: ProgressSnapshot, outcome: ScanOutcome },
}

impl View for Scanner {
    type V = ScanState;

    closed spec fn view(&self) -> ScanState {
        ScanState {
            limit: self.limit as nat,
            stack: paths(self.stack@),
            batch: self.batcher@,
            errors: failures(self.errors@),
            visited: self.visited@,
            emitted: self.emitted@,
            root: self.root@,
            origins: self.origins@,
        }
    }
}

impl View for Listing {
    type V = ListingState;

    closed spec fn view(&self) -> ListingState {
        ListingState { scan: self.scanner@, directory: self.directory@ }
    }
}

impl View for Step {
    type V = Next;

    open spec fn view(&self) -> Next {
        match self {
            Step::Read(listing) => Next::Read(listing@),
            Step::Finished { snapshot, outcome } => Next::Finished {
                snapshot: snapshot@,
                outcome: outcome@,
            },
        }
    }
}

impl Scanner {
    /// The token that this scan looks at to learn whether to stop.
    pub closed spec fn watched(&self) -> CancellationToken {
        self.token
    }

    /// A scan of the tree under `root` that reports paths longer than
    /// `limit` and stops when `token` is cancelled.
    ///
    /// Times given to the scan are nanoseconds on a clock that stood at
    /// zero when the scan began.
    pub fn new(root: ScanPath, limit: usize, token: CancellationToken) -> (scanner: Scanner)
        ensures
            scanner@ == ScanState::start(root@, limit as nat),
            scanner@.consistent(),
            scanner.watched() == token,
    {
        proof {
            lemma_start_consistent(root@, limit as nat);
        }
        let ghost begun = root@;
        let ghost origins = seq![0int];
        let mut stack: Vec<ScanPath> = Vec::new();
        stack.push(root);
        let scanner = Scanner {
            limit,
            token,
            stack,
            batcher: ProgressBatcher::new(0),
            errors: Vec::new(),
            visited: Ghost(Seq::empty()),
            emitted: Ghost(Seq::empty()),
            root: Ghost(begun),
            origins: Ghost(origins),
        };
        assert(paths(scanner.stack@) =~= seq![begun]);
        assert(failures(scanner.errors@) =~= Seq::empty());
        scanner
    }

    /// The limit of this scan.
    pub fn limit(&self) -> (limit: usize)
        ensures
            limit == self@.limit,
    {
        self.limit
    }

    /// The number of entries visited so far.
    pub fn scanned(&self) -> (count: u64)
        ensures
            count == self@.batch.scanned,
    {
        self.batcher.scanned()
    }

    /// Looks at the token `watched` and goes on as `proceed` says.
    ///
    /// Whether the token is cancelled is for its other holders to decide, so
    /// the result is that of `proceed` for one of the two answers.
    pub fn next(self) -> (step: Step)
        ensures
            step@ == self@.proceed(true) || step@ == self@.proceed(false),
            self@.consistent() ==> step@.follows(self@),
            step matches Step::Read(listing) ==> listing.watched() == self.watched(),
    {
        let cancelled = self.token.is_cancelled();
        self.proceed(cancelled)
    }

    /// Ends the scan if `cancelled` is set or no directory is left, and asks
    /// for the listing of the directory on top of the stack otherwise.
    ///
    /// A scan that ends hands out what is pending as its last report and
    /// leaves the directories still on the stack unread.
    pub fn proceed(self, cancelled: bool) -> (step: Step)
        ensures
            step@ == self@.proceed(cancelled),
            self@.consistent() ==> step@.follows(self@),
            step matches Step::Read(listing) ==> listing.watched() == self.watched(),
    {
        proof {
            if self@.consistent() {
                lemma_proceed_follows(self@, cancelled);
            }
        }
        let mut scanner = self;
        if cancelled {
            let snapshot = scanner.batcher.force_flush();
            Step::Finished {
                snapshot,
                outcome: ScanOutcome { completion: Completion::Cancelled, errors: scanner.errors },
            }
        } else {
            match scanner.stack.pop() {
                Some(directory) => {
                    scanner.origins = Ghost(scanner.origins@.drop_last());
                    assert(paths(scanner.stack@) =~= paths(self.stack@).drop_last());
                    Step::Read(Listing { scanner, directory })
                },
                None => {
                    let snapshot = scanner.batcher.force_flush();
                    Step::Finished {
                        snapshot,
                        outcome: ScanOutcome {
                            completion: Completion::Completed,
                            errors: scanner.errors,
                        },
                    }
                },
            }
        }
    }
}

impl Listing {
    /// The token that the scan of this listing looks at.
    pub closed spec fn watched(&self) -> CancellationToken {
        self.scanner.token
    }

    /// The directory to list.
    pub fn directory(&self) -> (path: &ScanPath)
        ensures
            path@ == self@.directory,
    {
        &self.directory
    }

    /// The number of entries visited so far in the whole scan.
    pub fn scanned(&self) -> (count: u64)
        ensures
            count == self@.scan.batch.scanned,
    {
        self.scanner.batcher.scanned()
    }

    /// Takes one entry of the directory, met at time `now`.
    ///
    /// The entry is kept for the next report if its path is over the limit,
    /// waits on the stack if it is a directory, leaves an error if its type
    /// is unknown, and is counted in any case. The result is the report that
    /// is due at `now`, if one is.
    pub fn visit(&mut self, path: ScanPath, kind: EntryType, now: u64) -> (report: Option<
        ProgressSnapshot,
    >)
        requires
            old(self)@.scan.batch.scanned < u64::MAX,
        ensures
            final(self)@.directory == old(self)@.directory,
            final(self).watched() == old(self).watched(),
            final(self)@.scan == old(self)@.scan.visit(path@, kind@, now as nat),
            old(self)@.scan.consistent() ==> final(self)@.scan.consistent(),
            match report {
                Some(snapshot) => old(self)@.scan.report(path@, kind@, now as nat) == Some(
                    snapshot@,
                ),
                None => old(self)@.scan.report(path@, kind@, now as nat) is None,
            },
    {
        proof {
            if old(self)@.scan.consistent() {
                lemma_visit_consistent(old(self)@.scan, path@, kind@, now as nat);
            }
        }
        let class = classify(&path, self.scanner.limit);
        if class.over_limit {
            self.scanner.batcher.record(OverLimit::new(path.text.clone(), class.length as u64));
        }
        match kind {
            EntryType::Directory => {
                self.scanner.origins = Ghost(
                    self.scanner.origins@.push(self.scanner.visited@.len() as int + 1),
                );
                self.scanner.stack.push(path);
                assert(paths(self.scanner.stack@) =~= paths(old(self).scanner.stack@).push(path@));
            },
            EntryType::Other => {},
            EntryType::Unknown(message) => {
                let error = ScanError::Metadata { path: path.text, message };
                self.scanner.errors.push(error);
                assert(failures(self.scanner.errors@) =~= failures(
                    old(self).scanner.errors@,
                ).push(error@));
            },
        }
        self.scanner.batcher.tick();
        self.scanner.visited = Ghost(self.scanner.visited@.push(path@));
        let ghost counted = self.scanner.batcher@;
        let report = self.scanner.batcher.maybe_flush(now);
        if report.is_some() {
            self.scanner.emitted = Ghost(self.scanner.emitted@.push(counted.snapshot()));
        }
        report
    }

    /// Ends the listing: every entry of the directory has been handed over.
    pub fn done(self) -> (scanner: Scanner)
        ensures
            scanner@ == self@.scan,
            scanner.watched() == self.watched(),
    {
        self.scanner
    }

    /// Ends the listing because the directory could not be read, which is
    /// recorded as an error.
    pub fn failed(self, message: String) -> (scanner: Scanner)
        ensures
            scanner@ == self@.scan.fail(self@.directory, message@),
            scanner.watched() == self.watched(),
            self@.scan.consistent() ==> scanner@.consistent(),
    {
        let mut scanner = self.scanner;
        let error = ScanError::DirectoryRead { path: self.directory.text, message };
        scanner.errors.push(error);
        assert(failures(scanner.errors@) =~= failures(self.scanner.errors@).push(error@));
        scanner
    }
}

} // verus!
