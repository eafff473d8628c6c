//! What holds of every scan and of every session.

use vstd::prelude::*;
use crate::batcher::Snapshot;
use crate::classify::{is_over_limit, measured, LongPath, PathView};
use crate::scanner::{delivered, non_decreasing, over_limit, Completion, Kind, Next, ScanState};
use crate::ui::{report_event, Effect, Event, Session};

verus! {

/// How often `a` occurs in `s`.
pub open spec fn occurrences<A>(s: Seq<A>, a: A) -> nat
    decreases s.len(),
{
    if s.len() == 0 {
        0
    } else {
        occurrences(s.drop_last(), a) + if s.last() == a {
            1nat
        } else {
            0nat
        }
    }
}

/// If the root and the entries that a scan has visited are all different
/// paths, the directories on its stack are all different too.
pub proof fn law_stack_holds_no_directory_twice(s: ScanState)
    requires
        s.consistent(),
        forall|i: int, j: int| 0 <= i < j < s.met().len() ==> s.met()[i] != s.met()[j],
    ensures
        forall|i: int, j: int| 0 <= i < j < s.stack.len() ==> s.stack[i] != s.stack[j],
{
    assert forall|i: int, j: int| 0 <= i < j < s.stack.len() implies s.stack[i] != s.stack[j] by {
        assert(s.origins[i] < s.origins[j]);
        assert(s.met()[s.origins[i]] == s.stack[i]);
        assert(s.met()[s.origins[j]] == s.stack[j]);
    }
}

/// While a directory is listed it is not on the stack, if the root and the
/// entries visited are all different paths.
pub proof fn law_listed_directory_is_off_the_stack(s: ScanState)
    requires
        s.consistent(),
        s.proceed(false) is Read,
        forall|i: int, j: int| 0 <= i < j < s.met().len() ==> s.met()[i] != s.met()[j],
    ensures
        ({
            let listing = s.proceed(false)->Read_0;
            forall|i: int| 0 <= i < listing.scan.stack.len() ==> listing.scan.stack[i]
                != listing.directory
        }),
{
    law_stack_holds_no_directory_twice(s);
}

/// The last report counts every visit: its count is the number of entries
/// that the scan visited, files and directories alike. And the counts of
/// the reports, the last one included, never go down.
pub proof fn law_counts(s: ScanState)
    requires
        s.consistent(),
    ensures
        s.last_report().scanned_count == s.visited.len(),
        non_decreasing(s.all_reports()),
{
}

/// The visits among `visited` to a path over `limit`, in order.
pub open spec fn long_visits(visited: Seq<PathView>, limit: nat) -> Seq<PathView>
    decreases visited.len(),
{
    if visited.len() == 0 {
        Seq::empty()
    } else if is_over_limit(visited.last(), limit) {
        long_visits(visited.drop_last(), limit).push(visited.last())
    } else {
        long_visits(visited.drop_last(), limit)
    }
}

/// What the reports of a scan delivered is one entry for each visit to a
/// path over the limit, in the order of the visits: the text of that path
/// with its length. So every entry delivered is longer than the limit.
pub proof fn law_reports_hold_the_long_paths(s: ScanState)
    requires
        s.consistent(),
    ensures
        delivered(s.all_reports()) == over_limit(s.visited, s.limit),
        delivered(s.all_reports()) == long_visits(s.visited, s.limit).map_values(
            |p: PathView| measured(p),
        ),
        forall|i: int|
            0 <= i < delivered(s.all_reports()).len() ==> (#[trigger] delivered(
                s.all_reports(),
            )[i]).size > s.limit,
{
    assert(s.all_reports().drop_last() =~= s.emitted);
    lemma_over_limit_members(s.visited, s.limit);
}

/// The entries of `over_limit` are those of the visits to a path over the
/// limit, one for one, and each is longer than the limit.
pub proof fn lemma_over_limit_members(visited: Seq<PathView>, limit: nat)
    ensures
        over_limit(visited, limit) == long_visits(visited, limit).map_values(
            |p: PathView| measured(p),
        ),
        forall|i: int|
            0 <= i < over_limit(visited, limit).len() ==> (#[trigger] over_limit(
                visited,
                limit,
            )[i]).size > limit,
    decreases visited.len(),
{
    if visited.len() > 0 {
        lemma_over_limit_members(visited.drop_last(), limit);
        let found = over_limit(visited, limit);
        let earlier = over_limit(visited.drop_last(), limit);
        assert forall|i: int| 0 <= i < found.len() implies (#[trigger] found[i]).size
            > limit by {
            if i < earlier.len() {
                assert(found[i] == earlier[i]);
            }
        }
        assert(found =~= long_visits(visited, limit).map_values(|p: PathView| measured(p)));
    } else {
        assert(over_limit(visited, limit) =~= long_visits(visited, limit).map_values(
            |p: PathView| measured(p),
        ));
    }
}

/// A path over the limit occurs among the visits to such paths as often as
/// it was visited, and a path within the limit does not occur there.
pub proof fn lemma_long_visits_occurrences(visited: Seq<PathView>, limit: nat, path: PathView)
    ensures
        occurrences(long_visits(visited, limit), path) == if is_over_limit(path, limit) {
            occurrences(visited, path)
        } else {
            0
        },
    decreases visited.len(),
{
    if visited.len() > 0 {
        lemma_long_visits_occurrences(visited.drop_last(), limit, path);
        if is_over_limit(visited.last(), limit) {
            let kept = long_visits(visited, limit);
            assert(kept.drop_last() =~= long_visits(visited.drop_last(), limit));
        }
    }
}

/// Over all the reports of a scan there is one entry for each visit to a
/// path over the limit, and a path over the limit is among those visits as
/// often as it was visited: once if it was visited once. A path within the
/// limit is never reported.
pub proof fn law_reported_exactly_once(s: ScanState, path: PathView)
    requires
        s.consistent(),
    ensures
        delivered(s.all_reports()) == long_visits(s.visited, s.limit).map_values(
            |p: PathView| measured(p),
        ),
        is_over_limit(path, s.limit) ==> occurrences(long_visits(s.visited, s.limit), path)
            == occurrences(s.visited, path),
        !is_over_limit(path, s.limit) ==> occurrences(long_visits(s.visited, s.limit), path) == 0
            && forall|i: int|
            0 <= i < delivered(s.all_reports()).len() ==> #[trigger] delivered(
                s.all_reports(),
            )[i] != measured(path),
{
    law_reports_hold_the_long_paths(s);
    lemma_long_visits_occurrences(s.visited, s.limit, path);
}

/// A directory whose own path is over the limit is listed like any other:
/// it goes on the stack when it is met and is the next directory asked for,
/// and a child of it within the limit is counted and not reported.
pub proof fn law_long_directory_is_listed(
    s: ScanState,
    directory: PathView,
    met: nat,
    child: PathView,
    kind: Kind,
    now: nat,
)
    requires
        is_over_limit(directory, s.limit),
        !is_over_limit(child, s.limit),
    ensures
        ({
            let parent = s.visit(directory, Kind::Directory, met);
            &&& parent.proceed(false) is Read
            &&& parent.proceed(false)->Read_0.directory == directory
            &&& ({
                let before = parent.proceed(false)->Read_0.scan;
                let after = before.visit(child, kind, now);
                &&& after.batch.scanned == before.batch.scanned + 1
                &&& after.visited == before.visited.push(child)
                &&& over_limit(after.visited, after.limit) == over_limit(
                    before.visited,
                    before.limit,
                )
            })
        }),
{
    let parent = s.visit(directory, Kind::Directory, met);
    let before = parent.proceed(false)->Read_0.scan;
    let after = before.visit(child, kind, now);
    assert(after.visited.drop_last() =~= before.visited);
}

/// Once a request to cancel is seen the scan ends: it asks for no further
/// directory, whatever is left on the stack, and its last report and its
/// outcome are those of the state it was in.
pub proof fn law_cancel_ends_the_scan(s: ScanState)
    ensures
        s.proceed(true) matches Next::Finished { snapshot, outcome } && snapshot
            == s.last_report() && outcome.completion == Completion::Cancelled && outcome.errors
            == s.errors,
{
}

/// A scan that is not cancelled ends only when its stack is empty, and then
/// as completed.
pub proof fn law_completion(s: ScanState)
    ensures
        s.proceed(false) is Finished <==> s.stack.len() == 0,
        s.proceed(false) matches Next::Finished { outcome, .. } ==> outcome.completion
            == Completion::Completed,
{
}

/// A progress report that is taken replaces the count and adds its entries
/// after those that the session holds; nothing else changes, and nothing is
/// asked for. On a session that has started no scan this holds under any
/// number.
pub proof fn law_report_replaces_count_and_appends(
    s: Session,
    scan: u64,
    now_scanned: u64,
    new_paths_over_limit: Seq<LongPath>,
)
    requires
        s.scan is None || s.scan == Some(scan),
    ensures
        ({
            let event = Event::ScanUpdate { scan, now_scanned, new_paths_over_limit };
            &&& s.after(event) == (Session {
                scanned: now_scanned,
                paths_over_limit: s.paths_over_limit + new_paths_over_limit,
                ..s
            })
            &&& s.effect(event) == Effect::Nothing
        }),
{
}

/// To abort when no scan runs changes nothing and asks for nothing. So
/// does a second abort after a first.
pub proof fn law_abort_is_idempotent(s: Session)
    ensures
        !s.scanning ==> s.after(Event::AbortScan) == s,
        s.after(Event::AbortScan).after(Event::AbortScan) == s.after(Event::AbortScan),
        s.effect(Event::AbortScan) == Effect::Nothing,
{
}

/// What a scan other than the latest still sends changes nothing and asks
/// for nothing. A message is of another scan only if the session has a
/// latest scan and the message carries another number.
pub proof fn law_stale_messages_are_dropped(s: Session, event: Event)
    requires
        match event {
            Event::ScanUpdate { scan, .. } => !s.current(scan),
            Event::Error(scan, _) => !s.current(scan),
            Event::ScanComplete(scan) => !s.current(scan),
            _ => false,
        },
    ensures
        s.after(event) == s,
        s.effect(event) == Effect::Nothing,
{
}

/// The session after it has taken `reports`, one after the other, under the
/// number `scan`.
pub open spec fn after_reports(s: Session, scan: u64, reports: Seq<Snapshot>) -> Session
    decreases reports.len(),
{
    if reports.len() == 0 {
        s
    } else {
        after_reports(s, scan, reports.drop_last()).after(report_event(scan, reports.last()))
    }
}

/// A session that takes reports under the number of its latest scan, or
/// under any number before its first scan, holds what they delivered, after
/// what it held before and in the same order, and shows the count of the
/// last one. Nothing else in it changes.
pub proof fn law_session_gathers_the_reports(s: Session, scan: u64, reports: Seq<Snapshot>)
    requires
        s.current(scan),
    ensures
        after_reports(s, scan, reports) == (Session {
            paths_over_limit: s.paths_over_limit + delivered(reports),
            scanned: if reports.len() > 0 {
                reports.last().scanned_count as u64
            } else {
                s.scanned
            },
            ..s
        }),
    decreases reports.len(),
{
    if reports.len() > 0 {
        law_session_gathers_the_reports(s, scan, reports.drop_last());
        assert((s.paths_over_limit + delivered(reports.drop_last())) + reports.last().new_entries
            =~= s.paths_over_limit + delivered(reports));
    } else {
        assert(s.paths_over_limit + delivered(reports) =~= s.paths_over_limit);
    }
}

/// A new scan gets a number that differs from that of the scan before, and
/// the session forgets what that scan had found.
pub proof fn law_new_scan_starts_afresh(s: Session)
    requires
        s.selected is Some,
    ensures
        ({
            let t = s.after(Event::StartScan);
            &&& t.scan is Some
            &&& t.scan != s.scan
            &&& t.paths_over_limit.len() == 0
            &&& t.errors.len() == 0
            &&& t.scanned == 0
            &&& t.scan_limit == s.limit
        }),
{
}

} // verus!
