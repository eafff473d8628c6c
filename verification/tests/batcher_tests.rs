use pathscan::batcher::{ProgressBatcher, FLUSH_INTERVAL};
use pathscan::classify::OverLimit;

fn entry(path: &str) -> OverLimit {
    OverLimit::new(String::from(path), path.len() as u64)
}

#[test]
fn the_interval_is_a_hundred_milliseconds() {
    assert_eq!(FLUSH_INTERVAL, 100_000_000);
}

#[test]
fn a_new_batcher_is_empty() {
    let batcher = ProgressBatcher::new(5);
    assert_eq!(batcher.scanned(), 0);
    assert_eq!(batcher.pending_len(), 0);
}

#[test]
fn tick_counts_one_entry() {
    let mut batcher = ProgressBatcher::new(0);
    batcher.tick();
    batcher.tick();
    batcher.tick();
    assert_eq!(batcher.scanned(), 3);
    assert_eq!(batcher.pending_len(), 0);
}

#[test]
fn record_keeps_the_entry_and_does_not_count() {
    let mut batcher = ProgressBatcher::new(0);
    batcher.record(entry("/a"));
    batcher.record(entry("/b"));
    assert_eq!(batcher.pending_len(), 2);
    assert_eq!(batcher.scanned(), 0);
}

#[test]
fn nothing_goes_out_before_the_interval_has_passed() {
    let mut batcher = ProgressBatcher::new(1_000);
    batcher.record(entry("/a"));
    batcher.tick();
    assert!(batcher.maybe_flush(1_000).is_none());
    assert!(batcher.maybe_flush(1_000 + FLUSH_INTERVAL - 1).is_none());
    assert_eq!(batcher.pending_len(), 1);
    assert_eq!(batcher.scanned(), 1);
}

#[test]
fn nothing_goes_out_when_exactly_the_interval_has_passed() {
    let mut batcher = ProgressBatcher::new(1_000);
    batcher.record(entry("/a"));
    assert!(batcher.maybe_flush(1_000 + FLUSH_INTERVAL).is_none());
    assert_eq!(batcher.pending_len(), 1);
}

#[test]
fn a_report_goes_out_once_more_than_the_interval_has_passed() {
    let mut batcher = ProgressBatcher::new(1_000);
    batcher.record(entry("/a"));
    batcher.tick();
    batcher.record(entry("/b"));
    batcher.tick();
    batcher.tick();
    let report = batcher.maybe_flush(1_000 + FLUSH_INTERVAL + 1).unwrap();
    assert_eq!(report.scanned_count, 3);
    assert_eq!(report.new_entries.len(), 2);
    assert_eq!(report.new_entries[0].path, "/a");
    assert_eq!(report.new_entries[1].path, "/b");
    assert_eq!(batcher.pending_len(), 0);
    assert_eq!(batcher.scanned(), 3);
}

#[test]
fn the_interval_starts_again_with_each_report() {
    let mut batcher = ProgressBatcher::new(0);
    let first = FLUSH_INTERVAL + 1;
    assert!(batcher.maybe_flush(first).is_some());
    assert!(batcher.maybe_flush(first + FLUSH_INTERVAL).is_none());
    assert!(batcher.maybe_flush(first + FLUSH_INTERVAL + 1).is_some());
}

#[test]
fn a_throttled_report_may_be_empty() {
    let mut batcher = ProgressBatcher::new(0);
    batcher.tick();
    let report = batcher.maybe_flush(FLUSH_INTERVAL * 2).unwrap();
    assert_eq!(report.scanned_count, 1);
    assert!(report.new_entries.is_empty());
}

#[test]
fn a_clock_that_went_back_lets_nothing_out() {
    let mut batcher = ProgressBatcher::new(FLUSH_INTERVAL * 10);
    batcher.record(entry("/a"));
    assert!(batcher.maybe_flush(0).is_none());
    assert!(batcher.maybe_flush(FLUSH_INTERVAL * 10).is_none());
    assert_eq!(batcher.pending_len(), 1);
}

#[test]
fn the_largest_time_does_not_overflow() {
    let mut batcher = ProgressBatcher::new(0);
    assert!(batcher.maybe_flush(u64::MAX).is_some());
    assert!(batcher.maybe_flush(u64::MAX).is_none());
    let mut late = ProgressBatcher::new(u64::MAX);
    assert!(late.maybe_flush(u64::MAX).is_none());
}

#[test]
fn a_forced_report_goes_out_at_once() {
    let mut batcher = ProgressBatcher::new(0);
    batcher.record(entry("/a"));
    batcher.tick();
    let report = batcher.force_flush();
    assert_eq!(report.scanned_count, 1);
    assert_eq!(report.new_entries.len(), 1);
    assert_eq!(report.new_entries[0].path, "/a");
    assert_eq!(report.new_entries[0].size, 2);
    assert_eq!(batcher.pending_len(), 0);
}

#[test]
fn a_forced_report_goes_out_even_when_empty() {
    let mut batcher = ProgressBatcher::new(0);
    let report = batcher.force_flush();
    assert_eq!(report.scanned_count, 0);
    assert!(report.new_entries.is_empty());
}

#[test]
fn a_forced_report_does_not_restart_the_interval() {
    let mut batcher = ProgressBatcher::new(0);
    let _ = batcher.force_flush();
    assert!(batcher.maybe_flush(FLUSH_INTERVAL + 1).is_some());
}

#[test]
fn an_entry_goes_out_in_one_report_only() {
    let mut batcher = ProgressBatcher::new(0);
    batcher.record(entry("/a"));
    let first = batcher.maybe_flush(FLUSH_INTERVAL + 1).unwrap();
    batcher.record(entry("/b"));
    let second = batcher.force_flush();
    let third = batcher.force_flush();
    assert_eq!(first.new_entries.len(), 1);
    assert_eq!(first.new_entries[0].path, "/a");
    assert_eq!(second.new_entries.len(), 1);
    assert_eq!(second.new_entries[0].path, "/b");
    assert!(third.new_entries.is_empty());
}

#[test]
fn counts_never_go_down_from_report_to_report() {
    let mut batcher = ProgressBatcher::new(0);
    let mut last = 0;
    let mut now = 0;
    for round in 0..50u64 {
        for _ in 0..(round % 4) {
            batcher.tick();
        }
        now += FLUSH_INTERVAL / 2 + 1;
        if let Some(report) = batcher.maybe_flush(now) {
            assert!(report.scanned_count >= last);
            last = report.scanned_count;
        }
    }
    let report = batcher.force_flush();
    assert!(report.scanned_count >= last);
    assert_eq!(report.scanned_count, batcher.scanned());
}
