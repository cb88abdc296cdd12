use startup_sequencer::clock::{
    format_time, snapshot_reply, take_snapshot, ClockSync, FormatError, SyncError, Synchronizer,
    Timestamp, POLL_INTERVAL_SECONDS, TIMESTAMP_LAYOUT,
};
use startup_sequencer::config::{OperatingMode, SyncMode};
use startup_sequencer::protocol::{Action, LogLine, Reply, SyncStatus, UNKNOWN_TIME};

/// A time-sync client that reports `pending` for a number of polls and then
/// `Completed`, and a clock that may fail to format.
struct SyncDouble {
    pending_polls: usize,
    pending: SyncStatus,
    formatted: Option<String>,
    starts: usize,
    polls: usize,
    sleeps: Vec<u64>,
    snapshots: usize,
    log: Vec<String>,
}

fn sync_double(pending_polls: usize, formatted: Option<&str>) -> SyncDouble {
    SyncDouble {
        pending_polls,
        pending: SyncStatus::InProgress,
        formatted: formatted.map(|text| text.to_string()),
        starts: 0,
        polls: 0,
        sleeps: Vec::new(),
        snapshots: 0,
        log: Vec::new(),
    }
}

fn synchronize(double: &mut SyncDouble) -> ClockSync {
    let mut sync = ClockSync::Syncing(Synchronizer::Starting);
    for _ in 0..10_000 {
        let reply = match &sync {
            ClockSync::Syncing(synchronizer) => match synchronizer.action() {
                Action::StartSync(config) => {
                    assert_eq!(config.server, "pool.ntp.org");
                    assert_eq!(config.operating_mode, OperatingMode::Poll);
                    assert_eq!(config.sync_mode, SyncMode::Immediate);
                    double.starts += 1;
                    Reply::Done
                }
                Action::PollSync => {
                    double.polls += 1;
                    if double.polls > double.pending_polls {
                        Reply::Status(SyncStatus::Completed)
                    } else {
                        Reply::Status(double.pending)
                    }
                }
                Action::Sleep(seconds) => {
                    double.sleeps.push(seconds);
                    Reply::Done
                }
                Action::TakeSnapshot => {
                    double.snapshots += 1;
                    Reply::Timestamp(double.formatted.clone())
                }
                Action::Log(line) => {
                    double.log.push(line.text());
                    Reply::Done
                }
                other => panic!("not an action of the synchronizer: {:?}", other),
            },
            _ => return sync,
        };
        sync = sync.step(reply);
    }
    panic!("the synchronizer did not settle");
}

#[test]
fn layout_and_interval_are_fixed() {
    assert_eq!(TIMESTAMP_LAYOUT, "[day]-[month repr:short]-[year] [hour]:[minute]:[second]");
    assert_eq!(POLL_INTERVAL_SECONDS, 1);
    assert_eq!(UNKNOWN_TIME, "unknown");
}

const NANOSECONDS: i128 = 1_000_000_000;

#[test]
fn epoch_is_formatted_in_the_fixed_layout() {
    assert_eq!(
        Timestamp { unix_nanoseconds: 0 }.format(),
        Ok("01-Jan-1970 00:00:00".to_string())
    );
}

#[test]
fn a_later_moment_is_formatted_in_the_fixed_layout() {
    assert_eq!(
        Timestamp { unix_nanoseconds: 1_700_000_000 * NANOSECONDS }.format(),
        Ok("14-Nov-2023 22:13:20".to_string())
    );
    assert_eq!(
        Timestamp { unix_nanoseconds: 951_782_399 * NANOSECONDS }.format(),
        Ok("28-Feb-2000 23:59:59".to_string())
    );
    assert_eq!(
        Timestamp { unix_nanoseconds: 951_782_400 * NANOSECONDS }.format(),
        Ok("29-Feb-2000 00:00:00".to_string())
    );
}

#[test]
fn the_fraction_of_a_second_is_not_shown() {
    assert_eq!(
        Timestamp { unix_nanoseconds: 1_700_000_000 * NANOSECONDS + 999_999_999 }.format(),
        Ok("14-Nov-2023 22:13:20".to_string())
    );
}

#[test]
fn a_moment_before_the_epoch_is_formatted() {
    assert_eq!(
        Timestamp { unix_nanoseconds: -NANOSECONDS }.format(),
        Ok("31-Dec-1969 23:59:59".to_string())
    );
    // One nanosecond before the epoch still lies in the second before it.
    assert_eq!(
        Timestamp { unix_nanoseconds: -1 }.format(),
        Ok("31-Dec-1969 23:59:59".to_string())
    );
}

#[test]
fn the_last_representable_moment_is_formatted_and_the_next_is_not() {
    assert_eq!(
        Timestamp { unix_nanoseconds: 253_402_300_799 * NANOSECONDS + 999_999_999 }.format(),
        Ok("31-Dec-9999 23:59:59".to_string())
    );
    assert_eq!(
        Timestamp { unix_nanoseconds: 253_402_300_800 * NANOSECONDS }.format(),
        Err(FormatError {})
    );
}

#[test]
fn a_moment_out_of_range_gives_the_format_error() {
    assert_eq!(Timestamp { unix_nanoseconds: i128::MAX }.format(), Err(FormatError {}));
    assert_eq!(Timestamp { unix_nanoseconds: i128::MIN }.format(), Err(FormatError {}));
    // The furthest readings that a clock can give lie out of range too.
    let furthest = i64::MAX as i128 * NANOSECONDS + 999_999_999;
    assert_eq!(Timestamp { unix_nanoseconds: furthest }.format(), Err(FormatError {}));
    assert_eq!(Timestamp { unix_nanoseconds: -furthest }.format(), Err(FormatError {}));
}

#[test]
fn format_error_message() {
    assert_eq!(FormatError {}.message(), "time couldn't be formatted");
}

#[test]
fn the_wall_clock_is_read_and_formatted() {
    let before = Timestamp::now();
    let text = format_time().unwrap();
    let after = Timestamp::now();
    assert!(before.unix_nanoseconds <= after.unix_nanoseconds);
    // The reading is a moment of this century.
    assert!(before.unix_nanoseconds > 946_684_800 * NANOSECONDS);
    assert!(after.unix_nanoseconds < 4_102_444_800 * NANOSECONDS);
    assert_eq!(text.len(), 20);
    let bytes = text.as_bytes();
    assert_eq!(bytes[2], b'-');
    assert_eq!(bytes[6], b'-');
    assert_eq!(bytes[11], b' ');
    assert_eq!(bytes[14], b':');
    assert_eq!(bytes[17], b':');
    // The text is that of a reading between the two taken around it.
    let mut found = false;
    let mut at = before.unix_nanoseconds;
    while at <= after.unix_nanoseconds + NANOSECONDS {
        if (Timestamp { unix_nanoseconds: at }).format() == Ok(text.clone()) {
            found = true;
        }
        at += NANOSECONDS;
    }
    assert!(found);
}

#[test]
fn snapshot_reply_carries_the_text_or_nothing() {
    assert_eq!(
        snapshot_reply(Ok("01-Jan-1970 00:00:00".to_string())),
        Reply::Timestamp(Some("01-Jan-1970 00:00:00".to_string()))
    );
    assert_eq!(snapshot_reply(Err(FormatError {})), Reply::Timestamp(None));
}

#[test]
fn take_snapshot_answers_with_a_timestamp() {
    match take_snapshot() {
        Reply::Timestamp(Some(text)) => assert_eq!(text.len(), 20),
        other => panic!("unexpected reply {:?}", other),
    }
}

#[test]
fn no_sleep_when_the_first_poll_is_completed() {
    let mut double = sync_double(0, Some("01-Jan-2024 00:00:00"));
    assert_eq!(synchronize(&mut double), ClockSync::Synced);
    assert_eq!(double.starts, 1);
    assert_eq!(double.polls, 1);
    assert!(double.sleeps.is_empty());
    assert_eq!(double.snapshots, 1);
}

#[test]
fn three_pending_polls_make_three_sleeps() {
    let mut double = sync_double(3, Some("01-Jan-2024 00:00:00"));
    assert_eq!(synchronize(&mut double), ClockSync::Synced);
    assert_eq!(double.starts, 1);
    assert_eq!(double.polls, 4);
    assert_eq!(double.sleeps, vec![1, 1, 1]);
    assert_eq!(double.snapshots, 1);
    assert_eq!(
        double.log,
        vec!["ntp syncing completed, current time: 01-Jan-2024 00:00:00".to_string()]
    );
}

#[test]
fn many_pending_polls_make_as_many_sleeps() {
    let mut double = sync_double(250, Some("01-Jan-2024 00:00:00"));
    assert_eq!(synchronize(&mut double), ClockSync::Synced);
    assert_eq!(double.polls, 251);
    assert_eq!(double.sleeps.len(), 250);
    assert!(double.sleeps.iter().all(|seconds| *seconds == 1));
}

#[test]
fn reset_status_keeps_the_synchronizer_polling() {
    let mut double = sync_double(2, Some("01-Jan-2024 00:00:00"));
    double.pending = SyncStatus::Reset;
    assert_eq!(synchronize(&mut double), ClockSync::Synced);
    assert_eq!(double.sleeps.len(), 2);
}

#[test]
fn the_synchronizer_does_not_leave_the_loop_without_completed() {
    let mut sync = ClockSync::Syncing(Synchronizer::Starting).step(Reply::Done);
    for round in 0..100 {
        assert_eq!(sync, ClockSync::Syncing(Synchronizer::Polling));
        let status = if round % 2 == 0 { SyncStatus::InProgress } else { SyncStatus::Reset };
        sync = sync.step(Reply::Status(status));
        assert_eq!(sync, ClockSync::Syncing(Synchronizer::Sleeping));
        sync = sync.step(Reply::Done);
    }
    assert_eq!(sync, ClockSync::Syncing(Synchronizer::Polling));
    sync = sync.step(Reply::Status(SyncStatus::Completed));
    assert_eq!(sync, ClockSync::Syncing(Synchronizer::Snapshotting));
}

#[test]
fn a_reply_without_a_status_counts_as_not_completed() {
    let sync = ClockSync::Syncing(Synchronizer::Polling).step(Reply::Done);
    assert_eq!(sync, ClockSync::Syncing(Synchronizer::Sleeping));
}

#[test]
fn formatting_failure_degrades_to_the_placeholder() {
    let mut double = sync_double(1, None);
    assert_eq!(synchronize(&mut double), ClockSync::Synced);
    assert_eq!(double.snapshots, 1);
    assert_eq!(double.log, vec!["ntp syncing completed, current time: unknown".to_string()]);
}

#[test]
fn a_reply_that_is_no_timestamp_degrades_to_the_placeholder() {
    let sync = ClockSync::Syncing(Synchronizer::Snapshotting)
        .step(Reply::Failed("clock broke".to_string()));
    assert_eq!(
        sync,
        ClockSync::Syncing(Synchronizer::Reporting(LogLine::SyncCompleted(None)))
    );
    assert_eq!(sync.step(Reply::Done), ClockSync::Synced);
}

#[test]
fn a_client_that_cannot_be_started_fails_the_synchronizer() {
    let sync = ClockSync::Syncing(Synchronizer::Starting)
        .step(Reply::Failed("already taken".to_string()));
    assert_eq!(sync, ClockSync::Failed(SyncError { cause: Some("already taken".to_string()) }));
    let odd = ClockSync::Syncing(Synchronizer::Starting).step(Reply::Body("?".to_string()));
    assert_eq!(odd, ClockSync::Failed(SyncError { cause: None }));
}

#[test]
fn sync_error_messages() {
    assert_eq!(
        SyncError { cause: Some("already taken".to_string()) }.message(),
        "couldn't update time: already taken"
    );
    assert_eq!(SyncError { cause: None }.message(), "couldn't update time");
}

#[test]
fn a_settled_synchronizer_stays_as_it_is() {
    assert_eq!(ClockSync::Synced.step(Reply::Status(SyncStatus::Reset)), ClockSync::Synced);
    let failed = ClockSync::Failed(SyncError { cause: None });
    assert_eq!(failed.clone().step(Reply::Done), failed);
}
