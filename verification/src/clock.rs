//! The clock synchronizer: start the time-sync client, poll it until it has
//! completed a synchronization, then report the time.
//!
//! The client only answers status queries, so the synchronizer polls: while
//! the status is not `Completed` it suspends for a fixed interval and asks
//! again. Nothing bounds the number of polls. A time that cannot be formatted
//! is reported as unknown; it does not fail the run.

use vstd::prelude::*;
use crate::config::SyncConfig;
use crate::protocol::{describe, labelled, Action, LogLine, Reply, SyncStatus, UNKNOWN_TIME};

verus! {

/// The layout of a reported time: day, abbreviated month and year, then hour,
/// minute and second.
pub const TIMESTAMP_LAYOUT: &'static str =
    "[day]-[month repr:short]-[year] [hour]:[minute]:[second]";

/// Seconds for which the synchronizer suspends between two polls.
pub const POLL_INTERVAL_SECONDS: u64 = 1;

/// The umbrella error of `time`. It is only told apart from success.
#[verifier::external_type_specification]
#[verifier::external_body]
pub struct ExTimeError(time::Error);

/// What `time` makes of a moment, given in nanoseconds since the Unix epoch,
/// under a format description given as text: the formatted text, or nothing
/// where the description is not a valid one, the moment lies outside the
/// dates that `time` represents, or the formatting fails.
pub uninterp spec fn formatted(layout: Seq<char>, unix_nanoseconds: int) -> Option<Seq<char>>;

/// `time::format_description::parse_borrowed`,
/// `UtcDateTime::from_unix_timestamp_nanos` and `UtcDateTime::format`, in a
/// row: the description is parsed (in its first version, the one that the
/// literal form of a description defaults to), the moment is built, and the
/// one is applied to the other. Each of the three reports its failure as a
/// value, and none of them reads anything but its arguments, so the outcome
/// is the one that `formatted` names.
#[verifier::external_body]
fn render(layout: &str, unix_nanoseconds: i128) -> (r: Result<String, time::Error>)
    ensures
        r matches Ok(text) ==> formatted(layout@, unix_nanoseconds as int) == Some(text@),
        r is Err ==> formatted(layout@, unix_nanoseconds as int) is None,
{
    let items = time::format_description::parse_borrowed::<1>(layout)?;
    let moment = time::UtcDateTime::from_unix_timestamp_nanos(unix_nanoseconds)?;
    Ok(moment.format(&items)?)
}

/// `std::time::SystemTime::now`, measured from the Unix epoch by
/// `time::ext::SystemTimeExt::signed_duration_since` and given in nanoseconds
/// by `SignedDuration::whole_nanoseconds`. Nothing is claimed of the value:
/// it is whatever the system clock shows. None of the three calls panics: a
/// clock that stands before the epoch gives a negative value, and one that
/// stands further from it than `time` can measure gives the furthest value
/// that it can.
#[verifier::external_body]
fn wall_clock_nanoseconds() -> i128 {
    time::ext::SystemTimeExt::signed_duration_since(
        &std::time::SystemTime::now(),
        std::time::SystemTime::UNIX_EPOCH,
    ).whole_nanoseconds()
}

/// The time could not be formatted. Not fatal: the time is then reported as
/// unknown.
#[derive(Clone, Copy, Debug, PartialEq, Eq, Structural)]
pub struct FormatError {}

impl FormatError {
    /// What the error says, as text.
    pub open spec fn message_text(self) -> Seq<char> {
        "time couldn't be formatted"@
    }

    /// What the error says.
    pub fn message(&self) -> (r: &'static str)
        ensures
            r@ == self.message_text(),
    {
        "time couldn't be formatted"
    }
}

/// One reading of the wall clock, in nanoseconds since the Unix epoch. Any
/// value is a reading; one that lies outside the dates that can be written
/// has no formatted text.
#[derive(Clone, Copy, Debug, PartialEq, Eq, Structural)]
pub struct Timestamp {
    pub unix_nanoseconds: i128,
}

impl Timestamp {
    /// Reads the wall clock. The result is whatever the clock shows, also
    /// where that is a moment that cannot be formatted.
    pub fn now() -> Timestamp {
        Timestamp { unix_nanoseconds: wall_clock_nanoseconds() }
    }

    /// The reading in the fixed layout, where it can be formatted.
    pub open spec fn formatted_text(self) -> Option<Seq<char>> {
        formatted(TIMESTAMP_LAYOUT@, self.unix_nanoseconds as int)
    }

    /// Formats the reading in the fixed layout. The result is the text that
    /// `time` gives for this moment, or the error exactly where it gives
    /// none.
    pub fn format(&self) -> (r: Result<String, FormatError>)
        ensures
            match r {
                Ok(text) => self.formatted_text() == Some(text@),
                Err(_) => self.formatted_text() is None,
            },
    {
        match render(TIMESTAMP_LAYOUT, self.unix_nanoseconds) {
            Ok(text) => Ok(text),
            Err(_) => Err(FormatError {}),
        }
    }
}

/// Reads the wall clock and formats the reading in the fixed layout. Whatever
/// the clock showed, the result is the formatted text of some reading, or the
/// error for a reading that has none.
pub fn format_time() -> (r: Result<String, FormatError>)
    ensures
        exists|at: Timestamp|
            match r {
                Ok(text) => #[trigger] at.formatted_text() == Some(text@),
                Err(_) => at.formatted_text() is None,
            },
{
    let at = Timestamp::now();
    at.format()
}

/// The reply that stands for an attempt to format the time.
pub open spec fn snapshot_reply_of(outcome: Result<String, FormatError>) -> Reply {
    match outcome {
        Ok(text) => Reply::Timestamp(Some(text)),
        Err(_) => Reply::Timestamp(None),
    }
}

/// Turns an attempt to format the time into the reply that the synchronizer
/// takes: the text where there is one, and otherwise a reply without one.
pub fn snapshot_reply(outcome: Result<String, FormatError>) -> (r: Reply)
    ensures
        r == snapshot_reply_of(outcome),
{
    match outcome {
        Ok(text) => Reply::Timestamp(Some(text)),
        Err(_) => Reply::Timestamp(None),
    }
}

/// Performs the action `TakeSnapshot`: reads the wall clock, formats the
/// reading, and gives the reply for the outcome. Whatever the clock showed,
/// the reply carries the formatted text of some reading, or no text for a
/// reading that has none.
pub fn take_snapshot() -> (r: Reply)
    ensures
        exists|at: Timestamp|
            match r {
                Reply::Timestamp(Some(text)) => #[trigger] at.formatted_text() == Some(text@),
                Reply::Timestamp(None) => at.formatted_text() is None,
                _ => false,
            },
{
    snapshot_reply(format_time())
}

/// The time-sync client could not be started. Fatal for the run.
#[derive(Clone, Debug, PartialEq, Eq)]
pub struct SyncError {
    /// The client's own account, where it gave one.
    pub cause: Option<String>,
}

impl SyncError {
    /// What the error says, as text.
    pub open spec fn message_text(self) -> Seq<char> {
        labelled("couldn't update time"@, self.cause)
    }

    /// A message that begins with the label of the phase.
    pub fn message(&self) -> (r: String)
        ensures
            r@ == self.message_text(),
    {
        describe("couldn't update time", &self.cause)
    }
}

/// A synchronizer at work, by what it waits for.
#[derive(Clone, Debug, PartialEq, Eq)]
pub enum Synchronizer {
    /// The start of the time-sync client.
    Starting,
    /// The client's status.
    Polling,
    /// The end of a suspension between two polls.
    Sleeping,
    /// The formatted reading of the wall clock.
    Snapshotting,
    /// The writing of the line that reports the time.
    Reporting(LogLine),
}

/// A synchronizer after a reply: still at work, done, or failed.
#[derive(Clone, Debug, PartialEq, Eq)]
pub enum ClockSync {
    Syncing(Synchronizer),
    Synced,
    Failed(SyncError),
}

impl Synchronizer {
    /// The action that is pending.
    pub open spec fn pending<'a>(&'a self) -> Action<'a> {
        match self {
            Synchronizer::Starting => Action::StartSync(SyncConfig::fixed_spec()),
            Synchronizer::Polling => Action::PollSync,
            Synchronizer::Sleeping => Action::Sleep(POLL_INTERVAL_SECONDS),
            Synchronizer::Snapshotting => Action::TakeSnapshot,
            Synchronizer::Reporting(line) => Action::Log(line),
        }
    }

    /// The action to perform now.
    pub fn action<'a>(&'a self) -> (r: Action<'a>)
        ensures
            r == self.pending(),
    {
        match self {
            Synchronizer::Starting => Action::StartSync(SyncConfig::fixed()),
            Synchronizer::Polling => Action::PollSync,
            Synchronizer::Sleeping => Action::Sleep(POLL_INTERVAL_SECONDS),
            Synchronizer::Snapshotting => Action::TakeSnapshot,
            Synchronizer::Reporting(line) => Action::Log(line),
        }
    }

    /// The synchronizer after the reply to its pending action.
    ///
    /// The start of the client, answered `Done`, gives way to the first poll;
    /// answered otherwise it has failed. A poll leaves the loop only on the
    /// status `Completed`; on any other reply a suspension follows, and after
    /// it the next poll. The formatted time goes into the report; where the
    /// reply carries none the report gives the time as unknown. The writing
    /// of the report ends the work.
    pub open spec fn next(self, reply: Reply) -> ClockSync {
        match self {
            Synchronizer::Starting => match reply {
                Reply::Done => ClockSync::Syncing(Synchronizer::Polling),
                Reply::Failed(cause) => ClockSync::Failed(SyncError { cause: Some(cause) }),
                _ => ClockSync::Failed(SyncError { cause: None }),
            },
            Synchronizer::Polling => match reply {
                Reply::Status(SyncStatus::Completed) => ClockSync::Syncing(
                    Synchronizer::Snapshotting,
                ),
                _ => ClockSync::Syncing(Synchronizer::Sleeping),
            },
            Synchronizer::Sleeping => ClockSync::Syncing(Synchronizer::Polling),
            Synchronizer::Snapshotting => match reply {
                Reply::Timestamp(time) => ClockSync::Syncing(
                    Synchronizer::Reporting(LogLine::SyncCompleted(time)),
                ),
                _ => ClockSync::Syncing(Synchronizer::Reporting(LogLine::SyncCompleted(None))),
            },
            Synchronizer::Reporting(_) => ClockSync::Synced,
        }
    }

    /// Takes the reply to the pending action and moves on.
    pub fn step(self, reply: Reply) -> (r: ClockSync)
        ensures
            r == self.next(reply),
    {
        match self {
            Synchronizer::Starting => match reply {
                Reply::Done => ClockSync::Syncing(Synchronizer::Polling),
                Reply::Failed(cause) => ClockSync::Failed(SyncError { cause: Some(cause) }),
                _ => ClockSync::Failed(SyncError { cause: None }),
            },
            Synchronizer::Polling => match reply {
                Reply::Status(SyncStatus::Completed) => ClockSync::Syncing(
                    Synchronizer::Snapshotting,
                ),
                _ => ClockSync::Syncing(Synchronizer::Sleeping),
            },
            Synchronizer::Sleeping => ClockSync::Syncing(Synchronizer::Polling),
            Synchronizer::Snapshotting => match reply {
                Reply::Timestamp(time) => ClockSync::Syncing(
                    Synchronizer::Reporting(LogLine::SyncCompleted(time)),
                ),
                _ => ClockSync::Syncing(Synchronizer::Reporting(LogLine::SyncCompleted(None))),
            },
            Synchronizer::Reporting(_) => ClockSync::Synced,
        }
    }
}

impl ClockSync {
    /// The synchronizer that has done nothing yet.
    pub open spec fn fresh() -> ClockSync {
        ClockSync::Syncing(Synchronizer::Starting)
    }

    /// Whether a suspension is pending.
    pub open spec fn sleeps(self) -> bool {
        self == ClockSync::Syncing(Synchronizer::Sleeping)
    }

    /// Whether the synchronizer has still to observe the status `Completed`:
    /// it has not started the client, or is in its polling loop.
    pub open spec fn awaits_completion(self) -> bool {
        ||| self == ClockSync::Syncing(Synchronizer::Starting)
        ||| self == ClockSync::Syncing(Synchronizer::Polling)
        ||| self == ClockSync::Syncing(Synchronizer::Sleeping)
    }

    /// The synchronizer after one more reply. Once done or failed it stays
    /// so.
    pub open spec fn next(self, reply: Reply) -> ClockSync {
        match self {
            ClockSync::Syncing(synchronizer) => synchronizer.next(reply),
            _ => self,
        }
    }

    /// The synchronizer after a whole script of replies, taken in order.
    pub open spec fn run(self, replies: Seq<Reply>) -> ClockSync
        decreases replies.len(),
    {
        if replies.len() == 0 {
            self
        } else {
            self.next(replies.first()).run(replies.drop_first())
        }
    }

    /// The number of suspensions that are made while the script is taken: the
    /// replies that answer a `Sleep`.
    pub open spec fn sleep_count(self, replies: Seq<Reply>) -> nat
        decreases replies.len(),
    {
        if replies.len() == 0 {
            0
        } else {
            let answered: nat = if self.sleeps() {
                1
            } else {
                0
            };
            answered + self.next(replies.first()).sleep_count(replies.drop_first())
        }
    }

    /// Takes one more reply. Once done or failed the synchronizer stays so.
    pub fn step(self, reply: Reply) -> (r: ClockSync)
        ensures
            r == self.next(reply),
    {
        match self {
            ClockSync::Syncing(synchronizer) => synchronizer.step(reply),
            ClockSync::Synced => ClockSync::Synced,
            ClockSync::Failed(error) => ClockSync::Failed(error),
        }
    }
}

/// What a time-sync client answers that is polled `polls` times before it has
/// completed: each time it reports `status`, a suspension follows, which is
/// answered `Done`; then it reports `Completed`.
pub open spec fn completes_after(polls: nat, status: SyncStatus) -> Seq<Reply>
    decreases polls,
{
    if polls == 0 {
        seq![Reply::Status(SyncStatus::Completed)]
    } else {
        seq![Reply::Status(status), Reply::Done] + completes_after((polls - 1) as nat, status)
    }
}

/// A synchronizer in its polling loop that meets a client which completes
/// after `polls` polls suspends exactly `polls` times, and then goes on to
/// read the clock.
pub proof fn lemma_sleeps_once_per_pending_poll(polls: nat, status: SyncStatus)
    requires
        status != SyncStatus::Completed,
    ensures
        ClockSync::Syncing(Synchronizer::Polling).run(completes_after(polls, status))
            == ClockSync::Syncing(Synchronizer::Snapshotting),
        ClockSync::Syncing(Synchronizer::Polling).sleep_count(completes_after(polls, status))
            == polls,
    decreases polls,
{
    let polling = ClockSync::Syncing(Synchronizer::Polling);
    let script = completes_after(polls, status);
    if polls == 0 {
        let snapshotting = ClockSync::Syncing(Synchronizer::Snapshotting);
        assert(script.drop_first().len() == 0);
        assert(polling.next(script.first()) == snapshotting);
        assert(snapshotting.run(script.drop_first()) == snapshotting);
        assert(snapshotting.sleep_count(script.drop_first()) == 0);
    } else {
        let sleeping = ClockSync::Syncing(Synchronizer::Sleeping);
        let rest = completes_after((polls - 1) as nat, status);
        lemma_sleeps_once_per_pending_poll((polls - 1) as nat, status);
        assert(script.drop_first().drop_first() =~= rest);
        assert(script.drop_first().first() == Reply::Done);
        assert(polling.next(script.first()) == sleeping);
        assert(sleeping.next(script.drop_first().first()) == polling);
        assert(sleeping.run(script.drop_first()) == polling.run(rest));
        assert(sleeping.sleep_count(script.drop_first()) == 1 + polling.sleep_count(rest));
    }
}

/// The same from the outset: the client starts, is polled `polls` times
/// before it has completed, and the synchronizer has then suspended exactly
/// `polls` times.
pub proof fn lemma_fresh_sync_sleeps_once_per_pending_poll(polls: nat, status: SyncStatus)
    requires
        status != SyncStatus::Completed,
    ensures
        ClockSync::fresh().run(seq![Reply::Done] + completes_after(polls, status))
            == ClockSync::Syncing(Synchronizer::Snapshotting),
        ClockSync::fresh().sleep_count(seq![Reply::Done] + completes_after(polls, status))
            == polls,
{
    let script = seq![Reply::Done] + completes_after(polls, status);
    lemma_sleeps_once_per_pending_poll(polls, status);
    assert(script.drop_first() =~= completes_after(polls, status));
    assert(ClockSync::fresh().next(script.first()) == ClockSync::Syncing(Synchronizer::Polling));
}

/// The synchronizer does not return before it has observed `Completed`:
/// while no reply is the status `Completed` it neither finishes nor goes on
/// to read the clock. It is still at the start or in its polling loop, or the
/// client could not be started.
pub proof fn lemma_no_return_before_completed(sync: ClockSync, replies: Seq<Reply>)
    requires
        sync.awaits_completion(),
        forall|i: int|
            0 <= i < replies.len() ==> replies[i] != Reply::Status(SyncStatus::Completed),
    ensures
        sync.run(replies).awaits_completion() || sync.run(replies) is Failed,
    decreases replies.len(),
{
    if replies.len() > 0 {
        let then = sync.next(replies.first());
        let rest = replies.drop_first();
        assert(replies[0] != Reply::Status(SyncStatus::Completed));
        assert(forall|i: int| 0 <= i < rest.len() ==> rest[i] == replies[i + 1]);
        if then is Failed {
            lemma_settled_sync_is_final(then, rest);
        } else {
            lemma_no_return_before_completed(then, rest);
        }
    }
}

/// A synchronizer that is done or has failed stays as it is and makes no
/// suspension, whatever follows.
pub proof fn lemma_settled_sync_is_final(sync: ClockSync, replies: Seq<Reply>)
    requires
        !(sync is Syncing),
    ensures
        sync.run(replies) == sync,
        sync.sleep_count(replies) == 0,
    decreases replies.len(),
{
    if replies.len() > 0 {
        lemma_settled_sync_is_final(sync, replies.drop_first());
    }
}

/// A time that cannot be formatted does not fail the synchronizer: whatever
/// is answered to the reading of the clock, a report is written, and the
/// synchronizer is done once it is. Where the answer carries no formatted
/// time the report gives the time as unknown.
pub proof fn lemma_format_failure_is_not_fatal(answer: Reply, written: Reply)
    ensures
        ClockSync::Syncing(Synchronizer::Snapshotting).next(answer).next(written)
            == ClockSync::Synced,
        !(answer matches Reply::Timestamp(Some(_))) ==> ClockSync::Syncing(
            Synchronizer::Snapshotting,
        ).next(answer) == ClockSync::Syncing(
            Synchronizer::Reporting(LogLine::SyncCompleted(None)),
        ),
        LogLine::SyncCompleted(None).text_view() == "ntp syncing completed, current time: "@
            + UNKNOWN_TIME@,
{
}

} // verus!
