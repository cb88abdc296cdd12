//! The sequencer: connectivity, then the clock, then the fetch, strictly in
//! this order, on one task.
//!
//! A phase begins only when the one before it has reported success. A failure
//! in any phase ends the run: the sequencer then names the error and nothing
//! else. Nothing is retried, rolled back or cancelled.

use vstd::prelude::*;
use crate::clock::{completes_after, ClockSync, SyncError, Synchronizer};
use crate::connectivity::{
    Connectivity, ConnectivityError, ConnectivityState, Establisher, RadioStep,
};
use crate::credentials::{credentials_verdict, ConfigError};
use crate::fetch::{Fetch, FetchError, Fetcher};
use crate::protocol::{Action, LogLine, Reply, SyncStatus};

verus! {

/// Where the run stands.
#[derive(Clone, Copy, Debug, PartialEq, Eq, Structural)]
pub enum Phase {
    /// The interface is being brought up.
    Init,
    /// The interface is up; the clock is being synchronized.
    WifiUp,
    /// The clock is synchronized; the resource is being fetched.
    TimeSynced,
    /// The resource is fetched and reported; completion is being logged.
    Fetched,
    /// The run is through.
    Done,
    /// The run has failed.
    Failed,
}

impl Phase {
    /// The phase that follows on success, if any.
    pub open spec fn following(self) -> Option<Phase> {
        match self {
            Phase::Init => Some(Phase::WifiUp),
            Phase::WifiUp => Some(Phase::TimeSynced),
            Phase::TimeSynced => Some(Phase::Fetched),
            Phase::Fetched => Some(Phase::Done),
            Phase::Done => None,
            Phase::Failed => None,
        }
    }
}

/// Why the run failed.
#[derive(Clone, Debug, PartialEq, Eq)]
pub enum RunError {
    /// A credential does not fit its buffer.
    Config(ConfigError),
    /// A radio operation failed.
    Connectivity(ConnectivityError),
    /// The time-sync client could not be started.
    Sync(SyncError),
    /// The resource could not be fetched.
    Fetch(FetchError),
}

impl RunError {
    /// What the error says, as text: the message of the error that it holds.
    pub open spec fn message_text(self) -> Seq<char> {
        match self {
            RunError::Config(error) => error.message_text(),
            RunError::Connectivity(error) => error.message_text(),
            RunError::Sync(error) => error.message_text(),
            RunError::Fetch(error) => error.message_text(),
        }
    }

    /// The diagnostic message for the failed run. It names the step that
    /// failed and says nothing of the phases that succeeded before it.
    pub fn message(&self) -> (r: String)
        ensures
            r@ == self.message_text(),
    {
        match self {
            RunError::Config(error) => error.message().to_owned(),
            RunError::Connectivity(error) => error.message(),
            RunError::Sync(error) => error.message(),
            RunError::Fetch(error) => error.message(),
        }
    }
}

/// What the program is to do now.
#[derive(Clone, Copy, Debug, PartialEq, Eq)]
pub enum Directive<'a> {
    /// Perform the action and hand back the reply.
    Perform(Action<'a>),
    /// Leave with success.
    Succeed,
    /// Report the error and leave with failure.
    Fail(&'a RunError),
}

/// A run, by its phase, with the component that is at work in it.
#[derive(Debug, PartialEq, Eq)]
pub enum Sequencer {
    Init(Establisher),
    WifiUp(Synchronizer),
    TimeSynced(Fetcher),
    Fetched,
    Done,
    Failed(RunError),
}

impl Sequencer {
    /// Whether this is the run that `new` owes for the two texts: failed
    /// with the configuration error where a credential does not fit, and
    /// otherwise about to apply the station configuration of exactly these
    /// credentials.
    pub open spec fn started_with(self, ssid: Seq<char>, passphrase: Seq<char>) -> bool {
        match credentials_verdict(ssid, passphrase) {
            Some(field) => self == Sequencer::Failed(RunError::Config(ConfigError { field })),
            None => self matches Sequencer::Init(establisher) && establisher.begun_with(
                ssid,
                passphrase,
            ),
        }
    }

    /// Begins a run with the given credentials. Credentials that do not fit
    /// fail the run at once, before anything is asked of the radio.
    pub fn new(ssid: &str, passphrase: &str) -> (r: Sequencer)
        ensures
            r.started_with(ssid@, passphrase@),
    {
        match Establisher::begin(ssid, passphrase) {
            Ok(establisher) => Sequencer::Init(establisher),
            Err(error) => Sequencer::Failed(RunError::Config(error)),
        }
    }

    /// The phase of the run.
    pub open spec fn phase(self) -> Phase {
        match self {
            Sequencer::Init(_) => Phase::Init,
            Sequencer::WifiUp(_) => Phase::WifiUp,
            Sequencer::TimeSynced(_) => Phase::TimeSynced,
            Sequencer::Fetched => Phase::Fetched,
            Sequencer::Done => Phase::Done,
            Sequencer::Failed(_) => Phase::Failed,
        }
    }

    /// The phase of the run.
    pub fn current_phase(&self) -> (r: Phase)
        ensures
            r == self.phase(),
    {
        match self {
            Sequencer::Init(_) => Phase::Init,
            Sequencer::WifiUp(_) => Phase::WifiUp,
            Sequencer::TimeSynced(_) => Phase::TimeSynced,
            Sequencer::Fetched => Phase::Fetched,
            Sequencer::Done => Phase::Done,
            Sequencer::Failed(_) => Phase::Failed,
        }
    }

    /// How far the interface has come. It is up in every phase after the
    /// first; a run that failed stays where it was when it failed.
    pub open spec fn connectivity(self) -> ConnectivityState {
        match self {
            Sequencer::Init(establisher) => establisher.state(),
            Sequencer::Failed(RunError::Config(_)) => ConnectivityState::Down,
            Sequencer::Failed(RunError::Connectivity(error)) => error.step.state_while_pending(),
            _ => ConnectivityState::InterfaceUp,
        }
    }

    /// How far the interface has come.
    pub fn connectivity_state(&self) -> (r: ConnectivityState)
        ensures
            r == self.connectivity(),
    {
        match self {
            Sequencer::Init(establisher) => establisher.connectivity_state(),
            Sequencer::Failed(RunError::Config(_)) => ConnectivityState::Down,
            Sequencer::Failed(RunError::Connectivity(error)) => match error.step {
                RadioStep::Configure => ConnectivityState::Down,
                RadioStep::Start => ConnectivityState::Starting,
                RadioStep::Connect => ConnectivityState::Connecting,
                RadioStep::WaitInterfaceUp => ConnectivityState::Associated,
            },
            _ => ConnectivityState::InterfaceUp,
        }
    }

    /// What the program is to do in this state.
    pub open spec fn pending<'a>(&'a self) -> Directive<'a> {
        match self {
            Sequencer::Init(establisher) => Directive::Perform(establisher.pending()),
            Sequencer::WifiUp(synchronizer) => Directive::Perform(synchronizer.pending()),
            Sequencer::TimeSynced(fetcher) => Directive::Perform(fetcher.pending()),
            Sequencer::Fetched => Directive::Perform(Action::Log(&LogLine::Complete)),
            Sequencer::Done => Directive::Succeed,
            Sequencer::Failed(error) => Directive::Fail(error),
        }
    }

    /// What the program is to do now.
    pub fn directive<'a>(&'a self) -> (r: Directive<'a>)
        ensures
            r == self.pending(),
    {
        match self {
            Sequencer::Init(establisher) => Directive::Perform(establisher.action()),
            Sequencer::WifiUp(synchronizer) => Directive::Perform(synchronizer.action()),
            Sequencer::TimeSynced(fetcher) => Directive::Perform(fetcher.action()),
            Sequencer::Fetched => Directive::Perform(Action::Log(&LogLine::Complete)),
            Sequencer::Done => Directive::Succeed,
            Sequencer::Failed(error) => Directive::Fail(error),
        }
    }

    /// The run after the reply to its pending action.
    ///
    /// The reply goes to the component of the current phase. While that
    /// component is at work the phase stays; when it is done the next phase
    /// begins with a fresh component; when it has failed the run has failed
    /// with its error. In the phase `Fetched` the completion line is pending,
    /// and its writing ends the run. A run that is done or has failed stays
    /// as it is.
    pub open spec fn next(self, reply: Reply) -> Sequencer {
        match self {
            Sequencer::Init(establisher) => match establisher.next(reply) {
                Connectivity::Establishing(onward) => Sequencer::Init(onward),
                Connectivity::Up => Sequencer::WifiUp(Synchronizer::Starting),
                Connectivity::Failed(error) => Sequencer::Failed(RunError::Connectivity(error)),
            },
            Sequencer::WifiUp(synchronizer) => match synchronizer.next(reply) {
                ClockSync::Syncing(onward) => Sequencer::WifiUp(onward),
                ClockSync::Synced => Sequencer::TimeSynced(Fetcher::Requesting),
                ClockSync::Failed(error) => Sequencer::Failed(RunError::Sync(error)),
            },
            Sequencer::TimeSynced(fetcher) => match fetcher.next(reply) {
                Fetch::Fetching(onward) => Sequencer::TimeSynced(onward),
                Fetch::Fetched => Sequencer::Fetched,
                Fetch::Failed(error) => Sequencer::Failed(RunError::Fetch(error)),
            },
            Sequencer::Fetched => Sequencer::Done,
            Sequencer::Done => Sequencer::Done,
            Sequencer::Failed(error) => Sequencer::Failed(error),
        }
    }

    /// Takes the reply to the pending action and moves on.
    pub fn step(self, reply: Reply) -> (r: Sequencer)
        ensures
            r == self.next(reply),
    {
        match self {
            Sequencer::Init(establisher) => match establisher.step(reply) {
                Connectivity::Establishing(onward) => Sequencer::Init(onward),
                Connectivity::Up => Sequencer::WifiUp(Synchronizer::Starting),
                Connectivity::Failed(error) => Sequencer::Failed(RunError::Connectivity(error)),
            },
            Sequencer::WifiUp(synchronizer) => match synchronizer.step(reply) {
                ClockSync::Syncing(onward) => Sequencer::WifiUp(onward),
                ClockSync::Synced => Sequencer::TimeSynced(Fetcher::Requesting),
                ClockSync::Failed(error) => Sequencer::Failed(RunError::Sync(error)),
            },
            Sequencer::TimeSynced(fetcher) => match fetcher.step(reply) {
                Fetch::Fetching(onward) => Sequencer::TimeSynced(onward),
                Fetch::Fetched => Sequencer::Fetched,
                Fetch::Failed(error) => Sequencer::Failed(RunError::Fetch(error)),
            },
            Sequencer::Fetched => Sequencer::Done,
            Sequencer::Done => Sequencer::Done,
            Sequencer::Failed(error) => Sequencer::Failed(error),
        }
    }

    /// The run after a whole script of replies, taken in order.
    pub open spec fn run(self, replies: Seq<Reply>) -> Sequencer
        decreases replies.len(),
    {
        if replies.len() == 0 {
            self
        } else {
            self.next(replies.first()).run(replies.drop_first())
        }
    }

    /// The line whose writing is pending, if one is.
    pub open spec fn pending_line(self) -> Option<Seq<char>> {
        match self.pending() {
            Directive::Perform(Action::Log(line)) => Some(line.text_view()),
            _ => None,
        }
    }

    /// The lines that are written while the script is taken, in order: for
    /// each reply, the line whose writing it answers, if it answers one.
    pub open spec fn log_trace(self, replies: Seq<Reply>) -> Seq<Seq<char>>
        decreases replies.len(),
    {
        if replies.len() == 0 {
            Seq::<Seq<char>>::empty()
        } else {
            let answered = match self.pending_line() {
                Some(line) => seq![line],
                None => Seq::<Seq<char>>::empty(),
            };
            answered + self.next(replies.first()).log_trace(replies.drop_first())
        }
    }

    /// Whether the pending directive asks something of the radio driver.
    pub open spec fn asks_radio(self) -> bool {
        self matches Sequencer::Init(establisher) && establisher.radio_step() is Some
    }

    /// Whether the pending directive asks something of the time-sync client,
    /// the wall clock or the transport.
    pub open spec fn asks_sync_or_fetch(self) -> bool {
        match self {
            Sequencer::WifiUp(Synchronizer::Reporting(_)) => false,
            Sequencer::WifiUp(_) => true,
            Sequencer::TimeSynced(Fetcher::Requesting) => true,
            _ => false,
        }
    }
}

/// One step never skips a phase: the run stays in its phase, enters the
/// phase that follows it, or fails. It fails only from a phase in which a
/// component is at work.
pub proof fn lemma_step_keeps_phase_order(run: Sequencer, reply: Reply)
    ensures
        ({
            let then = run.next(reply).phase();
            ||| then == run.phase()
            ||| Some(then) == run.phase().following()
            ||| then == Phase::Failed && (run.phase() == Phase::Init || run.phase()
                == Phase::WifiUp || run.phase() == Phase::TimeSynced)
        }),
{
}

/// A phase begins only when the one before it has reported success: the
/// clock synchronizer starts only on an interface that is up, with an
/// establisher that is done, and the fetcher starts only after a
/// synchronizer that is done.
pub proof fn lemma_phase_begins_on_success(run: Sequencer, reply: Reply)
    requires
        run.next(reply).phase() != run.phase(),
        run.next(reply).phase() != Phase::Failed,
    ensures
        run matches Sequencer::Init(establisher) ==> establisher.next(reply) == Connectivity::Up
            && establisher.state() == ConnectivityState::InterfaceUp && run.next(reply)
            == Sequencer::WifiUp(Synchronizer::Starting),
        run matches Sequencer::WifiUp(synchronizer) ==> synchronizer.next(reply)
            == ClockSync::Synced && run.next(reply) == Sequencer::TimeSynced(Fetcher::Requesting),
        run matches Sequencer::TimeSynced(fetcher) ==> fetcher.next(reply) == Fetch::Fetched
            && run.next(reply) == Sequencer::Fetched,
        run == Sequencer::Fetched ==> run.next(reply) == Sequencer::Done,
{
}

/// A run that is done or has failed is final: whatever replies follow, it
/// stays as it is, and so asks nothing more of any collaborator.
pub proof fn lemma_settled_run_is_final(run: Sequencer, replies: Seq<Reply>)
    requires
        run.phase() == Phase::Done || run.phase() == Phase::Failed,
    ensures
        run.run(replies) == run,
    decreases replies.len(),
{
    if replies.len() > 0 {
        lemma_settled_run_is_final(run, replies.drop_first());
    }
}

/// Credentials that exceed a limit fail the run with the configuration error
/// before any radio operation is attempted: the run starts out failed, names
/// the field, and asks nothing of the radio or of any other collaborator,
/// whatever replies it is handed.
pub proof fn lemma_invalid_credentials_touch_nothing(
    run: Sequencer,
    ssid: Seq<char>,
    passphrase: Seq<char>,
    replies: Seq<Reply>,
)
    requires
        run.started_with(ssid, passphrase),
        credentials_verdict(ssid, passphrase) is Some,
    ensures
        run.run(replies) == run,
        run == Sequencer::Failed(
            RunError::Config(
                ConfigError { field: credentials_verdict(ssid, passphrase).unwrap() },
            ),
        ),
        run.pending() matches Directive::Fail(error) && *error == RunError::Config(
            ConfigError { field: credentials_verdict(ssid, passphrase).unwrap() },
        ),
        !run.run(replies).asks_radio(),
        !run.run(replies).asks_sync_or_fetch(),
{
    lemma_settled_run_is_final(run, replies);
}

/// A radio operation that is not answered `Done` fails the run with the
/// error of that operation, whose message begins with the operation's label;
/// from then on the run asks nothing of the time-sync client, the clock or
/// the transport, whatever replies it is handed.
pub proof fn lemma_radio_failure_ends_run(
    establisher: Establisher,
    reply: Reply,
    replies: Seq<Reply>,
)
    requires
        establisher.radio_step() is Some,
        !(reply is Done),
    ensures
        Sequencer::Init(establisher).next(reply) matches Sequencer::Failed(
            RunError::Connectivity(error),
        ) && error.step == establisher.radio_step().unwrap() && error.step.label_text().is_prefix_of(
            Sequencer::Init(establisher).next(reply)->Failed_0.message_text(),
        ),
        Sequencer::Init(establisher).next(reply).run(replies) == Sequencer::Init(
            establisher,
        ).next(reply),
        !Sequencer::Init(establisher).next(reply).run(replies).asks_sync_or_fetch(),
        !Sequencer::Init(establisher).next(reply).run(replies).asks_radio(),
{
    let failed = Sequencer::Init(establisher).next(reply);
    lemma_settled_run_is_final(failed, replies);
    let error = failed->Failed_0->Connectivity_0;
    let label = error.step.label_text();
    let message = error.message_text();
    assert(label =~= message.subrange(0, label.len() as int));
}

/// From an establisher at any radio operation: after `k` successes and then
/// a failure, no point of the run has asked anything of the time-sync
/// client, the clock or the transport, and from the failure on the run has
/// failed at the operation that did.
proof fn lemma_idle_until_radio_failure(
    establisher: Establisher,
    k: nat,
    replies: Seq<Reply>,
    upto: nat,
)
    requires
        establisher.radio_step() is Some,
        establisher.radio_step().unwrap().position() + k < 4,
        replies.len() > k,
        forall|i: int| 0 <= i < k ==> replies[i] is Done,
        !(replies[k as int] is Done),
        upto <= replies.len(),
    ensures
        !Sequencer::Init(establisher).run(replies.take(upto as int)).asks_sync_or_fetch(),
        upto > k ==> (Sequencer::Init(establisher).run(
            replies.take(upto as int),
        ) matches Sequencer::Failed(RunError::Connectivity(error)) && error.step.position()
            == establisher.radio_step().unwrap().position() + k),
    decreases k,
{
    let run = Sequencer::Init(establisher);
    let taken = replies.take(upto as int);
    if upto > 0 {
        let then = run.next(replies.first());
        let rest = replies.drop_first();
        assert(taken.first() == replies.first());
        assert(taken.drop_first() =~= rest.take(upto - 1));
        if k == 0 {
            lemma_settled_run_is_final(then, rest.take(upto - 1));
        } else {
            assert(replies[0] is Done);
            let onward = then->Init_0;
            assert(forall|i: int| 0 <= i < k - 1 ==> rest[i] == replies[i + 1]);
            lemma_idle_until_radio_failure(onward, (k - 1) as nat, rest, (upto - 1) as nat);
        }
    }
}

/// A radio collaborator that succeeds `k` times and then fails leaves the
/// time-sync client, the clock and the transport untouched: at no point of
/// the run, however long the script, is anything asked of them. Once the
/// failing reply is taken the run has failed at the operation of place `k`.
pub proof fn lemma_radio_failure_keeps_sync_and_fetch_idle(
    run: Sequencer,
    ssid: Seq<char>,
    passphrase: Seq<char>,
    k: nat,
    replies: Seq<Reply>,
    upto: nat,
)
    requires
        run.started_with(ssid, passphrase),
        credentials_verdict(ssid, passphrase) is None,
        k < 4,
        replies.len() > k,
        forall|i: int| 0 <= i < k ==> replies[i] is Done,
        !(replies[k as int] is Done),
        upto <= replies.len(),
    ensures
        !run.run(replies.take(upto as int)).asks_sync_or_fetch(),
        upto > k ==> (run.run(replies.take(upto as int)) matches Sequencer::Failed(
            RunError::Connectivity(error),
        ) && error.step.position() == k),
{
    lemma_idle_until_radio_failure(run->Init_0, k, replies, upto);
}

/// Taking one script after another is taking the two in a row: the run ends
/// where the second script leaves it, and the lines written are those of the
/// first followed by those of the second.
pub proof fn lemma_run_in_two_parts(run: Sequencer, first: Seq<Reply>, second: Seq<Reply>)
    ensures
        run.run(first + second) == run.run(first).run(second),
        run.log_trace(first + second) == run.log_trace(first) + run.run(first).log_trace(second),
    decreases first.len(),
{
    if first.len() == 0 {
        assert(first + second =~= second);
        assert(run.log_trace(first) + run.log_trace(second) =~= run.log_trace(second));
    } else {
        let whole = first + second;
        assert(whole.first() == first.first());
        assert(whole.drop_first() =~= first.drop_first() + second);
        lemma_run_in_two_parts(run.next(first.first()), first.drop_first(), second);
        assert(run.log_trace(whole) =~= run.log_trace(first) + run.run(first).log_trace(second));
    }
}

/// While the time-sync client is polled nothing is written: a run in the
/// polling loop that meets a client which completes after `polls` polls goes
/// on to read the clock, and has written no line meanwhile.
pub proof fn lemma_polling_writes_nothing(polls: nat, status: SyncStatus)
    requires
        status != SyncStatus::Completed,
    ensures
        Sequencer::WifiUp(Synchronizer::Polling).run(completes_after(polls, status))
            == Sequencer::WifiUp(Synchronizer::Snapshotting),
        Sequencer::WifiUp(Synchronizer::Polling).log_trace(completes_after(polls, status))
            == Seq::<Seq<char>>::empty(),
    decreases polls,
{
    let polling = Sequencer::WifiUp(Synchronizer::Polling);
    let script = completes_after(polls, status);
    reveal_with_fuel(Sequencer::run, 3);
    reveal_with_fuel(Sequencer::log_trace, 3);
    if polls == 0 {
        assert(polling.log_trace(script) =~= Seq::<Seq<char>>::empty());
    } else {
        let rest = completes_after((polls - 1) as nat, status);
        lemma_polling_writes_nothing((polls - 1) as nat, status);
        assert(script.drop_first().drop_first() =~= rest);
        assert(polling.log_trace(script) =~= Seq::<Seq<char>>::empty());
    }
}

/// What the collaborators of a run answer when every one of them succeeds:
/// the four radio operations are done, the name servers are read and their
/// line is written, the time-sync client starts and completes after `polls`
/// polls, the time is read and its line is written, the body arrives and is
/// written, and so is the completion line.
pub open spec fn successful_script(
    primary: String,
    secondary: String,
    polls: nat,
    status: SyncStatus,
    time: Option<String>,
    body: String,
) -> Seq<Reply> {
    seq![
        Reply::Done,
        Reply::Done,
        Reply::Done,
        Reply::Done,
        Reply::Nameservers(primary, secondary),
        Reply::Done,
        Reply::Done,
    ] + completes_after(polls, status) + seq![
        Reply::Timestamp(time),
        Reply::Done,
        Reply::Body(body),
        Reply::Done,
        Reply::Done,
    ]
}

/// A run with valid credentials whose collaborators all succeed reaches
/// `Done`, however long the clock takes, and writes exactly four lines: the
/// name servers, the time (or that it is unknown), the body as it came, and
/// the completion.
pub proof fn lemma_successful_run_reaches_done(
    run: Sequencer,
    ssid: Seq<char>,
    passphrase: Seq<char>,
    primary: String,
    secondary: String,
    polls: nat,
    status: SyncStatus,
    time: Option<String>,
    body: String,
)
    requires
        run.started_with(ssid, passphrase),
        credentials_verdict(ssid, passphrase) is None,
        status != SyncStatus::Completed,
    ensures
        run.run(successful_script(primary, secondary, polls, status, time, body))
            == Sequencer::Done,
        run.log_trace(successful_script(primary, secondary, polls, status, time, body)) == seq![
            LogLine::Nameservers(primary, secondary).text_view(),
            LogLine::SyncCompleted(time).text_view(),
            body@,
            "complete"@,
        ],
{
    let head = seq![
        Reply::Done,
        Reply::Done,
        Reply::Done,
        Reply::Done,
        Reply::Nameservers(primary, secondary),
        Reply::Done,
        Reply::Done,
    ];
    let polling = completes_after(polls, status);
    let tail = seq![
        Reply::Timestamp(time),
        Reply::Done,
        Reply::Body(body),
        Reply::Done,
        Reply::Done,
    ];
    let at_poll = Sequencer::WifiUp(Synchronizer::Polling);
    let at_snapshot = Sequencer::WifiUp(Synchronizer::Snapshotting);
    assert(run.run(head) == at_poll && run.log_trace(head) =~= seq![
        LogLine::Nameservers(primary, secondary).text_view(),
    ]) by {
        reveal_with_fuel(Sequencer::run, 8);
        reveal_with_fuel(Sequencer::log_trace, 8);
    }
    assert(at_snapshot.run(tail) == Sequencer::Done && at_snapshot.log_trace(tail) =~= seq![
        LogLine::SyncCompleted(time).text_view(),
        body@,
        "complete"@,
    ]) by {
        reveal_with_fuel(Sequencer::run, 6);
        reveal_with_fuel(Sequencer::log_trace, 6);
    }
    lemma_polling_writes_nothing(polls, status);
    lemma_run_in_two_parts(run, head, polling);
    lemma_run_in_two_parts(run, head + polling, tail);
    assert(run.log_trace(head + polling + tail) =~= seq![
        LogLine::Nameservers(primary, secondary).text_view(),
        LogLine::SyncCompleted(time).text_view(),
        body@,
        "complete"@,
    ]);
}

} // verus!
