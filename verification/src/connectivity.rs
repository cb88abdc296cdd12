//! The connectivity establisher: from credentials to an interface that is up.
//!
//! The radio is driven through four operations in a fixed order: configure,
//! start, connect, wait until the interface is up. Any failure among them
//! ends the attempt; nothing is retried. Once the interface is up its name
//! servers are read and logged, which is informational and cannot fail the
//! attempt.

use vstd::prelude::*;
use crate::config::ClientConfig;
use crate::credentials::{credentials_verdict, ConfigError, Credentials};
use crate::protocol::{describe, labelled, Action, LogLine, Reply};

verus! {

/// One of the four operations on the radio driver, in the order in which
/// they are made.
#[derive(Clone, Copy, Debug, PartialEq, Eq, Structural)]
pub enum RadioStep {
    Configure,
    Start,
    Connect,
    WaitInterfaceUp,
}

/// The four radio operations in their fixed order.
pub open spec fn radio_order() -> Seq<RadioStep> {
    seq![RadioStep::Configure, RadioStep::Start, RadioStep::Connect, RadioStep::WaitInterfaceUp]
}

impl RadioStep {
    /// The place of the step in the order, from 0.
    pub open spec fn position(self) -> nat {
        match self {
            RadioStep::Configure => 0,
            RadioStep::Start => 1,
            RadioStep::Connect => 2,
            RadioStep::WaitInterfaceUp => 3,
        }
    }

    /// The step that follows this one, if any.
    pub open spec fn following(self) -> Option<RadioStep> {
        match self {
            RadioStep::Configure => Some(RadioStep::Start),
            RadioStep::Start => Some(RadioStep::Connect),
            RadioStep::Connect => Some(RadioStep::WaitInterfaceUp),
            RadioStep::WaitInterfaceUp => None,
        }
    }

    /// The step that follows this one, if any.
    pub fn successor(&self) -> (r: Option<RadioStep>)
        ensures
            r == self.following(),
    {
        match self {
            RadioStep::Configure => Some(RadioStep::Start),
            RadioStep::Start => Some(RadioStep::Connect),
            RadioStep::Connect => Some(RadioStep::WaitInterfaceUp),
            RadioStep::WaitInterfaceUp => None,
        }
    }

    /// The label under which a failure of the step is reported.
    pub open spec fn label_text(self) -> Seq<char> {
        match self {
            RadioStep::Configure => "wifi couldn't be configured"@,
            RadioStep::Start => "wifi couldn't start"@,
            RadioStep::Connect => "wifi couldn't connect"@,
            RadioStep::WaitInterfaceUp => "wifi netif_up failed"@,
        }
    }

    /// The label under which a failure of the step is reported.
    pub fn label(&self) -> (r: &'static str)
        ensures
            r@ == self.label_text(),
    {
        match self {
            RadioStep::Configure => "wifi couldn't be configured",
            RadioStep::Start => "wifi couldn't start",
            RadioStep::Connect => "wifi couldn't connect",
            RadioStep::WaitInterfaceUp => "wifi netif_up failed",
        }
    }

    /// The connectivity state in which the step is pending.
    pub open spec fn state_while_pending(self) -> ConnectivityState {
        match self {
            RadioStep::Configure => ConnectivityState::Down,
            RadioStep::Start => ConnectivityState::Starting,
            RadioStep::Connect => ConnectivityState::Connecting,
            RadioStep::WaitInterfaceUp => ConnectivityState::Associated,
        }
    }
}

/// How far the interface has come.
#[derive(Clone, Copy, Debug, PartialEq, Eq, Structural)]
pub enum ConnectivityState {
    /// Nothing has been started.
    Down,
    /// The configuration is applied; the start of the interface is awaited.
    Starting,
    /// The interface is started; the association is awaited.
    Connecting,
    /// Associated; the interface is not up yet.
    Associated,
    /// The interface is up: it has an address and can carry traffic.
    InterfaceUp,
}

/// A radio operation failed. Fatal for the run; nothing is retried.
#[derive(Clone, Debug, PartialEq, Eq)]
pub struct ConnectivityError {
    /// The operation that failed.
    pub step: RadioStep,
    /// The driver's own account, where it gave one.
    pub cause: Option<String>,
}

impl ConnectivityError {
    /// What the error says, as text.
    pub open spec fn message_text(self) -> Seq<char> {
        labelled(self.step.label_text(), self.cause)
    }

    /// A message that begins with the label of the step that failed.
    pub fn message(&self) -> (r: String)
        ensures
            r@ == self.message_text(),
    {
        describe(self.step.label(), &self.cause)
    }
}

/// What an establisher that is still at work waits for.
#[derive(Debug, PartialEq, Eq)]
pub enum Awaiting {
    /// The outcome of a radio operation.
    Radio(RadioStep),
    /// The name servers of the interface.
    Nameservers,
    /// The writing of the name-server line.
    Report(LogLine),
}

/// An establisher at work: the configuration it applies, and what it waits
/// for.
#[derive(Debug, PartialEq, Eq)]
pub struct Establisher {
    pub config: ClientConfig,
    pub awaiting: Awaiting,
}

/// An establisher after a reply: still at work, done, or failed.
#[derive(Debug, PartialEq, Eq)]
pub enum Connectivity {
    Establishing(Establisher),
    Up,
    Failed(ConnectivityError),
}

impl Establisher {
    /// The establisher that has done nothing yet for the given credentials:
    /// it holds the station configuration and waits to apply it.
    pub open spec fn fresh(credentials: Credentials) -> Establisher {
        Establisher {
            config: ClientConfig::station_of(credentials),
            awaiting: Awaiting::Radio(RadioStep::Configure),
        }
    }

    /// Whether this is the establisher that `begin` owes for the two texts.
    pub open spec fn begun_with(self, ssid: Seq<char>, passphrase: Seq<char>) -> bool {
        &&& self == Self::fresh(self.config.credentials)
        &&& self.config.credentials.ssid_view() == ssid
        &&& self.config.credentials.passphrase_view() == passphrase
    }

    /// Starts from valid credentials.
    pub fn new(credentials: Credentials) -> (r: Establisher)
        ensures
            r == Self::fresh(credentials),
    {
        Establisher {
            config: ClientConfig::station(credentials),
            awaiting: Awaiting::Radio(RadioStep::Configure),
        }
    }

    /// Validates the credentials and starts from them. Where either text
    /// exceeds its limit the result is the configuration error, and no
    /// establisher, hence no radio operation, comes to exist.
    pub fn begin(ssid: &str, passphrase: &str) -> (r: Result<Establisher, ConfigError>)
        ensures
            match r {
                Ok(establisher) => {
                    &&& credentials_verdict(ssid@, passphrase@) is None
                    &&& establisher.begun_with(ssid@, passphrase@)
                },
                Err(error) => credentials_verdict(ssid@, passphrase@) == Some(error.field),
            },
    {
        match Credentials::new(ssid, passphrase) {
            Ok(credentials) => Ok(Establisher::new(credentials)),
            Err(error) => Err(error),
        }
    }

    /// The action that is pending.
    pub open spec fn pending<'a>(&'a self) -> Action<'a> {
        match &self.awaiting {
            Awaiting::Radio(RadioStep::Configure) => Action::Configure(&self.config),
            Awaiting::Radio(RadioStep::Start) => Action::Start,
            Awaiting::Radio(RadioStep::Connect) => Action::Connect,
            Awaiting::Radio(RadioStep::WaitInterfaceUp) => Action::WaitInterfaceUp,
            Awaiting::Nameservers => Action::ReadNameservers,
            Awaiting::Report(line) => Action::Log(line),
        }
    }

    /// The action to perform now.
    pub fn action<'a>(&'a self) -> (r: Action<'a>)
        ensures
            r == self.pending(),
    {
        match &self.awaiting {
            Awaiting::Radio(RadioStep::Configure) => Action::Configure(&self.config),
            Awaiting::Radio(RadioStep::Start) => Action::Start,
            Awaiting::Radio(RadioStep::Connect) => Action::Connect,
            Awaiting::Radio(RadioStep::WaitInterfaceUp) => Action::WaitInterfaceUp,
            Awaiting::Nameservers => Action::ReadNameservers,
            Awaiting::Report(line) => Action::Log(line),
        }
    }

    /// The radio operation that is pending, if one is.
    pub open spec fn radio_step(self) -> Option<RadioStep> {
        match self.awaiting {
            Awaiting::Radio(step) => Some(step),
            _ => None,
        }
    }

    /// How far the interface has come.
    pub open spec fn state(self) -> ConnectivityState {
        match self.awaiting {
            Awaiting::Radio(step) => step.state_while_pending(),
            _ => ConnectivityState::InterfaceUp,
        }
    }

    /// The establisher after the reply to its pending action.
    ///
    /// A radio operation that is answered `Done` gives way to the next one,
    /// the last one to the reading of the name servers. Answered otherwise it
    /// has failed, with the cause that a `Failed` reply gives. The name
    /// servers, once read, are logged; any other reply skips the line. The
    /// writing of the line ends the work.
    pub open spec fn next(self, reply: Reply) -> Connectivity {
        match self.awaiting {
            Awaiting::Radio(step) => match reply {
                Reply::Done => Connectivity::Establishing(
                    Establisher {
                        config: self.config,
                        awaiting: match step.following() {
                            Some(then) => Awaiting::Radio(then),
                            None => Awaiting::Nameservers,
                        },
                    },
                ),
                Reply::Failed(cause) => Connectivity::Failed(
                    ConnectivityError { step, cause: Some(cause) },
                ),
                _ => Connectivity::Failed(ConnectivityError { step, cause: None }),
            },
            Awaiting::Nameservers => match reply {
                Reply::Nameservers(primary, secondary) => Connectivity::Establishing(
                    Establisher {
                        config: self.config,
                        awaiting: Awaiting::Report(LogLine::Nameservers(primary, secondary)),
                    },
                ),
                _ => Connectivity::Up,
            },
            Awaiting::Report(_) => Connectivity::Up,
        }
    }

    /// Takes the reply to the pending action and moves on.
    pub fn step(self, reply: Reply) -> (r: Connectivity)
        ensures
            r == self.next(reply),
    {
        let Establisher { config, awaiting } = self;
        match awaiting {
            Awaiting::Radio(step) => match reply {
                Reply::Done => {
                    let awaiting = match step.successor() {
                        Some(then) => Awaiting::Radio(then),
                        None => Awaiting::Nameservers,
                    };
                    Connectivity::Establishing(Establisher { config, awaiting })
                },
                Reply::Failed(cause) => Connectivity::Failed(
                    ConnectivityError { step, cause: Some(cause) },
                ),
                _ => Connectivity::Failed(ConnectivityError { step, cause: None }),
            },
            Awaiting::Nameservers => match reply {
                Reply::Nameservers(primary, secondary) => Connectivity::Establishing(
                    Establisher {
                        config,
                        awaiting: Awaiting::Report(LogLine::Nameservers(primary, secondary)),
                    },
                ),
                _ => Connectivity::Up,
            },
            Awaiting::Report(_) => Connectivity::Up,
        }
    }

    /// How far the interface has come.
    pub fn connectivity_state(&self) -> (r: ConnectivityState)
        ensures
            r == self.state(),
    {
        match &self.awaiting {
            Awaiting::Radio(RadioStep::Configure) => ConnectivityState::Down,
            Awaiting::Radio(RadioStep::Start) => ConnectivityState::Starting,
            Awaiting::Radio(RadioStep::Connect) => ConnectivityState::Connecting,
            Awaiting::Radio(RadioStep::WaitInterfaceUp) => ConnectivityState::Associated,
            _ => ConnectivityState::InterfaceUp,
        }
    }
}

impl Connectivity {
    /// The radio operation that is pending, if one is.
    pub open spec fn radio_step(self) -> Option<RadioStep> {
        match self {
            Connectivity::Establishing(establisher) => establisher.radio_step(),
            _ => None,
        }
    }

    /// How far the interface has come. A failed attempt stays where the
    /// operation that failed was pending.
    pub open spec fn state(self) -> ConnectivityState {
        match self {
            Connectivity::Establishing(establisher) => establisher.state(),
            Connectivity::Up => ConnectivityState::InterfaceUp,
            Connectivity::Failed(error) => error.step.state_while_pending(),
        }
    }

    /// The attempt after one more reply. Once up or failed it stays so.
    pub open spec fn next(self, reply: Reply) -> Connectivity {
        match self {
            Connectivity::Establishing(establisher) => establisher.next(reply),
            _ => self,
        }
    }

    /// The attempt after a whole script of replies, taken in order.
    pub open spec fn run(self, replies: Seq<Reply>) -> Connectivity
        decreases replies.len(),
    {
        if replies.len() == 0 {
            self
        } else {
            self.next(replies.first()).run(replies.drop_first())
        }
    }

    /// The radio operations that are performed while the script is taken, in
    /// order: for each reply, the operation that it answers, if it answers
    /// one.
    pub open spec fn radio_trace(self, replies: Seq<Reply>) -> Seq<RadioStep>
        decreases replies.len(),
    {
        if replies.len() == 0 {
            Seq::<RadioStep>::empty()
        } else {
            let answered = match self.radio_step() {
                Some(step) => seq![step],
                None => Seq::<RadioStep>::empty(),
            };
            answered + self.next(replies.first()).radio_trace(replies.drop_first())
        }
    }

    /// Takes one more reply. Once up or failed the attempt stays so.
    pub fn step(self, reply: Reply) -> (r: Connectivity)
        ensures
            r == self.next(reply),
    {
        match self {
            Connectivity::Establishing(establisher) => establisher.step(reply),
            Connectivity::Up => Connectivity::Up,
            Connectivity::Failed(error) => Connectivity::Failed(error),
        }
    }

    /// How far the interface has come.
    pub fn connectivity_state(&self) -> (r: ConnectivityState)
        ensures
            r == self.state(),
    {
        match self {
            Connectivity::Establishing(establisher) => establisher.connectivity_state(),
            Connectivity::Up => ConnectivityState::InterfaceUp,
            Connectivity::Failed(error) => match error.step {
                RadioStep::Configure => ConnectivityState::Down,
                RadioStep::Start => ConnectivityState::Starting,
                RadioStep::Connect => ConnectivityState::Connecting,
                RadioStep::WaitInterfaceUp => ConnectivityState::Associated,
            },
        }
    }
}

/// Where in the order the attempt stands: the place of the pending radio
/// operation, or 4 where none is pending.
pub open spec fn radio_progress(attempt: Connectivity) -> nat {
    match attempt.radio_step() {
        Some(step) => step.position(),
        None => 4,
    }
}

/// From wherever the attempt stands, the radio operations that are performed
/// are the next ones in the order, without a gap and without a repeat.
pub proof fn lemma_radio_trace_continues_order(attempt: Connectivity, replies: Seq<Reply>)
    ensures
        attempt.radio_trace(replies).is_prefix_of(
            radio_order().skip(radio_progress(attempt) as int),
        ),
    decreases replies.len(),
{
    let rest = radio_order().skip(radio_progress(attempt) as int);
    if replies.len() == 0 {
        assert(attempt.radio_trace(replies) =~= rest.subrange(
            0,
            attempt.radio_trace(replies).len() as int,
        ));
    } else {
        let then = attempt.next(replies.first());
        lemma_radio_trace_continues_order(then, replies.drop_first());
        let tail = then.radio_trace(replies.drop_first());
        assert(tail =~= radio_order().skip(radio_progress(then) as int).subrange(
            0,
            tail.len() as int,
        ));
        assert(attempt.radio_trace(replies) =~= rest.subrange(
            0,
            attempt.radio_trace(replies).len() as int,
        ));
    }
}

/// The order of the radio operations is fixed: whatever the replies, the
/// operations performed for a fresh establisher are configure, start,
/// connect, wait-interface-up, in this order, up to the point that the
/// attempt reaches.
pub proof fn lemma_radio_steps_in_order(credentials: Credentials, replies: Seq<Reply>)
    ensures
        Connectivity::Establishing(Establisher::fresh(credentials)).radio_trace(
            replies,
        ).is_prefix_of(radio_order()),
{
    let attempt = Connectivity::Establishing(Establisher::fresh(credentials));
    lemma_radio_trace_continues_order(attempt, replies);
    assert(radio_order().skip(0) =~= radio_order());
}

/// An attempt that is up or has failed stays as it is, and no radio operation
/// is performed for it, whatever follows.
pub proof fn lemma_settled_attempt_is_final(attempt: Connectivity, replies: Seq<Reply>)
    requires
        !(attempt is Establishing),
    ensures
        attempt.run(replies) == attempt,
        attempt.radio_trace(replies) == Seq::<RadioStep>::empty(),
    decreases replies.len(),
{
    if replies.len() > 0 {
        lemma_settled_attempt_is_final(attempt, replies.drop_first());
    }
}

/// A radio operation that is not answered `Done` is the last one performed:
/// the attempt has failed at that operation, and none of the later ones is
/// performed, whatever replies follow.
pub proof fn lemma_failure_ends_radio_work(establisher: Establisher, replies: Seq<Reply>)
    requires
        establisher.radio_step() is Some,
        replies.len() > 0,
        !(replies.first() is Done),
    ensures
        Connectivity::Establishing(establisher).radio_trace(replies) == seq![
            establisher.radio_step().unwrap(),
        ],
        Connectivity::Establishing(establisher).run(replies) matches Connectivity::Failed(error)
            && error.step == establisher.radio_step().unwrap(),
{
    let failed = establisher.next(replies.first());
    lemma_settled_attempt_is_final(failed, replies.drop_first());
}

/// A radio collaborator that succeeds `k` times and fails at the operation of
/// place `k` sees exactly the first `k + 1` operations of the order; the
/// attempt fails at that operation.
pub proof fn lemma_failure_at_step(credentials: Credentials, k: nat, replies: Seq<Reply>)
    requires
        k < 4,
        replies.len() > k,
        forall|i: int| 0 <= i < k ==> replies[i] is Done,
        !(replies[k as int] is Done),
    ensures
        Connectivity::Establishing(Establisher::fresh(credentials)).radio_trace(replies)
            == radio_order().take(k as int + 1),
        Connectivity::Establishing(Establisher::fresh(credentials)).run(replies) matches Connectivity::Failed(
            error,
        ) && error.step == radio_order()[k as int],
{
    lemma_failure_from(Establisher::fresh(credentials), k, replies);
    assert(radio_order().skip(0) =~= radio_order());
}

/// The same, from an establisher at any radio operation: with `k` successes
/// and then a failure, `k + 1` operations are performed from where it stands.
proof fn lemma_failure_from(establisher: Establisher, k: nat, replies: Seq<Reply>)
    requires
        establisher.radio_step() is Some,
        establisher.radio_step().unwrap().position() + k < 4,
        replies.len() > k,
        forall|i: int| 0 <= i < k ==> replies[i] is Done,
        !(replies[k as int] is Done),
    ensures
        Connectivity::Establishing(establisher).radio_trace(replies) == radio_order().skip(
            establisher.radio_step().unwrap().position() as int,
        ).take(k as int + 1),
        Connectivity::Establishing(establisher).run(replies) matches Connectivity::Failed(error)
            && error.step == radio_order()[establisher.radio_step().unwrap().position() as int + k],
    decreases k,
{
    let step = establisher.radio_step().unwrap();
    let attempt = Connectivity::Establishing(establisher);
    let from = radio_order().skip(step.position() as int);
    if k == 0 {
        lemma_failure_ends_radio_work(establisher, replies);
        assert(attempt.radio_trace(replies) =~= from.take(1));
    } else {
        assert(replies[0] is Done);
        let then = establisher.next(replies.first());
        let onward = then->Establishing_0;
        let rest = replies.drop_first();
        assert(forall|i: int| 0 <= i < k - 1 ==> rest[i] == replies[i + 1]);
        lemma_failure_from(onward, (k - 1) as nat, rest);
        assert(attempt.radio_trace(replies) =~= from.take(k as int + 1));
    }
}

/// A radio collaborator that succeeds at every operation sees all four, in
/// order, and the interface is then up.
pub proof fn lemma_success_reaches_interface_up(credentials: Credentials, replies: Seq<Reply>)
    requires
        replies.len() == 4,
        forall|i: int| 0 <= i < 4 ==> replies[i] is Done,
    ensures
        Connectivity::Establishing(Establisher::fresh(credentials)).radio_trace(replies)
            == radio_order(),
        Connectivity::Establishing(Establisher::fresh(credentials)).run(replies).state()
            == ConnectivityState::InterfaceUp,
{
    let s0 = Connectivity::Establishing(Establisher::fresh(credentials));
    let r1 = replies.drop_first();
    let r2 = r1.drop_first();
    let r3 = r2.drop_first();
    let r4 = r3.drop_first();
    let s1 = s0.next(replies.first());
    let s2 = s1.next(r1.first());
    let s3 = s2.next(r2.first());
    let s4 = s3.next(r3.first());
    assert(r1.first() == replies[1] && r2.first() == replies[2] && r3.first() == replies[3]);
    assert(s4.run(r4) == s4);
    assert(s3.run(r3) == s4);
    assert(s2.run(r2) == s4);
    assert(s1.run(r1) == s4);
    assert(s4.radio_trace(r4) =~= Seq::<RadioStep>::empty());
    assert(s3.radio_trace(r3) =~= seq![RadioStep::WaitInterfaceUp]);
    assert(s2.radio_trace(r2) =~= seq![RadioStep::Connect, RadioStep::WaitInterfaceUp]);
    assert(s1.radio_trace(r1) =~= seq![
        RadioStep::Start,
        RadioStep::Connect,
        RadioStep::WaitInterfaceUp,
    ]);
    assert(s0.radio_trace(replies) =~= radio_order());
}

} // verus!
