use startup_sequencer::connectivity::{ConnectivityError, ConnectivityState, RadioStep};
use startup_sequencer::credentials::{ConfigError, CredentialField};
use startup_sequencer::clock::{SyncError, Timestamp};
use startup_sequencer::fetch::FetchError;
use startup_sequencer::protocol::{Action, Reply, SyncStatus};
use startup_sequencer::sequencer::{Directive, Phase, RunError, Sequencer};

/// Doubles for every collaborator of a run. Each records how it was invoked.
struct Bench {
    radio_fails_at: Option<RadioStep>,
    nameservers: Option<(String, String)>,
    sync_start_fails: bool,
    pending_polls: usize,
    timestamp: Option<String>,
    body: Result<String, String>,
    radio_invoked: Vec<RadioStep>,
    configured: Vec<(String, String)>,
    nameserver_reads: usize,
    sync_starts: usize,
    polls: usize,
    sleeps: usize,
    snapshots: usize,
    fetches: Vec<String>,
    log: Vec<String>,
    phases: Vec<Phase>,
}

fn bench() -> Bench {
    Bench {
        radio_fails_at: None,
        nameservers: Some(("192.168.4.1".to_string(), "1.1.1.1".to_string())),
        sync_start_fails: false,
        pending_polls: 3,
        timestamp: Timestamp { unix_nanoseconds: 1_700_000_000_000_000_000 }.format().ok(),
        body: Ok("hello".to_string()),
        radio_invoked: Vec::new(),
        configured: Vec::new(),
        nameserver_reads: 0,
        sync_starts: 0,
        polls: 0,
        sleeps: 0,
        snapshots: 0,
        fetches: Vec::new(),
        log: Vec::new(),
        phases: Vec::new(),
    }
}

fn radio_reply(bench: &mut Bench, step: RadioStep) -> Reply {
    bench.radio_invoked.push(step);
    if bench.radio_fails_at == Some(step) {
        Reply::Failed("radio fault".to_string())
    } else {
        Reply::Done
    }
}

fn perform(bench: &mut Bench, action: Action) -> Reply {
    match action {
        Action::Configure(config) => {
            bench.configured.push((
                config.credentials.ssid().to_string(),
                config.credentials.passphrase().to_string(),
            ));
            radio_reply(bench, RadioStep::Configure)
        }
        Action::Start => radio_reply(bench, RadioStep::Start),
        Action::Connect => radio_reply(bench, RadioStep::Connect),
        Action::WaitInterfaceUp => radio_reply(bench, RadioStep::WaitInterfaceUp),
        Action::ReadNameservers => {
            bench.nameserver_reads += 1;
            match bench.nameservers.clone() {
                Some((primary, secondary)) => Reply::Nameservers(primary, secondary),
                None => Reply::Failed("no name servers".to_string()),
            }
        }
        Action::StartSync(_) => {
            bench.sync_starts += 1;
            if bench.sync_start_fails {
                Reply::Failed("sntp taken".to_string())
            } else {
                Reply::Done
            }
        }
        Action::PollSync => {
            bench.polls += 1;
            if bench.polls > bench.pending_polls {
                Reply::Status(SyncStatus::Completed)
            } else {
                Reply::Status(SyncStatus::InProgress)
            }
        }
        Action::Sleep(seconds) => {
            assert_eq!(seconds, 1);
            bench.sleeps += 1;
            Reply::Done
        }
        Action::TakeSnapshot => {
            bench.snapshots += 1;
            Reply::Timestamp(bench.timestamp.clone())
        }
        Action::Fetch(url) => {
            bench.fetches.push(url.to_string());
            match bench.body.clone() {
                Ok(body) => Reply::Body(body),
                Err(cause) => Reply::Failed(cause),
            }
        }
        Action::Log(line) => {
            bench.log.push(line.text());
            Reply::Done
        }
    }
}

/// Runs the sequence to its end as the program does: perform, reply, step.
fn run_to_end(ssid: &str, passphrase: &str, bench: &mut Bench) -> Result<(), String> {
    let mut run = Sequencer::new(ssid, passphrase);
    for _ in 0..10_000 {
        let phase = run.current_phase();
        if bench.phases.last() != Some(&phase) {
            bench.phases.push(phase);
        }
        let reply = match run.directive() {
            Directive::Perform(action) => perform(bench, action),
            Directive::Succeed => return Ok(()),
            Directive::Fail(error) => return Err(error.message()),
        };
        run = run.step(reply);
    }
    panic!("the run did not end");
}

#[test]
fn a_run_with_every_collaborator_succeeding_reaches_done() {
    let mut bench = bench();
    assert_eq!(run_to_end("home", "secret", &mut bench), Ok(()));
    assert_eq!(
        bench.phases,
        vec![Phase::Init, Phase::WifiUp, Phase::TimeSynced, Phase::Fetched, Phase::Done]
    );
    assert_eq!(bench.configured, vec![("home".to_string(), "secret".to_string())]);
    assert_eq!(
        bench.radio_invoked,
        vec![RadioStep::Configure, RadioStep::Start, RadioStep::Connect, RadioStep::WaitInterfaceUp]
    );
    assert_eq!(bench.nameserver_reads, 1);
    assert_eq!(bench.sync_starts, 1);
    assert_eq!(bench.polls, 4);
    assert_eq!(bench.sleeps, 3);
    assert_eq!(bench.snapshots, 1);
    assert_eq!(bench.fetches, vec!["http://example.com".to_string()]);
    assert_eq!(
        bench.log,
        vec![
            "nameservers 192.168.4.1, 1.1.1.1".to_string(),
            "ntp syncing completed, current time: 14-Nov-2023 22:13:20".to_string(),
            "hello".to_string(),
            "complete".to_string(),
        ]
    );
}

#[test]
fn a_radio_that_fails_at_connect_fails_the_run() {
    let mut bench = bench();
    bench.radio_fails_at = Some(RadioStep::Connect);
    let outcome = run_to_end("home", "secret", &mut bench);
    let message = outcome.unwrap_err();
    assert!(message.contains("couldn't connect"));
    assert_eq!(message, "wifi couldn't connect: radio fault");
    assert_eq!(bench.phases, vec![Phase::Init, Phase::Failed]);
    assert_eq!(
        bench.radio_invoked,
        vec![RadioStep::Configure, RadioStep::Start, RadioStep::Connect]
    );
    assert_eq!(bench.nameserver_reads, 0);
    assert_eq!(bench.sync_starts, 0);
    assert_eq!(bench.polls, 0);
    assert_eq!(bench.sleeps, 0);
    assert_eq!(bench.snapshots, 0);
    assert!(bench.fetches.is_empty());
    assert!(bench.log.is_empty());
}

#[test]
fn a_radio_that_fails_at_start_fails_the_run() {
    let mut bench = bench();
    bench.radio_fails_at = Some(RadioStep::Start);
    assert_eq!(
        run_to_end("home", "secret", &mut bench),
        Err("wifi couldn't start: radio fault".to_string())
    );
    assert_eq!(bench.radio_invoked, vec![RadioStep::Configure, RadioStep::Start]);
    assert_eq!(bench.sync_starts, 0);
    assert!(bench.fetches.is_empty());
}

#[test]
fn an_interface_that_does_not_come_up_fails_the_run() {
    let mut bench = bench();
    bench.radio_fails_at = Some(RadioStep::WaitInterfaceUp);
    assert_eq!(
        run_to_end("home", "secret", &mut bench),
        Err("wifi netif_up failed: radio fault".to_string())
    );
    assert_eq!(bench.radio_invoked.len(), 4);
    assert_eq!(bench.sync_starts, 0);
    assert!(bench.fetches.is_empty());
}

#[test]
fn credentials_over_the_limit_fail_the_run_before_any_radio_operation() {
    let mut bench = bench();
    let long_ssid = "s".repeat(33);
    assert_eq!(run_to_end(&long_ssid, "secret", &mut bench), Err("invalid ssid".to_string()));
    assert_eq!(bench.phases, vec![Phase::Failed]);
    assert!(bench.radio_invoked.is_empty());
    assert!(bench.configured.is_empty());
    assert_eq!(bench.sync_starts, 0);
    assert!(bench.fetches.is_empty());
    assert!(bench.log.is_empty());

    let mut bench = self::bench();
    let long_passphrase = "p".repeat(65);
    assert_eq!(
        run_to_end("home", &long_passphrase, &mut bench),
        Err("invalid password".to_string())
    );
    assert!(bench.radio_invoked.is_empty());
    assert_eq!(bench.sync_starts, 0);
    assert!(bench.fetches.is_empty());
}

#[test]
fn new_on_invalid_credentials_is_failed_with_the_config_error() {
    let long_ssid = "s".repeat(33);
    let run = Sequencer::new(&long_ssid, "secret");
    assert_eq!(
        run,
        Sequencer::Failed(RunError::Config(ConfigError { field: CredentialField::Ssid }))
    );
    assert_eq!(run.current_phase(), Phase::Failed);
    assert_eq!(run.connectivity_state(), ConnectivityState::Down);
    let long_passphrase = "p".repeat(65);
    assert_eq!(
        Sequencer::new("home", &long_passphrase),
        Sequencer::Failed(RunError::Config(ConfigError { field: CredentialField::Passphrase }))
    );
}

#[test]
fn a_time_sync_client_that_cannot_start_fails_the_run() {
    let mut bench = bench();
    bench.sync_start_fails = true;
    assert_eq!(
        run_to_end("home", "secret", &mut bench),
        Err("couldn't update time: sntp taken".to_string())
    );
    assert_eq!(bench.phases, vec![Phase::Init, Phase::WifiUp, Phase::Failed]);
    assert_eq!(bench.polls, 0);
    assert!(bench.fetches.is_empty());
    assert_eq!(bench.log, vec!["nameservers 192.168.4.1, 1.1.1.1".to_string()]);
}

#[test]
fn a_failed_fetch_fails_the_run() {
    let mut bench = bench();
    bench.body = Err("connection reset".to_string());
    assert_eq!(
        run_to_end("home", "secret", &mut bench),
        Err("couldn't download file: connection reset".to_string())
    );
    assert_eq!(bench.phases, vec![Phase::Init, Phase::WifiUp, Phase::TimeSynced, Phase::Failed]);
    assert_eq!(bench.fetches.len(), 1);
    assert_eq!(bench.log.len(), 2);
}

#[test]
fn a_time_that_cannot_be_formatted_does_not_fail_the_run() {
    let mut bench = bench();
    bench.timestamp = None;
    assert_eq!(run_to_end("home", "secret", &mut bench), Ok(()));
    assert_eq!(
        bench.log,
        vec![
            "nameservers 192.168.4.1, 1.1.1.1".to_string(),
            "ntp syncing completed, current time: unknown".to_string(),
            "hello".to_string(),
            "complete".to_string(),
        ]
    );
}

#[test]
fn name_servers_that_cannot_be_read_do_not_fail_the_run() {
    let mut bench = bench();
    bench.nameservers = None;
    assert_eq!(run_to_end("home", "secret", &mut bench), Ok(()));
    assert_eq!(bench.nameserver_reads, 1);
    assert_eq!(bench.log.len(), 3);
    assert_eq!(bench.log[2], "complete");
}

#[test]
fn the_clock_is_not_touched_before_the_interface_is_up() {
    let mut run = Sequencer::new("home", "secret");
    let mut states = Vec::new();
    while run.current_phase() == Phase::Init {
        states.push(run.connectivity_state());
        let reply = match run.directive() {
            Directive::Perform(Action::ReadNameservers) => {
                Reply::Nameservers("a".to_string(), "b".to_string())
            }
            Directive::Perform(Action::StartSync(_))
            | Directive::Perform(Action::PollSync)
            | Directive::Perform(Action::TakeSnapshot)
            | Directive::Perform(Action::Fetch(_)) => panic!("asked too early"),
            _ => Reply::Done,
        };
        run = run.step(reply);
    }
    assert_eq!(
        states,
        vec![
            ConnectivityState::Down,
            ConnectivityState::Starting,
            ConnectivityState::Connecting,
            ConnectivityState::Associated,
            ConnectivityState::InterfaceUp,
            ConnectivityState::InterfaceUp,
        ]
    );
    assert_eq!(run.current_phase(), Phase::WifiUp);
    assert_eq!(run.connectivity_state(), ConnectivityState::InterfaceUp);
    assert!(matches!(run.directive(), Directive::Perform(Action::StartSync(_))));
}

#[test]
fn a_finished_run_stays_finished() {
    assert_eq!(Sequencer::Done.step(Reply::Failed("late".to_string())), Sequencer::Done);
    assert_eq!(Sequencer::Done.directive(), Directive::Succeed);
    let failed = Sequencer::Failed(RunError::Fetch(FetchError { cause: None }));
    let still = Sequencer::Failed(RunError::Fetch(FetchError { cause: None })).step(Reply::Done);
    assert_eq!(still, failed);
    assert!(matches!(still.directive(), Directive::Fail(_)));
}

#[test]
fn completion_is_logged_before_the_run_is_done() {
    let run = Sequencer::Fetched;
    match run.directive() {
        Directive::Perform(Action::Log(line)) => assert_eq!(line.text(), "complete"),
        other => panic!("unexpected directive {:?}", other),
    }
    assert_eq!(run.step(Reply::Done), Sequencer::Done);
}

#[test]
fn run_error_messages_name_the_failing_step_only() {
    assert_eq!(
        RunError::Config(ConfigError { field: CredentialField::Ssid }).message(),
        "invalid ssid"
    );
    assert_eq!(
        RunError::Connectivity(ConnectivityError {
            step: RadioStep::Connect,
            cause: Some("no ap".to_string()),
        })
        .message(),
        "wifi couldn't connect: no ap"
    );
    assert_eq!(
        RunError::Sync(SyncError { cause: Some("busy".to_string()) }).message(),
        "couldn't update time: busy"
    );
    assert_eq!(
        RunError::Fetch(FetchError { cause: Some("dns".to_string()) }).message(),
        "couldn't download file: dns"
    );
}

#[test]
fn connectivity_of_a_failed_run_stays_where_it_failed() {
    let failed_at = |step| {
        Sequencer::Failed(RunError::Connectivity(ConnectivityError { step, cause: None }))
            .connectivity_state()
    };
    assert_eq!(failed_at(RadioStep::Configure), ConnectivityState::Down);
    assert_eq!(failed_at(RadioStep::Start), ConnectivityState::Starting);
    assert_eq!(failed_at(RadioStep::Connect), ConnectivityState::Connecting);
    assert_eq!(failed_at(RadioStep::WaitInterfaceUp), ConnectivityState::Associated);
    assert_eq!(
        Sequencer::Failed(RunError::Sync(SyncError { cause: None })).connectivity_state(),
        ConnectivityState::InterfaceUp
    );
}
