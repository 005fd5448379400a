use idvs::config::Config;
use idvs::network::{InterfaceAddress, Ipv4};
use idvs::procedure::{Action, Answer};
use idvs::protocol::Exchange;
use idvs::ptp::PtpStatus;
use idvs::worker::{
    logged, Worker, WorkerCmd, WorkerEvent, WorkerInput, WorkerState, WorkerTask,
};

fn config() -> Config {
    let mut config = Config::initial(Some("/opt"), Some("host"));
    config.interface = "eth0".to_string();
    config
}

fn line(text: &str) -> Answer {
    Answer::Reply(Some(Exchange::Line(format!("{}\n", text))))
}

/// What a world answers in which everything goes well.
fn well(action: &Action) -> Answer {
    match action {
        Action::CheckExists(path) => Answer::Flag(path.starts_with("/opt")),
        Action::CheckDirectory(_) => Answer::Flag(false),
        Action::ListAddresses => Answer::Addresses(Some(vec![InterfaceAddress {
            name: "eth0".to_string(),
            ip: Some(Ipv4 { a: 10, b: 0, c: 0, d: 7 }),
            loopback: false,
        }])),
        Action::WriteFile { .. } => Answer::Outcome(None),
        Action::RemoveFile(_) => Answer::Outcome(None),
        Action::Send(request) if request.starts_with("START_STATIME") => line("OK pid=42"),
        Action::Send(_) => line("OK"),
        Action::WaitForPath { .. } => Answer::Flag(true),
        Action::ReadHome => Answer::Text(Some("/home/u".to_string())),
        _ => Answer::Done,
    }
}

fn tell(worker: &mut Worker, input: WorkerInput, now_ms: u64) -> Vec<WorkerEvent> {
    assert!(worker.accepts(&input));
    worker.advance(input, now_ms)
}

/// Gives a command and performs the actions that it brings; the changes of state are returned.
fn command(worker: &mut Worker, cmd: WorkerCmd, now_ms: u64) -> Vec<WorkerState> {
    assert_eq!(worker.task(), WorkerTask::Receive);
    let mut events = tell(worker, WorkerInput::Command(Some(cmd)), now_ms);
    while let WorkerTask::Perform(action) = worker.task() {
        if action == Action::Send("STATIME_STATUS".to_string()) {
            break;
        }
        events.extend(tell(worker, WorkerInput::Answer(well(&action)), now_ms));
    }
    states(events)
}

fn states(events: Vec<WorkerEvent>) -> Vec<WorkerState> {
    events
        .into_iter()
        .filter_map(|e| match e {
            WorkerEvent::StateChanged(state) => Some(state),
            _ => None,
        })
        .collect()
}

/// A worker that runs statime and rests at time 0.
fn running() -> Worker {
    let mut worker = Worker::begin(true);
    command(&mut worker, WorkerCmd::Start(config()), 0);
    tell(&mut worker, WorkerInput::Answer(line("OK pid=42")), 0);
    tell(&mut worker, WorkerInput::Observation(None), 0);
    assert_eq!(worker.task(), WorkerTask::Rest { millis: 100 });
    worker
}

/// The worker rests until a time and finds no command.
fn round(worker: &mut Worker, now_ms: u64) -> WorkerTask {
    tell(worker, WorkerInput::Rested, now_ms);
    tell(worker, WorkerInput::Command(None), now_ms);
    worker.task()
}

#[test]
fn worker_rests_while_there_is_nothing_to_do() {
    let mut worker = Worker::begin(true);
    assert_eq!(worker.task(), WorkerTask::Receive);
    assert_eq!(tell(&mut worker, WorkerInput::Command(None), 0), vec![]);
    assert_eq!(round(&mut worker, 100_000), WorkerTask::Rest { millis: 100 });
}

#[test]
fn worker_shows_a_start() {
    let mut worker = Worker::begin(true);
    assert_eq!(
        command(&mut worker, WorkerCmd::Start(config()), 0),
        vec![WorkerState::StartingStatime, WorkerState::Running { statime_pid: 42 }]
    );
    assert_eq!(worker.statime_pid, Some(42));
    assert!(worker.nodes_written);
    // statime and the clock are looked at right away.
    let status = Action::Send("STATIME_STATUS".to_string());
    assert_eq!(worker.task(), WorkerTask::Perform(status));
    tell(&mut worker, WorkerInput::Answer(line("OK pid=42")), 0);
    assert_eq!(worker.task(), WorkerTask::Observe("/tmp/idvs-statime-obs.sock".to_string()));
}

#[test]
fn worker_shows_a_failed_start() {
    let mut worker = Worker::begin(true);
    let cmd = WorkerCmd::Start(Config::initial(None, None));
    assert_eq!(
        tell(&mut worker, WorkerInput::Command(Some(cmd)), 0),
        vec![
            WorkerEvent::StateChanged(WorkerState::StartingStatime),
            WorkerEvent::StateChanged(WorkerState::Error("No network interface selected".to_string())),
            WorkerEvent::Log("[error] No network interface selected".to_string()),
        ]
    );
    assert_eq!(worker.task(), WorkerTask::Rest { millis: 100 });
    assert_eq!(worker.statime_pid, None);
}

#[test]
fn worker_logs_what_a_stop_does() {
    let mut worker = Worker::begin(true);
    assert_eq!(
        tell(&mut worker, WorkerInput::Command(Some(WorkerCmd::Stop)), 0),
        vec![
            WorkerEvent::StateChanged(WorkerState::Stopping),
            WorkerEvent::Log("Stopping statime...".to_string()),
        ]
    );
    assert_eq!(
        tell(&mut worker, WorkerInput::Answer(line("OK")), 0),
        vec![
            WorkerEvent::Log("statime stopped".to_string()),
            WorkerEvent::StateChanged(WorkerState::Idle),
        ]
    );
}

#[test]
fn worker_forgets_what_it_stopped() {
    let mut worker = running();
    tell(&mut worker, WorkerInput::Rested, 100);
    assert_eq!(
        command(&mut worker, WorkerCmd::Stop, 10_000),
        vec![WorkerState::Stopping, WorkerState::Idle]
    );
    assert_eq!(worker.task(), WorkerTask::Rest { millis: 100 });
    assert_eq!(worker.statime_pid, None);
    assert_eq!(worker.observation_path, None);
    assert!(!worker.nodes_written);
    assert_eq!(round(&mut worker, 20_000), WorkerTask::Rest { millis: 100 });
}

#[test]
fn worker_watches_at_its_intervals() {
    let mut worker = running();
    assert_eq!(round(&mut worker, 999), WorkerTask::Rest { millis: 100 });
    let observe = WorkerTask::Observe("/tmp/idvs-statime-obs.sock".to_string());
    assert_eq!(round(&mut worker, 1000), observe);
    let status = PtpStatus::new(1, 2, Some(1));
    assert_eq!(
        tell(&mut worker, WorkerInput::Observation(Some(status)), 1400),
        vec![WorkerEvent::PtpStatus(status)]
    );
    // The clock is next due a second after it was read.
    assert_eq!(round(&mut worker, 2399), WorkerTask::Rest { millis: 100 });
    assert_eq!(round(&mut worker, 2400), observe);
    assert_eq!(tell(&mut worker, WorkerInput::Observation(None), 2400), vec![]);
    let ask = WorkerTask::Perform(Action::Send("STATIME_STATUS".to_string()));
    assert_eq!(round(&mut worker, 5000), ask);
    assert_eq!(tell(&mut worker, WorkerInput::Answer(line("OK pid=42")), 5000), vec![]);
    assert_eq!(worker.task(), observe);
}

#[test]
fn worker_notices_that_statime_is_gone() {
    let mut worker = running();
    round(&mut worker, 5000);
    assert_eq!(
        tell(&mut worker, WorkerInput::Answer(line("OK pid=none")), 5000),
        vec![
            WorkerEvent::Log("[statime] Process exited unexpectedly".to_string()),
            WorkerEvent::StateChanged(WorkerState::Error("statime exited unexpectedly".to_string())),
        ]
    );
    assert_eq!(worker.task(), WorkerTask::Rest { millis: 100 });
    assert_eq!(worker.statime_pid, None);
    // The nodes are still to be cleaned up.
    assert!(worker.nodes_written);
}

#[test]
fn worker_bears_a_helper_that_does_not_answer() {
    let mut worker = running();
    round(&mut worker, 5000);
    let lost = Answer::Reply(Some(Exchange::ReadFailed("reset".to_string())));
    assert_eq!(tell(&mut worker, WorkerInput::Answer(lost), 5000), vec![]);
    assert_eq!(worker.statime_pid, Some(42));
}

#[test]
fn worker_quits_the_helper_when_it_leaves() {
    let mut worker = Worker::begin(true);
    assert_eq!(tell(&mut worker, WorkerInput::Disconnected, 0), vec![]);
    assert_eq!(worker.task(), WorkerTask::Perform(Action::Send("QUIT".to_string())));
    assert_eq!(tell(&mut worker, WorkerInput::Answer(line("OK")), 0), vec![]);
    assert_eq!(worker.task(), WorkerTask::Exit);
}

#[test]
fn worker_leaves_at_once_without_a_helper() {
    let mut worker = Worker::begin(false);
    tell(&mut worker, WorkerInput::Disconnected, 0);
    assert_eq!(worker.task(), WorkerTask::Exit);
}

#[test]
fn worker_accepts_only_what_was_called_for() {
    let mut worker = Worker::begin(false);
    assert!(!worker.accepts(&WorkerInput::Rested));
    assert!(!worker.accepts(&WorkerInput::Observation(None)));
    tell(&mut worker, WorkerInput::Command(Some(WorkerCmd::Stop)), 0);
    assert!(!worker.accepts(&WorkerInput::Answer(line("OK"))));
    assert!(!worker.accepts(&WorkerInput::Answer(Answer::Done)));
    assert!(worker.accepts(&WorkerInput::Answer(Answer::Reply(None))));
}

#[test]
fn lines_become_events() {
    assert_eq!(
        logged(vec!["a".to_string(), "b".to_string()]),
        vec![WorkerEvent::Log("a".to_string()), WorkerEvent::Log("b".to_string())]
    );
}
