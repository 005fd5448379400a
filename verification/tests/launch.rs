use idvs::launch::{find_helper_argument, socket_path, Launch};
use idvs::procedure::{wait_step, Action, Answer, Wait};
use idvs::protocol::Exchange;

const UNAVAILABLE: &str = "Warning: root helper unavailable — Start will fail.";

fn words(list: &[&str]) -> Vec<String> {
    list.iter().map(|w| w.to_string()).collect()
}

fn tell(launch: &mut Launch, answer: Answer) -> Vec<String> {
    assert!(launch.accepts(&answer));
    launch.advance(&answer)
}

fn reply(line: &str) -> Answer {
    Answer::Reply(Some(Exchange::Line(line.to_string())))
}

/// A launch that has come past its first `n` stages.
fn past(n: usize) -> Launch {
    let (mut launch, _) = Launch::begin("/tmp/h.sock".to_string());
    let answers = vec![
        Answer::Place(Ok("/opt/idvs/idvs".to_string())),
        Answer::Outcome(None),
        Answer::Flag(true),
        Answer::Outcome(None),
        Answer::Outcome(None),
    ];
    for answer in answers.into_iter().take(n) {
        assert_eq!(tell(&mut launch, answer), Vec::<String>::new());
    }
    launch
}

#[test]
fn launch_runs_to_the_handshake() {
    let (launch, lines) = Launch::begin("/tmp/h.sock".to_string());
    assert_eq!(
        lines,
        words(&["Launching root helper — an authentication dialog will appear..."])
    );
    assert_eq!(launch.action(), Action::LocateSelf);
    assert_eq!(
        past(1).action(),
        Action::Launch {
            program: "pkexec".to_string(),
            args: words(&["/opt/idvs/idvs", "--helper", "/tmp/h.sock"]),
        }
    );
    assert_eq!(
        past(2).action(),
        Action::WaitForPath { path: "/tmp/h.sock".to_string(), seconds: 30 }
    );
    assert_eq!(past(3).action(), Action::Connect("/tmp/h.sock".to_string()));
    assert_eq!(past(4).action(), Action::SplitConnection);
    assert_eq!(past(5).action(), Action::Send("CHECK".to_string()));
    assert_eq!(past(5).result(), None);
    let mut launch = past(5);
    assert_eq!(
        tell(&mut launch, reply("OK\n")),
        words(&["Root helper ready — no further authentication needed."])
    );
    assert_eq!(launch.result(), Some(true));
    assert_eq!(launch.action(), Action::Nothing);
}

#[test]
fn launch_gives_up_with_a_reason() {
    let failure = |e: &str| Answer::Outcome(Some(e.to_string()));
    let cases = vec![
        (0, Answer::Place(Err("gone".to_string())), "[helper] Cannot locate own binary: gone"),
        (1, failure("absent"), "[helper] pkexec launch failed: absent — is polkit installed?"),
        (
            2,
            Answer::Flag(false),
            "[helper] Timed out waiting for helper socket — authentication may have been denied.",
        ),
        (3, failure("refused"), "[helper] Connect failed: refused"),
        (4, failure("no more"), "[helper] Stream clone failed: no more"),
        (5, reply("ERR busy"), "[helper] Unexpected CHECK response: ERR busy"),
        (
            5,
            Answer::Reply(Some(Exchange::ReadFailed("reset".to_string()))),
            "[helper] CHECK failed: helper read: reset",
        ),
    ];
    for (n, answer, reason) in cases {
        let mut launch = past(n);
        assert_eq!(tell(&mut launch, answer), words(&[reason, UNAVAILABLE]));
        assert_eq!(launch.result(), Some(false));
    }
}

#[test]
fn launch_accepts_only_what_was_called_for() {
    assert!(!past(0).accepts(&Answer::Flag(true)));
    assert!(!past(5).accepts(&Answer::Reply(None)));
    assert!(past(5).accepts(&reply("")));
}

#[test]
fn helper_is_told_by_its_arguments() {
    assert_eq!(find_helper_argument(&words(&["idvs"])), None);
    assert_eq!(find_helper_argument(&words(&[])), None);
    assert_eq!(
        find_helper_argument(&words(&["idvs", "--helper", "/tmp/s"])),
        Some("/tmp/s".to_string())
    );
    assert_eq!(find_helper_argument(&words(&["idvs", "--helper"])), None);
    assert_eq!(
        find_helper_argument(&words(&["idvs", "-v", "--helper", "--helper", "/x"])),
        Some("--helper".to_string())
    );
}

#[test]
fn launched_program_serves_the_socket_of_its_launcher() {
    if let Action::Launch { args, .. } = past(1).action() {
        assert_eq!(find_helper_argument(&args), Some("/tmp/h.sock".to_string()));
    } else {
        panic!("nothing is launched");
    }
}

#[test]
fn socket_is_named_after_the_process() {
    assert_eq!(socket_path(4711), "/tmp/.idvs-helper-4711.sock");
}

#[test]
fn paths_are_waited_for_within_limits() {
    assert_eq!(wait_step(true, 0, 15), Wait::Found);
    assert_eq!(wait_step(false, 0, 15), Wait::LookAgain { after_ms: 250 });
    assert_eq!(wait_step(false, 14_999, 15), Wait::LookAgain { after_ms: 250 });
    assert_eq!(wait_step(true, 14_999, 15), Wait::Found);
    assert_eq!(wait_step(true, 15_000, 15), Wait::TimedOut);
    assert_eq!(wait_step(false, 0, 0), Wait::TimedOut);
    assert_eq!(wait_step(false, u64::MAX, u64::MAX), Wait::LookAgain { after_ms: 250 });
}

#[test]
fn sockets_of_different_processes_differ() {
    assert_ne!(socket_path(1), socket_path(11));
    assert_ne!(socket_path(0), socket_path(u32::MAX));
}
