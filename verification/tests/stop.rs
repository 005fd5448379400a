use idvs::procedure::{Action, Answer};
use idvs::protocol::Exchange;
use idvs::stop::Stop;

const CONF: &str = "/home/u/.config/pipewire/pipewire.conf.d/idvs-dante.conf";

fn words(list: &[&str]) -> Vec<String> {
    list.iter().map(|w| w.to_string()).collect()
}

fn systemctl(args: &[&str]) -> Action {
    Action::Run { program: "systemctl".to_string(), args: words(args) }
}

fn run(nodes_written: bool, reply: Option<Exchange>, removable: bool) -> (Vec<Action>, Vec<String>) {
    let (mut stop, mut lines) = Stop::begin(nodes_written);
    let mut reply = Some(reply);
    let mut actions = Vec::new();
    while !stop.is_finished() {
        let action = stop.action();
        let answer = match &action {
            Action::Send(_) => Answer::Reply(reply.take().unwrap()),
            Action::ReadHome => Answer::Text(Some("/home/u".to_string())),
            Action::RemoveFile(_) => {
                Answer::Outcome(if removable { None } else { Some("denied".to_string()) })
            }
            Action::Run { .. } => Answer::Done,
            _ => panic!("unexpected action"),
        };
        assert!(action.accepts(&answer));
        lines.extend(stop.advance(&answer));
        actions.push(action);
        assert!(actions.len() <= 5);
    }
    assert_eq!(stop.action(), Action::Nothing);
    (actions, lines)
}

fn ok() -> Option<Exchange> {
    Some(Exchange::Line("OK\n".to_string()))
}

#[test]
fn stop_removes_the_nodes_and_restarts_pipewire() {
    let (actions, lines) = run(true, ok(), true);
    assert_eq!(
        actions,
        vec![
            Action::Send("STOP_STATIME".to_string()),
            Action::ReadHome,
            Action::RemoveFile(CONF.to_string()),
            systemctl(&["--user", "daemon-reload"]),
            systemctl(&["--user", "restart", "pipewire"]),
        ]
    );
    assert_eq!(
        lines,
        words(&[
            "Stopping statime...",
            "statime stopped",
            "Removed PipeWire Dante config, restarting PipeWire...",
            "PipeWire restarted",
        ])
    );
}

#[test]
fn stop_leaves_pipewire_alone_where_no_nodes_were_written() {
    let (actions, lines) = run(false, ok(), true);
    assert_eq!(actions, vec![Action::Send("STOP_STATIME".to_string())]);
    assert_eq!(lines, words(&["Stopping statime...", "statime stopped"]));
}

#[test]
fn stop_does_not_restart_where_the_nodes_stay() {
    let (actions, lines) = run(true, ok(), false);
    assert_eq!(actions.len(), 3);
    assert_eq!(lines, words(&["Stopping statime...", "statime stopped"]));
}

#[test]
fn stop_goes_on_without_a_helper() {
    let (actions, lines) = run(true, None, true);
    assert_eq!(actions.len(), 5);
    assert_eq!(
        lines[1],
        "Warning: root helper not running — statime may still be running."
    );
}

#[test]
fn stop_takes_any_reply_for_an_end_but_reports_a_lost_helper() {
    let (_, lines) = run(false, Some(Exchange::Line("ERR unknown command\n".to_string())), true);
    assert_eq!(lines[1], "statime stopped");
    let (_, lines) = run(false, Some(Exchange::WriteFailed("broken pipe".to_string())), true);
    assert_eq!(lines[1], "Warning: STOP_STATIME failed: helper write: broken pipe");
}
