use idvs::protocol::{
    error_response, install_command, parse_command, pid_response, read_started_pid, start_command,
    Command, Exchange,
};

#[test]
fn commands_are_parsed() {
    assert_eq!(parse_command("CHECK"), Command::Check);
    assert_eq!(parse_command("STOP_STATIME"), Command::StopStatime);
    assert_eq!(parse_command("STATIME_STATUS"), Command::StatimeStatus);
    assert_eq!(parse_command("QUIT"), Command::Quit);
    assert_eq!(
        parse_command("INSTALL_PLUGIN\t/a b\t/c"),
        Command::InstallPlugin { source: "/a b".to_string(), target: "/c".to_string() }
    );
    assert_eq!(
        parse_command("START_STATIME\t/bin/statime\t/tmp/x\ty"),
        Command::StartStatime { binary: "/bin/statime".to_string(), config: "/tmp/x\ty".to_string() }
    );
}

#[test]
fn arguments_may_be_missing_or_too_many() {
    assert_eq!(parse_command("INSTALL_PLUGIN"), Command::MissingArguments);
    assert_eq!(parse_command("INSTALL_PLUGIN\ta"), Command::MissingArguments);
    assert_eq!(parse_command("START_STATIME\ta"), Command::MissingArguments);
    assert_eq!(parse_command("CHECK\tx\ty\tz"), Command::Check);
    assert_eq!(
        parse_command("START_STATIME\t\t"),
        Command::StartStatime { binary: String::new(), config: String::new() }
    );
}

#[test]
fn other_lines_are_unknown() {
    for line in ["", "check", "CHECK ", "STOP", "\tCHECK", "QUITE"] {
        assert_eq!(parse_command(line), Command::Unknown, "{:?}", line);
    }
}

#[test]
fn commands_are_understood_as_they_are_written() {
    assert_eq!(install_command("/a", "/b"), "INSTALL_PLUGIN\t/a\t/b");
    assert_eq!(start_command("/a", "/b"), "START_STATIME\t/a\t/b");
    assert_eq!(
        parse_command(&install_command("/path with space/x.so", "/usr/lib/x.so")),
        Command::InstallPlugin {
            source: "/path with space/x.so".to_string(),
            target: "/usr/lib/x.so".to_string()
        }
    );
    assert_eq!(
        parse_command(&start_command("/opt/statime", "/tmp/c.toml")),
        Command::StartStatime { binary: "/opt/statime".to_string(), config: "/tmp/c.toml".to_string() }
    );
}

#[test]
fn process_ids_are_read_back() {
    for pid in [0u32, 1, 4711, u32::MAX] {
        assert_eq!(read_started_pid(&pid_response(pid)), Ok(pid));
        assert_ne!(pid_response(pid), "OK pid=none");
    }
    assert_eq!(pid_response(4711), "OK pid=4711");
}

#[test]
fn bad_responses_are_reported() {
    assert_eq!(
        read_started_pid("OK pid=none"),
        Err("Bad PID in helper response: OK pid=none".to_string())
    );
    assert_eq!(
        read_started_pid("OK pid=4294967296"),
        Err("Bad PID in helper response: OK pid=4294967296".to_string())
    );
    assert_eq!(
        read_started_pid("ERR No such file"),
        Err("Helper failed to start statime: ERR No such file".to_string())
    );
    assert_eq!(read_started_pid(""), Err("Helper failed to start statime: ".to_string()));
    assert_eq!(error_response("no"), "ERR no");
}

#[test]
fn exchanges_are_trimmed_or_explained() {
    assert_eq!(Exchange::Line("OK\n".to_string()).response(), Ok("OK".to_string()));
    assert_eq!(Exchange::Line(String::new()).response(), Ok(String::new()));
    assert_eq!(
        Exchange::WriteFailed("broken pipe".to_string()).response(),
        Err("helper write: broken pipe".to_string())
    );
    assert_eq!(
        Exchange::ReadFailed("timed out".to_string()).response(),
        Err("helper read: timed out".to_string())
    );
}

#[test]
fn commands_and_responses_are_single_lines() {
    for line in [
        install_command("/a", "/b"),
        start_command("/a", "/b"),
        pid_response(7),
        error_response("No such file or directory (os error 2)"),
    ] {
        assert_eq!(line.lines().count(), 1);
    }
}

#[test]
fn a_path_with_a_tab_is_not_understood_as_it_was_meant() {
    assert_eq!(
        parse_command(&start_command("/a\tb", "/c")),
        Command::StartStatime { binary: "/a".to_string(), config: "b\t/c".to_string() }
    );
}
