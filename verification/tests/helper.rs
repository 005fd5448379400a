use idvs::helper::{
    setup_path, termination_step, Helper, HelperEvent, HelperTask, Service, ServiceTask,
    Termination,
};

fn hear(helper: &mut Helper, line: &str) -> HelperTask {
    tell(helper, HelperEvent::Line(line.to_string()))
}

fn tell(helper: &mut Helper, event: HelperEvent) -> HelperTask {
    assert!(helper.accepts(&event));
    helper.advance(&event);
    helper.task()
}

fn answer(line: &str) -> HelperTask {
    HelperTask::Respond(line.to_string())
}

fn spawn(binary: &str, config: &str) -> HelperTask {
    HelperTask::Spawn {
        program: binary.to_string(),
        args: vec!["-c".to_string(), config.to_string()],
    }
}

#[test]
fn helper_answers_a_check() {
    let mut helper = Helper::begin();
    assert_eq!(helper.task(), HelperTask::ReadLine);
    assert_eq!(hear(&mut helper, "CHECK"), answer("OK"));
    assert_eq!(tell(&mut helper, HelperEvent::Success), HelperTask::ReadLine);
}

#[test]
fn helper_trims_its_lines() {
    let mut helper = Helper::begin();
    assert_eq!(hear(&mut helper, "  CHECK \r"), answer("OK"));
}

#[test]
fn helper_copies_the_plugin() {
    let mut helper = Helper::begin();
    let copy = HelperTask::Copy { source: "/a".to_string(), target: "/b".to_string() };
    assert_eq!(hear(&mut helper, "INSTALL_PLUGIN\t/a\t/b"), copy);
    assert_eq!(tell(&mut helper, HelperEvent::Success), answer("OK"));
    tell(&mut helper, HelperEvent::Success);
    assert_eq!(hear(&mut helper, "INSTALL_PLUGIN\t/a\t/b"), copy);
    assert_eq!(
        tell(&mut helper, HelperEvent::Failure("Permission denied".to_string())),
        answer("ERR Permission denied")
    );
}

#[test]
fn helper_starts_and_reports_statime() {
    let mut helper = Helper::begin();
    assert_eq!(hear(&mut helper, "STATIME_STATUS"), answer("OK pid=none"));
    tell(&mut helper, HelperEvent::Success);
    assert_eq!(hear(&mut helper, "START_STATIME\t/s\t/c"), spawn("/s", "/c"));
    assert_eq!(tell(&mut helper, HelperEvent::Process(42)), answer("OK pid=42"));
    assert_eq!(tell(&mut helper, HelperEvent::Success), HelperTask::ReadLine);
    assert_eq!(hear(&mut helper, "STATIME_STATUS"), HelperTask::Poll);
    assert_eq!(tell(&mut helper, HelperEvent::Running(true)), answer("OK pid=42"));
    tell(&mut helper, HelperEvent::Success);
    assert_eq!(hear(&mut helper, "STATIME_STATUS"), HelperTask::Poll);
    assert_eq!(tell(&mut helper, HelperEvent::Running(false)), answer("OK pid=none"));
    tell(&mut helper, HelperEvent::Success);
    assert_eq!(hear(&mut helper, "STATIME_STATUS"), answer("OK pid=none"));
}

#[test]
fn helper_replaces_a_running_statime() {
    let mut helper = Helper::begin();
    hear(&mut helper, "START_STATIME\t/s\t/c");
    tell(&mut helper, HelperEvent::Process(1));
    tell(&mut helper, HelperEvent::Success);
    assert_eq!(hear(&mut helper, "START_STATIME\t/s2\t/c2"), HelperTask::Terminate);
    assert_eq!(tell(&mut helper, HelperEvent::Success), spawn("/s2", "/c2"));
    assert_eq!(
        tell(&mut helper, HelperEvent::Failure("not found".to_string())),
        answer("ERR not found")
    );
    assert_eq!(helper.child, None);
}

#[test]
fn helper_stops_statime() {
    let mut helper = Helper::begin();
    assert_eq!(hear(&mut helper, "STOP_STATIME"), answer("OK"));
    tell(&mut helper, HelperEvent::Success);
    hear(&mut helper, "START_STATIME\t/s\t/c");
    tell(&mut helper, HelperEvent::Process(5));
    tell(&mut helper, HelperEvent::Success);
    assert_eq!(hear(&mut helper, "STOP_STATIME"), HelperTask::Terminate);
    assert_eq!(tell(&mut helper, HelperEvent::Success), answer("OK"));
    assert_eq!(helper.child, None);
}

#[test]
fn helper_refuses_what_it_does_not_know() {
    let mut helper = Helper::begin();
    assert_eq!(hear(&mut helper, "FORMAT"), answer("ERR unknown command"));
    tell(&mut helper, HelperEvent::Success);
    assert_eq!(hear(&mut helper, "START_STATIME\t/s"), answer("ERR missing arguments"));
    tell(&mut helper, HelperEvent::Success);
    assert_eq!(hear(&mut helper, "INSTALL_PLUGIN"), answer("ERR missing arguments"));
}

#[test]
fn helper_terminates_statime_before_it_quits() {
    let mut helper = Helper::begin();
    hear(&mut helper, "START_STATIME\t/s\t/c");
    tell(&mut helper, HelperEvent::Process(5));
    tell(&mut helper, HelperEvent::Success);
    assert_eq!(hear(&mut helper, "QUIT"), answer("OK"));
    assert_eq!(tell(&mut helper, HelperEvent::Success), HelperTask::Terminate);
    assert_eq!(tell(&mut helper, HelperEvent::Success), HelperTask::Exit);
}

#[test]
fn helper_quits_only_for_a_bare_quit() {
    let mut helper = Helper::begin();
    assert_eq!(hear(&mut helper, "QUIT\tnow"), answer("OK"));
    assert_eq!(tell(&mut helper, HelperEvent::Success), HelperTask::ReadLine);
    assert_eq!(hear(&mut helper, " QUIT "), answer("OK"));
    assert_eq!(tell(&mut helper, HelperEvent::Success), HelperTask::Exit);
}

#[test]
fn helper_leaves_at_the_end_of_the_connection() {
    let mut helper = Helper::begin();
    assert_eq!(tell(&mut helper, HelperEvent::End), HelperTask::Exit);
    let mut helper = Helper::begin();
    hear(&mut helper, "START_STATIME\t/s\t/c");
    tell(&mut helper, HelperEvent::Process(5));
    tell(&mut helper, HelperEvent::Success);
    assert_eq!(tell(&mut helper, HelperEvent::End), HelperTask::Terminate);
    assert_eq!(tell(&mut helper, HelperEvent::Success), HelperTask::Exit);
}

#[test]
fn helper_accepts_only_what_was_called_for() {
    let helper = Helper::begin();
    assert!(helper.accepts(&HelperEvent::End));
    assert!(!helper.accepts(&HelperEvent::Success));
    assert!(!helper.accepts(&HelperEvent::Running(true)));
    assert!(!helper.accepts(&HelperEvent::Process(1)));
}

#[test]
fn socket_gets_its_permissions_before_its_path() {
    let mut service = Service::begin("/tmp/s");
    let mut tasks = Vec::new();
    while service.task() != ServiceTask::Exit {
        tasks.push(service.task());
        assert_eq!(service.advance(None), None);
    }
    let setup = || "/tmp/s.setup".to_string();
    let socket = || "/tmp/s".to_string();
    assert_eq!(
        tasks,
        vec![
            ServiceTask::Remove(setup()),
            ServiceTask::Remove(socket()),
            ServiceTask::Bind(setup()),
            ServiceTask::SetPermissions { path: setup(), mode: 438 },
            ServiceTask::Rename { from: setup(), to: socket() },
            ServiceTask::Accept,
            ServiceTask::Serve,
            ServiceTask::Remove(socket()),
        ]
    );
    assert_eq!(setup_path("/tmp/s"), "/tmp/s.setup");
}

#[test]
fn service_ends_when_the_socket_cannot_be_bound() {
    let mut service = Service::begin("/tmp/s");
    assert_eq!(service.advance(Some("absent")), None);
    assert_eq!(service.advance(Some("absent")), None);
    assert_eq!(
        service.advance(Some("denied")),
        Some("idvs-helper: bind /tmp/s.setup: denied".to_string())
    );
    assert_eq!(service.task(), ServiceTask::Exit);
}

#[test]
fn service_cleans_up_when_the_socket_cannot_be_renamed() {
    let mut service = Service::begin("/tmp/s");
    for _ in 0..3 {
        service.advance(None);
    }
    assert_eq!(service.advance(Some("ignored")), None);
    assert_eq!(
        service.advance(Some("denied")),
        Some("idvs-helper: rename to /tmp/s: denied".to_string())
    );
    assert_eq!(service.task(), ServiceTask::Remove("/tmp/s.setup".to_string()));
    service.advance(None);
    assert_eq!(service.task(), ServiceTask::Exit);
}

#[test]
fn service_removes_the_socket_when_nobody_connects() {
    let mut service = Service::begin("/tmp/s");
    for _ in 0..5 {
        service.advance(None);
    }
    assert_eq!(service.task(), ServiceTask::Accept);
    assert_eq!(service.advance(Some("gone")), Some("idvs-helper: accept: gone".to_string()));
    assert_eq!(service.task(), ServiceTask::Remove("/tmp/s".to_string()));
}

#[test]
fn processes_get_three_seconds_to_end() {
    assert_eq!(termination_step(true, 0), Termination::Ended);
    assert_eq!(termination_step(true, 5000), Termination::Ended);
    assert_eq!(termination_step(false, 0), Termination::LookAgain { after_ms: 100 });
    assert_eq!(termination_step(false, 2999), Termination::LookAgain { after_ms: 100 });
    assert_eq!(termination_step(false, 3000), Termination::Kill);
}
