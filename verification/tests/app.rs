use idvs::app::{
    channel_choices, channels_label, latency_choices, latency_label, state_label, App, Button,
    ButtonFace, Row, Tone,
};
use idvs::config::Config;
use idvs::network::{Ipv4, NetworkInterface};
use idvs::ptp::PtpStatus;
use idvs::worker::{WorkerCmd, WorkerEvent, WorkerState};

fn window() -> App {
    App::new(
        Config::initial(None, Some("host")),
        vec![
            NetworkInterface { name: "eth0".to_string(), ip: Some(Ipv4 { a: 10, b: 0, c: 0, d: 7 }) },
            NetworkInterface { name: "wlan0".to_string(), ip: None },
        ],
    )
}

fn in_state(state: WorkerState) -> App {
    let mut app = window();
    app.receive(WorkerEvent::StateChanged(state));
    app
}

fn on() -> WorkerState {
    WorkerState::Running { statime_pid: 42 }
}

fn every_state() -> Vec<WorkerState> {
    vec![
        WorkerState::Idle,
        WorkerState::StartingStatime,
        WorkerState::WaitingForClock,
        WorkerState::ConfiguringAlsa,
        WorkerState::AddingPipeWireNode,
        on(),
        WorkerState::Stopping,
        WorkerState::Error("oh".to_string()),
    ]
}

#[test]
fn window_starts_out_idle() {
    let app = window();
    assert_eq!(app.state, WorkerState::Idle);
    assert_eq!(app.logs, Vec::<String>::new());
    assert!(!app.ptp.has_data);
    assert!(!app.show_settings && !app.show_log && !app.show_about && !app.pending_close);
    assert!(!app.is_running());
    assert!(!app.is_busy());
}

#[test]
fn log_drops_its_oldest_lines() {
    let mut app = window();
    for n in 0..2000 {
        app.receive(WorkerEvent::Log(format!("{}", n)));
    }
    assert_eq!(app.logs.len(), 2000);
    app.receive(WorkerEvent::Log("2000".to_string()));
    assert_eq!(app.logs.len(), 1501);
    assert_eq!(app.logs[0], "500");
    assert_eq!(app.logs[1500], "2000");
}

#[test]
fn events_are_taken_in_turn() {
    let mut app = window();
    let status = PtpStatus::new(5, 6, Some(1));
    app.drain_events(vec![
        WorkerEvent::Log("a".to_string()),
        WorkerEvent::StateChanged(WorkerState::StartingStatime),
        WorkerEvent::PtpStatus(status),
        WorkerEvent::StateChanged(on()),
        WorkerEvent::Log("b".to_string()),
    ]);
    assert_eq!(app.logs, vec!["a", "b"]);
    assert_eq!(app.state, on());
    assert_eq!(app.ptp, status);
    assert_eq!(app.config, Config::initial(None, Some("host")));
}

#[test]
fn start_uses_the_only_rate_and_clears_the_window() {
    let mut app = window();
    app.config.sample_rate = 96000;
    app.receive(WorkerEvent::Log("old".to_string()));
    app.receive(WorkerEvent::PtpStatus(PtpStatus::new(5, 6, Some(1))));
    let cmd = app.start();
    assert_eq!(app.config.sample_rate, 48000);
    assert_eq!(cmd, WorkerCmd::Start(app.config.clone()));
    assert_eq!(app.logs, Vec::<String>::new());
    assert_eq!(app.ptp, PtpStatus::default());
    assert_eq!(app.state, WorkerState::Idle);
    assert_eq!(app.stop(), WorkerCmd::Stop);
}

#[test]
fn button_does_what_it_says() {
    let shown = |state: WorkerState| in_state(state).button();
    let button = |face: ButtonFace, enabled: bool| Button { face, enabled };
    assert_eq!(shown(WorkerState::Idle), button(ButtonFace::Start, true));
    assert_eq!(shown(WorkerState::Error("e".to_string())), button(ButtonFace::Start, true));
    assert_eq!(shown(on()), button(ButtonFace::Stop, true));
    assert_eq!(shown(WorkerState::Stopping), button(ButtonFace::Stop, false));
    assert_eq!(shown(WorkerState::StartingStatime), button(ButtonFace::Starting, false));
    assert_eq!(shown(WorkerState::AddingPipeWireNode), button(ButtonFace::Starting, false));
    assert_eq!(in_state(on()).press_button(), WorkerCmd::Stop);
    let mut app = window();
    assert_eq!(app.press_button(), WorkerCmd::Start(app.config.clone()));
    assert_eq!(ButtonFace::Start.text(), "▶  Start");
    assert_eq!(ButtonFace::Starting.text(), "Starting…");
    assert_eq!(ButtonFace::Stop.text(), "■  Stop");
}

#[test]
fn close_waits_for_the_end() {
    let mut app = in_state(on());
    let frame = app.frame(true);
    assert!(frame.cancel_close && !frame.close && frame.repaint);
    assert_eq!(frame.command, Some(WorkerCmd::Stop));
    assert!(app.pending_close);
    app.receive(WorkerEvent::StateChanged(WorkerState::Stopping));
    // Asked again, the window does not stop twice.
    let frame = app.frame(true);
    assert!(frame.cancel_close && !frame.close);
    assert_eq!(frame.command, None);
    app.receive(WorkerEvent::StateChanged(WorkerState::Idle));
    let frame = app.frame(false);
    assert!(!frame.cancel_close && frame.close && frame.repaint);
    assert_eq!(frame.command, None);
}

#[test]
fn close_of_an_idle_window_goes_ahead() {
    for state in [WorkerState::Idle, WorkerState::Error("e".to_string())] {
        let mut app = in_state(state);
        let frame = app.frame(true);
        assert!(!frame.cancel_close && !frame.close && !frame.repaint);
        assert_eq!(frame.command, None);
        assert!(!app.pending_close);
    }
}

#[test]
fn frames_repaint_while_something_happens() {
    assert!(in_state(on()).frame(false).repaint);
    assert!(in_state(WorkerState::WaitingForClock).frame(false).repaint);
    assert!(!window().frame(false).repaint);
}

#[test]
fn badges_tell_the_state() {
    let badges: Vec<(&str, Tone)> =
        every_state().into_iter().map(|s| in_state(s).badge()).collect();
    assert_eq!(
        badges,
        vec![
            ("Stopped", Tone::DarkGray),
            ("Starting statime...", Tone::Gold),
            ("Waiting for clock sync...", Tone::Gold),
            ("Configuring ALSA...", Tone::Gold),
            ("Adding PipeWire node...", Tone::Gold),
            ("Running (waiting for clock...)", Tone::Gold),
            ("Stopping...", Tone::Gold),
            ("Error", Tone::Red),
        ]
    );
    let mut app = in_state(on());
    app.receive(WorkerEvent::PtpStatus(PtpStatus::new(0, 0, None)));
    assert_eq!(app.badge(), ("Running (Syncing...)", Tone::Gold));
    app.receive(WorkerEvent::PtpStatus(PtpStatus::new(0, 0, Some(1))));
    assert_eq!(app.badge(), ("Live  (Clock Synced)", Tone::Green));
}

#[test]
fn progress_is_shown_while_busy() {
    let labels = |app: App| (state_label(&app.state), app.progress());
    let shown: Vec<(&str, Option<&str>)> =
        every_state().into_iter().map(|s| labels(in_state(s))).collect();
    assert_eq!(
        shown,
        vec![
            ("", None),
            ("Starting statime...", Some("Starting statime...")),
            ("Waiting for clock sync...", Some("Waiting for clock sync...")),
            ("Configuring ALSA...", Some("Configuring ALSA...")),
            ("Adding PipeWire node...", Some("Adding PipeWire node...")),
            ("", None),
            ("Stopping...", Some("Stopping...")),
            ("", None),
        ]
    );
}

#[test]
fn rows_show_what_is_known() {
    assert_eq!(window().rows(), vec![]);
    assert_eq!(
        in_state(on()).rows(),
        vec![Row::ClockAwaited, Row::AlsaDevice, Row::AlsaPlugDevice]
    );
    let mut app = in_state(on());
    app.receive(WorkerEvent::PtpStatus(PtpStatus::new(5, 6, Some(1))));
    assert_eq!(
        app.rows(),
        vec![Row::ClockOffset(5), Row::NetworkDelay(6), Row::AlsaDevice, Row::AlsaPlugDevice]
    );
    app.receive(WorkerEvent::StateChanged(WorkerState::Idle));
    assert_eq!(app.rows(), vec![Row::ClockOffset(5), Row::NetworkDelay(6)]);
    let shown: Vec<(&str, Option<&str>)> = [
        Row::ClockOffset(5),
        Row::NetworkDelay(6),
        Row::ClockAwaited,
        Row::AlsaDevice,
        Row::AlsaPlugDevice,
    ]
    .iter()
    .map(|r| (r.label(), r.value()))
    .collect();
    assert_eq!(
        shown,
        vec![
            ("Clock Offset:", None),
            ("Network Delay:", None),
            ("Clock:", Some("Waiting for sync...")),
            ("ALSA Device:", Some("dante")),
            ("ALSA plug device:", Some("dante_plug")),
        ]
    );
}

#[test]
fn usage_is_shown_while_running() {
    assert_eq!(window().usage(), Vec::<String>::new());
    let mut app = in_state(on());
    assert_eq!(
        app.usage(),
        vec![
            "ALSA: use device name 'dante' or 'dante_plug'",
            "PipeWire: sink 'host-dante' visible in audio router",
        ]
    );
    app.config.use_pipewire = false;
    assert_eq!(app.usage(), vec!["ALSA: use device name 'dante' or 'dante_plug'"]);
}

#[test]
fn errors_are_shown() {
    assert_eq!(window().error(), None);
    assert_eq!(
        in_state(WorkerState::Error("oh".to_string())).error(),
        Some(&"oh".to_string())
    );
}

#[test]
fn interfaces_are_chosen() {
    let mut app = window();
    assert_eq!(app.interface_text(), "Select interface...");
    app.select_interface("eth0");
    assert_eq!(app.config.interface, "eth0");
    assert_eq!(app.interface_text(), "eth0 (10.0.0.7)");
    app.select_interface("wlan0");
    assert_eq!(app.interface_text(), "wlan0 (no IPv4)");
    app.select_interface("gone0");
    assert_eq!(app.interface_text(), "gone0");
}

#[test]
fn channels_are_chosen() {
    let mut app = window();
    assert_eq!(channel_choices(), vec![8, 16, 32, 64]);
    assert_eq!(channels_label(2, 2), "2×2");
    assert_eq!(channels_label(8, 16), "8×16");
    assert!(!app.channels_chosen(16));
    app.choose_channels(16);
    assert_eq!((app.config.tx_channels, app.config.rx_channels), (16, 16));
    assert!(app.channels_chosen(16));
    app.config.rx_channels = 8;
    assert!(!app.channels_chosen(16));
}

#[test]
fn latencies_are_chosen() {
    let mut app = window();
    assert_eq!(
        latency_choices(),
        vec![
            1_000_000, 2_000_000, 3_000_000, 4_000_000, 6_000_000, 10_000_000, 20_000_000,
            40_000_000
        ]
    );
    let labels: Vec<String> = latency_choices().into_iter().map(latency_label).collect();
    assert_eq!(
        labels,
        vec!["1 ms", "2 ms", "3 ms", "4 ms", "6 ms", "10 ms", "20 ms", "40 ms"]
    );
    assert_eq!(latency_label(10_999_999), "10 ms");
    assert_eq!(latency_label(999_999), "0 ms");
    app.choose_latency(4_000_000);
    assert_eq!(app.config.latency_ns, 4_000_000);
}
