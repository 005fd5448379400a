use idvs::config::Config;
use idvs::network::{InterfaceAddress, Ipv4};
use idvs::procedure::{Action, Answer};
use idvs::protocol::Exchange;
use idvs::start::{Start, Started};

const PLUGIN_64: &str = "/usr/lib64/alsa-lib/libasound_module_pcm_inferno.so";
const CONF: &str = "/home/u/.config/pipewire/pipewire.conf.d/idvs-dante.conf";
const OVERRIDE_DIR: &str = "/home/u/.config/systemd/user/pipewire.service.d";

fn config() -> Config {
    Config {
        interface: "eth0".to_string(),
        device_name: "dev".to_string(),
        tx_channels: 2,
        rx_channels: 4,
        sample_rate: 48000,
        latency_ns: 10_000_000,
        clock_path: "/tmp/clock".to_string(),
        observation_path: "/tmp/obs".to_string(),
        statime_bin: "/opt/statime".to_string(),
        inferno_so: "/opt/inferno.so".to_string(),
        use_pipewire: true,
    }
}

/// What a start finds in the outside world.
struct World {
    existing: Vec<&'static str>,
    directories: Vec<&'static str>,
    addresses: Option<Vec<InterfaceAddress>>,
    unwritable: Vec<&'static str>,
    sizes: Vec<(&'static str, u64)>,
    replies: Vec<Option<Exchange>>,
    clock_comes: bool,
    home: Option<&'static str>,
}

impl World {
    fn good() -> World {
        World {
            existing: vec!["/opt/statime", "/opt/inferno.so"],
            directories: vec!["/usr/lib64/alsa-lib"],
            addresses: Some(vec![InterfaceAddress {
                name: "eth0".to_string(),
                ip: Some(Ipv4 { a: 10, b: 0, c: 0, d: 7 }),
                loopback: false,
            }]),
            unwritable: vec![],
            sizes: vec![],
            replies: vec![line("OK"), line("OK pid=42")],
            clock_comes: true,
            home: Some("/home/u"),
        }
    }

    fn answer(&mut self, action: &Action) -> Answer {
        match action {
            Action::CheckExists(path) => Answer::Flag(self.existing.contains(&path.as_str())),
            Action::CheckDirectory(path) => Answer::Flag(self.directories.contains(&path.as_str())),
            Action::ListAddresses => Answer::Addresses(self.addresses.take()),
            Action::WriteFile { path, .. } => {
                Answer::Outcome(if self.unwritable.contains(&path.as_str()) {
                    Some("denied".to_string())
                } else {
                    None
                })
            }
            Action::RemoveFile(_) => Answer::Outcome(None),
            Action::CreateDirectories(_) => Answer::Done,
            Action::MeasureFile(path) => Answer::Size(
                self.sizes.iter().find(|(name, _)| name == path).map(|(_, size)| *size),
            ),
            Action::Send(_) => Answer::Reply(self.replies.remove(0)),
            Action::WaitForPath { .. } => Answer::Flag(self.clock_comes),
            Action::ReadHome => Answer::Text(self.home.map(|h| h.to_string())),
            Action::Run { .. } => Answer::Done,
            Action::Pause { .. } => Answer::Done,
            _ => panic!("unexpected action"),
        }
    }
}

fn line(text: &str) -> Option<Exchange> {
    Some(Exchange::Line(format!("{}\n", text)))
}

struct Run {
    actions: Vec<Action>,
    lines: Vec<String>,
    result: Result<Started, String>,
}

fn run(config: Config, mut world: World) -> Run {
    let mut start = Start::begin(config);
    let mut actions = Vec::new();
    let mut lines = Vec::new();
    loop {
        if let Some(result) = start.result() {
            assert_eq!(start.action(), Action::Nothing);
            return Run { actions, lines, result };
        }
        let action = start.action();
        let answer = world.answer(&action);
        assert!(action.accepts(&answer));
        lines.extend(start.advance(&answer));
        actions.push(action);
        assert!(actions.len() <= 32);
    }
}

fn error(config: Config, world: World) -> String {
    run(config, world).result.unwrap_err()
}

fn words(list: &[&str]) -> Vec<String> {
    list.iter().map(|w| w.to_string()).collect()
}

fn look(path: &str) -> Action {
    Action::CheckExists(path.to_string())
}

fn directory(path: &str) -> Action {
    Action::CheckDirectory(path.to_string())
}

fn systemctl(args: &[&str]) -> Action {
    Action::Run { program: "systemctl".to_string(), args: words(args) }
}

#[test]
fn start_does_everything_in_order() {
    let r = run(config(), World::good());
    let c = config();
    assert_eq!(
        r.actions,
        vec![
            look("/opt/statime"),
            look("/opt/inferno.so"),
            Action::ListAddresses,
            Action::WriteFile {
                path: "/tmp/idvs-statime.toml".to_string(),
                content: c.statime_config(),
            },
            look("/tmp/clock"),
            look("/tmp/obs"),
            look("/opt/inferno.so"),
            directory("/usr/lib/x86_64-linux-gnu/alsa-lib"),
            directory("/usr/lib/aarch64-linux-gnu/alsa-lib"),
            directory("/usr/lib/arm-linux-gnueabihf/alsa-lib"),
            directory("/usr/lib64/alsa-lib"),
            look(PLUGIN_64),
            Action::Send(format!("INSTALL_PLUGIN\t/opt/inferno.so\t{}", PLUGIN_64)),
            Action::Send("START_STATIME\t/opt/statime\t/tmp/idvs-statime.toml".to_string()),
            Action::WaitForPath { path: "/tmp/clock".to_string(), seconds: 15 },
            Action::ReadHome,
            Action::WriteFile {
                path: "/home/u/.asoundrc".to_string(),
                content: c.alsa_config("10.0.0.7"),
            },
            Action::ReadHome,
            look(&format!("{}/override.conf", OVERRIDE_DIR)),
            Action::CreateDirectories(OVERRIDE_DIR.to_string()),
            Action::WriteFile {
                path: format!("{}/override.conf", OVERRIDE_DIR),
                content: "[Service]\nSystemCallFilter=@clock\n".to_string(),
            },
            Action::CreateDirectories("/home/u/.config/pipewire/pipewire.conf.d".to_string()),
            Action::WriteFile {
                path: CONF.to_string(),
                content: idvs::pipewire::pipewire_dante_config(&c),
            },
            systemctl(&["--user", "daemon-reload"]),
            systemctl(&["--user", "restart", "pipewire"]),
            Action::Pause { seconds: 2 },
        ]
    );
    assert_eq!(
        r.result,
        Ok(Started {
            statime_pid: 42,
            observation_path: "/tmp/obs".to_string(),
            nodes_written: true
        })
    );
    assert_eq!(
        r.lines,
        words(&[
            "Wrote statime config to /tmp/idvs-statime.toml",
            &format!("Installing ALSA plugin to {}...", PLUGIN_64),
            "ALSA plugin installed successfully",
            "Starting statime on interface 'eth0'...",
            "statime started (PID 42)",
            "Waiting for PTP clock socket at '/tmp/clock'...",
            "PTP clock socket ready",
            "Writing ALSA configuration...",
            "ALSA config written to /home/u/.asoundrc",
            "Installed PipeWire clock syscall override",
            &format!("Wrote PipeWire Dante node config to {}", CONF),
            "Restarting PipeWire to apply config...",
            "PipeWire restarted",
            "--- Startup complete ---",
            "ALSA device: dante (or dante_plug for format conversion)",
            "PipeWire nodes: 'dev-sink' / 'dev-source' visible in audio mixer",
        ])
    );
}

#[test]
fn start_needs_an_interface() {
    let mut c = config();
    c.interface = String::new();
    let r = run(c, World::good());
    assert_eq!(r.result, Err("No network interface selected".to_string()));
    assert_eq!(r.actions, vec![]);
    assert_eq!(r.lines, Vec::<String>::new());
}

#[test]
fn start_needs_the_binary_and_the_plugin() {
    let mut world = World::good();
    world.existing = vec!["/opt/inferno.so"];
    assert_eq!(error(config(), world), "statime binary not found: /opt/statime");
    let mut world = World::good();
    world.existing = vec!["/opt/statime"];
    assert_eq!(error(config(), world), "Inferno ALSA plugin not found: /opt/inferno.so");
}

#[test]
fn start_needs_an_address() {
    let mut world = World::good();
    world.addresses = None;
    assert_eq!(
        error(config(), world),
        "Could not find IPv4 address for interface 'eth0'"
    );
    let mut c = config();
    c.interface = "eth1".to_string();
    assert_eq!(
        error(c, World::good()),
        "Could not find IPv4 address for interface 'eth1'"
    );
}

#[test]
fn start_fails_where_files_cannot_be_written() {
    let mut world = World::good();
    world.unwritable = vec!["/tmp/idvs-statime.toml"];
    assert_eq!(error(config(), world), "Failed to write statime config: denied");
    let mut world = World::good();
    world.unwritable = vec!["/home/u/.asoundrc"];
    assert_eq!(error(config(), world), "Failed to write ~/.asoundrc: denied");
}

#[test]
fn start_needs_the_helper() {
    let mut world = World::good();
    world.replies = vec![None, None];
    let r = run(config(), world);
    assert_eq!(
        r.result,
        Err("Root helper is not running — cannot start statime.".to_string())
    );
    assert!(r.lines.contains(
        &"Warning: root helper not running — ALSA plugin not installed system-wide.".to_string()
    ));
}

#[test]
fn start_fails_where_the_helper_does() {
    let cases = vec![
        (line("ERR No such file"), "Helper failed to start statime: ERR No such file"),
        (line("OK pid=none"), "Bad PID in helper response: OK pid=none"),
        (
            Some(Exchange::WriteFailed("broken pipe".to_string())),
            "Helper unreachable: helper write: broken pipe",
        ),
        (
            Some(Exchange::ReadFailed("reset".to_string())),
            "Helper unreachable: helper read: reset",
        ),
    ];
    for (reply, message) in cases {
        let mut world = World::good();
        world.replies = vec![line("OK"), reply];
        assert_eq!(error(config(), world), message);
    }
}

#[test]
fn start_fails_where_no_clock_comes() {
    let mut world = World::good();
    world.clock_comes = false;
    assert_eq!(
        error(config(), world),
        "Timed out waiting for clock socket '/tmp/clock'. Is statime running?"
    );
}

#[test]
fn stale_sockets_are_removed_first() {
    let mut world = World::good();
    world.existing.extend(["/tmp/clock", "/tmp/obs"]);
    let r = run(config(), world);
    assert_eq!(
        r.actions[4..8],
        [
            look("/tmp/clock"),
            Action::RemoveFile("/tmp/clock".to_string()),
            look("/tmp/obs"),
            Action::RemoveFile("/tmp/obs".to_string()),
        ]
    );
}

#[test]
fn plugin_is_installed_where_its_size_differs() {
    let installed = |sizes: Vec<(&'static str, u64)>| {
        let mut world = World::good();
        world.existing.push(PLUGIN_64);
        world.sizes = sizes;
        let r = run(config(), world);
        let sent = r.actions.iter().any(
            |a| matches!(a, Action::Send(l) if l.starts_with("INSTALL_PLUGIN")),
        );
        (sent, r.lines[1].clone())
    };
    let already = format!("ALSA plugin already installed at {}", PLUGIN_64);
    let updating = format!("Updating ALSA plugin at {}...", PLUGIN_64);
    // What cannot be measured counts as 0 and 1 bytes: the two differ.
    assert_eq!(installed(vec![]), (true, updating.clone()));
    assert_eq!(
        installed(vec![("/opt/inferno.so", 10), (PLUGIN_64, 11)]),
        (true, updating.clone())
    );
    assert_eq!(installed(vec![("/opt/inferno.so", 0)]), (true, updating));
    let mut world = World::good();
    world.existing.push(PLUGIN_64);
    world.sizes = vec![("/opt/inferno.so", 10), (PLUGIN_64, 10)];
    world.replies = vec![line("OK pid=42")];
    let r = run(config(), world);
    assert_eq!(r.lines[1], already);
    assert!(r.result.is_ok());
}

#[test]
fn plugin_without_a_directory_is_left_out() {
    let mut world = World::good();
    world.directories = vec![];
    world.replies = vec![line("OK pid=42")];
    let r = run(config(), world);
    assert_eq!(
        r.lines[1],
        "Warning: could not find system ALSA lib dir — inferno plugin not installed system-wide."
    );
    assert_eq!(r.actions[11], directory("/usr/lib/alsa-lib"));
    assert!(r.result.is_ok());
}

#[test]
fn plugin_that_cannot_be_installed_is_no_hindrance() {
    let cases = vec![
        (
            line("ERR denied"),
            "Warning: ALSA plugin install failed: ERR denied — device may not appear in all apps",
        ),
        (
            Some(Exchange::ReadFailed("reset".to_string())),
            "Warning: ALSA plugin install failed: helper read: reset — device may not appear in all apps",
        ),
    ];
    for (reply, message) in cases {
        let mut world = World::good();
        world.replies = vec![reply, line("OK pid=42")];
        let r = run(config(), world);
        assert_eq!(r.lines[2], message);
        assert!(r.result.is_ok());
    }
}

#[test]
fn plugin_that_vanishes_is_not_installed() {
    let mut start = Start::begin(config());
    let mut world = World::good();
    for n in 0..7 {
        if n == 6 {
            world.existing = vec![];
        }
        let action = start.action();
        let answer = world.answer(&action);
        let lines = start.advance(&answer);
        if n == 6 {
            assert_eq!(
                lines,
                words(&[
                    "Warning: inferno plugin not found at '/opt/inferno.so' — skipping ALSA plugin install.",
                    "  Set the correct path in Advanced settings.",
                    "Starting statime on interface 'eth0'...",
                ])
            );
        }
    }
}

#[test]
fn pipewire_is_left_alone_where_it_is_not_used() {
    let mut c = config();
    c.use_pipewire = false;
    let r = run(c, World::good());
    assert_eq!(r.result.unwrap().nodes_written, false);
    assert!(!r.actions.iter().any(|a| matches!(a, Action::Run { .. })));
    assert_eq!(
        r.lines.last().unwrap(),
        "ALSA device: dante (or dante_plug for format conversion)"
    );
}

#[test]
fn pipewire_is_restarted_for_the_override_alone() {
    let mut world = World::good();
    world.unwritable = vec![CONF];
    let r = run(config(), world);
    assert_eq!(r.result.unwrap().nodes_written, false);
    assert_eq!(
        r.lines[9..],
        words(&[
            "Installed PipeWire clock syscall override",
            "Warning: could not write PipeWire Dante config: denied",
            "  PipeWire nodes will not be created; Dante device may not appear in audio router",
            "Restarting PipeWire to apply config...",
            "PipeWire restarted",
            "--- Startup complete ---",
            "ALSA device: dante (or dante_plug for format conversion)",
        ])
    );
    // No time is given to nodes that were not written.
    assert_eq!(r.actions.last(), Some(&systemctl(&["--user", "restart", "pipewire"])));
}

#[test]
fn pipewire_is_not_restarted_where_nothing_was_written() {
    let mut world = World::good();
    world.unwritable = vec![CONF, "/home/u/.config/systemd/user/pipewire.service.d/override.conf"];
    let r = run(config(), world);
    assert!(!r.actions.iter().any(|a| matches!(a, Action::Run { .. })));
    assert_eq!(
        r.lines[9..11],
        words(&[
            "Warning: could not write PipeWire clock override",
            "  Run manually: systemctl --user daemon-reload && systemctl --user restart pipewire",
        ])
    );
    assert!(r.result.is_ok());
}

#[test]
fn override_is_written_only_once() {
    let mut world = World::good();
    world.existing.push("/home/u/.config/systemd/user/pipewire.service.d/override.conf");
    let r = run(config(), world);
    assert!(!r.actions.contains(&Action::CreateDirectories(OVERRIDE_DIR.to_string())));
    assert!(r.result.unwrap().nodes_written);
}

#[test]
fn home_defaults_to_the_current_directory() {
    let mut world = World::good();
    world.home = None;
    let r = run(config(), world);
    assert!(r.lines.contains(&"ALSA config written to ./.asoundrc".to_string()));
}
