//! Starting the soundcard: checking what it needs, installing the ALSA plugin, launching
//! statime through the helper, waiting for its clock, and configuring ALSA and PipeWire.

use crate::config::{text_or, Config, ConfigView};
use crate::network::{first_ip, interface_ip};
use crate::pipewire;
use crate::procedure::{
    and_line, no_lines, one_line, reload_units, reload_units_action, restart_pipewire,
    restart_pipewire_action, Action, ActionView, Answer, AnswerView,
};
use crate::protocol;
use crate::text;
use vstd::prelude::*;
use vstd::string::*;

verus! {

/// Where the start stands: what has to be done next.
#[derive(Clone, Copy, Debug, PartialEq, Eq, Structural)]
pub enum Stage {
    CheckBinary,
    CheckPlugin,
    FindAddress,
    WriteStatimeConfig,
    CheckClockSocket,
    RemoveClockSocket,
    CheckObservationSocket,
    RemoveObservationSocket,
    RecheckPlugin,
    /// Looking at one of the directories that ALSA plugins may be in.
    FindAlsaDirectory(usize),
    CheckInstalled,
    MeasureSource,
    /// Knowing the size of the plugin to install.
    MeasureInstalled(u64),
    InstallPlugin,
    StartStatime,
    AwaitClock,
    ReadHome,
    WriteAlsaConfig,
    ReadHomeForPipewire,
    CheckOverride,
    MakeOverrideDirectory,
    WriteOverride,
    MakeNodesDirectory,
    WriteNodes,
    ReloadUnits,
    RestartPipewire,
    Settle,
    Succeeded,
    Failed,
}

/// A start in progress.
pub struct Start {
    pub config: Config,
    pub stage: Stage,
    /// The address that the device is bound to, once it is known.
    pub bind_ip: String,
    /// Where the plugin is to be installed, once it is known.
    pub target: String,
    /// The id of statime's process, once it runs.
    pub pid: u32,
    /// The home directory, once it was looked up.
    pub home: String,
    /// Whether PipeWire has to be restarted.
    pub need_restart: bool,
    /// Whether the configuration of the PipeWire nodes was written.
    pub nodes_written: bool,
    /// Why the start failed, once it has.
    pub error: String,
}

/// A [`Start`] with its texts as sequences of characters.
pub struct StartView {
    pub config: ConfigView,
    pub stage: Stage,
    pub bind_ip: Seq<char>,
    pub target: Seq<char>,
    pub pid: u32,
    pub home: Seq<char>,
    pub need_restart: bool,
    pub nodes_written: bool,
    pub error: Seq<char>,
}

impl View for Start {
    type V = StartView;

    open spec fn view(&self) -> StartView {
        StartView {
            config: self.config@,
            stage: self.stage,
            bind_ip: self.bind_ip@,
            target: self.target@,
            pid: self.pid,
            home: self.home@,
            need_restart: self.need_restart,
            nodes_written: self.nodes_written,
            error: self.error@,
        }
    }
}

/// What a successful start leaves behind.
#[derive(Debug, PartialEq)]
pub struct Started {
    pub statime_pid: u32,
    pub observation_path: String,
    pub nodes_written: bool,
}

/// A [`Started`] with its texts as sequences of characters.
pub struct StartedView {
    pub statime_pid: u32,
    pub observation_path: Seq<char>,
    pub nodes_written: bool,
}

impl View for Started {
    type V = StartedView;

    open spec fn view(&self) -> StartedView {
        StartedView {
            statime_pid: self.statime_pid,
            observation_path: self.observation_path@,
            nodes_written: self.nodes_written,
        }
    }
}

/// A result of a start with its texts as sequences of characters.
pub open spec fn start_result_view(r: Result<Started, String>) -> Result<StartedView, Seq<char>> {
    match r {
        Ok(s) => Ok(s@),
        Err(e) => Err(e@),
    }
}

/// The file that statime reads its configuration from.
pub open spec fn statime_config_file() -> Seq<char> {
    "/tmp/idvs-statime.toml"@
}

/// The file that ALSA reads the user's configuration from, below a home directory.
pub open spec fn asoundrc_file(home: Seq<char>) -> Seq<char> {
    home + "/.asoundrc"@
}

/// What the override of the PipeWire service says.
pub open spec fn override_text() -> Seq<char> {
    "[Service]\nSystemCallFilter=@clock\n"@
}

/// How many directories ALSA plugins may be in.
pub const ALSA_DIRECTORIES: usize = 5;

/// The directories that ALSA plugins may be in, in the order in which they are tried.
pub open spec fn alsa_directory(i: usize) -> Seq<char> {
    if i == 0 {
        "/usr/lib/x86_64-linux-gnu/alsa-lib"@
    } else if i == 1 {
        "/usr/lib/aarch64-linux-gnu/alsa-lib"@
    } else if i == 2 {
        "/usr/lib/arm-linux-gnueabihf/alsa-lib"@
    } else if i == 3 {
        "/usr/lib64/alsa-lib"@
    } else {
        "/usr/lib/alsa-lib"@
    }
}

fn alsa_directory_text(i: usize) -> (r: &'static str)
    ensures
        r@ == alsa_directory(i),
{
    if i == 0 {
        "/usr/lib/x86_64-linux-gnu/alsa-lib"
    } else if i == 1 {
        "/usr/lib/aarch64-linux-gnu/alsa-lib"
    } else if i == 2 {
        "/usr/lib/arm-linux-gnueabihf/alsa-lib"
    } else if i == 3 {
        "/usr/lib64/alsa-lib"
    } else {
        "/usr/lib/alsa-lib"
    }
}

/// Lines for the log.
pub type Lines = Seq<Seq<char>>;

impl StartView {
    /// The start of a configuration; it fails at once where no interface is selected.
    pub open spec fn begin(config: ConfigView) -> StartView {
        StartView {
            config,
            stage: if config.interface.len() == 0 {
                Stage::Failed
            } else {
                Stage::CheckBinary
            },
            bind_ip: Seq::empty(),
            target: Seq::empty(),
            pid: 0,
            home: Seq::empty(),
            need_restart: false,
            nodes_written: false,
            error: if config.interface.len() == 0 {
                "No network interface selected"@
            } else {
                Seq::empty()
            },
        }
    }

    /// What has to be done next.
    pub open spec fn action(self) -> ActionView {
        match self.stage {
            Stage::CheckBinary => ActionView::CheckExists(self.config.statime_bin),
            Stage::CheckPlugin => ActionView::CheckExists(self.config.inferno_so),
            Stage::FindAddress => ActionView::ListAddresses,
            Stage::WriteStatimeConfig => ActionView::WriteFile {
                path: statime_config_file(),
                content: self.config.statime_text(),
            },
            Stage::CheckClockSocket => ActionView::CheckExists(self.config.clock_path),
            Stage::RemoveClockSocket => ActionView::RemoveFile(self.config.clock_path),
            Stage::CheckObservationSocket => ActionView::CheckExists(self.config.observation_path),
            Stage::RemoveObservationSocket => ActionView::RemoveFile(self.config.observation_path),
            Stage::RecheckPlugin => ActionView::CheckExists(self.config.inferno_so),
            Stage::FindAlsaDirectory(i) => ActionView::CheckDirectory(alsa_directory(i)),
            Stage::CheckInstalled => ActionView::CheckExists(self.target),
            Stage::MeasureSource => ActionView::MeasureFile(self.config.inferno_so),
            Stage::MeasureInstalled(_) => ActionView::MeasureFile(self.target),
            Stage::InstallPlugin => ActionView::Send(
                protocol::install_line(self.config.inferno_so, self.target),
            ),
            Stage::StartStatime => ActionView::Send(
                protocol::start_line(self.config.statime_bin, statime_config_file()),
            ),
            Stage::AwaitClock => ActionView::WaitForPath {
                path: self.config.clock_path,
                seconds: 15,
            },
            Stage::ReadHome => ActionView::ReadHome,
            Stage::WriteAlsaConfig => ActionView::WriteFile {
                path: asoundrc_file(self.home),
                content: self.config.alsa_text(self.bind_ip),
            },
            Stage::ReadHomeForPipewire => ActionView::ReadHome,
            Stage::CheckOverride => ActionView::CheckExists(pipewire::override_file(self.home)),
            Stage::MakeOverrideDirectory => ActionView::CreateDirectories(
                pipewire::override_dir(self.home),
            ),
            Stage::WriteOverride => ActionView::WriteFile {
                path: pipewire::override_file(self.home),
                content: override_text(),
            },
            Stage::MakeNodesDirectory => ActionView::CreateDirectories(
                pipewire::conf_dir(self.home),
            ),
            Stage::WriteNodes => ActionView::WriteFile {
                path: pipewire::conf_file(self.home),
                content: pipewire::nodes_text(self.config),
            },
            Stage::ReloadUnits => reload_units(),
            Stage::RestartPipewire => restart_pipewire(),
            Stage::Settle => ActionView::Pause { seconds: 2 },
            Stage::Succeeded => ActionView::Nothing,
            Stage::Failed => ActionView::Nothing,
        }
    }

    /// The same start at another stage.
    pub open spec fn at(self, stage: Stage) -> StartView {
        StartView { stage, ..self }
    }

    /// The start has failed.
    pub open spec fn failed(self, error: Seq<char>) -> (StartView, Lines) {
        (StartView { stage: Stage::Failed, error, ..self }, Seq::empty())
    }

    /// The plugin has been seen to; statime is next.
    pub open spec fn launching(self, lines: Lines) -> (StartView, Lines) {
        (
            self.at(Stage::StartStatime),
            lines.push("Starting statime on interface '"@ + self.config.interface + "'..."@),
        )
    }

    /// Everything is set up.
    pub open spec fn complete(self, lines: Lines) -> (StartView, Lines) {
        let told = lines.push("--- Startup complete ---"@).push(
            "ALSA device: dante (or dante_plug for format conversion)"@,
        );
        (
            self.at(Stage::Succeeded),
            if self.nodes_written {
                told.push(
                    "PipeWire nodes: '"@ + self.config.device_name + "-sink' / '"@
                        + self.config.device_name + "-source' visible in audio mixer"@,
                )
            } else {
                told
            },
        )
    }

    /// PipeWire is to be restarted.
    pub open spec fn restarting(self, lines: Lines) -> (StartView, Lines) {
        (self.at(Stage::ReloadUnits), lines.push("Restarting PipeWire to apply config..."@))
    }

    /// The stage after an answer, and the lines that tell of it.
    pub open spec fn next(self, answer: AnswerView) -> (StartView, Lines) {
        match self.stage {
            Stage::CheckBinary => if answer->Flag_0 {
                (self.at(Stage::CheckPlugin), Seq::empty())
            } else {
                self.failed("statime binary not found: "@ + self.config.statime_bin)
            },
            Stage::CheckPlugin => if answer->Flag_0 {
                (self.at(Stage::FindAddress), Seq::empty())
            } else {
                self.failed("Inferno ALSA plugin not found: "@ + self.config.inferno_so)
            },
            Stage::FindAddress => match first_ip(answer->Addresses_0, self.config.interface) {
                Some(ip) => (
                    StartView { stage: Stage::WriteStatimeConfig, bind_ip: ip.dotted(), ..self },
                    Seq::empty(),
                ),
                None => self.failed(
                    "Could not find IPv4 address for interface '"@ + self.config.interface + "'"@,
                ),
            },
            Stage::WriteStatimeConfig => match answer->Outcome_0 {
                None => (
                    self.at(Stage::CheckClockSocket),
                    seq!["Wrote statime config to "@ + statime_config_file()],
                ),
                Some(e) => self.failed("Failed to write statime config: "@ + e),
            },
            Stage::CheckClockSocket => (
                self.at(
                    if answer->Flag_0 {
                        Stage::RemoveClockSocket
                    } else {
                        Stage::CheckObservationSocket
                    },
                ),
                Seq::empty(),
            ),
            Stage::RemoveClockSocket => (self.at(Stage::CheckObservationSocket), Seq::empty()),
            Stage::CheckObservationSocket => (
                self.at(
                    if answer->Flag_0 {
                        Stage::RemoveObservationSocket
                    } else {
                        Stage::RecheckPlugin
                    },
                ),
                Seq::empty(),
            ),
            Stage::RemoveObservationSocket => (self.at(Stage::RecheckPlugin), Seq::empty()),
            Stage::RecheckPlugin => if answer->Flag_0 {
                (self.at(Stage::FindAlsaDirectory(0)), Seq::empty())
            } else {
                self.launching(
                    seq![
                        "Warning: inferno plugin not found at '"@ + self.config.inferno_so
                            + "' — skipping ALSA plugin install."@,
                        "  Set the correct path in Advanced settings."@,
                    ],
                )
            },
            Stage::FindAlsaDirectory(i) => if answer->Flag_0 {
                (
                    StartView {
                        stage: Stage::CheckInstalled,
                        target: alsa_directory(i) + "/libasound_module_pcm_inferno.so"@,
                        ..self
                    },
                    Seq::empty(),
                )
            } else if i + 1 < ALSA_DIRECTORIES {
                (self.at(Stage::FindAlsaDirectory((i + 1) as usize)), Seq::empty())
            } else {
                self.launching(
                    seq![
                        "Warning: could not find system ALSA lib dir — inferno plugin not installed system-wide."@,
                    ],
                )
            },
            Stage::CheckInstalled => if answer->Flag_0 {
                (self.at(Stage::MeasureSource), Seq::empty())
            } else {
                (
                    self.at(Stage::InstallPlugin),
                    seq!["Installing ALSA plugin to "@ + self.target + "..."@],
                )
            },
            Stage::MeasureSource => (
                self.at(
                    Stage::MeasureInstalled(
                        match answer->Size_0 {
                            Some(n) => n,
                            None => 0,
                        },
                    ),
                ),
                Seq::empty(),
            ),
            Stage::MeasureInstalled(size) => if size == (match answer->Size_0 {
                Some(n) => n,
                None => 1,
            }) {
                self.launching(seq!["ALSA plugin already installed at "@ + self.target])
            } else {
                (
                    self.at(Stage::InstallPlugin),
                    seq!["Updating ALSA plugin at "@ + self.target + "..."@],
                )
            },
            Stage::InstallPlugin => self.launching(seq![install_report(answer->Reply_0)]),
            Stage::StartStatime => match answer->Reply_0 {
                Some(exchange) => match exchange.response() {
                    Ok(line) => match protocol::started_pid(line) {
                        Ok(pid) => (
                            StartView { stage: Stage::AwaitClock, pid, ..self },
                            seq![
                                "statime started (PID "@ + text::decimal(pid as nat) + ")"@,
                                "Waiting for PTP clock socket at '"@ + self.config.clock_path
                                    + "'..."@,
                            ],
                        ),
                        Err(e) => self.failed(e),
                    },
                    Err(e) => self.failed("Helper unreachable: "@ + e),
                },
                None => self.failed("Root helper is not running — cannot start statime."@),
            },
            Stage::AwaitClock => if answer->Flag_0 {
                (
                    self.at(Stage::ReadHome),
                    seq!["PTP clock socket ready"@, "Writing ALSA configuration..."@],
                )
            } else {
                self.failed(
                    "Timed out waiting for clock socket '"@ + self.config.clock_path
                        + "'. Is statime running?"@,
                )
            },
            Stage::ReadHome => (
                StartView {
                    stage: Stage::WriteAlsaConfig,
                    home: text_or(answer->Text_0, "."@),
                    ..self
                },
                Seq::empty(),
            ),
            Stage::WriteAlsaConfig => match answer->Outcome_0 {
                None => {
                    let told = seq!["ALSA config written to "@ + asoundrc_file(self.home)];
                    if self.config.use_pipewire {
                        (self.at(Stage::ReadHomeForPipewire), told)
                    } else {
                        self.complete(told)
                    }
                },
                Some(e) => self.failed("Failed to write ~/.asoundrc: "@ + e),
            },
            Stage::ReadHomeForPipewire => (
                StartView {
                    stage: Stage::CheckOverride,
                    home: text_or(answer->Text_0, "."@),
                    ..self
                },
                Seq::empty(),
            ),
            Stage::CheckOverride => (
                self.at(
                    if answer->Flag_0 {
                        Stage::MakeNodesDirectory
                    } else {
                        Stage::MakeOverrideDirectory
                    },
                ),
                Seq::empty(),
            ),
            Stage::MakeOverrideDirectory => (self.at(Stage::WriteOverride), Seq::empty()),
            Stage::WriteOverride => match answer->Outcome_0 {
                None => (
                    StartView { stage: Stage::MakeNodesDirectory, need_restart: true, ..self },
                    seq!["Installed PipeWire clock syscall override"@],
                ),
                Some(_) => (
                    self.at(Stage::MakeNodesDirectory),
                    seq![
                        "Warning: could not write PipeWire clock override"@,
                        "  Run manually: systemctl --user daemon-reload && systemctl --user restart pipewire"@,
                    ],
                ),
            },
            Stage::MakeNodesDirectory => (self.at(Stage::WriteNodes), Seq::empty()),
            Stage::WriteNodes => match answer->Outcome_0 {
                None => StartView { need_restart: true, nodes_written: true, ..self }.restarting(
                    seq!["Wrote PipeWire Dante node config to "@ + pipewire::conf_file(self.home)],
                ),
                Some(e) => {
                    let told = seq![
                        "Warning: could not write PipeWire Dante config: "@ + e,
                        "  PipeWire nodes will not be created; Dante device may not appear in audio router"@,
                    ];
                    if self.need_restart {
                        self.restarting(told)
                    } else {
                        self.complete(told)
                    }
                },
            },
            Stage::ReloadUnits => (self.at(Stage::RestartPipewire), Seq::empty()),
            Stage::RestartPipewire => {
                let told = seq!["PipeWire restarted"@];
                if self.nodes_written {
                    (self.at(Stage::Settle), told)
                } else {
                    self.complete(told)
                }
            },
            Stage::Settle => self.complete(Seq::empty()),
            Stage::Succeeded => (self, Seq::empty()),
            Stage::Failed => (self, Seq::empty()),
        }
    }

    /// What came of the start, once it has ended.
    pub open spec fn result(self) -> Option<Result<StartedView, Seq<char>>> {
        match self.stage {
            Stage::Succeeded => Some(
                Ok(
                    StartedView {
                        statime_pid: self.pid,
                        observation_path: self.config.observation_path,
                        nodes_written: self.nodes_written,
                    },
                ),
            ),
            Stage::Failed => Some(Err(self.error)),
            _ => None,
        }
    }
}

/// What is told of an attempt to install the plugin.
pub open spec fn install_report(reply: Option<protocol::ExchangeView>) -> Seq<char> {
    match reply {
        Some(exchange) => match exchange.response() {
            Ok(line) => if line == "OK"@ {
                "ALSA plugin installed successfully"@
            } else {
                "Warning: ALSA plugin install failed: "@ + line
                    + " — device may not appear in all apps"@
            },
            Err(e) => "Warning: ALSA plugin install failed: "@ + e
                + " — device may not appear in all apps"@,
        },
        None => "Warning: root helper not running — ALSA plugin not installed system-wide."@,
    }
}

fn install_report_text(reply: &Option<protocol::Exchange>) -> (r: String)
    ensures
        r@ == install_report(
            match *reply {
                Some(x) => Some(x@),
                None => None,
            },
        ),
{
    match reply {
        Some(exchange) => match exchange.response() {
            Ok(line) => if text::same_text(line.as_str(), "OK") {
                "ALSA plugin installed successfully".to_owned()
            } else {
                "Warning: ALSA plugin install failed: ".to_owned().concat(line.as_str()).concat(
                    " — device may not appear in all apps",
                )
            },
            Err(e) => "Warning: ALSA plugin install failed: ".to_owned().concat(e.as_str()).concat(
                " — device may not appear in all apps",
            ),
        },
        None =>
            "Warning: root helper not running — ALSA plugin not installed system-wide.".to_owned(),
    }
}

fn home_or_here(home: &Option<String>) -> (r: String)
    ensures
        r@ == text_or(crate::procedure::opt_view(*home), "."@),
{
    match home {
        Some(h) => h.clone(),
        None => ".".to_owned(),
    }
}

impl Start {
    /// Begins to start a configuration.
    pub fn begin(config: Config) -> (r: Start)
        ensures
            r@ == StartView::begin(config@),
    {
        let selected = !config.interface.as_str().is_empty();
        Start {
            stage: if selected {
                Stage::CheckBinary
            } else {
                Stage::Failed
            },
            bind_ip: String::new(),
            target: String::new(),
            pid: 0,
            home: String::new(),
            need_restart: false,
            nodes_written: false,
            error: if selected {
                String::new()
            } else {
                "No network interface selected".to_owned()
            },
            config,
        }
    }

    /// What has to be done next.
    pub fn action(&self) -> (r: Action)
        ensures
            r@ == self@.action(),
    {
        match self.stage {
            Stage::CheckBinary => Action::CheckExists(self.config.statime_bin.clone()),
            Stage::CheckPlugin => Action::CheckExists(self.config.inferno_so.clone()),
            Stage::FindAddress => Action::ListAddresses,
            Stage::WriteStatimeConfig => Action::WriteFile {
                path: "/tmp/idvs-statime.toml".to_owned(),
                content: self.config.statime_config(),
            },
            Stage::CheckClockSocket => Action::CheckExists(self.config.clock_path.clone()),
            Stage::RemoveClockSocket => Action::RemoveFile(self.config.clock_path.clone()),
            Stage::CheckObservationSocket => Action::CheckExists(
                self.config.observation_path.clone(),
            ),
            Stage::RemoveObservationSocket => Action::RemoveFile(
                self.config.observation_path.clone(),
            ),
            Stage::RecheckPlugin => Action::CheckExists(self.config.inferno_so.clone()),
            Stage::FindAlsaDirectory(i) => Action::CheckDirectory(
                alsa_directory_text(i).to_owned(),
            ),
            Stage::CheckInstalled => Action::CheckExists(self.target.clone()),
            Stage::MeasureSource => Action::MeasureFile(self.config.inferno_so.clone()),
            Stage::MeasureInstalled(_) => Action::MeasureFile(self.target.clone()),
            Stage::InstallPlugin => Action::Send(
                protocol::install_command(self.config.inferno_so.as_str(), self.target.as_str()),
            ),
            Stage::StartStatime => Action::Send(
                protocol::start_command(
                    self.config.statime_bin.as_str(),
                    "/tmp/idvs-statime.toml",
                ),
            ),
            Stage::AwaitClock => Action::WaitForPath {
                path: self.config.clock_path.clone(),
                seconds: 15,
            },
            Stage::ReadHome => Action::ReadHome,
            Stage::WriteAlsaConfig => Action::WriteFile {
                path: self.home.clone().concat("/.asoundrc"),
                content: self.config.alsa_config(self.bind_ip.as_str()),
            },
            Stage::ReadHomeForPipewire => Action::ReadHome,
            Stage::CheckOverride => Action::CheckExists(
                pipewire::pipewire_override_path(self.home.as_str()),
            ),
            Stage::MakeOverrideDirectory => Action::CreateDirectories(
                pipewire::pipewire_override_dir(self.home.as_str()),
            ),
            Stage::WriteOverride => Action::WriteFile {
                path: pipewire::pipewire_override_path(self.home.as_str()),
                content: "[Service]\nSystemCallFilter=@clock\n".to_owned(),
            },
            Stage::MakeNodesDirectory => Action::CreateDirectories(
                pipewire::pipewire_conf_dir(self.home.as_str()),
            ),
            Stage::WriteNodes => Action::WriteFile {
                path: pipewire::pipewire_dante_conf_path(self.home.as_str()),
                content: pipewire::pipewire_dante_config(&self.config),
            },
            Stage::ReloadUnits => reload_units_action(),
            Stage::RestartPipewire => restart_pipewire_action(),
            Stage::Settle => Action::Pause { seconds: 2 },
            Stage::Succeeded => Action::Nothing,
            Stage::Failed => Action::Nothing,
        }
    }

    fn fail(&mut self, error: String) -> (r: Vec<String>)
        ensures
            (final(self)@, text::texts(r@)) == old(self)@.failed(error@),
    {
        self.stage = Stage::Failed;
        self.error = error;
        no_lines()
    }

    fn proceed(&mut self, stage: Stage) -> (r: Vec<String>)
        ensures
            final(self)@ == old(self)@.at(stage),
            text::texts(r@) == Seq::<Seq<char>>::empty(),
    {
        self.stage = stage;
        no_lines()
    }

    fn launch(&mut self, lines: Vec<String>) -> (r: Vec<String>)
        ensures
            (final(self)@, text::texts(r@)) == old(self)@.launching(text::texts(lines@)),
    {
        self.stage = Stage::StartStatime;
        and_line(
            lines,
            "Starting statime on interface '".to_owned().concat(
                self.config.interface.as_str(),
            ).concat("'..."),
        )
    }

    fn restart(&mut self, lines: Vec<String>) -> (r: Vec<String>)
        ensures
            (final(self)@, text::texts(r@)) == old(self)@.restarting(text::texts(lines@)),
    {
        self.stage = Stage::ReloadUnits;
        and_line(lines, "Restarting PipeWire to apply config...".to_owned())
    }

    fn complete(&mut self, lines: Vec<String>) -> (r: Vec<String>)
        ensures
            (final(self)@, text::texts(r@)) == old(self)@.complete(text::texts(lines@)),
    {
        self.stage = Stage::Succeeded;
        let told = and_line(
            and_line(lines, "--- Startup complete ---".to_owned()),
            "ALSA device: dante (or dante_plug for format conversion)".to_owned(),
        );
        if self.nodes_written {
            and_line(
                told,
                "PipeWire nodes: '".to_owned().concat(self.config.device_name.as_str()).concat(
                    "-sink' / '",
                ).concat(self.config.device_name.as_str()).concat(
                    "-source' visible in audio mixer",
                ),
            )
        } else {
            told
        }
    }

    /// Takes in what came of the last action, and returns the lines that tell of it.
    pub fn advance(&mut self, answer: &Answer) -> (r: Vec<String>)
        requires
            old(self)@.action().accepts(answer@),
        ensures
            (final(self)@, text::texts(r@)) == old(self)@.next(answer@),
    {
        match (self.stage, answer) {
            (Stage::CheckBinary, Answer::Flag(found)) => if *found {
                self.proceed(Stage::CheckPlugin)
            } else {
                self.fail(
                    "statime binary not found: ".to_owned().concat(
                        self.config.statime_bin.as_str(),
                    ),
                )
            },
            (Stage::CheckPlugin, Answer::Flag(found)) => if *found {
                self.proceed(Stage::FindAddress)
            } else {
                self.fail(
                    "Inferno ALSA plugin not found: ".to_owned().concat(
                        self.config.inferno_so.as_str(),
                    ),
                )
            },
            (Stage::FindAddress, Answer::Addresses(addrs)) => match interface_ip(
                addrs,
                self.config.interface.as_str(),
            ) {
                Some(ip) => {
                    self.bind_ip = ip.to_text();
                    self.proceed(Stage::WriteStatimeConfig)
                },
                None => self.fail(
                    "Could not find IPv4 address for interface '".to_owned().concat(
                        self.config.interface.as_str(),
                    ).concat("'"),
                ),
            },
            (Stage::WriteStatimeConfig, Answer::Outcome(outcome)) => match outcome {
                None => {
                    self.stage = Stage::CheckClockSocket;
                    one_line("Wrote statime config to ".to_owned().concat("/tmp/idvs-statime.toml"))
                },
                Some(e) => self.fail(
                    "Failed to write statime config: ".to_owned().concat(e.as_str()),
                ),
            },
            (Stage::CheckClockSocket, Answer::Flag(found)) => self.proceed(
                if *found {
                    Stage::RemoveClockSocket
                } else {
                    Stage::CheckObservationSocket
                },
            ),
            (Stage::RemoveClockSocket, _) => self.proceed(Stage::CheckObservationSocket),
            (Stage::CheckObservationSocket, Answer::Flag(found)) => self.proceed(
                if *found {
                    Stage::RemoveObservationSocket
                } else {
                    Stage::RecheckPlugin
                },
            ),
            (Stage::RemoveObservationSocket, _) => self.proceed(Stage::RecheckPlugin),
            (Stage::RecheckPlugin, Answer::Flag(found)) => if *found {
                self.proceed(Stage::FindAlsaDirectory(0))
            } else {
                let told = and_line(
                    one_line(
                        "Warning: inferno plugin not found at '".to_owned().concat(
                            self.config.inferno_so.as_str(),
                        ).concat("' — skipping ALSA plugin install."),
                    ),
                    "  Set the correct path in Advanced settings.".to_owned(),
                );
                assert(text::texts(told@) =~= seq![
                    "Warning: inferno plugin not found at '"@ + self@.config.inferno_so
                        + "' — skipping ALSA plugin install."@,
                    "  Set the correct path in Advanced settings."@,
                ]);
                self.launch(told)
            },
            (Stage::FindAlsaDirectory(i), Answer::Flag(found)) => if *found {
                self.target = alsa_directory_text(i).to_owned().concat(
                    "/libasound_module_pcm_inferno.so",
                );
                self.proceed(Stage::CheckInstalled)
            } else if i < ALSA_DIRECTORIES - 1 {
                self.proceed(Stage::FindAlsaDirectory(i + 1))
            } else {
                self.launch(
                    one_line(
                        "Warning: could not find system ALSA lib dir — inferno plugin not installed system-wide.".to_owned(),
                    ),
                )
            },
            (Stage::CheckInstalled, Answer::Flag(found)) => if *found {
                self.proceed(Stage::MeasureSource)
            } else {
                self.stage = Stage::InstallPlugin;
                one_line(
                    "Installing ALSA plugin to ".to_owned().concat(self.target.as_str()).concat(
                        "...",
                    ),
                )
            },
            (Stage::MeasureSource, Answer::Size(size)) => {
                let n: u64 = match size {
                    Some(n) => *n,
                    None => 0,
                };
                self.proceed(Stage::MeasureInstalled(n))
            },
            (Stage::MeasureInstalled(source), Answer::Size(size)) => {
                let n: u64 = match size {
                    Some(n) => *n,
                    None => 1,
                };
                if source == n {
                    let told = one_line(
                        "ALSA plugin already installed at ".to_owned().concat(self.target.as_str()),
                    );
                    self.launch(told)
                } else {
                    self.stage = Stage::InstallPlugin;
                    one_line(
                        "Updating ALSA plugin at ".to_owned().concat(self.target.as_str()).concat(
                            "...",
                        ),
                    )
                }
            },
            (Stage::InstallPlugin, Answer::Reply(reply)) => self.launch(
                one_line(install_report_text(reply)),
            ),
            (Stage::StartStatime, Answer::Reply(reply)) => match reply {
                Some(exchange) => match exchange.response() {
                    Ok(line) => match protocol::read_started_pid(line.as_str()) {
                        Ok(pid) => {
                            self.stage = Stage::AwaitClock;
                            self.pid = pid;
                            let told = and_line(
                                one_line(
                                    "statime started (PID ".to_owned().concat(
                                        text::decimal_text(pid).as_str(),
                                    ).concat(")"),
                                ),
                                "Waiting for PTP clock socket at '".to_owned().concat(
                                    self.config.clock_path.as_str(),
                                ).concat("'..."),
                            );
                            assert(text::texts(told@) =~= old(self)@.next(answer@).1);
                            told
                        },
                        Err(e) => self.fail(e),
                    },
                    Err(e) => self.fail("Helper unreachable: ".to_owned().concat(e.as_str())),
                },
                None => self.fail("Root helper is not running — cannot start statime.".to_owned()),
            },
            (Stage::AwaitClock, Answer::Flag(found)) => if *found {
                self.stage = Stage::ReadHome;
                let told = and_line(
                    one_line("PTP clock socket ready".to_owned()),
                    "Writing ALSA configuration...".to_owned(),
                );
                assert(text::texts(told@) =~= old(self)@.next(answer@).1);
                told
            } else {
                self.fail(
                    "Timed out waiting for clock socket '".to_owned().concat(
                        self.config.clock_path.as_str(),
                    ).concat("'. Is statime running?"),
                )
            },
            (Stage::ReadHome, Answer::Text(home)) => {
                self.home = home_or_here(home);
                self.proceed(Stage::WriteAlsaConfig)
            },
            (Stage::WriteAlsaConfig, Answer::Outcome(outcome)) => match outcome {
                None => {
                    let told = one_line(
                        "ALSA config written to ".to_owned().concat(
                            self.home.clone().concat("/.asoundrc").as_str(),
                        ),
                    );
                    if self.config.use_pipewire {
                        self.stage = Stage::ReadHomeForPipewire;
                        told
                    } else {
                        self.complete(told)
                    }
                },
                Some(e) => self.fail("Failed to write ~/.asoundrc: ".to_owned().concat(e.as_str())),
            },
            (Stage::ReadHomeForPipewire, Answer::Text(home)) => {
                self.home = home_or_here(home);
                self.proceed(Stage::CheckOverride)
            },
            (Stage::CheckOverride, Answer::Flag(found)) => self.proceed(
                if *found {
                    Stage::MakeNodesDirectory
                } else {
                    Stage::MakeOverrideDirectory
                },
            ),
            (Stage::MakeOverrideDirectory, _) => self.proceed(Stage::WriteOverride),
            (Stage::WriteOverride, Answer::Outcome(outcome)) => match outcome {
                None => {
                    self.stage = Stage::MakeNodesDirectory;
                    self.need_restart = true;
                    one_line("Installed PipeWire clock syscall override".to_owned())
                },
                Some(_) => {
                    self.stage = Stage::MakeNodesDirectory;
                    let told = and_line(
                        one_line("Warning: could not write PipeWire clock override".to_owned()),
                        "  Run manually: systemctl --user daemon-reload && systemctl --user restart pipewire".to_owned(),
                    );
                    assert(text::texts(told@) =~= old(self)@.next(answer@).1);
                    told
                },
            },
            (Stage::MakeNodesDirectory, _) => self.proceed(Stage::WriteNodes),
            (Stage::WriteNodes, Answer::Outcome(outcome)) => match outcome {
                None => {
                    self.need_restart = true;
                    self.nodes_written = true;
                    let told = one_line(
                        "Wrote PipeWire Dante node config to ".to_owned().concat(
                            pipewire::pipewire_dante_conf_path(self.home.as_str()).as_str(),
                        ),
                    );
                    self.restart(told)
                },
                Some(e) => {
                    let told = and_line(
                        one_line(
                            "Warning: could not write PipeWire Dante config: ".to_owned().concat(
                                e.as_str(),
                            ),
                        ),
                        "  PipeWire nodes will not be created; Dante device may not appear in audio router".to_owned(),
                    );
                    assert(text::texts(told@) =~= seq![
                        "Warning: could not write PipeWire Dante config: "@ + e@,
                        "  PipeWire nodes will not be created; Dante device may not appear in audio router"@,
                    ]);
                    if self.need_restart {
                        self.restart(told)
                    } else {
                        self.complete(told)
                    }
                },
            },
            (Stage::ReloadUnits, _) => self.proceed(Stage::RestartPipewire),
            (Stage::RestartPipewire, _) => {
                let told = one_line("PipeWire restarted".to_owned());
                if self.nodes_written {
                    self.stage = Stage::Settle;
                    told
                } else {
                    self.complete(told)
                }
            },
            (Stage::Settle, _) => self.complete(no_lines()),
            _ => no_lines(),
        }
    }

    /// What came of the start, once it has ended.
    pub fn result(&self) -> (r: Option<Result<Started, String>>)
        ensures
            match r {
                Some(result) => self@.result() == Some(start_result_view(result)),
                None => self@.result() is None,
            },
    {
        match self.stage {
            Stage::Succeeded => Some(
                Ok(
                    Started {
                        statime_pid: self.pid,
                        observation_path: self.config.observation_path.clone(),
                        nodes_written: self.nodes_written,
                    },
                ),
            ),
            Stage::Failed => Some(Err(self.error.clone())),
            _ => None,
        }
    }
}

// ---------------------------------------------------------------------------
// Whole starts
// ---------------------------------------------------------------------------

impl StartView {
    /// How far the start has come.
    pub open spec fn rank(self) -> nat {
        match self.stage {
            Stage::CheckBinary => 0,
            Stage::CheckPlugin => 1,
            Stage::FindAddress => 2,
            Stage::WriteStatimeConfig => 3,
            Stage::CheckClockSocket => 4,
            Stage::RemoveClockSocket => 5,
            Stage::CheckObservationSocket => 6,
            Stage::RemoveObservationSocket => 7,
            Stage::RecheckPlugin => 8,
            Stage::FindAlsaDirectory(i) => if i < ALSA_DIRECTORIES {
                9 + i as nat
            } else {
                13
            },
            Stage::CheckInstalled => 14,
            Stage::MeasureSource => 15,
            Stage::MeasureInstalled(_) => 16,
            Stage::InstallPlugin => 17,
            Stage::StartStatime => 18,
            Stage::AwaitClock => 19,
            Stage::ReadHome => 20,
            Stage::WriteAlsaConfig => 21,
            Stage::ReadHomeForPipewire => 22,
            Stage::CheckOverride => 23,
            Stage::MakeOverrideDirectory => 24,
            Stage::WriteOverride => 25,
            Stage::MakeNodesDirectory => 26,
            Stage::WriteNodes => 27,
            Stage::ReloadUnits => 28,
            Stage::RestartPipewire => 29,
            Stage::Settle => 30,
            Stage::Succeeded => 31,
            Stage::Failed => 32,
        }
    }
}

/// The start of `config` after `answers`.
#[verifier::opaque]
pub open spec fn reached(config: ConfigView, answers: Seq<AnswerView>) -> StartView
    decreases answers.len(),
{
    if answers.len() == 0 {
        StartView::begin(config)
    } else {
        reached(config, answers.drop_last()).next(answers.last()).0
    }
}

/// Whether each answer is of the kind that was called for when it came.
pub open spec fn fitting(config: ConfigView, answers: Seq<AnswerView>) -> bool {
    forall|i: int|
        0 <= i < answers.len() ==> reached(config, answers.take(i)).action().accepts(
            #[trigger] answers[i],
        )
}

/// Whether the answer at `i` was to the action of `stage`.
pub open spec fn answered_at(
    config: ConfigView,
    answers: Seq<AnswerView>,
    i: int,
    stage: Stage,
) -> bool {
    0 <= i < answers.len() && reached(config, answers.take(i)).stage == stage
}

/// Whether the action of `stage` was answered with `answer`.
pub open spec fn was_answered(
    config: ConfigView,
    answers: Seq<AnswerView>,
    stage: Stage,
    answer: AnswerView,
) -> bool {
    exists|i: int| #[trigger] answered_at(config, answers, i, stage) && answers[i] == answer
}

/// Whether the helper was asked to start statime and reported the process `pid`.
pub open spec fn was_started(config: ConfigView, answers: Seq<AnswerView>, pid: u32) -> bool {
    exists|i: int| #[trigger]
        answered_at(config, answers, i, Stage::StartStatime) && reports_pid(answers[i], pid)
}

/// Whether an answer is a reply that reports the process `pid`.
pub open spec fn reports_pid(answer: AnswerView, pid: u32) -> bool {
    &&& answer is Reply
    &&& answer->Reply_0 is Some
    &&& answer->Reply_0->0.response() is Ok
    &&& protocol::started_pid(answer->Reply_0->0.response()->Ok_0) == Ok::<u32, Seq<char>>(pid)
}

/// Whether the address records were asked for and `bind_ip` is the interface's address in them.
pub open spec fn was_bound(
    config: ConfigView,
    answers: Seq<AnswerView>,
    bind_ip: Seq<char>,
) -> bool {
    exists|i: int| #[trigger]
        answered_at(config, answers, i, Stage::FindAddress) && gives_address(
            answers[i],
            config.interface,
            bind_ip,
        )
}

/// Whether an answer holds address records in which `bind_ip` is the address of `interface`.
pub open spec fn gives_address(
    answer: AnswerView,
    interface: Seq<char>,
    bind_ip: Seq<char>,
) -> bool {
    &&& answer is Addresses
    &&& first_ip(answer->Addresses_0, interface) is Some
    &&& first_ip(answer->Addresses_0, interface)->0.dotted() == bind_ip
}

/// Every answer brings a start further, and it cannot go further than its end.
pub proof fn start_advances(s: StartView, answer: AnswerView)
    requires
        s.action().accepts(answer),
    ensures
        s.rank() < s.next(answer).0.rank() <= 32,
{
}

proof fn lemma_fitting_prefix(config: ConfigView, answers: Seq<AnswerView>, n: int)
    requires
        fitting(config, answers),
        0 <= n <= answers.len(),
    ensures
        fitting(config, answers.take(n)),
{
    let front = answers.take(n);
    assert forall|i: int| 0 <= i < front.len() implies reached(
        config,
        front.take(i),
    ).action().accepts(#[trigger] front[i]) by {
        assert(front.take(i) =~= answers.take(i));
        assert(front[i] == answers[i]);
    }
}

/// The start after `n + 1` answers follows from that after `n`.
proof fn lemma_reached_step(config: ConfigView, answers: Seq<AnswerView>, n: int)
    requires
        fitting(config, answers),
        0 <= n < answers.len(),
    ensures
        reached(config, answers.take(n + 1)) == reached(config, answers.take(n)).next(answers[n]).0,
        reached(config, answers.take(n)).action().accepts(answers[n]),
{
    reveal(reached);
    let longer = answers.take(n + 1);
    assert(longer.drop_last() =~= answers.take(n));
    assert(longer.last() == answers[n]);
}

/// A start comes further with each of its answers.
proof fn lemma_rank_grows(config: ConfigView, answers: Seq<AnswerView>, i: int, j: int)
    requires
        fitting(config, answers),
        0 <= i <= j <= answers.len(),
    ensures
        reached(config, answers.take(i)).rank() + (j - i) <= reached(
            config,
            answers.take(j),
        ).rank(),
        j > 0 ==> reached(config, answers.take(j)).rank() <= 32,
    decreases j - i,
{
    if j > 0 {
        lemma_reached_step(config, answers, j - 1);
        start_advances(reached(config, answers.take(j - 1)), answers[j - 1]);
    }
    if i < j {
        lemma_rank_grows(config, answers, i, j - 1);
    }
}

/// A start ends: it takes no more than 32 answers.
pub proof fn start_ends(config: ConfigView, answers: Seq<AnswerView>)
    requires
        fitting(config, answers),
    ensures
        answers.len() <= 32,
{
    lemma_rank_grows(config, answers, 0, answers.len() as int);
}

/// A start comes to no stage twice. So, of what it does, it does nothing twice; in particular
/// PipeWire is restarted at most once, for the override and the nodes together.
pub proof fn no_stage_recurs(
    config: ConfigView,
    answers: Seq<AnswerView>,
    i: int,
    j: int,
    stage: Stage,
)
    requires
        fitting(config, answers),
        answered_at(config, answers, i, stage),
        answered_at(config, answers, j, stage),
    ensures
        i == j,
{
    if i < j {
        lemma_rank_grows(config, answers, i, j);
    } else if j < i {
        lemma_rank_grows(config, answers, j, i);
    }
}

/// What has been done when a start that has not failed has come some way.
spec fn sound(config: ConfigView, answers: Seq<AnswerView>) -> bool {
    let s = reached(config, answers);
    &&& s.config == config
    &&& s.nodes_written == was_answered(
        config,
        answers,
        Stage::WriteNodes,
        AnswerView::Outcome(None),
    )
    &&& 22 <= s.rank() < 31 ==> config.use_pipewire
    &&& s.nodes_written ==> config.use_pipewire
    &&& s.stage != Stage::Failed ==> {
        &&& s.rank() > 0 ==> was_answered(
            config,
            answers,
            Stage::CheckBinary,
            AnswerView::Flag(true),
        )
        &&& s.rank() > 1 ==> was_answered(
            config,
            answers,
            Stage::CheckPlugin,
            AnswerView::Flag(true),
        )
        &&& s.rank() > 2 ==> was_bound(config, answers, s.bind_ip)
        &&& s.rank() > 3 ==> was_answered(
            config,
            answers,
            Stage::WriteStatimeConfig,
            AnswerView::Outcome(None),
        )
        &&& s.rank() > 18 ==> was_started(config, answers, s.pid)
        &&& s.rank() > 19 ==> was_answered(
            config,
            answers,
            Stage::AwaitClock,
            AnswerView::Flag(true),
        )
        &&& s.rank() > 21 ==> was_answered(
            config,
            answers,
            Stage::WriteAlsaConfig,
            AnswerView::Outcome(None),
        )
    }
}

/// What was answered stays answered.
proof fn lemma_answers_stay(config: ConfigView, answers: Seq<AnswerView>)
    requires
        answers.len() > 0,
    ensures
        forall|stage: Stage, a: AnswerView|
            was_answered(config, answers.drop_last(), stage, a) ==> #[trigger] was_answered(
                config,
                answers,
                stage,
                a,
            ),
        forall|pid: u32|
            was_started(config, answers.drop_last(), pid) ==> #[trigger] was_started(
                config,
                answers,
                pid,
            ),
        forall|ip: Seq<char>|
            was_bound(config, answers.drop_last(), ip) ==> #[trigger] was_bound(
                config,
                answers,
                ip,
            ),
        forall|stage: Stage, a: AnswerView| #[trigger]
            was_answered(config, answers, stage, a) ==> was_answered(
                config,
                answers.drop_last(),
                stage,
                a,
            ) || (answered_at(config, answers, answers.len() - 1, stage) && answers.last() == a),
        forall|stage: Stage| #[trigger]
            answered_at(config, answers, answers.len() - 1, stage) == (reached(
                config,
                answers.drop_last(),
            ).stage == stage),
{
    let front = answers.drop_last();
    assert forall|i: int, stage: Stage| #[trigger]
        answered_at(config, front, i, stage) implies answered_at(config, answers, i, stage)
        && front[i] == answers[i] by {
        assert(front.take(i) =~= answers.take(i));
    }
    assert forall|i: int, stage: Stage|
        #[trigger] answered_at(config, answers, i, stage) && i < front.len() implies answered_at(
        config,
        front,
        i,
        stage,
    ) && front[i] == answers[i] by {
        assert(front.take(i) =~= answers.take(i));
    }
    assert(answers.take(answers.len() - 1) =~= front);
    assert forall|stage: Stage, a: AnswerView| #[trigger]
        was_answered(config, answers, stage, a) implies was_answered(config, front, stage, a) || (
    answered_at(config, answers, answers.len() - 1, stage) && answers.last() == a) by {
        let i = choose|i: int| #[trigger]
            answered_at(config, answers, i, stage) && answers[i] == a;
        if i < front.len() {
            assert(answered_at(config, front, i, stage));
        }
    }
}

/// Whether `t` follows from `s` by an answer, as far as [`sound`] tells.
spec fn follows(s: StartView, answer: AnswerView, t: StartView) -> bool {
    &&& t.config == s.config
    &&& t.nodes_written == (s.nodes_written || (s.stage == Stage::WriteNodes && answer
        == AnswerView::Outcome(None)))
    &&& 22 <= t.rank() < 31 ==> 22 <= s.rank() < 31 || s.config.use_pipewire
    &&& s.stage == Stage::WriteNodes ==> s.rank() == 27
    &&& t.stage != Stage::Failed ==> {
        &&& s.stage != Stage::Failed
        &&& s.rank() == 0 ==> s.stage == Stage::CheckBinary && answer == AnswerView::Flag(true)
        &&& s.rank() <= 1 < t.rank() ==> s.stage == Stage::CheckPlugin && answer
            == AnswerView::Flag(true)
        &&& s.rank() <= 2 < t.rank() ==> s.stage == Stage::FindAddress && gives_address(
            answer,
            s.config.interface,
            t.bind_ip,
        )
        &&& s.rank() > 2 ==> t.bind_ip == s.bind_ip
        &&& s.rank() <= 3 < t.rank() ==> s.stage == Stage::WriteStatimeConfig && answer
            == AnswerView::Outcome(None)
        &&& s.rank() <= 18 < t.rank() ==> s.stage == Stage::StartStatime && reports_pid(
            answer,
            t.pid,
        )
        &&& s.rank() > 18 ==> t.pid == s.pid
        &&& s.rank() <= 19 < t.rank() ==> s.stage == Stage::AwaitClock && answer
            == AnswerView::Flag(true)
        &&& s.rank() <= 21 < t.rank() ==> s.stage == Stage::WriteAlsaConfig && answer
            == AnswerView::Outcome(None)
    }
}

proof fn lemma_follows(s: StartView, answer: AnswerView)
    requires
        s.action().accepts(answer),
    ensures
        follows(s, answer, s.next(answer).0),
{
}

proof fn lemma_reached_follows(config: ConfigView, answers: Seq<AnswerView>)
    requires
        fitting(config, answers),
        answers.len() > 0,
    ensures
        follows(reached(config, answers.drop_last()), answers.last(), reached(config, answers)),
{
    let n = answers.len() - 1;
    assert(answers.drop_last() =~= answers.take(n));
    assert(answers.take(answers.len() as int) =~= answers);
    lemma_reached_step(config, answers, n);
    lemma_follows(reached(config, answers.take(n)), answers[n]);
}

proof fn lemma_sound(config: ConfigView, answers: Seq<AnswerView>)
    requires
        fitting(config, answers),
    ensures
        sound(config, answers),
    decreases answers.len(),
{
    if answers.len() > 0 {
        let front = answers.drop_last();
        let n = answers.len() - 1;
        assert(front =~= answers.take(n));
        lemma_fitting_prefix(config, answers, n);
        lemma_sound(config, front);
        lemma_reached_follows(config, answers);
        lemma_answers_stay(config, answers);
        assert(answered_at(config, answers, n, reached(config, front).stage));
        assert(answers[n] == answers.last());
    } else {
        reveal(reached);
    }
}

/// A start that succeeds has found the statime binary and the plugin, has bound the device to
/// the selected interface's address, has written statime's configuration, was told by the
/// helper that statime runs as the reported process, has seen its clock appear, and has written
/// ALSA's configuration. It reports that the PipeWire nodes are set up exactly when their
/// configuration was written, which happens only where PipeWire is to be used.
pub proof fn success_means(config: ConfigView, answers: Seq<AnswerView>)
    requires
        fitting(config, answers),
        reached(config, answers).stage == Stage::Succeeded,
    ensures
        was_answered(config, answers, Stage::CheckBinary, AnswerView::Flag(true)),
        was_answered(config, answers, Stage::CheckPlugin, AnswerView::Flag(true)),
        was_bound(config, answers, reached(config, answers).bind_ip),
        was_answered(config, answers, Stage::WriteStatimeConfig, AnswerView::Outcome(None)),
        was_answered(config, answers, Stage::AwaitClock, AnswerView::Flag(true)),
        was_answered(config, answers, Stage::WriteAlsaConfig, AnswerView::Outcome(None)),
        reached(config, answers).result() matches Some(Ok(started)) && was_started(
            config,
            answers,
            started.statime_pid,
        ) && started.observation_path == config.observation_path && started.nodes_written
            == was_answered(config, answers, Stage::WriteNodes, AnswerView::Outcome(None)) && (
        started.nodes_written ==> config.use_pipewire),
{
    lemma_sound(config, answers);
}

/// Without a helper no start succeeds.
pub proof fn no_helper_no_start(config: ConfigView, answers: Seq<AnswerView>)
    requires
        fitting(config, answers),
        forall|i: int|
            0 <= i < answers.len() && (#[trigger] answers[i]) is Reply ==> answers[i]->Reply_0 is None,
    ensures
        reached(config, answers).stage != Stage::Succeeded,
{
    lemma_sound(config, answers);
}

/// The helper is asked for nothing, and no file is touched, before the statime binary, the
/// plugin and the interface's address have been found.
pub proof fn checks_come_first(config: ConfigView, answers: Seq<AnswerView>)
    requires
        fitting(config, answers),
        ({
            let action = reached(config, answers).action();
            action is WriteFile || action is RemoveFile || action is CreateDirectories
                || action is Send || action is Run
        }),
    ensures
        was_answered(config, answers, Stage::CheckBinary, AnswerView::Flag(true)),
        was_answered(config, answers, Stage::CheckPlugin, AnswerView::Flag(true)),
        was_bound(config, answers, reached(config, answers).bind_ip),
{
    lemma_sound(config, answers);
}

/// The user's ALSA and PipeWire configurations are left alone until statime runs and its clock
/// has appeared.
pub proof fn clock_comes_first(config: ConfigView, answers: Seq<AnswerView>)
    requires
        fitting(config, answers),
        ({
            let s = reached(config, answers);
            s.stage == Stage::WriteAlsaConfig || s.stage == Stage::WriteOverride || s.stage
                == Stage::WriteNodes || s.stage == Stage::RestartPipewire
        }),
    ensures
        was_started(config, answers, reached(config, answers).pid),
        was_answered(config, answers, Stage::AwaitClock, AnswerView::Flag(true)),
{
    lemma_sound(config, answers);
}

/// The helper understands the request to start statime as it is meant, for every path of the
/// statime binary without a tab. It is a single line where that path is.
pub proof fn start_request_is_understood(s: StartView)
    requires
        s.stage == Stage::StartStatime,
        !s.config.statime_bin.contains('\t'),
    ensures
        s.action() matches ActionView::Send(line) && protocol::parsed_command(text::trimmed(line))
            == (protocol::CommandView::StartStatime {
            binary: s.config.statime_bin,
            config: statime_config_file(),
        }) && (text::on_one_line(s.config.statime_bin) ==> text::on_one_line(line)),
{
    reveal_strlit("/tmp/idvs-statime.toml");
    protocol::start_line_is_understood(s.config.statime_bin, statime_config_file());
}

/// The helper understands the request to install the plugin as it is meant, in each of the
/// directories that are tried, for every path of the plugin without a tab. It is a single line
/// where that path is.
pub proof fn install_request_is_understood(s: StartView, i: usize)
    requires
        s.stage == Stage::FindAlsaDirectory(i),
        !s.config.inferno_so.contains('\t'),
    ensures
        ({
            let found = s.next(AnswerView::Flag(true)).0;
            let absent = found.next(AnswerView::Flag(false)).0;
            &&& found.action() == ActionView::CheckExists(found.target)
            &&& absent.action() matches ActionView::Send(line) && protocol::parsed_command(
                text::trimmed(line),
            ) == (protocol::CommandView::InstallPlugin {
                source: s.config.inferno_so,
                target: alsa_directory(i) + "/libasound_module_pcm_inferno.so"@,
            }) && (text::on_one_line(s.config.inferno_so) ==> text::on_one_line(line))
        }),
{
    reveal_strlit("/libasound_module_pcm_inferno.so");
    reveal_strlit("/usr/lib/x86_64-linux-gnu/alsa-lib");
    reveal_strlit("/usr/lib/aarch64-linux-gnu/alsa-lib");
    reveal_strlit("/usr/lib/arm-linux-gnueabihf/alsa-lib");
    reveal_strlit("/usr/lib64/alsa-lib");
    reveal_strlit("/usr/lib/alsa-lib");
    text::joined_on_one_line(alsa_directory(i), "/libasound_module_pcm_inferno.so"@);
    let target = alsa_directory(i) + "/libasound_module_pcm_inferno.so"@;
    assert(target.last() == 'o');
    protocol::install_line_is_understood(s.config.inferno_so, target);
}

// ---------------------------------------------------------------------------
// How a start goes about it
// ---------------------------------------------------------------------------

/// A start begins with its configuration and nothing done; it has failed already exactly where
/// no interface is selected.
pub proof fn start_needs_an_interface(config: ConfigView)
    ensures
        ({
            let s = StartView::begin(config);
            &&& s.config == config
            &&& config.interface.len() > 0 ==> s.action() == ActionView::CheckExists(
                config.statime_bin,
            ) && s.result() is None
            &&& config.interface.len() == 0 ==> s.result() == Some(
                Err::<StartedView, Seq<char>>("No network interface selected"@),
            )
            &&& !s.need_restart && !s.nodes_written
        }),
{
}

/// An answer changes only what it is about: the address when addresses were listed, the target
/// when a directory was found, the process when the helper was asked for one, home when it was
/// looked up, and the marks of PipeWire when its files were written. The configuration never
/// changes.
pub proof fn answers_change_what_they_are_about(s: StartView, answer: AnswerView)
    requires
        s.action().accepts(answer),
    ensures
        ({
            let t = s.next(answer).0;
            &&& t.config == s.config
            &&& t.bind_ip != s.bind_ip ==> answer is Addresses
            &&& t.target != s.target ==> s.action() is CheckDirectory && answer
                == AnswerView::Flag(true)
            &&& t.pid != s.pid ==> s.stage == Stage::StartStatime
            &&& answer matches AnswerView::Text(Some(home)) ==> t.home == home
            &&& answer == AnswerView::Text(None) ==> t.home == "."@
            &&& !(answer is Text) ==> t.home == s.home
            &&& t.nodes_written <==> s.nodes_written || (s.stage == Stage::WriteNodes && answer
                == AnswerView::Outcome(None))
            &&& t.need_restart <==> s.need_restart || ((s.stage == Stage::WriteNodes || s.stage
                == Stage::WriteOverride) && answer == AnswerView::Outcome(None))
            &&& t.error != s.error ==> t.stage == Stage::Failed
        }),
{
}

/// A start fails exactly where the binary or the plugin is not found, the interface has no
/// address, statime's or ALSA's configuration cannot be written, statime cannot be started, or
/// no clock appears. Nothing else makes it fail: neither PipeWire nor the plugin's installation
/// does.
pub proof fn start_fails_exactly_when(s: StartView, answer: AnswerView)
    requires
        s.action().accepts(answer),
    ensures
        s.next(answer).0.stage == Stage::Failed <==> match s.stage {
            Stage::CheckBinary => answer == AnswerView::Flag(false),
            Stage::CheckPlugin => answer == AnswerView::Flag(false),
            Stage::FindAddress => first_ip(answer->Addresses_0, s.config.interface) is None,
            Stage::WriteStatimeConfig => answer != AnswerView::Outcome(None),
            Stage::StartStatime => !exists|pid: u32| #[trigger] reports_pid(answer, pid),
            Stage::AwaitClock => answer == AnswerView::Flag(false),
            Stage::WriteAlsaConfig => answer != AnswerView::Outcome(None),
            _ => false,
        },
{
    if s.stage == Stage::StartStatime {
        if let Some(exchange) = answer->Reply_0 {
            if let Ok(line) = exchange.response() {
                if let Ok(pid) = protocol::started_pid(line) {
                    assert(reports_pid(answer, pid));
                }
            }
        }
    }
}

/// A start that fails says why: what is missing, by its path or name, or what went wrong, in the
/// words in which it was told. It logs nothing then.
pub proof fn failed_start_tells_why(s: StartView, answer: AnswerView)
    requires
        s.action().accepts(answer),
        s.next(answer).0.stage == Stage::Failed,
    ensures
        s.next(answer).1.len() == 0,
        s.next(answer).0.result() == Some(Err::<StartedView, Seq<char>>(s.next(answer).0.error)),
        s.next(answer).0.error == (match s.stage {
            Stage::CheckBinary => "statime binary not found: "@ + s.config.statime_bin,
            Stage::CheckPlugin => "Inferno ALSA plugin not found: "@ + s.config.inferno_so,
            Stage::FindAddress => "Could not find IPv4 address for interface '"@
                + s.config.interface + "'"@,
            Stage::WriteStatimeConfig => "Failed to write statime config: "@
                + answer->Outcome_0->0,
            Stage::StartStatime => match answer->Reply_0 {
                None => "Root helper is not running — cannot start statime."@,
                Some(exchange) => match exchange.response() {
                    Ok(line) => protocol::started_pid(line)->Err_0,
                    Err(e) => "Helper unreachable: "@ + e,
                },
            },
            Stage::AwaitClock => "Timed out waiting for clock socket '"@ + s.config.clock_path
                + "'. Is statime running?"@,
            _ => "Failed to write ~/.asoundrc: "@ + answer->Outcome_0->0,
        }),
{
}

/// The first steps of a start: it looks for the binary, the plugin and the address of the
/// selected interface, binds to the first address that is recorded for it, and writes statime's
/// configuration.
pub proof fn start_checks_and_writes(s: StartView, answer: AnswerView)
    requires
        s.action().accepts(answer),
    ensures
        ({
            let (t, lines) = s.next(answer);
            &&& s.stage == Stage::CheckBinary ==> s.action() == ActionView::CheckExists(
                s.config.statime_bin,
            ) && (answer == AnswerView::Flag(true) ==> t.action() == ActionView::CheckExists(
                s.config.inferno_so,
            ) && lines.len() == 0)
            &&& s.stage == Stage::CheckPlugin && answer == AnswerView::Flag(true) ==> t.action()
                == ActionView::ListAddresses && lines.len() == 0
            &&& s.stage == Stage::FindAddress ==> (first_ip(
                answer->Addresses_0,
                s.config.interface,
            ) matches Some(ip) ==> t.bind_ip == ip.dotted() && t.action() == (
            ActionView::WriteFile {
                path: "/tmp/idvs-statime.toml"@,
                content: s.config.statime_text(),
            }) && lines.len() == 0)
            &&& s.stage == Stage::WriteStatimeConfig && answer == AnswerView::Outcome(None)
                ==> t.action() == ActionView::CheckExists(s.config.clock_path) && lines == seq![
                "Wrote statime config to "@ + "/tmp/idvs-statime.toml"@,
            ]
        }),
{
}

/// A clock or observation socket is removed exactly where it is there, in this order and before
/// the plugin is seen to; whether that succeeds makes no difference.
pub proof fn stale_sockets_are_cleared(s: StartView, answer: AnswerView)
    requires
        s.action().accepts(answer),
    ensures
        ({
            let (t, lines) = s.next(answer);
            let look = ActionView::CheckExists(s.config.observation_path);
            &&& s.stage == Stage::CheckClockSocket ==> s.action() == ActionView::CheckExists(
                s.config.clock_path,
            ) && lines.len() == 0 && t.action() == (if answer->Flag_0 {
                ActionView::RemoveFile(s.config.clock_path)
            } else {
                look
            })
            &&& s.stage == Stage::RemoveClockSocket ==> t.stage == Stage::CheckObservationSocket
                && t.action() == look && lines.len() == 0
            &&& s.stage == Stage::CheckObservationSocket ==> lines.len() == 0 && t.action() == (
            if answer->Flag_0 {
                ActionView::RemoveFile(s.config.observation_path)
            } else {
                ActionView::CheckExists(s.config.inferno_so)
            })
            &&& s.stage == Stage::RemoveObservationSocket ==> t.stage == Stage::RecheckPlugin
                && t.action() == ActionView::CheckExists(s.config.inferno_so) && lines.len() == 0
            &&& s.stage == Stage::CheckObservationSocket && !answer->Flag_0 ==> t.stage
                == Stage::RecheckPlugin
            &&& s.stage == Stage::CheckClockSocket && !answer->Flag_0 ==> t.stage
                == Stage::CheckObservationSocket
        }),
{
}

/// The plugin's sizes decide: from a measured size of the plugin to install and one of the
/// installed plugin, the install is requested exactly where the two differ, be it smaller or
/// larger, and skipped exactly where they are the same. What cannot be measured counts as empty
/// in the source, and as one byte in the target, so it is installed.
pub proof fn sizes_decide_the_install(s: StartView, n: u64, m: u64)
    ensures
        s.stage == Stage::MeasureSource ==> s.action() == ActionView::MeasureFile(
            s.config.inferno_so,
        ) && s.next(AnswerView::Size(Some(n))) == (
            s.at(Stage::MeasureInstalled(n)),
            Seq::<Seq<char>>::empty(),
        ) && s.next(AnswerView::Size(None)) == (
            s.at(Stage::MeasureInstalled(0)),
            Seq::<Seq<char>>::empty(),
        ),
        s.stage == Stage::MeasureInstalled(n) ==> ({
            let (t, lines) = s.next(AnswerView::Size(Some(m)));
            &&& s.action() == ActionView::MeasureFile(s.target)
            &&& t.action() == ActionView::Send(
                protocol::install_line(s.config.inferno_so, s.target),
            ) && t.stage == Stage::InstallPlugin <==> n != m
            &&& t.stage == Stage::StartStatime <==> n == m
            &&& n != m ==> lines == seq!["Updating ALSA plugin at "@ + s.target + "..."@]
            &&& n == m ==> lines == seq![
                "ALSA plugin already installed at "@ + s.target,
                "Starting statime on interface '"@ + s.config.interface + "'..."@,
            ]
            &&& t == s.at(t.stage)
        }),
        s.stage == Stage::MeasureInstalled(n) ==> (s.next(AnswerView::Size(None)).0.stage
            == Stage::InstallPlugin <==> n != 1) && (s.next(AnswerView::Size(None)).0.stage
            == Stage::StartStatime <==> n == 1),
{
    let told = seq!["ALSA plugin already installed at "@ + s.target];
    assert(told.push("Starting statime on interface '"@ + s.config.interface + "'..."@) =~= seq![
        "ALSA plugin already installed at "@ + s.target,
        "Starting statime on interface '"@ + s.config.interface + "'..."@,
    ]);
}

/// Over a whole start: where the plugin and the one that is installed were measured, and their
/// sizes differ, an install of the one over the other is requested of the helper before statime
/// is started; where they are the same, none is requested at all.
pub proof fn differing_plugin_is_installed(
    config: ConfigView,
    answers: Seq<AnswerView>,
    i: int,
    j: int,
    k: int,
    n: u64,
    m: u64,
    stage: Stage,
)
    requires
        fitting(config, answers),
        answered_at(config, answers, i, Stage::MeasureSource),
        answers[i] == AnswerView::Size(Some(n)),
        answered_at(config, answers, j, stage),
        stage is MeasureInstalled,
        answers[j] == AnswerView::Size(Some(m)),
        answered_at(config, answers, k, Stage::StartStatime),
    ensures
        reached(config, answers.take(i)).action() == ActionView::MeasureFile(config.inferno_so),
        reached(config, answers.take(j)).action() is MeasureFile,
        n != m ==> j < j + 1 < k && reached(config, answers.take(j + 1)).action()
            == ActionView::Send(
            protocol::install_line(
                config.inferno_so,
                reached(config, answers.take(j)).action()->MeasureFile_0,
            ),
        ),
        n == m ==> forall|l: int| !#[trigger] answered_at(config, answers, l, Stage::InstallPlugin),
{
    lemma_fitting_prefix(config, answers, i);
    lemma_sound(config, answers.take(i));
    let s = reached(config, answers.take(i));
    lemma_reached_step(config, answers, i);
    sizes_decide_the_install(s, n, m);
    let measured = reached(config, answers.take(i + 1));
    assert(measured.stage == Stage::MeasureInstalled(n));
    if j < i + 1 {
        lemma_rank_grows(config, answers, j, i + 1);
    } else {
        lemma_rank_grows(config, answers, i + 1, j);
    }
    assert(j == i + 1);
    lemma_reached_step(config, answers, j);
    sizes_decide_the_install(measured, n, m);
    let decided = reached(config, answers.take(j + 1));
    if k < j + 1 {
        lemma_rank_grows(config, answers, k, j + 1);
    } else {
        lemma_rank_grows(config, answers, j + 1, k);
    }
    if n == m {
        assert forall|l: int| !#[trigger] answered_at(config, answers, l, Stage::InstallPlugin) by {
            if answered_at(config, answers, l, Stage::InstallPlugin) {
                if l < j + 1 {
                    lemma_rank_grows(config, answers, l, j);
                } else {
                    lemma_rank_grows(config, answers, j + 1, l);
                }
            }
        }
    }
}

/// The plugin is seen to: where it is still there, the directories are tried in turn, and the
/// first that exists is the one; a plugin that is there already is measured, and one that is not
/// is installed at once. Where the plugin is gone, or no directory exists, the start goes on
/// without it, and says so.
pub proof fn plugin_finds_its_directory(s: StartView, answer: AnswerView)
    requires
        s.action().accepts(answer),
    ensures
        ({
            let (t, lines) = s.next(answer);
            let starting = "Starting statime on interface '"@ + s.config.interface + "'..."@;
            &&& s.stage == Stage::RecheckPlugin ==> s.action() == ActionView::CheckExists(
                s.config.inferno_so,
            )
            &&& s.stage == Stage::RecheckPlugin && answer == AnswerView::Flag(true) ==> t.action()
                == ActionView::CheckDirectory("/usr/lib/x86_64-linux-gnu/alsa-lib"@) && t.stage
                == Stage::FindAlsaDirectory(0) && lines.len() == 0
            &&& s.stage == Stage::RecheckPlugin && answer == AnswerView::Flag(false) ==> t
                == s.at(Stage::StartStatime) && lines == seq![
                "Warning: inferno plugin not found at '"@ + s.config.inferno_so
                    + "' — skipping ALSA plugin install."@,
                "  Set the correct path in Advanced settings."@,
                starting,
            ]
            &&& s.stage matches Stage::FindAlsaDirectory(i) ==> ({
                &&& answer == AnswerView::Flag(true) ==> t.target
                    == s.action()->CheckDirectory_0 + "/libasound_module_pcm_inferno.so"@
                    && t.action() == ActionView::CheckExists(t.target) && t.stage
                    == Stage::CheckInstalled && lines.len() == 0
                &&& answer == AnswerView::Flag(false) && i < 4 ==> t == s.at(
                    Stage::FindAlsaDirectory((i + 1) as usize),
                ) && lines.len() == 0
                &&& answer == AnswerView::Flag(false) && i >= 4 ==> t == s.at(Stage::StartStatime)
                    && lines == seq![
                    "Warning: could not find system ALSA lib dir — inferno plugin not installed system-wide."@,
                    starting,
                ]
            })
            &&& s.stage == Stage::CheckInstalled ==> s.action() == ActionView::CheckExists(
                s.target,
            )
            &&& s.stage == Stage::CheckInstalled && answer == AnswerView::Flag(true) ==> t == s.at(
                Stage::MeasureSource,
            ) && lines.len() == 0
            &&& s.stage == Stage::CheckInstalled && answer == AnswerView::Flag(false) ==> t == s.at(
                Stage::InstallPlugin,
            ) && lines == seq!["Installing ALSA plugin to "@ + s.target + "..."@]
            &&& s.stage == Stage::InstallPlugin ==> s.action() == ActionView::Send(
                "INSTALL_PLUGIN\t"@ + s.config.inferno_so + "\t"@ + s.target,
            ) && t == s.at(Stage::StartStatime) && lines == seq![
                install_report(answer->Reply_0),
                starting,
            ]
        }),
        alsa_directory(0) == "/usr/lib/x86_64-linux-gnu/alsa-lib"@,
        alsa_directory(1) == "/usr/lib/aarch64-linux-gnu/alsa-lib"@,
        alsa_directory(2) == "/usr/lib/arm-linux-gnueabihf/alsa-lib"@,
        alsa_directory(3) == "/usr/lib64/alsa-lib"@,
        alsa_directory(4) == "/usr/lib/alsa-lib"@,
        s.stage matches Stage::FindAlsaDirectory(i) ==> s.action() == ActionView::CheckDirectory(
            alsa_directory(i),
        ),
{
    let (t, lines) = s.next(answer);
    let starting = "Starting statime on interface '"@ + s.config.interface + "'..."@;
    if s.stage == Stage::RecheckPlugin && answer == AnswerView::Flag(false) {
        assert(lines =~= seq![
            "Warning: inferno plugin not found at '"@ + s.config.inferno_so
                + "' — skipping ALSA plugin install."@,
            "  Set the correct path in Advanced settings."@,
            starting,
        ]);
    }
    if s.stage is FindAlsaDirectory && lines.len() > 0 {
        assert(lines =~= seq![
            "Warning: could not find system ALSA lib dir — inferno plugin not installed system-wide."@,
            starting,
        ]);
    }
    if s.stage == Stage::InstallPlugin {
        assert(lines =~= seq![install_report(answer->Reply_0), starting]);
    }
}

/// An install counts as a success exactly where the helper answers "OK", apart from white space
/// around it; otherwise what it answered, or why it did not, is passed on.
pub proof fn install_is_reported(reply: Option<protocol::ExchangeView>)
    ensures
        reply is None ==> install_report(reply)
            == "Warning: root helper not running — ALSA plugin not installed system-wide."@,
        reply matches Some(exchange) ==> (exchange.response() == Ok::<Seq<char>, Seq<char>>("OK"@)
            ==> install_report(reply) == "ALSA plugin installed successfully"@),
        reply matches Some(exchange) ==> (exchange.response() matches Ok(line) ==> (line != "OK"@
            ==> install_report(reply) == "Warning: ALSA plugin install failed: "@ + line
            + " — device may not appear in all apps"@)),
        reply matches Some(exchange) ==> (exchange.response() matches Err(e) ==> install_report(
            reply,
        ) == "Warning: ALSA plugin install failed: "@ + e
            + " — device may not appear in all apps"@),
{
}

/// Statime is started through the helper, from the configured binary and with the configuration
/// that was written; the process that the helper reports is taken for it, and its clock is waited
/// for, fifteen seconds at most, where the configuration says. After that ALSA's configuration is
/// written to the user's home, for the address that was found.
pub proof fn statime_is_started_and_awaited(s: StartView, answer: AnswerView, pid: u32)
    requires
        s.action().accepts(answer),
    ensures
        ({
            let (t, lines) = s.next(answer);
            &&& s.stage == Stage::StartStatime ==> s.action() == ActionView::Send(
                "START_STATIME\t"@ + s.config.statime_bin + "\t"@ + "/tmp/idvs-statime.toml"@,
            )
            &&& s.stage == Stage::StartStatime && reports_pid(answer, pid) ==> t == (StartView {
                pid,
                stage: Stage::AwaitClock,
                ..s
            }) && t.action() == (ActionView::WaitForPath {
                path: s.config.clock_path,
                seconds: 15,
            }) && lines == seq![
                "statime started (PID "@ + text::decimal(pid as nat) + ")"@,
                "Waiting for PTP clock socket at '"@ + s.config.clock_path + "'..."@,
            ]
            &&& s.stage == Stage::AwaitClock && answer == AnswerView::Flag(true) ==> t == s.at(
                Stage::ReadHome,
            ) && t.action() == ActionView::ReadHome && lines == seq![
                "PTP clock socket ready"@,
                "Writing ALSA configuration..."@,
            ]
            &&& s.stage == Stage::ReadHome ==> t.action() == (ActionView::WriteFile {
                path: t.home + "/.asoundrc"@,
                content: s.config.alsa_text(s.bind_ip),
            }) && lines.len() == 0
            &&& s.stage == Stage::WriteAlsaConfig && answer == AnswerView::Outcome(None)
                ==> lines.len() > 0 && lines[0] == "ALSA config written to "@ + (s.home
                + "/.asoundrc"@)
        }),
{
}

/// After ALSA's configuration was written, PipeWire is set up exactly where it is to be used:
/// otherwise the start has succeeded. The override is written only where there is none, in its
/// directory; the configuration of the nodes in any case, in its own.
pub proof fn pipewire_is_set_up_where_it_is_used(s: StartView, answer: AnswerView)
    requires
        s.action().accepts(answer),
    ensures
        ({
            let (t, lines) = s.next(answer);
            let fragments = ActionView::CreateDirectories(
                s.home + "/.config/pipewire/pipewire.conf.d"@,
            );
            &&& s.stage == Stage::WriteAlsaConfig && answer == AnswerView::Outcome(None) ==> (
            t.stage == Stage::ReadHomeForPipewire <==> s.config.use_pipewire) && (t.stage
                == Stage::Succeeded <==> !s.config.use_pipewire)
            &&& s.stage == Stage::WriteAlsaConfig && answer == AnswerView::Outcome(None)
                && s.config.use_pipewire ==> lines.len() == 1 && t.action() == ActionView::ReadHome
            &&& s.stage == Stage::ReadHomeForPipewire ==> t.action() == ActionView::CheckExists(
                t.home + "/.config/systemd/user/pipewire.service.d"@ + "/override.conf"@,
            ) && lines.len() == 0
            &&& s.stage == Stage::CheckOverride ==> t.action() == (if answer->Flag_0 {
                fragments
            } else {
                ActionView::CreateDirectories(
                    s.home + "/.config/systemd/user/pipewire.service.d"@,
                )
            }) && lines.len() == 0 && (t.stage == Stage::MakeNodesDirectory <==> answer->Flag_0)
            &&& s.stage == Stage::MakeOverrideDirectory ==> t.action() == (ActionView::WriteFile {
                path: s.home + "/.config/systemd/user/pipewire.service.d"@ + "/override.conf"@,
                content: "[Service]\nSystemCallFilter=@clock\n"@,
            }) && t.stage == Stage::WriteOverride && lines.len() == 0
            &&& s.stage == Stage::WriteOverride ==> t.stage == Stage::MakeNodesDirectory
                && t.action() == fragments && lines == (if answer == AnswerView::Outcome(None) {
                seq!["Installed PipeWire clock syscall override"@]
            } else {
                seq![
                    "Warning: could not write PipeWire clock override"@,
                    "  Run manually: systemctl --user daemon-reload && systemctl --user restart pipewire"@,
                ]
            })
            &&& s.stage == Stage::MakeNodesDirectory ==> t.action() == (ActionView::WriteFile {
                path: s.home + "/.config/pipewire/pipewire.conf.d/idvs-dante.conf"@,
                content: pipewire::nodes_text(s.config),
            }) && t.stage == Stage::WriteNodes && lines.len() == 0
        }),
{
}

/// PipeWire is restarted exactly where something of its configuration was written, the override
/// or the nodes; where the nodes were, it is given two seconds to come up. Where they could not
/// be, that is told, and the start succeeds without them.
pub proof fn pipewire_is_restarted_where_something_was_written(s: StartView, answer: AnswerView)
    requires
        s.action().accepts(answer),
    ensures
        ({
            let (t, lines) = s.next(answer);
            let written = answer == AnswerView::Outcome(None);
            &&& s.stage == Stage::WriteNodes ==> (t.action() == (ActionView::Run {
                program: "systemctl"@,
                args: seq!["--user"@, "daemon-reload"@],
            }) <==> written || s.need_restart) && (t.stage == Stage::Succeeded <==> !written
                && !s.need_restart)
            &&& s.stage == Stage::WriteNodes && written ==> lines == seq![
                "Wrote PipeWire Dante node config to "@ + (s.home
                    + "/.config/pipewire/pipewire.conf.d/idvs-dante.conf"@),
                "Restarting PipeWire to apply config..."@,
            ]
            &&& s.stage == Stage::WriteNodes && !written ==> lines.len() >= 3 && lines[0]
                == "Warning: could not write PipeWire Dante config: "@ + answer->Outcome_0->0
                && lines[1]
                == "  PipeWire nodes will not be created; Dante device may not appear in audio router"@
                && (s.need_restart ==> lines.len() == 3 && lines[2]
                == "Restarting PipeWire to apply config..."@)
            &&& s.stage == Stage::ReloadUnits ==> t.action() == (ActionView::Run {
                program: "systemctl"@,
                args: seq!["--user"@, "restart"@, "pipewire"@],
            }) && t.stage == Stage::RestartPipewire && lines.len() == 0
            &&& s.stage == Stage::RestartPipewire ==> (t.action() == (ActionView::Pause {
                seconds: 2,
            }) <==> s.nodes_written) && (t.stage == Stage::Succeeded <==> !s.nodes_written)
                && lines.len() > 0 && lines[0] == "PipeWire restarted"@ && (s.nodes_written
                ==> lines.len() == 1)
            &&& s.stage == Stage::Settle ==> t.stage == Stage::Succeeded
        }),
{
    let (t, lines) = s.next(answer);
    if s.stage == Stage::WriteNodes && answer == AnswerView::Outcome(None) {
        assert(lines =~= seq![
            "Wrote PipeWire Dante node config to "@ + (s.home
                + "/.config/pipewire/pipewire.conf.d/idvs-dante.conf"@),
            "Restarting PipeWire to apply config..."@,
        ]);
    }
    if s.stage == Stage::WriteNodes {
        assert(seq!["--user"@, "daemon-reload"@].len() == 2);
    }
}

/// A start that succeeds says so in its last lines: that it is complete, which ALSA devices there
/// are, and, exactly where the nodes were written, how they are called. It then reports the
/// process that was started, the configured observation socket, and whether the nodes were
/// written.
pub proof fn successful_start_tells_of_it(s: StartView, answer: AnswerView)
    requires
        s.action().accepts(answer),
        s.next(answer).0.stage == Stage::Succeeded,
    ensures
        ({
            let (t, lines) = s.next(answer);
            let n = lines.len() as int;
            let nodes = if t.nodes_written {
                1int
            } else {
                0int
            };
            &&& n >= 2 + nodes
            &&& lines[n - nodes - 2] == "--- Startup complete ---"@
            &&& lines[n - nodes - 1] == "ALSA device: dante (or dante_plug for format conversion)"@
            &&& t.nodes_written ==> lines[n - 1] == "PipeWire nodes: '"@ + s.config.device_name
                + "-sink' / '"@ + s.config.device_name + "-source' visible in audio mixer"@
            &&& n - nodes - 2 == (match s.stage {
                Stage::WriteAlsaConfig => 1int,
                Stage::WriteNodes => 2int,
                Stage::RestartPipewire => 1int,
                _ => 0int,
            })
            &&& t.result() == Some(
                Ok::<StartedView, Seq<char>>(
                    StartedView {
                        statime_pid: s.pid,
                        observation_path: s.config.observation_path,
                        nodes_written: t.nodes_written,
                    },
                ),
            )
        }),
{
}

/// A start has a result exactly when there is nothing left to do.
pub proof fn start_has_a_result_in_the_end(s: StartView)
    ensures
        s.result() is Some <==> s.action() == ActionView::Nothing,
        s.result() is Some <==> s.stage == Stage::Succeeded || s.stage == Stage::Failed,
        s.stage == Stage::Settle ==> s.action() == (ActionView::Pause { seconds: 2 }),
{
}

/// Everyone looks for the clock at the same place. Over a whole start, the path that is waited
/// for is the configured one; statime is told to export its clock there, and ALSA to look for it
/// there; and statime is told the interface whose address ALSA is bound to.
pub proof fn clock_is_looked_for_where_it_is(config: ConfigView, answers: Seq<AnswerView>)
    requires
        fitting(config, answers),
    ensures
        ({
            let s = reached(config, answers);
            &&& s.action() matches ActionView::WaitForPath { path, .. } ==> path
                == config.clock_path
            &&& s.stage == Stage::WriteStatimeConfig ==> s.action()->WriteFile_path
                == "/tmp/idvs-statime.toml"@ && text::stands_between(
                s.action()->WriteFile_content,
                "\nusrvclock-path = \""@,
                config.clock_path,
                "\"\n"@,
            ) && text::stands_between(
                s.action()->WriteFile_content,
                "\n[[port]]\ninterface = \""@,
                config.interface,
                "\"\n"@,
            ) && text::stands_between(
                s.action()->WriteFile_content,
                "\n[observability]\nobservation-path = \""@,
                config.observation_path,
                "\"\n"@,
            )
            &&& s.stage == Stage::WriteAlsaConfig ==> was_bound(config, answers, s.bind_ip)
                && text::stands_between(
                s.action()->WriteFile_content,
                "\n    CLOCK_PATH \""@,
                config.clock_path,
                "\"\n"@,
            ) && text::stands_between(
                s.action()->WriteFile_content,
                "\n    BIND_IP \""@,
                s.bind_ip,
                "\"\n"@,
            )
            &&& s.result() matches Some(Ok(started)) ==> started.observation_path
                == config.observation_path
        }),
{
    lemma_sound(config, answers);
    crate::config::statime_is_told(config);
    crate::config::alsa_is_told(config, reached(config, answers).bind_ip);
}

/// A start at another stage is the same in all else.
pub proof fn start_keeps_the_rest(s: StartView, stage: Stage)
    ensures
        s.at(stage) == (StartView { stage: s.at(stage).stage, ..s }),
        s.at(stage).stage == stage,
{
}

} // verus!
