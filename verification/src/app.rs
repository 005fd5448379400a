//! What the window shows and decides.

use crate::config::{Config, ConfigView};
use crate::network::{interface_label, interfaces_view, Ipv4, NetworkInterface};
use crate::ptp::PtpStatus;
use crate::text;
use crate::worker::{
    events_view, WorkerCmd, WorkerCmdView, WorkerEvent, WorkerEventView, WorkerState,
    WorkerStateView,
};
use vstd::prelude::*;
use vstd::string::*;

verus! {

/// How many lines the log holds at most.
pub const LOG_LIMIT: usize = 2000;

/// How many lines are dropped at once when the log is full.
pub const LOG_DROP: usize = 500;

/// The only sample rate that is started.
pub const START_RATE: u32 = 48000;

/// The state of the window.
pub struct App {
    pub config: Config,
    pub state: WorkerState,
    pub logs: Vec<String>,
    pub ptp: PtpStatus,
    pub interfaces: Vec<NetworkInterface>,
    pub show_settings: bool,
    pub show_log: bool,
    pub show_about: bool,
    /// Whether the window closes once everything has stopped.
    pub pending_close: bool,
}

/// An [`App`] with its texts as sequences of characters.
pub struct AppView {
    pub config: ConfigView,
    pub state: WorkerStateView,
    pub logs: Seq<Seq<char>>,
    pub ptp: PtpStatus,
    pub interfaces: Seq<(Seq<char>, Option<Ipv4>)>,
    pub show_settings: bool,
    pub show_log: bool,
    pub show_about: bool,
    pub pending_close: bool,
}

impl View for App {
    type V = AppView;

    open spec fn view(&self) -> AppView {
        AppView {
            config: self.config@,
            state: self.state@,
            logs: text::texts(self.logs@),
            ptp: self.ptp,
            interfaces: interfaces_view(self.interfaces@),
            show_settings: self.show_settings,
            show_log: self.show_log,
            show_about: self.show_about,
            pending_close: self.pending_close,
        }
    }
}

impl WorkerStateView {
    /// Whether the soundcard runs.
    pub open spec fn is_running(self) -> bool {
        self is Running
    }

    /// Whether it neither runs nor rests: it is being started or stopped.
    pub open spec fn is_busy(self) -> bool {
        !(self is Idle || self is Running || self is Error)
    }
}

/// What has to be done about the window in a frame.
pub struct Frame {
    /// The request to close the window is turned down.
    pub cancel_close: bool,
    /// A command for the worker.
    pub command: Option<WorkerCmd>,
    /// The window is closed.
    pub close: bool,
    /// The window is drawn again soon, though nobody touches it.
    pub repaint: bool,
}

/// A [`Frame`] with its texts as sequences of characters.
pub struct FrameView {
    pub cancel_close: bool,
    pub command: Option<WorkerCmdView>,
    pub close: bool,
    pub repaint: bool,
}

impl View for Frame {
    type V = FrameView;

    open spec fn view(&self) -> FrameView {
        FrameView {
            cancel_close: self.cancel_close,
            command: match self.command {
                Some(c) => Some(c@),
                None => None,
            },
            close: self.close,
            repaint: self.repaint,
        }
    }
}

/// The log after one more line: when it grows over its limit, its oldest lines go.
pub open spec fn log_with(logs: Seq<Seq<char>>, line: Seq<char>) -> Seq<Seq<char>> {
    let longer = logs.push(line);
    if longer.len() > LOG_LIMIT {
        longer.skip(LOG_DROP as int)
    } else {
        longer
    }
}

impl AppView {
    /// The window at first.
    pub open spec fn initial(
        config: ConfigView,
        interfaces: Seq<(Seq<char>, Option<Ipv4>)>,
    ) -> AppView {
        AppView {
            config,
            state: WorkerStateView::Idle,
            logs: Seq::empty(),
            ptp: PtpStatus::none(),
            interfaces,
            show_settings: false,
            show_log: false,
            show_about: false,
            pending_close: false,
        }
    }

    /// The window after an event.
    pub open spec fn after(self, event: WorkerEventView) -> AppView {
        match event {
            WorkerEventView::Log(line) => AppView { logs: log_with(self.logs, line), ..self },
            WorkerEventView::StateChanged(state) => AppView { state, ..self },
            WorkerEventView::PtpStatus(ptp) => AppView { ptp, ..self },
        }
    }

    /// The window after events in turn.
    pub open spec fn after_all(self, events: Seq<WorkerEventView>) -> AppView
        decreases events.len(),
    {
        if events.len() == 0 {
            self
        } else {
            self.after_all(events.drop_last()).after(events.last())
        }
    }

    /// The window when the soundcard is started: with the rate that is started, an empty log,
    /// and nothing known of the clock.
    pub open spec fn started(self) -> AppView {
        AppView {
            config: ConfigView { sample_rate: START_RATE, ..self.config },
            logs: Seq::empty(),
            ptp: PtpStatus::none(),
            ..self
        }
    }

    /// The window after its button was pressed, and the command that goes to the worker.
    pub open spec fn pressed(self) -> (AppView, WorkerCmdView) {
        if self.state.is_running() {
            (self, WorkerCmdView::Stop)
        } else {
            (self.started(), WorkerCmdView::Start(self.started().config))
        }
    }

    /// The window after the decisions of a frame.
    pub open spec fn framed(self, close_requested: bool) -> AppView {
        AppView {
            pending_close: self.pending_close || (close_requested && (self.state.is_running()
                || self.state.is_busy())),
            ..self
        }
    }

    /// The decisions of a frame. While the soundcard runs or is busy, the window does not close
    /// at once: it stops the soundcard, unless it is being stopped already, and closes when that
    /// is done.
    pub open spec fn frame(self, close_requested: bool) -> FrameView {
        let active = self.state.is_running() || self.state.is_busy();
        FrameView {
            cancel_close: close_requested && active,
            command: if close_requested && active && !(self.state is Stopping) {
                Some(WorkerCmdView::Stop)
            } else {
                None
            },
            close: self.framed(close_requested).pending_close && (self.state is Idle
                || self.state is Error),
            repaint: active || self.framed(close_requested).pending_close,
        }
    }

    /// What the choice of the interface says.
    pub open spec fn interface_text(self) -> Seq<char> {
        if self.config.interface.len() == 0 {
            "Select interface..."@
        } else {
            named_label(self.interfaces, self.config.interface)
        }
    }
}

/// The first interface of that name in words, or the name alone where there is none.
pub open spec fn named_label(
    interfaces: Seq<(Seq<char>, Option<Ipv4>)>,
    name: Seq<char>,
) -> Seq<char>
    decreases interfaces.len(),
{
    if interfaces.len() == 0 {
        name
    } else if interfaces[0].0 == name {
        interface_label(interfaces[0].0, interfaces[0].1)
    } else {
        named_label(interfaces.drop_first(), name)
    }
}

// ---------------------------------------------------------------------------
// The status panel
// ---------------------------------------------------------------------------

/// The colours of the status panel.
#[derive(Clone, Copy, Debug, PartialEq, Eq, Structural)]
pub enum Tone {
    DarkGray,
    Gold,
    Green,
    Red,
}

/// The badge of a state of the worker and the clock: its text and colour.
pub open spec fn badge_of(state: WorkerStateView, ptp: PtpStatus) -> (Seq<char>, Tone) {
    match state {
        WorkerStateView::Idle => ("Stopped"@, Tone::DarkGray),
        WorkerStateView::StartingStatime => ("Starting statime..."@, Tone::Gold),
        WorkerStateView::WaitingForClock => ("Waiting for clock sync..."@, Tone::Gold),
        WorkerStateView::ConfiguringAlsa => ("Configuring ALSA..."@, Tone::Gold),
        WorkerStateView::AddingPipeWireNode => ("Adding PipeWire node..."@, Tone::Gold),
        WorkerStateView::Running { .. } => if ptp.synced {
            ("Live  (Clock Synced)"@, Tone::Green)
        } else if ptp.has_data {
            ("Running (Syncing...)"@, Tone::Gold)
        } else {
            ("Running (waiting for clock...)"@, Tone::Gold)
        },
        WorkerStateView::Stopping => ("Stopping..."@, Tone::Gold),
        WorkerStateView::Error(_) => ("Error"@, Tone::Red),
    }
}

/// What a row of the status panel shows.
#[derive(Clone, Copy, Debug, PartialEq, Eq, Structural)]
pub enum Row {
    /// The clock's offset, in units of 2^-32 nanoseconds.
    ClockOffset(i64),
    /// The network's delay, in units of 2^-32 nanoseconds.
    NetworkDelay(i64),
    /// That the clock is waited for.
    ClockAwaited,
    /// The name of the ALSA device.
    AlsaDevice,
    /// The name of the ALSA device that converts formats.
    AlsaPlugDevice,
}

impl Row {
    /// The label of a row.
    pub open spec fn label_view(self) -> Seq<char> {
        match self {
            Row::ClockOffset(_) => "Clock Offset:"@,
            Row::NetworkDelay(_) => "Network Delay:"@,
            Row::ClockAwaited => "Clock:"@,
            Row::AlsaDevice => "ALSA Device:"@,
            Row::AlsaPlugDevice => "ALSA plug device:"@,
        }
    }

    /// The label of a row.
    pub fn label(&self) -> (r: &'static str)
        ensures
            r@ == self.label_view(),
    {
        match self {
            Row::ClockOffset(_) => "Clock Offset:",
            Row::NetworkDelay(_) => "Network Delay:",
            Row::ClockAwaited => "Clock:",
            Row::AlsaDevice => "ALSA Device:",
            Row::AlsaPlugDevice => "ALSA plug device:",
        }
    }

    /// The text of a row, or none where it shows a time.
    pub open spec fn value_view(self) -> Option<Seq<char>> {
        match self {
            Row::ClockOffset(_) => None,
            Row::NetworkDelay(_) => None,
            Row::ClockAwaited => Some("Waiting for sync..."@),
            Row::AlsaDevice => Some("dante"@),
            Row::AlsaPlugDevice => Some("dante_plug"@),
        }
    }

    /// The text of a row, or none where it shows a time.
    pub fn value(&self) -> (r: Option<&'static str>)
        ensures
            crate::config::opt_text(r) == (match *self {
                Row::ClockOffset(_) => None,
                Row::NetworkDelay(_) => None,
                Row::ClockAwaited => Some("Waiting for sync..."@),
                Row::AlsaDevice => Some("dante"@),
                Row::AlsaPlugDevice => Some("dante_plug"@),
            }),
            crate::config::opt_text(r) == self.value_view(),
    {
        match self {
            Row::ClockOffset(_) => None,
            Row::NetworkDelay(_) => None,
            Row::ClockAwaited => Some("Waiting for sync..."),
            Row::AlsaDevice => Some("dante"),
            Row::AlsaPlugDevice => Some("dante_plug"),
        }
    }
}

/// The rows about the clock.
pub open spec fn clock_rows(state: WorkerStateView, ptp: PtpStatus) -> Seq<Row> {
    if ptp.has_data {
        seq![Row::ClockOffset(ptp.offset_bits), Row::NetworkDelay(ptp.delay_bits)]
    } else if state.is_running() {
        seq![Row::ClockAwaited]
    } else {
        Seq::empty()
    }
}

/// The rows of the status panel.
pub open spec fn rows_of(state: WorkerStateView, ptp: PtpStatus) -> Seq<Row> {
    if state.is_running() {
        clock_rows(state, ptp).push(Row::AlsaDevice).push(Row::AlsaPlugDevice)
    } else {
        clock_rows(state, ptp)
    }
}

/// The button of the status panel.
#[derive(Clone, Copy, Debug, PartialEq, Eq, Structural)]
pub struct Button {
    pub face: ButtonFace,
    pub enabled: bool,
}

/// What the button says.
#[derive(Clone, Copy, Debug, PartialEq, Eq, Structural)]
pub enum ButtonFace {
    Start,
    Starting,
    Stop,
}

/// The button in a state: it stops what runs and starts what rests; while neither is so it
/// cannot be pressed.
pub open spec fn button_of(state: WorkerStateView) -> Button {
    Button {
        face: if state.is_running() || state is Stopping {
            ButtonFace::Stop
        } else if state.is_busy() {
            ButtonFace::Starting
        } else {
            ButtonFace::Start
        },
        enabled: state.is_running() || !state.is_busy(),
    }
}

impl ButtonFace {
    /// The text of the button.
    pub fn text(&self) -> (r: &'static str)
        ensures
            r@ == (match *self {
                ButtonFace::Start => "▶  Start"@,
                ButtonFace::Starting => "Starting…"@,
                ButtonFace::Stop => "■  Stop"@,
            }),
    {
        match self {
            ButtonFace::Start => "▶  Start",
            ButtonFace::Starting => "Starting…",
            ButtonFace::Stop => "■  Stop",
        }
    }
}

/// How a state is called while something is under way.
pub open spec fn label_of(state: WorkerStateView) -> Seq<char> {
    match state {
        WorkerStateView::StartingStatime => "Starting statime..."@,
        WorkerStateView::WaitingForClock => "Waiting for clock sync..."@,
        WorkerStateView::ConfiguringAlsa => "Configuring ALSA..."@,
        WorkerStateView::AddingPipeWireNode => "Adding PipeWire node..."@,
        WorkerStateView::Stopping => "Stopping..."@,
        _ => ""@,
    }
}

/// What a state is called while something is under way.
pub fn state_label(state: &WorkerState) -> (r: &'static str)
    ensures
        r@ == label_of(state@),
{
    match state {
        WorkerState::StartingStatime => "Starting statime...",
        WorkerState::WaitingForClock => "Waiting for clock sync...",
        WorkerState::ConfiguringAlsa => "Configuring ALSA...",
        WorkerState::AddingPipeWireNode => "Adding PipeWire node...",
        WorkerState::Stopping => "Stopping...",
        _ => "",
    }
}

/// How the running soundcard is used.
pub open spec fn usage_of(state: WorkerStateView, config: ConfigView) -> Seq<Seq<char>> {
    if !state.is_running() {
        Seq::empty()
    } else if config.use_pipewire {
        seq![
            "ALSA: use device name 'dante' or 'dante_plug'"@,
            "PipeWire: sink '"@ + config.device_name + "' visible in audio router"@,
        ]
    } else {
        seq!["ALSA: use device name 'dante' or 'dante_plug'"@]
    }
}

impl App {
    /// The window at first.
    pub fn new(config: Config, interfaces: Vec<NetworkInterface>) -> (r: App)
        ensures
            r@ == AppView::initial(config@, interfaces_view(interfaces@)),
    {
        let logs: Vec<String> = Vec::new();
        assert(text::texts(logs@) =~= Seq::<Seq<char>>::empty());
        App {
            config,
            state: WorkerState::Idle,
            logs,
            ptp: PtpStatus::default(),
            interfaces,
            show_settings: false,
            show_log: false,
            show_about: false,
            pending_close: false,
        }
    }

    /// Whether the soundcard runs.
    pub fn is_running(&self) -> (r: bool)
        ensures
            r == self@.state.is_running(),
    {
        matches!(self.state, WorkerState::Running { .. })
    }

    /// Whether the soundcard is being started or stopped.
    pub fn is_busy(&self) -> (r: bool)
        ensures
            r == self@.state.is_busy(),
    {
        !matches!(self.state, WorkerState::Idle | WorkerState::Running { .. } | WorkerState::Error(_))
    }

    /// Takes in an event.
    pub fn receive(&mut self, event: WorkerEvent)
        ensures
            final(self)@ == old(self)@.after(event@),
    {
        match event {
            WorkerEvent::Log(line) => {
                self.logs.push(line);
                assert(text::texts(self.logs@) =~= old(self)@.logs.push(line@));
                if self.logs.len() > LOG_LIMIT {
                    let ghost longer = self.logs@;
                    let kept = self.logs.split_off(LOG_DROP);
                    assert(text::texts(kept@) =~= text::texts(longer).skip(LOG_DROP as int));
                    self.logs = kept;
                }
            },
            WorkerEvent::StateChanged(state) => {
                self.state = state;
            },
            WorkerEvent::PtpStatus(ptp) => {
                self.ptp = ptp;
            },
        }
    }

    /// Takes in events in turn.
    pub fn drain_events(&mut self, events: Vec<WorkerEvent>)
        ensures
            final(self)@ == old(self)@.after_all(events_view(events@)),
    {
        let ghost all = events_view(events@);
        let ghost given = events@;
        for event in it: events
            invariant
                all == events_view(given),
                it.seq() == given,
                self@ == old(self)@.after_all(all.take(it.index() as int)),
        {
            let ghost n = it.index() as int;
            self.receive(event);
            assert(all.take(n + 1).drop_last() =~= all.take(n));
            assert(all.take(n + 1).last() == event@);
        }
        assert(all.take(all.len() as int) =~= all);
    }

    /// Starts the soundcard. The configuration is then to be saved, and the command sent.
    pub fn start(&mut self) -> (r: WorkerCmd)
        ensures
            final(self)@ == old(self)@.started(),
            r@ == WorkerCmdView::Start(final(self)@.config),
    {
        self.config.sample_rate = START_RATE;
        self.logs.clear();
        assert(text::texts(self.logs@) =~= Seq::<Seq<char>>::empty());
        self.ptp = PtpStatus::default();
        WorkerCmd::Start(self.config.clone())
    }

    /// Stops the soundcard.
    pub fn stop(&self) -> (r: WorkerCmd)
        ensures
            r@ == WorkerCmdView::Stop,
    {
        WorkerCmd::Stop
    }

    /// The button is pressed.
    pub fn press_button(&mut self) -> (r: WorkerCmd)
        requires
            button_of(old(self)@.state).enabled,
        ensures
            old(self)@.state.is_running() ==> final(self)@ == old(self)@ && r@
                == WorkerCmdView::Stop,
            !old(self)@.state.is_running() ==> final(self)@ == old(self)@.started() && r@
                == WorkerCmdView::Start(final(self)@.config),
            (final(self)@, r@) == old(self)@.pressed(),
    {
        if self.is_running() {
            self.stop()
        } else {
            self.start()
        }
    }

    /// Decides what has to be done about the window in a frame.
    pub fn frame(&mut self, close_requested: bool) -> (r: Frame)
        ensures
            final(self)@ == old(self)@.framed(close_requested),
            r@ == old(self)@.frame(close_requested),
    {
        let active = self.is_running() || self.is_busy();
        let mut cancel_close = false;
        let mut command: Option<WorkerCmd> = None;
        if close_requested && active {
            cancel_close = true;
            if !matches!(self.state, WorkerState::Stopping) {
                command = Some(self.stop());
            }
            self.pending_close = true;
        }
        let close = self.pending_close && matches!(
            self.state,
            WorkerState::Idle | WorkerState::Error(_)
        );
        Frame { cancel_close, command, close, repaint: active || self.pending_close }
    }

    /// The badge of the status panel.
    pub fn badge(&self) -> (r: (&'static str, Tone))
        ensures
            (r.0@, r.1) == badge_of(self@.state, self@.ptp),
    {
        match &self.state {
            WorkerState::Idle => ("Stopped", Tone::DarkGray),
            WorkerState::StartingStatime => ("Starting statime...", Tone::Gold),
            WorkerState::WaitingForClock => ("Waiting for clock sync...", Tone::Gold),
            WorkerState::ConfiguringAlsa => ("Configuring ALSA...", Tone::Gold),
            WorkerState::AddingPipeWireNode => ("Adding PipeWire node...", Tone::Gold),
            WorkerState::Running { .. } => if self.ptp.synced {
                ("Live  (Clock Synced)", Tone::Green)
            } else if self.ptp.has_data {
                ("Running (Syncing...)", Tone::Gold)
            } else {
                ("Running (waiting for clock...)", Tone::Gold)
            },
            WorkerState::Stopping => ("Stopping...", Tone::Gold),
            WorkerState::Error(_) => ("Error", Tone::Red),
        }
    }

    /// The rows of the status panel.
    pub fn rows(&self) -> (r: Vec<Row>)
        ensures
            r@ == rows_of(self@.state, self@.ptp),
    {
        let mut r: Vec<Row> = Vec::new();
        if self.ptp.has_data {
            r.push(Row::ClockOffset(self.ptp.offset_bits));
            r.push(Row::NetworkDelay(self.ptp.delay_bits));
        } else if self.is_running() {
            r.push(Row::ClockAwaited);
        }
        assert(r@ =~= clock_rows(self@.state, self@.ptp));
        if self.is_running() {
            r.push(Row::AlsaDevice);
            r.push(Row::AlsaPlugDevice);
        }
        r
    }

    /// The error that is shown, if there is one.
    pub fn error(&self) -> (r: Option<&String>)
        ensures
            match self@.state {
                WorkerStateView::Error(e) => r matches Some(shown) && shown@ == e,
                _ => r is None,
            },
    {
        match &self.state {
            WorkerState::Error(e) => Some(e),
            _ => None,
        }
    }

    /// How the running soundcard is used.
    pub fn usage(&self) -> (r: Vec<String>)
        ensures
            text::texts(r@) == usage_of(self@.state, self@.config),
    {
        let mut r: Vec<String> = Vec::new();
        if self.is_running() {
            r.push("ALSA: use device name 'dante' or 'dante_plug'".to_owned());
            if self.config.use_pipewire {
                r.push(
                    "PipeWire: sink '".to_owned().concat(self.config.device_name.as_str()).concat(
                        "' visible in audio router",
                    ),
                );
            }
        }
        assert(text::texts(r@) =~= usage_of(self@.state, self@.config));
        r
    }

    /// The button of the status panel.
    pub fn button(&self) -> (r: Button)
        ensures
            r == button_of(self@.state),
    {
        let running = self.is_running();
        let stopping = matches!(self.state, WorkerState::Stopping);
        let starting = self.is_busy() && !stopping;
        Button {
            face: if running || stopping {
                ButtonFace::Stop
            } else if starting {
                ButtonFace::Starting
            } else {
                ButtonFace::Start
            },
            enabled: running || (!starting && !stopping),
        }
    }

    /// What is under way, where something is.
    pub fn progress(&self) -> (r: Option<&'static str>)
        ensures
            crate::config::opt_text(r) == (if self@.state.is_busy() {
                Some(label_of(self@.state))
            } else {
                None
            }),
    {
        if self.is_busy() {
            Some(state_label(&self.state))
        } else {
            None
        }
    }

    // -----------------------------------------------------------------------
    // The configuration panel
    // -----------------------------------------------------------------------

    /// What the choice of the interface says.
    pub fn interface_text(&self) -> (r: String)
        ensures
            r@ == self@.interface_text(),
    {
        let name = self.config.interface.as_str();
        if name.is_empty() {
            return "Select interface...".to_owned();
        }
        let ghost list = interfaces_view(self.interfaces@);
        let mut i: usize = 0;
        assert(list.skip(0) =~= list);
        while i < self.interfaces.len()
            invariant
                i <= self.interfaces@.len(),
                list == interfaces_view(self.interfaces@),
                named_label(list, name@) == named_label(list.skip(i as int), name@),
                self@.interface_text() == named_label(list, name@),
            decreases self.interfaces@.len() - i,
        {
            assert(list.skip(i as int)[0] == (
                self.interfaces@[i as int].name@,
                self.interfaces@[i as int].ip,
            ));
            if text::same_text(self.interfaces[i].name.as_str(), name) {
                return self.interfaces[i].label();
            }
            assert(list.skip(i as int).drop_first() =~= list.skip(i + 1));
            i = i + 1;
        }
        name.to_owned()
    }

    /// Selects an interface.
    pub fn select_interface(&mut self, name: &str)
        ensures
            final(self)@ == (AppView {
                config: ConfigView { interface: name@, ..old(self)@.config },
                ..old(self)@
            }),
    {
        self.config.interface = name.to_owned();
    }

    /// Chooses a number of channels, the same in both directions.
    pub fn choose_channels(&mut self, n: u32)
        ensures
            final(self)@ == (AppView {
                config: ConfigView { tx_channels: n, rx_channels: n, ..old(self)@.config },
                ..old(self)@
            }),
    {
        self.config.tx_channels = n;
        self.config.rx_channels = n;
    }

    /// Whether a number of channels is the chosen one.
    pub fn channels_chosen(&self, n: u32) -> (r: bool)
        ensures
            r == (self@.config.tx_channels == n && self@.config.rx_channels == n),
    {
        self.config.tx_channels == n && self.config.rx_channels == n
    }

    /// Chooses a latency in nanoseconds.
    pub fn choose_latency(&mut self, ns: u32)
        ensures
            final(self)@ == (AppView {
                config: ConfigView { latency_ns: ns, ..old(self)@.config },
                ..old(self)@
            }),
    {
        self.config.latency_ns = ns;
    }
}

/// Numbers of channels in words.
pub open spec fn channels_label_of(tx: u32, rx: u32) -> Seq<char> {
    text::decimal(tx as nat) + "×"@ + text::decimal(rx as nat)
}

/// Puts numbers of channels in words.
pub fn channels_label(tx: u32, rx: u32) -> (r: String)
    ensures
        r@ == channels_label_of(tx, rx),
{
    text::decimal_text(tx).concat("×").concat(text::decimal_text(rx).as_str())
}

/// The numbers of channels that can be chosen.
pub fn channel_choices() -> (r: Vec<u32>)
    ensures
        r@ == seq![8u32, 16, 32, 64],
{
    vec![8u32, 16, 32, 64]
}

/// A latency in words: in whole milliseconds.
pub open spec fn latency_label_of(ns: u32) -> Seq<char> {
    text::decimal((ns / 1_000_000) as nat) + " ms"@
}

/// Puts a latency in words.
pub fn latency_label(ns: u32) -> (r: String)
    ensures
        r@ == latency_label_of(ns),
{
    text::decimal_text(ns / 1_000_000).concat(" ms")
}

/// The latencies that can be chosen, in milliseconds.
pub open spec fn latency_millis() -> Seq<u32> {
    seq![1u32, 2, 3, 4, 6, 10, 20, 40]
}

/// The latencies that can be chosen, in nanoseconds.
pub fn latency_choices() -> (r: Vec<u32>)
    ensures
        r@ == latency_millis().map_values(|ms: u32| (ms * 1_000_000) as u32),
{
    let millis: Vec<u32> = vec![1u32, 2, 3, 4, 6, 10, 20, 40];
    assert(millis@ =~= latency_millis());
    let mut r: Vec<u32> = Vec::new();
    let mut i: usize = 0;
    while i < millis.len()
        invariant
            i <= millis@.len(),
            millis@ == latency_millis(),
            r@ == latency_millis().take(i as int).map_values(|ms: u32| (ms * 1_000_000) as u32),
        decreases millis@.len() - i,
    {
        r.push(millis[i] * 1_000_000);
        i = i + 1;
        assert(r@ =~= latency_millis().take(i as int).map_values(
            |ms: u32| (ms * 1_000_000) as u32,
        ));
    }
    assert(latency_millis().take(i as int) =~= latency_millis());
    r
}

// ---------------------------------------------------------------------------
// What the window promises
// ---------------------------------------------------------------------------

/// The log stays within its limit, keeps the newest line, and never holds anything but the
/// newest lines in their order.
pub proof fn log_is_bounded(logs: Seq<Seq<char>>, line: Seq<char>)
    requires
        logs.len() <= LOG_LIMIT,
    ensures
        0 < log_with(logs, line).len() <= LOG_LIMIT,
        log_with(logs, line).last() == line,
        log_with(logs, line) == logs.push(line).skip(
            logs.len() + 1 - log_with(logs, line).len(),
        ),
        logs.len() < LOG_LIMIT ==> log_with(logs, line) == logs.push(line),
{
    assert(logs.push(line).skip(0) =~= logs.push(line));
}

/// Whatever events come, the log of a window stays within its limit.
pub proof fn log_stays_bounded(a: AppView, events: Seq<WorkerEventView>)
    requires
        a.logs.len() <= LOG_LIMIT,
    ensures
        a.after_all(events).logs.len() <= LOG_LIMIT,
    decreases events.len(),
{
    if events.len() > 0 {
        log_stays_bounded(a, events.drop_last());
    }
}

/// Events only tell of the log, the state and the clock: whatever comes, the configuration and
/// the rest of the window stay as they are, and the state is the one announced last.
pub proof fn events_leave_config_alone(a: AppView, events: Seq<WorkerEventView>)
    ensures
        ({
            let b = a.after_all(events);
            &&& b == (AppView { logs: b.logs, state: b.state, ptp: b.ptp, ..a })
            &&& b.state == crate::worker::shown(a.state, events)
        }),
    decreases events.len(),
{
    if events.len() > 0 {
        events_leave_config_alone(a, events.drop_last());
    }
}

/// The button can be pressed exactly while nothing is under way, and says then what pressing
/// it does; and what is under way has a name exactly while something is.
pub proof fn button_is_honest(state: WorkerStateView)
    ensures
        button_of(state).enabled == !state.is_busy(),
        button_of(state).enabled ==> (button_of(state).face == ButtonFace::Stop) == state.is_running(),
        button_of(state).enabled ==> button_of(state).face != ButtonFace::Starting,
        label_of(state) != ""@ <==> state.is_busy(),
{
    reveal_strlit("");
    reveal_strlit("Starting statime...");
    reveal_strlit("Waiting for clock sync...");
    reveal_strlit("Configuring ALSA...");
    reveal_strlit("Adding PipeWire node...");
    reveal_strlit("Stopping...");
    if state.is_busy() {
        assert(label_of(state).len() > 0);
        assert(""@.len() == 0);
    }
}

/// The window is never closed while the soundcard runs or is busy; a request to close it then
/// is turned down but not forgotten; and a window that neither runs nor is busy closes as
/// requested.
pub proof fn close_is_graceful(a: AppView, close_requested: bool)
    ensures
        ({
            let f = a.frame(close_requested);
            let active = a.state.is_running() || a.state.is_busy();
            &&& f.close ==> !active
            &&& !(f.close && f.cancel_close)
            &&& f.cancel_close ==> a.framed(close_requested).pending_close
            &&& close_requested && !active ==> !f.cancel_close
            &&& close_requested && a.state.is_running() ==> f.command == Some(WorkerCmdView::Stop)
            &&& f.command is Some ==> close_requested
            &&& a.pending_close ==> a.framed(close_requested).pending_close
        }),
{
}

/// Once a close was put off, the window closes in the first frame after the soundcard has come
/// to rest, whatever happened in between.
pub proof fn put_off_close_happens(a: AppView, events: Seq<WorkerEventView>, close_requested: bool)
    requires
        a.pending_close,
        ({
            let state = crate::worker::shown(a.state, events);
            state is Idle || state is Error
        }),
    ensures
        a.after_all(events).frame(close_requested).close,
{
    events_leave_config_alone(a, events);
}

/// What is started is the configuration that is shown, but always at the one rate that is
/// started; the log and the clock's state begin anew, and the shown state waits for the worker.
pub proof fn start_uses_rate(a: AppView)
    ensures
        a.started().config.sample_rate == START_RATE,
        a.started().config == (ConfigView { sample_rate: START_RATE, ..a.config }),
        a.started().logs.len() == 0,
        !a.started().ptp.has_data,
        a.started().state == a.state,
{
}

/// A latency that is chosen is shown as its milliseconds, and the initial latency can be
/// chosen.
pub proof fn latency_is_shown(i: int, exe_dir: Option<Seq<char>>, hostname: Option<Seq<char>>)
    requires
        0 <= i < latency_millis().len(),
    ensures
        latency_label_of((latency_millis()[i] * 1_000_000) as u32) == text::decimal(
            latency_millis()[i] as nat,
        ) + " ms"@,
        latency_millis().contains(
            (ConfigView::initial(exe_dir, hostname).latency_ns / 1_000_000) as u32,
        ),
{
    assert(latency_millis()[5] == 10);
}

/// The soundcard runs in the state that says so, and is busy in the states between rest and
/// running; so a state is exactly one of running, busy and at rest.
pub proof fn states_are_told_apart(state: WorkerStateView)
    ensures
        state.is_running() <==> state is Running,
        state.is_busy() <==> state is StartingStatime || state is WaitingForClock
            || state is ConfiguringAlsa || state is AddingPipeWireNode || state is Stopping,
        state is Idle || state is Error <==> !state.is_running() && !state.is_busy(),
        !(state.is_running() && state.is_busy()),
{
}

/// A request to close the window is turned down exactly while the soundcard runs or is busy.
/// Whenever it is turned down, and the soundcard is not being stopped already, it is stopped:
/// also where it is only being started. Nothing else is ever asked of the worker.
pub proof fn refused_close_stops_the_soundcard(a: AppView, close_requested: bool)
    ensures
        ({
            let f = a.frame(close_requested);
            &&& f.cancel_close <==> close_requested && !(a.state is Idle) && !(a.state is Error)
            &&& f.cancel_close && !(a.state is Stopping) ==> f.command == Some(WorkerCmdView::Stop)
            &&& f.command is Some ==> f.cancel_close && !(a.state is Stopping) && f.command
                == Some(WorkerCmdView::Stop)
        }),
{
}

/// The window remembers that it is to close from when a request is turned down; it closes
/// exactly in the frames in which it remembers that and the soundcard is at rest; and it is drawn
/// again soon exactly while it remembers that or the soundcard is not at rest. Nothing else of
/// the window changes in a frame.
pub proof fn put_off_close_is_remembered(a: AppView, close_requested: bool)
    ensures
        ({
            let f = a.frame(close_requested);
            let after = a.framed(close_requested);
            let at_rest = a.state is Idle || a.state is Error;
            &&& after.pending_close <==> a.pending_close || (close_requested && !at_rest)
            &&& f.close <==> a.pending_close && at_rest
            &&& f.repaint <==> !at_rest || a.pending_close
            &&& after.config == a.config && after.state == a.state && after.logs == a.logs
            &&& after.ptp == a.ptp && after.interfaces == a.interfaces
            &&& after.show_settings == a.show_settings && after.show_log == a.show_log
            &&& after.show_about == a.show_about
        }),
{
}

/// Each event changes one thing in the window: a line goes to the end of the log, a state
/// becomes the state, and what was heard of the clock, whatever it is, becomes what is shown of
/// it.
pub proof fn events_are_shown(
    a: AppView,
    line: Seq<char>,
    state: WorkerStateView,
    ptp: PtpStatus,
)
    ensures
        ({
            let b = a.after(WorkerEventView::Log(line));
            &&& b == (AppView { logs: b.logs, ..a })
            &&& b.logs.len() > 0 && b.logs.last() == line
        }),
        ({
            let b = a.after(WorkerEventView::StateChanged(state));
            &&& b == (AppView { state: b.state, ..a })
            &&& b.state == state
        }),
        ({
            let b = a.after(WorkerEventView::PtpStatus(ptp));
            &&& b == (AppView { ptp: b.ptp, ..a })
            &&& b.ptp == ptp
        }),
{
}

/// Events have the effect of each in turn.
pub proof fn events_add_up(a: AppView, events: Seq<WorkerEventView>, event: WorkerEventView)
    ensures
        a.after_all(Seq::empty()) == a,
        a.after_all(events.push(event)) == a.after_all(events).after(event),
{
    assert(events.push(event).drop_last() =~= events);
}

/// The log loses lines only when it would hold more than 2000, and then its 500 oldest.
pub proof fn log_drops_the_oldest(logs: Seq<Seq<char>>, line: Seq<char>)
    ensures
        logs.len() < 2000 ==> log_with(logs, line) == logs.push(line),
        logs.len() >= 2000 ==> log_with(logs, line).len() == logs.len() - 499 && forall|i: int|
            0 <= i < logs.len() - 500 ==> (#[trigger] log_with(logs, line)[i]) == logs[i + 500],
        log_with(logs, line).last() == line,
{
}

/// A window begins idle and empty, with the configuration and the interfaces that it is given.
pub proof fn window_begins_empty(config: ConfigView, interfaces: Seq<(Seq<char>, Option<Ipv4>)>)
    ensures
        ({
            let a = AppView::initial(config, interfaces);
            &&& a.config == config && a.interfaces == interfaces
            &&& a.state is Idle && a.logs.len() == 0 && !a.ptp.has_data && !a.ptp.synced
            &&& !a.show_settings && !a.show_log && !a.show_about && !a.pending_close
        }),
{
}

/// Pressing the button stops what runs, and changes nothing of the window then; otherwise it
/// starts the configuration that is shown, at 48000 Hz, and only clears the log and what is
/// known of the clock.
pub proof fn button_stops_or_starts(a: AppView)
    ensures
        ({
            let (b, cmd) = a.pressed();
            &&& a.state is Running ==> cmd == WorkerCmdView::Stop && b == a
            &&& !(a.state is Running) ==> cmd == WorkerCmdView::Start(b.config) && b.config == (
            ConfigView { sample_rate: 48000, ..a.config }) && b == (AppView {
                config: b.config,
                logs: b.logs,
                ptp: b.ptp,
                ..a
            }) && b.logs.len() == 0 && b.ptp == PtpStatus::none()
        }),
        a.started() == (AppView {
            config: ConfigView { sample_rate: 48000, ..a.config },
            logs: a.started().logs,
            ptp: PtpStatus::none(),
            ..a
        }),
        a.started().logs.len() == 0,
{
}

/// The badge is green exactly while the soundcard runs with its clock synced, red exactly after
/// an error, grey exactly while it is stopped, and gold otherwise. It depends on nothing but the
/// kind of the state and, while the soundcard runs, on whether the clock is synced and whether
/// anything is known of it.
pub proof fn badge_is_true(s: WorkerStateView, p: PtpStatus, t: WorkerStateView, q: PtpStatus)
    ensures
        badge_of(s, p).1 == Tone::Green <==> s is Running && p.synced,
        badge_of(s, p).1 == Tone::Red <==> s is Error,
        badge_of(s, p).1 == Tone::DarkGray <==> s is Idle,
        s is Running && t is Running && p.synced && q.synced ==> badge_of(s, p) == badge_of(t, q),
        s is Running && t is Running && p.synced == q.synced && p.has_data == q.has_data
            ==> badge_of(s, p) == badge_of(t, q),
        s is Error && t is Error ==> badge_of(s, p) == badge_of(t, q),
        !(s is Running) ==> badge_of(s, p) == badge_of(s, q),
        s is Running && p.synced ==> badge_of(s, p).0 == "Live  (Clock Synced)"@,
        s is Running && !p.synced && p.has_data ==> badge_of(s, p).0 == "Running (Syncing...)"@,
        s is Running && !p.synced && !p.has_data ==> badge_of(s, p).0
            == "Running (waiting for clock...)"@,
        s is Error ==> badge_of(s, p).0 == "Error"@,
{
}

/// The rows show the very offset and delay that were heard of last, whenever anything was; that
/// the clock is waited for, only while the soundcard runs and nothing was heard; and the two
/// devices, in the end, exactly while it runs.
pub proof fn rows_are_true(s: WorkerStateView, p: PtpStatus)
    ensures
        ({
            let rows = rows_of(s, p);
            let heard: nat = if p.has_data {
                2
            } else if s is Running {
                1
            } else {
                0
            };
            &&& rows.len() == heard + (if s is Running {
                2nat
            } else {
                0nat
            })
            &&& p.has_data ==> rows[0] == Row::ClockOffset(p.offset_bits) && rows[1]
                == Row::NetworkDelay(p.delay_bits)
            &&& !p.has_data && s is Running ==> rows[0] == Row::ClockAwaited
            &&& s is Running ==> rows[heard as int] == Row::AlsaDevice && rows[heard as int + 1]
                == Row::AlsaPlugDevice
        }),
{
}

/// What a row is called does not depend on the time that it shows, and the rows with a time
/// have no other value.
pub proof fn rows_are_called_alike(x: i64, y: i64)
    ensures
        Row::ClockOffset(x).label_view() == Row::ClockOffset(y).label_view(),
        Row::NetworkDelay(x).label_view() == Row::NetworkDelay(y).label_view(),
        Row::ClockOffset(x).label_view() == "Clock Offset:"@,
        Row::NetworkDelay(x).label_view() == "Network Delay:"@,
        Row::ClockOffset(x).value_view() is None,
        Row::NetworkDelay(x).value_view() is None,
{
}

/// The button says "Stop" exactly while the soundcard runs or is being stopped, and "Starting"
/// exactly while it is busy otherwise; it can be pressed exactly while the soundcard runs or is
/// at rest.
pub proof fn button_faces_are_true(state: WorkerStateView)
    ensures
        button_of(state).face == ButtonFace::Stop <==> state is Running || state is Stopping,
        button_of(state).face == ButtonFace::Start <==> state is Idle || state is Error,
        button_of(state).enabled <==> state is Running || state is Idle || state is Error,
{
}

/// How to use the soundcard is shown exactly while it runs: the ALSA devices in any case, and
/// where PipeWire is used the sink, by the device's name.
pub proof fn usage_is_true(s: WorkerStateView, config: ConfigView)
    ensures
        !(s is Running) ==> usage_of(s, config).len() == 0,
        s is Running ==> usage_of(s, config).len() == (if config.use_pipewire {
            2nat
        } else {
            1nat
        }) && usage_of(s, config)[0] == "ALSA: use device name 'dante' or 'dante_plug'"@,
        s is Running && config.use_pipewire ==> usage_of(s, config)[1] == "PipeWire: sink '"@
            + config.device_name + "' visible in audio router"@,
{
}

/// The choice of the interface shows the interface of the selected name: the first one in the
/// list, with its address, or the bare name where the list has none; and a prompt exactly where
/// none is selected.
pub proof fn selected_interface_is_shown(a: AppView, i: int)
    requires
        0 <= i <= a.interfaces.len(),
        forall|k: int| 0 <= k < i ==> (#[trigger] a.interfaces[k]).0 != a.config.interface,
        i < a.interfaces.len() ==> a.interfaces[i].0 == a.config.interface,
    ensures
        a.config.interface.len() == 0 ==> a.interface_text() == "Select interface..."@,
        a.config.interface.len() > 0 && i < a.interfaces.len() ==> a.interface_text()
            == interface_label(a.config.interface, a.interfaces[i].1),
        a.config.interface.len() > 0 && i == a.interfaces.len() ==> a.interface_text()
            == a.config.interface,
{
    lemma_named_label(a.interfaces, a.config.interface, i);
}

proof fn lemma_named_label(list: Seq<(Seq<char>, Option<Ipv4>)>, name: Seq<char>, i: int)
    requires
        0 <= i <= list.len(),
        forall|k: int| 0 <= k < i ==> (#[trigger] list[k]).0 != name,
        i < list.len() ==> list[i].0 == name,
    ensures
        i < list.len() ==> named_label(list, name) == interface_label(name, list[i].1),
        i == list.len() ==> named_label(list, name) == name,
    decreases i,
{
    if i > 0 {
        assert(list[0].0 != name);
        let tail = list.drop_first();
        assert forall|k: int| 0 <= k < i - 1 implies (#[trigger] tail[k]).0 != name by {
            assert(tail[k] == list[k + 1]);
        }
        lemma_named_label(tail, name, i - 1);
    }
}

/// The numbers of channels are shown as they are, those that are sent first; and a latency as
/// its whole milliseconds: so many pass within it, and one more does not.
pub proof fn choices_are_shown(tx: u32, rx: u32, ns: u32, ms: nat)
    requires
        ms * 1_000_000 <= ns < (ms + 1) * 1_000_000,
    ensures
        channels_label_of(tx, rx) == text::decimal(tx as nat) + "×"@ + text::decimal(rx as nat),
        latency_label_of(ns) == text::decimal(ms) + " ms"@,
{
    assert(ns / 1_000_000 == ms);
}

/// What was observed of the clock last is what the window shows of it, synced or not: from a
/// loss of sync on it no longer says that the clock is synced, and it shows the new offset.
pub proof fn observation_reaches_the_window(
    a: AppView,
    w: crate::worker::WorkerView,
    status: PtpStatus,
    now_ms: u64,
)
    requires
        w.stage is Observing,
    ensures
        ({
            let events = w.next(
                crate::worker::WorkerInputView::Observation(Some(status)),
                now_ms,
            ).1;
            let b = a.after_all(events);
            &&& b.ptp == status
            &&& b.state == a.state
            &&& a.state is Running ==> (badge_of(b.state, b.ptp).1 == Tone::Green <==> status.synced)
            &&& status.has_data ==> rows_of(b.state, b.ptp)[0] == Row::ClockOffset(
                status.offset_bits,
            )
        }),
{
    crate::worker::observations_are_reported(w, status, now_ms);
    let event = WorkerEventView::PtpStatus(status);
    events_add_up(a, Seq::empty(), event);
    assert(Seq::<WorkerEventView>::empty().push(event) =~= seq![event]);
    rows_are_true(a.state, status);
}

} // verus!
