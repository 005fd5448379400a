//! The background worker: it takes commands, runs starts and stops, and watches over statime
//! and its clock in between.

use crate::config::{Config, ConfigView};
use crate::procedure::{Action, ActionView, Answer, AnswerView};
use crate::ptp::PtpStatus;
use crate::start::{start_result_view, Stage, Start, StartView, Started, StartedView};
use crate::stop::{Stop, StopStage, StopView};
use crate::text;
use vstd::prelude::*;
use vstd::string::*;

verus! {

/// Commands sent from the UI to the worker
#[derive(Debug, PartialEq)]
pub enum WorkerCmd {
    Start(Config),
    Stop,
}

/// A [`WorkerCmd`] with its texts as sequences of characters.
pub enum WorkerCmdView {
    Start(ConfigView),
    Stop,
}

impl View for WorkerCmd {
    type V = WorkerCmdView;

    open spec fn view(&self) -> WorkerCmdView {
        match self {
            WorkerCmd::Start(config) => WorkerCmdView::Start(config@),
            WorkerCmd::Stop => WorkerCmdView::Stop,
        }
    }
}

#[derive(Clone, Debug, PartialEq)]
pub enum WorkerState {
    Idle,
    StartingStatime,
    WaitingForClock,
    ConfiguringAlsa,
    AddingPipeWireNode,
    Running { statime_pid: u32 },
    Stopping,
    Error(String),
}

/// A [`WorkerState`] with its texts as sequences of characters.
pub enum WorkerStateView {
    Idle,
    StartingStatime,
    WaitingForClock,
    ConfiguringAlsa,
    AddingPipeWireNode,
    Running { statime_pid: u32 },
    Stopping,
    Error(Seq<char>),
}

impl View for WorkerState {
    type V = WorkerStateView;

    open spec fn view(&self) -> WorkerStateView {
        match self {
            WorkerState::Idle => WorkerStateView::Idle,
            WorkerState::StartingStatime => WorkerStateView::StartingStatime,
            WorkerState::WaitingForClock => WorkerStateView::WaitingForClock,
            WorkerState::ConfiguringAlsa => WorkerStateView::ConfiguringAlsa,
            WorkerState::AddingPipeWireNode => WorkerStateView::AddingPipeWireNode,
            WorkerState::Running { statime_pid } => WorkerStateView::Running {
                statime_pid: *statime_pid,
            },
            WorkerState::Stopping => WorkerStateView::Stopping,
            WorkerState::Error(e) => WorkerStateView::Error(e@),
        }
    }
}

/// Events emitted by the worker to the UI
#[derive(Debug, PartialEq)]
pub enum WorkerEvent {
    Log(String),
    StateChanged(WorkerState),
    PtpStatus(PtpStatus),
}

/// A [`WorkerEvent`] with its texts as sequences of characters.
pub enum WorkerEventView {
    Log(Seq<char>),
    StateChanged(WorkerStateView),
    PtpStatus(PtpStatus),
}

impl View for WorkerEvent {
    type V = WorkerEventView;

    open spec fn view(&self) -> WorkerEventView {
        match self {
            WorkerEvent::Log(line) => WorkerEventView::Log(line@),
            WorkerEvent::StateChanged(state) => WorkerEventView::StateChanged(state@),
            WorkerEvent::PtpStatus(status) => WorkerEventView::PtpStatus(*status),
        }
    }
}

/// Events with their texts as sequences of characters.
pub open spec fn events_view(events: Seq<WorkerEvent>) -> Seq<WorkerEventView> {
    events.map_values(|e: WorkerEvent| e@)
}

/// The events that carry lines for the log.
pub open spec fn log_events(lines: Seq<Seq<char>>) -> Seq<WorkerEventView> {
    lines.map_values(|l: Seq<char>| WorkerEventView::Log(l))
}

/// How often statime is looked after, in milliseconds.
pub const STATUS_INTERVAL_MS: u64 = 5000;

/// How often the clock is looked at, in milliseconds.
pub const PTP_INTERVAL_MS: u64 = 1000;

/// How long the worker rests between rounds, in milliseconds.
pub const REST_MS: u64 = 100;

/// What the worker is at: what has to be done next.
pub enum WorkerStage {
    /// Looking for a command.
    Receiving,
    Starting(Start),
    Stopping(Stop),
    /// Asking the helper whether statime still runs.
    AskingStatus,
    /// Reading the clock's state from the observation socket.
    Observing(String),
    Resting,
    /// Telling the helper to quit.
    Leaving,
    Left,
}

/// A [`WorkerStage`] with its texts as sequences of characters.
pub enum WorkerStageView {
    Receiving,
    Starting(StartView),
    Stopping(StopView),
    AskingStatus,
    Observing(Seq<char>),
    Resting,
    Leaving,
    Left,
}

impl View for WorkerStage {
    type V = WorkerStageView;

    open spec fn view(&self) -> WorkerStageView {
        match self {
            WorkerStage::Receiving => WorkerStageView::Receiving,
            WorkerStage::Starting(start) => WorkerStageView::Starting(start@),
            WorkerStage::Stopping(stop) => WorkerStageView::Stopping(stop@),
            WorkerStage::AskingStatus => WorkerStageView::AskingStatus,
            WorkerStage::Observing(path) => WorkerStageView::Observing(path@),
            WorkerStage::Resting => WorkerStageView::Resting,
            WorkerStage::Leaving => WorkerStageView::Leaving,
            WorkerStage::Left => WorkerStageView::Left,
        }
    }
}

/// Work that the worker asks for.
#[derive(Debug, PartialEq)]
pub enum WorkerTask {
    /// Look for a command, without waiting for one: a command, none, or none ever again.
    Receive,
    /// Perform an action: an answer.
    Perform(Action),
    /// Read the clock's state from a socket: an observation.
    Observe(String),
    /// Do nothing for some milliseconds: done.
    Rest { millis: u64 },
    /// Nothing more.
    Exit,
}

/// A [`WorkerTask`] with its texts as sequences of characters.
pub enum WorkerTaskView {
    Receive,
    Perform(ActionView),
    Observe(Seq<char>),
    Rest { millis: u64 },
    Exit,
}

impl View for WorkerTask {
    type V = WorkerTaskView;

    open spec fn view(&self) -> WorkerTaskView {
        match self {
            WorkerTask::Receive => WorkerTaskView::Receive,
            WorkerTask::Perform(action) => WorkerTaskView::Perform(action@),
            WorkerTask::Observe(path) => WorkerTaskView::Observe(path@),
            WorkerTask::Rest { millis } => WorkerTaskView::Rest { millis: *millis },
            WorkerTask::Exit => WorkerTaskView::Exit,
        }
    }
}

/// What came of a [`WorkerTask`].
pub enum WorkerInput {
    /// A command, or none for now.
    Command(Option<WorkerCmd>),
    /// No command will ever come again.
    Disconnected,
    Answer(Answer),
    Observation(Option<PtpStatus>),
    Rested,
}

/// A [`WorkerInput`] with its texts as sequences of characters.
pub enum WorkerInputView {
    Command(Option<WorkerCmdView>),
    Disconnected,
    Answer(AnswerView),
    Observation(Option<PtpStatus>),
    Rested,
}

impl View for WorkerInput {
    type V = WorkerInputView;

    open spec fn view(&self) -> WorkerInputView {
        match self {
            WorkerInput::Command(cmd) => WorkerInputView::Command(
                match cmd {
                    Some(c) => Some(c@),
                    None => None,
                },
            ),
            WorkerInput::Disconnected => WorkerInputView::Disconnected,
            WorkerInput::Answer(answer) => WorkerInputView::Answer(answer@),
            WorkerInput::Observation(status) => WorkerInputView::Observation(*status),
            WorkerInput::Rested => WorkerInputView::Rested,
        }
    }
}

/// The worker, with a clock that counts milliseconds.
pub struct Worker {
    /// Whether there is a helper.
    pub helper: bool,
    pub stage: WorkerStage,
    /// The id of statime's process, while it is taken to run.
    pub statime_pid: Option<u32>,
    /// Where statime's clock can be observed, while it is taken to run.
    pub observation_path: Option<String>,
    /// Whether the configuration of the PipeWire nodes was written, and has to be cleaned up.
    pub nodes_written: bool,
    /// When statime was last looked after, if it was.
    pub last_status_ms: Option<u64>,
    /// When the clock was last looked at, if it was.
    pub last_ptp_ms: Option<u64>,
}

/// A [`Worker`] with its texts as sequences of characters.
pub struct WorkerView {
    pub helper: bool,
    pub stage: WorkerStageView,
    pub statime_pid: Option<u32>,
    pub observation_path: Option<Seq<char>>,
    pub nodes_written: bool,
    pub last_status_ms: Option<u64>,
    pub last_ptp_ms: Option<u64>,
}

impl View for Worker {
    type V = WorkerView;

    open spec fn view(&self) -> WorkerView {
        WorkerView {
            helper: self.helper,
            stage: self.stage@,
            statime_pid: self.statime_pid,
            observation_path: crate::procedure::opt_view(self.observation_path),
            nodes_written: self.nodes_written,
            last_status_ms: self.last_status_ms,
            last_ptp_ms: self.last_ptp_ms,
        }
    }
}

/// Whether something that was last done at `last`, if ever, is due again.
pub open spec fn is_due(last: Option<u64>, interval_ms: u64, now_ms: u64) -> bool {
    match last {
        Some(t) => now_ms - t >= interval_ms,
        None => true,
    }
}

fn due(last: Option<u64>, interval_ms: u64, now_ms: u64) -> (r: bool)
    requires
        interval_ms > 0,
    ensures
        r == is_due(last, interval_ms, now_ms),
{
    match last {
        Some(t) => now_ms >= t && now_ms - t >= interval_ms,
        None => true,
    }
}

/// Whether a reply says that statime does not run.
pub open spec fn says_gone(reply: Option<crate::protocol::ExchangeView>) -> bool {
    reply matches Some(exchange) && exchange.response() == Ok::<Seq<char>, Seq<char>>(
        "OK pid=none"@,
    )
}

fn reply_says_gone(reply: &Option<crate::protocol::Exchange>) -> (r: bool)
    ensures
        r == says_gone(
            match *reply {
                Some(x) => Some(x@),
                None => None,
            },
        ),
{
    match reply {
        Some(exchange) => match exchange.response() {
            Ok(line) => text::same_text(line.as_str(), "OK pid=none"),
            Err(_) => false,
        },
        None => false,
    }
}

impl WorkerView {
    /// A worker that has just been launched.
    pub open spec fn begin(helper: bool) -> WorkerView {
        WorkerView {
            helper,
            stage: WorkerStageView::Receiving,
            statime_pid: None,
            observation_path: None,
            nodes_written: false,
            last_status_ms: None,
            last_ptp_ms: None,
        }
    }

    /// What has to be done next.
    pub open spec fn task(self) -> WorkerTaskView {
        match self.stage {
            WorkerStageView::Receiving => WorkerTaskView::Receive,
            WorkerStageView::Starting(start) => WorkerTaskView::Perform(start.action()),
            WorkerStageView::Stopping(stop) => WorkerTaskView::Perform(stop.action()),
            WorkerStageView::AskingStatus => WorkerTaskView::Perform(
                ActionView::Send("STATIME_STATUS"@),
            ),
            WorkerStageView::Observing(path) => WorkerTaskView::Observe(path),
            WorkerStageView::Resting => WorkerTaskView::Rest { millis: REST_MS },
            WorkerStageView::Leaving => WorkerTaskView::Perform(ActionView::Send("QUIT"@)),
            WorkerStageView::Left => WorkerTaskView::Exit,
        }
    }

    /// Whether an input is of the kind that the task calls for. A reply comes exactly where
    /// there is a helper.
    pub open spec fn accepts(self, input: WorkerInputView) -> bool {
        match self.task() {
            WorkerTaskView::Receive => input is Command || input is Disconnected,
            WorkerTaskView::Perform(action) => input matches WorkerInputView::Answer(answer)
                && action.accepts(answer) && (answer matches AnswerView::Reply(reply)
                ==> self.helper == (reply is Some)),
            WorkerTaskView::Observe(_) => input is Observation,
            WorkerTaskView::Rest { .. } => input is Rested,
            WorkerTaskView::Exit => false,
        }
    }

    /// The same worker at another stage.
    pub open spec fn at(self, stage: WorkerStageView) -> WorkerView {
        WorkerView { stage, ..self }
    }

    /// The worker goes on to look at the clock, if that is due, and otherwise to rest.
    pub open spec fn watching_clock(self, now_ms: u64) -> WorkerView {
        if self.statime_pid is Some && is_due(self.last_ptp_ms, PTP_INTERVAL_MS, now_ms) {
            match self.observation_path {
                Some(path) => self.at(WorkerStageView::Observing(path)),
                None => WorkerView {
                    stage: WorkerStageView::Resting,
                    last_ptp_ms: Some(now_ms),
                    ..self
                },
            }
        } else {
            self.at(WorkerStageView::Resting)
        }
    }

    /// The worker goes on to look after statime, if that is due, and otherwise to the clock.
    pub open spec fn watching(self, now_ms: u64) -> WorkerView {
        if self.statime_pid is Some && is_due(self.last_status_ms, STATUS_INTERVAL_MS, now_ms) {
            if self.helper {
                self.at(WorkerStageView::AskingStatus)
            } else {
                WorkerView { last_status_ms: Some(now_ms), ..self }.watching_clock(now_ms)
            }
        } else {
            self.watching_clock(now_ms)
        }
    }

    /// A start is under way, or has ended.
    pub open spec fn starting(
        self,
        start: StartView,
        now_ms: u64,
    ) -> (WorkerView, Seq<WorkerEventView>) {
        match start.result() {
            None => (self.at(WorkerStageView::Starting(start)), Seq::empty()),
            Some(Ok(started)) => (
                WorkerView {
                    statime_pid: Some(started.statime_pid),
                    observation_path: Some(started.observation_path),
                    nodes_written: started.nodes_written,
                    ..self
                }.watching(now_ms),
                seq![
                    WorkerEventView::StateChanged(
                        WorkerStateView::Running { statime_pid: started.statime_pid },
                    ),
                ],
            ),
            Some(Err(e)) => (
                self.watching(now_ms),
                seq![
                    WorkerEventView::StateChanged(WorkerStateView::Error(e)),
                    WorkerEventView::Log("[error] "@ + e),
                ],
            ),
        }
    }

    /// A stop is under way, or has ended.
    pub open spec fn stopping(
        self,
        stop: StopView,
        now_ms: u64,
    ) -> (WorkerView, Seq<WorkerEventView>) {
        if stop.stage == StopStage::Finished {
            (
                WorkerView {
                    statime_pid: None,
                    observation_path: None,
                    nodes_written: false,
                    ..self
                }.watching(now_ms),
                seq![WorkerEventView::StateChanged(WorkerStateView::Idle)],
            )
        } else {
            (self.at(WorkerStageView::Stopping(stop)), Seq::empty())
        }
    }

    /// The worker after an input at a time, and the events that it emits.
    pub open spec fn next(
        self,
        input: WorkerInputView,
        now_ms: u64,
    ) -> (WorkerView, Seq<WorkerEventView>) {
        match (self.stage, input) {
            (WorkerStageView::Receiving, WorkerInputView::Command(None)) => (
                self.watching(now_ms),
                Seq::empty(),
            ),
            (WorkerStageView::Receiving, WorkerInputView::Command(Some(cmd))) => match cmd {
                WorkerCmdView::Start(config) => {
                    let begun = self.starting(StartView::begin(config), now_ms);
                    (
                        begun.0,
                        seq![WorkerEventView::StateChanged(WorkerStateView::StartingStatime)]
                            + begun.1,
                    )
                },
                WorkerCmdView::Stop => (
                    self.at(WorkerStageView::Stopping(StopView::begin(self.nodes_written))),
                    seq![
                        WorkerEventView::StateChanged(WorkerStateView::Stopping),
                        WorkerEventView::Log("Stopping statime..."@),
                    ],
                ),
            },
            (WorkerStageView::Receiving, _) => (
                self.at(
                    if self.helper {
                        WorkerStageView::Leaving
                    } else {
                        WorkerStageView::Left
                    },
                ),
                Seq::empty(),
            ),
            (WorkerStageView::Starting(start), WorkerInputView::Answer(answer)) => {
                let moved = start.next(answer);
                let gone_on = self.starting(moved.0, now_ms);
                (gone_on.0, log_events(moved.1) + gone_on.1)
            },
            (WorkerStageView::Stopping(stop), WorkerInputView::Answer(answer)) => {
                let moved = stop.next(answer);
                let gone_on = self.stopping(moved.0, now_ms);
                (gone_on.0, log_events(moved.1) + gone_on.1)
            },
            (WorkerStageView::AskingStatus, WorkerInputView::Answer(answer)) => {
                let asked = WorkerView { last_status_ms: Some(now_ms), ..self };
                if says_gone(answer->Reply_0) {
                    (
                        WorkerView {
                            statime_pid: None,
                            observation_path: None,
                            ..asked
                        }.watching_clock(now_ms),
                        seq![
                            WorkerEventView::Log("[statime] Process exited unexpectedly"@),
                            WorkerEventView::StateChanged(
                                WorkerStateView::Error("statime exited unexpectedly"@),
                            ),
                        ],
                    )
                } else {
                    (asked.watching_clock(now_ms), Seq::empty())
                }
            },
            (WorkerStageView::Observing(_), WorkerInputView::Observation(status)) => (
                WorkerView {
                    stage: WorkerStageView::Resting,
                    last_ptp_ms: Some(now_ms),
                    ..self
                },
                match status {
                    Some(s) => seq![WorkerEventView::PtpStatus(s)],
                    None => Seq::empty(),
                },
            ),
            (WorkerStageView::Resting, _) => (self.at(WorkerStageView::Receiving), Seq::empty()),
            (WorkerStageView::Leaving, _) => (self.at(WorkerStageView::Left), Seq::empty()),
            _ => (self, Seq::empty()),
        }
    }

    /// Holds of every worker: statime is taken to run exactly while its clock can be observed,
    /// and only where there is a helper; and a procedure that is under way has not ended.
    pub open spec fn wf(self) -> bool {
        &&& self.statime_pid is Some <==> self.observation_path is Some
        &&& self.statime_pid is Some ==> self.helper
        &&& self.stage matches WorkerStageView::Starting(start) ==> start.result() is None && (
        start.rank() > 18 ==> self.helper)
        &&& self.stage matches WorkerStageView::Stopping(stop) ==> stop.stage
            != StopStage::Finished
        &&& self.stage is AskingStatus ==> self.helper
        &&& self.stage is Leaving ==> self.helper
    }
}

// ---------------------------------------------------------------------------
// Events
// ---------------------------------------------------------------------------

fn no_events() -> (r: Vec<WorkerEvent>)
    ensures
        events_view(r@) == Seq::<WorkerEventView>::empty(),
{
    let r: Vec<WorkerEvent> = Vec::new();
    assert(events_view(r@) =~= Seq::<WorkerEventView>::empty());
    r
}

fn one_event(e: WorkerEvent) -> (r: Vec<WorkerEvent>)
    ensures
        events_view(r@) == seq![e@],
{
    let mut r: Vec<WorkerEvent> = Vec::new();
    r.push(e);
    assert(events_view(r@) =~= seq![e@]);
    r
}

fn two_events(a: WorkerEvent, b: WorkerEvent) -> (r: Vec<WorkerEvent>)
    ensures
        events_view(r@) == seq![a@, b@],
{
    let mut r: Vec<WorkerEvent> = Vec::new();
    r.push(a);
    r.push(b);
    assert(events_view(r@) =~= seq![a@, b@]);
    r
}

fn joined_events(a: Vec<WorkerEvent>, b: Vec<WorkerEvent>) -> (r: Vec<WorkerEvent>)
    ensures
        events_view(r@) == events_view(a@) + events_view(b@),
{
    let mut r = a;
    let mut rest = b;
    r.append(&mut rest);
    assert(events_view(r@) =~= events_view(a@) + events_view(b@));
    r
}

/// The events that carry lines for the log.
pub fn logged(lines: Vec<String>) -> (r: Vec<WorkerEvent>)
    ensures
        events_view(r@) == log_events(text::texts(lines@)),
{
    let mut r: Vec<WorkerEvent> = Vec::new();
    let mut i: usize = 0;
    while i < lines.len()
        invariant
            i <= lines@.len(),
            r@.len() == i,
            forall|k: int|
                0 <= k < i ==> (#[trigger] r@[k])@ == WorkerEventView::Log(lines@[k]@),
        decreases lines@.len() - i,
    {
        r.push(WorkerEvent::Log(lines[i].clone()));
        i = i + 1;
    }
    assert(events_view(r@) =~= log_events(text::texts(lines@)));
    r
}

impl Worker {
    /// A worker that has just been launched, with or without a helper.
    pub fn begin(helper: bool) -> (r: Worker)
        ensures
            r@ == WorkerView::begin(helper),
            r@.wf(),
    {
        Worker {
            helper,
            stage: WorkerStage::Receiving,
            statime_pid: None,
            observation_path: None,
            nodes_written: false,
            last_status_ms: None,
            last_ptp_ms: None,
        }
    }

    /// What has to be done next.
    pub fn task(&self) -> (r: WorkerTask)
        ensures
            r@ == self@.task(),
    {
        match &self.stage {
            WorkerStage::Receiving => WorkerTask::Receive,
            WorkerStage::Starting(start) => WorkerTask::Perform(start.action()),
            WorkerStage::Stopping(stop) => WorkerTask::Perform(stop.action()),
            WorkerStage::AskingStatus => WorkerTask::Perform(
                Action::Send("STATIME_STATUS".to_owned()),
            ),
            WorkerStage::Observing(path) => WorkerTask::Observe(path.clone()),
            WorkerStage::Resting => WorkerTask::Rest { millis: REST_MS },
            WorkerStage::Leaving => WorkerTask::Perform(Action::Send("QUIT".to_owned())),
            WorkerStage::Left => WorkerTask::Exit,
        }
    }

    /// Whether an input is of the kind that the task calls for.
    pub fn accepts(&self, input: &WorkerInput) -> (r: bool)
        ensures
            r == self@.accepts(input@),
    {
        match (self.task(), input) {
            (WorkerTask::Receive, WorkerInput::Command(_)) => true,
            (WorkerTask::Receive, WorkerInput::Disconnected) => true,
            (WorkerTask::Perform(action), WorkerInput::Answer(answer)) => action.accepts(answer)
                && match answer {
                Answer::Reply(reply) => self.helper == reply.is_some(),
                _ => true,
            },
            (WorkerTask::Observe(_), WorkerInput::Observation(_)) => true,
            (WorkerTask::Rest { .. }, WorkerInput::Rested) => true,
            _ => false,
        }
    }

    fn watch_clock(&mut self, now_ms: u64)
        ensures
            final(self)@ == old(self)@.watching_clock(now_ms),
    {
        if self.statime_pid.is_some() && due(self.last_ptp_ms, PTP_INTERVAL_MS, now_ms) {
            match &self.observation_path {
                Some(path) => {
                    let path = path.clone();
                    self.stage = WorkerStage::Observing(path);
                },
                None => {
                    self.stage = WorkerStage::Resting;
                    self.last_ptp_ms = Some(now_ms);
                },
            }
        } else {
            self.stage = WorkerStage::Resting;
        }
    }

    fn watch(&mut self, now_ms: u64)
        ensures
            final(self)@ == old(self)@.watching(now_ms),
    {
        if self.statime_pid.is_some() && due(self.last_status_ms, STATUS_INTERVAL_MS, now_ms) {
            if self.helper {
                self.stage = WorkerStage::AskingStatus;
            } else {
                self.last_status_ms = Some(now_ms);
                self.watch_clock(now_ms);
            }
        } else {
            self.watch_clock(now_ms);
        }
    }

    fn pursue_start(&mut self, start: Start, now_ms: u64) -> (r: Vec<WorkerEvent>)
        ensures
            (final(self)@, events_view(r@)) == old(self)@.starting(start@, now_ms),
    {
        match start.result() {
            None => {
                self.stage = WorkerStage::Starting(start);
                no_events()
            },
            Some(Ok(started)) => {
                let pid: u32 = started.statime_pid;
                self.statime_pid = Some(pid);
                self.observation_path = Some(started.observation_path);
                self.nodes_written = started.nodes_written;
                self.watch(now_ms);
                one_event(WorkerEvent::StateChanged(WorkerState::Running { statime_pid: pid }))
            },
            Some(Err(e)) => {
                self.watch(now_ms);
                let line = "[error] ".to_owned().concat(e.as_str());
                two_events(
                    WorkerEvent::StateChanged(WorkerState::Error(e)),
                    WorkerEvent::Log(line),
                )
            },
        }
    }

    fn pursue_stop(&mut self, stop: Stop, now_ms: u64) -> (r: Vec<WorkerEvent>)
        ensures
            (final(self)@, events_view(r@)) == old(self)@.stopping(stop@, now_ms),
    {
        if stop.is_finished() {
            self.statime_pid = None;
            self.observation_path = None;
            self.nodes_written = false;
            self.watch(now_ms);
            one_event(WorkerEvent::StateChanged(WorkerState::Idle))
        } else {
            self.stage = WorkerStage::Stopping(stop);
            no_events()
        }
    }

    /// Takes in what came of the last task at a time, and returns the events to emit.
    pub fn advance(&mut self, input: WorkerInput, now_ms: u64) -> (r: Vec<WorkerEvent>)
        requires
            old(self)@.wf(),
            old(self)@.accepts(input@),
        ensures
            (final(self)@, events_view(r@)) == old(self)@.next(input@, now_ms),
            final(self)@.wf(),
    {
        proof {
            worker_stays_wf(self@, input@, now_ms);
        }
        let mut stage = WorkerStage::Resting;
        std::mem::swap(&mut stage, &mut self.stage);
        match (stage, input) {
            (WorkerStage::Receiving, WorkerInput::Command(None)) => {
                self.watch(now_ms);
                no_events()
            },
            (WorkerStage::Receiving, WorkerInput::Command(Some(cmd))) => match cmd {
                WorkerCmd::Start(config) => {
                    let begun = self.pursue_start(Start::begin(config), now_ms);
                    joined_events(
                        one_event(WorkerEvent::StateChanged(WorkerState::StartingStatime)),
                        begun,
                    )
                },
                WorkerCmd::Stop => {
                    let (stop, lines) = Stop::begin(self.nodes_written);
                    self.stage = WorkerStage::Stopping(stop);
                    let r = joined_events(
                        one_event(WorkerEvent::StateChanged(WorkerState::Stopping)),
                        logged(lines),
                    );
                    assert(events_view(r@) =~= old(self)@.next(input@, now_ms).1);
                    r
                },
            },
            (WorkerStage::Receiving, _) => {
                self.stage = if self.helper {
                    WorkerStage::Leaving
                } else {
                    WorkerStage::Left
                };
                no_events()
            },
            (WorkerStage::Starting(start), WorkerInput::Answer(answer)) => {
                let mut start = start;
                let lines = start.advance(&answer);
                let r = self.pursue_start(start, now_ms);
                joined_events(logged(lines), r)
            },
            (WorkerStage::Stopping(stop), WorkerInput::Answer(answer)) => {
                let mut stop = stop;
                let lines = stop.advance(&answer);
                let r = self.pursue_stop(stop, now_ms);
                joined_events(logged(lines), r)
            },
            (WorkerStage::AskingStatus, WorkerInput::Answer(Answer::Reply(reply))) => {
                self.last_status_ms = Some(now_ms);
                if reply_says_gone(&reply) {
                    self.statime_pid = None;
                    self.observation_path = None;
                    self.watch_clock(now_ms);
                    two_events(
                        WorkerEvent::Log("[statime] Process exited unexpectedly".to_owned()),
                        WorkerEvent::StateChanged(
                            WorkerState::Error("statime exited unexpectedly".to_owned()),
                        ),
                    )
                } else {
                    self.watch_clock(now_ms);
                    no_events()
                }
            },
            (WorkerStage::Observing(_), WorkerInput::Observation(status)) => {
                self.last_ptp_ms = Some(now_ms);
                match status {
                    Some(s) => one_event(WorkerEvent::PtpStatus(s)),
                    None => no_events(),
                }
            },
            (WorkerStage::Resting, _) => {
                self.stage = WorkerStage::Receiving;
                no_events()
            },
            (WorkerStage::Leaving, _) => {
                self.stage = WorkerStage::Left;
                no_events()
            },
            _ => no_events(),
        }
    }
}

// ---------------------------------------------------------------------------
// What the worker promises
// ---------------------------------------------------------------------------

/// A worker stays well-formed.
pub proof fn worker_stays_wf(w: WorkerView, input: WorkerInputView, now_ms: u64)
    requires
        w.wf(),
        w.accepts(input),
    ensures
        w.next(input, now_ms).0.wf(),
{
}

/// The worker after its inputs, each at its time.
#[verifier::opaque]
pub open spec fn worker_after(helper: bool, inputs: Seq<(WorkerInputView, u64)>) -> WorkerView
    decreases inputs.len(),
{
    if inputs.len() == 0 {
        WorkerView::begin(helper)
    } else {
        worker_after(helper, inputs.drop_last()).next(inputs.last().0, inputs.last().1).0
    }
}

/// The events that a worker has emitted after its inputs.
#[verifier::opaque]
pub open spec fn emitted(helper: bool, inputs: Seq<(WorkerInputView, u64)>) -> Seq<WorkerEventView>
    decreases inputs.len(),
{
    if inputs.len() == 0 {
        Seq::empty()
    } else {
        emitted(helper, inputs.drop_last()) + worker_after(helper, inputs.drop_last()).next(
            inputs.last().0,
            inputs.last().1,
        ).1
    }
}

/// Whether each input is of the kind that was called for when it came.
pub open spec fn regular(helper: bool, inputs: Seq<(WorkerInputView, u64)>) -> bool {
    forall|i: int|
        0 <= i < inputs.len() ==> worker_after(helper, inputs.take(i)).accepts(
            (#[trigger] inputs[i]).0,
        )
}

/// The state that is shown after events, when `before` was shown before them: the last one
/// that they announce.
pub open spec fn shown(before: WorkerStateView, events: Seq<WorkerEventView>) -> WorkerStateView
    decreases events.len(),
{
    if events.len() == 0 {
        before
    } else {
        match events.last() {
            WorkerEventView::StateChanged(state) => state,
            _ => shown(before, events.drop_last()),
        }
    }
}

/// What is shown after one series of events and then another.
pub proof fn shown_in_turn(
    before: WorkerStateView,
    a: Seq<WorkerEventView>,
    b: Seq<WorkerEventView>,
)
    ensures
        shown(before, a + b) == shown(shown(before, a), b),
    decreases b.len(),
{
    if b.len() == 0 {
        assert(a + b =~= a);
    } else {
        assert((a + b).last() == b.last());
        assert((a + b).drop_last() =~= a + b.drop_last());
        shown_in_turn(before, a, b.drop_last());
    }
}

proof fn lemma_logs_show_nothing(before: WorkerStateView, lines: Seq<Seq<char>>)
    ensures
        shown(before, log_events(lines)) == before,
    decreases lines.len(),
{
    if lines.len() > 0 {
        assert(log_events(lines).last() == WorkerEventView::Log(lines.last()));
        assert(log_events(lines).drop_last() =~= log_events(lines.drop_last()));
        lemma_logs_show_nothing(before, lines.drop_last());
    }
}

/// Whether a state that says "running" names the process that the worker takes to run.
pub open spec fn tells_truth(state: WorkerStateView, w: WorkerView) -> bool {
    state matches WorkerStateView::Running { statime_pid } ==> w.statime_pid == Some(statime_pid)
}

proof fn lemma_watching_keeps(w: WorkerView, now_ms: u64)
    ensures
        w.watching(now_ms).statime_pid == w.statime_pid,
        w.watching_clock(now_ms).statime_pid == w.statime_pid,
        w.watching(now_ms).nodes_written == w.nodes_written,
        w.watching_clock(now_ms).nodes_written == w.nodes_written,
{
}

proof fn lemma_tells_truth(
    before: WorkerStateView,
    w: WorkerView,
    input: WorkerInputView,
    now_ms: u64,
)
    requires
        tells_truth(before, w),
        w.accepts(input),
    ensures
        tells_truth(shown(before, w.next(input, now_ms).1), w.next(input, now_ms).0),
{
    reveal_with_fuel(shown, 3);
    let events = w.next(input, now_ms).1;
    lemma_watching_keeps(w, now_ms);
    match (w.stage, input) {
        (WorkerStageView::Receiving, WorkerInputView::Command(Some(WorkerCmdView::Start(config))))
        => {
            let begun = w.starting(StartView::begin(config), now_ms);
            let first = seq![WorkerEventView::StateChanged(WorkerStateView::StartingStatime)];
            shown_in_turn(before, first, begun.1);
            lemma_start_tells_truth(
                WorkerStateView::StartingStatime,
                w,
                StartView::begin(config),
                now_ms,
            );
        },
        (WorkerStageView::Starting(start), WorkerInputView::Answer(answer)) => {
            let moved = start.next(answer);
            let gone_on = w.starting(moved.0, now_ms);
            shown_in_turn(before, log_events(moved.1), gone_on.1);
            lemma_logs_show_nothing(before, moved.1);
            lemma_start_tells_truth(before, w, moved.0, now_ms);
        },
        (WorkerStageView::Stopping(stop), WorkerInputView::Answer(answer)) => {
            let moved = stop.next(answer);
            let gone_on = w.stopping(moved.0, now_ms);
            shown_in_turn(before, log_events(moved.1), gone_on.1);
            lemma_logs_show_nothing(before, moved.1);
        },
        _ => {
            if events.len() == 2 {
                assert(events.drop_last().len() == 1);
            }
        },
    }
}

proof fn lemma_start_tells_truth(
    before: WorkerStateView,
    w: WorkerView,
    start: StartView,
    now_ms: u64,
)
    requires
        tells_truth(before, w),
    ensures
        tells_truth(
            shown(before, w.starting(start, now_ms).1),
            w.starting(start, now_ms).0,
        ),
{
    reveal_with_fuel(shown, 3);
    let events = w.starting(start, now_ms).1;
    if let Some(Err(e)) = start.result() {
        assert(events.drop_last().last() == WorkerEventView::StateChanged(
            WorkerStateView::Error(e),
        ));
    }
}

proof fn lemma_regular_step(helper: bool, inputs: Seq<(WorkerInputView, u64)>)
    requires
        regular(helper, inputs),
        inputs.len() > 0,
    ensures
        regular(helper, inputs.drop_last()),
        worker_after(helper, inputs) == worker_after(helper, inputs.drop_last()).next(
            inputs.last().0,
            inputs.last().1,
        ).0,
        emitted(helper, inputs) == emitted(helper, inputs.drop_last()) + worker_after(
            helper,
            inputs.drop_last(),
        ).next(inputs.last().0, inputs.last().1).1,
        worker_after(helper, inputs.drop_last()).accepts(inputs.last().0),
{
    reveal(worker_after);
    reveal(emitted);
    let front = inputs.drop_last();
    assert(inputs.take(inputs.len() - 1) =~= front);
    assert(worker_after(helper, inputs.take(inputs.len() - 1)).accepts(
        inputs[inputs.len() - 1].0,
    ));
    assert forall|i: int| 0 <= i < front.len() implies worker_after(helper, front.take(i)).accepts(
        (#[trigger] front[i]).0,
    ) by {
        assert(front.take(i) =~= inputs.take(i));
        assert(front[i] == inputs[i]);
    }
}

/// Whatever happens, when the state that was announced last is "running", statime is taken to
/// run as the process that it names, its clock is observed, and there is a helper.
pub proof fn running_is_true(helper: bool, inputs: Seq<(WorkerInputView, u64)>)
    requires
        regular(helper, inputs),
    ensures
        worker_after(helper, inputs).wf(),
        tells_truth(
            shown(WorkerStateView::Idle, emitted(helper, inputs)),
            worker_after(helper, inputs),
        ),
        shown(WorkerStateView::Idle, emitted(helper, inputs)) is Running ==> worker_after(
            helper,
            inputs,
        ).observation_path is Some && worker_after(helper, inputs).helper,
    decreases inputs.len(),
{
    if inputs.len() > 0 {
        let front = inputs.drop_last();
        let (input, now_ms) = inputs.last();
        lemma_regular_step(helper, inputs);
        running_is_true(helper, front);
        let w = worker_after(helper, front);
        worker_stays_wf(w, input, now_ms);
        let before = shown(WorkerStateView::Idle, emitted(helper, front));
        lemma_tells_truth(before, w, input, now_ms);
        shown_in_turn(WorkerStateView::Idle, emitted(helper, front), w.next(input, now_ms).1);
    } else {
        reveal(worker_after);
        reveal(emitted);
    }
}

/// When a stop ends, nothing is taken to run, nothing is left to clean up, and "idle" is
/// announced.
pub proof fn stop_leaves_nothing(
    w: WorkerView,
    stop: StopView,
    answer: AnswerView,
    now_ms: u64,
)
    requires
        w.stage == WorkerStageView::Stopping(stop),
        stop.next(answer).0.stage == StopStage::Finished,
    ensures
        ({
            let (after, events) = w.next(WorkerInputView::Answer(answer), now_ms);
            &&& after.statime_pid is None
            &&& after.observation_path is None
            &&& !after.nodes_written
            &&& events.last() == WorkerEventView::StateChanged(WorkerStateView::Idle)
        }),
{
    lemma_watching_keeps(w, now_ms);
}

/// That the PipeWire nodes were written is forgotten only by a later start that succeeds or by
/// a stop, and every stop begins with it.
pub proof fn nodes_are_remembered(w: WorkerView, input: WorkerInputView, now_ms: u64)
    requires
        w.accepts(input),
        w.nodes_written,
    ensures
        ({
            let after = w.next(input, now_ms).0;
            ||| after.nodes_written
            ||| w.stage matches WorkerStageView::Starting(start) && input
                matches WorkerInputView::Answer(answer) && start.next(answer).0.stage
                == Stage::Succeeded
            ||| w.stage matches WorkerStageView::Stopping(stop) && input
                matches WorkerInputView::Answer(answer) && stop.next(answer).0.stage
                == StopStage::Finished
        }),
        w.stage is Receiving ==> (w.next(
            input,
            now_ms,
        ).0.stage matches WorkerStageView::Stopping(stop) ==> stop.nodes_written),
{
    lemma_watching_keeps(w, now_ms);
}

/// While statime is taken to run, a round without a command looks after it where that is due,
/// otherwise at its clock where that is due, and otherwise rests; and it is noted when each was
/// done.
pub proof fn watch_is_kept(w: WorkerView, now_ms: u64)
    requires
        w.wf(),
        w.stage == WorkerStageView::Receiving,
        w.statime_pid is Some,
    ensures
        ({
            let after = w.next(WorkerInputView::Command(None), now_ms).0;
            let status_due = is_due(w.last_status_ms, STATUS_INTERVAL_MS, now_ms);
            let ptp_due = is_due(w.last_ptp_ms, PTP_INTERVAL_MS, now_ms);
            &&& status_due ==> after.stage == WorkerStageView::AskingStatus
            &&& !status_due && ptp_due ==> after.stage == WorkerStageView::Observing(
                w.observation_path->0,
            )
            &&& !status_due && !ptp_due ==> after.stage == WorkerStageView::Resting
        }),
        forall|reply: Option<crate::protocol::ExchangeView>, then_ms: u64|
            (w.at(WorkerStageView::AskingStatus).next(
                WorkerInputView::Answer(AnswerView::Reply(reply)),
                then_ms,
            ).0).last_status_ms == Some(then_ms),
        forall|status: Option<PtpStatus>, then_ms: u64|
            (w.at(WorkerStageView::Observing(w.observation_path->0)).next(
                WorkerInputView::Observation(status),
                then_ms,
            ).0).last_ptp_ms == Some(then_ms),
{
}

// ---------------------------------------------------------------------------
// How the worker goes about it
// ---------------------------------------------------------------------------

/// Whatever is observed of the clock is reported, as it is, synced or not; an observation that
/// gave nothing is not reported. The worker then rests, and has noted when it looked.
pub proof fn observations_are_reported(w: WorkerView, status: PtpStatus, now_ms: u64)
    requires
        w.stage is Observing,
    ensures
        w.next(WorkerInputView::Observation(Some(status)), now_ms).1 == seq![
            WorkerEventView::PtpStatus(status),
        ],
        w.next(WorkerInputView::Observation(None), now_ms).1.len() == 0,
        forall|seen: Option<PtpStatus>|
            (#[trigger] w.next(WorkerInputView::Observation(seen), now_ms)).0 == (WorkerView {
                stage: WorkerStageView::Resting,
                last_ptp_ms: Some(now_ms),
                ..w
            }),
{
}

/// Lines for the log become one event each, in their order, with the very text.
pub proof fn lines_are_logged(lines: Seq<Seq<char>>)
    ensures
        log_events(lines).len() == lines.len(),
        forall|i: int|
            0 <= i < lines.len() ==> (#[trigger] log_events(lines)[i]) == WorkerEventView::Log(
                lines[i],
            ),
{
}

/// A start is announced at once, and begun with the configuration that came with the command.
/// One that has failed already, for want of an interface, is told as such at once.
pub proof fn start_is_announced(w: WorkerView, config: ConfigView, now_ms: u64)
    requires
        w.stage == WorkerStageView::Receiving,
    ensures
        ({
            let (t, events) = w.next(
                WorkerInputView::Command(Some(WorkerCmdView::Start(config))),
                now_ms,
            );
            &&& events.len() > 0 && events[0] == WorkerEventView::StateChanged(
                WorkerStateView::StartingStatime,
            )
            &&& config.interface.len() > 0 ==> t == w.at(
                WorkerStageView::Starting(StartView::begin(config)),
            ) && events.len() == 1
            &&& config.interface.len() == 0 ==> events == seq![
                WorkerEventView::StateChanged(WorkerStateView::StartingStatime),
                WorkerEventView::StateChanged(
                    WorkerStateView::Error("No network interface selected"@),
                ),
                WorkerEventView::Log("[error] "@ + "No network interface selected"@),
            ] && t.statime_pid == w.statime_pid && t.observation_path == w.observation_path
                && t.nodes_written == w.nodes_written
        }),
{
    lemma_watching_keeps(w, now_ms);
}

/// While a start is under way its lines are logged as they come, and nothing else happens. When
/// it has succeeded, the worker takes statime to run as the process that was started, observes
/// it where the configuration says, remembers whether nodes were written, and announces just
/// that; when it has failed, the worker announces why, logs it, and takes things to be as before.
pub proof fn start_is_pursued(
    w: WorkerView,
    start: StartView,
    answer: AnswerView,
    now_ms: u64,
)
    requires
        w.stage == WorkerStageView::Starting(start),
    ensures
        w.task() == WorkerTaskView::Perform(start.action()),
        ({
            let (t, events) = w.next(WorkerInputView::Answer(answer), now_ms);
            let (moved, lines) = start.next(answer);
            let n = lines.len() as int;
            &&& events.len() >= n && forall|i: int|
                0 <= i < n ==> (#[trigger] events[i]) == WorkerEventView::Log(lines[i])
            &&& t.helper == w.helper
            &&& moved.stage == Stage::Succeeded ==> events.len() == n + 1 && events[n]
                == WorkerEventView::StateChanged(
                WorkerStateView::Running { statime_pid: moved.pid },
            ) && t.statime_pid == Some(moved.pid) && t.observation_path == Some(
                moved.config.observation_path,
            ) && t.nodes_written == moved.nodes_written
            &&& moved.stage == Stage::Failed ==> events.len() == n + 2 && events[n]
                == WorkerEventView::StateChanged(WorkerStateView::Error(moved.error)) && events[n
                + 1] == WorkerEventView::Log("[error] "@ + moved.error) && t.statime_pid
                == w.statime_pid && t.observation_path == w.observation_path && t.nodes_written
                == w.nodes_written
            &&& moved.stage != Stage::Succeeded && moved.stage != Stage::Failed ==> events.len()
                == n && t == w.at(WorkerStageView::Starting(moved))
        }),
{
    lemma_watching_keeps(w, now_ms);
}

/// A stop is announced at once, and begun with whether there are nodes to remove. While it is
/// under way its lines are logged as they come, and nothing else happens; when it has ended, the
/// worker forgets everything about statime and announces that it is idle.
pub proof fn stop_is_pursued(w: WorkerView, stop: StopView, answer: AnswerView, now_ms: u64)
    ensures
        w.stage == WorkerStageView::Receiving ==> ({
            let (t, events) = w.next(
                WorkerInputView::Command(Some(WorkerCmdView::Stop)),
                now_ms,
            );
            &&& t == w.at(WorkerStageView::Stopping(StopView::begin(w.nodes_written)))
            &&& events == seq![
                WorkerEventView::StateChanged(WorkerStateView::Stopping),
                WorkerEventView::Log("Stopping statime..."@),
            ]
        }),
        w.stage == WorkerStageView::Stopping(stop) ==> ({
            let (t, events) = w.next(WorkerInputView::Answer(answer), now_ms);
            let (moved, lines) = stop.next(answer);
            let n = lines.len() as int;
            &&& w.task() == WorkerTaskView::Perform(stop.action())
            &&& events.len() >= n && forall|i: int|
                0 <= i < n ==> (#[trigger] events[i]) == WorkerEventView::Log(lines[i])
            &&& t.helper == w.helper
            &&& moved.stage == StopStage::Finished ==> events.len() == n + 1 && events[n]
                == WorkerEventView::StateChanged(WorkerStateView::Idle) && t.statime_pid is None
                && t.observation_path is None && !t.nodes_written
            &&& moved.stage != StopStage::Finished ==> events.len() == n && t == w.at(
                WorkerStageView::Stopping(moved),
            )
        }),
{
    lemma_watching_keeps(w, now_ms);
}

/// The helper is asked for statime's status; the worker takes statime to be gone exactly where
/// the answer is "OK pid=none", apart from white space around it, and says so then. Any other
/// answer, and none, leaves everything as it was, but for when the helper was asked. That nodes
/// were written is remembered in any case.
pub proof fn death_is_noticed(
    w: WorkerView,
    reply: Option<crate::protocol::ExchangeView>,
    now_ms: u64,
)
    requires
        w.stage == WorkerStageView::AskingStatus,
    ensures
        w.task() == WorkerTaskView::Perform(ActionView::Send("STATIME_STATUS"@)),
        ({
            let (t, events) = w.next(
                WorkerInputView::Answer(AnswerView::Reply(reply)),
                now_ms,
            );
            let gone = reply matches Some(crate::protocol::ExchangeView::Line(line))
                && text::trimmed(line) == "OK pid=none"@;
            &&& gone ==> events == seq![
                WorkerEventView::Log("[statime] Process exited unexpectedly"@),
                WorkerEventView::StateChanged(
                    WorkerStateView::Error("statime exited unexpectedly"@),
                ),
            ] && t.statime_pid is None && t.observation_path is None && t.stage
                == WorkerStageView::Resting && t.last_ptp_ms == w.last_ptp_ms
            &&& !gone ==> events.len() == 0 && t.statime_pid == w.statime_pid && t.observation_path
                == w.observation_path
            &&& t.last_status_ms == Some(now_ms)
            &&& t.nodes_written == w.nodes_written
            &&& t.helper == w.helper
        }),
{
    let asked = WorkerView { last_status_ms: Some(now_ms), ..w };
    lemma_watching_keeps(asked, now_ms);
    match reply {
        Some(crate::protocol::ExchangeView::WriteFailed(e)) => {
            assert(crate::protocol::ExchangeView::WriteFailed(e).response() is Err);
        },
        Some(crate::protocol::ExchangeView::ReadFailed(e)) => {
            assert(crate::protocol::ExchangeView::ReadFailed(e).response() is Err);
        },
        _ => {},
    }
}

/// What is looked after, and when. While statime is taken to run, the helper is asked for it as
/// soon as it was never asked or five seconds have passed since, and otherwise, or after that,
/// the clock is looked at as soon as it never was or one second has passed since. Otherwise the
/// worker rests for a tenth of a second, and looks for a command after that. Nothing is emitted
/// meanwhile.
pub proof fn watch_is_regular(w: WorkerView, now_ms: u64)
    requires
        w.wf(),
    ensures
        w.stage == WorkerStageView::Receiving ==> ({
            let (t, events) = w.next(WorkerInputView::Command(None), now_ms);
            let ask = w.statime_pid is Some && (w.last_status_ms matches Some(then) ==> now_ms
                >= then + 5000);
            let look = w.statime_pid is Some && (w.last_ptp_ms matches Some(then) ==> now_ms
                >= then + 1000);
            &&& events.len() == 0
            &&& ask ==> t == w.at(WorkerStageView::AskingStatus)
            &&& !ask && look ==> t == w.at(WorkerStageView::Observing(w.observation_path->0))
            &&& !ask && !look ==> t == w.at(WorkerStageView::Resting)
        }),
        w.stage == WorkerStageView::Receiving ==> w.task() == WorkerTaskView::Receive,
        w.stage matches WorkerStageView::Observing(path) ==> w.task() == WorkerTaskView::Observe(
            path,
        ),
        w.stage == WorkerStageView::Resting ==> w.task() == (WorkerTaskView::Rest { millis: 100 })
            && w.next(WorkerInputView::Rested, now_ms).0 == w.at(WorkerStageView::Receiving)
            && w.next(WorkerInputView::Rested, now_ms).1.len() == 0,
{
}

/// After a command, and after statime was asked for, the clock is looked at where it is due,
/// exactly as in any other round.
pub proof fn watch_goes_on(w: WorkerView, now_ms: u64)
    requires
        w.statime_pid is Some <==> w.observation_path is Some,
        w.statime_pid is Some ==> w.helper,
    ensures
        ({
            let ask = w.statime_pid is Some && (w.last_status_ms matches Some(then) ==> now_ms
                >= then + 5000);
            let look = w.statime_pid is Some && (w.last_ptp_ms matches Some(then) ==> now_ms
                >= then + 1000);
            &&& ask ==> w.watching(now_ms) == w.at(WorkerStageView::AskingStatus)
            &&& !ask ==> w.watching(now_ms) == w.watching_clock(now_ms)
            &&& look ==> w.watching_clock(now_ms) == w.at(
                WorkerStageView::Observing(w.observation_path->0),
            )
            &&& !look ==> w.watching_clock(now_ms) == w.at(WorkerStageView::Resting)
        }),
{
}

/// When no command can come any more, the worker tells the helper to quit, where there is one,
/// and is done; whatever the helper says.
pub proof fn worker_leaves_in_the_end(w: WorkerView, answer: AnswerView, now_ms: u64)
    ensures
        w.stage == WorkerStageView::Receiving ==> ({
            let (t, events) = w.next(WorkerInputView::Disconnected, now_ms);
            &&& events.len() == 0
            &&& w.helper ==> t.task() == WorkerTaskView::Perform(ActionView::Send("QUIT"@))
            &&& !w.helper ==> t.task() == WorkerTaskView::Exit
        }),
        w.stage == WorkerStageView::Leaving ==> w.next(
            WorkerInputView::Answer(answer),
            now_ms,
        ).0.task() == WorkerTaskView::Exit,
        w.stage == WorkerStageView::Left <==> w.task() == WorkerTaskView::Exit,
{
}

/// A worker begins with looking for a command, and takes nothing to run and nothing to have been
/// written.
pub proof fn worker_begins_with_nothing(helper: bool)
    ensures
        ({
            let w = WorkerView::begin(helper);
            &&& w.helper == helper
            &&& w.task() == WorkerTaskView::Receive
            &&& w.statime_pid is None && w.observation_path is None && !w.nodes_written
            &&& w.last_status_ms is None && w.last_ptp_ms is None
        }),
{
}

/// Each kind of input belongs to the task that calls for it, and to no other, whatever it holds:
/// only a reply of the helper comes exactly where there is one.
pub proof fn inputs_fit_their_tasks(w: WorkerView, input: WorkerInputView)
    ensures
        w.accepts(input) <==> match input {
            WorkerInputView::Command(_) => w.task() is Receive,
            WorkerInputView::Disconnected => w.task() is Receive,
            WorkerInputView::Answer(answer) => w.task() is Perform && w.task()->Perform_0.accepts(
                answer,
            ) && (answer matches AnswerView::Reply(reply) ==> (reply is Some <==> w.helper)),
            WorkerInputView::Observation(_) => w.task() is Observe,
            WorkerInputView::Rested => w.task() is Rest,
        },
{
}

/// A worker at another stage is the same in all else.
pub proof fn worker_keeps_the_rest(w: WorkerView, stage: WorkerStageView)
    ensures
        w.at(stage).stage == stage,
        w.at(stage).helper == w.helper,
        w.at(stage).statime_pid == w.statime_pid,
        w.at(stage).observation_path == w.observation_path,
        w.at(stage).nodes_written == w.nodes_written,
        w.at(stage).last_status_ms == w.last_status_ms,
        w.at(stage).last_ptp_ms == w.last_ptp_ms,
{
}

} // verus!
