//! Stopping the soundcard: terminating statime through the helper, and taking the PipeWire
//! nodes away again.

use crate::config::text_or;
use crate::pipewire;
use crate::procedure::{
    no_lines, one_line, reload_units, reload_units_action, restart_pipewire,
    restart_pipewire_action, Action, ActionView, Answer, AnswerView,
};
use crate::text;
use vstd::prelude::*;
use vstd::string::*;

verus! {

/// Where the stop stands: what has to be done next.
#[derive(Clone, Copy, Debug, PartialEq, Eq, Structural)]
pub enum StopStage {
    StopStatime,
    ReadHome,
    RemoveNodes,
    ReloadUnits,
    RestartPipewire,
    Finished,
}

/// A stop in progress.
pub struct Stop {
    pub stage: StopStage,
    /// Whether the configuration of the PipeWire nodes was written and has to go.
    pub nodes_written: bool,
    /// The home directory, once it was looked up.
    pub home: String,
}

/// A [`Stop`] with its texts as sequences of characters.
pub struct StopView {
    pub stage: StopStage,
    pub nodes_written: bool,
    pub home: Seq<char>,
}

impl View for Stop {
    type V = StopView;

    open spec fn view(&self) -> StopView {
        StopView { stage: self.stage, nodes_written: self.nodes_written, home: self.home@ }
    }
}

impl StopView {
    /// A stop that has not done anything yet.
    pub open spec fn begin(nodes_written: bool) -> StopView {
        StopView { stage: StopStage::StopStatime, nodes_written, home: Seq::empty() }
    }

    /// What has to be done next.
    pub open spec fn action(self) -> ActionView {
        match self.stage {
            StopStage::StopStatime => ActionView::Send("STOP_STATIME"@),
            StopStage::ReadHome => ActionView::ReadHome,
            StopStage::RemoveNodes => ActionView::RemoveFile(pipewire::conf_file(self.home)),
            StopStage::ReloadUnits => reload_units(),
            StopStage::RestartPipewire => restart_pipewire(),
            StopStage::Finished => ActionView::Nothing,
        }
    }

    /// The same stop at another stage.
    pub open spec fn at(self, stage: StopStage) -> StopView {
        StopView { stage, ..self }
    }

    /// The stage after an answer, and the lines that tell of it.
    pub open spec fn next(self, answer: AnswerView) -> (StopView, Seq<Seq<char>>) {
        match self.stage {
            StopStage::StopStatime => (
                self.at(
                    if self.nodes_written {
                        StopStage::ReadHome
                    } else {
                        StopStage::Finished
                    },
                ),
                seq![stop_report(answer->Reply_0)],
            ),
            StopStage::ReadHome => (
                StopView {
                    stage: StopStage::RemoveNodes,
                    home: text_or(answer->Text_0, "."@),
                    ..self
                },
                Seq::empty(),
            ),
            StopStage::RemoveNodes => match answer->Outcome_0 {
                None => (
                    self.at(StopStage::ReloadUnits),
                    seq!["Removed PipeWire Dante config, restarting PipeWire..."@],
                ),
                Some(_) => (self.at(StopStage::Finished), Seq::empty()),
            },
            StopStage::ReloadUnits => (self.at(StopStage::RestartPipewire), Seq::empty()),
            StopStage::RestartPipewire => (
                self.at(StopStage::Finished),
                seq!["PipeWire restarted"@],
            ),
            StopStage::Finished => (self, Seq::empty()),
        }
    }

    /// How many answers the stop still takes at most.
    pub open spec fn answers_left(self) -> nat {
        match self.stage {
            StopStage::StopStatime => 5,
            StopStage::ReadHome => 4,
            StopStage::RemoveNodes => 3,
            StopStage::ReloadUnits => 2,
            StopStage::RestartPipewire => 1,
            StopStage::Finished => 0,
        }
    }
}

/// What is told of an attempt to stop statime. Any response counts as success.
pub open spec fn stop_report(reply: Option<crate::protocol::ExchangeView>) -> Seq<char> {
    match reply {
        Some(exchange) => match exchange.response() {
            Ok(_) => "statime stopped"@,
            Err(e) => "Warning: STOP_STATIME failed: "@ + e,
        },
        None => "Warning: root helper not running — statime may still be running."@,
    }
}

impl Stop {
    /// Begins to stop, and returns the lines that tell of it.
    pub fn begin(nodes_written: bool) -> (r: (Stop, Vec<String>))
        ensures
            r.0@ == StopView::begin(nodes_written),
            text::texts(r.1@) == seq!["Stopping statime..."@],
    {
        (
            Stop { stage: StopStage::StopStatime, nodes_written, home: String::new() },
            one_line("Stopping statime...".to_owned()),
        )
    }

    /// What has to be done next.
    pub fn action(&self) -> (r: Action)
        ensures
            r@ == self@.action(),
    {
        match self.stage {
            StopStage::StopStatime => Action::Send("STOP_STATIME".to_owned()),
            StopStage::ReadHome => Action::ReadHome,
            StopStage::RemoveNodes => Action::RemoveFile(
                pipewire::pipewire_dante_conf_path(self.home.as_str()),
            ),
            StopStage::ReloadUnits => reload_units_action(),
            StopStage::RestartPipewire => restart_pipewire_action(),
            StopStage::Finished => Action::Nothing,
        }
    }

    /// Takes in what came of the last action, and returns the lines that tell of it.
    pub fn advance(&mut self, answer: &Answer) -> (r: Vec<String>)
        requires
            old(self)@.action().accepts(answer@),
        ensures
            (final(self)@, text::texts(r@)) == old(self)@.next(answer@),
    {
        match (self.stage, answer) {
            (StopStage::StopStatime, Answer::Reply(reply)) => {
                self.stage = if self.nodes_written {
                    StopStage::ReadHome
                } else {
                    StopStage::Finished
                };
                match reply {
                    Some(exchange) => match exchange.response() {
                        Ok(_) => one_line("statime stopped".to_owned()),
                        Err(e) => one_line(
                            "Warning: STOP_STATIME failed: ".to_owned().concat(e.as_str()),
                        ),
                    },
                    None => one_line(
                        "Warning: root helper not running — statime may still be running.".to_owned(),
                    ),
                }
            },
            (StopStage::ReadHome, Answer::Text(home)) => {
                self.home = match home {
                    Some(h) => h.clone(),
                    None => ".".to_owned(),
                };
                self.stage = StopStage::RemoveNodes;
                no_lines()
            },
            (StopStage::RemoveNodes, Answer::Outcome(outcome)) => match outcome {
                None => {
                    self.stage = StopStage::ReloadUnits;
                    one_line("Removed PipeWire Dante config, restarting PipeWire...".to_owned())
                },
                Some(_) => {
                    self.stage = StopStage::Finished;
                    no_lines()
                },
            },
            (StopStage::ReloadUnits, _) => {
                self.stage = StopStage::RestartPipewire;
                no_lines()
            },
            (StopStage::RestartPipewire, _) => {
                self.stage = StopStage::Finished;
                one_line("PipeWire restarted".to_owned())
            },
            _ => no_lines(),
        }
    }

    /// Whether the stop has ended.
    pub fn is_finished(&self) -> (r: bool)
        ensures
            r == (self@.stage == StopStage::Finished),
    {
        self.stage == StopStage::Finished
    }
}

/// A stop ends: each answer leaves fewer to come, and none are left only at the end.
pub proof fn stop_ends(s: StopView, answer: AnswerView)
    requires
        s.action().accepts(answer),
    ensures
        s.next(answer).0.answers_left() < s.answers_left(),
        s.answers_left() == 0 <==> s.stage == StopStage::Finished,
{
}

/// A stop touches PipeWire only where the nodes' configuration had been written.
pub proof fn stop_leaves_pipewire_alone(reply: AnswerView)
    requires
        reply is Reply,
    ensures
        StopView::begin(false).next(reply).0.action() == ActionView::Nothing,
{
}

/// A stop removes the very file that a start wrote for the same home directory.
pub proof fn stop_removes_what_start_wrote(start: crate::start::StartView, stop: StopView)
    requires
        start.stage == crate::start::Stage::WriteNodes,
        stop.stage == StopStage::RemoveNodes,
        start.home == stop.home,
    ensures
        start.action() matches ActionView::WriteFile { path, .. } && stop.action()
            == ActionView::RemoveFile(path),
{
}

/// A stop always begins with the helper, and goes on whatever the helper says; it touches
/// PipeWire exactly where the nodes had been written, and restarts it exactly where their
/// configuration could be removed.
pub proof fn stop_takes_its_steps(s: StopView, answer: AnswerView)
    requires
        s.action().accepts(answer),
    ensures
        s.stage == StopStage::StopStatime ==> s.action() == ActionView::Send("STOP_STATIME"@),
        s.stage == StopStage::ReadHome ==> s.action() == ActionView::ReadHome,
        s.stage == StopStage::RemoveNodes ==> s.action() == ActionView::RemoveFile(
            s.home + "/.config/pipewire/pipewire.conf.d/idvs-dante.conf"@,
        ),
        s.stage == StopStage::ReloadUnits ==> s.action() == (ActionView::Run {
            program: "systemctl"@,
            args: seq!["--user"@, "daemon-reload"@],
        }),
        s.stage == StopStage::RestartPipewire ==> s.action() == (ActionView::Run {
            program: "systemctl"@,
            args: seq!["--user"@, "restart"@, "pipewire"@],
        }),
        ({
            let t = s.next(answer).0;
            &&& t.nodes_written == s.nodes_written
            &&& s.stage == StopStage::StopStatime ==> (t.stage == StopStage::ReadHome
                <==> s.nodes_written) && (t.stage == StopStage::Finished <==> !s.nodes_written)
            &&& s.stage == StopStage::ReadHome ==> t.stage == StopStage::RemoveNodes
            &&& answer matches AnswerView::Text(Some(home)) ==> t.home == home
            &&& answer == AnswerView::Text(None) ==> t.home == "."@
            &&& !(answer is Text) ==> t.home == s.home
            &&& s.stage == StopStage::RemoveNodes && answer->Outcome_0 is None ==> t.stage
                == StopStage::ReloadUnits
            &&& s.stage == StopStage::RemoveNodes && answer->Outcome_0 is Some ==> t.stage
                == StopStage::Finished
            &&& s.stage == StopStage::ReloadUnits ==> t.stage == StopStage::RestartPipewire
            &&& s.stage == StopStage::RestartPipewire ==> t.stage == StopStage::Finished
        }),
{
}

/// A stop tells whether the helper could be reached, and why not; that it restarts PipeWire,
/// where it does; and nothing else.
pub proof fn stop_tells_what_it_did(s: StopView, answer: AnswerView)
    requires
        s.action().accepts(answer),
    ensures
        ({
            let lines = s.next(answer).1;
            &&& answer == AnswerView::Reply(None) ==> lines == seq![
                "Warning: root helper not running — statime may still be running."@,
            ]
            &&& answer matches AnswerView::Reply(Some(exchange)) ==> lines == seq![
                match exchange.response() {
                    Ok(_) => "statime stopped"@,
                    Err(e) => "Warning: STOP_STATIME failed: "@ + e,
                },
            ]
            &&& s.stage == StopStage::RemoveNodes && answer == AnswerView::Outcome(None)
                ==> lines == seq!["Removed PipeWire Dante config, restarting PipeWire..."@]
            &&& s.stage == StopStage::RestartPipewire ==> lines == seq!["PipeWire restarted"@]
            &&& s.stage == StopStage::ReadHome || s.stage == StopStage::ReloadUnits || (answer
                matches AnswerView::Outcome(Some(_))) ==> lines.len() == 0
        }),
{
}

/// A stop begins with stopping statime, and knows whether there are nodes to remove.
pub proof fn stop_begins_with_statime(nodes_written: bool)
    ensures
        StopView::begin(nodes_written).stage == StopStage::StopStatime,
        StopView::begin(nodes_written).nodes_written == nodes_written,
{
}

} // verus!
