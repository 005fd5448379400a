//! What a procedure of the worker asks of the outside world, and what it hears back.
//!
//! A procedure is a state. Its state says which [`Action`] is to be performed next; what came
//! of it goes back as an [`Answer`], which moves the procedure on and yields lines for the log.

use crate::network::{records, InterfaceAddress, Record};
use crate::protocol::{Exchange, ExchangeView};
use crate::text;
use vstd::prelude::*;
use vstd::string::*;

verus! {

/// Work in the outside world.
#[derive(Debug, PartialEq)]
pub enum Action {
    /// Find out whether a path exists: a flag.
    CheckExists(String),
    /// Find out whether a path is a directory: a flag.
    CheckDirectory(String),
    /// Ask for the network's address records: addresses.
    ListAddresses,
    /// Write a file: an outcome.
    WriteFile { path: String, content: String },
    /// Remove a file: an outcome.
    RemoveFile(String),
    /// Create a directory and those above it; done, whether or not it succeeds.
    CreateDirectories(String),
    /// Measure a file: a size.
    MeasureFile(String),
    /// Send the helper a line and read one back: a reply.
    Send(String),
    /// Wait until a path exists, at most for some seconds: a flag.
    WaitForPath { path: String, seconds: u64 },
    /// Look up the home directory in the environment: a text.
    ReadHome,
    /// Run a program to its end; done, whether or not it succeeds.
    Run { program: String, args: Vec<String> },
    /// Do nothing for some seconds: done.
    Pause { seconds: u64 },
    /// Find the path of the running program: a place.
    LocateSelf,
    /// Start a program without waiting for it: an outcome.
    Launch { program: String, args: Vec<String> },
    /// Connect to a socket: an outcome.
    Connect(String),
    /// Make a second handle on the connection: an outcome.
    SplitConnection,
    /// Nothing more: the procedure has ended.
    Nothing,
}

/// An [`Action`] with its texts as sequences of characters.
pub enum ActionView {
    CheckExists(Seq<char>),
    CheckDirectory(Seq<char>),
    ListAddresses,
    WriteFile { path: Seq<char>, content: Seq<char> },
    RemoveFile(Seq<char>),
    CreateDirectories(Seq<char>),
    MeasureFile(Seq<char>),
    Send(Seq<char>),
    WaitForPath { path: Seq<char>, seconds: u64 },
    ReadHome,
    Run { program: Seq<char>, args: Seq<Seq<char>> },
    Pause { seconds: u64 },
    LocateSelf,
    Launch { program: Seq<char>, args: Seq<Seq<char>> },
    Connect(Seq<char>),
    SplitConnection,
    Nothing,
}

impl View for Action {
    type V = ActionView;

    open spec fn view(&self) -> ActionView {
        match self {
            Action::CheckExists(path) => ActionView::CheckExists(path@),
            Action::CheckDirectory(path) => ActionView::CheckDirectory(path@),
            Action::ListAddresses => ActionView::ListAddresses,
            Action::WriteFile { path, content } => ActionView::WriteFile {
                path: path@,
                content: content@,
            },
            Action::RemoveFile(path) => ActionView::RemoveFile(path@),
            Action::CreateDirectories(path) => ActionView::CreateDirectories(path@),
            Action::MeasureFile(path) => ActionView::MeasureFile(path@),
            Action::Send(line) => ActionView::Send(line@),
            Action::WaitForPath { path, seconds } => ActionView::WaitForPath {
                path: path@,
                seconds: *seconds,
            },
            Action::ReadHome => ActionView::ReadHome,
            Action::Run { program, args } => ActionView::Run {
                program: program@,
                args: text::texts(args@),
            },
            Action::Pause { seconds } => ActionView::Pause { seconds: *seconds },
            Action::LocateSelf => ActionView::LocateSelf,
            Action::Launch { program, args } => ActionView::Launch {
                program: program@,
                args: text::texts(args@),
            },
            Action::Connect(path) => ActionView::Connect(path@),
            Action::SplitConnection => ActionView::SplitConnection,
            Action::Nothing => ActionView::Nothing,
        }
    }
}

/// What came of an [`Action`].
pub enum Answer {
    Flag(bool),
    Addresses(Option<Vec<InterfaceAddress>>),
    /// Nothing where it succeeded, and otherwise why it failed.
    Outcome(Option<String>),
    Done,
    Size(Option<u64>),
    /// Nothing where there is no helper.
    Reply(Option<Exchange>),
    Text(Option<String>),
    /// A path, or why there is none.
    Place(Result<String, String>),
}

/// An [`Answer`] with its texts as sequences of characters.
pub enum AnswerView {
    Flag(bool),
    Addresses(Seq<Record>),
    Outcome(Option<Seq<char>>),
    Done,
    Size(Option<u64>),
    Reply(Option<ExchangeView>),
    Text(Option<Seq<char>>),
    Place(Result<Seq<char>, Seq<char>>),
}

/// The characters of an optional text.
pub open spec fn opt_view(t: Option<String>) -> Option<Seq<char>> {
    match t {
        Some(s) => Some(s@),
        None => None,
    }
}

impl View for Answer {
    type V = AnswerView;

    open spec fn view(&self) -> AnswerView {
        match self {
            Answer::Flag(b) => AnswerView::Flag(*b),
            Answer::Addresses(addrs) => AnswerView::Addresses(records(*addrs)),
            Answer::Outcome(error) => AnswerView::Outcome(opt_view(*error)),
            Answer::Done => AnswerView::Done,
            Answer::Size(n) => AnswerView::Size(*n),
            Answer::Reply(reply) => AnswerView::Reply(
                match reply {
                    Some(x) => Some(x@),
                    None => None,
                },
            ),
            Answer::Text(t) => AnswerView::Text(opt_view(*t)),
            Answer::Place(p) => AnswerView::Place(
                match p {
                    Ok(s) => Ok(s@),
                    Err(e) => Err(e@),
                },
            ),
        }
    }
}

impl ActionView {
    /// Whether `answer` is of the kind that this action calls for.
    pub open spec fn accepts(self, answer: AnswerView) -> bool {
        match self {
            ActionView::CheckExists(_) => answer is Flag,
            ActionView::CheckDirectory(_) => answer is Flag,
            ActionView::ListAddresses => answer is Addresses,
            ActionView::WriteFile { .. } => answer is Outcome,
            ActionView::RemoveFile(_) => answer is Outcome,
            ActionView::CreateDirectories(_) => answer is Done,
            ActionView::MeasureFile(_) => answer is Size,
            ActionView::Send(_) => answer is Reply,
            ActionView::WaitForPath { .. } => answer is Flag,
            ActionView::ReadHome => answer is Text,
            ActionView::Run { .. } => answer is Done,
            ActionView::Pause { .. } => answer is Done,
            ActionView::LocateSelf => answer is Place,
            ActionView::Launch { .. } => answer is Outcome,
            ActionView::Connect(_) => answer is Outcome,
            ActionView::SplitConnection => answer is Outcome,
            ActionView::Nothing => false,
        }
    }
}

impl Action {
    /// Whether `answer` is of the kind that this action calls for.
    pub fn accepts(&self, answer: &Answer) -> (r: bool)
        ensures
            r == self@.accepts(answer@),
    {
        match (self, answer) {
            (Action::CheckExists(_), Answer::Flag(_)) => true,
            (Action::CheckDirectory(_), Answer::Flag(_)) => true,
            (Action::ListAddresses, Answer::Addresses(_)) => true,
            (Action::WriteFile { .. }, Answer::Outcome(_)) => true,
            (Action::RemoveFile(_), Answer::Outcome(_)) => true,
            (Action::CreateDirectories(_), Answer::Done) => true,
            (Action::MeasureFile(_), Answer::Size(_)) => true,
            (Action::Send(_), Answer::Reply(_)) => true,
            (Action::WaitForPath { .. }, Answer::Flag(_)) => true,
            (Action::ReadHome, Answer::Text(_)) => true,
            (Action::Run { .. }, Answer::Done) => true,
            (Action::Pause { .. }, Answer::Done) => true,
            (Action::LocateSelf, Answer::Place(_)) => true,
            (Action::Launch { .. }, Answer::Outcome(_)) => true,
            (Action::Connect(_), Answer::Outcome(_)) => true,
            (Action::SplitConnection, Answer::Outcome(_)) => true,
            _ => false,
        }
    }
}

/// Reloading the user's service files.
pub open spec fn reload_units() -> ActionView {
    ActionView::Run { program: "systemctl"@, args: seq!["--user"@, "daemon-reload"@] }
}

/// Restarting PipeWire.
pub open spec fn restart_pipewire() -> ActionView {
    ActionView::Run { program: "systemctl"@, args: seq!["--user"@, "restart"@, "pipewire"@] }
}

/// The action that reloads the user's service files.
pub fn reload_units_action() -> (r: Action)
    ensures
        r@ == reload_units(),
{
    let mut args: Vec<String> = Vec::new();
    args.push("--user".to_owned());
    args.push("daemon-reload".to_owned());
    assert(text::texts(args@) =~= seq!["--user"@, "daemon-reload"@]);
    Action::Run { program: "systemctl".to_owned(), args }
}

/// The action that restarts PipeWire.
pub fn restart_pipewire_action() -> (r: Action)
    ensures
        r@ == restart_pipewire(),
{
    let mut args: Vec<String> = Vec::new();
    args.push("--user".to_owned());
    args.push("restart".to_owned());
    args.push("pipewire".to_owned());
    assert(text::texts(args@) =~= seq!["--user"@, "restart"@, "pipewire"@]);
    Action::Run { program: "systemctl".to_owned(), args }
}

// ---------------------------------------------------------------------------
// Waiting
// ---------------------------------------------------------------------------

/// What to do about a path that is waited for.
#[derive(Clone, Copy, Debug, PartialEq, Eq, Structural)]
pub enum Wait {
    Found,
    TimedOut,
    /// Look again after some milliseconds.
    LookAgain { after_ms: u64 },
}

/// What to do about a path that has been waited for for some milliseconds, at most for some
/// seconds.
pub open spec fn waiting(found: bool, elapsed_ms: u64, seconds: u64) -> Wait {
    if elapsed_ms >= seconds * 1000 {
        Wait::TimedOut
    } else if found {
        Wait::Found
    } else {
        Wait::LookAgain { after_ms: 250 }
    }
}

/// What to do about a path that has been waited for for some milliseconds, at most for some
/// seconds.
pub fn wait_step(exists: bool, elapsed_ms: u64, seconds: u64) -> (r: Wait)
    ensures
        r == (if elapsed_ms >= seconds * 1000 {
            Wait::TimedOut
        } else if exists {
            Wait::Found
        } else {
            Wait::LookAgain { after_ms: 250 }
        }),
        r == waiting(exists, elapsed_ms, seconds),
{
    if elapsed_ms / 1000 >= seconds {
        Wait::TimedOut
    } else if exists {
        Wait::Found
    } else {
        Wait::LookAgain { after_ms: 250 }
    }
}

// ---------------------------------------------------------------------------
// Lines for the log
// ---------------------------------------------------------------------------

/// No lines.
pub fn no_lines() -> (r: Vec<String>)
    ensures
        text::texts(r@) == Seq::<Seq<char>>::empty(),
{
    let r: Vec<String> = Vec::new();
    assert(text::texts(r@) =~= Seq::<Seq<char>>::empty());
    r
}

/// One line.
pub fn one_line(a: String) -> (r: Vec<String>)
    ensures
        text::texts(r@) == seq![a@],
{
    let mut r: Vec<String> = Vec::new();
    r.push(a);
    assert(text::texts(r@) =~= seq![a@]);
    r
}

/// One more line.
pub fn and_line(lines: Vec<String>, a: String) -> (r: Vec<String>)
    ensures
        text::texts(r@) == text::texts(lines@).push(a@),
{
    let mut r = lines;
    r.push(a);
    assert(text::texts(r@) =~= text::texts(lines@).push(a@));
    r
}

/// A path is given up exactly when its seconds have passed; before that it is found exactly when
/// it is there, and otherwise looked for again after a quarter of a second.
pub proof fn waiting_ends_in_time(found: bool, elapsed_ms: u64, seconds: u64)
    ensures
        waiting(found, elapsed_ms, seconds) == Wait::TimedOut <==> elapsed_ms >= 1000 * seconds,
        waiting(found, elapsed_ms, seconds) == Wait::Found <==> found && elapsed_ms < 1000
            * seconds,
        waiting(found, elapsed_ms, seconds) is LookAgain ==> waiting(found, elapsed_ms, seconds)
            == (Wait::LookAgain { after_ms: 250 }),
{
}

/// PipeWire is restarted by the user's own systemd, which reads its files anew before that.
pub proof fn pipewire_is_restarted_by_systemd()
    ensures
        reload_units() == (ActionView::Run {
            program: "systemctl"@,
            args: seq!["--user"@, "daemon-reload"@],
        }),
        restart_pipewire() == (ActionView::Run {
            program: "systemctl"@,
            args: seq!["--user"@, "restart"@, "pipewire"@],
        }),
{
}

/// Each kind of answer belongs to the actions that call for it, and to no other: a flag to what
/// is looked for, an outcome to what may fail, and so on. Nothing more is answered once there is
/// nothing more to do.
pub proof fn answers_fit_their_actions(action: ActionView, answer: AnswerView)
    ensures
        action.accepts(answer) <==> match answer {
            AnswerView::Flag(_) => action is CheckExists || action is CheckDirectory
                || action is WaitForPath,
            AnswerView::Addresses(_) => action is ListAddresses,
            AnswerView::Outcome(_) => action is WriteFile || action is RemoveFile
                || action is Launch || action is Connect || action is SplitConnection,
            AnswerView::Done => action is CreateDirectories || action is Run || action is Pause,
            AnswerView::Size(_) => action is MeasureFile,
            AnswerView::Reply(_) => action is Send,
            AnswerView::Text(_) => action is ReadHome,
            AnswerView::Place(_) => action is LocateSelf,
        },
{
}

} // verus!
