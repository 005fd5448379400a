//! The privileged helper: it makes its socket available, accepts one connection, and carries
//! out the commands that come over it, one response line for each.

use crate::protocol;
use crate::protocol::{Command, CommandView};
use crate::text;
use vstd::prelude::*;
use vstd::string::*;

verus! {

// ---------------------------------------------------------------------------
// Making the socket available
// ---------------------------------------------------------------------------

/// The permissions of the socket: any local user may connect.
pub const SOCKET_MODE: u32 = 0o666;

/// Where the socket is prepared before it gets its final path.
pub open spec fn setup_file(socket: Seq<char>) -> Seq<char> {
    socket + ".setup"@
}

/// The path where the socket is prepared before it gets its final path.
pub fn setup_path(socket: &str) -> (r: String)
    ensures
        r@ == setup_file(socket@),
{
    socket.to_owned().concat(".setup")
}

/// Where the service stands: what has to be done next.
#[derive(Clone, Copy, Debug, PartialEq, Eq, Structural)]
pub enum ServiceStage {
    RemoveStaleSetup,
    RemoveStaleSocket,
    Bind,
    SetPermissions,
    Publish,
    RemoveUnpublished,
    Accept,
    Serve,
    RemoveSocket,
    Ended,
}

/// Work that the service asks for.
#[derive(Debug, PartialEq)]
pub enum ServiceTask {
    /// Remove a file, whether or not it succeeds.
    Remove(String),
    /// Listen on a new socket.
    Bind(String),
    /// Set the permissions of a file, whether or not it succeeds.
    SetPermissions { path: String, mode: u32 },
    /// Rename a file.
    Rename { from: String, to: String },
    /// Accept a connection.
    Accept,
    /// Carry out the commands that come over the connection, to its end.
    Serve,
    /// Nothing more.
    Exit,
}

/// A [`ServiceTask`] with its texts as sequences of characters.
pub enum ServiceTaskView {
    Remove(Seq<char>),
    Bind(Seq<char>),
    SetPermissions { path: Seq<char>, mode: u32 },
    Rename { from: Seq<char>, to: Seq<char> },
    Accept,
    Serve,
    Exit,
}

impl View for ServiceTask {
    type V = ServiceTaskView;

    open spec fn view(&self) -> ServiceTaskView {
        match self {
            ServiceTask::Remove(path) => ServiceTaskView::Remove(path@),
            ServiceTask::Bind(path) => ServiceTaskView::Bind(path@),
            ServiceTask::SetPermissions { path, mode } => ServiceTaskView::SetPermissions {
                path: path@,
                mode: *mode,
            },
            ServiceTask::Rename { from, to } => ServiceTaskView::Rename { from: from@, to: to@ },
            ServiceTask::Accept => ServiceTaskView::Accept,
            ServiceTask::Serve => ServiceTaskView::Serve,
            ServiceTask::Exit => ServiceTaskView::Exit,
        }
    }
}

/// The helper's service from its beginning to its end.
pub struct Service {
    pub socket: String,
    pub stage: ServiceStage,
}

/// A [`Service`] with its texts as sequences of characters.
pub struct ServiceView {
    pub socket: Seq<char>,
    pub stage: ServiceStage,
}

impl View for Service {
    type V = ServiceView;

    open spec fn view(&self) -> ServiceView {
        ServiceView { socket: self.socket@, stage: self.stage }
    }
}

impl ServiceView {
    /// The service of a socket at its beginning.
    pub open spec fn begin(socket: Seq<char>) -> ServiceView {
        ServiceView { socket, stage: ServiceStage::RemoveStaleSetup }
    }

    /// What has to be done next. The socket is bound and gets its permissions under another
    /// path, so that it is never seen under its own without them.
    pub open spec fn task(self) -> ServiceTaskView {
        match self.stage {
            ServiceStage::RemoveStaleSetup => ServiceTaskView::Remove(setup_file(self.socket)),
            ServiceStage::RemoveStaleSocket => ServiceTaskView::Remove(self.socket),
            ServiceStage::Bind => ServiceTaskView::Bind(setup_file(self.socket)),
            ServiceStage::SetPermissions => ServiceTaskView::SetPermissions {
                path: setup_file(self.socket),
                mode: SOCKET_MODE,
            },
            ServiceStage::Publish => ServiceTaskView::Rename {
                from: setup_file(self.socket),
                to: self.socket,
            },
            ServiceStage::RemoveUnpublished => ServiceTaskView::Remove(setup_file(self.socket)),
            ServiceStage::Accept => ServiceTaskView::Accept,
            ServiceStage::Serve => ServiceTaskView::Serve,
            ServiceStage::RemoveSocket => ServiceTaskView::Remove(self.socket),
            ServiceStage::Ended => ServiceTaskView::Exit,
        }
    }

    /// The stage after a task, given why it failed if it did.
    pub open spec fn next(self, failure: Option<Seq<char>>) -> ServiceView {
        ServiceView {
            stage: match self.stage {
                ServiceStage::RemoveStaleSetup => ServiceStage::RemoveStaleSocket,
                ServiceStage::RemoveStaleSocket => ServiceStage::Bind,
                ServiceStage::Bind => if failure is None {
                    ServiceStage::SetPermissions
                } else {
                    ServiceStage::Ended
                },
                ServiceStage::SetPermissions => ServiceStage::Publish,
                ServiceStage::Publish => if failure is None {
                    ServiceStage::Accept
                } else {
                    ServiceStage::RemoveUnpublished
                },
                ServiceStage::RemoveUnpublished => ServiceStage::Ended,
                ServiceStage::Accept => if failure is None {
                    ServiceStage::Serve
                } else {
                    ServiceStage::RemoveSocket
                },
                ServiceStage::Serve => ServiceStage::RemoveSocket,
                ServiceStage::RemoveSocket => ServiceStage::Ended,
                ServiceStage::Ended => ServiceStage::Ended,
            },
            ..self
        }
    }

    /// What is said on standard error of a task that failed.
    pub open spec fn complaint(self, failure: Option<Seq<char>>) -> Option<Seq<char>> {
        match failure {
            Some(e) => match self.stage {
                ServiceStage::Bind => Some(
                    "idvs-helper: bind "@ + setup_file(self.socket) + ": "@ + e,
                ),
                ServiceStage::Publish => Some(
                    "idvs-helper: rename to "@ + self.socket + ": "@ + e,
                ),
                ServiceStage::Accept => Some("idvs-helper: accept: "@ + e),
                _ => None,
            },
            None => None,
        }
    }
}

impl Service {
    /// Begins the service of a socket.
    pub fn begin(socket: &str) -> (r: Service)
        ensures
            r@ == ServiceView::begin(socket@),
    {
        Service { socket: socket.to_owned(), stage: ServiceStage::RemoveStaleSetup }
    }

    /// What has to be done next.
    pub fn task(&self) -> (r: ServiceTask)
        ensures
            r@ == self@.task(),
    {
        match self.stage {
            ServiceStage::RemoveStaleSetup => ServiceTask::Remove(setup_path(self.socket.as_str())),
            ServiceStage::RemoveStaleSocket => ServiceTask::Remove(self.socket.clone()),
            ServiceStage::Bind => ServiceTask::Bind(setup_path(self.socket.as_str())),
            ServiceStage::SetPermissions => ServiceTask::SetPermissions {
                path: setup_path(self.socket.as_str()),
                mode: SOCKET_MODE,
            },
            ServiceStage::Publish => ServiceTask::Rename {
                from: setup_path(self.socket.as_str()),
                to: self.socket.clone(),
            },
            ServiceStage::RemoveUnpublished => ServiceTask::Remove(
                setup_path(self.socket.as_str()),
            ),
            ServiceStage::Accept => ServiceTask::Accept,
            ServiceStage::Serve => ServiceTask::Serve,
            ServiceStage::RemoveSocket => ServiceTask::Remove(self.socket.clone()),
            ServiceStage::Ended => ServiceTask::Exit,
        }
    }

    /// Takes in why the last task failed, if it did, and returns what to say of it.
    pub fn advance(&mut self, failure: Option<&str>) -> (r: Option<String>)
        ensures
            final(self)@ == old(self)@.next(crate::config::opt_text(failure)),
            crate::procedure::opt_view(r) == old(self)@.complaint(
                crate::config::opt_text(failure),
            ),
    {
        let complaint: Option<String> = match failure {
            Some(e) => match self.stage {
                ServiceStage::Bind => Some(
                    "idvs-helper: bind ".to_owned().concat(
                        setup_path(self.socket.as_str()).as_str(),
                    ).concat(": ").concat(e),
                ),
                ServiceStage::Publish => Some(
                    "idvs-helper: rename to ".to_owned().concat(self.socket.as_str()).concat(
                        ": ",
                    ).concat(e),
                ),
                ServiceStage::Accept => Some("idvs-helper: accept: ".to_owned().concat(e)),
                _ => None,
            },
            None => None,
        };
        let ok = failure.is_none();
        self.stage = match self.stage {
            ServiceStage::RemoveStaleSetup => ServiceStage::RemoveStaleSocket,
            ServiceStage::RemoveStaleSocket => ServiceStage::Bind,
            ServiceStage::Bind => if ok {
                ServiceStage::SetPermissions
            } else {
                ServiceStage::Ended
            },
            ServiceStage::SetPermissions => ServiceStage::Publish,
            ServiceStage::Publish => if ok {
                ServiceStage::Accept
            } else {
                ServiceStage::RemoveUnpublished
            },
            ServiceStage::RemoveUnpublished => ServiceStage::Ended,
            ServiceStage::Accept => if ok {
                ServiceStage::Serve
            } else {
                ServiceStage::RemoveSocket
            },
            ServiceStage::Serve => ServiceStage::RemoveSocket,
            ServiceStage::RemoveSocket => ServiceStage::Ended,
            ServiceStage::Ended => ServiceStage::Ended,
        };
        complaint
    }
}

/// The service after its tasks ended as `failures` tells.
pub open spec fn service_after(socket: Seq<char>, failures: Seq<Option<Seq<char>>>) -> ServiceView
    decreases failures.len(),
{
    if failures.len() == 0 {
        ServiceView::begin(socket)
    } else {
        service_after(socket, failures.drop_last()).next(failures.last())
    }
}

impl ServiceView {
    /// How far the service has come.
    pub open spec fn rank(self) -> nat {
        match self.stage {
            ServiceStage::RemoveStaleSetup => 0,
            ServiceStage::RemoveStaleSocket => 1,
            ServiceStage::Bind => 2,
            ServiceStage::SetPermissions => 3,
            ServiceStage::Publish => 4,
            ServiceStage::RemoveUnpublished => 5,
            ServiceStage::Accept => 6,
            ServiceStage::Serve => 7,
            ServiceStage::RemoveSocket => 8,
            ServiceStage::Ended => 9,
        }
    }
}

/// The service comes to no stage twice, and ends: in particular it accepts at most one
/// connection. It does not end before it has tried to remove what it published.
pub proof fn service_advances(s: ServiceView, failure: Option<Seq<char>>)
    ensures
        s.stage != ServiceStage::Ended ==> s.rank() < s.next(failure).rank() <= 9,
        s.next(failure).stage == ServiceStage::Ended ==> s.stage == ServiceStage::Ended || s.stage
            == ServiceStage::RemoveSocket || s.rank() < 6,
        s.stage == ServiceStage::RemoveSocket ==> s.task() == ServiceTaskView::Remove(s.socket),
{
}

/// The socket appears under its own path only after its permissions were set: whenever it is
/// to be renamed, the task just before was to set the permissions of the file that is renamed.
pub proof fn permissions_come_first(socket: Seq<char>, failures: Seq<Option<Seq<char>>>)
    ensures
        service_after(socket, failures).task() matches ServiceTaskView::Rename { from, to }
            ==> failures.len() > 0 && to == socket && service_after(
            socket,
            failures.drop_last(),
        ).task() == (ServiceTaskView::SetPermissions { path: from, mode: SOCKET_MODE }),
{
    lemma_service_socket(socket, failures);
    if failures.len() > 0 {
        lemma_service_socket(socket, failures.drop_last());
    }
}

proof fn lemma_service_socket(socket: Seq<char>, failures: Seq<Option<Seq<char>>>)
    ensures
        service_after(socket, failures).socket == socket,
    decreases failures.len(),
{
    if failures.len() > 0 {
        lemma_service_socket(socket, failures.drop_last());
    }
}

// ---------------------------------------------------------------------------
// Serving the connection
// ---------------------------------------------------------------------------

/// What the helper does with the connection: what has to be done next.
pub enum HelperStage {
    /// Waiting for a command.
    Reading,
    Copying { source: String, target: String },
    /// Terminating statime, to start it anew.
    Replacing { binary: String, config: String },
    Spawning { binary: String, config: String },
    /// Terminating statime, as it was asked to.
    Stopping,
    /// Finding out whether statime still runs.
    Polling,
    /// Sending the response, after which it may be time to leave.
    Responding { line: String, quit: bool },
    /// Terminating statime before leaving.
    Leaving,
    Left,
}

/// A [`HelperStage`] with its texts as sequences of characters.
pub enum HelperStageView {
    Reading,
    Copying { source: Seq<char>, target: Seq<char> },
    Replacing { binary: Seq<char>, config: Seq<char> },
    Spawning { binary: Seq<char>, config: Seq<char> },
    Stopping,
    Polling,
    Responding { line: Seq<char>, quit: bool },
    Leaving,
    Left,
}

impl View for HelperStage {
    type V = HelperStageView;

    open spec fn view(&self) -> HelperStageView {
        match self {
            HelperStage::Reading => HelperStageView::Reading,
            HelperStage::Copying { source, target } => HelperStageView::Copying {
                source: source@,
                target: target@,
            },
            HelperStage::Replacing { binary, config } => HelperStageView::Replacing {
                binary: binary@,
                config: config@,
            },
            HelperStage::Spawning { binary, config } => HelperStageView::Spawning {
                binary: binary@,
                config: config@,
            },
            HelperStage::Stopping => HelperStageView::Stopping,
            HelperStage::Polling => HelperStageView::Polling,
            HelperStage::Responding { line, quit } => HelperStageView::Responding {
                line: line@,
                quit: *quit,
            },
            HelperStage::Leaving => HelperStageView::Leaving,
            HelperStage::Left => HelperStageView::Left,
        }
    }
}

/// Work that the helper asks for.
#[derive(Debug, PartialEq)]
pub enum HelperTask {
    /// Read a command line: a line, or the end.
    ReadLine,
    /// Copy a file: a success or a failure.
    Copy { source: String, target: String },
    /// Terminate statime: a success.
    Terminate,
    /// Start a program without output: a process or a failure.
    Spawn { program: String, args: Vec<String> },
    /// Find out whether statime still runs: running or not.
    Poll,
    /// Send a response line, whether or not it can be sent: a success.
    Respond(String),
    /// Nothing more.
    Exit,
}

/// A [`HelperTask`] with its texts as sequences of characters.
pub enum HelperTaskView {
    ReadLine,
    Copy { source: Seq<char>, target: Seq<char> },
    Terminate,
    Spawn { program: Seq<char>, args: Seq<Seq<char>> },
    Poll,
    Respond(Seq<char>),
    Exit,
}

impl View for HelperTask {
    type V = HelperTaskView;

    open spec fn view(&self) -> HelperTaskView {
        match self {
            HelperTask::ReadLine => HelperTaskView::ReadLine,
            HelperTask::Copy { source, target } => HelperTaskView::Copy {
                source: source@,
                target: target@,
            },
            HelperTask::Terminate => HelperTaskView::Terminate,
            HelperTask::Spawn { program, args } => HelperTaskView::Spawn {
                program: program@,
                args: text::texts(args@),
            },
            HelperTask::Poll => HelperTaskView::Poll,
            HelperTask::Respond(line) => HelperTaskView::Respond(line@),
            HelperTask::Exit => HelperTaskView::Exit,
        }
    }
}

/// What came of a [`HelperTask`].
pub enum HelperEvent {
    Line(String),
    /// The connection has ended, or cannot be read.
    End,
    Success,
    Failure(String),
    Process(u32),
    Running(bool),
}

/// A [`HelperEvent`] with its texts as sequences of characters.
pub enum HelperEventView {
    Line(Seq<char>),
    End,
    Success,
    Failure(Seq<char>),
    Process(u32),
    Running(bool),
}

impl View for HelperEvent {
    type V = HelperEventView;

    open spec fn view(&self) -> HelperEventView {
        match self {
            HelperEvent::Line(line) => HelperEventView::Line(line@),
            HelperEvent::End => HelperEventView::End,
            HelperEvent::Success => HelperEventView::Success,
            HelperEvent::Failure(e) => HelperEventView::Failure(e@),
            HelperEvent::Process(pid) => HelperEventView::Process(*pid),
            HelperEvent::Running(b) => HelperEventView::Running(*b),
        }
    }
}

/// The helper's side of the connection.
pub struct Helper {
    pub stage: HelperStage,
    /// The id of statime's process, while the helper holds one.
    pub child: Option<u32>,
}

/// A [`Helper`] with its texts as sequences of characters.
pub struct HelperView {
    pub stage: HelperStageView,
    pub child: Option<u32>,
}

impl View for Helper {
    type V = HelperView;

    open spec fn view(&self) -> HelperView {
        HelperView { stage: self.stage@, child: self.child }
    }
}

/// The response that says which process statime is, if it runs.
pub open spec fn status_line(child: Option<u32>) -> Seq<char> {
    match child {
        Some(pid) => protocol::pid_line(pid),
        None => "OK pid=none"@,
    }
}

impl HelperView {
    /// A helper that has just been connected to.
    pub open spec fn begin() -> HelperView {
        HelperView { stage: HelperStageView::Reading, child: None }
    }

    /// What has to be done next.
    pub open spec fn task(self) -> HelperTaskView {
        match self.stage {
            HelperStageView::Reading => HelperTaskView::ReadLine,
            HelperStageView::Copying { source, target } => HelperTaskView::Copy { source, target },
            HelperStageView::Replacing { .. } => HelperTaskView::Terminate,
            HelperStageView::Spawning { binary, config } => HelperTaskView::Spawn {
                program: binary,
                args: seq!["-c"@, config],
            },
            HelperStageView::Stopping => HelperTaskView::Terminate,
            HelperStageView::Polling => HelperTaskView::Poll,
            HelperStageView::Responding { line, .. } => HelperTaskView::Respond(line),
            HelperStageView::Leaving => HelperTaskView::Terminate,
            HelperStageView::Left => HelperTaskView::Exit,
        }
    }

    /// Whether an event is of the kind that the task calls for.
    pub open spec fn accepts(self, event: HelperEventView) -> bool {
        match self.task() {
            HelperTaskView::ReadLine => event is Line || event is End,
            HelperTaskView::Copy { .. } => event is Success || event is Failure,
            HelperTaskView::Terminate => event is Success,
            HelperTaskView::Spawn { .. } => event is Process || event is Failure,
            HelperTaskView::Poll => event is Running,
            HelperTaskView::Respond(_) => event is Success,
            HelperTaskView::Exit => false,
        }
    }

    /// The same helper at another stage.
    pub open spec fn at(self, stage: HelperStageView) -> HelperView {
        HelperView { stage, ..self }
    }

    /// The helper answers with a line and goes on.
    pub open spec fn responding(self, line: Seq<char>) -> HelperView {
        self.at(HelperStageView::Responding { line, quit: false })
    }

    /// The helper leaves, but not before it has terminated statime.
    pub open spec fn leaving(self) -> HelperView {
        self.at(
            if self.child is Some {
                HelperStageView::Leaving
            } else {
                HelperStageView::Left
            },
        )
    }

    /// What the helper does about a command. It is to quit where the line said just "QUIT".
    pub open spec fn obeying(self, command: CommandView, quit: bool) -> HelperView {
        match command {
            CommandView::Check => self.responding("OK"@),
            CommandView::InstallPlugin { source, target } => self.at(
                HelperStageView::Copying { source, target },
            ),
            CommandView::StartStatime { binary, config } => self.at(
                if self.child is Some {
                    HelperStageView::Replacing { binary, config }
                } else {
                    HelperStageView::Spawning { binary, config }
                },
            ),
            CommandView::StopStatime => if self.child is Some {
                self.at(HelperStageView::Stopping)
            } else {
                self.responding("OK"@)
            },
            CommandView::StatimeStatus => if self.child is Some {
                self.at(HelperStageView::Polling)
            } else {
                self.responding(status_line(None))
            },
            CommandView::Quit => self.at(HelperStageView::Responding { line: "OK"@, quit }),
            CommandView::MissingArguments => self.responding(
                protocol::error_line("missing arguments"@),
            ),
            CommandView::Unknown => self.responding(protocol::error_line("unknown command"@)),
        }
    }

    /// The helper after an event.
    pub open spec fn next(self, event: HelperEventView) -> HelperView {
        match (self.stage, event) {
            (HelperStageView::Reading, HelperEventView::Line(line)) => self.obeying(
                protocol::parsed_command(text::trimmed(line)),
                text::trimmed(line) == "QUIT"@,
            ),
            (HelperStageView::Reading, _) => self.leaving(),
            (HelperStageView::Copying { .. }, HelperEventView::Failure(e)) => self.responding(
                protocol::error_line(e),
            ),
            (HelperStageView::Copying { .. }, _) => self.responding("OK"@),
            (HelperStageView::Replacing { binary, config }, _) => HelperView {
                stage: HelperStageView::Spawning { binary, config },
                child: None,
            },
            (HelperStageView::Spawning { .. }, HelperEventView::Process(pid)) => HelperView {
                stage: HelperStageView::Responding { line: status_line(Some(pid)), quit: false },
                child: Some(pid),
            },
            (HelperStageView::Spawning { .. }, HelperEventView::Failure(e)) => self.responding(
                protocol::error_line(e),
            ),
            (HelperStageView::Spawning { .. }, _) => self,
            (HelperStageView::Stopping, _) => HelperView {
                stage: HelperStageView::Responding { line: "OK"@, quit: false },
                child: None,
            },
            (HelperStageView::Polling, HelperEventView::Running(false)) => HelperView {
                stage: HelperStageView::Responding { line: status_line(None), quit: false },
                child: None,
            },
            (HelperStageView::Polling, _) => self.responding(status_line(self.child)),
            (HelperStageView::Responding { quit, .. }, _) => if quit {
                self.leaving()
            } else {
                self.at(HelperStageView::Reading)
            },
            (HelperStageView::Leaving, _) => HelperView {
                stage: HelperStageView::Left,
                child: None,
            },
            (HelperStageView::Left, _) => self,
        }
    }

    /// Holds of every helper: it terminates or asks after statime only while it holds a
    /// process, starts one only while it holds none, and holds none once it has left.
    pub open spec fn wf(self) -> bool {
        match self.stage {
            HelperStageView::Replacing { .. } => self.child is Some,
            HelperStageView::Spawning { .. } => self.child is None,
            HelperStageView::Stopping => self.child is Some,
            HelperStageView::Polling => self.child is Some,
            HelperStageView::Leaving => self.child is Some,
            HelperStageView::Left => self.child is None,
            _ => true,
        }
    }
}

impl Helper {
    /// A helper that has just been connected to.
    pub fn begin() -> (r: Helper)
        ensures
            r@ == HelperView::begin(),
            r@.wf(),
    {
        Helper { stage: HelperStage::Reading, child: None }
    }

    /// What has to be done next.
    pub fn task(&self) -> (r: HelperTask)
        ensures
            r@ == self@.task(),
    {
        match &self.stage {
            HelperStage::Reading => HelperTask::ReadLine,
            HelperStage::Copying { source, target } => HelperTask::Copy {
                source: source.clone(),
                target: target.clone(),
            },
            HelperStage::Replacing { .. } => HelperTask::Terminate,
            HelperStage::Spawning { binary, config } => {
                let mut args: Vec<String> = Vec::new();
                args.push("-c".to_owned());
                args.push(config.clone());
                assert(text::texts(args@) =~= seq!["-c"@, config@]);
                HelperTask::Spawn { program: binary.clone(), args }
            },
            HelperStage::Stopping => HelperTask::Terminate,
            HelperStage::Polling => HelperTask::Poll,
            HelperStage::Responding { line, .. } => HelperTask::Respond(line.clone()),
            HelperStage::Leaving => HelperTask::Terminate,
            HelperStage::Left => HelperTask::Exit,
        }
    }

    /// Whether an event is of the kind that the task calls for.
    pub fn accepts(&self, event: &HelperEvent) -> (r: bool)
        ensures
            r == self@.accepts(event@),
    {
        match (self.task(), event) {
            (HelperTask::ReadLine, HelperEvent::Line(_)) => true,
            (HelperTask::ReadLine, HelperEvent::End) => true,
            (HelperTask::Copy { .. }, HelperEvent::Success) => true,
            (HelperTask::Copy { .. }, HelperEvent::Failure(_)) => true,
            (HelperTask::Terminate, HelperEvent::Success) => true,
            (HelperTask::Spawn { .. }, HelperEvent::Process(_)) => true,
            (HelperTask::Spawn { .. }, HelperEvent::Failure(_)) => true,
            (HelperTask::Poll, HelperEvent::Running(_)) => true,
            (HelperTask::Respond(_), HelperEvent::Success) => true,
            _ => false,
        }
    }

    fn respond(&mut self, line: String)
        ensures
            final(self)@ == old(self)@.responding(line@),
    {
        self.stage = HelperStage::Responding { line, quit: false };
    }

    fn leave(&mut self)
        ensures
            final(self)@ == old(self)@.leaving(),
    {
        self.stage = if self.child.is_some() {
            HelperStage::Leaving
        } else {
            HelperStage::Left
        };
    }

    fn obey(&mut self, command: Command, quit: bool)
        ensures
            final(self)@ == old(self)@.obeying(command@, quit),
    {
        match command {
            Command::Check => self.respond("OK".to_owned()),
            Command::InstallPlugin { source, target } => {
                self.stage = HelperStage::Copying { source, target };
            },
            Command::StartStatime { binary, config } => {
                self.stage = if self.child.is_some() {
                    HelperStage::Replacing { binary, config }
                } else {
                    HelperStage::Spawning { binary, config }
                };
            },
            Command::StopStatime => if self.child.is_some() {
                self.stage = HelperStage::Stopping;
            } else {
                self.respond("OK".to_owned())
            },
            Command::StatimeStatus => if self.child.is_some() {
                self.stage = HelperStage::Polling;
            } else {
                self.respond("OK pid=none".to_owned())
            },
            Command::Quit => {
                self.stage = HelperStage::Responding { line: "OK".to_owned(), quit };
            },
            Command::MissingArguments => self.respond(
                protocol::error_response("missing arguments"),
            ),
            Command::Unknown => self.respond(protocol::error_response("unknown command")),
        }
    }

    /// Takes in what came of the last task.
    pub fn advance(&mut self, event: &HelperEvent)
        requires
            old(self)@.wf(),
            old(self)@.accepts(event@),
        ensures
            final(self)@ == old(self)@.next(event@),
            final(self)@.wf(),
    {
        match (&self.stage, event) {
            (HelperStage::Reading, HelperEvent::Line(line)) => {
                let trimmed = text::trim(line.as_str());
                let quit = text::same_text(trimmed, "QUIT");
                self.obey(protocol::parse_command(trimmed), quit);
            },
            (HelperStage::Reading, _) => self.leave(),
            (HelperStage::Copying { .. }, HelperEvent::Failure(e)) => self.respond(
                protocol::error_response(e.as_str()),
            ),
            (HelperStage::Copying { .. }, _) => self.respond("OK".to_owned()),
            (HelperStage::Replacing { binary, config }, _) => {
                self.stage = HelperStage::Spawning {
                    binary: binary.clone(),
                    config: config.clone(),
                };
                self.child = None;
            },
            (HelperStage::Spawning { .. }, HelperEvent::Process(pid)) => {
                self.child = Some(*pid);
                self.respond(protocol::pid_response(*pid));
            },
            (HelperStage::Spawning { .. }, HelperEvent::Failure(e)) => self.respond(
                protocol::error_response(e.as_str()),
            ),
            (HelperStage::Stopping, _) => {
                self.child = None;
                self.respond("OK".to_owned());
            },
            (HelperStage::Polling, HelperEvent::Running(false)) => {
                self.child = None;
                self.respond("OK pid=none".to_owned());
            },
            (HelperStage::Polling, _) => {
                let line = match self.child {
                    Some(pid) => protocol::pid_response(pid),
                    None => "OK pid=none".to_owned(),
                };
                self.respond(line);
            },
            (HelperStage::Responding { quit, .. }, _) => if *quit {
                self.leave()
            } else {
                self.stage = HelperStage::Reading;
            },
            (HelperStage::Leaving, _) => {
                self.child = None;
                self.stage = HelperStage::Left;
            },
            _ => {},
        }
    }
}

// ---------------------------------------------------------------------------
// What the helper promises
// ---------------------------------------------------------------------------

/// The helper after `events`.
#[verifier::opaque]
pub open spec fn helper_after(events: Seq<HelperEventView>) -> HelperView
    decreases events.len(),
{
    if events.len() == 0 {
        HelperView::begin()
    } else {
        helper_after(events.drop_last()).next(events.last())
    }
}

/// Whether each event is of the kind that was called for when it came.
pub open spec fn orderly(events: Seq<HelperEventView>) -> bool {
    forall|i: int|
        0 <= i < events.len() ==> helper_after(events.take(i)).accepts(#[trigger] events[i])
}

proof fn lemma_orderly_step(events: Seq<HelperEventView>)
    requires
        orderly(events),
        events.len() > 0,
    ensures
        orderly(events.drop_last()),
        helper_after(events) == helper_after(events.drop_last()).next(events.last()),
        helper_after(events.drop_last()).accepts(events.last()),
{
    reveal(helper_after);
    let front = events.drop_last();
    assert(events.take(events.len() - 1) =~= front);
    assert(helper_after(events.take(events.len() - 1)).accepts(events[events.len() - 1]));
    assert forall|i: int| 0 <= i < front.len() implies helper_after(front.take(i)).accepts(
        #[trigger] front[i],
    ) by {
        assert(front.take(i) =~= events.take(i));
        assert(front[i] == events[i]);
    }
}

/// Whatever happens, the helper never holds more than one statime: it starts one only while it
/// holds none. And it does not leave while it holds one.
pub proof fn helper_is_wf(events: Seq<HelperEventView>)
    requires
        orderly(events),
    ensures
        helper_after(events).wf(),
        helper_after(events).task() is Spawn ==> helper_after(events).child is None,
        helper_after(events).task() is Exit ==> helper_after(events).child is None,
    decreases events.len(),
{
    if events.len() > 0 {
        lemma_orderly_step(events);
        helper_is_wf(events.drop_last());
    } else {
        reveal(helper_after);
    }
}

/// Whether a line is a response: "OK", or something after "OK " or "ERR ".
pub open spec fn is_response(line: Seq<char>) -> bool {
    line == "OK"@ || text::begins_with(line, "OK "@) || text::begins_with(line, "ERR "@)
}

/// Whether what a helper is about to send is a response.
pub open spec fn sends_response(h: HelperView) -> bool {
    h.stage matches HelperStageView::Responding { line, .. } ==> is_response(line)
}

/// Everything that the helper sends is a response.
pub proof fn helper_sends_responses(events: Seq<HelperEventView>)
    requires
        orderly(events),
    ensures
        sends_response(helper_after(events)),
    decreases events.len(),
{
    if events.len() > 0 {
        lemma_orderly_step(events);
        helper_sends_responses(events.drop_last());
        lemma_sends_response(helper_after(events.drop_last()), events.last());
    } else {
        reveal(helper_after);
    }
}

proof fn lemma_error_is_response(e: Seq<char>)
    ensures
        is_response(protocol::error_line(e)),
{
    assert(protocol::error_line(e).take("ERR "@.len() as int) =~= "ERR "@);
}

proof fn lemma_status_is_response(child: Option<u32>)
    ensures
        is_response(status_line(child)),
{
    reveal_strlit("OK ");
    reveal_strlit("OK pid=none");
    reveal_strlit("OK pid=");
    assert(status_line(child).take(3) =~= "OK "@);
}

proof fn lemma_sends_response(h: HelperView, event: HelperEventView)
    requires
        h.accepts(event),
        sends_response(h),
    ensures
        sends_response(h.next(event)),
{
    assert forall|e: Seq<char>| is_response(#[trigger] protocol::error_line(e)) by {
        lemma_error_is_response(e);
    }
    assert forall|child: Option<u32>| is_response(#[trigger] status_line(child)) by {
        lemma_status_is_response(child);
    }
}

/// Whether what a helper is about to send stands on one line.
pub open spec fn sends_one_line(h: HelperView) -> bool {
    h.stage matches HelperStageView::Responding { line, .. } ==> text::on_one_line(line)
}

/// Everything that the helper sends stands on one line, as long as the texts of the failures
/// that it hears of do.
pub proof fn helper_sends_single_lines(events: Seq<HelperEventView>)
    requires
        orderly(events),
        forall|i: int|
            0 <= i < events.len() ==> ((#[trigger] events[i]) matches HelperEventView::Failure(e)
                ==> text::on_one_line(e)),
    ensures
        sends_one_line(helper_after(events)),
    decreases events.len(),
{
    if events.len() > 0 {
        lemma_orderly_step(events);
        let front = events.drop_last();
        assert forall|i: int| 0 <= i < front.len() implies ((
        #[trigger] front[i]) matches HelperEventView::Failure(e) ==> text::on_one_line(e)) by {
            assert(front[i] == events[i]);
        }
        helper_sends_single_lines(front);
        assert(events.last() == events[events.len() - 1]);
        lemma_sends_one_line(helper_after(front), events.last());
    } else {
        reveal(helper_after);
    }
}

proof fn lemma_error_on_one_line(e: Seq<char>)
    requires
        text::on_one_line(e),
    ensures
        text::on_one_line(protocol::error_line(e)),
{
    reveal_strlit("ERR ");
    let line = protocol::error_line(e);
    assert forall|i: int| 0 <= i < line.len() implies line[i] != '\n' by {
        if i >= 4 {
            assert(line[i] == e[i - 4]);
        }
    }
}

proof fn lemma_status_on_one_line(child: Option<u32>)
    ensures
        text::on_one_line(status_line(child)),
{
    reveal_strlit("OK pid=none");
    reveal_strlit("OK pid=");
    if let Some(pid) = child {
        let body = text::decimal(pid as nat);
        let line = status_line(child);
        text::decimal_is_digits(pid as nat);
        assert forall|i: int| 0 <= i < line.len() implies line[i] != '\n' by {
            if i >= 7 {
                assert(line[i] == body[i - 7]);
                assert(text::is_digit(body[i - 7]));
            }
        }
    }
}

proof fn lemma_sends_one_line(h: HelperView, event: HelperEventView)
    requires
        h.accepts(event),
        sends_one_line(h),
        event matches HelperEventView::Failure(e) ==> text::on_one_line(e),
    ensures
        sends_one_line(h.next(event)),
{
    reveal_strlit("OK");
    reveal_strlit("missing arguments");
    reveal_strlit("unknown command");
    lemma_error_on_one_line("missing arguments"@);
    lemma_error_on_one_line("unknown command"@);
    if let HelperEventView::Failure(e) = event {
        lemma_error_on_one_line(e);
    }
    assert forall|child: Option<u32>| text::on_one_line(#[trigger] status_line(child)) by {
        lemma_status_on_one_line(child);
    }
}

/// Every command is answered: from the command line on, at most two tasks come before the
/// response is sent, and nothing is read in between.
pub proof fn every_command_is_answered(
    h: HelperView,
    line: Seq<char>,
    first: HelperEventView,
    second: HelperEventView,
)
    requires
        h.wf(),
        h.stage == HelperStageView::Reading,
        ({
            let a = h.next(HelperEventView::Line(line));
            let b = a.next(first);
            &&& !(a.task() is Respond) ==> a.accepts(first)
            &&& !(a.task() is Respond) && !(b.task() is Respond) ==> b.accepts(second)
        }),
    ensures
        ({
            let a = h.next(HelperEventView::Line(line));
            let b = a.next(first);
            let c = b.next(second);
            &&& !(a.task() is ReadLine) && !(a.task() is Exit)
            &&& !(a.task() is Respond) ==> !(b.task() is ReadLine) && !(b.task() is Exit)
            &&& !(a.task() is Respond) && !(b.task() is Respond) ==> c.task() is Respond
        }),
{
}

/// The helper leaves at the request of a line that says "QUIT", after answering "OK", and at
/// the end of the connection; but not before statime is terminated, if it holds one.
pub proof fn leaving_terminates_statime(h: HelperView, line: Seq<char>)
    requires
        h.wf(),
        h.stage == HelperStageView::Reading,
        text::trimmed(line) == "QUIT"@,
    ensures
        ({
            let told = h.next(HelperEventView::Line(line));
            let asked = told.next(HelperEventView::Success);
            let gone = h.next(HelperEventView::End);
            &&& told.task() == HelperTaskView::Respond("OK"@)
            &&& told.child == h.child
            &&& gone == asked
            &&& h.child is Some ==> gone.task() == HelperTaskView::Terminate && gone.next(
                HelperEventView::Success,
            ).task() == HelperTaskView::Exit
            &&& h.child is None ==> gone.task() == HelperTaskView::Exit
        }),
{
    reveal_strlit("CHECK");
    reveal_strlit("INSTALL_PLUGIN");
    reveal_strlit("START_STATIME");
    reveal_strlit("STOP_STATIME");
    reveal_strlit("STATIME_STATUS");
    reveal_strlit("QUIT");
    text::fields_of_one("QUIT"@);
}

/// What was asked of the helper with a start command, it does: it starts the program with the
/// configuration, after terminating the statime it held, if any; it then reports the process;
/// and the reported process is what the worker reads.
pub proof fn start_is_carried_out(
    h: HelperView,
    binary: Seq<char>,
    config: Seq<char>,
    pid: u32,
)
    requires
        h.wf(),
        h.stage == HelperStageView::Reading,
        !binary.contains('\t'),
        config.len() > 0,
        !text::is_white(config.last()),
    ensures
        ({
            let heard = h.next(HelperEventView::Line(protocol::start_line(binary, config)));
            let ready = if h.child is Some {
                heard.next(HelperEventView::Success)
            } else {
                heard
            };
            let started = ready.next(HelperEventView::Process(pid));
            &&& h.child is Some ==> heard.task() == HelperTaskView::Terminate
            &&& ready.child is None
            &&& ready.task() == (HelperTaskView::Spawn {
                program: binary,
                args: seq!["-c"@, config],
            })
            &&& started.child == Some(pid)
            &&& started.task() == HelperTaskView::Respond(protocol::pid_line(pid))
            &&& protocol::started_pid(text::trimmed(protocol::pid_line(pid))) == Ok::<
                u32,
                Seq<char>,
            >(pid)
        }),
{
    protocol::start_line_is_understood(binary, config);
    protocol::pid_line_is_understood(pid);
}

/// What was asked of the helper with an install command, it does: it copies the one file to
/// the other; and what it answers is told as a success exactly where the copy succeeded.
pub proof fn install_is_carried_out(
    h: HelperView,
    source: Seq<char>,
    target: Seq<char>,
    error: Seq<char>,
)
    requires
        h.stage == HelperStageView::Reading,
        !source.contains('\t'),
        target.len() > 0,
        !text::is_white(target.last()),
    ensures
        ({
            let heard = h.next(HelperEventView::Line(protocol::install_line(source, target)));
            let copied = heard.next(HelperEventView::Success);
            let failed = heard.next(HelperEventView::Failure(error));
            &&& heard.task() == (HelperTaskView::Copy { source, target })
            &&& copied.task() matches HelperTaskView::Respond(line) && text::trimmed(line) == "OK"@
            &&& failed.task() matches HelperTaskView::Respond(line) && text::trimmed(line) != "OK"@
        }),
{
    protocol::install_line_is_understood(source, target);
    reveal_strlit("OK");
    reveal_strlit("ERR ");
    text::trimmed_of_clean("OK"@);
    let line = protocol::error_line(error);
    assert(line[0] == 'E');
    text::trimmed_keeps_first(line);
}

/// The handshake: a helper that is asked to check itself answers so that the launch is done.
pub proof fn handshake_succeeds(h: HelperView, s: crate::launch::LaunchView)
    requires
        h.stage == HelperStageView::Reading,
        s.stage == crate::launch::LaunchStage::Check,
    ensures
        s.action() == crate::procedure::ActionView::Send("CHECK"@),
        ({
            let heard = h.next(HelperEventView::Line("CHECK"@));
            &&& heard.task() matches HelperTaskView::Respond(line) && s.next(
                crate::procedure::AnswerView::Reply(Some(protocol::ExchangeView::Line(line))),
            ).0.stage == crate::launch::LaunchStage::Ready
        }),
{
    protocol::plain_lines_are_understood();
    reveal_strlit("OK");
    text::trimmed_of_clean("OK"@);
}

/// After a stop command the helper holds no statime, and says so when asked.
pub proof fn stop_is_carried_out(h: HelperView)
    requires
        h.wf(),
        h.stage == HelperStageView::Reading,
    ensures
        ({
            let heard = h.next(HelperEventView::Line("STOP_STATIME"@));
            let stopped = if h.child is Some {
                heard.next(HelperEventView::Success)
            } else {
                heard
            };
            let again = stopped.next(HelperEventView::Success);
            &&& h.child is Some ==> heard.task() == HelperTaskView::Terminate
            &&& stopped.task() == HelperTaskView::Respond("OK"@)
            &&& stopped.child is None
            &&& again.stage == HelperStageView::Reading
            &&& again.next(HelperEventView::Line("STATIME_STATUS"@)).task()
                == HelperTaskView::Respond("OK pid=none"@)
        }),
{
    protocol::plain_lines_are_understood();
}

/// Asked for its status, the helper says what is the case: the worker hears that statime is
/// gone exactly where the helper holds no process, or finds that the one it holds has ended.
pub proof fn status_is_truthful(h: HelperView, running: bool)
    requires
        h.wf(),
        h.stage == HelperStageView::Reading,
    ensures
        ({
            let heard = h.next(HelperEventView::Line("STATIME_STATUS"@));
            let known = if h.child is Some {
                heard.next(HelperEventView::Running(running))
            } else {
                heard
            };
            &&& h.child is Some ==> heard.task() == HelperTaskView::Poll
            &&& known.task() == HelperTaskView::Respond(status_line(known.child))
            &&& known.child == (if running {
                h.child
            } else {
                None
            })
            &&& crate::worker::says_gone(
                Some(protocol::ExchangeView::Line(status_line(known.child))),
            ) <==> known.child is None
        }),
{
    protocol::plain_lines_are_understood();
    reveal_strlit("OK pid=none");
    text::trimmed_of_clean("OK pid=none"@);
    if let Some(pid) = h.child {
        protocol::pid_line_is_understood(pid);
    }
}

// ---------------------------------------------------------------------------
// Terminating a process
// ---------------------------------------------------------------------------

/// How long a process may take to end after it was asked to, in milliseconds.
pub const TERMINATION_LIMIT_MS: u64 = 3000;

/// What to do about a process that was asked to end.
#[derive(Clone, Copy, Debug, PartialEq, Eq, Structural)]
pub enum Termination {
    /// It has ended.
    Ended,
    /// It is out of time: kill it.
    Kill,
    /// Look again after some milliseconds.
    LookAgain { after_ms: u64 },
}

/// What to do about a process that was asked to end some milliseconds ago.
pub open spec fn terminating(ended: bool, elapsed_ms: u64) -> Termination {
    if ended {
        Termination::Ended
    } else if elapsed_ms >= TERMINATION_LIMIT_MS {
        Termination::Kill
    } else {
        Termination::LookAgain { after_ms: 100 }
    }
}

/// What to do about a process that was asked to end some milliseconds ago.
pub fn termination_step(ended: bool, elapsed_ms: u64) -> (r: Termination)
    ensures
        r == (if ended {
            Termination::Ended
        } else if elapsed_ms >= TERMINATION_LIMIT_MS {
            Termination::Kill
        } else {
            Termination::LookAgain { after_ms: 100 }
        }),
        r == terminating(ended, elapsed_ms),
{
    if ended {
        Termination::Ended
    } else if elapsed_ms >= TERMINATION_LIMIT_MS {
        Termination::Kill
    } else {
        Termination::LookAgain { after_ms: 100 }
    }
}

/// A process is left alone as soon as it has ended, killed exactly when it has not within three
/// seconds, and otherwise looked at again after a tenth of a second.
pub proof fn termination_is_patient(ended: bool, elapsed_ms: u64)
    ensures
        terminating(ended, elapsed_ms) == Termination::Ended <==> ended,
        terminating(ended, elapsed_ms) == Termination::Kill <==> !ended && elapsed_ms >= 3000,
        terminating(ended, elapsed_ms) is LookAgain ==> terminating(ended, elapsed_ms) == (
        Termination::LookAgain { after_ms: 100 }),
{
}

// ---------------------------------------------------------------------------
// How the service and the helper go about it
// ---------------------------------------------------------------------------

/// The service prepares the socket beside its path and then moves it there. It goes on whatever
/// comes of removing files, setting permissions and serving; where the socket cannot be bound it
/// ends, where it cannot be moved it removes what it prepared, and where nobody can be accepted
/// it removes the socket.
pub proof fn service_takes_its_steps(s: ServiceView, failure: Option<Seq<char>>)
    ensures
        ({
            let aside = s.socket + ".setup"@;
            let t = s.next(failure);
            &&& t.socket == s.socket
            &&& s.stage == ServiceStage::RemoveStaleSetup ==> s.task() == ServiceTaskView::Remove(
                aside,
            ) && t.stage == ServiceStage::RemoveStaleSocket
            &&& s.stage == ServiceStage::RemoveStaleSocket ==> s.task() == ServiceTaskView::Remove(
                s.socket,
            ) && t.stage == ServiceStage::Bind
            &&& s.stage == ServiceStage::Bind ==> s.task() == ServiceTaskView::Bind(aside) && (
            failure is None ==> t.stage == ServiceStage::SetPermissions) && (failure is Some
                ==> t.stage == ServiceStage::Ended)
            &&& s.stage == ServiceStage::SetPermissions ==> s.task() == (
            ServiceTaskView::SetPermissions { path: aside, mode: 0o666 }) && t.stage
                == ServiceStage::Publish
            &&& s.stage == ServiceStage::Publish ==> s.task() == (ServiceTaskView::Rename {
                from: aside,
                to: s.socket,
            }) && (failure is None ==> t.stage == ServiceStage::Accept) && (failure is Some
                ==> t.stage == ServiceStage::RemoveUnpublished)
            &&& s.stage == ServiceStage::RemoveUnpublished ==> s.task() == ServiceTaskView::Remove(
                aside,
            ) && t.stage == ServiceStage::Ended
            &&& s.stage == ServiceStage::Accept ==> s.task() == ServiceTaskView::Accept && (
            failure is None ==> t.stage == ServiceStage::Serve) && (failure is Some ==> t.stage
                == ServiceStage::RemoveSocket)
            &&& s.stage == ServiceStage::Serve ==> s.task() == ServiceTaskView::Serve && t.stage
                == ServiceStage::RemoveSocket
            &&& s.stage == ServiceStage::RemoveSocket ==> s.task() == ServiceTaskView::Remove(
                s.socket,
            ) && t.stage == ServiceStage::Ended
            &&& s.stage == ServiceStage::Ended <==> s.task() == ServiceTaskView::Exit
        }),
        ServiceView::begin(s.socket).stage == ServiceStage::RemoveStaleSetup,
        ServiceView::begin(s.socket).socket == s.socket,
{
}

/// The service complains exactly where the socket cannot be bound, moved or accepted on, and
/// says which and why.
pub proof fn service_complains_with_reason(s: ServiceView, e: Seq<char>)
    ensures
        s.complaint(None) is None,
        s.stage == ServiceStage::Bind ==> s.complaint(Some(e)) == Some(
            "idvs-helper: bind "@ + (s.socket + ".setup"@) + ": "@ + e,
        ),
        s.stage == ServiceStage::Publish ==> s.complaint(Some(e)) == Some(
            "idvs-helper: rename to "@ + s.socket + ": "@ + e,
        ),
        s.stage == ServiceStage::Accept ==> s.complaint(Some(e)) == Some(
            "idvs-helper: accept: "@ + e,
        ),
        s.complaint(Some(e)) is Some <==> s.stage == ServiceStage::Bind || s.stage
            == ServiceStage::Publish || s.stage == ServiceStage::Accept,
{
}

/// What a line asks for is done: each command has its own task, and what needs none is answered
/// at once. White space around the line does not count. Hearing a line does not change which
/// statime the helper holds.
pub proof fn lines_are_obeyed(h: HelperView, line: Seq<char>)
    requires
        h.stage == HelperStageView::Reading,
    ensures
        h.task() == HelperTaskView::ReadLine,
        ({
            let t = h.next(HelperEventView::Line(line));
            let held = h.child is Some;
            &&& t.child == h.child
            &&& match protocol::parsed_command(text::trimmed(line)) {
                CommandView::Check => t.task() == HelperTaskView::Respond("OK"@),
                CommandView::InstallPlugin { source, target } => t.task() == (
                HelperTaskView::Copy { source, target }),
                CommandView::StartStatime { binary, config } => if held {
                    t.task() == HelperTaskView::Terminate && t.next(HelperEventView::Success).task()
                        == (HelperTaskView::Spawn { program: binary, args: seq!["-c"@, config] })
                        && t.next(HelperEventView::Success).child is None
                } else {
                    t.task() == (HelperTaskView::Spawn {
                        program: binary,
                        args: seq!["-c"@, config],
                    })
                },
                CommandView::StopStatime => if held {
                    t.task() == HelperTaskView::Terminate && t.next(HelperEventView::Success).task()
                        == HelperTaskView::Respond("OK"@) && t.next(
                        HelperEventView::Success,
                    ).child is None
                } else {
                    t.task() == HelperTaskView::Respond("OK"@)
                },
                CommandView::StatimeStatus => if held {
                    t.task() == HelperTaskView::Poll
                } else {
                    t.task() == HelperTaskView::Respond("OK pid=none"@)
                },
                CommandView::Quit => t.task() == HelperTaskView::Respond("OK"@),
                CommandView::MissingArguments => t.task() == HelperTaskView::Respond(
                    "ERR missing arguments"@,
                ),
                CommandView::Unknown => t.task() == HelperTaskView::Respond(
                    "ERR unknown command"@,
                ),
            }
        }),
{
    reveal_strlit("ERR ");
    reveal_strlit("missing arguments");
    reveal_strlit("unknown command");
    reveal_strlit("ERR missing arguments");
    reveal_strlit("ERR unknown command");
    assert("ERR "@ + "missing arguments"@ =~= "ERR missing arguments"@);
    assert("ERR "@ + "unknown command"@ =~= "ERR unknown command"@);
}

/// What came of a copy and of a start is answered: success as such, a new process by its id,
/// and a failure by its own words. A process that was started is held from there on, and none is
/// after a failure to start one.
pub proof fn outcomes_are_answered(h: HelperView, e: Seq<char>, pid: u32)
    requires
        h.wf(),
    ensures
        h.task() is Copy ==> h.next(HelperEventView::Success).task() == HelperTaskView::Respond(
            "OK"@,
        ) && h.next(HelperEventView::Failure(e)).task() == HelperTaskView::Respond("ERR "@ + e)
            && h.next(HelperEventView::Success).child == h.child && h.next(
            HelperEventView::Failure(e),
        ).child == h.child,
        h.task() is Spawn ==> h.next(HelperEventView::Process(pid)).task()
            == HelperTaskView::Respond("OK pid="@ + text::decimal(pid as nat)) && h.next(
            HelperEventView::Process(pid),
        ).child == Some(pid) && h.next(HelperEventView::Failure(e)).task()
            == HelperTaskView::Respond("ERR "@ + e) && h.next(
            HelperEventView::Failure(e),
        ).child is None,
{
}

/// After a response the helper reads on, unless the line that it answered said just "QUIT": then
/// it leaves, as it does when the connection ends.
pub proof fn only_quit_ends_the_service(h: HelperView, line: Seq<char>)
    requires
        h.stage == HelperStageView::Reading,
    ensures
        ({
            let t = h.next(HelperEventView::Line(line));
            t.task() is Respond ==> (t.next(HelperEventView::Success).task()
                == HelperTaskView::ReadLine <==> text::trimmed(line) != "QUIT"@)
        }),
        h.child is None ==> h.next(HelperEventView::End).task() == HelperTaskView::Exit,
        h.child is Some ==> h.next(HelperEventView::End).task() == HelperTaskView::Terminate
            && h.next(HelperEventView::End).next(HelperEventView::Success).task()
            == HelperTaskView::Exit,
        HelperView::begin().child is None,
        HelperView::begin().task() == HelperTaskView::ReadLine,
{
    protocol::plain_lines_are_understood();
    protocol::plain_commands_ignore_arguments(Seq::empty());
}

/// Where the helper has done what a command asked for, it answers and then reads on.
pub proof fn work_is_followed_by_reading(h: HelperView, event: HelperEventView)
    requires
        h.wf(),
        h.accepts(event),
        h.task() is Copy || h.task() is Spawn || h.task() is Poll || h.stage is Stopping,
    ensures
        h.next(event).task() is Respond,
        h.next(event).next(HelperEventView::Success).task() == HelperTaskView::ReadLine,
        h.next(event).next(HelperEventView::Success).child == h.next(event).child,
{
}

/// Each kind of event belongs to the tasks that call for it, and to no other, whatever it holds.
pub proof fn events_fit_their_tasks(h: HelperView, event: HelperEventView)
    ensures
        h.accepts(event) <==> match event {
            HelperEventView::Line(_) => h.task() is ReadLine,
            HelperEventView::End => h.task() is ReadLine,
            HelperEventView::Success => h.task() is Copy || h.task() is Terminate
                || h.task() is Respond,
            HelperEventView::Failure(_) => h.task() is Copy || h.task() is Spawn,
            HelperEventView::Process(_) => h.task() is Spawn,
            HelperEventView::Running(_) => h.task() is Poll,
        },
{
}

} // verus!
