//! Launching the privileged helper and shaking hands with it.

use crate::procedure::{and_line, no_lines, one_line, Action, ActionView, Answer, AnswerView};
use crate::text;
use vstd::prelude::*;
use vstd::string::*;

verus! {

/// The socket of the helper of the process `pid`.
pub open spec fn socket_file(pid: u32) -> Seq<char> {
    "/tmp/.idvs-helper-"@ + text::decimal(pid as nat) + ".sock"@
}

/// The path of the socket of the helper of the process `pid`.
pub fn socket_path(pid: u32) -> (r: String)
    ensures
        r@ == socket_file(pid),
{
    "/tmp/.idvs-helper-".to_owned().concat(text::decimal_text(pid).as_str()).concat(".sock")
}

/// The socket that a program is to serve as the helper, if its arguments tell it to: what
/// follows the first "--helper".
pub open spec fn helper_argument(args: Seq<Seq<char>>) -> Option<Seq<char>>
    decreases args.len(),
{
    if args.len() == 0 {
        None
    } else if args[0] == "--helper"@ {
        if args.len() > 1 {
            Some(args[1])
        } else {
            None
        }
    } else {
        helper_argument(args.drop_first())
    }
}

/// Finds the socket that a program is to serve as the helper.
pub fn find_helper_argument(args: &Vec<String>) -> (r: Option<String>)
    ensures
        match r {
            Some(path) => helper_argument(text::texts(args@)) == Some(path@),
            None => helper_argument(text::texts(args@)) is None,
        },
{
    let ghost words = text::texts(args@);
    let mut i: usize = 0;
    assert(words.skip(0) =~= words);
    while i < args.len()
        invariant
            i <= args@.len(),
            words == text::texts(args@),
            helper_argument(words) == helper_argument(words.skip(i as int)),
        decreases args@.len() - i,
    {
        assert(words.skip(i as int)[0] == args@[i as int]@);
        if text::same_text(args[i].as_str(), "--helper") {
            if i < args.len() - 1 {
                assert(words.skip(i as int)[1] == args@[i + 1]@);
                return Some(args[i + 1].clone());
            }
            return None;
        }
        assert(words.skip(i as int).drop_first() =~= words.skip(i + 1));
        i = i + 1;
    }
    None
}

/// Where the launch stands: what has to be done next.
#[derive(Clone, Copy, Debug, PartialEq, Eq, Structural)]
pub enum LaunchStage {
    LocateSelf,
    Authenticate,
    AwaitSocket,
    Connect,
    SplitConnection,
    Check,
    Ready,
    Unavailable,
}

/// A launch in progress.
pub struct Launch {
    pub stage: LaunchStage,
    pub socket: String,
    /// The path of the running program, once it is known.
    pub program: String,
}

/// A [`Launch`] with its texts as sequences of characters.
pub struct LaunchView {
    pub stage: LaunchStage,
    pub socket: Seq<char>,
    pub program: Seq<char>,
}

impl View for Launch {
    type V = LaunchView;

    open spec fn view(&self) -> LaunchView {
        LaunchView { stage: self.stage, socket: self.socket@, program: self.program@ }
    }
}

impl LaunchView {
    /// A launch that has not done anything yet.
    pub open spec fn begin(socket: Seq<char>) -> LaunchView {
        LaunchView { stage: LaunchStage::LocateSelf, socket, program: Seq::empty() }
    }

    /// What has to be done next. The helper is this program itself, run by pkexec.
    pub open spec fn action(self) -> ActionView {
        match self.stage {
            LaunchStage::LocateSelf => ActionView::LocateSelf,
            LaunchStage::Authenticate => ActionView::Launch {
                program: "pkexec"@,
                args: seq![self.program, "--helper"@, self.socket],
            },
            LaunchStage::AwaitSocket => ActionView::WaitForPath { path: self.socket, seconds: 30 },
            LaunchStage::Connect => ActionView::Connect(self.socket),
            LaunchStage::SplitConnection => ActionView::SplitConnection,
            LaunchStage::Check => ActionView::Send("CHECK"@),
            LaunchStage::Ready => ActionView::Nothing,
            LaunchStage::Unavailable => ActionView::Nothing,
        }
    }

    /// Whether an answer is of the kind that is called for. Once connected, a helper is there.
    pub open spec fn accepts(self, answer: AnswerView) -> bool {
        self.action().accepts(answer) && (self.stage == LaunchStage::Check ==> answer->Reply_0 is Some)
    }

    /// The same launch at another stage.
    pub open spec fn at(self, stage: LaunchStage) -> LaunchView {
        LaunchView { stage, ..self }
    }

    /// There will be no helper.
    pub open spec fn given_up(self, reason: Seq<char>) -> (LaunchView, Seq<Seq<char>>) {
        (
            self.at(LaunchStage::Unavailable),
            seq![reason, "Warning: root helper unavailable — Start will fail."@],
        )
    }

    /// The stage after an answer, and the lines that tell of it.
    pub open spec fn next(self, answer: AnswerView) -> (LaunchView, Seq<Seq<char>>) {
        match self.stage {
            LaunchStage::LocateSelf => match answer->Place_0 {
                Ok(program) => (
                    LaunchView { stage: LaunchStage::Authenticate, program, ..self },
                    Seq::empty(),
                ),
                Err(e) => self.given_up("[helper] Cannot locate own binary: "@ + e),
            },
            LaunchStage::Authenticate => match answer->Outcome_0 {
                None => (self.at(LaunchStage::AwaitSocket), Seq::empty()),
                Some(e) => self.given_up(
                    "[helper] pkexec launch failed: "@ + e + " — is polkit installed?"@,
                ),
            },
            LaunchStage::AwaitSocket => if answer->Flag_0 {
                (self.at(LaunchStage::Connect), Seq::empty())
            } else {
                self.given_up(
                    "[helper] Timed out waiting for helper socket — authentication may have been denied."@,
                )
            },
            LaunchStage::Connect => match answer->Outcome_0 {
                None => (self.at(LaunchStage::SplitConnection), Seq::empty()),
                Some(e) => self.given_up("[helper] Connect failed: "@ + e),
            },
            LaunchStage::SplitConnection => match answer->Outcome_0 {
                None => (self.at(LaunchStage::Check), Seq::empty()),
                Some(e) => self.given_up("[helper] Stream clone failed: "@ + e),
            },
            LaunchStage::Check => match answer->Reply_0->0.response() {
                Ok(line) => if line == "OK"@ {
                    (
                        self.at(LaunchStage::Ready),
                        seq!["Root helper ready — no further authentication needed."@],
                    )
                } else {
                    self.given_up("[helper] Unexpected CHECK response: "@ + line)
                },
                Err(e) => self.given_up("[helper] CHECK failed: "@ + e),
            },
            LaunchStage::Ready => (self, Seq::empty()),
            LaunchStage::Unavailable => (self, Seq::empty()),
        }
    }

    /// Whether the launch has ended, and if so whether there is a helper.
    pub open spec fn result(self) -> Option<bool> {
        match self.stage {
            LaunchStage::Ready => Some(true),
            LaunchStage::Unavailable => Some(false),
            _ => None,
        }
    }

    /// How many answers the launch still takes at most.
    pub open spec fn answers_left(self) -> nat {
        match self.stage {
            LaunchStage::LocateSelf => 6,
            LaunchStage::Authenticate => 5,
            LaunchStage::AwaitSocket => 4,
            LaunchStage::Connect => 3,
            LaunchStage::SplitConnection => 2,
            LaunchStage::Check => 1,
            LaunchStage::Ready => 0,
            LaunchStage::Unavailable => 0,
        }
    }
}

impl Launch {
    /// Begins to launch the helper, and returns the lines that tell of it.
    pub fn begin(socket: String) -> (r: (Launch, Vec<String>))
        ensures
            r.0@ == LaunchView::begin(socket@),
            text::texts(r.1@) == seq![
                "Launching root helper — an authentication dialog will appear..."@,
            ],
    {
        (
            Launch { stage: LaunchStage::LocateSelf, socket, program: String::new() },
            one_line("Launching root helper — an authentication dialog will appear...".to_owned()),
        )
    }

    /// What has to be done next.
    pub fn action(&self) -> (r: Action)
        ensures
            r@ == self@.action(),
    {
        match self.stage {
            LaunchStage::LocateSelf => Action::LocateSelf,
            LaunchStage::Authenticate => {
                let mut args: Vec<String> = Vec::new();
                args.push(self.program.clone());
                args.push("--helper".to_owned());
                args.push(self.socket.clone());
                assert(text::texts(args@) =~= seq![self@.program, "--helper"@, self@.socket]);
                Action::Launch { program: "pkexec".to_owned(), args }
            },
            LaunchStage::AwaitSocket => Action::WaitForPath {
                path: self.socket.clone(),
                seconds: 30,
            },
            LaunchStage::Connect => Action::Connect(self.socket.clone()),
            LaunchStage::SplitConnection => Action::SplitConnection,
            LaunchStage::Check => Action::Send("CHECK".to_owned()),
            LaunchStage::Ready => Action::Nothing,
            LaunchStage::Unavailable => Action::Nothing,
        }
    }

    /// Whether an answer is of the kind that is called for.
    pub fn accepts(&self, answer: &Answer) -> (r: bool)
        ensures
            r == self@.accepts(answer@),
    {
        self.action().accepts(answer) && match (self.stage, answer) {
            (LaunchStage::Check, Answer::Reply(None)) => false,
            _ => true,
        }
    }

    fn give_up(&mut self, reason: String) -> (r: Vec<String>)
        ensures
            (final(self)@, text::texts(r@)) == old(self)@.given_up(reason@),
    {
        self.stage = LaunchStage::Unavailable;
        let told = and_line(
            one_line(reason),
            "Warning: root helper unavailable — Start will fail.".to_owned(),
        );
        assert(text::texts(told@) =~= old(self)@.given_up(reason@).1);
        told
    }

    fn proceed(&mut self, stage: LaunchStage) -> (r: Vec<String>)
        ensures
            final(self)@ == old(self)@.at(stage),
            text::texts(r@) == Seq::<Seq<char>>::empty(),
    {
        self.stage = stage;
        no_lines()
    }

    /// Takes in what came of the last action, and returns the lines that tell of it.
    pub fn advance(&mut self, answer: &Answer) -> (r: Vec<String>)
        requires
            old(self)@.accepts(answer@),
        ensures
            (final(self)@, text::texts(r@)) == old(self)@.next(answer@),
    {
        match (self.stage, answer) {
            (LaunchStage::LocateSelf, Answer::Place(place)) => match place {
                Ok(program) => {
                    self.program = program.clone();
                    self.proceed(LaunchStage::Authenticate)
                },
                Err(e) => self.give_up(
                    "[helper] Cannot locate own binary: ".to_owned().concat(e.as_str()),
                ),
            },
            (LaunchStage::Authenticate, Answer::Outcome(outcome)) => match outcome {
                None => self.proceed(LaunchStage::AwaitSocket),
                Some(e) => self.give_up(
                    "[helper] pkexec launch failed: ".to_owned().concat(e.as_str()).concat(
                        " — is polkit installed?",
                    ),
                ),
            },
            (LaunchStage::AwaitSocket, Answer::Flag(found)) => if *found {
                self.proceed(LaunchStage::Connect)
            } else {
                self.give_up(
                    "[helper] Timed out waiting for helper socket — authentication may have been denied.".to_owned(),
                )
            },
            (LaunchStage::Connect, Answer::Outcome(outcome)) => match outcome {
                None => self.proceed(LaunchStage::SplitConnection),
                Some(e) => self.give_up("[helper] Connect failed: ".to_owned().concat(e.as_str())),
            },
            (LaunchStage::SplitConnection, Answer::Outcome(outcome)) => match outcome {
                None => self.proceed(LaunchStage::Check),
                Some(e) => self.give_up(
                    "[helper] Stream clone failed: ".to_owned().concat(e.as_str()),
                ),
            },
            (LaunchStage::Check, Answer::Reply(Some(exchange))) => match exchange.response() {
                Ok(line) => if text::same_text(line.as_str(), "OK") {
                    self.stage = LaunchStage::Ready;
                    one_line("Root helper ready — no further authentication needed.".to_owned())
                } else {
                    self.give_up(
                        "[helper] Unexpected CHECK response: ".to_owned().concat(line.as_str()),
                    )
                },
                Err(e) => self.give_up("[helper] CHECK failed: ".to_owned().concat(e.as_str())),
            },
            _ => no_lines(),
        }
    }

    /// Whether the launch has ended, and if so whether there is a helper.
    pub fn result(&self) -> (r: Option<bool>)
        ensures
            r == (match self@.stage {
                LaunchStage::Ready => Some(true),
                LaunchStage::Unavailable => Some(false),
                _ => None,
            }),
            r == self@.result(),
    {
        match self.stage {
            LaunchStage::Ready => Some(true),
            LaunchStage::Unavailable => Some(false),
            _ => None,
        }
    }
}

/// Different processes have helpers on different sockets.
pub proof fn sockets_are_distinct(p: u32, q: u32)
    requires
        socket_file(p) == socket_file(q),
    ensures
        p == q,
{
    let head = "/tmp/.idvs-helper-"@;
    let tail = ".sock"@;
    let a = text::decimal(p as nat);
    let b = text::decimal(q as nat);
    assert(socket_file(p).len() == head.len() + a.len() + tail.len());
    assert(socket_file(q).len() == head.len() + b.len() + tail.len());
    assert(a =~= socket_file(p).subrange(head.len() as int, (head.len() + a.len()) as int));
    assert(b =~= socket_file(q).subrange(head.len() as int, (head.len() + b.len()) as int));
    text::decimal_injective(p as nat, q as nat);
}

/// A launch ends: each answer leaves fewer to come, and none are left only at the end.
pub proof fn launch_ends(s: LaunchView, answer: AnswerView)
    requires
        s.accepts(answer),
    ensures
        s.next(answer).0.answers_left() < s.answers_left(),
        s.answers_left() == 0 <==> s.action() == ActionView::Nothing,
{
}

/// A launch succeeds only by the handshake: by a response to CHECK that is "OK", apart from
/// white space around it.
pub proof fn ready_means_checked(s: LaunchView, answer: AnswerView)
    requires
        s.accepts(answer),
    ensures
        s.next(answer).0.stage == LaunchStage::Ready <==> s.stage == LaunchStage::Check
            && answer->Reply_0->0.response() == Ok::<Seq<char>, Seq<char>>("OK"@),
{
}

/// The program that pkexec is told to run takes itself for the helper of the same socket,
/// unless its own path reads "--helper".
pub proof fn launched_program_serves_socket(s: LaunchView)
    requires
        s.stage == LaunchStage::Authenticate,
        s.program != "--helper"@,
    ensures
        s.action() matches ActionView::Launch { args, .. } && helper_argument(args) == Some(
            s.socket,
        ),
{
    reveal_with_fuel(helper_argument, 3);
    let args = seq![s.program, "--helper"@, s.socket];
    assert(args.drop_first()[0] == "--helper"@);
}

/// The helper's socket is the one named after the process.
pub proof fn socket_is_named_after_the_process(pid: u32)
    ensures
        socket_file(pid) == "/tmp/.idvs-helper-"@ + text::decimal(pid as nat) + ".sock"@,
{
}

/// A program is told to serve as the helper exactly by an argument "--helper" that another one
/// follows: that which follows the first "--helper" is the socket, whatever stands before and
/// behind.
pub proof fn first_helper_argument_counts(args: Seq<Seq<char>>, i: int)
    requires
        0 <= i <= args.len(),
        forall|k: int| 0 <= k < i ==> #[trigger] args[k] != "--helper"@,
        i < args.len() ==> args[i] == "--helper"@,
    ensures
        i + 1 < args.len() ==> helper_argument(args) == Some(args[i + 1]),
        i + 1 >= args.len() ==> helper_argument(args) is None,
    decreases i,
{
    if i > 0 {
        let tail = args.drop_first();
        assert(args[0] != "--helper"@);
        assert forall|k: int| 0 <= k < i - 1 implies #[trigger] tail[k] != "--helper"@ by {
            assert(tail[k] == args[k + 1]);
        }
        first_helper_argument_counts(tail, i - 1);
        if i < args.len() {
            assert(tail[i - 1] == args[i]);
        }
        if i + 1 < args.len() {
            assert(tail[i] == args[i + 1]);
        }
    }
}

/// A launch goes through its steps in turn, each only after the one before it succeeded: it
/// finds its own program, has pkexec run it for the socket, waits half a minute for the socket,
/// connects to it, makes a second handle, and asks for a sign of life. The socket stays the same
/// throughout, and the program is the one that was found.
pub proof fn launch_takes_its_steps(s: LaunchView, answer: AnswerView)
    requires
        s.accepts(answer),
    ensures
        s.stage == LaunchStage::LocateSelf ==> s.action() == ActionView::LocateSelf,
        s.stage == LaunchStage::Authenticate ==> s.action() == (ActionView::Launch {
            program: "pkexec"@,
            args: seq![s.program, "--helper"@, s.socket],
        }),
        s.stage == LaunchStage::AwaitSocket ==> s.action() == (ActionView::WaitForPath {
            path: s.socket,
            seconds: 30,
        }),
        s.stage == LaunchStage::Connect ==> s.action() == ActionView::Connect(s.socket),
        s.stage == LaunchStage::SplitConnection ==> s.action() == ActionView::SplitConnection,
        s.stage == LaunchStage::Check ==> s.action() == ActionView::Send("CHECK"@),
        ({
            let t = s.next(answer).0;
            &&& t.socket == s.socket
            &&& s.stage == LaunchStage::LocateSelf && answer->Place_0 is Ok ==> t.program
                == answer->Place_0->Ok_0 && t.stage == LaunchStage::Authenticate
            &&& s.stage != LaunchStage::LocateSelf ==> t.program == s.program
            &&& s.stage == LaunchStage::Authenticate && answer->Outcome_0 is None ==> t.stage
                == LaunchStage::AwaitSocket
            &&& s.stage == LaunchStage::AwaitSocket && answer->Flag_0 ==> t.stage
                == LaunchStage::Connect
            &&& s.stage == LaunchStage::Connect && answer->Outcome_0 is None ==> t.stage
                == LaunchStage::SplitConnection
            &&& s.stage == LaunchStage::SplitConnection && answer->Outcome_0 is None ==> t.stage
                == LaunchStage::Check
            &&& t.stage != LaunchStage::Unavailable && t.stage != LaunchStage::Ready
                ==> s.next(answer).1.len() == 0
        }),
{
}

/// A launch is given up exactly where a step fails, or the sign of life is another than "OK";
/// it then tells why, with the reason that it was given, and warns that starting will fail. Once
/// it is ready it says so.
pub proof fn failed_launch_tells_why(s: LaunchView, answer: AnswerView)
    requires
        s.accepts(answer),
    ensures
        ({
            let (t, lines) = s.next(answer);
            &&& t.stage == LaunchStage::Unavailable <==> {
                ||| answer matches AnswerView::Place(Err(_))
                ||| answer matches AnswerView::Outcome(Some(_))
                ||| answer == AnswerView::Flag(false)
                ||| (answer matches AnswerView::Reply(Some(exchange)) && exchange.response()
                    != Ok::<Seq<char>, Seq<char>>("OK"@))
            }
            &&& t.stage == LaunchStage::Unavailable ==> lines.len() == 2 && lines[1]
                == "Warning: root helper unavailable — Start will fail."@
            &&& t.stage == LaunchStage::Unavailable ==> lines[0] == (match s.stage {
                LaunchStage::LocateSelf => "[helper] Cannot locate own binary: "@
                    + answer->Place_0->Err_0,
                LaunchStage::Authenticate => "[helper] pkexec launch failed: "@
                    + answer->Outcome_0->0 + " — is polkit installed?"@,
                LaunchStage::AwaitSocket =>
                    "[helper] Timed out waiting for helper socket — authentication may have been denied."@,
                LaunchStage::Connect => "[helper] Connect failed: "@ + answer->Outcome_0->0,
                LaunchStage::SplitConnection => "[helper] Stream clone failed: "@
                    + answer->Outcome_0->0,
                _ => match answer->Reply_0->0.response() {
                    Ok(line) => "[helper] Unexpected CHECK response: "@ + line,
                    Err(e) => "[helper] CHECK failed: "@ + e,
                },
            })
            &&& t.stage == LaunchStage::Ready ==> lines == seq![
                "Root helper ready — no further authentication needed."@,
            ]
            &&& t.result() == Some(true) <==> t.stage == LaunchStage::Ready
            &&& t.result() == Some(false) <==> t.stage == LaunchStage::Unavailable
        }),
{
}

/// A launch begins with finding the program, for the socket that it is given.
pub proof fn launch_begins_with_itself(socket: Seq<char>)
    ensures
        LaunchView::begin(socket).stage == LaunchStage::LocateSelf,
        LaunchView::begin(socket).socket == socket,
{
}

/// A launch takes every answer that its action calls for, but for a missing reply to its sign of
/// life.
pub proof fn launch_takes_what_comes(s: LaunchView, answer: AnswerView)
    ensures
        s.accepts(answer) <==> s.action().accepts(answer) && answer != AnswerView::Reply(None),
{
}

} // verus!
