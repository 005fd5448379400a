//! The text protocol between the worker and its privileged helper: one command per line,
//! tab-separated arguments, one response line per command ("OK ..." or "ERR ...").
//!
//! ```text
//! CHECK                          health check
//! INSTALL_PLUGIN\t<src>\t<dst>   copy the plugin into the system's ALSA directory
//! START_STATIME\t<bin>\t<cfg>    spawn statime, answered "OK pid=<n>"
//! STOP_STATIME                   terminate statime
//! STATIME_STATUS                 "OK pid=<n>" or "OK pid=none"
//! QUIT                           clean up and exit
//! ```

use crate::text;
use vstd::prelude::*;
use vstd::string::*;

verus! {

/// A command line as the helper understands it.
#[derive(Debug, PartialEq)]
pub enum Command {
    Check,
    InstallPlugin { source: String, target: String },
    StartStatime { binary: String, config: String },
    StopStatime,
    StatimeStatus,
    Quit,
    /// A known command that lacks arguments.
    MissingArguments,
    Unknown,
}

/// A [`Command`] with its texts as sequences of characters.
pub enum CommandView {
    Check,
    InstallPlugin { source: Seq<char>, target: Seq<char> },
    StartStatime { binary: Seq<char>, config: Seq<char> },
    StopStatime,
    StatimeStatus,
    Quit,
    MissingArguments,
    Unknown,
}

impl View for Command {
    type V = CommandView;

    open spec fn view(&self) -> CommandView {
        match self {
            Command::Check => CommandView::Check,
            Command::InstallPlugin { source, target } => CommandView::InstallPlugin {
                source: source@,
                target: target@,
            },
            Command::StartStatime { binary, config } => CommandView::StartStatime {
                binary: binary@,
                config: config@,
            },
            Command::StopStatime => CommandView::StopStatime,
            Command::StatimeStatus => CommandView::StatimeStatus,
            Command::Quit => CommandView::Quit,
            Command::MissingArguments => CommandView::MissingArguments,
            Command::Unknown => CommandView::Unknown,
        }
    }
}

/// The command that a line stands for: its first field is the command's name, its second
/// and third are the arguments.
pub open spec fn parsed_command(line: Seq<char>) -> CommandView {
    let f = text::fields(line);
    if f[0] == "CHECK"@ {
        CommandView::Check
    } else if f[0] == "INSTALL_PLUGIN"@ {
        if f.len() < 3 {
            CommandView::MissingArguments
        } else {
            CommandView::InstallPlugin { source: f[1], target: f[2] }
        }
    } else if f[0] == "START_STATIME"@ {
        if f.len() < 3 {
            CommandView::MissingArguments
        } else {
            CommandView::StartStatime { binary: f[1], config: f[2] }
        }
    } else if f[0] == "STOP_STATIME"@ {
        CommandView::StopStatime
    } else if f[0] == "STATIME_STATUS"@ {
        CommandView::StatimeStatus
    } else if f[0] == "QUIT"@ {
        CommandView::Quit
    } else {
        CommandView::Unknown
    }
}

/// Reads a command line.
pub fn parse_command(line: &str) -> (r: Command)
    ensures
        r@ == parsed_command(line@),
{
    let parts: Vec<String> = text::split_fields(line);
    let ghost f = text::fields(line@);
    assert(text::texts(parts@) == f);
    assert(parts@.len() == f.len());
    assert(forall|i: int| 0 <= i < parts@.len() ==> (#[trigger] parts@[i])@ == f[i]);
    let name = parts[0].as_str();
    if text::same_text(name, "CHECK") {
        Command::Check
    } else if text::same_text(name, "INSTALL_PLUGIN") {
        if parts.len() < 3 {
            Command::MissingArguments
        } else {
            Command::InstallPlugin { source: parts[1].clone(), target: parts[2].clone() }
        }
    } else if text::same_text(name, "START_STATIME") {
        if parts.len() < 3 {
            Command::MissingArguments
        } else {
            Command::StartStatime { binary: parts[1].clone(), config: parts[2].clone() }
        }
    } else if text::same_text(name, "STOP_STATIME") {
        Command::StopStatime
    } else if text::same_text(name, "STATIME_STATUS") {
        Command::StatimeStatus
    } else if text::same_text(name, "QUIT") {
        Command::Quit
    } else {
        Command::Unknown
    }
}

/// The line that asks for the plugin at `source` to be copied to `target`.
pub open spec fn install_line(source: Seq<char>, target: Seq<char>) -> Seq<char> {
    "INSTALL_PLUGIN\t"@ + source + "\t"@ + target
}

/// The line that asks for statime to be started from `binary` with the file `config`.
pub open spec fn start_line(binary: Seq<char>, config: Seq<char>) -> Seq<char> {
    "START_STATIME\t"@ + binary + "\t"@ + config
}

/// Writes the command that installs the plugin.
pub fn install_command(source: &str, target: &str) -> (r: String)
    ensures
        r@ == install_line(source@, target@),
{
    "INSTALL_PLUGIN\t".to_owned().concat(source).concat("\t").concat(target)
}

/// Writes the command that starts statime.
pub fn start_command(binary: &str, config: &str) -> (r: String)
    ensures
        r@ == start_line(binary@, config@),
{
    "START_STATIME\t".to_owned().concat(binary).concat("\t").concat(config)
}

/// The response that reports a running statime.
pub open spec fn pid_line(pid: u32) -> Seq<char> {
    "OK pid="@ + text::decimal(pid as nat)
}

/// Writes the response that reports a running statime.
pub fn pid_response(pid: u32) -> (r: String)
    ensures
        r@ == pid_line(pid),
{
    "OK pid=".to_owned().concat(text::decimal_text(pid).as_str())
}

/// The response that reports a failure.
pub open spec fn error_line(error: Seq<char>) -> Seq<char> {
    "ERR "@ + error
}

/// Writes the response that reports a failure.
pub fn error_response(error: &str) -> (r: String)
    ensures
        r@ == error_line(error@),
{
    "ERR ".to_owned().concat(error)
}

/// A result with the characters of its error.
pub open spec fn result_view<T>(r: Result<T, String>) -> Result<T, Seq<char>> {
    match r {
        Ok(v) => Ok(v),
        Err(e) => Err(e@),
    }
}

/// The process id that the response to a start command reports, or why there is none.
pub open spec fn started_pid(response: Seq<char>) -> Result<u32, Seq<char>> {
    let head = "OK pid="@;
    if text::begins_with(response, head) {
        match text::parsed_u32(response.skip(head.len() as int)) {
            Some(pid) => Ok(pid),
            None => Err("Bad PID in helper response: "@ + response),
        }
    } else {
        Err("Helper failed to start statime: "@ + response)
    }
}

/// Reads the response to a start command.
pub fn read_started_pid(response: &str) -> (r: Result<u32, String>)
    ensures
        result_view(r) == started_pid(response@),
{
    match text::after_prefix(response, "OK pid=") {
        Some(rest) => match text::parse_u32(rest) {
            Some(pid) => Ok(pid),
            None => Err("Bad PID in helper response: ".to_owned().concat(response)),
        },
        None => Err("Helper failed to start statime: ".to_owned().concat(response)),
    }
}

/// What came of sending the helper a line and reading one back.
#[derive(Debug, PartialEq)]
pub enum Exchange {
    /// The line could not be written, for this reason.
    WriteFailed(String),
    /// No line could be read back, for this reason.
    ReadFailed(String),
    /// The line that was read back.
    Line(String),
}

/// An [`Exchange`] with its texts as sequences of characters.
pub enum ExchangeView {
    WriteFailed(Seq<char>),
    ReadFailed(Seq<char>),
    Line(Seq<char>),
}

impl View for Exchange {
    type V = ExchangeView;

    open spec fn view(&self) -> ExchangeView {
        match self {
            Exchange::WriteFailed(e) => ExchangeView::WriteFailed(e@),
            Exchange::ReadFailed(e) => ExchangeView::ReadFailed(e@),
            Exchange::Line(line) => ExchangeView::Line(line@),
        }
    }
}

impl ExchangeView {
    /// The response without white space around it, or the failure in words.
    pub open spec fn response(self) -> Result<Seq<char>, Seq<char>> {
        match self {
            ExchangeView::WriteFailed(e) => Err("helper write: "@ + e),
            ExchangeView::ReadFailed(e) => Err("helper read: "@ + e),
            ExchangeView::Line(line) => Ok(text::trimmed(line)),
        }
    }
}

impl Exchange {
    /// The response without white space around it, or the failure in words.
    pub fn response(&self) -> (r: Result<String, String>)
        ensures
            match r {
                Ok(line) => self@.response() == Ok::<Seq<char>, Seq<char>>(line@),
                Err(e) => self@.response() == Err::<Seq<char>, Seq<char>>(e@),
            },
    {
        match self {
            Exchange::WriteFailed(e) => Err("helper write: ".to_owned().concat(e.as_str())),
            Exchange::ReadFailed(e) => Err("helper read: ".to_owned().concat(e.as_str())),
            Exchange::Line(line) => Ok(text::trim(line.as_str()).to_owned()),
        }
    }
}

// ---------------------------------------------------------------------------
// Both ends agree
// ---------------------------------------------------------------------------

/// The helper understands an install command as it was meant, for every source path without
/// a tab and every target path that does not end in white space. It is a single line where both
/// paths are.
pub proof fn install_line_is_understood(source: Seq<char>, target: Seq<char>)
    requires
        !source.contains('\t'),
        target.len() > 0,
        !text::is_white(target.last()),
    ensures
        parsed_command(text::trimmed(install_line(source, target))) == (CommandView::InstallPlugin {
            source,
            target,
        }),
        text::on_one_line(source) && text::on_one_line(target) ==> text::on_one_line(
            install_line(source, target),
        ),
{
    reveal_strlit("INSTALL_PLUGIN\t");
    reveal_strlit("INSTALL_PLUGIN");
    reveal_strlit("CHECK");
    reveal_strlit("\t");
    let name = "INSTALL_PLUGIN"@;
    let line = install_line(source, target);
    assert("INSTALL_PLUGIN\t"@ =~= name + seq!['\t']);
    assert("\t"@ =~= seq!['\t']);
    assert(line =~= name + seq!['\t'] + source + seq!['\t'] + target);
    assert(line[0] == 'I');
    assert(line.last() == target.last());
    text::trimmed_of_clean(line);
    text::fields_of_three(name, source, target);
    assert(name.len() != "CHECK"@.len());
    if text::on_one_line(source) && text::on_one_line(target) {
        text::joined_on_one_line("INSTALL_PLUGIN\t"@, source);
        text::joined_on_one_line("INSTALL_PLUGIN\t"@ + source, "\t"@);
        text::joined_on_one_line("INSTALL_PLUGIN\t"@ + source + "\t"@, target);
    }
}

/// The helper understands a start command as it was meant, for every binary path without
/// a tab and every configuration path that does not end in white space. It is a single line
/// where both paths are.
pub proof fn start_line_is_understood(binary: Seq<char>, config: Seq<char>)
    requires
        !binary.contains('\t'),
        config.len() > 0,
        !text::is_white(config.last()),
    ensures
        parsed_command(text::trimmed(start_line(binary, config))) == (CommandView::StartStatime {
            binary,
            config,
        }),
        text::on_one_line(binary) && text::on_one_line(config) ==> text::on_one_line(
            start_line(binary, config),
        ),
{
    reveal_strlit("START_STATIME\t");
    reveal_strlit("START_STATIME");
    reveal_strlit("INSTALL_PLUGIN");
    reveal_strlit("CHECK");
    reveal_strlit("\t");
    let name = "START_STATIME"@;
    let line = start_line(binary, config);
    assert("START_STATIME\t"@ =~= name + seq!['\t']);
    assert("\t"@ =~= seq!['\t']);
    assert(line =~= name + seq!['\t'] + binary + seq!['\t'] + config);
    assert(line[0] == 'S');
    assert(line.last() == config.last());
    text::trimmed_of_clean(line);
    text::fields_of_three(name, binary, config);
    assert(name.len() != "CHECK"@.len());
    assert(name.len() != "INSTALL_PLUGIN"@.len());
    if text::on_one_line(binary) && text::on_one_line(config) {
        text::joined_on_one_line("START_STATIME\t"@, binary);
        text::joined_on_one_line("START_STATIME\t"@ + binary, "\t"@);
        text::joined_on_one_line("START_STATIME\t"@ + binary + "\t"@, config);
    }
}

/// The helper understands the commands that have no arguments as they are meant. Each is a
/// single line.
pub proof fn plain_lines_are_understood()
    ensures
        parsed_command(text::trimmed("CHECK"@)) == CommandView::Check,
        parsed_command(text::trimmed("STOP_STATIME"@)) == CommandView::StopStatime,
        parsed_command(text::trimmed("STATIME_STATUS"@)) == CommandView::StatimeStatus,
        parsed_command(text::trimmed("QUIT"@)) == CommandView::Quit,
        text::on_one_line("CHECK"@),
        text::on_one_line("STOP_STATIME"@),
        text::on_one_line("STATIME_STATUS"@),
        text::on_one_line("QUIT"@),
{
    reveal_strlit("CHECK");
    reveal_strlit("INSTALL_PLUGIN");
    reveal_strlit("START_STATIME");
    reveal_strlit("STOP_STATIME");
    reveal_strlit("STATIME_STATUS");
    reveal_strlit("QUIT");
    text::trimmed_of_clean("CHECK"@);
    text::fields_of_one("CHECK"@);
    text::trimmed_of_clean("STOP_STATIME"@);
    text::fields_of_one("STOP_STATIME"@);
    text::trimmed_of_clean("STATIME_STATUS"@);
    text::fields_of_one("STATIME_STATUS"@);
    text::trimmed_of_clean("QUIT"@);
    text::fields_of_one("QUIT"@);
    assert("STATIME_STATUS"@[2] == 'A');
    assert("INSTALL_PLUGIN"@[2] == 'S');
}

/// The worker reads back the process id that the helper reports, and never takes such a
/// report for "no process".
pub proof fn pid_line_is_understood(pid: u32)
    ensures
        started_pid(text::trimmed(pid_line(pid))) == Ok::<u32, Seq<char>>(pid),
        text::trimmed(pid_line(pid)) != "OK pid=none"@,
{
    reveal_strlit("OK pid=");
    reveal_strlit("OK pid=none");
    let head = "OK pid="@;
    let body = text::decimal(pid as nat);
    let line = pid_line(pid);
    text::decimal_reads_back(pid);
    text::decimal_is_digits(pid as nat);
    assert(line[0] == 'O');
    assert(line.last() == body.last());
    assert(text::is_digit(body[body.len() - 1]));
    text::trimmed_of_clean(line);
    assert(line.take(head.len() as int) =~= head);
    assert(line.skip(head.len() as int) =~= body);
    assert(text::is_digit(body[0]));
    assert(line[7] == body[0]);
    assert("OK pid=none"@[7] == 'n');
}

// ---------------------------------------------------------------------------
// What the lines mean
// ---------------------------------------------------------------------------

/// The words of the commands are different, and hold no tab.
proof fn lemma_words()
    ensures
        !"CHECK"@.contains('\t'),
        !"INSTALL_PLUGIN"@.contains('\t'),
        !"START_STATIME"@.contains('\t'),
        !"STOP_STATIME"@.contains('\t'),
        !"STATIME_STATUS"@.contains('\t'),
        !"QUIT"@.contains('\t'),
        "INSTALL_PLUGIN"@ != "CHECK"@,
        "START_STATIME"@ != "CHECK"@,
        "START_STATIME"@ != "INSTALL_PLUGIN"@,
        "STOP_STATIME"@ != "CHECK"@,
        "STOP_STATIME"@ != "INSTALL_PLUGIN"@,
        "STOP_STATIME"@ != "START_STATIME"@,
        "STATIME_STATUS"@ != "CHECK"@,
        "STATIME_STATUS"@ != "INSTALL_PLUGIN"@,
        "STATIME_STATUS"@ != "START_STATIME"@,
        "STATIME_STATUS"@ != "STOP_STATIME"@,
        "QUIT"@ != "CHECK"@,
        "QUIT"@ != "INSTALL_PLUGIN"@,
        "QUIT"@ != "START_STATIME"@,
        "QUIT"@ != "STOP_STATIME"@,
        "QUIT"@ != "STATIME_STATUS"@,
{
    reveal_strlit("CHECK");
    reveal_strlit("INSTALL_PLUGIN");
    reveal_strlit("START_STATIME");
    reveal_strlit("STOP_STATIME");
    reveal_strlit("STATIME_STATUS");
    reveal_strlit("QUIT");
    assert("CHECK"@.len() == 5);
    assert("START_STATIME"@.len() == 13);
    assert("STOP_STATIME"@.len() == 12);
    assert("STATIME_STATUS"@[2] == 'A');
    assert("INSTALL_PLUGIN"@[2] == 'S');
}

/// A command without arguments is told by its word alone: whatever follows behind a tab, it
/// means the same.
pub proof fn plain_commands_ignore_arguments(rest: Seq<char>)
    ensures
        parsed_command("CHECK"@) == CommandView::Check,
        parsed_command("STOP_STATIME"@) == CommandView::StopStatime,
        parsed_command("STATIME_STATUS"@) == CommandView::StatimeStatus,
        parsed_command("QUIT"@) == CommandView::Quit,
        parsed_command("CHECK"@ + seq!['\t'] + rest) == CommandView::Check,
        parsed_command("STOP_STATIME"@ + seq!['\t'] + rest) == CommandView::StopStatime,
        parsed_command("STATIME_STATUS"@ + seq!['\t'] + rest) == CommandView::StatimeStatus,
        parsed_command("QUIT"@ + seq!['\t'] + rest) == CommandView::Quit,
{
    lemma_words();
    text::fields_of_one("CHECK"@);
    text::fields_of_one("STOP_STATIME"@);
    text::fields_of_one("STATIME_STATUS"@);
    text::fields_of_one("QUIT"@);
    text::fields_of_two("CHECK"@, rest);
    text::fields_of_two("STOP_STATIME"@, rest);
    text::fields_of_two("STATIME_STATUS"@, rest);
    text::fields_of_two("QUIT"@, rest);
}

/// A command with arguments means the two that follow its word, the second of which goes to the
/// end of the line; with fewer it lacks arguments, whatever it has.
pub proof fn arguments_are_taken_in_turn(a: Seq<char>, b: Seq<char>)
    requires
        !a.contains('\t'),
    ensures
        parsed_command("INSTALL_PLUGIN"@ + seq!['\t'] + a + seq!['\t'] + b) == (
        CommandView::InstallPlugin { source: a, target: b }),
        parsed_command("START_STATIME"@ + seq!['\t'] + a + seq!['\t'] + b) == (
        CommandView::StartStatime { binary: a, config: b }),
        parsed_command("INSTALL_PLUGIN"@ + seq!['\t'] + a) == CommandView::MissingArguments,
        parsed_command("START_STATIME"@ + seq!['\t'] + a) == CommandView::MissingArguments,
        parsed_command("INSTALL_PLUGIN"@) == CommandView::MissingArguments,
        parsed_command("START_STATIME"@) == CommandView::MissingArguments,
{
    lemma_words();
    text::fields_of_three("INSTALL_PLUGIN"@, a, b);
    text::fields_of_three("START_STATIME"@, a, b);
    text::fields_of_two("INSTALL_PLUGIN"@, a);
    text::fields_of_two("START_STATIME"@, a);
    text::fields_of_one("INSTALL_PLUGIN"@);
    text::fields_of_one("START_STATIME"@);
}

/// A line that begins with another word is unknown, with or without arguments.
pub proof fn other_words_are_unknown(word: Seq<char>, rest: Seq<char>)
    requires
        !word.contains('\t'),
        word != "CHECK"@,
        word != "INSTALL_PLUGIN"@,
        word != "START_STATIME"@,
        word != "STOP_STATIME"@,
        word != "STATIME_STATUS"@,
        word != "QUIT"@,
    ensures
        parsed_command(word) == CommandView::Unknown,
        parsed_command(word + seq!['\t'] + rest) == CommandView::Unknown,
{
    text::fields_of_one(word);
    text::fields_of_two(word, rest);
}

/// A response reports a process exactly where it says "OK pid=" and a number, which is then the
/// process; otherwise it is quoted whole in the reason, which tells a report that cannot be read
/// from any other response.
pub proof fn response_reports_a_process(response: Seq<char>, pid: u32, rest: Seq<char>)
    ensures
        started_pid(response) == Ok::<u32, Seq<char>>(pid) ==> response == "OK pid="@
            + response.skip(7) && text::parsed_u32(response.skip(7)) == Some(pid),
        text::parsed_u32(rest) == Some(pid) ==> started_pid("OK pid="@ + rest) == Ok::<
            u32,
            Seq<char>,
        >(pid),
        text::parsed_u32(rest) is None ==> started_pid("OK pid="@ + rest) == Err::<u32, Seq<char>>(
            "Bad PID in helper response: "@ + ("OK pid="@ + rest),
        ),
        (forall|t: Seq<char>| response != #[trigger] ("OK pid="@ + t)) ==> started_pid(response)
            == Err::<u32, Seq<char>>("Helper failed to start statime: "@ + response),
{
    reveal_strlit("OK pid=");
    let head = "OK pid="@;
    assert(head.len() == 7);
    assert((head + rest).take(7) =~= head);
    assert((head + rest).skip(7) =~= rest);
    if text::begins_with(response, head) {
        assert(response =~= head + response.skip(7));
    }
}

/// The lines that are written consist of their words and what they are about, as it is.
pub proof fn lines_say_what_they_are_about(a: Seq<char>, b: Seq<char>, pid: u32)
    ensures
        install_line(a, b) == "INSTALL_PLUGIN\t"@ + a + "\t"@ + b,
        start_line(a, b) == "START_STATIME\t"@ + a + "\t"@ + b,
        pid_line(pid) == "OK pid="@ + text::decimal(pid as nat),
        error_line(a) == "ERR "@ + a,
{
}

/// A line that came back is the response, without the white space around it; a failure is told
/// as one of writing or of reading, and why.
pub proof fn exchanges_are_told(t: Seq<char>)
    ensures
        ExchangeView::Line(t).response() == Ok::<Seq<char>, Seq<char>>(text::trimmed(t)),
        ExchangeView::WriteFailed(t).response() == Err::<Seq<char>, Seq<char>>(
            "helper write: "@ + t,
        ),
        ExchangeView::ReadFailed(t).response() == Err::<Seq<char>, Seq<char>>(
            "helper read: "@ + t,
        ),
{
}

} // verus!
