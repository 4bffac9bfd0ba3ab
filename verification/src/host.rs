//! The boundary to the machine that the tool runs on.
//!
//! No function of the library touches a file or starts a program. One that
//! needs such a thing done is resumable: each call takes the [`Reply`] to the
//! action asked for last, and returns the next [`Step`].

use crate::error::{quoted_path, quoted_path_text, Error, ErrorView};
use crate::text::{cat2, opt_text, texts};
use vstd::prelude::*;

verus! {

/// A program to start.
#[derive(Debug)]
pub struct Command {
    pub program: String,
    pub args: Vec<String>,
    /// Variables set in the program's environment, over those inherited.
    pub envs: Vec<(String, String)>,
    /// The directory to start it in, where that is not the current one.
    pub dir: Option<String>,
}

/// The contents of a [`Command`].
#[verifier::ext_equal]
pub ghost struct CommandView {
    pub program: Seq<char>,
    pub args: Seq<Seq<char>>,
    pub envs: Seq<(Seq<char>, Seq<char>)>,
    pub dir: Option<Seq<char>>,
}

/// The contents of a list of environment variables.
pub open spec fn env_texts(v: Seq<(String, String)>) -> Seq<(Seq<char>, Seq<char>)> {
    Seq::new(v.len(), |i: int| (v[i].0@, v[i].1@))
}

impl View for Command {
    type V = CommandView;

    open spec fn view(&self) -> CommandView {
        CommandView {
            program: self.program@,
            args: texts(self.args@),
            envs: env_texts(self.envs@),
            dir: opt_text(self.dir),
        }
    }
}

/// A program and its arguments, with nothing else set.
pub open spec fn plain_command(program: Seq<char>, args: Seq<Seq<char>>) -> CommandView {
    CommandView { program, args, envs: Seq::empty(), dir: None }
}

/// Something that only the host can do.
#[derive(Debug)]
pub enum Action {
    /// Whether a path exists.
    Exists(String),
    /// A path in absolute form, symbolic links resolved.
    Canonicalize(String),
    /// The text of a file.
    ReadFile(String),
    /// Replaces the contents of a file.
    WriteFile { path: String, contents: String },
    /// Creates a directory and those above it.
    CreateDirs(String),
    /// Removes a directory with all it holds.
    RemoveDir(String),
    /// Removes a file.
    RemoveFile(String),
    /// The names of a directory's entries.
    ListDir(String),
    /// Copies a file.
    Copy { from: String, to: String },
    /// Renames a file.
    Rename { from: String, to: String },
    /// The size of a file.
    FileSize(String),
    /// Creates an empty file, or empties one.
    CreateFile(String),
    /// Extends an empty file with zeros.
    Resize { path: String, size: u64 },
    /// Runs a program to its end.
    Run(Command),
    /// Runs a program to its end and drops what it prints.
    Probe(Command),
    /// Runs a program to its end and drops what it prints to standard output.
    Ask(Command),
    /// Runs a program to its end and keeps what it prints.
    Capture(Command),
    /// Runs a program to its end, its standard output going to a file.
    RunInto { command: Command, path: String },
    /// Makes a client for HTTP.
    MakeClient,
    /// Requests a document with the client and keeps the response open.
    Get(String),
    /// Receives the next part of the response that is open.
    Receive,
    /// Appends the part received last to a file.
    Append(String),
    /// Prints a line.
    Say(String),
    /// Prints a line to standard error.
    Warn(String),
    /// Starts a VM, its serial console on its standard input and output.
    StartVm(Command),
    /// Opens the console of the VM, and logs what it shows to a file.
    OpenConsole(String),
    /// Starts a timer that runs for the seconds given.
    SetTimer(u64),
    /// How much time the timer has left.
    TimeLeft,
    /// Types a line on the console.
    Type(String),
    /// Listens to the console for the nanoseconds given, or until it shows something.
    Hear(u128),
    /// Whether the VM has exited.
    HasExited,
    /// Waits for the milliseconds given.
    Pause(u64),
    /// Kills the VM.
    KillVm,
    /// Waits until all that the console showed is logged.
    CloseConsole,
    /// The bytes of a file.
    ReadBytes(String),
}

/// The contents of an [`Action`].
pub ghost enum ActionView {
    Exists(Seq<char>),
    Canonicalize(Seq<char>),
    ReadFile(Seq<char>),
    WriteFile { path: Seq<char>, contents: Seq<char> },
    CreateDirs(Seq<char>),
    RemoveDir(Seq<char>),
    RemoveFile(Seq<char>),
    ListDir(Seq<char>),
    Copy { from: Seq<char>, to: Seq<char> },
    Rename { from: Seq<char>, to: Seq<char> },
    FileSize(Seq<char>),
    CreateFile(Seq<char>),
    Resize { path: Seq<char>, size: u64 },
    Run(CommandView),
    Probe(CommandView),
    Ask(CommandView),
    Capture(CommandView),
    RunInto { command: CommandView, path: Seq<char> },
    MakeClient,
    Get(Seq<char>),
    Receive,
    Append(Seq<char>),
    Say(Seq<char>),
    Warn(Seq<char>),
    StartVm(CommandView),
    OpenConsole(Seq<char>),
    SetTimer(u64),
    TimeLeft,
    Type(Seq<char>),
    Hear(u128),
    HasExited,
    Pause(u64),
    KillVm,
    CloseConsole,
    ReadBytes(Seq<char>),
}

impl View for Action {
    type V = ActionView;

    open spec fn view(&self) -> ActionView {
        match *self {
            Action::Exists(p) => ActionView::Exists(p@),
            Action::Canonicalize(p) => ActionView::Canonicalize(p@),
            Action::ReadFile(p) => ActionView::ReadFile(p@),
            Action::WriteFile { path, contents } => ActionView::WriteFile {
                path: path@,
                contents: contents@,
            },
            Action::CreateDirs(p) => ActionView::CreateDirs(p@),
            Action::RemoveDir(p) => ActionView::RemoveDir(p@),
            Action::RemoveFile(p) => ActionView::RemoveFile(p@),
            Action::ListDir(p) => ActionView::ListDir(p@),
            Action::Copy { from, to } => ActionView::Copy { from: from@, to: to@ },
            Action::Rename { from, to } => ActionView::Rename { from: from@, to: to@ },
            Action::FileSize(p) => ActionView::FileSize(p@),
            Action::CreateFile(p) => ActionView::CreateFile(p@),
            Action::Resize { path, size } => ActionView::Resize { path: path@, size },
            Action::Run(c) => ActionView::Run(c@),
            Action::Probe(c) => ActionView::Probe(c@),
            Action::Ask(c) => ActionView::Ask(c@),
            Action::Capture(c) => ActionView::Capture(c@),
            Action::RunInto { command, path } => ActionView::RunInto {
                command: command@,
                path: path@,
            },
            Action::MakeClient => ActionView::MakeClient,
            Action::Get(u) => ActionView::Get(u@),
            Action::Receive => ActionView::Receive,
            Action::Append(p) => ActionView::Append(p@),
            Action::Say(s) => ActionView::Say(s@),
            Action::Warn(s) => ActionView::Warn(s@),
            Action::StartVm(c) => ActionView::StartVm(c@),
            Action::OpenConsole(p) => ActionView::OpenConsole(p@),
            Action::SetTimer(seconds) => ActionView::SetTimer(seconds),
            Action::TimeLeft => ActionView::TimeLeft,
            Action::Type(line) => ActionView::Type(line@),
            Action::Hear(ns) => ActionView::Hear(ns),
            Action::HasExited => ActionView::HasExited,
            Action::Pause(ms) => ActionView::Pause(ms),
            Action::KillVm => ActionView::KillVm,
            Action::CloseConsole => ActionView::CloseConsole,
            Action::ReadBytes(p) => ActionView::ReadBytes(p@),
        }
    }
}

/// What came of an action.
#[derive(Debug)]
pub enum Reply {
    /// Nothing was asked yet: the reply for the first call.
    Begin,
    /// It was done.
    Done,
    /// To `Exists` and `HasExited`.
    Is(bool),
    /// To `Canonicalize` and `ReadFile`.
    Text(String),
    /// To `ListDir`.
    Names(Vec<String>),
    /// To `FileSize`, and to `Receive`: how many bytes came, none at the end.
    Size(u64),
    /// To `Run`, `Probe`, `Ask` and `RunInto`: whether the program succeeded, and its
    /// exit status in words.
    Exit { success: bool, status: String },
    /// To `Capture`.
    Output { success: bool, stdout: Vec<u8>, stderr: Vec<u8> },
    /// It could not be done, for the reason given.
    Failed(String),
    /// To `TimeLeft`: the nanoseconds left, none when the time is over.
    Left(u128),
    /// To `Hear`: what the console showed.
    Heard(Vec<u8>),
    /// To `Hear`: the console showed nothing.
    Silence,
    /// To `Hear`: the console is closed.
    Closed,
    /// To `ReadBytes`.
    Bytes(Vec<u8>),
}

/// How a resumable function goes on.
#[derive(Debug)]
pub enum Step<T> {
    /// It wants something done, and the reply.
    Do(Action),
    /// It returns.
    Done(T),
    /// It fails.
    Fail(Error),
}

/// The contents of a [`Step`].
pub ghost enum StepView<V> {
    Do(ActionView),
    Done(V),
    Fail(ErrorView),
}

impl<T: View> View for Step<T> {
    type V = StepView<T::V>;

    open spec fn view(&self) -> StepView<T::V> {
        match *self {
            Step::Do(a) => StepView::Do(a@),
            Step::Done(t) => StepView::Done(t@),
            Step::Fail(e) => StepView::Fail(e@),
        }
    }
}

/// The error in the reply to an action that is done or not; `doing` says what it
/// was for.
pub open spec fn ack_error(reply: Reply, doing: Seq<char>) -> Option<ErrorView> {
    match reply {
        Reply::Done => None,
        Reply::Failed(cause) => Some(ErrorView::failed(doing, cause@)),
        _ => Some(ErrorView::unexpected_reply()),
    }
}

/// As [`ack_error`], for an action that explains itself.
pub open spec fn bare_ack_error(reply: Reply) -> Option<ErrorView> {
    match reply {
        Reply::Done => None,
        Reply::Failed(cause) => Some(ErrorView::refused(cause@)),
        _ => Some(ErrorView::unexpected_reply()),
    }
}

/// The error in the reply to `Run`: the program could not be started, or it ended
/// without success.
pub open spec fn run_error(program: Seq<char>, reply: Reply) -> Option<ErrorView> {
    match reply {
        Reply::Exit { success, status } => if success {
            None
        } else {
            Some(ErrorView::exited(program, status@))
        },
        Reply::Failed(cause) => Some(
            ErrorView::failed("spawning "@ + quoted_path_text(program), cause@),
        ),
        _ => Some(ErrorView::unexpected_reply()),
    }
}

/// The contents of an optional error.
pub open spec fn error_of(r: Result<(), Error>) -> Option<ErrorView> {
    match r {
        Ok(_) => None,
        Err(e) => Some(e@),
    }
}

/// Checks the reply to an action that is done or not.
pub fn ack(reply: &Reply, doing: &str) -> (r: Result<(), Error>)
    ensures
        error_of(r) == ack_error(*reply, doing@),
{
    match reply {
        Reply::Done => Ok(()),
        Reply::Failed(cause) => Err(Error::failed(doing, cause.as_str())),
        _ => Err(Error::unexpected_reply()),
    }
}

/// Checks the reply to an action that is done or not, and explains itself.
pub fn bare_ack(reply: &Reply) -> (r: Result<(), Error>)
    ensures
        error_of(r) == bare_ack_error(*reply),
{
    match reply {
        Reply::Done => Ok(()),
        Reply::Failed(cause) => Err(Error::refused(cause.as_str())),
        _ => Err(Error::unexpected_reply()),
    }
}

/// Checks the reply to running `program`: only its success is no error.
pub fn run_cmd(program: &str, reply: &Reply) -> (r: Result<(), Error>)
    ensures
        error_of(r) == run_error(program@, *reply),
{
    match reply {
        Reply::Exit { success, status } => if *success {
            Ok(())
        } else {
            Err(Error::exited(program, status.as_str()))
        },
        Reply::Failed(cause) => Err(
            Error::failed(cat2("spawning ", quoted_path(program).as_str()).as_str(), cause.as_str()),
        ),
        _ => Err(Error::unexpected_reply()),
    }
}

/// A program and its arguments, with nothing else set.
pub fn command(program: &str, args: Vec<String>) -> (r: Command)
    ensures
        r@ == plain_command(program@, texts(args@)),
{
    let envs: Vec<(String, String)> = Vec::new();
    assert(env_texts(envs@) =~= Seq::<(Seq<char>, Seq<char>)>::empty());
    Command { program: program.to_owned(), args, envs, dir: None }
}

/// Adds a variable to a program's environment.
pub fn push_env(v: &mut Vec<(String, String)>, name: &str, value: &str)
    ensures
        env_texts(final(v)@) == env_texts(old(v)@).push((name@, value@)),
{
    v.push((name.to_owned(), value.to_owned()));
    assert(env_texts(v@) =~= env_texts(old(v)@).push((name@, value@)));
}

} // verus!
