//! A VM that a module is tested in: starting it, carrying the test over its serial
//! console, ending it, and judging what it printed.

use crate::error::{quoted_path, quoted_path_text, Error, ErrorView};
use crate::host::{error_of, Action, ActionView, Reply, Step, StepView};
use crate::session::{
    send_error, send_error_of, session_step, verdict_of, verdict_on_bytes, wait_with_timeout,
    Directive, DirectiveView, Happening, Patience, Session, SessionView, POWEROFF_PAUSE_MS,
    POWEROFF_SECONDS,
};
use crate::text::cat2;
use vstd::prelude::*;

verus! {

/// How far a VM has come: what was asked for last.
#[derive(Clone, Copy, Debug, PartialEq, Eq, Structural)]
pub enum VmStage {
    /// The VM to be started.
    Spawn,
    /// Its console to be opened.
    Open,
    /// The time for the next wait to run.
    Timer,
    /// How much of that time is left.
    Left,
    /// A line to be typed.
    Type,
    /// The console to be listened to.
    Hear,
    /// The time for powering off to run.
    OffTimer,
    /// Whether the VM has exited.
    Exited,
    /// How much time for powering off is left.
    OffLeft,
    /// A pause.
    Pause,
    /// The VM to be killed.
    Kill,
    /// The console to be closed.
    Close,
    /// The console's log.
    ReadLog,
}

/// A VM that a test runs in.
#[derive(Debug)]
pub struct Vm {
    stage: VmStage,
    session: Session,
    log: String,
    typed: String,
    result: Result<(), Error>,
}

/// The contents of a [`Vm`].
pub ghost struct VmView {
    pub stage: VmStage,
    pub session: SessionView,
    /// The file that the console is logged to.
    pub log: Seq<char>,
    /// The line that was typed last.
    pub typed: Seq<char>,
    /// Why the test failed, if it did.
    pub result: Option<ErrorView>,
}

impl View for Vm {
    type V = VmView;

    closed spec fn view(&self) -> VmView {
        VmView {
            stage: self.stage,
            session: self.session@,
            log: self.log@,
            typed: self.typed@,
            result: error_of(self.result),
        }
    }
}

/// A VM that was asked to be started, for the test `session`.
pub open spec fn new_vm(session: SessionView, log: Seq<char>) -> VmView {
    VmView { stage: VmStage::Spawn, session, log, typed: Seq::empty(), result: None }
}

/// What ends a test with or without an error.
pub open spec fn outcome(result: Option<ErrorView>) -> StepView<()> {
    match result {
        Some(e) => StepView::Fail(e),
        None => StepView::Done(()),
    }
}

impl VmView {
    pub open spec fn ask(self, stage: VmStage, action: ActionView) -> (VmView, StepView<()>) {
        (VmView { stage, ..self }, StepView::Do(action))
    }

    /// Gives the next wait its full time.
    pub open spec fn start_wait(self) -> (VmView, StepView<()>) {
        self.ask(VmStage::Timer, ActionView::SetTimer(self.session.timeout()))
    }

    /// Ends the test as `result` says: the guest gets time to power off.
    pub open spec fn end(self, result: Option<ErrorView>) -> (VmView, StepView<()>) {
        VmView { result, ..self }.ask(VmStage::OffTimer, ActionView::SetTimer(POWEROFF_SECONDS))
    }

    /// Does what the test wants done.
    pub open spec fn obey(self, directive: DirectiveView) -> (VmView, StepView<()>) {
        match directive {
            DirectiveView::Send(line) => VmView { typed: line, ..self }.ask(
                VmStage::Type,
                ActionView::Type(line),
            ),
            DirectiveView::Listen(ns) => self.ask(VmStage::Hear, ActionView::Hear(ns)),
            DirectiveView::Finish(result) => self.end(result),
        }
    }

    /// Lets the test react to something that calls for it.
    pub open spec fn react(self, happening: Happening) -> (VmView, StepView<()>) {
        let (session, directive) = session_step(self.session, happening);
        VmView { session, ..self }.obey(directive->0)
    }

    /// How [`boot_and_test`] goes on.
    pub open spec fn step(self, reply: Reply) -> (VmView, StepView<()>) {
        match self.stage {
            VmStage::Spawn => match reply {
                Reply::Done => self.ask(VmStage::Open, ActionView::OpenConsole(self.log)),
                Reply::Failed(cause) => (
                    self,
                    StepView::Fail(ErrorView::failed("spawning qemu"@, cause@)),
                ),
                _ => (self, StepView::Fail(ErrorView::unexpected_reply())),
            },
            VmStage::Open => match reply {
                Reply::Done => self.start_wait(),
                Reply::Failed(cause) => (
                    self,
                    StepView::Fail(
                        ErrorView::failed("creating "@ + quoted_path_text(self.log), cause@),
                    ),
                ),
                _ => (self, StepView::Fail(ErrorView::unexpected_reply())),
            },
            VmStage::Timer => self.ask(VmStage::Left, ActionView::TimeLeft),
            VmStage::Left => match reply {
                Reply::Left(ns) => self.react(Happening::Polled(ns)),
                _ => self.end(Some(ErrorView::unexpected_reply())),
            },
            VmStage::Type => match reply {
                Reply::Done => self.start_wait(),
                Reply::Failed(cause) => self.end(Some(send_error_of(self.typed, cause@))),
                _ => self.end(Some(ErrorView::unexpected_reply())),
            },
            VmStage::Hear => match reply {
                Reply::Heard(chunk) => VmView {
                    session: self.session.received(chunk@),
                    ..self
                }.ask(VmStage::Left, ActionView::TimeLeft),
                Reply::Silence => self.ask(VmStage::Left, ActionView::TimeLeft),
                Reply::Closed => self.react(Happening::Closed),
                _ => self.end(Some(ErrorView::unexpected_reply())),
            },
            VmStage::OffTimer => self.ask(VmStage::Exited, ActionView::HasExited),
            VmStage::Exited => if reply == Reply::Is(true) {
                self.ask(VmStage::Close, ActionView::CloseConsole)
            } else {
                self.ask(VmStage::OffLeft, ActionView::TimeLeft)
            },
            VmStage::OffLeft => match reply {
                Reply::Left(ns) => if ns == 0 {
                    self.ask(VmStage::Kill, ActionView::KillVm)
                } else {
                    self.ask(VmStage::Pause, ActionView::Pause(POWEROFF_PAUSE_MS))
                },
                _ => self.ask(VmStage::Kill, ActionView::KillVm),
            },
            VmStage::Pause => self.ask(VmStage::Exited, ActionView::HasExited),
            VmStage::Kill => self.ask(VmStage::Close, ActionView::CloseConsole),
            VmStage::Close => self.ask(VmStage::ReadLog, ActionView::ReadBytes(self.log)),
            VmStage::ReadLog => (
                VmView { result: None, ..self },
                outcome(verdict_of(log_in(reply), self.log, self.result)),
            ),
        }
    }
}

/// The console's log in the reply to reading it; a log that cannot be read counts as
/// empty.
pub open spec fn log_in(reply: Reply) -> Seq<u8> {
    match reply {
        Reply::Bytes(bytes) => bytes@,
        _ => Seq::empty(),
    }
}

impl Vm {
    /// A VM that was asked to be started, for the test `session`.
    pub fn new(session: Session, log: &str) -> (r: Vm)
        ensures
            r@ == new_vm(session@, log@),
    {
        Vm {
            stage: VmStage::Spawn,
            session,
            log: log.to_owned(),
            typed: String::new(),
            result: Ok(()),
        }
    }

    fn ask(&mut self, stage: VmStage, action: Action) -> (r: Step<()>)
        ensures
            (final(self)@, r@) == old(self)@.ask(stage, action@),
    {
        self.stage = stage;
        Step::Do(action)
    }

    fn start_wait(&mut self) -> (r: Step<()>)
        ensures
            (final(self)@, r@) == old(self)@.start_wait(),
    {
        let timeout: u64 = self.session.timeout();
        self.ask(VmStage::Timer, Action::SetTimer(timeout))
    }

    fn end(&mut self, result: Result<(), Error>) -> (r: Step<()>)
        ensures
            (final(self)@, r@) == old(self)@.end(error_of(result)),
    {
        self.result = result;
        self.ask(VmStage::OffTimer, Action::SetTimer(POWEROFF_SECONDS))
    }

    fn obey(&mut self, directive: Directive) -> (r: Step<()>)
        ensures
            (final(self)@, r@) == old(self)@.obey(directive@),
    {
        match directive {
            Directive::Send(line) => {
                self.typed = line.clone();
                self.ask(VmStage::Type, Action::Type(line))
            },
            Directive::Listen(ns) => self.ask(VmStage::Hear, Action::Hear(ns)),
            Directive::Finish(result) => self.end(result),
        }
    }
}

/// Tests a module in a VM that was asked to be started: opens the console, carries the
/// test over it, gives the guest time to power off, kills it where it does not, and
/// judges the test by its result and the console's log. Resumable.
pub fn boot_and_test(vm: &mut Vm, reply: &Reply) -> (r: Step<()>)
    ensures
        (final(vm)@, r@) == old(vm)@.step(*reply),
{
    match vm.stage {
        VmStage::Spawn => match reply {
            Reply::Done => {
                let log = vm.log.clone();
                vm.ask(VmStage::Open, Action::OpenConsole(log))
            },
            Reply::Failed(cause) => Step::Fail(Error::failed("spawning qemu", cause.as_str())),
            _ => Step::Fail(Error::unexpected_reply()),
        },
        VmStage::Open => match reply {
            Reply::Done => vm.start_wait(),
            Reply::Failed(cause) => Step::Fail(
                Error::failed(
                    cat2("creating ", quoted_path(vm.log.as_str()).as_str()).as_str(),
                    cause.as_str(),
                ),
            ),
            _ => Step::Fail(Error::unexpected_reply()),
        },
        VmStage::Timer => vm.ask(VmStage::Left, Action::TimeLeft),
        VmStage::Left => match reply {
            Reply::Left(ns) => {
                let directive = vm.session.poll(*ns);
                vm.obey(directive)
            },
            _ => vm.end(Err(Error::unexpected_reply())),
        },
        VmStage::Type => match reply {
            Reply::Done => vm.start_wait(),
            Reply::Failed(cause) => {
                let e = send_error(vm.typed.as_str(), cause.as_str());
                vm.end(Err(e))
            },
            _ => vm.end(Err(Error::unexpected_reply())),
        },
        VmStage::Hear => match reply {
            Reply::Heard(chunk) => {
                vm.session.receive(chunk);
                vm.ask(VmStage::Left, Action::TimeLeft)
            },
            Reply::Silence => vm.ask(VmStage::Left, Action::TimeLeft),
            Reply::Closed => {
                let directive = vm.session.closed();
                vm.obey(directive)
            },
            _ => vm.end(Err(Error::unexpected_reply())),
        },
        VmStage::OffTimer => vm.ask(VmStage::Exited, Action::HasExited),
        VmStage::Exited => {
            let exited = match reply {
                Reply::Is(true) => true,
                _ => false,
            };
            match wait_with_timeout(exited, false) {
                Patience::Exited => vm.ask(VmStage::Close, Action::CloseConsole),
                _ => vm.ask(VmStage::OffLeft, Action::TimeLeft),
            }
        },
        VmStage::OffLeft => {
            let late = match reply {
                Reply::Left(ns) => *ns == 0,
                _ => true,
            };
            match wait_with_timeout(false, late) {
                Patience::Pause(ms) => vm.ask(VmStage::Pause, Action::Pause(ms)),
                _ => vm.ask(VmStage::Kill, Action::KillVm),
            }
        },
        VmStage::Pause => vm.ask(VmStage::Exited, Action::HasExited),
        VmStage::Kill => vm.ask(VmStage::Close, Action::CloseConsole),
        VmStage::Close => {
            let log = vm.log.clone();
            vm.ask(VmStage::ReadLog, Action::ReadBytes(log))
        },
        VmStage::ReadLog => {
            let mut result: Result<(), Error> = Ok(());
            std::mem::swap(&mut result, &mut vm.result);
            let empty: Vec<u8> = Vec::new();
            let judged = match reply {
                Reply::Bytes(bytes) => verdict_on_bytes(bytes, vm.log.as_str(), result),
                _ => verdict_on_bytes(&empty, vm.log.as_str(), result),
            };
            match judged {
                Ok(_) => Step::Done(()),
                Err(e) => Step::Fail(e),
            }
        },
    }
}

} // verus!
