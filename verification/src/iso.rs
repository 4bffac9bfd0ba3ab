//! The CD that hands a module to the guest.

use crate::error::{Error, ErrorView};
use crate::host::{
    command, plain_command, run_cmd, run_error, Action, ActionView, Command, CommandView, Reply,
    Step, StepView,
};
use crate::text::{cat2, push_text, texts};
use vstd::prelude::*;

verus! {

/// How far [`which`] has come.
#[derive(Clone, Copy, Debug, PartialEq, Eq, Structural)]
pub enum Probe {
    Start,
    /// It had the program asked for its version.
    Version,
    /// It had the shell look for the program.
    Shell,
}

/// Whether a program was run with success.
pub open spec fn succeeded(reply: Reply) -> bool {
    reply matches Reply::Exit { success, .. } && success
}

/// How [`which`] goes on from `at`.
pub open spec fn which_step(at: Probe, bin: Seq<char>, reply: Reply) -> (Probe, StepView<bool>) {
    match at {
        Probe::Start => (
            Probe::Version,
            StepView::Do(ActionView::Probe(plain_command(bin, seq!["--version"@]))),
        ),
        Probe::Version => if succeeded(reply) {
            (at, StepView::Done(true))
        } else {
            (
                Probe::Shell,
                StepView::Do(
                    ActionView::Ask(
                        plain_command("sh"@, seq!["-c"@, "command -v "@ + bin]),
                    ),
                ),
            )
        },
        Probe::Shell => (at, StepView::Done(succeeded(reply))),
    }
}

/// Whether a program is installed: it tells its version, or the shell finds it.
/// Resumable.
pub fn which(at: &mut Probe, bin: &str, reply: &Reply) -> (r: Step<bool>)
    ensures
        (*final(at), r@) == which_step(*old(at), bin@, *reply),
{
    let success: bool = match reply {
        Reply::Exit { success, .. } => *success,
        _ => false,
    };
    match *at {
        Probe::Start => {
            *at = Probe::Version;
            let mut args: Vec<String> = Vec::new();
            push_text(&mut args, "--version");
            assert(texts(args@) =~= seq!["--version"@]);
            Step::Do(Action::Probe(command(bin, args)))
        },
        Probe::Version => {
            if success {
                return Step::Done(true);
            }
            *at = Probe::Shell;
            let mut args: Vec<String> = Vec::new();
            push_text(&mut args, "-c");
            push_text(&mut args, cat2("command -v ", bin).as_str());
            assert(texts(args@) =~= seq!["-c"@, "command -v "@ + bin@]);
            Step::Do(Action::Ask(command("sh", args)))
        },
        Probe::Shell => Step::Done(success),
    }
}

/// A program that makes ISO images.
#[derive(Clone, Copy, Debug, PartialEq, Eq, Structural)]
pub enum IsoTool {
    Xorriso,
    Mkisofs,
    Hdiutil,
}

/// A program's name.
pub open spec fn iso_tool_name(tool: IsoTool) -> Seq<char> {
    match tool {
        IsoTool::Xorriso => "xorriso"@,
        IsoTool::Mkisofs => "mkisofs"@,
        IsoTool::Hdiutil => "hdiutil"@,
    }
}

/// The program to try after `tool`.
pub open spec fn next_iso_tool(tool: IsoTool) -> Option<IsoTool> {
    match tool {
        IsoTool::Xorriso => Some(IsoTool::Mkisofs),
        IsoTool::Mkisofs => Some(IsoTool::Hdiutil),
        IsoTool::Hdiutil => None,
    }
}

/// Makes an image of all files in a directory.
pub open spec fn iso_command_of(
    tool: IsoTool,
    src_dir: Seq<char>,
    iso_path: Seq<char>,
) -> CommandView {
    plain_command(
        iso_tool_name(tool),
        match tool {
            IsoTool::Xorriso => seq![
                "-as"@,
                "mkisofs"@,
                "-V"@,
                "KBUILD"@,
                "-J"@,
                "-R"@,
                "-o"@,
                iso_path,
                src_dir,
            ],
            IsoTool::Mkisofs => seq!["-V"@, "KBUILD"@, "-J"@, "-R"@, "-o"@, iso_path, src_dir],
            IsoTool::Hdiutil => seq![
                "makehybrid"@,
                "-iso"@,
                "-joliet"@,
                "-default-volume-name"@,
                "KBUILD"@,
                "-o"@,
                iso_path,
                src_dir,
            ],
        },
    )
}

/// How far [`build_iso`] has come.
#[derive(Clone, Copy, Debug, PartialEq, Eq, Structural)]
pub enum IsoStage {
    Start,
    /// It had an older image removed.
    Remove,
    /// It looks for a program.
    Look(IsoTool, Probe),
    /// It had the image made.
    Make(IsoTool),
}

/// Looks for `tool`, or goes on looking for it.
pub open spec fn look_step(
    tool: IsoTool,
    probe: Probe,
    src_dir: Seq<char>,
    iso_path: Seq<char>,
    reply: Reply,
) -> (IsoStage, StepView<()>)
    decreases
            (match tool {
                IsoTool::Xorriso => 2int,
                IsoTool::Mkisofs => 1int,
                IsoTool::Hdiutil => 0int,
            }),
{
    let (probe, step) = which_step(probe, iso_tool_name(tool), reply);
    match step {
        StepView::Do(action) => (IsoStage::Look(tool, probe), StepView::Do(action)),
        StepView::Fail(e) => (IsoStage::Look(tool, probe), StepView::Fail(e)),
        StepView::Done(true) => (
            IsoStage::Make(tool),
            StepView::Do(ActionView::Run(iso_command_of(tool, src_dir, iso_path))),
        ),
        StepView::Done(false) => match next_iso_tool(tool) {
            Some(next) => look_step(next, Probe::Start, src_dir, iso_path, reply),
            None => (
                IsoStage::Look(tool, probe),
                StepView::Fail(ErrorView::no_iso_tool()),
            ),
        },
    }
}

/// How [`build_iso`] goes on from `at`.
pub open spec fn iso_step(
    at: IsoStage,
    src_dir: Seq<char>,
    iso_path: Seq<char>,
    reply: Reply,
) -> (IsoStage, StepView<()>) {
    match at {
        IsoStage::Start => (IsoStage::Remove, StepView::Do(ActionView::RemoveFile(iso_path))),
        IsoStage::Remove => look_step(IsoTool::Xorriso, Probe::Start, src_dir, iso_path, reply),
        IsoStage::Look(tool, probe) => look_step(tool, probe, src_dir, iso_path, reply),
        IsoStage::Make(tool) => match run_error(iso_tool_name(tool), reply) {
            Some(e) => (at, StepView::Fail(e)),
            None => (at, StepView::Done(())),
        },
    }
}

impl IsoTool {
    /// The program's name.
    pub fn name(&self) -> (r: &'static str)
        ensures
            r@ == iso_tool_name(*self),
    {
        match self {
            IsoTool::Xorriso => "xorriso",
            IsoTool::Mkisofs => "mkisofs",
            IsoTool::Hdiutil => "hdiutil",
        }
    }

    /// Makes an image of all files in a directory.
    pub fn command(&self, src_dir: &str, iso_path: &str) -> (r: Command)
        ensures
            r@ == iso_command_of(*self, src_dir@, iso_path@),
    {
        let mut args: Vec<String> = Vec::new();
        assert(texts(args@) =~= Seq::<Seq<char>>::empty());
        match self {
            IsoTool::Xorriso => {
                push_text(&mut args, "-as");
                push_text(&mut args, "mkisofs");
            },
            IsoTool::Mkisofs => {},
            IsoTool::Hdiutil => {
                push_text(&mut args, "makehybrid");
                push_text(&mut args, "-iso");
                push_text(&mut args, "-joliet");
                push_text(&mut args, "-default-volume-name");
                push_text(&mut args, "KBUILD");
            },
        }
        match self {
            IsoTool::Hdiutil => {},
            _ => {
                push_text(&mut args, "-V");
                push_text(&mut args, "KBUILD");
                push_text(&mut args, "-J");
                push_text(&mut args, "-R");
            },
        }
        push_text(&mut args, "-o");
        push_text(&mut args, iso_path);
        push_text(&mut args, src_dir);
        command(self.name(), args)
    }
}

/// Looks for `tool`, or goes on looking for it.
fn look(
    at: &mut IsoStage,
    tool: IsoTool,
    probe: Probe,
    src_dir: &str,
    iso_path: &str,
    reply: &Reply,
) -> (r: Step<()>)
    ensures
        (*final(at), r@) == look_step(tool, probe, src_dir@, iso_path@, *reply),
    decreases
            (match tool {
                IsoTool::Xorriso => 2int,
                IsoTool::Mkisofs => 1int,
                IsoTool::Hdiutil => 0int,
            }),
{
    let mut probe = probe;
    let step = which(&mut probe, tool.name(), reply);
    *at = IsoStage::Look(tool, probe);
    match step {
        Step::Do(action) => Step::Do(action),
        Step::Fail(e) => Step::Fail(e),
        Step::Done(true) => {
            *at = IsoStage::Make(tool);
            Step::Do(Action::Run(tool.command(src_dir, iso_path)))
        },
        Step::Done(false) => match tool {
            IsoTool::Xorriso => look(
                at,
                IsoTool::Mkisofs,
                Probe::Start,
                src_dir,
                iso_path,
                reply,
            ),
            IsoTool::Mkisofs => look(
                at,
                IsoTool::Hdiutil,
                Probe::Start,
                src_dir,
                iso_path,
                reply,
            ),
            IsoTool::Hdiutil => Step::Fail(Error::no_iso_tool()),
        },
    }
}

/// Makes an ISO image of all files in `src_dir`, with the first program for it that
/// is installed. Resumable.
pub fn build_iso(
    at: &mut IsoStage,
    src_dir: &str,
    iso_path: &str,
    reply: &Reply,
) -> (r: Step<()>)
    ensures
        (*final(at), r@) == iso_step(*old(at), src_dir@, iso_path@, *reply),
{
    match *at {
        IsoStage::Start => {
            *at = IsoStage::Remove;
            Step::Do(Action::RemoveFile(iso_path.to_owned()))
        },
        IsoStage::Remove => look(at, IsoTool::Xorriso, Probe::Start, src_dir, iso_path, reply),
        IsoStage::Look(tool, probe) => look(at, tool, probe, src_dir, iso_path, reply),
        IsoStage::Make(tool) => match run_cmd(tool.name(), reply) {
            Err(e) => Step::Fail(e),
            Ok(_) => Step::Done(()),
        },
    }
}

} // verus!
