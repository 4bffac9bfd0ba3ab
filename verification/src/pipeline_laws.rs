//! What holds of a build as a whole.

use crate::args::BuildArgsView;
use crate::error::ErrorView;
use crate::export::{export_list_path, new_export, ExportStage};
use crate::host::{ActionView, CommandView, Reply, StepView};
use crate::machine::{cpuarch_of, ld_emulation_of, target_name_of};
use crate::pipeline::{new_build, BuildView, Phase};
use vstd::prelude::*;

verus! {

/// The build `b` after the replies given.
pub open spec fn build_after(b: BuildView, replies: Seq<Reply>) -> BuildView
    decreases replies.len(),
{
    if replies.len() == 0 {
        b
    } else {
        build_after(b, replies.drop_last()).step(replies.last()).0
    }
}

/// What the build `b` wants after the replies given, of which there is at least
/// one.
pub open spec fn build_wants(b: BuildView, replies: Seq<Reply>) -> StepView<Seq<char>> {
    build_after(b, replies.drop_last()).step(replies.last()).1
}

/// The program that a step wants run, if any.
pub open spec fn run_of(step: StepView<Seq<char>>) -> Seq<CommandView> {
    match step {
        StepView::Do(ActionView::Run(c)) => seq![c],
        _ => Seq::empty(),
    }
}

/// The programs that the build `b` has had run by the time that it got the replies
/// given.
pub open spec fn programs_run(b: BuildView, replies: Seq<Reply>) -> Seq<CommandView>
    decreases replies.len(),
{
    if replies.len() == 0 {
        Seq::empty()
    } else {
        programs_run(b, replies.drop_last()) + run_of(build_wants(b, replies))
    }
}

/// Whether the build `b` got each reply but the first for something that it asked
/// for.
pub open spec fn is_build_run(b: BuildView, replies: Seq<Reply>) -> bool {
    forall|n: int|
        1 <= n < replies.len() ==> #[trigger] build_wants(b, replies.take(n)) is Do
}

/// The steps of a build: compile, unpack, link partially, make symbols local where
/// there are any to be made so, link as a shared object except on `amd64`, strip.
pub open spec fn build_steps(b: BuildView) -> Seq<CommandView> {
    let linked = seq![b.cargo(), b.extract(), b.link()];
    let localized = if b.export.flags.len() > 0 {
        linked.push(b.localize())
    } else {
        linked
    };
    let shared = if b.links_directly() {
        localized
    } else {
        localized.push(b.share())
    };
    shared.push(b.strip())
}

/// The part of [`build_steps`] that has been asked for in the phase of `b`.
pub open spec fn steps_so_far(b: BuildView) -> Seq<CommandView> {
    match b.phase {
        Phase::Sysdir | Phase::Tools | Phase::TargetSpec | Phase::Manifest | Phase::TargetDir => {
            Seq::empty()
        },
        Phase::Cargo | Phase::Staticlib | Phase::CleanWork | Phase::WorkDir | Phase::LibraryPath =>
        seq![b.cargo()],
        Phase::Extract | Phase::Objects | Phase::Ldscript => seq![b.cargo(), b.extract()],
        Phase::Link => seq![b.cargo(), b.extract(), b.link()],
        Phase::Export | Phase::Share => {
            let linked = seq![b.cargo(), b.extract(), b.link()];
            let localized = if b.export.flags.len() > 0 {
                linked.push(b.localize())
            } else {
                linked
            };
            if b.phase == Phase::Share {
                localized.push(b.share())
            } else {
                localized
            }
        },
        Phase::Strip | Phase::Copy | Phase::Report => build_steps(b),
    }
}

/// What every build keeps: symbols are only touched behind the partial link, only
/// as the script said, and not at all where all of them are exported.
pub open spec fn build_inv(b: BuildView) -> bool {
    &&& b.export.flags.len() > 0 <==> b.export.stage == ExportStage::Localize
    &&& b.args.export_syms is Yes ==> b.export == new_export()
    &&& b.phase == Phase::Share ==> !b.links_directly()
    &&& b.phase != Phase::Sysdir ==> {
        &&& cpuarch_of(b.args.machine) == Some(b.cpuarch)
        &&& ld_emulation_of(b.args.machine) == Some(b.emulation)
        &&& target_name_of(b.args.machine) == Some(b.target)
    }
    &&& match b.phase {
        Phase::Export | Phase::Share | Phase::Strip | Phase::Copy | Phase::Report => true,
        _ => b.export == new_export(),
    }
}

/// A step that does not fail keeps the invariant and adds at most the program that
/// it wants run to those run so far.
proof fn lemma_build_step(b: BuildView, reply: Reply)
    requires
        build_inv(b),
    ensures
        ({
            let (after, step) = b.step(reply);
            &&& after.args == b.args
            &&& step !is Fail ==> build_inv(after)
            &&& step !is Fail ==> steps_so_far(after) =~= steps_so_far(b) + run_of(step)
            &&& step is Done ==> after.phase == Phase::Report && step->Done_0 == after.out()
        }),
{
}

/// A build that succeeds has run the programs of [`build_steps`], each once and in
/// that order, and has written the module to the place that it returns. They were
/// run for the machine asked for, and the module was linked as a shared object unless
/// that is `amd64`. Where all symbols are exported, it has not touched them.
pub proof fn a_successful_build_ran_every_step(
    args: BuildArgsView,
    manifest_dir: Seq<char>,
    rustflags: Seq<char>,
    replies: Seq<Reply>,
)
    requires
        replies.len() > 0,
        is_build_run(new_build(args, manifest_dir, rustflags), replies),
        build_wants(new_build(args, manifest_dir, rustflags), replies) is Done,
    ensures
        ({
            let b = new_build(args, manifest_dir, rustflags);
            let end = build_after(b, replies);
            &&& end.args == args
            &&& programs_run(b, replies) == build_steps(end)
            &&& build_wants(b, replies) == StepView::Done(end.out())
            &&& args.export_syms is Yes ==> end.export.flags.len() == 0
            &&& ld_emulation_of(args.machine) == Some(end.emulation)
            &&& target_name_of(args.machine) == Some(end.target)
            &&& end.links_directly() <==> args.machine == "amd64"@
        }),
{
    let b = new_build(args, manifest_dir, rustflags);
    lemma_build_run(b, replies);
    reveal_strlit("amd64");
    reveal_strlit("aarch64");
    assert("amd64"@.len() != "aarch64"@.len());
    assert(replies.take(replies.len() as int) =~= replies);
}

/// In a run, the programs run so far are those that the phase says.
proof fn lemma_build_run(b: BuildView, replies: Seq<Reply>)
    requires
        build_inv(b),
        b.phase == Phase::Sysdir,
        is_build_run(b, replies),
    ensures
        build_after(b, replies).args == b.args,
        replies.len() == 0 || build_wants(b, replies) !is Fail ==> {
            &&& build_inv(build_after(b, replies))
            &&& programs_run(b, replies) == steps_so_far(build_after(b, replies))
        },
        replies.len() > 0 && build_wants(b, replies) is Done ==> {
            &&& build_after(b, replies).phase == Phase::Report
            &&& build_wants(b, replies) == StepView::Done(build_after(b, replies).out())
        },
    decreases replies.len(),
{
    if replies.len() > 0 {
        let before = replies.drop_last();
        assert forall|n: int| 1 <= n < before.len() implies #[trigger] build_wants(
            b,
            before.take(n),
        ) is Do by {
            assert(before.take(n) =~= replies.take(n));
        }
        lemma_build_run(b, before);
        if before.len() > 0 {
            assert(before =~= replies.take(before.len() as int));
            assert(build_wants(b, replies.take(before.len() as int)) is Do);
        }
        lemma_build_step(build_after(b, before), replies.last());
    }
}

/// Whether an action changes something on the host, apart from what programs do.
pub open spec fn changes(action: ActionView) -> bool {
    match action {
        ActionView::Exists(_) => false,
        ActionView::Canonicalize(_) => false,
        ActionView::ReadFile(_) => false,
        ActionView::ListDir(_) => false,
        ActionView::FileSize(_) => false,
        ActionView::Run(_) => false,
        ActionView::Probe(_) => false,
        ActionView::Ask(_) => false,
        ActionView::Capture(_) => false,
        ActionView::MakeClient => false,
        ActionView::Get(_) => false,
        ActionView::Receive => false,
        ActionView::Say(_) => false,
        ActionView::Warn(_) => false,
        ActionView::StartVm(_) => false,
        ActionView::SetTimer(_) => false,
        ActionView::TimeLeft => false,
        ActionView::Type(_) => false,
        ActionView::Hear(_) => false,
        ActionView::HasExited => false,
        ActionView::Pause(_) => false,
        ActionView::KillVm => false,
        ActionView::CloseConsole => false,
        ActionView::ReadBytes(_) => false,
        _ => true,
    }
}

/// A build itself changes nothing but its target directory, its working directory
/// under it, the symbol list in there, and the module that it writes.
pub proof fn a_build_changes_only_its_own_files(b: BuildView, reply: Reply)
    ensures
        ({
            let (after, step) = b.step(reply);
            step matches StepView::Do(action) ==> changes(action) ==> {
                ||| action == ActionView::CreateDirs(after.args.target_dir)
                ||| action == ActionView::RemoveDir(after.work_dir())
                ||| action == ActionView::CreateDirs(after.work_dir())
                ||| action matches ActionView::WriteFile { path, .. } && path == export_list_path(
                    after.work_dir(),
                )
                ||| action == (ActionView::Copy { from: after.linked(), to: after.out() })
            }
        }),
{
}

/// The module is only ever written once it has been stripped.
pub proof fn only_a_stripped_module_is_written(b: BuildView, reply: Reply)
    ensures
        b.step(reply).1 matches StepView::Do(ActionView::Copy { .. }) ==> b.phase == Phase::Strip
            && (reply matches Reply::Exit { success, .. } && success),
{
}

/// The program that a build waits for in its phase, if it waits for one.
pub open spec fn awaited_program(b: BuildView) -> Option<Seq<char>> {
    match b.phase {
        Phase::Cargo => Some("cargo"@),
        Phase::Extract => Some(b.tools.llvm_ar),
        Phase::Link => Some(b.tools.rust_lld),
        Phase::Export => if b.export.stage == ExportStage::Localize {
            Some(b.tools.llvm_objcopy)
        } else {
            None
        },
        Phase::Share => Some(b.tools.rust_lld),
        Phase::Strip => Some(b.tools.llvm_objcopy),
        _ => None,
    }
}

/// The program that a step wants run is the one that the build then waits for.
proof fn lemma_awaited(b: BuildView, reply: Reply)
    ensures
        ({
            let (after, step) = b.step(reply);
            step matches StepView::Do(ActionView::Run(c)) ==> awaited_program(after) == Some(
                c.program,
            )
        }),
{
}

/// A build that waits for a program fails when that fails.
proof fn lemma_failure_while_waiting(b: BuildView, status: String)
    requires
        awaited_program(b) is Some,
    ensures
        b.step(Reply::Exit { success: false, status }).1 == StepView::<Seq<char>>::Fail(
            ErrorView::exited(awaited_program(b)->0, status@),
        ),
{
}

/// A program that does not succeed ends the build, with an error that names it.
pub proof fn a_failed_program_ends_the_build(b: BuildView, reply: Reply, status: String)
    ensures
        ({
            let (after, step) = b.step(reply);
            step matches StepView::Do(ActionView::Run(c)) ==> after.step(
                Reply::Exit { success: false, status },
            ).1 == StepView::<Seq<char>>::Fail(ErrorView::exited(c.program, status@))
        }),
{
    lemma_awaited(b, reply);
    let (after, step) = b.step(reply);
    if awaited_program(after) is Some {
        lemma_failure_while_waiting(after, status);
    }
}

} // verus!
