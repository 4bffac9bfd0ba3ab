//! What the contracts speak of when they speak of the contents of a value: nothing in it is
//! left out.

use crate::args::{BuildArgs, ExportSyms, ExportSymsView};
use crate::console::{Wait, WaitView};
use crate::error::Error;
use crate::host::{env_texts, error_of, Action, ActionView, Command, Step, StepView};
use crate::ktest::Surroundings;
use crate::ktest_args::KtestArgs;
use crate::qemu::Firmware;
use crate::session::{Directive, DirectiveView};
use crate::text::{opt_text, texts};
use crate::toolchain::Toolchain;
use vstd::prelude::*;

verus! {

/// The contents of a list are those of its entries, each in its place.
pub proof fn a_list_has_the_contents_of_its_entries(
    list: Seq<String>,
    envs: Seq<(String, String)>,
    text: String,
)
    ensures
        texts(list).len() == list.len(),
        forall|i: int| 0 <= i < list.len() ==> #[trigger] texts(list)[i] == list[i]@,
        env_texts(envs).len() == envs.len(),
        forall|i: int|
            0 <= i < envs.len() ==> #[trigger] env_texts(envs)[i] == (envs[i].0@, envs[i].1@),
        opt_text(Some(text)) == Some(text@),
        opt_text(None) is None,
{
}

/// A command is its program, its arguments, its variables and its directory.
pub proof fn a_command_has_all_of_its_parts(c: Command)
    ensures
        c@.program == c.program@,
        c@.args.len() == c.args@.len(),
        forall|i: int| 0 <= i < c.args@.len() ==> #[trigger] c@.args[i] == c.args@[i]@,
        c@.envs.len() == c.envs@.len(),
        forall|i: int|
            0 <= i < c.envs@.len() ==> #[trigger] c@.envs[i] == (c.envs@[i].0@, c.envs@[i].1@),
        c.dir is None ==> c@.dir is None,
        c.dir matches Some(dir) ==> c@.dir == Some(dir@),
{
}

/// An action is what it is called, on what it names.
pub proof fn an_action_is_what_it_is_called(p: String, q: String, c: Command, n: u64, ns: u128)
    ensures
        Action::Exists(p)@ == ActionView::Exists(p@),
        Action::Canonicalize(p)@ == ActionView::Canonicalize(p@),
        Action::ReadFile(p)@ == ActionView::ReadFile(p@),
        Action::CreateDirs(p)@ == ActionView::CreateDirs(p@),
        Action::RemoveDir(p)@ == ActionView::RemoveDir(p@),
        Action::RemoveFile(p)@ == ActionView::RemoveFile(p@),
        Action::ListDir(p)@ == ActionView::ListDir(p@),
        Action::FileSize(p)@ == ActionView::FileSize(p@),
        Action::CreateFile(p)@ == ActionView::CreateFile(p@),
        Action::Get(p)@ == ActionView::Get(p@),
        Action::Append(p)@ == ActionView::Append(p@),
        Action::Say(p)@ == ActionView::Say(p@),
        Action::Warn(p)@ == ActionView::Warn(p@),
        Action::OpenConsole(p)@ == ActionView::OpenConsole(p@),
        Action::Type(p)@ == ActionView::Type(p@),
        Action::ReadBytes(p)@ == ActionView::ReadBytes(p@),
        Action::Run(c)@ == ActionView::Run(c@),
        Action::Probe(c)@ == ActionView::Probe(c@),
        Action::Ask(c)@ == ActionView::Ask(c@),
        Action::Capture(c)@ == ActionView::Capture(c@),
        Action::StartVm(c)@ == ActionView::StartVm(c@),
        Action::MakeClient@ == ActionView::MakeClient,
        Action::Receive@ == ActionView::Receive,
        Action::TimeLeft@ == ActionView::TimeLeft,
        Action::HasExited@ == ActionView::HasExited,
        Action::KillVm@ == ActionView::KillVm,
        Action::CloseConsole@ == ActionView::CloseConsole,
        (Action::WriteFile { path: p, contents: q })@ == (ActionView::WriteFile {
            path: p@,
            contents: q@,
        }),
        (Action::Copy { from: p, to: q })@ == (ActionView::Copy { from: p@, to: q@ }),
        (Action::Rename { from: p, to: q })@ == (ActionView::Rename { from: p@, to: q@ }),
        (Action::Resize { path: p, size: n })@ == (ActionView::Resize { path: p@, size: n }),
        (Action::RunInto { command: c, path: p })@ == (ActionView::RunInto {
            command: c@,
            path: p@,
        }),
        Action::SetTimer(n)@ == ActionView::SetTimer(n),
        Action::Pause(n)@ == ActionView::Pause(n),
        Action::Hear(ns)@ == ActionView::Hear(ns),
{
}

/// A step wants an action, returns a value or fails with an error.
pub proof fn a_step_is_what_it_is_called<T: View>(a: Action, t: T, e: Error)
    ensures
        Step::<T>::Do(a)@ == StepView::<T::V>::Do(a@),
        Step::<T>::Done(t)@ == StepView::<T::V>::Done(t@),
        Step::<T>::Fail(e)@ == StepView::<T::V>::Fail(e@),
        e@.kind == e.kind,
        e@.message == e.message@,
        e@.causes == texts(e.causes@),
        error_of(Ok(())) is None,
        error_of(Err(e)) == Some(e@),
{
}

/// What was asked for has all of its parts.
pub proof fn what_is_asked_for_has_all_of_its_parts(
    b: BuildArgs,
    k: KtestArgs,
    path: String,
    s: Surroundings,
)
    ensures
        b@.sysdir == b.sysdir@,
        b@.machine == b.machine@,
        b@.manifest_path == b.manifest_path@,
        b@.release == b.release,
        b@.out == opt_text(b.out),
        b@.export_syms == b.export_syms@,
        b@.target_dir == b.target_dir@,
        b@.extra_cargo_args == texts(b.extra_cargo_args@),
        ExportSyms::No@ == ExportSymsView::No,
        ExportSyms::Yes@ == ExportSymsView::Yes,
        ExportSyms::List(path)@ == ExportSymsView::List(path@),
        k@.build == k.build@,
        k@.image_url == opt_text(k.image_url),
        k@.cache_dir == opt_text(k.cache_dir),
        k@.memory == k.memory@,
        k@.smp == k.smp@,
        k@.step_timeout == k.step_timeout,
        k@.qemu_bin == opt_text(k.qemu_bin),
        k@.fresh == k.fresh,
        k@.keep == k.keep,
        s@.manifest_dir == s.manifest_dir@,
        s@.rustflags == s.rustflags@,
        s@.xdg_cache_home == opt_text(s.xdg_cache_home),
        s@.home == opt_text(s.home),
        s@.temp_dir == s.temp_dir@,
        s@.arch == s.arch@,
{
}

/// What was found has all of its parts, and what a session wants is what it is called.
pub proof fn what_is_found_has_all_of_its_parts(
    t: Toolchain,
    f: Firmware,
    line: String,
    ns: u128,
    e: Error,
)
    ensures
        t@.rust_lld == t.rust_lld@,
        t@.llvm_ar == t.llvm_ar@,
        t@.llvm_nm == t.llvm_nm@,
        t@.llvm_objcopy == t.llvm_objcopy@,
        f@.code == f.code@,
        f@.vars == f.vars@,
        Directive::Send(line)@ == DirectiveView::Send(line@),
        Directive::Listen(ns)@ == DirectiveView::Listen(ns),
        Directive::Finish(Ok(()))@ == DirectiveView::Finish(None),
        Directive::Finish(Err(e))@ == DirectiveView::Finish(Some(e@)),
        Wait::Matched@ == WaitView::Matched,
        Wait::Listen(ns)@ == WaitView::Listen(ns),
        Wait::Expired(e)@ == WaitView::Expired(e@),
{
}

} // verus!
