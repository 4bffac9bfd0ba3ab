//! `EXPORT_SYMS`: making the symbols local that a module does not export.

use crate::args::{ExportSyms, ExportSymsView};
use crate::commands::{localize_command, localize_command_of, symbols_command, symbols_command_of};
use crate::error::{quoted_path, quoted_path_text, Error, ErrorView};
use crate::host::{
    bare_ack, bare_ack_error, run_cmd, run_error, Action, ActionView, Reply, Step, StepView,
};
use crate::path::{join, joined_path};
use crate::text::{
    cat2, from_utf8, lines, lines_of, readable, readable_text, texts, utf8_problem, utf8_text,
};
use crate::toolchain::{Toolchain, ToolchainView};
use vstd::prelude::*;

verus! {

/// Whether a line of a symbol list is a comment.
pub open spec fn is_comment(line: Seq<char>) -> bool {
    line.len() > 0 && line[0] == '#'
}

/// Lines without the comments among them, each with a line feed at its end.
pub open spec fn uncommented(lines: Seq<Seq<char>>) -> Seq<char>
    decreases lines.len(),
{
    if lines.len() == 0 {
        Seq::empty()
    } else if is_comment(lines.last()) {
        uncommented(lines.drop_last())
    } else {
        uncommented(lines.drop_last()) + lines.last() + "\n"@
    }
}

/// The symbols of a list file, without its comments.
pub fn strip_comments(text: &str) -> (r: String)
    ensures
        r@ == uncommented(lines_of(text@)),
{
    let all = lines(text);
    let n: usize = all.len();
    let ghost every = texts(all@);
    let mut out = String::new();
    for i in 0..n
        invariant
            n == all@.len(),
            every == texts(all@),
            out@ =~= uncommented(every.take(i as int)),
    {
        assert(every.take(i + 1).drop_last() =~= every.take(i as int));
        assert(every.take(i + 1).last() == all@[i as int]@);
        let line = all[i].as_str();
        if line.is_empty() || line.get_char(0) != '#' {
            out.append(line);
            out.append("\n");
        }
    }
    assert(every.take(n as int) =~= every);
    out
}

/// How far [`apply_export_syms`] has come.
#[derive(Clone, Copy, Debug, PartialEq, Eq, Structural)]
pub enum ExportStage {
    Start,
    /// It asked for the list of symbols.
    ReadList,
    /// It had the list written out for the script.
    WriteList,
    /// It had the script work out what to do.
    Script,
    /// It had that done.
    Localize,
}

/// A symbol table being edited.
#[derive(Debug)]
pub struct Export {
    pub stage: ExportStage,
    /// What the script says to do to the symbols, once it is known.
    pub flags: Vec<String>,
}

/// The contents of an [`Export`].
pub ghost struct ExportView {
    pub stage: ExportStage,
    pub flags: Seq<Seq<char>>,
}

impl View for Export {
    type V = ExportView;

    open spec fn view(&self) -> ExportView {
        ExportView { stage: self.stage, flags: texts(self.flags@) }
    }
}

pub open spec fn new_export() -> ExportView {
    ExportView { stage: ExportStage::Start, flags: Seq::empty() }
}

/// What the editing of an object works on.
pub ghost struct ExportInput {
    pub export_syms: ExportSymsView,
    pub object: Seq<char>,
    pub sysdir: Seq<char>,
    pub tools: ToolchainView,
    pub work_dir: Seq<char>,
}

/// The file that the list of exported symbols is written to.
pub open spec fn export_list_path(work_dir: Seq<char>) -> Seq<char> {
    joined_path(work_dir, "export_syms"@)
}

/// The kernel's script that works out which symbols become local.
pub open spec fn symbol_script(sysdir: Seq<char>) -> Seq<char> {
    joined_path(sysdir, "conf/kmod_syms.awk"@)
}

/// What the script's reply says to do.
pub open spec fn symbol_flags(sysdir: Seq<char>, reply: Reply) -> Result<
    Seq<Seq<char>>,
    ErrorView,
> {
    match reply {
        Reply::Output { success, stdout, stderr } => if !success {
            Err(ErrorView::awk_failed(symbol_script(sysdir), readable_text(stderr@)))
        } else {
            match utf8_text(stdout@) {
                None => Err(
                    ErrorView::not_utf8("kmod_syms.awk output not UTF-8"@, utf8_problem(stdout@)),
                ),
                Some(text) => Ok(lines_of(text)),
            }
        },
        Reply::Failed(cause) => Err(
            ErrorView::failed("running awk -f "@ + quoted_path_text(symbol_script(sysdir)), cause@),
        ),
        _ => Err(ErrorView::unexpected_reply()),
    }
}

/// How [`apply_export_syms`] goes on from `at`.
pub open spec fn export_step(at: ExportView, on: ExportInput, reply: Reply) -> (
    ExportView,
    StepView<()>,
) {
    let list = export_list_path(on.work_dir);
    match at.stage {
        ExportStage::Start => match on.export_syms {
            ExportSymsView::Yes => (at, StepView::Done(())),
            ExportSymsView::No => (
                ExportView { stage: ExportStage::WriteList, ..at },
                StepView::Do(ActionView::WriteFile { path: list, contents: Seq::empty() }),
            ),
            ExportSymsView::List(path) => (
                ExportView { stage: ExportStage::ReadList, ..at },
                StepView::Do(ActionView::ReadFile(path)),
            ),
        },
        ExportStage::ReadList => match reply {
            Reply::Text(text) => (
                ExportView { stage: ExportStage::WriteList, ..at },
                StepView::Do(
                    ActionView::WriteFile { path: list, contents: uncommented(lines_of(text@)) },
                ),
            ),
            Reply::Failed(cause) => match on.export_syms {
                ExportSymsView::List(path) => (
                    at,
                    StepView::Fail(
                        ErrorView::failed(
                            "reading export-syms list "@ + quoted_path_text(path),
                            cause@,
                        ),
                    ),
                ),
                _ => (at, StepView::Fail(ErrorView::unexpected_reply())),
            },
            _ => (at, StepView::Fail(ErrorView::unexpected_reply())),
        },
        ExportStage::WriteList => match bare_ack_error(reply) {
            Some(e) => (at, StepView::Fail(e)),
            None => (
                ExportView { stage: ExportStage::Script, ..at },
                StepView::Do(
                    ActionView::Capture(
                        symbols_command_of(on.tools, symbol_script(on.sysdir), on.object, list),
                    ),
                ),
            ),
        },
        ExportStage::Script => match symbol_flags(on.sysdir, reply) {
            Err(e) => (at, StepView::Fail(e)),
            Ok(flags) => if flags.len() == 0 {
                (at, StepView::Done(()))
            } else {
                (
                    ExportView { stage: ExportStage::Localize, flags },
                    StepView::Do(
                        ActionView::Run(localize_command_of(on.tools, flags, on.object)),
                    ),
                )
            },
        },
        ExportStage::Localize => match run_error(on.tools.llvm_objcopy, reply) {
            Some(e) => (at, StepView::Fail(e)),
            None => (at, StepView::Done(())),
        },
    }
}

impl Export {
    /// An editing that has not begun.
    pub fn new() -> (r: Export)
        ensures
            r@ == new_export(),
    {
        let flags: Vec<String> = Vec::new();
        assert(texts(flags@) =~= Seq::<Seq<char>>::empty());
        Export { stage: ExportStage::Start, flags }
    }
}

/// What the script's reply says to do.
fn flags_from_script(sysdir: &str, reply: &Reply) -> (r: Result<Vec<String>, Error>)
    ensures
        match r {
            Ok(flags) => symbol_flags(sysdir@, *reply) == Ok::<Seq<Seq<char>>, ErrorView>(
                texts(flags@),
            ),
            Err(e) => symbol_flags(sysdir@, *reply) == Err::<Seq<Seq<char>>, ErrorView>(e@),
        },
{
    let script = join(sysdir, "conf/kmod_syms.awk");
    match reply {
        Reply::Output { success, stdout, stderr } => {
            if !*success {
                let said = readable(stderr);
                return Err(Error::awk_failed(script.as_str(), said.as_str()));
            }
            match from_utf8(stdout) {
                Err(problem) => Err(
                    Error::not_utf8("kmod_syms.awk output not UTF-8", problem.as_str()),
                ),
                Ok(text) => Ok(lines(text.as_str())),
            }
        },
        Reply::Failed(cause) => Err(
            Error::failed(
                cat2("running awk -f ", quoted_path(script.as_str()).as_str()).as_str(),
                cause.as_str(),
            ),
        ),
        _ => Err(Error::unexpected_reply()),
    }
}

/// Makes every global symbol of `object` local that is not exported, by the
/// kernel's own script. Resumable.
pub fn apply_export_syms(
    at: &mut Export,
    export_syms: &ExportSyms,
    object: &str,
    sysdir: &str,
    tools: &Toolchain,
    work_dir: &str,
    reply: &Reply,
) -> (r: Step<()>)
    ensures
        (final(at)@, r@) == export_step(
            old(at)@,
            ExportInput {
                export_syms: export_syms@,
                object: object@,
                sysdir: sysdir@,
                tools: tools@,
                work_dir: work_dir@,
            },
            *reply,
        ),
{
    let list = join(work_dir, "export_syms");
    match at.stage {
        ExportStage::Start => match export_syms {
            ExportSyms::Yes => Step::Done(()),
            ExportSyms::No => {
                at.stage = ExportStage::WriteList;
                Step::Do(Action::WriteFile { path: list, contents: String::new() })
            },
            ExportSyms::List(path) => {
                at.stage = ExportStage::ReadList;
                Step::Do(Action::ReadFile(path.clone()))
            },
        },
        ExportStage::ReadList => match reply {
            Reply::Text(text) => {
                at.stage = ExportStage::WriteList;
                Step::Do(
                    Action::WriteFile { path: list, contents: strip_comments(text.as_str()) },
                )
            },
            Reply::Failed(cause) => match export_syms {
                ExportSyms::List(path) => Step::Fail(
                    Error::failed(
                        cat2(
                            "reading export-syms list ",
                            quoted_path(path.as_str()).as_str(),
                        ).as_str(),
                        cause.as_str(),
                    ),
                ),
                _ => Step::Fail(Error::unexpected_reply()),
            },
            _ => Step::Fail(Error::unexpected_reply()),
        },
        ExportStage::WriteList => match bare_ack(reply) {
            Err(e) => Step::Fail(e),
            Ok(_) => {
                at.stage = ExportStage::Script;
                let script = join(sysdir, "conf/kmod_syms.awk");
                Step::Do(
                    Action::Capture(
                        symbols_command(tools, script.as_str(), object, list.as_str()),
                    ),
                )
            },
        },
        ExportStage::Script => match flags_from_script(sysdir, reply) {
            Err(e) => Step::Fail(e),
            Ok(flags) => {
                if flags.len() == 0 {
                    return Step::Done(());
                }
                let run = localize_command(tools, &flags, object);
                at.stage = ExportStage::Localize;
                at.flags = flags;
                Step::Do(Action::Run(run))
            },
        },
        ExportStage::Localize => match run_cmd(tools.llvm_objcopy.as_str(), reply) {
            Err(e) => Step::Fail(e),
            Ok(_) => Step::Done(()),
        },
    }
}

} // verus!
