//! What holds of the editing of a module's symbols.

use crate::args::ExportSymsView;
use crate::export::{
    export_step, new_export, symbol_flags, uncommented, ExportInput, ExportStage,
    ExportView,
};
use crate::host::{ActionView, Reply, StepView};
use crate::path_laws::{a_relative_path_goes_under_its_base, under};
use crate::text::lines_of;
use crate::text_laws::{is_line, no_line_is_left_out, written, written_lines_are_read_back};
use vstd::prelude::*;
use vstd::utf8::{encode_utf8, encode_utf8_decode_utf8, encode_utf8_valid_utf8};

verus! {

/// A reply that is what the script printed when it succeeded.
pub open spec fn printed(reply: Reply, text: Seq<char>) -> bool {
    reply matches Reply::Output { success, stdout, .. } && success && stdout@ == encode_utf8(text)
}

/// Nothing that the script prints is left out: where each line of its output ends in a
/// line feed and none in a carriage return, the flags make up the output again.
pub proof fn every_line_of_the_script_is_a_flag(
    sysdir: Seq<char>,
    reply: Reply,
    text: Seq<char>,
)
    requires
        printed(reply, text),
        !text.contains('\r'),
        text.len() > 0 ==> text.last() == '\n',
    ensures
        symbol_flags(sysdir, reply) matches Ok(flags) && written(flags) == text,
{
    encode_utf8_valid_utf8(text);
    encode_utf8_decode_utf8(text);
    no_line_is_left_out(text);
}

/// What the script prints line by line is handed to `llvm-objcopy` line by line, and then
/// the object; where it prints nothing, the object stays as it is.
pub proof fn what_the_script_prints_is_done_to_the_object(
    at: ExportView,
    on: ExportInput,
    reply: Reply,
    flags: Seq<Seq<char>>,
)
    requires
        at.stage == ExportStage::Script,
        printed(reply, written(flags)),
        forall|i: int| 0 <= i < flags.len() ==> is_line(#[trigger] flags[i]),
    ensures
        flags.len() == 0 ==> export_step(at, on, reply).1 == StepView::Done(()),
        flags.len() > 0 ==> {
            &&& export_step(at, on, reply).0.flags == flags
            &&& export_step(at, on, reply).1 matches StepView::Do(ActionView::Run(c))
            &&& c.program == on.tools.llvm_objcopy
            &&& c.args == flags.push(on.object)
        },
{
    encode_utf8_valid_utf8(written(flags));
    encode_utf8_decode_utf8(written(flags));
    written_lines_are_read_back(flags);
    if flags.len() > 0 {
        assert(export_step(at, on, reply).1->Do_0->Run_0.args =~= flags.push(on.object));
    }
}

/// Nothing that the script prints is lost on its way to `llvm-objcopy`: the arguments before
/// the object, each with a line feed at its end, are the script's whole output.
pub proof fn nothing_that_the_script_prints_is_lost(
    at: ExportView,
    on: ExportInput,
    reply: Reply,
    text: Seq<char>,
)
    requires
        at.stage == ExportStage::Script,
        printed(reply, text),
        !text.contains('\r'),
        text.len() > 0 ==> text.last() == '\n',
    ensures
        text.len() == 0 ==> export_step(at, on, reply).1 == StepView::Done(()),
        text.len() > 0 ==> {
            &&& export_step(at, on, reply).1 matches StepView::Do(ActionView::Run(c))
            &&& c.program == on.tools.llvm_objcopy
            &&& written(c.args.drop_last()) == text
            &&& c.args.last() == on.object
        },
{
    every_line_of_the_script_is_a_flag(on.sysdir, reply, text);
    let flags = symbol_flags(on.sysdir, reply)->Ok_0;
    if text.len() == 0 {
        if flags.len() > 0 {
            assert(written(flags).len() > 0);
        }
    } else {
        assert(flags.push(on.object).drop_last() =~= flags);
    }
}

/// What is left of lines without comments is the other lines, in their order, each with a
/// line feed at its end.
pub proof fn the_other_lines_are_written_out(lines: Seq<Seq<char>>)
    ensures
        uncommented(lines) == written(lines.filter(|l: Seq<char>| !(l.len() > 0 && l[0] == '#'))),
    decreases lines.len(),
{
    reveal(Seq::filter);
    reveal_strlit("\n");
    assert("\n"@ =~= seq!['\n']);
    let keep = |l: Seq<char>| !(l.len() > 0 && l[0] == '#');
    if lines.len() > 0 {
        let before = lines.drop_last();
        the_other_lines_are_written_out(before);
        if keep(lines.last()) {
            lemma_written_push(before.filter(keep), lines.last());
            assert(lines.filter(keep) =~= before.filter(keep).push(lines.last()));
        } else {
            assert(lines.filter(keep) =~= before.filter(keep));
        }
    }
}

/// One more line is written behind the others.
pub proof fn lemma_written_push(lines: Seq<Seq<char>>, line: Seq<char>)
    ensures
        written(lines.push(line)) == written(lines) + line + seq!['\n'],
    decreases lines.len(),
{
    let more = lines.push(line);
    if lines.len() == 0 {
        assert(more.drop_first() =~= Seq::empty());
        assert(written(more.drop_first()) =~= Seq::<char>::empty());
        assert(written(more) =~= written(lines) + line + seq!['\n']);
    } else {
        let rest = lines.drop_first();
        lemma_written_push(rest, line);
        assert(more.drop_first() =~= rest.push(line));
        assert(more[0] == lines[0]);
        assert(written(more) =~= written(lines) + line + seq!['\n']);
    }
}

/// The list that the script gets has every line of the list that was given but those that
/// begin with `#`, in the same order, and nothing else.
pub proof fn only_comments_are_dropped_from_a_list(lines: Seq<Seq<char>>)
    requires
        forall|i: int| 0 <= i < lines.len() ==> is_line(#[trigger] lines[i]),
    ensures
        lines_of(uncommented(lines_of(written(lines)))) == lines.filter(
            |l: Seq<char>| !(l.len() > 0 && l[0] == '#'),
        ),
{
    let keep = |l: Seq<char>| !(l.len() > 0 && l[0] == '#');
    let kept = lines.filter(keep);
    written_lines_are_read_back(lines);
    the_other_lines_are_written_out(lines);
    assert forall|i: int| 0 <= i < kept.len() implies is_line(#[trigger] kept[i]) by {
        lemma_filter_member(lines, keep, i);
    }
    written_lines_are_read_back(kept);
}

proof fn lemma_filter_member(s: Seq<Seq<char>>, keep: spec_fn(Seq<char>) -> bool, i: int)
    requires
        0 <= i < s.filter(keep).len(),
    ensures
        exists|j: int| 0 <= j < s.len() && s[j] == s.filter(keep)[i],
    decreases s.len(),
{
    reveal(Seq::filter);
    if s.len() > 0 {
        let before = s.drop_last();
        if i < before.filter(keep).len() {
            lemma_filter_member(before, keep, i);
            let j = choose|j: int| 0 <= j < before.len() && before[j] == before.filter(keep)[i];
            assert(s[j] == before[j]);
        } else {
            assert(s[s.len() - 1] == s.filter(keep)[i]);
        }
    }
}

/// How the editing starts: where all symbols are exported it is over at once; where none
/// is, the script gets an empty list; where a list is given, that is read.
pub proof fn what_is_exported_decides_the_list(on: ExportInput, reply: Reply)
    ensures
        ({
            let (after, step) = export_step(new_export(), on, reply);
            &&& on.export_syms is Yes ==> step == StepView::Done(()) && after == new_export()
            &&& on.export_syms is No ==> after.stage == ExportStage::WriteList && step
                == StepView::<()>::Do(
                ActionView::WriteFile {
                    path: under(on.work_dir, "export_syms"@),
                    contents: Seq::empty(),
                },
            )
            &&& on.export_syms matches ExportSymsView::List(path) ==> after.stage
                == ExportStage::ReadList && step == StepView::<()>::Do(ActionView::ReadFile(path))
        }),
{
    reveal_strlit("export_syms");
    a_relative_path_goes_under_its_base(on.work_dir, "export_syms"@);
}

/// How the editing goes on: the list that was read is written out for the script, the
/// script is then run on the object and that list, and the work ends when `llvm-objcopy`
/// has succeeded. A reply of another kind or a failure ends it with an error.
pub proof fn the_editing_goes_step_by_step(at: ExportView, on: ExportInput, reply: Reply)
    ensures
        ({
            let (after, step) = export_step(at, on, reply);
            let list = under(on.work_dir, "export_syms"@);
            &&& at.stage == ExportStage::ReadList ==> (reply matches Reply::Text(text) ==> {
                &&& after == ExportView { stage: ExportStage::WriteList, ..at }
                &&& step == StepView::<()>::Do(
                    ActionView::WriteFile { path: list, contents: uncommented(lines_of(text@)) },
                )
            })
            &&& at.stage == ExportStage::ReadList && reply !is Text ==> step is Fail
            &&& at.stage == ExportStage::WriteList && reply is Done ==> {
                &&& after == ExportView { stage: ExportStage::Script, ..at }
                &&& step matches StepView::Do(ActionView::Capture(c))
                &&& c.program == "awk"@
                &&& c.args == seq![
                    "-f"@,
                    under(on.sysdir, "conf/kmod_syms.awk"@),
                    on.object,
                    list,
                ]
                &&& c.envs == seq![("NM"@, on.tools.llvm_nm)]
            }
            &&& at.stage == ExportStage::WriteList && reply !is Done ==> step is Fail
            &&& at.stage == ExportStage::Script && reply !is Output ==> step is Fail
            &&& at.stage == ExportStage::Localize ==> after == at && (step == StepView::Done(())
                <==> (reply matches Reply::Exit { success, .. } && success)) && step !is Do
        }),
{
    reveal_strlit("export_syms");
    reveal_strlit("conf/kmod_syms.awk");
    a_relative_path_goes_under_its_base(on.work_dir, "export_syms"@);
    a_relative_path_goes_under_its_base(on.sysdir, "conf/kmod_syms.awk"@);
}

} // verus!
