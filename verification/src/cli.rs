//! The command line as a whole: which subcommand it names, and what holds of the
//! subcommands' flags.

use crate::args::{
    asks_for_help, default_args, flag_effect, flag_of, parse_args as parse_build_args, parse_build,
    BuildArgs, BuildArgsView, Flag, FlagView, Parsed, ParsedView,
};
use crate::error::{Error, ErrorKind, ErrorView};
use crate::ktest_args::{
    default_ktest, parse_args as parse_ktest_args, parse_ktest, vm_flag_of, KtestArgs,
    KtestArgsView,
};
use crate::text::{same, texts};
use vstd::prelude::*;

verus! {

/// What the tool is to do.
#[derive(Debug)]
pub enum Invocation {
    /// Print the help text of `build`.
    BuildHelp,
    /// Print the help text of `ktest`.
    KtestHelp,
    /// Build a module.
    Build(BuildArgs),
    /// Build a module and test it in a VM.
    Ktest(KtestArgs),
}

/// What becomes of the tool's arguments.
pub ghost enum InvocationView {
    BuildHelp,
    KtestHelp,
    Build(BuildArgsView),
    Ktest(KtestArgsView),
    Bad(ErrorView),
}

/// The contents of the dispatcher's result.
pub open spec fn invocation_view(r: Result<Invocation, Error>) -> InvocationView {
    match r {
        Ok(Invocation::BuildHelp) => InvocationView::BuildHelp,
        Ok(Invocation::KtestHelp) => InvocationView::KtestHelp,
        Ok(Invocation::Build(a)) => InvocationView::Build(a@),
        Ok(Invocation::Ktest(a)) => InvocationView::Ktest(a@),
        Err(e) => InvocationView::Bad(e@),
    }
}

/// What the arguments of `build` amount to.
pub open spec fn invoke_build(args: Seq<Seq<char>>) -> InvocationView {
    match parse_build(args, default_args("amd64"@), false) {
        ParsedView::Help => InvocationView::BuildHelp,
        ParsedView::Args(a) => InvocationView::Build(a),
        ParsedView::Bad(e) => InvocationView::Bad(e),
    }
}

/// What the arguments of `ktest` amount to.
pub open spec fn invoke_ktest(args: Seq<Seq<char>>) -> InvocationView {
    match parse_ktest(args, default_ktest(default_args("arm64"@)), false) {
        ParsedView::Help => InvocationView::KtestHelp,
        ParsedView::Args(a) => InvocationView::Ktest(a),
        ParsedView::Bad(e) => InvocationView::Bad(e),
    }
}

/// The arguments without the `kbuild` that cargo puts in front when it runs the
/// tool as its subcommand.
pub open spec fn own_arguments(raw: Seq<Seq<char>>) -> Seq<Seq<char>> {
    if raw.len() > 0 && raw[0] == "kbuild"@ {
        raw.drop_first()
    } else {
        raw
    }
}

/// What the tool's arguments amount to. Without the name of a subcommand they are
/// those of `build`.
pub open spec fn invocation_of(raw: Seq<Seq<char>>) -> InvocationView {
    let args = own_arguments(raw);
    if args.len() > 0 && asks_for_help(args[0]) {
        InvocationView::BuildHelp
    } else if args.len() > 0 && args[0] == "ktest"@ {
        invoke_ktest(args.drop_first())
    } else if args.len() > 0 && args[0] == "build"@ {
        invoke_build(args.drop_first())
    } else {
        invoke_build(args)
    }
}

/// Reads the arguments of `build`.
fn build_invocation(args: Vec<String>) -> (r: Result<Invocation, Error>)
    ensures
        invocation_view(r) == invoke_build(texts(args@)),
{
    match parse_build_args(args, "amd64") {
        Ok(Parsed::Help) => Ok(Invocation::BuildHelp),
        Ok(Parsed::Args(a)) => Ok(Invocation::Build(a)),
        Err(e) => Err(e),
    }
}

/// Reads the tool's arguments, its own name left out.
pub fn parse_command_line(raw: Vec<String>) -> (r: Result<Invocation, Error>)
    ensures
        invocation_view(r) == invocation_of(texts(raw@)),
{
    let mut args = raw;
    if args.len() > 0 && same(args[0].as_str(), "kbuild") {
        let _ = args.remove(0);
    }
    assert(texts(args@) =~= own_arguments(texts(raw@)));
    if args.len() == 0 {
        return build_invocation(args);
    }
    if same(args[0].as_str(), "-h") || same(args[0].as_str(), "--help") {
        return Ok(Invocation::BuildHelp);
    }
    let ghost own = texts(args@);
    if same(args[0].as_str(), "ktest") {
        let _ = args.remove(0);
        assert(texts(args@) =~= own.drop_first());
        match parse_ktest_args(args) {
            Ok(Parsed::Help) => Ok(Invocation::KtestHelp),
            Ok(Parsed::Args(a)) => Ok(Invocation::Ktest(a)),
            Err(e) => Err(e),
        }
    } else if same(args[0].as_str(), "build") {
        let _ = args.remove(0);
        assert(texts(args@) =~= own.drop_first());
        build_invocation(args)
    } else {
        build_invocation(args)
    }
}

/// Run by cargo, which adds its own name for the tool in front, or run directly:
/// the tool does the same.
pub proof fn cargo_prefix_changes_nothing(args: Seq<Seq<char>>)
    requires
        args.len() > 0 ==> args[0] != "kbuild"@,
    ensures
        invocation_of(seq!["kbuild"@] + args) == invocation_of(args),
{
    assert((seq!["kbuild"@] + args).drop_first() =~= args);
}

/// `build` may be left out in front of arguments that name no subcommand.
pub proof fn build_is_the_default(args: Seq<Seq<char>>)
    requires
        args.len() > 0 ==> args[0] != "kbuild"@ && args[0] != "ktest"@ && args[0] != "build"@,
    ensures
        invocation_of(seq!["build"@] + args) == invocation_of(args),
{
    reveal_strlit("build");
    reveal_strlit("kbuild");
    reveal_strlit("ktest");
    reveal_strlit("-h");
    reveal_strlit("--help");
    assert("build"@[0] != "kbuild"@[0]);
    assert("build"@[0] != "ktest"@[0]);
    assert("build"@[0] != "-h"@[0]);
    assert("build"@[0] != "--help"@[0]);
    let all = seq!["build"@] + args;
    assert(all.drop_first() =~= args);
    if args.len() > 0 && asks_for_help(args[0]) {
        lemma_help_is_no_flag(args[0]);
        assert(parse_build(args, default_args("amd64"@), false) is Help);
    }
}

/// A request for help is no flag of either subcommand.
pub proof fn lemma_help_is_no_flag(argument: Seq<char>)
    requires
        asks_for_help(argument),
    ensures
        flag_of(argument) is None,
        vm_flag_of(argument) is None,
{
    reveal_strlit("-h");
    reveal_strlit("--help");
    reveal_strlit("--sysdir");
    reveal_strlit("-s");
    reveal_strlit("--machine");
    reveal_strlit("-m");
    reveal_strlit("--manifest-path");
    reveal_strlit("-p");
    reveal_strlit("--debug");
    reveal_strlit("--release");
    reveal_strlit("-o");
    reveal_strlit("--out");
    reveal_strlit("--target-dir");
    reveal_strlit("--export-syms");
    reveal_strlit("--");
    reveal_strlit("--image-url");
    reveal_strlit("--cache-dir");
    reveal_strlit("--memory");
    reveal_strlit("--smp");
    reveal_strlit("--timeout");
    reveal_strlit("--qemu");
    reveal_strlit("--fresh");
    reveal_strlit("--keep");
    if argument == "-h"@ {
        assert(argument.len() == 2 && argument[1] == 'h');
    } else {
        assert(argument.len() == 6 && argument[2] == 'h');
    }
}

/// Without `--sysdir` or `-s` among the arguments no build is ever started.
pub proof fn no_build_without_sysdir(rest: Seq<Seq<char>>, args: BuildArgsView)
    requires
        forall|i: int| 0 <= i < rest.len() ==> flag_of(#[trigger] rest[i]) != Some(Flag::Sysdir),
    ensures
        parse_build(rest, args, false) !is Args,
    decreases rest.len(),
{
    if rest.len() > 0 {
        let after = rest.drop_first();
        match flag_effect(rest[0], after, args, false) {
            FlagView::Taken { args: taken, sysdir_set, rest: left } => {
                assert(flag_of(rest[0]) != Some(Flag::Sysdir));
                assert forall|i: int| 0 <= i < left.len() implies flag_of(#[trigger] left[i])
                    != Some(Flag::Sysdir) by {
                    if left == after {
                        assert(left[i] == rest[i + 1]);
                    } else {
                        assert(left[i] == rest[i + 2]);
                    }
                }
                no_build_without_sysdir(left, taken);
            },
            _ => {},
        }
    }
}

/// Everything behind `--` goes to cargo as it stands, flags included.
pub proof fn separator_passes_the_rest_through(rest: Seq<Seq<char>>, args: BuildArgsView)
    ensures
        parse_build(seq!["--"@] + rest, args, true) == ParsedView::Args(
            BuildArgsView { extra_cargo_args: args.extra_cargo_args + rest, ..args },
        ),
{
    let all = seq!["--"@] + rest;
    assert(all.drop_first() =~= rest);
    lemma_separator();
    reveal_with_fuel(parse_build, 2);
}

/// `--` is the separator and nothing else.
pub proof fn lemma_separator()
    ensures
        flag_of("--"@) == Some(Flag::Separator),
{
    reveal_strlit("--sysdir");
    reveal_strlit("-s");
    reveal_strlit("--machine");
    reveal_strlit("-m");
    reveal_strlit("--manifest-path");
    reveal_strlit("-p");
    reveal_strlit("--debug");
    reveal_strlit("--release");
    reveal_strlit("-o");
    reveal_strlit("--out");
    reveal_strlit("--target-dir");
    reveal_strlit("--export-syms");
    reveal_strlit("--");
    assert("--"@.len() == 2 && "--"@[1] == '-');
}

/// `ktest` takes every option of `build`, to the same effect: where `build` finds
/// no argument that it does not know, `ktest` reads the same build out of the
/// command line, and rejects it for the same reason.
pub proof fn ktest_takes_the_options_of_build(
    rest: Seq<Seq<char>>,
    args: KtestArgsView,
    sysdir_set: bool,
)
    ensures
        match parse_build(rest, args.build, sysdir_set) {
            ParsedView::Args(b) => parse_ktest(rest, args, sysdir_set) == ParsedView::Args(
                KtestArgsView { build: b, ..args },
            ),
            ParsedView::Help => parse_ktest(rest, args, sysdir_set) is Help,
            ParsedView::Bad(e) => e.kind != ErrorKind::Unrecognized ==> parse_ktest(
                rest,
                args,
                sysdir_set,
            ) == ParsedView::<KtestArgsView>::Bad(e),
        },
    decreases rest.len(),
{
    if rest.len() > 0 {
        match flag_effect(rest[0], rest.drop_first(), args.build, sysdir_set) {
            FlagView::Taken { args: build, sysdir_set, rest: left } => {
                ktest_takes_the_options_of_build(
                    left,
                    KtestArgsView { build, ..args },
                    sysdir_set,
                );
            },
            FlagView::Missing(_) => {},
            FlagView::Other => {
                if asks_for_help(rest[0]) {
                    lemma_help_is_no_flag(rest[0]);
                }
            },
        }
    }
}

} // verus!
