//! What the arguments of the command line mean.

use crate::args::{
    asks_for_help, default_args, flag_of, parse_build, BuildArgsView, ExportSymsView, Flag, ParsedView,
};
use crate::cli::{invocation_of, InvocationView};
use crate::error::ErrorView;
use crate::ktest_args::{default_ktest, parse_ktest, vm_flag_of, KtestArgsView, VmFlag};
use crate::path_laws::{a_relative_path_goes_under_its_base, under};
use crate::text::{decimal, number_of, number_problem};
use crate::text_laws::written_numbers_are_read_back;
use vstd::prelude::*;

verus! {

/// What is exported where `--export-syms` has the value `v`: everything, nothing, or what
/// the file of that name lists.
pub open spec fn exported(v: Seq<char>) -> ExportSymsView {
    if v == "YES"@ || v == "yes"@ {
        ExportSymsView::Yes
    } else if v == "NO"@ || v == "no"@ {
        ExportSymsView::No
    } else {
        ExportSymsView::List(v)
    }
}

/// Whether an argument is a flag of `build`.
pub open spec fn is_build_flag(a: Seq<char>) -> bool {
    ||| a == "--sysdir"@
    ||| a == "-s"@
    ||| a == "--machine"@
    ||| a == "-m"@
    ||| a == "--manifest-path"@
    ||| a == "-p"@
    ||| a == "--debug"@
    ||| a == "--release"@
    ||| a == "--out"@
    ||| a == "-o"@
    ||| a == "--target-dir"@
    ||| a == "--export-syms"@
    ||| a == "--"@
}

/// Whether an argument is a flag of `ktest` alone.
pub open spec fn is_vm_flag(a: Seq<char>) -> bool {
    ||| a == "--image-url"@
    ||| a == "--cache-dir"@
    ||| a == "--memory"@
    ||| a == "--smp"@
    ||| a == "--timeout"@
    ||| a == "--qemu"@
    ||| a == "--fresh"@
    ||| a == "--keep"@
}

/// What the flags are, each told apart from all others.
proof fn lemma_flags()
    ensures
        flag_of("--sysdir"@) == Some(Flag::Sysdir),
        flag_of("-s"@) == Some(Flag::Sysdir),
        flag_of("--machine"@) == Some(Flag::Machine),
        flag_of("-m"@) == Some(Flag::Machine),
        flag_of("--manifest-path"@) == Some(Flag::ManifestPath),
        flag_of("-p"@) == Some(Flag::Package),
        flag_of("--debug"@) == Some(Flag::Debug),
        flag_of("--release"@) == Some(Flag::Release),
        flag_of("--out"@) == Some(Flag::Out),
        flag_of("-o"@) == Some(Flag::Out),
        flag_of("--target-dir"@) == Some(Flag::TargetDir),
        flag_of("--export-syms"@) == Some(Flag::ExportSyms),
        flag_of("--"@) == Some(Flag::Separator),
        flag_of("--image-url"@) is None,
        vm_flag_of("--image-url"@) == Some(VmFlag::ImageUrl),
        flag_of("--cache-dir"@) is None,
        vm_flag_of("--cache-dir"@) == Some(VmFlag::CacheDir),
        flag_of("--memory"@) is None,
        vm_flag_of("--memory"@) == Some(VmFlag::Memory),
        flag_of("--smp"@) is None,
        vm_flag_of("--smp"@) == Some(VmFlag::Smp),
        flag_of("--timeout"@) is None,
        vm_flag_of("--timeout"@) == Some(VmFlag::Timeout),
        flag_of("--qemu"@) is None,
        vm_flag_of("--qemu"@) == Some(VmFlag::Qemu),
        flag_of("--fresh"@) is None,
        vm_flag_of("--fresh"@) == Some(VmFlag::Fresh),
        flag_of("--keep"@) is None,
        vm_flag_of("--keep"@) == Some(VmFlag::Keep),
        flag_of("-h"@) is None,
        flag_of("--help"@) is None,
        vm_flag_of("-h"@) is None,
        vm_flag_of("--help"@) is None,
        asks_for_help("-h"@),
        asks_for_help("--help"@),
{
    reveal_strlit("--sysdir");
    reveal_strlit("-s");
    reveal_strlit("--machine");
    reveal_strlit("-m");
    reveal_strlit("--manifest-path");
    reveal_strlit("-p");
    reveal_strlit("--debug");
    reveal_strlit("--release");
    reveal_strlit("--out");
    reveal_strlit("-o");
    reveal_strlit("--target-dir");
    reveal_strlit("--export-syms");
    reveal_strlit("--");
    reveal_strlit("--image-url");
    reveal_strlit("--cache-dir");
    reveal_strlit("--memory");
    reveal_strlit("--smp");
    reveal_strlit("--timeout");
    reveal_strlit("--qemu");
    reveal_strlit("--fresh");
    reveal_strlit("--keep");
    reveal_strlit("-h");
    reveal_strlit("--help");
    assert("--sysdir"@.len() == 8 && "--sysdir"@[2] == 's');
    assert("-s"@.len() == 2 && "-s"@[1] == 's');
    assert("--machine"@.len() == 9 && "--machine"@[2] == 'm');
    assert("-m"@.len() == 2 && "-m"@[1] == 'm');
    assert("--manifest-path"@.len() == 15 && "--manifest-path"@[2] == 'm');
    assert("-p"@.len() == 2 && "-p"@[1] == 'p');
    assert("--debug"@.len() == 7 && "--debug"@[2] == 'd');
    assert("--release"@.len() == 9 && "--release"@[2] == 'r');
    assert("--out"@.len() == 5 && "--out"@[2] == 'o');
    assert("-o"@.len() == 2 && "-o"@[1] == 'o');
    assert("--target-dir"@.len() == 12 && "--target-dir"@[2] == 't');
    assert("--export-syms"@.len() == 13 && "--export-syms"@[2] == 'e');
    assert("--"@.len() == 2 && "--"@[1] == '-');
    assert("--image-url"@.len() == 11 && "--image-url"@[2] == 'i');
    assert("--cache-dir"@.len() == 11 && "--cache-dir"@[2] == 'c');
    assert("--memory"@.len() == 8 && "--memory"@[2] == 'm');
    assert("--smp"@.len() == 5 && "--smp"@[2] == 's');
    assert("--timeout"@.len() == 9 && "--timeout"@[2] == 't');
    assert("--qemu"@.len() == 6 && "--qemu"@[2] == 'q');
    assert("--fresh"@.len() == 7 && "--fresh"@[2] == 'f');
    assert("--keep"@.len() == 6 && "--keep"@[2] == 'k');
    assert("-h"@.len() == 2 && "-h"@[1] == 'h');
    assert("--help"@.len() == 6 && "--help"@[2] == 'h');
}

/// A flag of `build` with a value sets what it names to that, whatever stands behind it,
/// and nothing else.
pub proof fn a_build_flag_sets_what_it_names(
    v: Seq<char>,
    rest: Seq<Seq<char>>,
    args: BuildArgsView,
    set: bool,
)
    ensures
        parse_build(seq!["--sysdir"@, v] + rest, args, set) == parse_build(
            rest,
            BuildArgsView { sysdir: v, ..args },
            true,
        ),
        parse_build(seq!["-s"@, v] + rest, args, set) == parse_build(
            rest,
            BuildArgsView { sysdir: v, ..args },
            true,
        ),
        parse_build(seq!["--machine"@, v] + rest, args, set) == parse_build(
            rest,
            BuildArgsView { machine: v, ..args },
            set,
        ),
        parse_build(seq!["-m"@, v] + rest, args, set) == parse_build(
            rest,
            BuildArgsView { machine: v, ..args },
            set,
        ),
        parse_build(seq!["--manifest-path"@, v] + rest, args, set) == parse_build(
            rest,
            BuildArgsView { manifest_path: v, ..args },
            set,
        ),
        parse_build(seq!["-p"@, v] + rest, args, set) == parse_build(
            rest,
            BuildArgsView { manifest_path: under(v, "Cargo.toml"@), ..args },
            set,
        ),
        parse_build(seq!["--out"@, v] + rest, args, set) == parse_build(
            rest,
            BuildArgsView { out: Some(v), ..args },
            set,
        ),
        parse_build(seq!["-o"@, v] + rest, args, set) == parse_build(
            rest,
            BuildArgsView { out: Some(v), ..args },
            set,
        ),
        parse_build(seq!["--target-dir"@, v] + rest, args, set) == parse_build(
            rest,
            BuildArgsView { target_dir: v, ..args },
            set,
        ),
        parse_build(seq!["--export-syms"@, v] + rest, args, set) == parse_build(
            rest,
            BuildArgsView { export_syms: exported(v), ..args },
            set,
        ),
        parse_build(seq!["--debug"@] + rest, args, set) == parse_build(
            rest,
            BuildArgsView { release: false, ..args },
            set,
        ),
        parse_build(seq!["--release"@] + rest, args, set) == parse_build(
            rest,
            BuildArgsView { release: true, ..args },
            set,
        ),
{
    lemma_flags();
    reveal_strlit("Cargo.toml");
    a_relative_path_goes_under_its_base(v, "Cargo.toml"@);
    lemma_two("--sysdir"@, v, rest);
    lemma_two("-s"@, v, rest);
    lemma_two("--machine"@, v, rest);
    lemma_two("-m"@, v, rest);
    lemma_two("--manifest-path"@, v, rest);
    lemma_two("-p"@, v, rest);
    lemma_two("--out"@, v, rest);
    lemma_two("-o"@, v, rest);
    lemma_two("--target-dir"@, v, rest);
    lemma_two("--export-syms"@, v, rest);
    lemma_one("--debug"@, rest);
    lemma_one("--release"@, rest);
}

proof fn lemma_one(a: Seq<char>, rest: Seq<Seq<char>>)
    ensures
        (seq![a] + rest)[0] == a,
        (seq![a] + rest).len() == rest.len() + 1,
        (seq![a] + rest).drop_first() == rest,
{
    assert((seq![a] + rest).drop_first() =~= rest);
}

proof fn lemma_two(a: Seq<char>, v: Seq<char>, rest: Seq<Seq<char>>)
    ensures
        (seq![a, v] + rest)[0] == a,
        (seq![a, v] + rest).len() == rest.len() + 2,
        (seq![a, v] + rest).drop_first()[0] == v,
        (seq![a, v] + rest).drop_first().len() == rest.len() + 1,
        (seq![a, v] + rest).drop_first().drop_first() == rest,
{
    assert((seq![a, v] + rest).drop_first().drop_first() =~= rest);
}

/// As [`a_build_flag_sets_what_it_names`], for `ktest`.
pub proof fn ktest_reads_the_flags_of_build(
    v: Seq<char>,
    rest: Seq<Seq<char>>,
    args: KtestArgsView,
    set: bool,
)
    ensures
        parse_ktest(seq!["--sysdir"@, v] + rest, args, set) == parse_ktest(
            rest,
            KtestArgsView { build: BuildArgsView { sysdir: v, ..args.build }, ..args },
            true,
        ),
        parse_ktest(seq!["-s"@, v] + rest, args, set) == parse_ktest(
            rest,
            KtestArgsView { build: BuildArgsView { sysdir: v, ..args.build }, ..args },
            true,
        ),
        parse_ktest(seq!["--machine"@, v] + rest, args, set) == parse_ktest(
            rest,
            KtestArgsView { build: BuildArgsView { machine: v, ..args.build }, ..args },
            set,
        ),
        parse_ktest(seq!["-m"@, v] + rest, args, set) == parse_ktest(
            rest,
            KtestArgsView { build: BuildArgsView { machine: v, ..args.build }, ..args },
            set,
        ),
        parse_ktest(seq!["--manifest-path"@, v] + rest, args, set) == parse_ktest(
            rest,
            KtestArgsView { build: BuildArgsView { manifest_path: v, ..args.build }, ..args },
            set,
        ),
        parse_ktest(seq!["-p"@, v] + rest, args, set) == parse_ktest(
            rest,
            KtestArgsView { build: BuildArgsView { manifest_path: under(v, "Cargo.toml"@), ..args.build }, ..args },
            set,
        ),
        parse_ktest(seq!["--out"@, v] + rest, args, set) == parse_ktest(
            rest,
            KtestArgsView { build: BuildArgsView { out: Some(v), ..args.build }, ..args },
            set,
        ),
        parse_ktest(seq!["-o"@, v] + rest, args, set) == parse_ktest(
            rest,
            KtestArgsView { build: BuildArgsView { out: Some(v), ..args.build }, ..args },
            set,
        ),
        parse_ktest(seq!["--target-dir"@, v] + rest, args, set) == parse_ktest(
            rest,
            KtestArgsView { build: BuildArgsView { target_dir: v, ..args.build }, ..args },
            set,
        ),
        parse_ktest(seq!["--export-syms"@, v] + rest, args, set) == parse_ktest(
            rest,
            KtestArgsView { build: BuildArgsView { export_syms: exported(v), ..args.build }, ..args },
            set,
        ),
        parse_ktest(seq!["--debug"@] + rest, args, set) == parse_ktest(
            rest,
            KtestArgsView { build: BuildArgsView { release: false, ..args.build }, ..args },
            set,
        ),
        parse_ktest(seq!["--release"@] + rest, args, set) == parse_ktest(
            rest,
            KtestArgsView { build: BuildArgsView { release: true, ..args.build }, ..args },
            set,
        ),
{
    lemma_flags();
    reveal_strlit("Cargo.toml");
    a_relative_path_goes_under_its_base(v, "Cargo.toml"@);
    lemma_two("--sysdir"@, v, rest);
    lemma_two("-s"@, v, rest);
    lemma_two("--machine"@, v, rest);
    lemma_two("-m"@, v, rest);
    lemma_two("--manifest-path"@, v, rest);
    lemma_two("-p"@, v, rest);
    lemma_two("--out"@, v, rest);
    lemma_two("-o"@, v, rest);
    lemma_two("--target-dir"@, v, rest);
    lemma_two("--export-syms"@, v, rest);
    lemma_one("--debug"@, rest);
    lemma_one("--release"@, rest);
}

/// A flag of `ktest` alone sets what it names, and nothing else; a time has to be a number
/// of seconds.
pub proof fn a_vm_flag_sets_what_it_names(
    v: Seq<char>,
    n: u64,
    rest: Seq<Seq<char>>,
    args: KtestArgsView,
    set: bool,
)
    ensures
        parse_ktest(seq!["--image-url"@, v] + rest, args, set) == parse_ktest(
            rest,
            KtestArgsView { image_url: Some(v), ..args },
            set,
        ),
        parse_ktest(seq!["--cache-dir"@, v] + rest, args, set) == parse_ktest(
            rest,
            KtestArgsView { cache_dir: Some(v), ..args },
            set,
        ),
        parse_ktest(seq!["--memory"@, v] + rest, args, set) == parse_ktest(
            rest,
            KtestArgsView { memory: v, ..args },
            set,
        ),
        parse_ktest(seq!["--smp"@, v] + rest, args, set) == parse_ktest(
            rest,
            KtestArgsView { smp: v, ..args },
            set,
        ),
        parse_ktest(seq!["--qemu"@, v] + rest, args, set) == parse_ktest(
            rest,
            KtestArgsView { qemu_bin: Some(v), ..args },
            set,
        ),
        parse_ktest(seq!["--timeout"@, decimal(n as nat)] + rest, args, set) == parse_ktest(
            rest,
            KtestArgsView { step_timeout: n, ..args },
            set,
        ),
        number_of(v) is None ==> parse_ktest(seq!["--timeout"@, v] + rest, args, set)
            == ParsedView::<KtestArgsView>::Bad(
            ErrorView::timeout_not_a_number(number_problem(v)),
        ),
        parse_ktest(seq!["--fresh"@] + rest, args, set) == parse_ktest(
            rest,
            KtestArgsView { fresh: true, ..args },
            set,
        ),
        parse_ktest(seq!["--keep"@] + rest, args, set) == parse_ktest(
            rest,
            KtestArgsView { keep: true, ..args },
            set,
        ),
{
    lemma_flags();
    written_numbers_are_read_back(n as nat, v, 0);
    lemma_two("--timeout"@, decimal(n as nat), rest);
    lemma_two("--timeout"@, v, rest);
    lemma_two("--image-url"@, v, rest);
    lemma_two("--cache-dir"@, v, rest);
    lemma_two("--memory"@, v, rest);
    lemma_two("--smp"@, v, rest);
    lemma_two("--qemu"@, v, rest);
    lemma_one("--fresh"@, rest);
    lemma_one("--keep"@, rest);
}

/// A flag whose value is missing is refused, by its long name where it has one.
pub proof fn a_flag_without_its_value_is_refused(
    args: BuildArgsView,
    test: KtestArgsView,
    set: bool,
)
    ensures
        parse_build(seq!["--sysdir"@], args, set) == ParsedView::<BuildArgsView>::Bad(
            ErrorView::needs_value("--sysdir"@),
        ),
        parse_ktest(seq!["--sysdir"@], test, set) == ParsedView::<KtestArgsView>::Bad(
            ErrorView::needs_value("--sysdir"@),
        ),
        parse_build(seq!["-s"@], args, set) == ParsedView::<BuildArgsView>::Bad(
            ErrorView::needs_value("--sysdir"@),
        ),
        parse_ktest(seq!["-s"@], test, set) == ParsedView::<KtestArgsView>::Bad(
            ErrorView::needs_value("--sysdir"@),
        ),
        parse_build(seq!["--machine"@], args, set) == ParsedView::<BuildArgsView>::Bad(
            ErrorView::needs_value("--machine"@),
        ),
        parse_ktest(seq!["--machine"@], test, set) == ParsedView::<KtestArgsView>::Bad(
            ErrorView::needs_value("--machine"@),
        ),
        parse_build(seq!["-m"@], args, set) == ParsedView::<BuildArgsView>::Bad(
            ErrorView::needs_value("--machine"@),
        ),
        parse_ktest(seq!["-m"@], test, set) == ParsedView::<KtestArgsView>::Bad(
            ErrorView::needs_value("--machine"@),
        ),
        parse_build(seq!["--manifest-path"@], args, set) == ParsedView::<BuildArgsView>::Bad(
            ErrorView::needs_value("--manifest-path"@),
        ),
        parse_ktest(seq!["--manifest-path"@], test, set) == ParsedView::<KtestArgsView>::Bad(
            ErrorView::needs_value("--manifest-path"@),
        ),
        parse_build(seq!["-p"@], args, set) == ParsedView::<BuildArgsView>::Bad(
            ErrorView::needs_value("-p"@),
        ),
        parse_ktest(seq!["-p"@], test, set) == ParsedView::<KtestArgsView>::Bad(
            ErrorView::needs_value("-p"@),
        ),
        parse_build(seq!["--out"@], args, set) == ParsedView::<BuildArgsView>::Bad(
            ErrorView::needs_value("--out"@),
        ),
        parse_ktest(seq!["--out"@], test, set) == ParsedView::<KtestArgsView>::Bad(
            ErrorView::needs_value("--out"@),
        ),
        parse_build(seq!["-o"@], args, set) == ParsedView::<BuildArgsView>::Bad(
            ErrorView::needs_value("--out"@),
        ),
        parse_ktest(seq!["-o"@], test, set) == ParsedView::<KtestArgsView>::Bad(
            ErrorView::needs_value("--out"@),
        ),
        parse_build(seq!["--target-dir"@], args, set) == ParsedView::<BuildArgsView>::Bad(
            ErrorView::needs_value("--target-dir"@),
        ),
        parse_ktest(seq!["--target-dir"@], test, set) == ParsedView::<KtestArgsView>::Bad(
            ErrorView::needs_value("--target-dir"@),
        ),
        parse_build(seq!["--export-syms"@], args, set) == ParsedView::<BuildArgsView>::Bad(
            ErrorView::needs_value("--export-syms"@),
        ),
        parse_ktest(seq!["--export-syms"@], test, set) == ParsedView::<KtestArgsView>::Bad(
            ErrorView::needs_value("--export-syms"@),
        ),
        parse_ktest(seq!["--image-url"@], test, set) == ParsedView::<KtestArgsView>::Bad(
            ErrorView::needs_value("--image-url"@),
        ),
        parse_ktest(seq!["--cache-dir"@], test, set) == ParsedView::<KtestArgsView>::Bad(
            ErrorView::needs_value("--cache-dir"@),
        ),
        parse_ktest(seq!["--memory"@], test, set) == ParsedView::<KtestArgsView>::Bad(
            ErrorView::needs_value("--memory"@),
        ),
        parse_ktest(seq!["--smp"@], test, set) == ParsedView::<KtestArgsView>::Bad(
            ErrorView::needs_value("--smp"@),
        ),
        parse_ktest(seq!["--qemu"@], test, set) == ParsedView::<KtestArgsView>::Bad(
            ErrorView::needs_value("--qemu"@),
        ),
        parse_ktest(seq!["--timeout"@], test, set) == ParsedView::<KtestArgsView>::Bad(
            ErrorView::needs_value("--timeout"@),
        ),
{
    lemma_flags();
}

/// An argument that is no flag is refused, and help is given where it is asked for,
/// whatever stands behind it.
pub proof fn an_unknown_argument_is_refused(
    a: Seq<char>,
    rest: Seq<Seq<char>>,
    args: BuildArgsView,
    test: KtestArgsView,
    set: bool,
)
    requires
        !is_build_flag(a),
    ensures
        a == "-h"@ || a == "--help"@ ==> parse_build(seq![a] + rest, args, set) is Help,
        a == "-h"@ || a == "--help"@ ==> parse_ktest(seq![a] + rest, test, set) is Help,
        a != "-h"@ && a != "--help"@ ==> parse_build(seq![a] + rest, args, set) == ParsedView::<
            BuildArgsView,
        >::Bad(ErrorView::unrecognized(a)),
        a != "-h"@ && a != "--help"@ && !is_vm_flag(a) ==> parse_ktest(seq![a] + rest, test, set)
            == ParsedView::<KtestArgsView>::Bad(ErrorView::unrecognized(a)),
{
    lemma_flags();
    lemma_one(a, rest);
}

/// The source tree has to be named; where it was, and nothing is left to be read, what was
/// read is what is done. What stands behind `--` is for cargo, in the order given.
pub proof fn the_source_tree_has_to_be_named(
    rest: Seq<Seq<char>>,
    args: BuildArgsView,
    test: KtestArgsView,
)
    ensures
        parse_build(Seq::empty(), args, true) == ParsedView::Args(args),
        parse_build(Seq::empty(), args, false) == ParsedView::<BuildArgsView>::Bad(
            ErrorView::sysdir_required(),
        ),
        parse_ktest(Seq::empty(), test, true) == ParsedView::Args(test),
        parse_ktest(Seq::empty(), test, false) == ParsedView::<KtestArgsView>::Bad(
            ErrorView::sysdir_required(),
        ),
        parse_build(seq!["--"@] + rest, args, true) == ParsedView::Args(
            BuildArgsView { extra_cargo_args: args.extra_cargo_args + rest, ..args },
        ),
        parse_ktest(seq!["--"@] + rest, test, true) == ParsedView::Args(
            KtestArgsView {
                build: BuildArgsView {
                    extra_cargo_args: test.build.extra_cargo_args + rest,
                    ..test.build
                },
                ..test
            },
        ),
{
    lemma_flags();
    lemma_one("--"@, rest);
    reveal_with_fuel(parse_build, 2);
    reveal_with_fuel(parse_ktest, 2);
}

/// The subcommand that is named is the one that is run, and what it does where nothing but
/// the source tree is named: `build` builds for `amd64`, `ktest` for `arm64`, both in the
/// release profile, the crate in the current directory, with no symbol exported.
pub proof fn what_is_done_where_only_the_tree_is_named(tree: Seq<char>, tail: Seq<Seq<char>>)
    ensures
        ({
            let build = |machine: Seq<char>|
                BuildArgsView {
                    sysdir: tree,
                    machine,
                    manifest_path: "Cargo.toml"@,
                    release: true,
                    out: None,
                    export_syms: ExportSymsView::No,
                    target_dir: "target/kbuild"@,
                    extra_cargo_args: Seq::empty(),
                };
            let test = KtestArgsView {
                build: build("arm64"@),
                image_url: None,
                cache_dir: None,
                memory: "2G"@,
                smp: "2"@,
                step_timeout: 120,
                qemu_bin: None,
                fresh: false,
                keep: false,
            };
            &&& invocation_of(seq!["build"@, "--sysdir"@, tree] + tail) == (match parse_build(
                tail,
                build("amd64"@),
                true,
            ) {
                ParsedView::Help => InvocationView::BuildHelp,
                ParsedView::Args(a) => InvocationView::Build(a),
                ParsedView::Bad(e) => InvocationView::Bad(e),
            })
            &&& invocation_of(seq!["ktest"@, "--sysdir"@, tree] + tail) == (match parse_ktest(
                tail,
                test,
                true,
            ) {
                ParsedView::Help => InvocationView::KtestHelp,
                ParsedView::Args(a) => InvocationView::Ktest(a),
                ParsedView::Bad(e) => InvocationView::Bad(e),
            })
            &&& invocation_of(seq!["-h"@] + tail) == InvocationView::BuildHelp
            &&& invocation_of(seq!["--help"@] + tail) == InvocationView::BuildHelp
        }),
{
    lemma_flags();
    reveal_strlit("build");
    reveal_strlit("kbuild");
    reveal_strlit("ktest");
    reveal_strlit("-h");
    reveal_strlit("--help");
    assert("build"@[0] == 'b' && "kbuild"@[0] == 'k' && "ktest"@[0] == 'k');
    assert("kbuild"@.len() == 6 && "ktest"@.len() == 5);
    assert("-h"@[0] == '-' && "--help"@[0] == '-');
    let more = seq!["--sysdir"@, tree] + tail;
    assert((seq!["build"@, "--sysdir"@, tree] + tail).drop_first() =~= more);
    assert((seq!["ktest"@, "--sysdir"@, tree] + tail).drop_first() =~= more);
    a_build_flag_sets_what_it_names(tree, tail, default_args("amd64"@), false);
    ktest_reads_the_flags_of_build(
        tree,
        tail,
        default_ktest(default_args("arm64"@)),
        false,
    );
}

/// What holds where no flag says otherwise, for any machine.
pub proof fn what_holds_where_no_flag_says_otherwise(machine: Seq<char>, build: BuildArgsView)
    ensures
        default_args(machine) == (BuildArgsView {
            sysdir: Seq::empty(),
            machine,
            manifest_path: "Cargo.toml"@,
            release: true,
            out: None,
            export_syms: ExportSymsView::No,
            target_dir: "target/kbuild"@,
            extra_cargo_args: Seq::empty(),
        }),
        default_ktest(build) == (KtestArgsView {
            build,
            image_url: None,
            cache_dir: None,
            memory: "2G"@,
            smp: "2"@,
            step_timeout: 120,
            qemu_bin: None,
            fresh: false,
            keep: false,
        }),
{
}

/// Every flag begins with a dash.
pub proof fn a_flag_begins_with_a_dash(a: Seq<char>)
    requires
        is_build_flag(a) || is_vm_flag(a),
    ensures
        a.len() > 0,
        a[0] == '-',
{
    reveal_strlit("--sysdir");
    reveal_strlit("-s");
    reveal_strlit("--machine");
    reveal_strlit("-m");
    reveal_strlit("--manifest-path");
    reveal_strlit("-p");
    reveal_strlit("--debug");
    reveal_strlit("--release");
    reveal_strlit("--out");
    reveal_strlit("-o");
    reveal_strlit("--target-dir");
    reveal_strlit("--export-syms");
    reveal_strlit("--");
    reveal_strlit("--image-url");
    reveal_strlit("--cache-dir");
    reveal_strlit("--memory");
    reveal_strlit("--smp");
    reveal_strlit("--timeout");
    reveal_strlit("--qemu");
    reveal_strlit("--fresh");
    reveal_strlit("--keep");
}

/// Cargo's own name for the tool is dropped once, and is no argument.
pub proof fn cargo_s_name_is_dropped_once(rest: Seq<Seq<char>>)
    ensures
        invocation_of(seq!["kbuild"@, "kbuild"@] + rest) == InvocationView::Bad(
            ErrorView::unrecognized("kbuild"@),
        ),
{
    let raw = seq!["kbuild"@, "kbuild"@] + rest;
    lemma_flags();
    reveal_strlit("kbuild");
    reveal_strlit("build");
    reveal_strlit("ktest");
    reveal_strlit("-h");
    reveal_strlit("--help");
    assert("kbuild"@.len() == 6 && "kbuild"@[0] == 'k');
    assert("build"@.len() == 5 && "ktest"@.len() == 5);
    assert("-h"@[0] == '-' && "--help"@[0] == '-');
    assert(raw.drop_first() =~= seq!["kbuild"@] + rest);
    lemma_one("kbuild"@, rest);
    if is_build_flag("kbuild"@) {
        a_flag_begins_with_a_dash("kbuild"@);
    }
    an_unknown_argument_is_refused(
        "kbuild"@,
        rest,
        default_args("amd64"@),
        default_ktest(default_args("arm64"@)),
        false,
    );
}

} // verus!
