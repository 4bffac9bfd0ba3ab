//! The command line of `build`, and the arguments that `ktest` shares with it.

use crate::error::{Error, ErrorView};
use crate::path::{join, joined_path};
use crate::text::{copy_opt, copy_texts, opt_text, push_text, same, texts};
use vstd::prelude::*;

verus! {

/// Command-line arguments that are still to be read.
pub struct Args {
    rest: Vec<String>,
}

impl View for Args {
    type V = Seq<Seq<char>>;

    closed spec fn view(&self) -> Seq<Seq<char>> {
        texts(self.rest@)
    }
}

impl Args {
    /// The arguments of `list`, from the first on.
    pub fn new(list: Vec<String>) -> (r: Args)
        ensures
            r@ == texts(list@),
    {
        Args { rest: list }
    }

    /// Whether all arguments have been read.
    pub fn is_empty(&self) -> (r: bool)
        ensures
            r == (self@.len() == 0),
    {
        self.rest.len() == 0
    }

    /// Reads the next argument.
    pub fn next(&mut self) -> (r: Option<String>)
        ensures
            match r {
                Some(s) => old(self)@.len() > 0 && s@ == old(self)@[0] && final(self)@
                    == old(self)@.drop_first(),
                None => old(self)@.len() == 0 && final(self)@ == old(self)@,
            },
    {
        if self.rest.len() == 0 {
            None
        } else {
            let s = self.rest.remove(0);
            assert(texts(self.rest@) =~= texts(old(self).rest@).drop_first());
            Some(s)
        }
    }
}

/// Reads the value of `flag`: the next argument.
pub fn need_value(it: &mut Args, flag: &str) -> (r: Result<String, Error>)
    ensures
        match r {
            Ok(v) => old(it)@.len() > 0 && v@ == old(it)@[0] && final(it)@
                == old(it)@.drop_first(),
            Err(e) => old(it)@.len() == 0 && final(it)@ == old(it)@ && e@
                == ErrorView::needs_value(flag@),
        },
{
    match it.next() {
        Some(v) => Ok(v),
        None => Err(Error::needs_value(flag)),
    }
}

/// Which global symbols the module exports.
#[derive(Debug)]
pub enum ExportSyms {
    /// None but those that the linker sets require: `EXPORT_SYMS=NO`.
    No,
    /// All of them: `EXPORT_SYMS=YES`.
    Yes,
    /// Those listed in a file: `EXPORT_SYMS=<file>`.
    List(String),
}

/// The contents of an [`ExportSyms`].
pub ghost enum ExportSymsView {
    No,
    Yes,
    List(Seq<char>),
}

impl View for ExportSyms {
    type V = ExportSymsView;

    open spec fn view(&self) -> ExportSymsView {
        match *self {
            ExportSyms::No => ExportSymsView::No,
            ExportSyms::Yes => ExportSymsView::Yes,
            ExportSyms::List(p) => ExportSymsView::List(p@),
        }
    }
}

/// What to build, and how.
#[derive(Debug)]
pub struct BuildArgs {
    /// A FreeBSD source tree, or its `sys/`.
    pub sysdir: String,
    pub machine: String,
    /// The manifest of the module's crate.
    pub manifest_path: String,
    pub release: bool,
    /// Where the module goes; `<crate>.ko` where it is not said.
    pub out: Option<String>,
    pub export_syms: ExportSyms,
    pub target_dir: String,
    /// Arguments handed on to `cargo build`.
    pub extra_cargo_args: Vec<String>,
}

/// The contents of a [`BuildArgs`].
pub ghost struct BuildArgsView {
    pub sysdir: Seq<char>,
    pub machine: Seq<char>,
    pub manifest_path: Seq<char>,
    pub release: bool,
    pub out: Option<Seq<char>>,
    pub export_syms: ExportSymsView,
    pub target_dir: Seq<char>,
    pub extra_cargo_args: Seq<Seq<char>>,
}

impl View for BuildArgs {
    type V = BuildArgsView;

    open spec fn view(&self) -> BuildArgsView {
        BuildArgsView {
            sysdir: self.sysdir@,
            machine: self.machine@,
            manifest_path: self.manifest_path@,
            release: self.release,
            out: opt_text(self.out),
            export_syms: self.export_syms@,
            target_dir: self.target_dir@,
            extra_cargo_args: texts(self.extra_cargo_args@),
        }
    }
}

/// What holds where no flag says otherwise.
pub open spec fn default_args(machine: Seq<char>) -> BuildArgsView {
    BuildArgsView {
        sysdir: Seq::empty(),
        machine,
        manifest_path: "Cargo.toml"@,
        release: true,
        out: None,
        export_syms: ExportSymsView::No,
        target_dir: "target/kbuild"@,
        extra_cargo_args: Seq::empty(),
    }
}

/// What the value of `--export-syms` means.
pub open spec fn export_syms_of(v: Seq<char>) -> ExportSymsView {
    if v == "YES"@ || v == "yes"@ {
        ExportSymsView::Yes
    } else if v == "NO"@ || v == "no"@ {
        ExportSymsView::No
    } else {
        ExportSymsView::List(v)
    }
}

/// A flag of `build`.
#[derive(Clone, Copy, Debug, PartialEq, Eq, Structural)]
pub enum Flag {
    /// `--sysdir`, `-s`
    Sysdir,
    /// `--machine`, `-m`
    Machine,
    /// `--manifest-path`
    ManifestPath,
    /// `-p`
    Package,
    /// `--debug`
    Debug,
    /// `--release`
    Release,
    /// `--out`, `-o`
    Out,
    /// `--target-dir`
    TargetDir,
    /// `--export-syms`
    ExportSyms,
    /// `--`: everything behind it is for cargo.
    Separator,
}

/// The flag of `build` that an argument is, if any.
pub open spec fn flag_of(argument: Seq<char>) -> Option<Flag> {
    if argument == "--sysdir"@ || argument == "-s"@ {
        Some(Flag::Sysdir)
    } else if argument == "--machine"@ || argument == "-m"@ {
        Some(Flag::Machine)
    } else if argument == "--manifest-path"@ {
        Some(Flag::ManifestPath)
    } else if argument == "-p"@ {
        Some(Flag::Package)
    } else if argument == "--debug"@ {
        Some(Flag::Debug)
    } else if argument == "--release"@ {
        Some(Flag::Release)
    } else if argument == "-o"@ || argument == "--out"@ {
        Some(Flag::Out)
    } else if argument == "--target-dir"@ {
        Some(Flag::TargetDir)
    } else if argument == "--export-syms"@ {
        Some(Flag::ExportSyms)
    } else if argument == "--"@ {
        Some(Flag::Separator)
    } else {
        None
    }
}

/// The name under which a flag complains that its value is missing.
pub open spec fn long_name(flag: Flag) -> Seq<char> {
    match flag {
        Flag::Sysdir => "--sysdir"@,
        Flag::Machine => "--machine"@,
        Flag::ManifestPath => "--manifest-path"@,
        Flag::Package => "-p"@,
        Flag::Debug => "--debug"@,
        Flag::Release => "--release"@,
        Flag::Out => "--out"@,
        Flag::TargetDir => "--target-dir"@,
        Flag::ExportSyms => "--export-syms"@,
        Flag::Separator => "--"@,
    }
}

/// What a flag does with its value `v`.
pub open spec fn with_value(args: BuildArgsView, flag: Flag, v: Seq<char>) -> BuildArgsView {
    match flag {
        Flag::Sysdir => BuildArgsView { sysdir: v, ..args },
        Flag::Machine => BuildArgsView { machine: v, ..args },
        Flag::ManifestPath => BuildArgsView { manifest_path: v, ..args },
        Flag::Package => BuildArgsView {
            manifest_path: joined_path(v, "Cargo.toml"@),
            ..args
        },
        Flag::Out => BuildArgsView { out: Some(v), ..args },
        Flag::TargetDir => BuildArgsView { target_dir: v, ..args },
        Flag::ExportSyms => BuildArgsView { export_syms: export_syms_of(v), ..args },
        _ => args,
    }
}

/// What becomes of an argument where a build flag may stand.
pub ghost enum FlagView {
    /// It is no build flag.
    Other,
    /// It lacks its value.
    Missing(Seq<char>),
    /// It is one, and has been read together with its value.
    Taken { args: BuildArgsView, sysdir_set: bool, rest: Seq<Seq<char>> },
}

/// Reads the argument `argument`, which the arguments `rest` follow.
pub open spec fn flag_effect(
    argument: Seq<char>,
    rest: Seq<Seq<char>>,
    args: BuildArgsView,
    sysdir_set: bool,
) -> FlagView {
    match flag_of(argument) {
        None => FlagView::Other,
        Some(Flag::Debug) => FlagView::Taken {
            args: BuildArgsView { release: false, ..args },
            sysdir_set,
            rest,
        },
        Some(Flag::Release) => FlagView::Taken {
            args: BuildArgsView { release: true, ..args },
            sysdir_set,
            rest,
        },
        Some(Flag::Separator) => FlagView::Taken {
            args: BuildArgsView { extra_cargo_args: args.extra_cargo_args + rest, ..args },
            sysdir_set,
            rest: Seq::empty(),
        },
        Some(flag) => if rest.len() == 0 {
            FlagView::Missing(long_name(flag))
        } else {
            FlagView::Taken {
                args: with_value(args, flag, rest[0]),
                sysdir_set: sysdir_set || flag == Flag::Sysdir,
                rest: rest.drop_first(),
            }
        },
    }
}

/// What a command line asks for.
#[derive(Debug)]
pub enum Parsed<A> {
    /// The help text.
    Help,
    /// Work to be done.
    Args(A),
}

/// What becomes of a command line.
pub ghost enum ParsedView<V> {
    Help,
    Args(V),
    Bad(ErrorView),
}

/// The contents of a parser's result.
pub open spec fn parsed_view<A: View>(r: Result<Parsed<A>, Error>) -> ParsedView<A::V> {
    match r {
        Ok(Parsed::Help) => ParsedView::Help,
        Ok(Parsed::Args(a)) => ParsedView::Args(a@),
        Err(e) => ParsedView::Bad(e@),
    }
}

pub open spec fn asks_for_help(argument: Seq<char>) -> bool {
    argument == "-h"@ || argument == "--help"@
}

/// Reads the arguments `rest` of `build` over what has been read before.
pub open spec fn parse_build(
    rest: Seq<Seq<char>>,
    args: BuildArgsView,
    sysdir_set: bool,
) -> ParsedView<BuildArgsView>
    decreases rest.len(),
{
    if rest.len() == 0 {
        if sysdir_set {
            ParsedView::Args(args)
        } else {
            ParsedView::Bad(ErrorView::sysdir_required())
        }
    } else {
        match flag_effect(rest[0], rest.drop_first(), args, sysdir_set) {
            FlagView::Taken { args, sysdir_set, rest: after } => parse_build(
                after,
                args,
                sysdir_set,
            ),
            FlagView::Missing(flag) => ParsedView::Bad(ErrorView::needs_value(flag)),
            FlagView::Other => if asks_for_help(rest[0]) {
                ParsedView::Help
            } else {
                ParsedView::Bad(ErrorView::unrecognized(rest[0]))
            },
        }
    }
}

impl ExportSyms {
    /// A copy.
    pub fn copy(&self) -> (r: ExportSyms)
        ensures
            r@ == self@,
    {
        match self {
            ExportSyms::No => ExportSyms::No,
            ExportSyms::Yes => ExportSyms::Yes,
            ExportSyms::List(path) => ExportSyms::List(path.clone()),
        }
    }
}

impl BuildArgs {
    /// A copy.
    pub fn copy(&self) -> (r: BuildArgs)
        ensures
            r@ == self@,
    {
        BuildArgs {
            sysdir: self.sysdir.clone(),
            machine: self.machine.clone(),
            manifest_path: self.manifest_path.clone(),
            release: self.release,
            out: copy_opt(&self.out),
            export_syms: self.export_syms.copy(),
            target_dir: self.target_dir.clone(),
            extra_cargo_args: copy_texts(&self.extra_cargo_args),
        }
    }

    /// What holds where no flag says otherwise.
    fn defaults(default_machine: &str) -> (r: BuildArgs)
        ensures
            r@ == default_args(default_machine@),
    {
        let extra_cargo_args: Vec<String> = Vec::new();
        assert(texts(extra_cargo_args@) =~= Seq::<Seq<char>>::empty());
        BuildArgs {
            sysdir: String::new(),
            machine: default_machine.to_owned(),
            manifest_path: "Cargo.toml".to_owned(),
            release: true,
            out: None,
            export_syms: ExportSyms::No,
            target_dir: "target/kbuild".to_owned(),
            extra_cargo_args,
        }
    }
}

/// The arguments that a command line without flags stands for, to read shared
/// flags into.
pub fn parse_args_defaults_only(default_machine: &str) -> (r: BuildArgs)
    ensures
        r@ == default_args(default_machine@),
{
    BuildArgs::defaults(default_machine)
}

/// Reads the argument `flag`, which the arguments `it` follow, if it is a flag of
/// `build`; returns `false` and changes nothing where it is not.
pub fn try_parse_flag(
    flag: &str,
    it: &mut Args,
    args: &mut BuildArgs,
    sysdir_set: &mut bool,
) -> (r: Result<bool, Error>)
    ensures
        match flag_effect(flag@, old(it)@, old(args)@, *old(sysdir_set)) {
            FlagView::Other => {
                &&& r == Ok::<bool, Error>(false)
                &&& final(it)@ == old(it)@
                &&& final(args)@ == old(args)@
                &&& *final(sysdir_set) == *old(sysdir_set)
            },
            FlagView::Missing(name) => {
                &&& r matches Err(e)
                &&& e@ == ErrorView::needs_value(name)
                &&& final(it)@ == old(it)@
                &&& final(args)@ == old(args)@
                &&& *final(sysdir_set) == *old(sysdir_set)
            },
            FlagView::Taken { args: a, sysdir_set: s, rest } => {
                &&& r == Ok::<bool, Error>(true)
                &&& final(it)@ == rest
                &&& final(args)@ == a
                &&& *final(sysdir_set) == s
            },
        },
{
    if same(flag, "--sysdir") || same(flag, "-s") {
        args.sysdir = match need_value(it, "--sysdir") {
            Ok(v) => v,
            Err(e) => return Err(e),
        };
        *sysdir_set = true;
    } else if same(flag, "--machine") || same(flag, "-m") {
        args.machine = match need_value(it, "--machine") {
            Ok(v) => v,
            Err(e) => return Err(e),
        };
    } else if same(flag, "--manifest-path") {
        args.manifest_path = match need_value(it, "--manifest-path") {
            Ok(v) => v,
            Err(e) => return Err(e),
        };
    } else if same(flag, "-p") {
        let dir = match need_value(it, "-p") {
            Ok(v) => v,
            Err(e) => return Err(e),
        };
        args.manifest_path = join(dir.as_str(), "Cargo.toml");
    } else if same(flag, "--debug") {
        args.release = false;
    } else if same(flag, "--release") {
        args.release = true;
    } else if same(flag, "-o") || same(flag, "--out") {
        let out = match need_value(it, "--out") {
            Ok(v) => v,
            Err(e) => return Err(e),
        };
        args.out = Some(out);
    } else if same(flag, "--target-dir") {
        args.target_dir = match need_value(it, "--target-dir") {
            Ok(v) => v,
            Err(e) => return Err(e),
        };
    } else if same(flag, "--export-syms") {
        let v = match need_value(it, "--export-syms") {
            Ok(v) => v,
            Err(e) => return Err(e),
        };
        args.export_syms = if same(v.as_str(), "YES") || same(v.as_str(), "yes") {
            ExportSyms::Yes
        } else if same(v.as_str(), "NO") || same(v.as_str(), "no") {
            ExportSyms::No
        } else {
            ExportSyms::List(v)
        };
    } else if same(flag, "--") {
        let ghost rest = it@;
        let ghost before = texts(args.extra_cargo_args@);
        while !it.is_empty()
            invariant
                texts(args.extra_cargo_args@) + it@ =~= before + rest,
                args@ == (BuildArgsView {
                    extra_cargo_args: texts(args.extra_cargo_args@),
                    ..old(args)@
                }),
            decreases it@.len(),
        {
            match it.next() {
                Some(a) => push_text(&mut args.extra_cargo_args, a.as_str()),
                None => {},
            }
        }
    } else {
        return Ok(false);
    }
    Ok(true)
}

/// What `build --help` prints.
pub const BUILD_HELP: &'static str = "cargo kbuild [build] --sysdir <path> [options]\n\n\
Builds an out-of-tree FreeBSD KLD from the Rust crate at \
--manifest-path (default ./Cargo.toml).\n\n\
Options:\n\
\x20 --sysdir, -s <path>     FreeBSD source tree root or sys/ dir (required)\n\
\x20 --machine, -m <name>    amd64 (default) | arm64\n\
\x20 --manifest-path <path>  crate to build (default Cargo.toml)\n\
\x20 -p <dir>                crate to build, by its directory\n\
\x20 --release / --debug     cargo profile (default --release)\n\
\x20 -o, --out <file>        output .ko path (default <crate>.ko)\n\
\x20 --export-syms <v>       NO (default) | YES | <symbol-list-file>\n\
\x20 --target-dir <dir>      cargo/scratch target dir (default target/kbuild)\n\
\x20 -- <cargo args...>      passed through to `cargo build`\n\n\
See `cargo kbuild ktest --help` to also boot the module in QEMU.\n";

/// Reads the command line of `build`.
pub fn parse_args(raw: Vec<String>, default_machine: &str) -> (r: Result<
    Parsed<BuildArgs>,
    Error,
>)
    ensures
        parsed_view(r) == parse_build(texts(raw@), default_args(default_machine@), false),
{
    let ghost list = texts(raw@);
    let mut args = BuildArgs::defaults(default_machine);
    let mut sysdir_set: bool = false;
    let mut it = Args::new(raw);
    while !it.is_empty()
        invariant
            list == texts(raw@),
            parse_build(it@, args@, sysdir_set) == parse_build(
                list,
                default_args(default_machine@),
                false,
            ),
        decreases it@.len(),
    {
        match it.next() {
            None => {},
            Some(a) => {
                let known = match try_parse_flag(a.as_str(), &mut it, &mut args, &mut sysdir_set) {
                    Ok(k) => k,
                    Err(e) => return Err(e),
                };
                if !known {
                    if same(a.as_str(), "-h") || same(a.as_str(), "--help") {
                        return Ok(Parsed::Help);
                    }
                    return Err(Error::unrecognized(a.as_str()));
                }
            },
        }
    }
    if !sysdir_set {
        return Err(Error::sysdir_required());
    }
    Ok(Parsed::Args(args))
}

} // verus!
