//! The command line of `ktest`, and the choice between the subcommands.

use crate::args::{
    asks_for_help, default_args, flag_effect, need_value, parse_args_defaults_only, parsed_view,
    try_parse_flag, Args, BuildArgs, BuildArgsView, FlagView, Parsed, ParsedView,
};
use crate::error::{Error, ErrorView};
use crate::text::{number_error, number_of, number_problem, opt_text, parse_u64, same, texts};
use vstd::prelude::*;

verus! {

/// What to build, and how to test it in a VM.
#[derive(Debug)]
pub struct KtestArgs {
    pub build: BuildArgs,
    /// Where the VM image comes from, where it is not the default one.
    pub image_url: Option<String>,
    /// Where the VM image is kept, where it is not the default place.
    pub cache_dir: Option<String>,
    pub memory: String,
    pub smp: String,
    /// How many seconds a step on the console may take.
    pub step_timeout: u64,
    /// The QEMU binary, where it is not the machine's own.
    pub qemu_bin: Option<String>,
    /// Whether to fetch the VM image although it is there.
    pub fresh: bool,
    /// Whether to leave the VM's files behind.
    pub keep: bool,
}

/// The contents of a [`KtestArgs`].
pub ghost struct KtestArgsView {
    pub build: BuildArgsView,
    pub image_url: Option<Seq<char>>,
    pub cache_dir: Option<Seq<char>>,
    pub memory: Seq<char>,
    pub smp: Seq<char>,
    pub step_timeout: u64,
    pub qemu_bin: Option<Seq<char>>,
    pub fresh: bool,
    pub keep: bool,
}

impl View for KtestArgs {
    type V = KtestArgsView;

    open spec fn view(&self) -> KtestArgsView {
        KtestArgsView {
            build: self.build@,
            image_url: opt_text(self.image_url),
            cache_dir: opt_text(self.cache_dir),
            memory: self.memory@,
            smp: self.smp@,
            step_timeout: self.step_timeout,
            qemu_bin: opt_text(self.qemu_bin),
            fresh: self.fresh,
            keep: self.keep,
        }
    }
}

/// A build, and a test of it with everything left at its default.
pub open spec fn default_ktest(build: BuildArgsView) -> KtestArgsView {
    KtestArgsView {
        build,
        image_url: None,
        cache_dir: None,
        memory: "2G"@,
        smp: "2"@,
        step_timeout: 120,
        qemu_bin: None,
        fresh: false,
        keep: false,
    }
}

/// A flag of `ktest` that `build` does not have.
#[derive(Clone, Copy, Debug, PartialEq, Eq, Structural)]
pub enum VmFlag {
    /// `--image-url`
    ImageUrl,
    /// `--cache-dir`
    CacheDir,
    /// `--memory`
    Memory,
    /// `--smp`
    Smp,
    /// `--timeout`
    Timeout,
    /// `--qemu`
    Qemu,
    /// `--fresh`
    Fresh,
    /// `--keep`
    Keep,
}

/// The VM flag that an argument is, if any.
pub open spec fn vm_flag_of(argument: Seq<char>) -> Option<VmFlag> {
    if argument == "--image-url"@ {
        Some(VmFlag::ImageUrl)
    } else if argument == "--cache-dir"@ {
        Some(VmFlag::CacheDir)
    } else if argument == "--memory"@ {
        Some(VmFlag::Memory)
    } else if argument == "--smp"@ {
        Some(VmFlag::Smp)
    } else if argument == "--timeout"@ {
        Some(VmFlag::Timeout)
    } else if argument == "--qemu"@ {
        Some(VmFlag::Qemu)
    } else if argument == "--fresh"@ {
        Some(VmFlag::Fresh)
    } else if argument == "--keep"@ {
        Some(VmFlag::Keep)
    } else {
        None
    }
}

/// What a VM flag does with its value `v`.
pub open spec fn with_vm_value(args: KtestArgsView, flag: VmFlag, v: Seq<char>) -> KtestArgsView {
    match flag {
        VmFlag::ImageUrl => KtestArgsView { image_url: Some(v), ..args },
        VmFlag::CacheDir => KtestArgsView { cache_dir: Some(v), ..args },
        VmFlag::Memory => KtestArgsView { memory: v, ..args },
        VmFlag::Smp => KtestArgsView { smp: v, ..args },
        VmFlag::Timeout => KtestArgsView { step_timeout: number_of(v)->0, ..args },
        VmFlag::Qemu => KtestArgsView { qemu_bin: Some(v), ..args },
        _ => args,
    }
}

/// Reads the arguments `rest` of `ktest` over what has been read before.
pub open spec fn parse_ktest(
    rest: Seq<Seq<char>>,
    args: KtestArgsView,
    sysdir_set: bool,
) -> ParsedView<KtestArgsView>
    decreases rest.len(),
{
    if rest.len() == 0 {
        if sysdir_set {
            ParsedView::Args(args)
        } else {
            ParsedView::Bad(ErrorView::sysdir_required())
        }
    } else {
        let argument = rest[0];
        let after = rest.drop_first();
        match flag_effect(argument, after, args.build, sysdir_set) {
            FlagView::Taken { args: build, sysdir_set, rest: after } => parse_ktest(
                after,
                KtestArgsView { build, ..args },
                sysdir_set,
            ),
            FlagView::Missing(flag) => ParsedView::Bad(ErrorView::needs_value(flag)),
            FlagView::Other => match vm_flag_of(argument) {
                Some(VmFlag::Fresh) => parse_ktest(
                    after,
                    KtestArgsView { fresh: true, ..args },
                    sysdir_set,
                ),
                Some(VmFlag::Keep) => parse_ktest(
                    after,
                    KtestArgsView { keep: true, ..args },
                    sysdir_set,
                ),
                Some(flag) => if after.len() == 0 {
                    ParsedView::Bad(ErrorView::needs_value(argument))
                } else if flag == VmFlag::Timeout && number_of(after[0]) is None {
                    ParsedView::Bad(ErrorView::timeout_not_a_number(number_problem(after[0])))
                } else {
                    parse_ktest(
                        after.drop_first(),
                        with_vm_value(args, flag, after[0]),
                        sysdir_set,
                    )
                },
                None => if asks_for_help(argument) {
                    ParsedView::Help
                } else {
                    ParsedView::Bad(ErrorView::unrecognized(argument))
                },
            },
        }
    }
}

/// The VM flag that an argument is, if any.
fn vm_flag(argument: &str) -> (r: Option<VmFlag>)
    ensures
        r == vm_flag_of(argument@),
{
    if same(argument, "--image-url") {
        Some(VmFlag::ImageUrl)
    } else if same(argument, "--cache-dir") {
        Some(VmFlag::CacheDir)
    } else if same(argument, "--memory") {
        Some(VmFlag::Memory)
    } else if same(argument, "--smp") {
        Some(VmFlag::Smp)
    } else if same(argument, "--timeout") {
        Some(VmFlag::Timeout)
    } else if same(argument, "--qemu") {
        Some(VmFlag::Qemu)
    } else if same(argument, "--fresh") {
        Some(VmFlag::Fresh)
    } else if same(argument, "--keep") {
        Some(VmFlag::Keep)
    } else {
        None
    }
}

/// Reads the command line of `ktest`.
pub fn parse_args(raw: Vec<String>) -> (r: Result<Parsed<KtestArgs>, Error>)
    ensures
        parsed_view(r) == parse_ktest(
            texts(raw@),
            default_ktest(default_args("arm64"@)),
            false,
        ),
{
    let ghost list = texts(raw@);
    let mut args = KtestArgs {
        build: parse_args_defaults_only("arm64"),
        image_url: None,
        cache_dir: None,
        memory: "2G".to_owned(),
        smp: "2".to_owned(),
        step_timeout: 120,
        qemu_bin: None,
        fresh: false,
        keep: false,
    };
    let mut sysdir_set: bool = false;
    let mut it = Args::new(raw);
    while !it.is_empty()
        invariant
            list == texts(raw@),
            parse_ktest(it@, args@, sysdir_set) == parse_ktest(
                list,
                default_ktest(default_args("arm64"@)),
                false,
            ),
        decreases it@.len(),
    {
        let a = match it.next() {
            Some(a) => a,
            None => String::new(),
        };
        match try_parse_flag(a.as_str(), &mut it, &mut args.build, &mut sysdir_set) {
            Err(e) => return Err(e),
            Ok(true) => {},
            Ok(false) => {
                match vm_flag(a.as_str()) {
                    Some(VmFlag::Fresh) => {
                        args.fresh = true;
                    },
                    Some(VmFlag::Keep) => {
                        args.keep = true;
                    },
                    Some(flag) => {
                        let v = match need_value(&mut it, a.as_str()) {
                            Ok(v) => v,
                            Err(e) => return Err(e),
                        };
                        match flag {
                            VmFlag::ImageUrl => {
                                args.image_url = Some(v);
                            },
                            VmFlag::CacheDir => {
                                args.cache_dir = Some(v);
                            },
                            VmFlag::Memory => {
                                args.memory = v;
                            },
                            VmFlag::Smp => {
                                args.smp = v;
                            },
                            VmFlag::Timeout => match parse_u64(v.as_str()) {
                                Some(seconds) => {
                                    args.step_timeout = seconds;
                                },
                                None => {
                                    let problem = number_error(v.as_str());
                                    return Err(Error::timeout_not_a_number(problem.as_str()));
                                },
                            },
                            VmFlag::Qemu => {
                                args.qemu_bin = Some(v);
                            },
                            _ => {},
                        }
                    },
                    None => {
                        if same(a.as_str(), "-h") || same(a.as_str(), "--help") {
                            return Ok(Parsed::Help);
                        }
                        return Err(Error::unrecognized(a.as_str()));
                    },
                }
            },
        }
    }
    if !sysdir_set {
        return Err(Error::sysdir_required());
    }
    Ok(Parsed::Args(args))
}

/// What `ktest --help` prints.
pub const KTEST_HELP: &'static str = "cargo kbuild ktest --sysdir <path> [options]\n\n\
Builds the module (same options as `cargo kbuild build`) and \
boots it in a QEMU FreeBSD VM to prove it kldloads.\n\n\
Build options: see `cargo kbuild build --help` (all accepted here too;\n\
--machine defaults to arm64, since that's HVF-accelerated on Apple\n\
Silicon hosts).\n\n\
VM options:\n\
\x20 --image-url <url>   VM image .xz (default: FreeBSD-CURRENT snapshot\n\
\x20                     VM-IMAGES for --machine, from download.freebsd.org)\n\
\x20 --cache-dir <dir>   where the downloaded/decompressed image is cached\n\
\x20                     (default ~/.cache/opendarwin-kbuild)\n\
\x20 --memory <size>     QEMU -m value (default 2G)\n\
\x20 --smp <n>           QEMU -smp value (default 2)\n\
\x20 --timeout <secs>    per-step console timeout (default 120)\n\
\x20 --qemu <path>       override the qemu-system-* binary\n\
\x20 --fresh             re-download/re-decompress the VM image\n\
\x20 --keep              keep the disk overlay/ISO/log for debugging\n";

} // verus!
