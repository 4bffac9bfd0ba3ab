use kbuild::args::{
    need_value, parse_args, parse_args_defaults_only, try_parse_flag, Args, BuildArgs, ExportSyms,
    Parsed, BUILD_HELP,
};
use kbuild::cli::{parse_command_line, Invocation};
use kbuild::error::{Error, ErrorKind};
use kbuild::ktest_args::{parse_args as parse_ktest_args, KtestArgs, KTEST_HELP};

fn raw(list: &[&str]) -> Vec<String> {
    list.iter().map(|s| s.to_string()).collect()
}

fn built(list: &[&str]) -> BuildArgs {
    match parse_args(raw(list), "amd64") {
        Ok(Parsed::Args(args)) => args,
        other => panic!("{other:?}"),
    }
}

fn tested(list: &[&str]) -> KtestArgs {
    match parse_ktest_args(raw(list)) {
        Ok(Parsed::Args(args)) => args,
        other => panic!("{other:?}"),
    }
}

fn refused(list: &[&str]) -> Error {
    match parse_args(raw(list), "amd64") {
        Err(e) => e,
        other => panic!("{other:?}"),
    }
}

fn test_refused(list: &[&str]) -> Error {
    match parse_ktest_args(raw(list)) {
        Err(e) => e,
        other => panic!("{other:?}"),
    }
}

#[test]
fn build_defaults() {
    let args = parse_args_defaults_only("arm64");
    assert_eq!(args.sysdir, "");
    assert_eq!(args.machine, "arm64");
    assert_eq!(args.manifest_path, "Cargo.toml");
    assert!(args.release);
    assert_eq!(args.out, None);
    assert!(matches!(args.export_syms, ExportSyms::No));
    assert_eq!(args.target_dir, "target/kbuild");
    assert!(args.extra_cargo_args.is_empty());
}

#[test]
fn every_build_option_is_taken() {
    let args = built(&[
        "-s", "/src", "-m", "arm64", "--manifest-path", "m/Cargo.toml", "--debug", "-o", "x.ko",
        "--target-dir", "t", "--export-syms", "list", "--", "--locked", "--help", "-s",
    ]);
    assert_eq!(args.sysdir, "/src");
    assert_eq!(args.machine, "arm64");
    assert_eq!(args.manifest_path, "m/Cargo.toml");
    assert!(!args.release);
    assert_eq!(args.out.as_deref(), Some("x.ko"));
    assert_eq!(args.target_dir, "t");
    assert!(matches!(&args.export_syms, ExportSyms::List(p) if p == "list"));
    assert_eq!(args.extra_cargo_args, raw(&["--locked", "--help", "-s"]));
}

#[test]
fn long_options_and_later_ones_win() {
    let args = built(&[
        "--sysdir", "a", "--sysdir", "b", "--machine", "x", "--debug", "--release", "--out", "o",
    ]);
    assert_eq!(args.sysdir, "b");
    assert_eq!(args.machine, "x");
    assert!(args.release);
    assert_eq!(args.out.as_deref(), Some("o"));
}

#[test]
fn package_names_a_directory() {
    let args = built(&["--sysdir", "../freebsd-src", "-p", "examples/hello"]);
    assert_eq!(args.manifest_path, "examples/hello/Cargo.toml");
}

#[test]
fn export_syms_values() {
    for (value, expected) in [("YES", "Yes"), ("yes", "Yes"), ("NO", "No"), ("no", "No")] {
        let args = built(&["-s", "x", "--export-syms", value]);
        assert_eq!(format!("{:?}", args.export_syms), expected);
    }
    let args = built(&["-s", "x", "--export-syms", "Yes"]);
    assert!(matches!(&args.export_syms, ExportSyms::List(p) if p == "Yes"));
}

#[test]
fn copies_hold_the_same() {
    let args = built(&["-s", "x", "--export-syms", "f", "-o", "y", "--", "z"]);
    assert_eq!(format!("{:?}", args.copy()), format!("{args:?}"));
    assert_eq!(format!("{:?}", ExportSyms::Yes.copy()), "Yes");
}

#[test]
fn a_flag_needs_its_value() {
    let e = refused(&["--sysdir"]);
    assert_eq!(e.kind, ErrorKind::NeedsValue);
    assert_eq!(e.message, "--sysdir needs a value");
    assert_eq!(refused(&["-s", "x", "-o"]).message, "--out needs a value");
    assert_eq!(refused(&["-s", "x", "-m"]).message, "--machine needs a value");
    let mut none = Args::new(Vec::new());
    assert!(none.is_empty());
    assert_eq!(need_value(&mut none, "--memory").unwrap_err().message, "--memory needs a value");
    let mut one = Args::new(raw(&["v"]));
    assert_eq!(need_value(&mut one, "--memory").unwrap(), "v");
    assert_eq!(one.next(), None);
}

#[test]
fn unknown_arguments_are_refused() {
    let e = refused(&["-s", "x", "--wat"]);
    assert_eq!(e.kind, ErrorKind::Unrecognized);
    assert_eq!(e.message, "unrecognized argument: --wat (see --help)");
    assert_eq!(test_refused(&["wat"]).message, "unrecognized argument: wat (see --help)");
}

#[test]
fn sysdir_is_required() {
    let expected = "--sysdir <path> is required: point it at a FreeBSD source tree \
                    (its root or its sys/ subdirectory)";
    let e = refused(&["--debug"]);
    assert_eq!(e.kind, ErrorKind::SysdirRequired);
    assert_eq!(e.message, expected);
    assert_eq!(test_refused(&["--keep"]).message, expected);
    assert_eq!(refused(&["--", "--sysdir", "x"]).kind, ErrorKind::SysdirRequired);
}

#[test]
fn a_flag_of_another_command_is_left_alone() {
    let mut it = Args::new(raw(&["1"]));
    let mut args = parse_args_defaults_only("amd64");
    let mut set = false;
    assert!(!try_parse_flag("--timeout", &mut it, &mut args, &mut set).unwrap());
    assert_eq!(it.next().as_deref(), Some("1"));
    assert!(!set);
    let mut it = Args::new(raw(&["/src", "rest"]));
    assert!(try_parse_flag("--sysdir", &mut it, &mut args, &mut set).unwrap());
    assert!(set);
    assert_eq!(args.sysdir, "/src");
    assert_eq!(it.next().as_deref(), Some("rest"));
}

#[test]
fn ktest_defaults() {
    let args = tested(&["-s", "x"]);
    assert_eq!(args.build.machine, "arm64");
    assert_eq!(args.image_url, None);
    assert_eq!(args.cache_dir, None);
    assert_eq!(args.memory, "2G");
    assert_eq!(args.smp, "2");
    assert_eq!(args.step_timeout, 120);
    assert_eq!(args.qemu_bin, None);
    assert!(!args.fresh);
    assert!(!args.keep);
}

#[test]
fn every_vm_option_is_taken() {
    let args = tested(&[
        "--image-url", "http://x/i.xz", "--cache-dir", "c", "--memory", "4G", "--smp", "8",
        "--timeout", "5", "--qemu", "q", "--fresh", "--keep", "-s", "x", "-m", "amd64",
    ]);
    assert_eq!(args.image_url.as_deref(), Some("http://x/i.xz"));
    assert_eq!(args.cache_dir.as_deref(), Some("c"));
    assert_eq!(args.memory, "4G");
    assert_eq!(args.smp, "8");
    assert_eq!(args.step_timeout, 5);
    assert_eq!(args.qemu_bin.as_deref(), Some("q"));
    assert!(args.fresh);
    assert!(args.keep);
    assert_eq!(args.build.sysdir, "x");
    assert_eq!(args.build.machine, "amd64");
}

#[test]
fn timeout_must_be_a_number() {
    for bad in ["x", "-1", "1.5", "", "99999999999999999999"] {
        let e = test_refused(&["-s", "x", "--timeout", bad]);
        assert_eq!(e.kind, ErrorKind::TimeoutNotANumber);
        assert_eq!(e.message, "--timeout must be a number of seconds");
        assert_eq!(e.causes, [bad.parse::<u64>().unwrap_err().to_string()]);
    }
    assert_eq!(test_refused(&["--timeout"]).message, "--timeout needs a value");
    assert_eq!(tested(&["-s", "x", "--timeout", "+7"]).step_timeout, 7);
}

#[test]
fn ktest_accepts_what_build_accepts() {
    let options = ["-s", "a", "-m", "amd64", "--debug", "--export-syms", "YES", "--", "-v"];
    let build = built(&options);
    assert_eq!(format!("{:?}", tested(&options).build), format!("{build:?}"));
}

#[test]
fn help_wins_over_what_follows() {
    for flag in ["-h", "--help"] {
        assert!(matches!(parse_args(raw(&[flag, "--wat"]), "amd64"), Ok(Parsed::Help)));
        assert!(matches!(parse_ktest_args(raw(&["--keep", flag])), Ok(Parsed::Help)));
        assert_eq!(refused(&["--wat", flag]).kind, ErrorKind::Unrecognized);
    }
}

#[test]
fn command_lines_are_dispatched() {
    let line = |list: &[&str]| format!("{:?}", parse_command_line(raw(list)));
    assert_eq!(line(&["-h"]), line(&["kbuild", "-h"]));
    assert!(matches!(parse_command_line(raw(&["kbuild", "--help"])), Ok(Invocation::BuildHelp)));
    assert!(matches!(parse_command_line(raw(&["build", "--help"])), Ok(Invocation::BuildHelp)));
    assert!(matches!(parse_command_line(raw(&["ktest", "-h"])), Ok(Invocation::KtestHelp)));
    let args = ["-s", "x", "--debug"];
    assert_eq!(line(&args), line(&["build", "-s", "x", "--debug"]));
    assert_eq!(line(&args), line(&["kbuild", "build", "-s", "x", "--debug"]));
    match parse_command_line(raw(&["-s", "x"])) {
        Ok(Invocation::Build(args)) => assert_eq!(args.machine, "amd64"),
        other => panic!("{other:?}"),
    }
    match parse_command_line(raw(&["kbuild", "ktest", "-s", "x"])) {
        Ok(Invocation::Ktest(args)) => assert_eq!(args.build.machine, "arm64"),
        other => panic!("{other:?}"),
    }
    match parse_command_line(Vec::new()) {
        Err(e) => assert_eq!(e.kind, ErrorKind::SysdirRequired),
        other => panic!("{other:?}"),
    }
    match parse_command_line(raw(&["-s", "x", "ktest"])) {
        Err(e) => assert_eq!(e.message, "unrecognized argument: ktest (see --help)"),
        other => panic!("{other:?}"),
    }
}

#[test]
fn help_names_every_option() {
    for option in [
        "--sysdir, -s <path>", "--machine, -m <name>", "--manifest-path <path>", "-p <dir>",
        "--release / --debug", "-o, --out <file>", "--export-syms <v>", "--target-dir <dir>",
        "-- <cargo args...>",
    ] {
        assert!(BUILD_HELP.contains(option), "{option}");
    }
    for option in [
        "--image-url", "--cache-dir", "--memory", "--smp", "--timeout", "--qemu", "--fresh", "--keep",
    ] {
        assert!(KTEST_HELP.contains(option), "{option}");
    }
}
