//! The programs that make up a build, as `sys/conf/kmod.mk` runs them.

use crate::args::{BuildArgs, BuildArgsView};
use crate::host::{command, env_texts, plain_command, push_env, Command, CommandView};
use crate::text::{cat3, push_text, push_texts, same, texts};
use crate::toolchain::{Toolchain, ToolchainView};
use vstd::prelude::*;

verus! {

/// The flags that every object for aarch64 is compiled with: a function that lacks
/// its landing pad takes the kernel down when it is called through a pointer.
pub open spec fn branch_protection() -> Seq<char> {
    "-Z branch-protection=bti,pac-ret"@
}

/// `RUSTFLAGS` with branch protection added to what was inherited.
pub open spec fn protected_flags(inherited: Seq<char>) -> Seq<char> {
    if inherited.len() == 0 {
        branch_protection()
    } else {
        inherited + " "@ + branch_protection()
    }
}

/// The environment that the crate is compiled in.
pub open spec fn cargo_envs(
    args: BuildArgsView,
    sysdir: Seq<char>,
    rustflags: Seq<char>,
) -> Seq<(Seq<char>, Seq<char>)> {
    let envs = seq![("FBSD_SYSDIR"@, sysdir), ("FBSD_MACHINE"@, args.machine)];
    if args.machine == "arm64"@ {
        envs.push(("RUSTFLAGS"@, protected_flags(rustflags)))
    } else {
        envs
    }
}

/// Compiles the crate to a static library for the target.
pub open spec fn cargo_command_of(
    args: BuildArgsView,
    target_json: Seq<char>,
    sysdir: Seq<char>,
    rustflags: Seq<char>,
) -> CommandView {
    let common = seq![
        "build"@,
        "--manifest-path"@,
        args.manifest_path,
        "--target"@,
        target_json,
        "-Z"@,
        "build-std=core"@,
        "-Z"@,
        "json-target-spec"@,
        "--target-dir"@,
        args.target_dir,
    ] + args.extra_cargo_args;
    CommandView {
        program: "cargo"@,
        args: if args.release {
            common.push("--release"@)
        } else {
            common
        },
        envs: cargo_envs(args, sysdir, rustflags),
        dir: None,
    }
}

/// Unpacks a static library into its objects, in `dir`.
pub open spec fn extract_command_of(
    tools: ToolchainView,
    library: Seq<char>,
    dir: Seq<char>,
) -> CommandView {
    CommandView {
        program: tools.llvm_ar,
        args: seq!["x"@, library],
        envs: Seq::empty(),
        dir: Some(dir),
    }
}

/// Links objects partially, through the kernel's linker script where there is one.
pub open spec fn link_command_of(
    tools: ToolchainView,
    emulation: Seq<char>,
    script: Option<Seq<char>>,
    out: Seq<char>,
    objects: Seq<Seq<char>>,
) -> CommandView {
    let start = seq!["-flavor"@, "gnu"@, "-m"@, emulation, "-warn-common"@, "-d"@];
    let scripted = match script {
        Some(s) => start.push("-T"@).push(s),
        None => start,
    };
    plain_command(tools.rust_lld, scripted.push("-r"@).push("-o"@).push(out) + objects)
}

/// Works out which symbols of `object` are to be made local, given those listed in
/// `list`.
pub open spec fn symbols_command_of(
    tools: ToolchainView,
    script: Seq<char>,
    object: Seq<char>,
    list: Seq<char>,
) -> CommandView {
    CommandView {
        program: "awk"@,
        args: seq!["-f"@, script, object, list],
        envs: seq![("NM"@, tools.llvm_nm)],
        dir: None,
    }
}

/// Edits the symbols of `object`.
pub open spec fn localize_command_of(
    tools: ToolchainView,
    flags: Seq<Seq<char>>,
    object: Seq<char>,
) -> CommandView {
    plain_command(tools.llvm_objcopy, flags.push(object))
}

/// Links a partially linked module as a shared object.
pub open spec fn share_command_of(
    tools: ToolchainView,
    emulation: Seq<char>,
    object: Seq<char>,
    out: Seq<char>,
) -> CommandView {
    plain_command(
        tools.rust_lld,
        seq![
            "-flavor"@,
            "gnu"@,
            "-m"@,
            emulation,
            "-Bshareable"@,
            "-znotext"@,
            "-znorelro"@,
            "-o"@,
            out,
            object,
        ],
    )
}

/// Drops the debugging information of a module.
pub open spec fn strip_command_of(tools: ToolchainView, object: Seq<char>) -> CommandView {
    plain_command(tools.llvm_objcopy, seq!["--strip-debug"@, object])
}

/// Compiles the crate to a static library for the target.
pub fn cargo_command(
    args: &BuildArgs,
    target_json: &str,
    sysdir: &str,
    rustflags: &str,
) -> (r: Command)
    ensures
        r@ == cargo_command_of(args@, target_json@, sysdir@, rustflags@),
{
    let mut list: Vec<String> = Vec::new();
    assert(texts(list@) =~= Seq::<Seq<char>>::empty());
    push_text(&mut list, "build");
    push_text(&mut list, "--manifest-path");
    push_text(&mut list, args.manifest_path.as_str());
    push_text(&mut list, "--target");
    push_text(&mut list, target_json);
    push_text(&mut list, "-Z");
    push_text(&mut list, "build-std=core");
    push_text(&mut list, "-Z");
    push_text(&mut list, "json-target-spec");
    push_text(&mut list, "--target-dir");
    push_text(&mut list, args.target_dir.as_str());
    push_texts(&mut list, &args.extra_cargo_args, 0);
    assert(texts(args.extra_cargo_args@).skip(0) =~= texts(args.extra_cargo_args@));
    if args.release {
        push_text(&mut list, "--release");
    }
    let mut envs: Vec<(String, String)> = Vec::new();
    assert(env_texts(envs@) =~= Seq::<(Seq<char>, Seq<char>)>::empty());
    push_env(&mut envs, "FBSD_SYSDIR", sysdir);
    push_env(&mut envs, "FBSD_MACHINE", args.machine.as_str());
    if same(args.machine.as_str(), "arm64") {
        let added = "-Z branch-protection=bti,pac-ret";
        let flags = if rustflags.is_empty() {
            added.to_owned()
        } else {
            cat3(rustflags, " ", added)
        };
        push_env(&mut envs, "RUSTFLAGS", flags.as_str());
    }
    Command { program: "cargo".to_owned(), args: list, envs, dir: None }
}

/// Unpacks a static library into its objects, in `dir`.
pub fn extract_command(tools: &Toolchain, library: &str, dir: &str) -> (r: Command)
    ensures
        r@ == extract_command_of(tools@, library@, dir@),
{
    let mut list: Vec<String> = Vec::new();
    assert(texts(list@) =~= Seq::<Seq<char>>::empty());
    push_text(&mut list, "x");
    push_text(&mut list, library);
    let plain = command(tools.llvm_ar.as_str(), list);
    Command { dir: Some(dir.to_owned()), ..plain }
}

/// Links objects partially, through the kernel's linker script where there is one.
pub fn link_command(
    tools: &Toolchain,
    emulation: &str,
    script: Option<&str>,
    out: &str,
    objects: &Vec<String>,
) -> (r: Command)
    ensures
        r@ == link_command_of(
            tools@,
            emulation@,
            match script {
                Some(s) => Some(s@),
                None => None,
            },
            out@,
            texts(objects@),
        ),
{
    let mut list: Vec<String> = Vec::new();
    assert(texts(list@) =~= Seq::<Seq<char>>::empty());
    push_text(&mut list, "-flavor");
    push_text(&mut list, "gnu");
    push_text(&mut list, "-m");
    push_text(&mut list, emulation);
    push_text(&mut list, "-warn-common");
    push_text(&mut list, "-d");
    match script {
        Some(s) => {
            push_text(&mut list, "-T");
            push_text(&mut list, s);
        },
        None => {},
    }
    push_text(&mut list, "-r");
    push_text(&mut list, "-o");
    push_text(&mut list, out);
    push_texts(&mut list, objects, 0);
    assert(texts(objects@).skip(0) =~= texts(objects@));
    command(tools.rust_lld.as_str(), list)
}

/// Works out which symbols of `object` are to be made local, given those listed in
/// `list`.
pub fn symbols_command(tools: &Toolchain, script: &str, object: &str, list: &str) -> (r: Command)
    ensures
        r@ == symbols_command_of(tools@, script@, object@, list@),
{
    let mut args: Vec<String> = Vec::new();
    assert(texts(args@) =~= Seq::<Seq<char>>::empty());
    push_text(&mut args, "-f");
    push_text(&mut args, script);
    push_text(&mut args, object);
    push_text(&mut args, list);
    let mut envs: Vec<(String, String)> = Vec::new();
    assert(env_texts(envs@) =~= Seq::<(Seq<char>, Seq<char>)>::empty());
    push_env(&mut envs, "NM", tools.llvm_nm.as_str());
    Command { program: "awk".to_owned(), args, envs, dir: None }
}

/// Edits the symbols of `object`.
pub fn localize_command(tools: &Toolchain, flags: &Vec<String>, object: &str) -> (r: Command)
    ensures
        r@ == localize_command_of(tools@, texts(flags@), object@),
{
    let mut list: Vec<String> = Vec::new();
    assert(texts(list@) =~= Seq::<Seq<char>>::empty());
    push_texts(&mut list, flags, 0);
    assert(texts(list@) =~= texts(flags@));
    push_text(&mut list, object);
    command(tools.llvm_objcopy.as_str(), list)
}

/// Links a partially linked module as a shared object.
pub fn share_command(tools: &Toolchain, emulation: &str, object: &str, out: &str) -> (r: Command)
    ensures
        r@ == share_command_of(tools@, emulation@, object@, out@),
{
    let mut list: Vec<String> = Vec::new();
    assert(texts(list@) =~= Seq::<Seq<char>>::empty());
    push_text(&mut list, "-flavor");
    push_text(&mut list, "gnu");
    push_text(&mut list, "-m");
    push_text(&mut list, emulation);
    push_text(&mut list, "-Bshareable");
    push_text(&mut list, "-znotext");
    push_text(&mut list, "-znorelro");
    push_text(&mut list, "-o");
    push_text(&mut list, out);
    push_text(&mut list, object);
    command(tools.rust_lld.as_str(), list)
}

/// Drops the debugging information of a module.
pub fn strip_command(tools: &Toolchain, object: &str) -> (r: Command)
    ensures
        r@ == strip_command_of(tools@, object@),
{
    let mut list: Vec<String> = Vec::new();
    assert(texts(list@) =~= Seq::<Seq<char>>::empty());
    push_text(&mut list, "--strip-debug");
    push_text(&mut list, object);
    command(tools.llvm_objcopy.as_str(), list)
}

} // verus!
