use kbuild::args::{parse_args, BuildArgs, ExportSyms, Parsed};
use kbuild::commands::{
    cargo_command, extract_command, link_command, localize_command, share_command, strip_command,
    symbols_command,
};
use kbuild::error::{Error, ErrorKind};
use kbuild::export::{apply_export_syms, strip_comments, Export};
use kbuild::host::{Action, Command, Reply, Step};
use kbuild::pipeline::{build, Build};
use kbuild::toolchain::Toolchain;

trait Summary {
    fn summary(&self) -> String;
}

impl Summary for Error {
    fn summary(&self) -> String {
        let mut said = vec![self.message.clone()];
        said.extend(self.causes.iter().cloned());
        said.join(": ")
    }
}

fn args(list: &[&str]) -> BuildArgs {
    match parse_args(list.iter().map(|s| s.to_string()).collect(), "amd64") {
        Ok(Parsed::Args(args)) => args,
        other => panic!("{other:?}"),
    }
}

fn line(c: &Command) -> String {
    let mut s = String::new();
    if let Some(dir) = &c.dir {
        s.push_str(&format!("cd {dir}; "));
    }
    for (name, value) in &c.envs {
        s.push_str(&format!("{name}={value} "));
    }
    s.push_str(&c.program);
    for a in &c.args {
        s.push(' ');
        s.push_str(a);
    }
    s
}

fn show(action: &Action) -> String {
    match action {
        Action::Exists(p) => format!("exists {p}"),
        Action::Canonicalize(p) => format!("canonicalize {p}"),
        Action::ReadFile(p) => format!("read {p}"),
        Action::WriteFile { path, contents } => format!("write {path} {contents:?}"),
        Action::CreateDirs(p) => format!("mkdir {p}"),
        Action::RemoveDir(p) => format!("rmdir {p}"),
        Action::ListDir(p) => format!("list {p}"),
        Action::Copy { from, to } => format!("copy {from} {to}"),
        Action::Run(c) => format!("run {}", line(c)),
        Action::Capture(c) => format!("capture {}", line(c)),
        Action::Say(s) => format!("say {s}"),
        other => panic!("{other:?}"),
    }
}

fn text(s: &str) -> Reply {
    Reply::Text(s.to_string())
}

fn out(s: &str) -> Reply {
    Reply::Output { success: true, stdout: s.as_bytes().to_vec(), stderr: Vec::new() }
}

fn ok() -> Reply {
    Reply::Exit { success: true, status: "exit status: 0".to_string() }
}

fn names(list: &[&str]) -> Reply {
    Reply::Names(list.iter().map(|s| s.to_string()).collect())
}

fn tools() -> Toolchain {
    Toolchain {
        rust_lld: "/t/rust-lld".to_string(),
        llvm_ar: "/t/llvm-ar".to_string(),
        llvm_nm: "/t/llvm-nm".to_string(),
        llvm_objcopy: "/t/llvm-objcopy".to_string(),
    }
}

/// What the host answers where everything goes well.
fn well(action: &Action) -> Reply {
    match action {
        Action::Exists(p) => Reply::Is(p != "src/conf/kmod.mk"),
        Action::Canonicalize(p) => text(&format!("/abs/{p}")),
        Action::ReadFile(_) => text("[package]\nname = \"my-mod\"\n"),
        Action::ListDir(_) => names(&["a.o", "notes.txt", "b.o", "o", ".o"]),
        Action::Run(_) => ok(),
        Action::Capture(c) if c.program == "awk" => out("-L\nsym\n"),
        Action::Capture(c) if c.args[0] == "-vV" => out("host: h\n"),
        Action::Capture(_) => out("/r\n"),
        _ => Reply::Done,
    }
}

/// Runs a build, recording what it asks for; `spoil` may answer in place of the host.
fn drive(
    args: BuildArgs,
    rustflags: &str,
    spoil: impl Fn(&Action) -> Option<Reply>,
) -> (Vec<String>, Result<String, Error>) {
    let mut b = Build::new(args, "/w/crates/cargo-kbuild", rustflags);
    let mut log = Vec::new();
    let mut reply = Reply::Begin;
    loop {
        match build(&mut b, &reply) {
            Step::Do(action) => {
                log.push(show(&action));
                reply = spoil(&action).unwrap_or_else(|| well(&action));
            }
            Step::Done(path) => return (log, Ok(path)),
            Step::Fail(e) => return (log, Err(e)),
        }
    }
}

fn failure(spoil: impl Fn(&Action) -> Option<Reply>) -> Error {
    drive(args(&["-s", "src"]), "", spoil).1.unwrap_err()
}

#[test]
fn an_amd64_module_is_linked_directly() {
    let (log, result) = drive(args(&["-s", "src", "--", "-v"]), "", |_| None);
    let dir = "target/kbuild/kbuild-work/my-mod";
    let bin = "/r/lib/rustlib/h/bin";
    let json = "/w/targets/x86_64-unknown-freebsd-kernel.json";
    let lib = "target/kbuild/x86_64-unknown-freebsd-kernel/release/libmy_mod.a";
    let expected = vec![
        "exists src/conf/kmod.mk".to_string(),
        "exists src/sys/conf/kmod.mk".to_string(),
        "canonicalize src/sys".to_string(),
        "capture rustc -vV".to_string(),
        "capture rustc --print sysroot".to_string(),
        format!("exists {bin}/rust-lld"),
        format!("exists {bin}/llvm-ar"),
        format!("exists {bin}/llvm-nm"),
        format!("exists {bin}/llvm-objcopy"),
        format!("exists {json}"),
        "read Cargo.toml".to_string(),
        "mkdir target/kbuild".to_string(),
        format!(
            "run FBSD_SYSDIR=/abs/src/sys FBSD_MACHINE=amd64 cargo build --manifest-path Cargo.toml \
             --target {json} -Z build-std=core -Z json-target-spec --target-dir target/kbuild -v \
             --release"
        ),
        format!("exists {lib}"),
        format!("rmdir {dir}"),
        format!("mkdir {dir}"),
        format!("canonicalize {lib}"),
        format!("run cd {dir}; {bin}/llvm-ar x /abs/{lib}"),
        format!("list {dir}"),
        "exists /abs/src/sys/conf/ldscript.kmod.amd64".to_string(),
        format!(
            "run {bin}/rust-lld -flavor gnu -m elf_x86_64_fbsd -warn-common -d -T \
             /abs/src/sys/conf/ldscript.kmod.amd64 -r -o {dir}/my-mod.kld {dir}/a.o {dir}/b.o"
        ),
        format!("write {dir}/export_syms \"\""),
        format!(
            "capture NM={bin}/llvm-nm awk -f /abs/src/sys/conf/kmod_syms.awk {dir}/my-mod.kld \
             {dir}/export_syms"
        ),
        format!("run {bin}/llvm-objcopy -L sym {dir}/my-mod.kld"),
        format!("run {bin}/llvm-objcopy --strip-debug {dir}/my-mod.kld"),
        format!("copy {dir}/my-mod.kld my-mod.ko"),
        "say cargo-kbuild: wrote my-mod.ko".to_string(),
    ];
    assert_eq!(log, expected);
    assert_eq!(result.unwrap(), "my-mod.ko");
}

#[test]
fn an_arm64_module_is_linked_as_a_shared_object() {
    let list = [
        "-s", "src", "-m", "arm64", "--debug", "-o", "out/x.ko", "--export-syms", "YES",
        "--target-dir", "t",
    ];
    let (log, result) = drive(args(&list), "-C opt-level=1", |action| match action {
        Action::Exists(p) if p.contains("ldscript") => Some(Reply::Is(false)),
        _ => None,
    });
    let dir = "t/kbuild-work/my-mod";
    let bin = "/r/lib/rustlib/h/bin";
    let runs: Vec<&String> = log.iter().filter(|l| l.starts_with("run")).collect();
    let expected = [
        "run FBSD_SYSDIR=/abs/src/sys FBSD_MACHINE=arm64 \
         RUSTFLAGS=-C opt-level=1 -Z branch-protection=bti,pac-ret cargo build \
         --manifest-path Cargo.toml --target /w/targets/aarch64-unknown-freebsd-kernel.json \
         -Z build-std=core -Z json-target-spec --target-dir t"
            .to_string(),
        format!(
            "run cd {dir}; {bin}/llvm-ar x \
             /abs/t/aarch64-unknown-freebsd-kernel/debug/libmy_mod.a"
        ),
        format!(
            "run {bin}/rust-lld -flavor gnu -m aarch64elf -warn-common -d -r -o {dir}/my-mod.kld \
             {dir}/a.o {dir}/b.o"
        ),
        format!(
            "run {bin}/rust-lld -flavor gnu -m aarch64elf -Bshareable -znotext -znorelro -o \
             {dir}/my-mod.ko {dir}/my-mod.kld"
        ),
        format!("run {bin}/llvm-objcopy --strip-debug {dir}/my-mod.ko"),
    ];
    assert_eq!(runs, expected.iter().collect::<Vec<_>>());
    assert_eq!(log[log.len() - 2], format!("copy {dir}/my-mod.ko out/x.ko"));
    assert_eq!(log[log.len() - 1], "say cargo-kbuild: wrote out/x.ko");
    assert!(!log.iter().any(|l| l.contains("awk")));
    assert_eq!(result.unwrap(), "out/x.ko");
}

#[test]
fn an_export_list_is_stripped_of_comments() {
    let list = ["-s", "src", "--export-syms", "syms"];
    let (log, result) = drive(args(&list), "", |action| match action {
        Action::ReadFile(p) if p == "syms" => Some(text("# head\r\na\r\n #b\n\n#c\nd")),
        Action::Capture(c) if c.program == "awk" => Some(out("")),
        _ => None,
    });
    assert!(result.is_ok());
    let dir = "target/kbuild/kbuild-work/my-mod";
    assert!(log.contains(&"read syms".to_string()));
    assert!(log.contains(&format!("write {dir}/export_syms \"a\\n #b\\n\\nd\\n\"")));
    assert!(!log.iter().any(|l| l.contains("llvm-objcopy -L")));
    assert_eq!(strip_comments("#x\n"), "");
    assert_eq!(strip_comments("a"), "a\n");
}

#[test]
fn an_unsupported_machine_is_refused_before_anything_is_built() {
    let (log, result) = drive(args(&["-s", "src", "-m", "mips"]), "", |_| None);
    assert_eq!(result.unwrap_err().kind, ErrorKind::UnsupportedMachine);
    assert_eq!(log.len(), 3);
}

#[test]
fn every_failed_program_ends_the_build() {
    let programs = ["cargo", "llvm-ar", "rust-lld", "llvm-objcopy"];
    for program in programs {
        let status = "signal: 9 (SIGKILL)";
        let e = failure(|action| match action {
            Action::Run(c) if c.program.ends_with(program) => {
                Some(Reply::Exit { success: false, status: status.to_string() })
            }
            _ => None,
        });
        assert_eq!(e.kind, ErrorKind::Exited);
        assert!(e.message.ends_with(&format!("{program}\" exited with {status}")), "{e:?}");
    }
}

#[test]
fn a_missing_library_is_reported() {
    let e = failure(|action| match action {
        Action::Exists(p) if p.ends_with(".a") => Some(Reply::Is(false)),
        _ => None,
    });
    assert_eq!(e.kind, ErrorKind::NoStaticlib);
    assert_eq!(
        e.message,
        "expected staticlib at \
         \"target/kbuild/x86_64-unknown-freebsd-kernel/release/libmy_mod.a\" was not produced"
    );
}

#[test]
fn a_library_without_objects_is_reported() {
    let e = failure(|action| match action {
        Action::ListDir(_) => Some(names(&["a.txt", ".o", "o"])),
        _ => None,
    });
    assert_eq!(e.kind, ErrorKind::NoObjects);
    assert_eq!(
        e.message,
        "no .o members extracted from \
         \"target/kbuild/x86_64-unknown-freebsd-kernel/release/libmy_mod.a\""
    );
}

#[test]
fn the_symbol_script_may_fail() {
    let e = failure(|action| match action {
        Action::Capture(c) if c.program == "awk" => Some(Reply::Output {
            success: false,
            stdout: Vec::new(),
            stderr: b"bad \xff script".to_vec(),
        }),
        _ => None,
    });
    assert_eq!(e.kind, ErrorKind::AwkFailed);
    assert_eq!(
        e.message,
        "\"/abs/src/sys/conf/kmod_syms.awk\" failed: bad \u{fffd} script"
    );
    let e = failure(|action| match action {
        Action::Capture(c) if c.program == "awk" => Some(Reply::Output {
            success: true,
            stdout: vec![0x80],
            stderr: Vec::new(),
        }),
        _ => None,
    });
    assert_eq!(e.kind, ErrorKind::NotUtf8);
    assert_eq!(e.message, "kmod_syms.awk output not UTF-8");
    let e = failure(|action| match action {
        Action::Capture(c) if c.program == "awk" => Some(Reply::Failed("gone".to_string())),
        _ => None,
    });
    assert_eq!(e.summary(), "running awk -f \"/abs/src/sys/conf/kmod_syms.awk\": gone");
}

#[test]
fn what_the_host_refuses_is_reported() {
    let refuse = |what: &'static str| {
        failure(move |action| {
            if show(action).starts_with(what) {
                Some(Reply::Failed("no".to_string()))
            } else {
                None
            }
        })
        .summary()
    };
    let dir = "target/kbuild/kbuild-work/my-mod";
    assert_eq!(refuse("mkdir target/kbuild"), "creating --target-dir: no");
    assert_eq!(refuse("mkdir target/kbuild/kbuild-work"), "creating kbuild work dir: no");
    assert_eq!(refuse("list"), "reading extracted objects: no");
    assert_eq!(refuse("copy"), format!("copying \"{dir}/my-mod.kld\" to \"my-mod.ko\": no"));
    assert_eq!(refuse("read Cargo.toml"), "reading \"Cargo.toml\": no");
    assert_eq!(refuse("run cd"), "spawning \"/r/lib/rustlib/h/bin/llvm-ar\": no");
    assert_eq!(refuse("canonicalize target"), "no");
    assert_eq!(refuse("write"), "no");
    let (_, result) = drive(args(&["-s", "src"]), "", |action| match action {
        Action::RemoveDir(_) => Some(Reply::Failed("not there".to_string())),
        _ => None,
    });
    assert!(result.is_ok());
}

#[test]
fn an_unreadable_export_list_is_reported() {
    let (_, result) = drive(args(&["-s", "src", "--export-syms", "s"]), "", |action| match action {
        Action::ReadFile(p) if p == "s" => Some(Reply::Failed("no".to_string())),
        _ => None,
    });
    assert_eq!(result.unwrap_err().summary(), "reading export-syms list \"s\": no");
}

#[test]
fn exporting_everything_asks_for_nothing() {
    let mut at = Export::new();
    let step = apply_export_syms(
        &mut at,
        &ExportSyms::Yes,
        "o",
        "sys",
        &tools(),
        "w",
        &Reply::Begin,
    );
    assert!(matches!(step, Step::Done(())));
}

#[test]
fn command_lines_of_the_steps() {
    let t = tools();
    let a = args(&["-s", "x", "-m", "arm64"]);
    let c = cargo_command(&a, "j.json", "/sys", "");
    assert_eq!(c.envs[2].1, "-Z branch-protection=bti,pac-ret");
    let c = cargo_command(&args(&["-s", "x", "--debug"]), "j.json", "/sys", "-g");
    assert_eq!(c.envs.len(), 2);
    assert!(!c.args.contains(&"--release".to_string()));
    assert_eq!(line(&extract_command(&t, "/l.a", "d")), "cd d; /t/llvm-ar x /l.a");
    let objects = vec!["a.o".to_string()];
    assert_eq!(
        line(&link_command(&t, "e", Some("s"), "o", &objects)),
        "/t/rust-lld -flavor gnu -m e -warn-common -d -T s -r -o o a.o"
    );
    assert_eq!(
        line(&link_command(&t, "e", None, "o", &objects)),
        "/t/rust-lld -flavor gnu -m e -warn-common -d -r -o o a.o"
    );
    assert_eq!(line(&symbols_command(&t, "s", "o", "l")), "NM=/t/llvm-nm awk -f s o l");
    assert_eq!(line(&localize_command(&t, &objects, "o")), "/t/llvm-objcopy a.o o");
    assert_eq!(
        line(&share_command(&t, "e", "o", "k")),
        "/t/rust-lld -flavor gnu -m e -Bshareable -znotext -znorelro -o k o"
    );
    assert_eq!(line(&strip_command(&t, "o")), "/t/llvm-objcopy --strip-debug o");
}
