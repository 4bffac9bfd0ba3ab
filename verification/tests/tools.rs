use kbuild::error::{Error, ErrorKind};
use kbuild::host::{ack, bare_ack, run_cmd, Action, Reply, Step};
use kbuild::machine::{ld_emulation, machine_cpuarch, target_name, target_spec_path};
use kbuild::manifest::{crate_name, read_crate_name};
use kbuild::sysdir::{resolve_sysdir, SysdirSearch};
use kbuild::toolchain::{host_triple, rustc_sysroot, Discovery, Toolchain};

trait Summary {
    fn summary(&self) -> String;
}

impl Summary for Error {
    fn summary(&self) -> String {
        let mut said = vec![self.message.clone()];
        said.extend(self.causes.iter().cloned());
        said.join(": ")
    }
}

fn asked<T: std::fmt::Debug>(step: Step<T>) -> Action {
    match step {
        Step::Do(action) => action,
        other => panic!("{other:?}"),
    }
}

fn failed<T: std::fmt::Debug>(step: Step<T>) -> Error {
    match step {
        Step::Fail(e) => e,
        other => panic!("{other:?}"),
    }
}

fn done<T: std::fmt::Debug>(step: Step<T>) -> T {
    match step {
        Step::Done(value) => value,
        other => panic!("{other:?}"),
    }
}

fn output(stdout: &[u8]) -> Reply {
    Reply::Output { success: true, stdout: stdout.to_vec(), stderr: Vec::new() }
}

#[test]
fn supported_machines() {
    assert_eq!(machine_cpuarch("amd64").unwrap(), "amd64");
    assert_eq!(machine_cpuarch("arm64").unwrap(), "aarch64");
    assert_eq!(ld_emulation("amd64").unwrap(), "elf_x86_64_fbsd");
    assert_eq!(ld_emulation("arm64").unwrap(), "aarch64elf");
    assert_eq!(target_name("amd64").unwrap(), "x86_64-unknown-freebsd-kernel");
    assert_eq!(target_name("arm64").unwrap(), "aarch64-unknown-freebsd-kernel");
}

#[test]
fn other_machines_are_refused() {
    for machine in ["", "AMD64", "i386", "riscv64", "aarch64"] {
        let e = machine_cpuarch(machine).unwrap_err();
        assert_eq!(e.kind, ErrorKind::UnsupportedMachine);
        let expected = format!("unsupported --machine {machine} (supported: amd64, arm64)");
        assert_eq!(e.message, expected);
        assert_eq!(ld_emulation(machine).unwrap_err().message, expected);
        assert_eq!(target_name(machine).unwrap_err().message, expected);
    }
}

#[test]
fn target_specifications_lie_in_the_workspace() {
    let path = "/w/targets/x86_64-unknown-freebsd-kernel.json";
    let dir = "/w/crates/cargo-kbuild";
    match asked(target_spec_path(dir, "amd64", &Reply::Begin)) {
        Action::Exists(p) => assert_eq!(p, path),
        other => panic!("{other:?}"),
    }
    assert_eq!(done(target_spec_path(dir, "amd64", &Reply::Is(true))), path);
    let e = failed(target_spec_path(dir, "amd64", &Reply::Is(false)));
    assert_eq!(e.kind, ErrorKind::TargetSpecMissing);
    assert_eq!(e.message, format!("target spec {path:?} not found"));
    let e = failed(target_spec_path("/w", "arm64", &Reply::Begin));
    assert_eq!(e.kind, ErrorKind::NoGrandparent);
    assert_eq!(e.message, "CARGO_MANIFEST_DIR has no grandparent");
    assert_eq!(failed(target_spec_path("/w", "vax", &Reply::Begin)).kind, ErrorKind::UnsupportedMachine);
}

#[test]
fn a_tree_is_recognised_by_its_sys_directory() {
    let mut at = SysdirSearch::Start;
    match asked(resolve_sysdir(&mut at, "/src/sys", &Reply::Begin)) {
        Action::Exists(p) => assert_eq!(p, "/src/sys/conf/kmod.mk"),
        other => panic!("{other:?}"),
    }
    match asked(resolve_sysdir(&mut at, "/src/sys", &Reply::Is(true))) {
        Action::Canonicalize(p) => assert_eq!(p, "/src/sys"),
        other => panic!("{other:?}"),
    }
    let sys = done(resolve_sysdir(&mut at, "/src/sys", &Reply::Text("/real/sys".to_string())));
    assert_eq!(sys, "/real/sys");
}

#[test]
fn a_tree_is_recognised_by_its_root() {
    let mut at = SysdirSearch::Start;
    asked(resolve_sysdir(&mut at, "../src", &Reply::Begin));
    match asked(resolve_sysdir(&mut at, "../src", &Reply::Is(false))) {
        Action::Exists(p) => assert_eq!(p, "../src/sys/conf/kmod.mk"),
        other => panic!("{other:?}"),
    }
    match asked(resolve_sysdir(&mut at, "../src", &Reply::Is(true))) {
        Action::Canonicalize(p) => assert_eq!(p, "../src/sys"),
        other => panic!("{other:?}"),
    }
    let e = failed(resolve_sysdir(&mut at, "../src", &Reply::Failed("gone".to_string())));
    assert_eq!(e.kind, ErrorKind::Io);
    assert_eq!(e.message, "canonicalizing \"../src/sys\"");
    assert_eq!(e.causes, ["gone"]);
}

#[test]
fn other_directories_are_no_tree() {
    let mut at = SysdirSearch::Start;
    asked(resolve_sysdir(&mut at, "a \"b\"", &Reply::Begin));
    asked(resolve_sysdir(&mut at, "a \"b\"", &Reply::Is(false)));
    let e = failed(resolve_sysdir(&mut at, "a \"b\"", &Reply::Is(false)));
    assert_eq!(e.kind, ErrorKind::NotASourceTree);
    assert_eq!(
        e.message,
        format!(
            "{:?} doesn't look like a FreeBSD source tree: expected \
             conf/kmod.mk under it (or under a sys/ subdirectory)",
            "a \"b\""
        )
    );
}

#[test]
fn an_unfit_reply_is_an_error() {
    let mut at = SysdirSearch::Start;
    asked(resolve_sysdir(&mut at, "x", &Reply::Begin));
    let e = failed(resolve_sysdir(&mut at, "x", &Reply::Size(1)));
    assert_eq!(e.kind, ErrorKind::UnexpectedReply);
}

#[test]
fn crate_names_in_manifests() {
    let name = |text: &str| crate_name(text);
    assert_eq!(name("[package]\nname = \"hello\"\n").as_deref(), Some("hello"));
    assert_eq!(name("[package]\r\nname=\"a-b\"\r\n").as_deref(), Some("a-b"));
    assert_eq!(name("[package]\nname = \"p\"\n[lib]\nname = \"l\"\n").as_deref(), Some("l"));
    assert_eq!(name("[lib]\nname = \"l\"\n[package]\nname = \"p\"\n").as_deref(), Some("l"));
    assert_eq!(name("[package]\nname = \"p\"\n[[bin]]\nname = \"b\"\n").as_deref(), Some("p"));
    assert_eq!(name("[package]\nname = \"a\"\nname = \"b\"\n").as_deref(), Some("b"));
    assert_eq!(name("  [package]  \n  name  =  \"\"x\"\"  ").as_deref(), Some("x"));
    assert_eq!(name("[package]\nname = bare\n").as_deref(), Some("bare"));
    assert_eq!(name("[package]\nname = \"a=b\"\n").as_deref(), Some("a=b"));
    assert_eq!(name("[package]\nname = \"\"\n").as_deref(), Some(""));
    assert_eq!(name("name = \"top\"\n"), None);
    assert_eq!(name("[dependencies]\nname = \"d\"\n"), None);
    assert_eq!(name("[ package ]\nname = \"d\"\n"), None);
    assert_eq!(name("[package] # c\nname = \"d\"\n"), None);
    assert_eq!(name("[package]\nversion = \"1\"\n"), None);
    assert_eq!(name(""), None);
}

#[test]
fn other_sections_do_not_name_the_crate() {
    let text = "[package]\nname = \"p\"\n[dependencies]\n";
    let more = "name = \"x\"\nother = 1\nname = \"y\"\n";
    assert_eq!(crate_name(text), crate_name(&format!("{text}{more}")));
}

#[test]
fn blanks_and_line_ends_do_not_matter() {
    let a = "[package]\nname=\"hello\"\nother=1\n[lib]\npath=\"x\"\n";
    let b = " [package]\t\n  name \t= \"hello\"  \nother =1\n\u{a0}[lib]\n path= \"x\"\n";
    assert_eq!(crate_name(a).as_deref(), Some("hello"));
    assert_eq!(crate_name(b), crate_name(a));
    assert_eq!(crate_name(&b.replace('\n', "\r\n")), crate_name(a));
    let none = "[package]\nversion=\"1\"\n";
    assert_eq!(crate_name(&none.replace('=', " = ").replace('\n', " \r\n")), None);
    assert_eq!(crate_name("[a=b]\nname=\"x\"\n"), crate_name("[a = b]\nname=\"x\"\n"));
}

#[test]
fn paths_are_quoted_as_paths() {
    for path in ["it's", "a \"b\"", "tab\t", "caf\u{e9}", "\u{301}x", "\u{200b}", "\\"] {
        let e = read_crate_name(path, &Reply::Failed("no".to_string())).unwrap_err();
        assert_eq!(e.message, format!("reading {:?}", std::path::Path::new(path)));
    }
}

#[test]
fn reading_a_manifest() {
    let text = Reply::Text("[package]\nname = \"hello\"\n".to_string());
    assert_eq!(read_crate_name("m.toml", &text).unwrap(), "hello");
    let e = read_crate_name("m.toml", &Reply::Text(String::new())).unwrap_err();
    assert_eq!(e.kind, ErrorKind::NoCrateName);
    assert_eq!(e.message, "no [package].name or [lib].name in \"m.toml\"");
    let e = read_crate_name("a\tb", &Reply::Failed("denied".to_string())).unwrap_err();
    assert_eq!(e.summary(), "reading \"a\\tb\": denied");
}

#[test]
fn the_host_triple_is_read_from_the_compiler() {
    let text = b"rustc 1.90.0-nightly\nbinary: rustc\nhost: x86_64-unknown-linux-gnu\nhost: b\n";
    assert_eq!(host_triple(&output(text)).unwrap(), "x86_64-unknown-linux-gnu");
    let e = host_triple(&output(b" host: x\n")).unwrap_err();
    assert_eq!(e.kind, ErrorKind::NoHostTriple);
    assert_eq!(e.message, "`rustc -vV` did not report a host triple");
    let e = host_triple(&output(b"host: \xff\n")).unwrap_err();
    assert_eq!(e.kind, ErrorKind::NotUtf8);
    assert_eq!(e.message, "rustc -vV output not UTF-8");
    let expected = String::from_utf8(b"host: \xff\n".to_vec()).unwrap_err().to_string();
    assert_eq!(e.causes, [expected]);
    let e = host_triple(&Reply::Failed("no such file".to_string())).unwrap_err();
    assert_eq!(e.summary(), "running `rustc -vV`: no such file");
    assert_eq!(host_triple(&output("host: caf\u{e9}".as_bytes())).unwrap(), "caf\u{e9}");
}

#[test]
fn the_sysroot_is_read_from_the_compiler() {
    assert_eq!(rustc_sysroot(&output(b"/opt/rust\n")).unwrap(), "/opt/rust");
    assert_eq!(rustc_sysroot(&output(b" \t/a b \r\n")).unwrap(), "/a b");
    let e = rustc_sysroot(&output(b"\xc3")).unwrap_err();
    assert_eq!(e.message, "rustc --print sysroot not UTF-8");
    let e = rustc_sysroot(&Reply::Failed("x".to_string())).unwrap_err();
    assert_eq!(e.summary(), "running `rustc --print sysroot`: x");
}

#[test]
fn tools_are_found_in_the_toolchain() {
    let mut at = Discovery::new();
    match asked(Toolchain::discover(&mut at, &Reply::Begin)) {
        Action::Capture(c) => assert_eq!((c.program.as_str(), c.args.join(" ")), ("rustc", "-vV".to_string())),
        other => panic!("{other:?}"),
    }
    match asked(Toolchain::discover(&mut at, &output(b"host: h\n"))) {
        Action::Capture(c) => {
            assert_eq!((c.program.as_str(), c.args.join(" ")), ("rustc", "--print sysroot".to_string()))
        }
        other => panic!("{other:?}"),
    }
    let mut reply = output(b"/r\n");
    for tool in ["rust-lld", "llvm-ar", "llvm-nm", "llvm-objcopy"] {
        match asked(Toolchain::discover(&mut at, &reply)) {
            Action::Exists(p) => assert_eq!(p, format!("/r/lib/rustlib/h/bin/{tool}")),
            other => panic!("{other:?}"),
        }
        reply = Reply::Is(true);
    }
    let tools = done(Toolchain::discover(&mut at, &reply));
    assert_eq!(tools.rust_lld, "/r/lib/rustlib/h/bin/rust-lld");
    assert_eq!(tools.llvm_ar, "/r/lib/rustlib/h/bin/llvm-ar");
    assert_eq!(tools.llvm_nm, "/r/lib/rustlib/h/bin/llvm-nm");
    assert_eq!(tools.llvm_objcopy, "/r/lib/rustlib/h/bin/llvm-objcopy");
}

#[test]
fn a_missing_tool_is_named() {
    let mut at = Discovery::new();
    asked(Toolchain::discover(&mut at, &Reply::Begin));
    asked(Toolchain::discover(&mut at, &output(b"host: h\n")));
    asked(Toolchain::discover(&mut at, &output(b"/r\n")));
    asked(Toolchain::discover(&mut at, &Reply::Is(true)));
    let e = failed(Toolchain::discover(&mut at, &Reply::Is(false)));
    assert_eq!(e.kind, ErrorKind::ToolMissing);
    assert_eq!(
        e.message,
        "llvm-ar not found at \"/r/lib/rustlib/h/bin/llvm-ar\"; install it with \
         `rustup component add llvm-tools`"
    );
}

#[test]
fn programs_succeed_or_are_reported() {
    let exit = |success: bool| Reply::Exit { success, status: "exit status: 2".to_string() };
    assert!(run_cmd("cargo", &exit(true)).is_ok());
    let e = run_cmd("/x y/ld", &exit(false)).unwrap_err();
    assert_eq!(e.kind, ErrorKind::Exited);
    assert_eq!(e.message, "\"/x y/ld\" exited with exit status: 2");
    let e = run_cmd("cargo", &Reply::Failed("not found".to_string())).unwrap_err();
    assert_eq!(e.summary(), "spawning \"cargo\": not found");
    assert_eq!(run_cmd("cargo", &Reply::Done).unwrap_err().kind, ErrorKind::UnexpectedReply);
}

#[test]
fn acknowledgements() {
    assert!(ack(&Reply::Done, "x").is_ok());
    assert!(bare_ack(&Reply::Done).is_ok());
    let e = ack(&Reply::Failed("c".to_string()), "creating x").unwrap_err();
    assert_eq!(e.summary(), "creating x: c");
    assert_eq!(bare_ack(&Reply::Failed("c".to_string())).unwrap_err().summary(), "c");
    assert_eq!(ack(&Reply::Is(true), "x").unwrap_err().kind, ErrorKind::UnexpectedReply);
    assert_eq!(bare_ack(&Reply::Begin).unwrap_err().kind, ErrorKind::UnexpectedReply);
}
