use kbuild::args::Parsed;
use kbuild::error::{Error, ErrorKind};
use kbuild::host::{Action, Reply, Step};
use kbuild::ktest::{run, Ktest, Surroundings};
use kbuild::ktest_args::parse_args;

trait Summary {
    fn summary(&self) -> String;
}

impl Summary for Error {
    fn summary(&self) -> String {
        let mut said = vec![self.message.clone()];
        said.extend(self.causes.iter().cloned());
        said.join(": ")
    }
}

fn surroundings() -> Surroundings {
    Surroundings {
        manifest_dir: "/w/crates/cargo-kbuild".to_string(),
        rustflags: String::new(),
        xdg_cache_home: None,
        home: Some("/h".to_string()),
        temp_dir: "/tmp".to_string(),
        arch: "x86_64".to_string(),
    }
}

fn out(s: &str) -> Reply {
    Reply::Output { success: true, stdout: s.as_bytes().to_vec(), stderr: Vec::new() }
}

fn ok() -> Reply {
    Reply::Exit { success: true, status: "exit status: 0".to_string() }
}

fn well(action: &Action) -> Reply {
    match action {
        Action::Exists(_) => Reply::Is(true),
        Action::Canonicalize(p) => Reply::Text(format!("/abs/{p}")),
        Action::ReadFile(_) => Reply::Text("[package]\nname = \"hello\"\n".to_string()),
        Action::ListDir(_) => Reply::Names(vec!["a.o".to_string()]),
        Action::Run(_) | Action::Probe(_) | Action::Ask(_) | Action::RunInto { .. } => ok(),
        Action::Capture(c) if c.program == "awk" => out(""),
        Action::Capture(c) if c.args[0] == "-vV" => out("host: h\n"),
        Action::Capture(_) => out("/r\n"),
        Action::FileSize(_) => Reply::Size(64),
        Action::Receive => Reply::Size(0),
        Action::TimeLeft => Reply::Left(1_000_000_000),
        Action::HasExited => Reply::Is(true),
        Action::ReadBytes(_) => Reply::Bytes(b"all is well\n".to_vec()),
        _ => Reply::Done,
    }
}

/// What a guest shows that was last typed `typed`, where everything goes well.
fn shows(typed: &str) -> Vec<u8> {
    match typed.rsplit_once("echo ") {
        Some((_, marker)) => format!("# {typed}\r\n{marker}\r\n").into_bytes(),
        None if typed == "root" => b"Password:".to_vec(),
        None => b"login: ".to_vec(),
    }
}

/// Runs a test, recording what it asks for once the module is built; `spoil` may
/// answer in place of the host.
fn drive(
    list: &[&str],
    spoil: impl Fn(&Action) -> Option<Reply>,
) -> (Vec<String>, Result<(), Error>) {
    let args = match parse_args(list.iter().map(|s| s.to_string()).collect()) {
        Ok(Parsed::Args(args)) => args,
        other => panic!("{other:?}"),
    };
    let mut t = Ktest::new(args, surroundings());
    let mut log: Vec<String> = Vec::new();
    let mut built = false;
    let mut typed = String::new();
    let mut reply = Reply::Begin;
    loop {
        match run(&mut t, &reply) {
            Step::Do(action) => {
                if built {
                    log.push(match &action {
                        Action::Run(c) => format!("Run {} {}", c.program, c.args.join(" ")),
                        Action::StartVm(c) => format!("StartVm {}", c.program),
                        Action::SetTimer(_) | Action::TimeLeft | Action::Hear(_) => {
                            "clock".to_string()
                        }
                        other => format!("{other:?}"),
                    });
                }
                if log.last().is_some_and(|l| l == "clock") {
                    log.pop();
                }
                if let Action::Type(line) = &action {
                    typed = line.clone();
                }
                if let Action::Say(s) = &action {
                    built = built || s.starts_with("cargo-kbuild: wrote ");
                }
                let heard = Reply::Heard(shows(&typed));
                reply = match (spoil(&action), &action) {
                    (Some(reply), _) => reply,
                    (None, Action::Hear(_)) => heard,
                    (None, _) => well(&action),
                };
            }
            Step::Done(()) => return (log, Ok(())),
            Step::Fail(e) => return (log, Err(e)),
        }
    }
}

const WORK: &str = "target/kbuild/ktest-work/hello";

#[test]
fn an_amd64_test_from_the_cache() {
    let (log, result) = drive(&["-s", "src", "-m", "amd64"], |_| None);
    assert!(result.is_ok());
    let base = "/h/.cache/opendarwin-kbuild/FreeBSD-15.1-RELEASE-amd64-zfs.qcow2";
    let expected = [
        "Canonicalize(\"hello.ko\")".to_string(),
        "CreateDirs(\"/h/.cache/opendarwin-kbuild\")".to_string(),
        format!("Exists(\"{base}.xz\")"),
        format!("Say(\"cargo-kbuild: using cached {base}.xz\")"),
        format!("Exists(\"{base}\")"),
        format!("RemoveDir(\"{WORK}\")"),
        format!("CreateDirs(\"{WORK}\")"),
        format!("Run qemu-img create -f qcow2 -F qcow2 -b {base} {WORK}/overlay.qcow2"),
        format!("CreateDirs(\"{WORK}/iso-src\")"),
        format!("Copy {{ from: \"/abs/hello.ko\", to: \"{WORK}/iso-src/hello.ko\" }}"),
        format!("RemoveFile(\"{WORK}/test.iso\")"),
        "Probe(Command { program: \"xorriso\", args: [\"--version\"], envs: [], dir: None })"
            .to_string(),
        format!("Run xorriso -as mkisofs -V KBUILD -J -R -o {WORK}/test.iso {WORK}/iso-src"),
        "StartVm qemu-system-x86_64".to_string(),
        format!("OpenConsole(\"{WORK}/console.log\")"),
        "Type(\"root\")".to_string(),
        "Type(\"\")".to_string(),
        "Type(\"echo KBUILD_MARK_BOOTED\")".to_string(),
        "Type(\"mount -t cd9660 /dev/cd0 /mnt && echo KBUILD_MARK_MOUNTED\")".to_string(),
        "Type(\"kldload /mnt/hello.ko && echo KBUILD_MARK_LOADED\")".to_string(),
        "Type(\"kldstat -n hello >/dev/null && echo KBUILD_MARK_PRESENT\")".to_string(),
        "Type(\"kldunload hello && echo KBUILD_MARK_UNLOADED\")".to_string(),
        "Type(\"poweroff\")".to_string(),
        "HasExited".to_string(),
        "CloseConsole".to_string(),
        format!("ReadBytes(\"{WORK}/console.log\")"),
        format!("RemoveFile(\"{WORK}/overlay.qcow2\")"),
        format!("RemoveDir(\"{WORK}/iso-src\")"),
        format!("RemoveFile(\"{WORK}/test.iso\")"),
        "Say(\"cargo-kbuild: ktest PASSED (hello.ko loads and unloads cleanly on --machine \
         amd64)\")"
            .to_string(),
    ];
    assert_eq!(log, expected);
}

#[test]
fn an_arm64_test_needs_firmware() {
    let (log, result) = drive(&["-s", "src", "--image-url", "http://x/y.xz", "--keep"], |_| None);
    assert!(result.is_ok());
    assert!(log.contains(&"Exists(\"/opt/homebrew/share/qemu/edk2-aarch64-code.fd\")".to_string()));
    assert!(log.contains(&"CreateFile(\"/tmp/kbuild-edk2-aarch64-vars.fd\")".to_string()));
    assert!(log.contains(&"StartVm qemu-system-aarch64".to_string()));
    assert!(log.contains(&format!("Say(\"cargo-kbuild: kept VM artifacts under {WORK}\")")));
    assert!(log.iter().any(|l| l.contains("-b /h/.cache/opendarwin-kbuild/y ")));
    let boot = log.iter().position(|l| l.starts_with("StartVm")).unwrap();
    assert!(!log[boot..].iter().any(|l| l.starts_with("Remove")));
}

#[test]
fn a_failed_test_is_cleaned_up_and_reported() {
    let (log, result) = drive(&["-s", "src", "-m", "amd64"], |action| match action {
        Action::Hear(_) => Some(Reply::Silence),
        Action::TimeLeft => Some(Reply::Left(0)),
        _ => None,
    });
    let e = result.unwrap_err();
    assert_eq!(e.kind, ErrorKind::TimedOut);
    assert_eq!(e.message, format!("see full console log at {WORK}/console.log"));
    let cause = "timed out after 120s waiting for [\"login:\"]; last output:\n";
    assert_eq!(e.causes, [cause]);
    assert_eq!(
        log[log.len() - 4..],
        [
            format!("RemoveFile(\"{WORK}/overlay.qcow2\")"),
            format!("RemoveDir(\"{WORK}/iso-src\")"),
            format!("RemoveFile(\"{WORK}/test.iso\")"),
            format!(
                "Warn(\"cargo-kbuild: ktest FAILED; full console log: {WORK}/console.log\")"
            ),
        ]
    );
}

#[test]
fn a_vm_that_does_not_start_fails_the_test() {
    let (log, result) = drive(&["-s", "src", "-m", "amd64"], |action| match action {
        Action::StartVm(_) => Some(Reply::Failed("no qemu".to_string())),
        _ => None,
    });
    assert_eq!(result.unwrap_err().summary(), "spawning qemu: no qemu");
    assert!(log.contains(&format!("RemoveFile(\"{WORK}/overlay.qcow2\")")));
}

#[test]
fn missing_firmware_fails_the_test_after_cleaning_up() {
    let (log, result) = drive(&["-s", "src"], |action| match action {
        Action::Exists(p) if p.ends_with(".fd") => Some(Reply::Is(false)),
        _ => None,
    });
    assert_eq!(result.unwrap_err().kind, ErrorKind::NoFirmware);
    assert!(!log.iter().any(|l| l.starts_with("StartVm")));
    assert!(log.contains(&format!("RemoveFile(\"{WORK}/overlay.qcow2\")")));
}

#[test]
fn a_failed_build_ends_the_test() {
    let (log, result) = drive(&["-s", "src"], |action| match action {
        Action::Run(c) if c.program == "cargo" => {
            Some(Reply::Exit { success: false, status: "exit status: 101".to_string() })
        }
        _ => None,
    });
    assert_eq!(result.unwrap_err().message, "\"cargo\" exited with exit status: 101");
    assert!(log.is_empty());
}

#[test]
fn only_a_ko_file_is_tested() {
    let (_, result) = drive(&["-s", "src", "-o", "hello.bin"], |_| None);
    let e = result.unwrap_err();
    assert_eq!(e.kind, ErrorKind::NotAKo);
    assert_eq!(e.message, "built artifact doesn't end in .ko");
    let (_, result) = drive(&["-s", "src"], |action| match action {
        Action::Canonicalize(p) if p == "hello.ko" => Some(Reply::Text("/".to_string())),
        _ => None,
    });
    let e = result.unwrap_err();
    assert_eq!(e.kind, ErrorKind::NoFileName);
    assert_eq!(e.message, "built .ko has no file name");
}

#[test]
fn a_fresh_test_downloads_and_decompresses_again() {
    let list = ["-s", "src", "-m", "amd64", "--fresh", "--cache-dir", "c", "--image-url", "u/i.q.xz"];
    let (log, result) = drive(&list, |_| None);
    assert!(result.is_ok());
    for expected in [
        "CreateDirs(\"c\")",
        "Get(\"u/i.q.xz\")",
        "Rename { from: \"c/i.q.part\", to: \"c/i.q.xz\" }",
        "Rename { from: \"c/i.qcow2.part\", to: \"c/i.q\" }",
    ] {
        assert!(log.contains(&expected.to_string()), "{expected}");
    }
}

#[test]
fn what_the_host_refuses_ends_the_test() {
    let refuse = |what: &'static str| {
        let (_, result) = drive(&["-s", "src", "-m", "amd64"], move |action| {
            let s = format!("{action:?}");
            if s.starts_with(what) {
                Some(Reply::Failed("no".to_string()))
            } else {
                None
            }
        });
        result.unwrap_err().summary()
    };
    assert_eq!(refuse("CreateDirs(\"/h/.cache"), "creating --cache-dir: no");
    assert_eq!(refuse("CreateDirs(\"target/kbuild/ktest-work/hello\")"), "creating ktest work dir: no");
    assert_eq!(refuse("CreateDirs(\"target/kbuild/ktest-work/hello/iso-src"), "no");
    assert_eq!(refuse("Copy { from: \"/abs/hello.ko\""), "no");
    assert_eq!(refuse("Run(Command { program: \"qemu-img\""), "spawning \"qemu-img\": no");
    assert_eq!(refuse("Canonicalize(\"hello.ko\")"), "no");
}

#[test]
fn a_panic_in_the_log_fails_a_test_that_saw_every_marker() {
    let (log, result) = drive(&["-s", "src", "-m", "amd64"], |action| match action {
        Action::ReadBytes(_) => Some(Reply::Bytes(b"\xff\npanic: late\n".to_vec())),
        _ => None,
    });
    assert_eq!(result.unwrap_err().kind, ErrorKind::KernelPanic);
    assert!(log.contains(&"Type(\"poweroff\")".to_string()));
    assert!(log.last().unwrap().starts_with("Warn"));
}

#[test]
fn a_log_that_cannot_be_read_is_not_held_against_a_test() {
    let (_, result) = drive(&["-s", "src", "-m", "amd64"], |action| match action {
        Action::ReadBytes(_) => Some(Reply::Failed("gone".to_string())),
        _ => None,
    });
    assert!(result.is_ok());
}

#[test]
fn a_guest_that_does_not_power_off_is_killed() {
    let late = std::cell::Cell::new(3);
    let (log, result) = drive(&["-s", "src", "-m", "amd64"], |action| match action {
        Action::HasExited => {
            late.set(late.get() - 1);
            Some(Reply::Is(false))
        }
        Action::TimeLeft if late.get() == 0 => Some(Reply::Left(0)),
        _ => None,
    });
    assert!(result.is_ok());
    let end = log.iter().position(|l| l == "KillVm").unwrap();
    assert_eq!(log[end - 1], "HasExited");
    assert_eq!(log.iter().filter(|l| *l == "Pause(200)").count(), 2);
    assert_eq!(log[end + 1], "CloseConsole");
}

#[test]
fn a_line_that_cannot_be_typed_fails_the_test() {
    let (log, result) = drive(&["-s", "src", "-m", "amd64"], |action| match action {
        Action::Type(_) => Some(Reply::Failed("broken pipe".to_string())),
        _ => None,
    });
    assert_eq!(
        result.unwrap_err().causes,
        ["writing \"root\" to qemu console", "broken pipe"]
    );
    assert!(log.contains(&"CloseConsole".to_string()));
}

#[test]
fn a_console_that_cannot_be_logged_fails_the_test() {
    let (log, result) = drive(&["-s", "src", "-m", "amd64"], |action| match action {
        Action::OpenConsole(_) => Some(Reply::Failed("no".to_string())),
        _ => None,
    });
    assert_eq!(result.unwrap_err().summary(), format!("creating \"{WORK}/console.log\": no"));
    assert!(log.contains(&format!("RemoveFile(\"{WORK}/overlay.qcow2\")")));
}

#[test]
fn a_closed_console_ends_the_test() {
    let (log, result) = drive(&["-s", "src", "-m", "amd64"], |action| match action {
        Action::Hear(_) => Some(Reply::Closed),
        _ => None,
    });
    assert_eq!(result.unwrap_err().kind, ErrorKind::Closed);
    assert!(log.contains(&"HasExited".to_string()));
}

#[test]
fn a_test_without_a_file_in_its_address_is_refused() {
    let list = ["-s", "src", "-m", "amd64", "--image-url", "https://h/images/"];
    let (_, result) = drive(&list, |_| None);
    assert_eq!(result.unwrap_err().kind, ErrorKind::NoPathComponent);
}

#[test]
fn kept_files_are_not_removed_without_firmware() {
    let (log, result) = drive(&["-s", "src", "--keep"], |action| match action {
        Action::Exists(p) if p.ends_with(".fd") => Some(Reply::Is(false)),
        _ => None,
    });
    assert_eq!(result.unwrap_err().kind, ErrorKind::NoFirmware);
    let kept = format!("Say(\"cargo-kbuild: kept VM artifacts under {WORK}\")");
    let at = log.iter().position(|l| *l == kept).unwrap();
    assert!(!log[at..].iter().any(|l| l.starts_with("Remove")));
    assert!(log.last().unwrap().starts_with("Warn"));
}
