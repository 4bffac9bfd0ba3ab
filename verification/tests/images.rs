use kbuild::error::{Error, ErrorKind};
use kbuild::host::{Action, Command, Reply, Step};
use kbuild::image::{
    decompress_cached, default_cache_dir, default_image_url, download_cached, Fetch, Unpack,
    AMD64_IMAGE, ARM64_IMAGE,
};
use kbuild::iso::{build_iso, which, IsoStage, IsoTool, Probe};
use kbuild::ktest_args::{parse_args, KtestArgs};
use kbuild::args::Parsed;
use kbuild::qemu::{aarch64_firmware, qemu_command, Firmware, FirmwareSearch};

trait Summary {
    fn summary(&self) -> String;
}

impl Summary for Error {
    fn summary(&self) -> String {
        let mut said = vec![self.message.clone()];
        said.extend(self.causes.iter().cloned());
        said.join(": ")
    }
}

fn line(c: &Command) -> String {
    format!("{} {}", c.program, c.args.join(" "))
}

fn asked<T: std::fmt::Debug>(step: Step<T>) -> Action {
    match step {
        Step::Do(action) => action,
        other => panic!("{other:?}"),
    }
}

fn failed<T: std::fmt::Debug>(step: Step<T>) -> Error {
    match step {
        Step::Fail(e) => e,
        other => panic!("{other:?}"),
    }
}

fn done<T: std::fmt::Debug>(step: Step<T>) -> T {
    match step {
        Step::Done(value) => value,
        other => panic!("{other:?}"),
    }
}

fn exit(success: bool) -> Reply {
    Reply::Exit { success, status: "exit status: 1".to_string() }
}

fn vm(list: &[&str]) -> KtestArgs {
    match parse_args(list.iter().map(|s| s.to_string()).collect()) {
        Ok(Parsed::Args(args)) => args,
        other => panic!("{other:?}"),
    }
}

#[test]
fn cache_directories() {
    let some = |s: &str| Some(s.to_string());
    assert_eq!(default_cache_dir(&some("/x"), &some("/h")), "/x/opendarwin-kbuild");
    assert_eq!(default_cache_dir(&None, &some("/h")), "/h/.cache/opendarwin-kbuild");
    assert_eq!(default_cache_dir(&None, &None), ".kbuild-cache");
    assert_eq!(default_cache_dir(&some(""), &some("/h")), "opendarwin-kbuild");
}

#[test]
fn default_images() {
    assert_eq!(default_image_url("arm64"), ARM64_IMAGE);
    assert_eq!(default_image_url("amd64"), AMD64_IMAGE);
    assert!(ARM64_IMAGE.ends_with("/FreeBSD-15.1-RELEASE-arm64-aarch64-zfs.qcow2.xz"));
    assert!(AMD64_IMAGE.ends_with("/FreeBSD-15.1-RELEASE-amd64-zfs.qcow2.xz"));
}

fn fetch(at: &mut Fetch, fresh: bool, reply: Reply) -> Step<String> {
    download_cached(at, "https://h/d/i.qcow2.xz", "/c", fresh, &reply)
}

#[test]
fn a_download_is_renamed_when_it_is_complete() {
    let mut at = Fetch::Start;
    let mut log = Vec::new();
    for reply in [
        Reply::Begin,
        Reply::Is(false),
        Reply::Done,
        Reply::Done,
        Reply::Done,
        Reply::Done,
        Reply::Size(65536),
        Reply::Done,
        Reply::Size(3),
        Reply::Done,
        Reply::Size(0),
    ] {
        log.push(format!("{:?}", asked(fetch(&mut at, false, reply))));
    }
    assert_eq!(
        log,
        [
            "Exists(\"/c/i.qcow2.xz\")",
            "Say(\"cargo-kbuild: downloading https://h/d/i.qcow2.xz\")",
            "MakeClient",
            "Get(\"https://h/d/i.qcow2.xz\")",
            "CreateFile(\"/c/i.qcow2.part\")",
            "Receive",
            "Append(\"/c/i.qcow2.part\")",
            "Receive",
            "Append(\"/c/i.qcow2.part\")",
            "Receive",
            "Rename { from: \"/c/i.qcow2.part\", to: \"/c/i.qcow2.xz\" }",
        ]
    );
    assert_eq!(done(fetch(&mut at, false, Reply::Done)), "/c/i.qcow2.xz");
}

#[test]
fn a_cached_download_is_used() {
    let mut at = Fetch::Start;
    asked(fetch(&mut at, false, Reply::Begin));
    match asked(fetch(&mut at, false, Reply::Is(true))) {
        Action::Say(s) => assert_eq!(s, "cargo-kbuild: using cached /c/i.qcow2.xz"),
        other => panic!("{other:?}"),
    }
    assert_eq!(done(fetch(&mut at, false, Reply::Done)), "/c/i.qcow2.xz");
}

#[test]
fn a_fresh_download_ignores_the_cache() {
    let mut at = Fetch::Start;
    asked(fetch(&mut at, true, Reply::Begin));
    assert!(matches!(asked(fetch(&mut at, true, Reply::Is(true))), Action::Say(_)));
    assert!(matches!(asked(fetch(&mut at, true, Reply::Done)), Action::MakeClient));
    assert!(matches!(asked(fetch(&mut at, true, Reply::Done)), Action::Get(_)));
}

#[test]
fn a_download_may_fail_anywhere() {
    let no = || Reply::Failed("no".to_string());
    for (at, expected) in [
        (Fetch::Client, "building HTTP client: no"),
        (Fetch::Request, "GET https://h/d/i.qcow2.xz: no"),
        (Fetch::Create, "creating \"/c/i.qcow2.part\": no"),
        (Fetch::Receive, "reading download stream: no"),
        (Fetch::Append, "writing download: no"),
        (Fetch::Rename, "renaming \"/c/i.qcow2.part\" to \"/c/i.qcow2.xz\": no"),
    ] {
        let mut stage = at;
        assert_eq!(failed(fetch(&mut stage, false, no())).summary(), expected);
    }
}

#[test]
fn an_image_is_renamed_when_it_is_complete() {
    let mut at = Unpack::Start;
    let mut step = |reply: Reply| decompress_cached(&mut at, "/c/i.qcow2.xz", false, &reply);
    assert!(matches!(asked(step(Reply::Begin)), Action::Exists(p) if p == "/c/i.qcow2"));
    match asked(step(Reply::Is(false))) {
        Action::Say(s) => {
            assert_eq!(s, "cargo-kbuild: decompressing /c/i.qcow2.xz (this only happens once)")
        }
        other => panic!("{other:?}"),
    }
    assert!(matches!(asked(step(Reply::Done)), Action::CreateFile(p) if p == "/c/i.qcow2.part"));
    match asked(step(Reply::Done)) {
        Action::RunInto { command, path } => {
            assert_eq!(line(&command), "xz -dc -T0 /c/i.qcow2.xz");
            assert_eq!(path, "/c/i.qcow2.part");
        }
        other => panic!("{other:?}"),
    }
    match asked(step(exit(true))) {
        Action::Rename { from, to } => {
            assert_eq!((from.as_str(), to.as_str()), ("/c/i.qcow2.part", "/c/i.qcow2"))
        }
        other => panic!("{other:?}"),
    }
    assert_eq!(done(step(Reply::Done)), "/c/i.qcow2");
}

#[test]
fn a_cached_image_is_used() {
    for fresh in [false, true] {
        let mut at = Unpack::Start;
        decompress_cached(&mut at, "i.xz", fresh, &Reply::Begin);
        let step = decompress_cached(&mut at, "i.xz", fresh, &Reply::Is(true));
        if fresh {
            assert!(matches!(asked(step), Action::Say(_)));
        } else {
            assert_eq!(done(step), "i");
        }
    }
}

#[test]
fn decompression_may_fail() {
    let mut at = Unpack::Run;
    let e = failed(decompress_cached(&mut at, "/c/i.xz", false, &exit(false)));
    assert_eq!(e.kind, ErrorKind::XzFailed);
    assert_eq!(e.message, "`xz -dc \"/c/i.xz\"` exited with exit status: 1");
    let mut at = Unpack::Run;
    let e = failed(decompress_cached(&mut at, "i.xz", false, &Reply::Failed("no".to_string())));
    assert_eq!(e.summary(), "running `xz -dc`: no");
}

#[test]
fn a_program_is_looked_for_twice() {
    let mut at = Probe::Start;
    match asked(which(&mut at, "xorriso", &Reply::Begin)) {
        Action::Probe(c) => assert_eq!(line(&c), "xorriso --version"),
        other => panic!("{other:?}"),
    }
    match asked(which(&mut at, "xorriso", &Reply::Failed("no".to_string()))) {
        Action::Ask(c) => {
            assert_eq!(c.program, "sh");
            assert_eq!(c.args, ["-c", "command -v xorriso"]);
        }
        other => panic!("{other:?}"),
    }
    assert!(!done(which(&mut at, "xorriso", &exit(false))));
    let mut at = Probe::Version;
    assert!(done(which(&mut at, "xorriso", &exit(true))));
    let mut at = Probe::Shell;
    assert!(done(which(&mut at, "xorriso", &exit(true))));
}

/// Runs the making of a CD where only `installed` is there.
fn make_iso(installed: &str) -> (Vec<String>, Result<(), Error>) {
    let mut at = IsoStage::Start;
    let mut reply = Reply::Begin;
    let mut log = Vec::new();
    loop {
        match build_iso(&mut at, "src", "t.iso", &reply) {
            Step::Do(Action::Probe(c)) | Step::Do(Action::Ask(c)) => {
                reply = exit(c.program == installed);
            }
            Step::Do(Action::Run(c)) => {
                log.push(line(&c));
                reply = exit(true);
            }
            Step::Do(Action::RemoveFile(p)) => {
                log.push(format!("rm {p}"));
                reply = Reply::Failed("not there".to_string());
            }
            Step::Do(other) => panic!("{other:?}"),
            Step::Done(()) => return (log, Ok(())),
            Step::Fail(e) => return (log, Err(e)),
        }
    }
}

#[test]
fn a_cd_is_made_with_what_is_there() {
    for (tool, expected) in [
        ("xorriso", "xorriso -as mkisofs -V KBUILD -J -R -o t.iso src"),
        ("mkisofs", "mkisofs -V KBUILD -J -R -o t.iso src"),
        (
            "hdiutil",
            "hdiutil makehybrid -iso -joliet -default-volume-name KBUILD -o t.iso src",
        ),
    ] {
        let (log, result) = make_iso(tool);
        assert!(result.is_ok());
        assert_eq!(log, ["rm t.iso", expected]);
    }
    assert_eq!(IsoTool::Hdiutil.name(), "hdiutil");
}

#[test]
fn without_a_tool_there_is_no_cd() {
    let (log, result) = make_iso("nothing");
    let e = result.unwrap_err();
    assert_eq!(e.kind, ErrorKind::NoIsoTool);
    assert_eq!(
        e.message,
        "no ISO-building tool found (need one of: xorriso, mkisofs, hdiutil)"
    );
    assert_eq!(log, ["rm t.iso"]);
}

#[test]
fn a_failed_tool_fails_the_cd() {
    let mut at = IsoStage::Make(IsoTool::Mkisofs);
    let e = failed(build_iso(&mut at, "src", "t.iso", &exit(false)));
    assert_eq!(e.message, "\"mkisofs\" exited with exit status: 1");
}

#[test]
fn firmware_is_found_and_given_variables() {
    let places = [
        "/opt/homebrew/share/qemu/edk2-aarch64-code.fd",
        "/usr/local/share/qemu/edk2-aarch64-code.fd",
        "/usr/share/qemu/edk2-aarch64-code.fd",
        "/usr/share/edk2/aarch64/QEMU_EFI.fd",
        "/usr/share/AAVMF/AAVMF_CODE.fd",
    ];
    for found in 0..5 {
        let mut at = FirmwareSearch::Start;
        let mut reply = Reply::Begin;
        for place in &places[..found + 1] {
            match asked(aarch64_firmware(&mut at, "/tmp", &reply)) {
                Action::Exists(p) => assert_eq!(&p, place),
                other => panic!("{other:?}"),
            }
            reply = Reply::Is(false);
        }
        match asked(aarch64_firmware(&mut at, "/tmp", &Reply::Is(true))) {
            Action::FileSize(p) => assert_eq!(p, places[found]),
            other => panic!("{other:?}"),
        }
        match asked(aarch64_firmware(&mut at, "/tmp", &Reply::Size(67_108_864))) {
            Action::CreateFile(p) => assert_eq!(p, "/tmp/kbuild-edk2-aarch64-vars.fd"),
            other => panic!("{other:?}"),
        }
        match asked(aarch64_firmware(&mut at, "/tmp", &Reply::Done)) {
            Action::Resize { path, size } => {
                assert_eq!(path, "/tmp/kbuild-edk2-aarch64-vars.fd");
                assert_eq!(size, 67_108_864);
            }
            other => panic!("{other:?}"),
        }
        let firmware = done(aarch64_firmware(&mut at, "/tmp", &Reply::Done));
        assert_eq!(firmware.code, places[found]);
        assert_eq!(firmware.vars, "/tmp/kbuild-edk2-aarch64-vars.fd");
    }
}

#[test]
fn firmware_may_be_missing() {
    let mut at = FirmwareSearch::Start;
    asked(aarch64_firmware(&mut at, "/tmp", &Reply::Begin));
    for _ in 0..4 {
        asked(aarch64_firmware(&mut at, "/tmp", &Reply::Is(false)));
    }
    let e = failed(aarch64_firmware(&mut at, "/tmp", &Reply::Is(false)));
    assert_eq!(e.kind, ErrorKind::NoFirmware);
    assert_eq!(
        e.message,
        "no aarch64 UEFI firmware found; install qemu's edk2-aarch64 firmware or pass \
         --qemu with a wrapper that supplies -drive if=pflash yourself"
    );
}

#[test]
fn command_line_of_an_amd64_vm() {
    let args = vm(&["-s", "x", "-m", "amd64"]);
    let c = qemu_command(&args, "amd64", "w/o.qcow2", "w/t.iso", &None, "x86_64").unwrap();
    let common = "-m 2G -smp 2 -nographic -no-reboot -nic none -serial stdio -monitor none \
                  -drive if=none,id=hd0,file=w/o.qcow2,format=qcow2 \
                  -device virtio-blk-pci,drive=hd0 -device virtio-scsi-pci,id=scsi0 \
                  -drive if=none,id=cd0,file=w/t.iso,format=raw,readonly=on \
                  -device scsi-cd,bus=scsi0.0,drive=cd0";
    assert_eq!(
        line(&c),
        format!("qemu-system-x86_64 {common} -machine q35 -accel hvf -cpu host")
    );
    let c = qemu_command(&args, "amd64", "w/o.qcow2", "w/t.iso", &None, "aarch64").unwrap();
    assert_eq!(
        line(&c),
        format!("qemu-system-x86_64 {common} -machine q35 -accel tcg -cpu qemu64")
    );
}

#[test]
fn command_line_of_an_arm64_vm() {
    let args = vm(&["-s", "x", "--qemu", "/q", "--memory", "1G", "--smp", "9"]);
    let firmware = Some(Firmware { code: "code.fd".to_string(), vars: "vars.fd".to_string() });
    for (arch, end) in [("aarch64", "hvf -cpu host"), ("x86_64", "tcg -cpu max")] {
        let c = qemu_command(&args, "arm64", "o", "i", &firmware, arch).unwrap();
        let s = line(&c);
        assert!(s.starts_with("/q -m 1G -smp 9 -nographic "), "{s}");
        let tail = format!(
            " -machine virt,gic-version=max -drive if=pflash,format=raw,file=code.fd,readonly=on \
             -drive if=pflash,format=raw,file=vars.fd -accel {end}"
        );
        assert!(s.ends_with(&tail), "{s}");
    }
}

#[test]
fn no_vm_for_other_machines() {
    let args = vm(&["-s", "x"]);
    let e = qemu_command(&args, "vax", "o", "i", &None, "x86_64").unwrap_err();
    assert_eq!(e.kind, ErrorKind::UnsupportedMachine);
    assert_eq!(e.message, "unsupported --machine vax for ktest");
}

#[test]
fn a_half_finished_part_is_not_taken_for_a_cached_one() {
    let url = "http://h/x.part";
    let mut at = Fetch::Start;
    let mut log = Vec::new();
    for reply in [
        Reply::Begin,
        Reply::Is(false),
        Reply::Done,
        Reply::Done,
        Reply::Done,
        Reply::Done,
        Reply::Size(3),
    ] {
        log.push(format!("{:?}", asked(download_cached(&mut at, url, "/c", false, &reply))));
    }
    assert_eq!(log[0], "Exists(\"/c/x.part\")");
    assert_eq!(log[4], "CreateFile(\"/c/x.part.part\")");
    assert_eq!(log[6], "Append(\"/c/x.part.part\")");
}

#[test]
fn an_address_must_end_in_a_file_name() {
    for url in ["https://h/images/", "", "/", "https://h/.", "https://h/.."] {
        let mut at = Fetch::Start;
        let e = failed(download_cached(&mut at, url, "/c", false, &Reply::Begin));
        assert_eq!(e.kind, ErrorKind::NoPathComponent);
        assert_eq!(e.message, "--image-url has no path component");
    }
    let mut at = Fetch::Start;
    match asked(download_cached(&mut at, "plain.xz", "/c", false, &Reply::Begin)) {
        Action::Exists(p) => assert_eq!(p, "/c/plain.xz"),
        other => panic!("{other:?}"),
    }
}

#[test]
fn decompressing_never_writes_over_the_download() {
    for (xz, part) in [
        ("/c/i.qcow2.part", "/c/i.qcow2.part.part"),
        ("/c/i.qcow2.xz", "/c/i.qcow2.part"),
        ("/c/i", "/c/i.qcow2.part"),
    ] {
        let mut at = Unpack::Announce;
        match asked(decompress_cached(&mut at, xz, false, &Reply::Done)) {
            Action::CreateFile(p) => assert_eq!(p, part),
            other => panic!("{other:?}"),
        }
    }
}
