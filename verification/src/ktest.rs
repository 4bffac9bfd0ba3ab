//! `ktest`: building a module and proving in a VM that it loads.

use crate::error::{Error, ErrorView};
use crate::host::{
    ack, ack_error, bare_ack, bare_ack_error, command, plain_command, run_cmd, run_error, Action,
    ActionView, Command, CommandView, Reply, Step, StepView,
};
use crate::image::{
    cache_dir_of, decompress_cached, default_cache_dir, default_image_url, download_cached,
    fetch_step, image_url_of, unpack_step, Fetch, Unpack,
};
use crate::iso::{build_iso, iso_step, IsoStage};
use crate::ktest_args::{KtestArgs, KtestArgsView};
use crate::machine::{is_supported, machine_cpuarch};
use crate::path::{file_name, join, joined_path, name_of};
use crate::pipeline::{build, new_build, Build, BuildView};
use crate::qemu::{
    aarch64_firmware, firmware_step, opt_firmware, qemu_command, qemu_command_of, Firmware,
    FirmwareSearch, FirmwareView,
};
use crate::session::{new_session, Session};
use crate::vm::{boot_and_test, new_vm, Vm, VmView};
use crate::text::{before_suffix, cat2, cat5, opt_text, push_text, same, strip_suffix, texts};
use vstd::prelude::*;

verus! {

/// What a test has to know of the machine that it runs on.
#[derive(Debug)]
pub struct Surroundings {
    /// The directory of the tool's own manifest.
    pub manifest_dir: String,
    /// `RUSTFLAGS`, empty where it is not set.
    pub rustflags: String,
    /// `XDG_CACHE_HOME`
    pub xdg_cache_home: Option<String>,
    /// `HOME`
    pub home: Option<String>,
    /// The directory for temporary files.
    pub temp_dir: String,
    /// The architecture, as Rust names it.
    pub arch: String,
}

/// The contents of a [`Surroundings`].
pub ghost struct SurroundingsView {
    pub manifest_dir: Seq<char>,
    pub rustflags: Seq<char>,
    pub xdg_cache_home: Option<Seq<char>>,
    pub home: Option<Seq<char>>,
    pub temp_dir: Seq<char>,
    pub arch: Seq<char>,
}

impl View for Surroundings {
    type V = SurroundingsView;

    open spec fn view(&self) -> SurroundingsView {
        SurroundingsView {
            manifest_dir: self.manifest_dir@,
            rustflags: self.rustflags@,
            xdg_cache_home: opt_text(self.xdg_cache_home),
            home: opt_text(self.home),
            temp_dir: self.temp_dir@,
            arch: self.arch@,
        }
    }
}

/// How far a test has come: what it asked for last.
#[derive(Clone, Copy, Debug, PartialEq, Eq, Structural)]
pub enum TestPhase {
    /// Something about the build.
    Build,
    /// The module's absolute path.
    KoPath,
    /// The cache directory.
    CacheDir,
    /// Something about the download of the VM image.
    Download,
    /// Something about its decompression.
    Decompress,
    /// What an earlier test left behind to be removed.
    CleanWork,
    /// The working directory.
    WorkDir,
    /// A disk on top of the image.
    Overlay,
    /// A directory for what goes on the CD.
    IsoDir,
    /// The module to be copied there.
    IsoCopy,
    /// Something about the CD.
    Iso,
    /// Something about the firmware.
    Firmware,
    /// Something about the VM.
    Boot,
    /// The disk to be removed.
    DropOverlay,
    /// The directory for the CD to be removed.
    DropIsoDir,
    /// The CD to be removed.
    DropIso,
    /// That the files are kept to be said.
    Keep,
    /// How the test ended to be said.
    Report,
}

/// A test under way.
#[derive(Debug)]
pub struct Ktest {
    args: KtestArgs,
    around: Surroundings,
    phase: TestPhase,
    build: Build,
    fetch: Fetch,
    unpack: Unpack,
    iso: IsoStage,
    search: FirmwareSearch,
    vm: Vm,
    ko_path: String,
    ko_name: String,
    module_name: String,
    image_url: String,
    xz_path: String,
    base: String,
    failure: Option<Error>,
}

/// The contents of a [`Ktest`].
pub ghost struct KtestView {
    pub args: KtestArgsView,
    pub around: SurroundingsView,
    pub phase: TestPhase,
    pub build: BuildView,
    pub fetch: Fetch,
    pub unpack: Unpack,
    pub iso: IsoStage,
    pub search: FirmwareSearch,
    pub vm: VmView,
    /// The module's absolute path.
    pub ko_path: Seq<char>,
    /// The module's file name.
    pub ko_name: Seq<char>,
    /// The module's name.
    pub module_name: Seq<char>,
    /// Where the VM image comes from.
    pub image_url: Seq<char>,
    /// The compressed VM image.
    pub xz_path: Seq<char>,
    /// The VM image.
    pub base: Seq<char>,
    /// Why the test failed, if it did.
    pub failure: Option<ErrorView>,
}

/// The contents of an optional error.
pub open spec fn opt_error(e: Option<Error>) -> Option<ErrorView> {
    match e {
        Some(e) => Some(e@),
        None => None,
    }
}

impl View for Ktest {
    type V = KtestView;

    closed spec fn view(&self) -> KtestView {
        KtestView {
            args: self.args@,
            around: self.around@,
            phase: self.phase,
            build: self.build@,
            fetch: self.fetch,
            unpack: self.unpack,
            iso: self.iso,
            search: self.search,
            vm: self.vm@,
            ko_path: self.ko_path@,
            ko_name: self.ko_name@,
            module_name: self.module_name@,
            image_url: self.image_url@,
            xz_path: self.xz_path@,
            base: self.base@,
            failure: opt_error(self.failure),
        }
    }
}

/// A test that has not begun.
pub open spec fn new_ktest(args: KtestArgsView, around: SurroundingsView) -> KtestView {
    KtestView {
        args,
        around,
        phase: TestPhase::Build,
        build: new_build(args.build, around.manifest_dir, around.rustflags),
        fetch: Fetch::Start,
        unpack: Unpack::Start,
        iso: IsoStage::Start,
        search: FirmwareSearch::Start,
        vm: new_vm(new_session(0, ""@, ""@), ""@),
        ko_path: Seq::empty(),
        ko_name: Seq::empty(),
        module_name: Seq::empty(),
        image_url: Seq::empty(),
        xz_path: Seq::empty(),
        base: Seq::empty(),
        failure: None,
    }
}

/// Makes a disk that keeps what is written to it and reads everything else from
/// `base`.
pub open spec fn overlay_command_of(base: Seq<char>, overlay: Seq<char>) -> CommandView {
    plain_command(
        "qemu-img"@,
        seq!["create"@, "-f"@, "qcow2"@, "-F"@, "qcow2"@, "-b"@, base, overlay],
    )
}

impl KtestView {
    pub open spec fn machine(self) -> Seq<char> {
        self.args.build.machine
    }

    /// Where VM images are kept.
    pub open spec fn cache_dir(self) -> Seq<char> {
        match self.args.cache_dir {
            Some(dir) => dir,
            None => cache_dir_of(self.around.xdg_cache_home, self.around.home),
        }
    }

    /// Where the VM image is to come from.
    pub open spec fn chosen_image(self) -> Seq<char> {
        match self.args.image_url {
            Some(url) => url,
            None => image_url_of(self.machine()),
        }
    }

    /// The directory that the test works in.
    pub open spec fn work_dir(self) -> Seq<char> {
        joined_path(joined_path(self.args.build.target_dir, "ktest-work"@), self.module_name)
    }

    pub open spec fn overlay(self) -> Seq<char> {
        joined_path(self.work_dir(), "overlay.qcow2"@)
    }

    pub open spec fn iso_src(self) -> Seq<char> {
        joined_path(self.work_dir(), "iso-src"@)
    }

    pub open spec fn iso_path(self) -> Seq<char> {
        joined_path(self.work_dir(), "test.iso"@)
    }

    pub open spec fn log_path(self) -> Seq<char> {
        joined_path(self.work_dir(), "console.log"@)
    }

    pub open spec fn ask(self, phase: TestPhase, action: ActionView) -> (
        KtestView,
        StepView<()>,
    ) {
        (KtestView { phase, ..self }, StepView::Do(action))
    }

    pub open spec fn fail(self, e: ErrorView) -> (KtestView, StepView<()>) {
        (self, StepView::Fail(e))
    }

    pub open spec fn in_build(self, reply: Reply) -> (KtestView, StepView<()>) {
        let (build, step) = self.build.step(reply);
        let t = KtestView { build, ..self };
        match step {
            StepView::Do(action) => (t, StepView::Do(action)),
            StepView::Fail(e) => t.fail(e),
            StepView::Done(out) => t.ask(TestPhase::KoPath, ActionView::Canonicalize(out)),
        }
    }

    pub open spec fn in_ko_path(self, reply: Reply) -> (KtestView, StepView<()>) {
        match reply {
            Reply::Text(path) => match name_of(path@) {
                None => self.fail(ErrorView::no_file_name()),
                Some(ko_name) => match before_suffix(ko_name, ".ko"@) {
                    None => self.fail(ErrorView::not_a_ko()),
                    Some(module_name) => if !is_supported(self.machine()) {
                        self.fail(ErrorView::unsupported_machine(self.machine()))
                    } else {
                        let t = KtestView {
                            ko_path: path@,
                            ko_name,
                            module_name,
                            image_url: self.chosen_image(),
                            ..self
                        };
                        t.ask(TestPhase::CacheDir, ActionView::CreateDirs(t.cache_dir()))
                    },
                },
            },
            Reply::Failed(cause) => self.fail(ErrorView::refused(cause@)),
            _ => self.fail(ErrorView::unexpected_reply()),
        }
    }

    pub open spec fn in_download(self, reply: Reply) -> (KtestView, StepView<()>) {
        let (fetch, step) = fetch_step(
            self.fetch,
            self.image_url,
            self.cache_dir(),
            self.args.fresh,
            reply,
        );
        let t = KtestView { fetch, ..self };
        match step {
            StepView::Do(action) => (t, StepView::Do(action)),
            StepView::Fail(e) => t.fail(e),
            StepView::Done(xz_path) => KtestView {
                phase: TestPhase::Decompress,
                xz_path,
                ..t
            }.in_decompress(Reply::Begin),
        }
    }

    pub open spec fn in_decompress(self, reply: Reply) -> (KtestView, StepView<()>) {
        let (unpack, step) = unpack_step(self.unpack, self.xz_path, self.args.fresh, reply);
        let t = KtestView { unpack, ..self };
        match step {
            StepView::Do(action) => (t, StepView::Do(action)),
            StepView::Fail(e) => t.fail(e),
            StepView::Done(base) => KtestView { base, ..t }.ask(
                TestPhase::CleanWork,
                ActionView::RemoveDir(self.work_dir()),
            ),
        }
    }

    pub open spec fn in_iso(self, reply: Reply) -> (KtestView, StepView<()>) {
        let (iso, step) = iso_step(self.iso, self.iso_src(), self.iso_path(), reply);
        let t = KtestView { iso, ..self };
        match step {
            StepView::Do(action) => (t, StepView::Do(action)),
            StepView::Fail(e) => t.fail(e),
            StepView::Done(_) => if self.machine() == "arm64"@ {
                KtestView { phase: TestPhase::Firmware, ..t }.in_firmware(Reply::Begin)
            } else {
                t.boot(None)
            },
        }
    }

    pub open spec fn in_firmware(self, reply: Reply) -> (KtestView, StepView<()>) {
        let (search, step) = firmware_step(self.search, self.around.temp_dir, reply);
        let t = KtestView { search, ..self };
        match step {
            StepView::Do(action) => (t, StepView::Do(action)),
            StepView::Fail(e) => t.end(Some(e)),
            StepView::Done(firmware) => t.boot(Some(firmware)),
        }
    }

    /// What starts the VM.
    pub open spec fn vm_command(self, firmware: Option<FirmwareView>) -> CommandView {
        qemu_command_of(
            self.args,
            self.machine(),
            self.overlay(),
            self.iso_path(),
            firmware,
            self.around.arch,
        )
    }

    /// Boots the VM.
    pub open spec fn boot(self, firmware: Option<FirmwareView>) -> (KtestView, StepView<()>) {
        if is_supported(self.machine()) {
            KtestView {
                vm: new_vm(
                    new_session(self.args.step_timeout, self.ko_name, self.module_name),
                    self.log_path(),
                ),
                ..self
            }.ask(TestPhase::Boot, ActionView::StartVm(self.vm_command(firmware)))
        } else {
            self.end(Some(ErrorView::unsupported_vm(self.machine())))
        }
    }

    pub open spec fn in_vm(self, reply: Reply) -> (KtestView, StepView<()>) {
        let (vm, step) = self.vm.step(reply);
        let t = KtestView { vm, ..self };
        match step {
            StepView::Do(action) => (t, StepView::Do(action)),
            StepView::Fail(e) => t.end(Some(e)),
            StepView::Done(_) => t.end(None),
        }
    }

    /// Cleans up after a test that ended as `failure` says.
    pub open spec fn end(self, failure: Option<ErrorView>) -> (KtestView, StepView<()>) {
        let t = KtestView { failure, ..self };
        if self.args.keep {
            t.ask(
                TestPhase::Keep,
                ActionView::Say("cargo-kbuild: kept VM artifacts under "@ + self.work_dir()),
            )
        } else {
            t.ask(TestPhase::DropOverlay, ActionView::RemoveFile(self.overlay()))
        }
    }

    /// Says how the test ended.
    pub open spec fn report(self) -> (KtestView, StepView<()>) {
        self.ask(
            TestPhase::Report,
            match self.failure {
                None => ActionView::Say(
                    "cargo-kbuild: ktest PASSED ("@ + self.module_name
                        + ".ko loads and unloads cleanly on --machine "@ + self.machine() + ")"@,
                ),
                Some(_) => ActionView::Warn(
                    "cargo-kbuild: ktest FAILED; full console log: "@ + self.log_path(),
                ),
            },
        )
    }

    /// How [`run`] goes on.
    pub open spec fn step(self, reply: Reply) -> (KtestView, StepView<()>) {
        match self.phase {
            TestPhase::Build => self.in_build(reply),
            TestPhase::KoPath => self.in_ko_path(reply),
            TestPhase::CacheDir => match ack_error(reply, "creating --cache-dir"@) {
                Some(e) => self.fail(e),
                None => KtestView { phase: TestPhase::Download, ..self }.in_download(
                    Reply::Begin,
                ),
            },
            TestPhase::Download => self.in_download(reply),
            TestPhase::Decompress => self.in_decompress(reply),
            TestPhase::CleanWork => self.ask(
                TestPhase::WorkDir,
                ActionView::CreateDirs(self.work_dir()),
            ),
            TestPhase::WorkDir => match ack_error(reply, "creating ktest work dir"@) {
                Some(e) => self.fail(e),
                None => self.ask(
                    TestPhase::Overlay,
                    ActionView::Run(overlay_command_of(self.base, self.overlay())),
                ),
            },
            TestPhase::Overlay => match run_error("qemu-img"@, reply) {
                Some(e) => self.fail(e),
                None => self.ask(TestPhase::IsoDir, ActionView::CreateDirs(self.iso_src())),
            },
            TestPhase::IsoDir => match bare_ack_error(reply) {
                Some(e) => self.fail(e),
                None => self.ask(
                    TestPhase::IsoCopy,
                    ActionView::Copy {
                        from: self.ko_path,
                        to: joined_path(self.iso_src(), self.ko_name),
                    },
                ),
            },
            TestPhase::IsoCopy => match bare_ack_error(reply) {
                Some(e) => self.fail(e),
                None => KtestView { phase: TestPhase::Iso, ..self }.in_iso(Reply::Begin),
            },
            TestPhase::Iso => self.in_iso(reply),
            TestPhase::Firmware => self.in_firmware(reply),
            TestPhase::Boot => self.in_vm(reply),
            TestPhase::DropOverlay => self.ask(
                TestPhase::DropIsoDir,
                ActionView::RemoveDir(self.iso_src()),
            ),
            TestPhase::DropIsoDir => self.ask(
                TestPhase::DropIso,
                ActionView::RemoveFile(self.iso_path()),
            ),
            TestPhase::DropIso => self.report(),
            TestPhase::Keep => self.report(),
            TestPhase::Report => match self.failure {
                None => (self, StepView::Done(())),
                Some(e) => (KtestView { failure: None, ..self }, StepView::Fail(e)),
            },
        }
    }
}

/// Makes a disk that keeps what is written to it and reads everything else from
/// `base`.
fn overlay_command(base: &str, overlay: &str) -> (r: Command)
    ensures
        r@ == overlay_command_of(base@, overlay@),
{
    let mut args: Vec<String> = Vec::new();
    assert(texts(args@) =~= Seq::<Seq<char>>::empty());
    push_text(&mut args, "create");
    push_text(&mut args, "-f");
    push_text(&mut args, "qcow2");
    push_text(&mut args, "-F");
    push_text(&mut args, "qcow2");
    push_text(&mut args, "-b");
    push_text(&mut args, base);
    push_text(&mut args, overlay);
    command("qemu-img", args)
}

impl Ktest {
    /// A test that has not begun.
    pub fn new(args: KtestArgs, around: Surroundings) -> (r: Ktest)
        ensures
            r@ == new_ktest(args@, around@),
    {
        let build = Build::new(
            args.build.copy(),
            around.manifest_dir.as_str(),
            around.rustflags.as_str(),
        );
        Ktest {
            args,
            around,
            phase: TestPhase::Build,
            build,
            fetch: Fetch::Start,
            unpack: Unpack::Start,
            iso: IsoStage::Start,
            search: FirmwareSearch::Start,
            vm: Vm::new(Session::new(0, "", ""), ""),
            ko_path: String::new(),
            ko_name: String::new(),
            module_name: String::new(),
            image_url: String::new(),
            xz_path: String::new(),
            base: String::new(),
            failure: None,
        }
    }

    fn cache_dir(&self) -> (r: String)
        ensures
            r@ == self@.cache_dir(),
    {
        match &self.args.cache_dir {
            Some(dir) => dir.clone(),
            None => default_cache_dir(&self.around.xdg_cache_home, &self.around.home),
        }
    }

    fn work_dir(&self) -> (r: String)
        ensures
            r@ == self@.work_dir(),
    {
        let dir = join(self.args.build.target_dir.as_str(), "ktest-work");
        join(dir.as_str(), self.module_name.as_str())
    }

    fn overlay(&self) -> (r: String)
        ensures
            r@ == self@.overlay(),
    {
        join(self.work_dir().as_str(), "overlay.qcow2")
    }

    fn iso_src(&self) -> (r: String)
        ensures
            r@ == self@.iso_src(),
    {
        join(self.work_dir().as_str(), "iso-src")
    }

    fn iso_path(&self) -> (r: String)
        ensures
            r@ == self@.iso_path(),
    {
        join(self.work_dir().as_str(), "test.iso")
    }

    fn log_path(&self) -> (r: String)
        ensures
            r@ == self@.log_path(),
    {
        join(self.work_dir().as_str(), "console.log")
    }

    fn in_build(&mut self, reply: &Reply) -> (r: Step<()>)
        ensures
            (final(self)@, r@) == old(self)@.in_build(*reply),
    {
        match build(&mut self.build, reply) {
            Step::Do(action) => Step::Do(action),
            Step::Fail(e) => Step::Fail(e),
            Step::Done(out) => {
                self.phase = TestPhase::KoPath;
                Step::Do(Action::Canonicalize(out))
            },
        }
    }

    fn in_ko_path(&mut self, reply: &Reply) -> (r: Step<()>)
        ensures
            (final(self)@, r@) == old(self)@.in_ko_path(*reply),
    {
        match reply {
            Reply::Text(path) => {
                let ko_name = match file_name(path.as_str()) {
                    Some(name) => name,
                    None => return Step::Fail(Error::no_file_name()),
                };
                let module_name = match strip_suffix(ko_name.as_str(), ".ko") {
                    Some(name) => name,
                    None => return Step::Fail(Error::not_a_ko()),
                };
                match machine_cpuarch(self.args.build.machine.as_str()) {
                    Ok(_) => {},
                    Err(e) => return Step::Fail(e),
                }
                self.image_url = match &self.args.image_url {
                    Some(url) => url.clone(),
                    None => default_image_url(self.args.build.machine.as_str()).to_owned(),
                };
                self.phase = TestPhase::CacheDir;
                self.ko_path = path.clone();
                self.ko_name = ko_name;
                self.module_name = module_name;
                Step::Do(Action::CreateDirs(self.cache_dir()))
            },
            Reply::Failed(cause) => Step::Fail(Error::refused(cause.as_str())),
            _ => Step::Fail(Error::unexpected_reply()),
        }
    }

    fn in_download(&mut self, reply: &Reply) -> (r: Step<()>)
        ensures
            (final(self)@, r@) == old(self)@.in_download(*reply),
    {
        let cache_dir = self.cache_dir();
        match download_cached(
            &mut self.fetch,
            self.image_url.as_str(),
            cache_dir.as_str(),
            self.args.fresh,
            reply,
        ) {
            Step::Do(action) => Step::Do(action),
            Step::Fail(e) => Step::Fail(e),
            Step::Done(xz_path) => {
                self.phase = TestPhase::Decompress;
                self.xz_path = xz_path;
                self.in_decompress(&Reply::Begin)
            },
        }
    }

    fn in_decompress(&mut self, reply: &Reply) -> (r: Step<()>)
        ensures
            (final(self)@, r@) == old(self)@.in_decompress(*reply),
    {
        match decompress_cached(
            &mut self.unpack,
            self.xz_path.as_str(),
            self.args.fresh,
            reply,
        ) {
            Step::Do(action) => Step::Do(action),
            Step::Fail(e) => Step::Fail(e),
            Step::Done(base) => {
                self.phase = TestPhase::CleanWork;
                self.base = base;
                Step::Do(Action::RemoveDir(self.work_dir()))
            },
        }
    }

    fn in_iso(&mut self, reply: &Reply) -> (r: Step<()>)
        ensures
            (final(self)@, r@) == old(self)@.in_iso(*reply),
    {
        let src = self.iso_src();
        let iso_path = self.iso_path();
        match build_iso(&mut self.iso, src.as_str(), iso_path.as_str(), reply) {
            Step::Do(action) => Step::Do(action),
            Step::Fail(e) => Step::Fail(e),
            Step::Done(_) => {
                if same(self.args.build.machine.as_str(), "arm64") {
                    self.phase = TestPhase::Firmware;
                    self.in_firmware(&Reply::Begin)
                } else {
                    self.boot(None)
                }
            },
        }
    }

    fn in_firmware(&mut self, reply: &Reply) -> (r: Step<()>)
        ensures
            (final(self)@, r@) == old(self)@.in_firmware(*reply),
    {
        match aarch64_firmware(&mut self.search, self.around.temp_dir.as_str(), reply) {
            Step::Do(action) => Step::Do(action),
            Step::Fail(e) => self.end(Some(e)),
            Step::Done(firmware) => self.boot(Some(firmware)),
        }
    }

    fn boot(&mut self, firmware: Option<Firmware>) -> (r: Step<()>)
        requires
            old(self)@.machine() == "arm64"@ ==> firmware is Some,
        ensures
            (final(self)@, r@) == old(self)@.boot(opt_firmware(firmware)),
    {
        let overlay = self.overlay();
        let iso_path = self.iso_path();
        match qemu_command(
            &self.args,
            self.args.build.machine.as_str(),
            overlay.as_str(),
            iso_path.as_str(),
            &firmware,
            self.around.arch.as_str(),
        ) {
            Err(e) => self.end(Some(e)),
            Ok(command) => {
                self.phase = TestPhase::Boot;
                let session = Session::new(
                    self.args.step_timeout,
                    self.ko_name.as_str(),
                    self.module_name.as_str(),
                );
                self.vm = Vm::new(session, self.log_path().as_str());
                Step::Do(Action::StartVm(command))
            },
        }
    }

    fn in_vm(&mut self, reply: &Reply) -> (r: Step<()>)
        ensures
            (final(self)@, r@) == old(self)@.in_vm(*reply),
    {
        match boot_and_test(&mut self.vm, reply) {
            Step::Do(action) => Step::Do(action),
            Step::Fail(e) => self.end(Some(e)),
            Step::Done(_) => self.end(None),
        }
    }

    fn end(&mut self, failure: Option<Error>) -> (r: Step<()>)
        ensures
            (final(self)@, r@) == old(self)@.end(opt_error(failure)),
    {
        self.failure = failure;
        if self.args.keep {
            self.phase = TestPhase::Keep;
            Step::Do(
                Action::Say(
                    cat2("cargo-kbuild: kept VM artifacts under ", self.work_dir().as_str()),
                ),
            )
        } else {
            self.phase = TestPhase::DropOverlay;
            Step::Do(Action::RemoveFile(self.overlay()))
        }
    }

    fn report(&mut self) -> (r: Step<()>)
        ensures
            (final(self)@, r@) == old(self)@.report(),
    {
        self.phase = TestPhase::Report;
        match &self.failure {
            None => Step::Do(
                Action::Say(
                    cat5(
                        "cargo-kbuild: ktest PASSED (",
                        self.module_name.as_str(),
                        ".ko loads and unloads cleanly on --machine ",
                        self.args.build.machine.as_str(),
                        ")",
                    ),
                ),
            ),
            Some(_) => Step::Do(
                Action::Warn(
                    cat2(
                        "cargo-kbuild: ktest FAILED; full console log: ",
                        self.log_path().as_str(),
                    ),
                ),
            ),
        }
    }
}

/// Builds a module, boots a VM with it, and tests that it loads and unloads.
/// Resumable.
pub fn run(t: &mut Ktest, reply: &Reply) -> (r: Step<()>)
    ensures
        (final(t)@, r@) == old(t)@.step(*reply),
{
    match t.phase {
        TestPhase::Build => t.in_build(reply),
        TestPhase::KoPath => t.in_ko_path(reply),
        TestPhase::CacheDir => match ack(reply, "creating --cache-dir") {
            Err(e) => Step::Fail(e),
            Ok(_) => {
                t.phase = TestPhase::Download;
                t.in_download(&Reply::Begin)
            },
        },
        TestPhase::Download => t.in_download(reply),
        TestPhase::Decompress => t.in_decompress(reply),
        TestPhase::CleanWork => {
            t.phase = TestPhase::WorkDir;
            Step::Do(Action::CreateDirs(t.work_dir()))
        },
        TestPhase::WorkDir => match ack(reply, "creating ktest work dir") {
            Err(e) => Step::Fail(e),
            Ok(_) => {
                t.phase = TestPhase::Overlay;
                let overlay = t.overlay();
                Step::Do(Action::Run(overlay_command(t.base.as_str(), overlay.as_str())))
            },
        },
        TestPhase::Overlay => match run_cmd("qemu-img", reply) {
            Err(e) => Step::Fail(e),
            Ok(_) => {
                t.phase = TestPhase::IsoDir;
                Step::Do(Action::CreateDirs(t.iso_src()))
            },
        },
        TestPhase::IsoDir => match bare_ack(reply) {
            Err(e) => Step::Fail(e),
            Ok(_) => {
                t.phase = TestPhase::IsoCopy;
                let to = join(t.iso_src().as_str(), t.ko_name.as_str());
                Step::Do(Action::Copy { from: t.ko_path.clone(), to })
            },
        },
        TestPhase::IsoCopy => match bare_ack(reply) {
            Err(e) => Step::Fail(e),
            Ok(_) => {
                t.phase = TestPhase::Iso;
                t.in_iso(&Reply::Begin)
            },
        },
        TestPhase::Iso => t.in_iso(reply),
        TestPhase::Firmware => t.in_firmware(reply),
        TestPhase::Boot => t.in_vm(reply),
        TestPhase::DropOverlay => {
            t.phase = TestPhase::DropIsoDir;
            Step::Do(Action::RemoveDir(t.iso_src()))
        },
        TestPhase::DropIsoDir => {
            t.phase = TestPhase::DropIso;
            Step::Do(Action::RemoveFile(t.iso_path()))
        },
        TestPhase::DropIso => t.report(),
        TestPhase::Keep => t.report(),
        TestPhase::Report => match t.failure.take() {
            None => Step::Done(()),
            Some(e) => Step::Fail(e),
        },
    }
}

} // verus!
