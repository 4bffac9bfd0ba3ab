//! Building a module: from a crate to a `.ko` file, in the steps of
//! `sys/conf/kmod.mk`.

use crate::args::{BuildArgs, BuildArgsView};
use crate::commands::{
    cargo_command, cargo_command_of, extract_command, extract_command_of, link_command,
    link_command_of, localize_command_of, share_command, share_command_of, strip_command,
    strip_command_of,
};
use crate::error::{quoted_path, quoted_path_text, Error, ErrorView};
use crate::export::{apply_export_syms, export_step, new_export, Export, ExportInput, ExportView};
use crate::host::{
    ack, ack_error, run_cmd, run_error, Action, ActionView, CommandView, Reply, Step, StepView,
};
use crate::machine::{
    cpuarch_of, is_supported, ld_emulation, ld_emulation_of, machine_cpuarch, target_name,
    target_name_of, target_spec_path, target_spec_step,
};
use crate::manifest::{crate_name_of, read_crate_name};
use crate::path::{extension, extension_of, join, joined_path};
use crate::sysdir::{resolve_sysdir, sysdir_step, SysdirSearch};
use crate::text::{cat2, cat3, cat4, opt_text, push_text, replace_char, replaced, same, texts};
use crate::toolchain::{
    discover_step, new_discovery, Discovery, DiscoveryView, Toolchain, ToolchainView,
};
use vstd::prelude::*;

verus! {

/// How far a build has come: what it asked for last.
#[derive(Clone, Copy, Debug, PartialEq, Eq, Structural)]
pub enum Phase {
    /// Something about the source tree.
    Sysdir,
    /// Something about the LLVM tools.
    Tools,
    /// Whether the target specification is there.
    TargetSpec,
    /// The crate's manifest.
    Manifest,
    /// The target directory.
    TargetDir,
    /// The crate to be compiled.
    Cargo,
    /// Whether that made a static library.
    Staticlib,
    /// What an earlier build left behind to be removed.
    CleanWork,
    /// The working directory.
    WorkDir,
    /// The library's absolute path.
    LibraryPath,
    /// The library to be unpacked.
    Extract,
    /// What was in it.
    Objects,
    /// Whether the kernel has a linker script.
    Ldscript,
    /// The objects to be linked partially.
    Link,
    /// Something about the module's symbols.
    Export,
    /// The module to be linked as a shared object.
    Share,
    /// The module to be stripped.
    Strip,
    /// The module to be copied to its place.
    Copy,
    /// That to be said.
    Report,
}

/// A build under way.
#[derive(Debug)]
pub struct Build {
    pub args: BuildArgs,
    /// The directory of the tool's own manifest.
    pub manifest_dir: String,
    /// `RUSTFLAGS` as inherited, empty where it is not set.
    pub rustflags: String,
    phase: Phase,
    search: SysdirSearch,
    discovery: Discovery,
    export: Export,
    sysdir: String,
    cpuarch: String,
    emulation: String,
    target: String,
    tools: Toolchain,
    target_json: String,
    crate_name: String,
    library: String,
    objects: Vec<String>,
    ldscript: Option<String>,
}

/// The contents of a [`Build`].
#[verifier::ext_equal]
pub ghost struct BuildView {
    pub args: BuildArgsView,
    pub manifest_dir: Seq<char>,
    pub rustflags: Seq<char>,
    pub phase: Phase,
    pub search: SysdirSearch,
    pub discovery: DiscoveryView,
    pub export: ExportView,
    pub sysdir: Seq<char>,
    pub cpuarch: Seq<char>,
    pub emulation: Seq<char>,
    pub target: Seq<char>,
    pub tools: ToolchainView,
    pub target_json: Seq<char>,
    pub crate_name: Seq<char>,
    /// The absolute path of the static library.
    pub library: Seq<char>,
    pub objects: Seq<Seq<char>>,
    pub ldscript: Option<Seq<char>>,
}

impl View for Build {
    type V = BuildView;

    closed spec fn view(&self) -> BuildView {
        BuildView {
            args: self.args@,
            manifest_dir: self.manifest_dir@,
            rustflags: self.rustflags@,
            phase: self.phase,
            search: self.search,
            discovery: self.discovery@,
            export: self.export@,
            sysdir: self.sysdir@,
            cpuarch: self.cpuarch@,
            emulation: self.emulation@,
            target: self.target@,
            tools: self.tools@,
            target_json: self.target_json@,
            crate_name: self.crate_name@,
            library: self.library@,
            objects: texts(self.objects@),
            ldscript: opt_text(self.ldscript),
        }
    }
}

/// A build that has not begun.
pub open spec fn new_build(
    args: BuildArgsView,
    manifest_dir: Seq<char>,
    rustflags: Seq<char>,
) -> BuildView {
    BuildView {
        args,
        manifest_dir,
        rustflags,
        phase: Phase::Sysdir,
        search: SysdirSearch::Start,
        discovery: new_discovery(),
        export: new_export(),
        sysdir: Seq::empty(),
        cpuarch: Seq::empty(),
        emulation: Seq::empty(),
        target: Seq::empty(),
        tools: ToolchainView {
            rust_lld: Seq::empty(),
            llvm_ar: Seq::empty(),
            llvm_nm: Seq::empty(),
            llvm_objcopy: Seq::empty(),
        },
        target_json: Seq::empty(),
        crate_name: Seq::empty(),
        library: Seq::empty(),
        objects: Seq::empty(),
        ldscript: None,
    }
}

/// The objects among the entries of a directory, as paths.
pub open spec fn objects_in(dir: Seq<char>, names: Seq<Seq<char>>) -> Seq<Seq<char>>
    decreases names.len(),
{
    if names.len() == 0 {
        Seq::empty()
    } else if extension_of(names.last()) == Some("o"@) {
        objects_in(dir, names.drop_last()).push(joined_path(dir, names.last()))
    } else {
        objects_in(dir, names.drop_last())
    }
}

impl BuildView {
    /// The static library that cargo makes.
    pub open spec fn staticlib(self) -> Seq<char> {
        let profile = if self.args.release {
            "release"@
        } else {
            "debug"@
        };
        let dir = joined_path(joined_path(self.args.target_dir, self.target), profile);
        joined_path(dir, "lib"@ + replaced(self.crate_name, '-', '_') + ".a"@)
    }

    /// The directory that the build works in.
    pub open spec fn work_dir(self) -> Seq<char> {
        joined_path(joined_path(self.args.target_dir, "kbuild-work"@), self.crate_name)
    }

    /// The partially linked module.
    pub open spec fn kld(self) -> Seq<char> {
        joined_path(self.work_dir(), self.crate_name + ".kld"@)
    }

    /// The module as a shared object.
    pub open spec fn shared(self) -> Seq<char> {
        joined_path(self.work_dir(), self.crate_name + ".ko"@)
    }

    /// Whether the partially linked module is the final one.
    pub open spec fn links_directly(self) -> bool {
        self.cpuarch == "amd64"@
    }

    /// The module, before it is copied to its place.
    pub open spec fn linked(self) -> Seq<char> {
        if self.links_directly() {
            self.kld()
        } else {
            self.shared()
        }
    }

    /// The kernel's linker script for modules.
    pub open spec fn ldscript_path(self) -> Seq<char> {
        joined_path(self.sysdir, "conf/ldscript.kmod."@ + self.args.machine)
    }

    /// Where the module goes.
    pub open spec fn out(self) -> Seq<char> {
        match self.args.out {
            Some(path) => path,
            None => self.crate_name + ".ko"@,
        }
    }

    pub open spec fn cargo(self) -> CommandView {
        cargo_command_of(self.args, self.target_json, self.sysdir, self.rustflags)
    }

    pub open spec fn extract(self) -> CommandView {
        extract_command_of(self.tools, self.library, self.work_dir())
    }

    pub open spec fn link(self) -> CommandView {
        link_command_of(self.tools, self.emulation, self.ldscript, self.kld(), self.objects)
    }

    pub open spec fn localize(self) -> CommandView {
        localize_command_of(self.tools, self.export.flags, self.kld())
    }

    pub open spec fn share(self) -> CommandView {
        share_command_of(self.tools, self.emulation, self.kld(), self.shared())
    }

    pub open spec fn strip(self) -> CommandView {
        strip_command_of(self.tools, self.linked())
    }

    pub open spec fn export_input(self) -> ExportInput {
        ExportInput {
            export_syms: self.args.export_syms,
            object: self.kld(),
            sysdir: self.sysdir,
            tools: self.tools,
            work_dir: self.work_dir(),
        }
    }

    /// The build in the next phase, which asks for `action`.
    pub open spec fn ask(self, phase: Phase, action: ActionView) -> (
        BuildView,
        StepView<Seq<char>>,
    ) {
        (BuildView { phase, ..self }, StepView::Do(action))
    }

    pub open spec fn fail(self, e: ErrorView) -> (BuildView, StepView<Seq<char>>) {
        (self, StepView::Fail(e))
    }

    pub open spec fn in_sysdir(self, reply: Reply) -> (BuildView, StepView<Seq<char>>) {
        let (search, step) = sysdir_step(self.search, self.args.sysdir, reply);
        let b = BuildView { search, ..self };
        match step {
            StepView::Do(action) => (b, StepView::Do(action)),
            StepView::Fail(e) => b.fail(e),
            StepView::Done(sysdir) => if is_supported(self.args.machine) {
                BuildView {
                    phase: Phase::Tools,
                    sysdir,
                    cpuarch: cpuarch_of(self.args.machine)->0,
                    emulation: ld_emulation_of(self.args.machine)->0,
                    target: target_name_of(self.args.machine)->0,
                    ..b
                }.in_tools(Reply::Begin)
            } else {
                b.fail(ErrorView::unsupported_machine(self.args.machine))
            },
        }
    }

    pub open spec fn in_tools(self, reply: Reply) -> (BuildView, StepView<Seq<char>>) {
        let (discovery, step) = discover_step(self.discovery, reply);
        let b = BuildView { discovery, ..self };
        match step {
            StepView::Do(action) => (b, StepView::Do(action)),
            StepView::Fail(e) => b.fail(e),
            StepView::Done(tools) => BuildView {
                phase: Phase::TargetSpec,
                tools,
                ..b
            }.in_target_spec(Reply::Begin),
        }
    }

    pub open spec fn in_target_spec(self, reply: Reply) -> (BuildView, StepView<Seq<char>>) {
        match target_spec_step(self.manifest_dir, self.args.machine, reply) {
            StepView::Do(action) => (self, StepView::Do(action)),
            StepView::Fail(e) => self.fail(e),
            StepView::Done(target_json) => BuildView { target_json, ..self }.ask(
                Phase::Manifest,
                ActionView::ReadFile(self.args.manifest_path),
            ),
        }
    }

    pub open spec fn in_objects(self, reply: Reply) -> (BuildView, StepView<Seq<char>>) {
        match reply {
            Reply::Names(names) => {
                let objects = objects_in(self.work_dir(), texts(names@));
                if objects.len() == 0 {
                    self.fail(ErrorView::no_objects(self.staticlib()))
                } else {
                    BuildView { objects, ..self }.ask(
                        Phase::Ldscript,
                        ActionView::Exists(self.ldscript_path()),
                    )
                }
            },
            Reply::Failed(cause) => self.fail(
                ErrorView::failed("reading extracted objects"@, cause@),
            ),
            _ => self.fail(ErrorView::unexpected_reply()),
        }
    }

    pub open spec fn in_export(self, reply: Reply) -> (BuildView, StepView<Seq<char>>) {
        let (export, step) = export_step(self.export, self.export_input(), reply);
        let b = BuildView { export, ..self };
        match step {
            StepView::Do(action) => (b, StepView::Do(action)),
            StepView::Fail(e) => b.fail(e),
            StepView::Done(_) => if b.links_directly() {
                b.ask(Phase::Strip, ActionView::Run(b.strip()))
            } else {
                b.ask(Phase::Share, ActionView::Run(b.share()))
            },
        }
    }

    /// How [`build`] goes on.
    pub open spec fn step(self, reply: Reply) -> (BuildView, StepView<Seq<char>>) {
        match self.phase {
            Phase::Sysdir => self.in_sysdir(reply),
            Phase::Tools => self.in_tools(reply),
            Phase::TargetSpec => self.in_target_spec(reply),
            Phase::Manifest => match crate_name_of(self.args.manifest_path, reply) {
                Err(e) => self.fail(e),
                Ok(crate_name) => BuildView { crate_name, ..self }.ask(
                    Phase::TargetDir,
                    ActionView::CreateDirs(self.args.target_dir),
                ),
            },
            Phase::TargetDir => match ack_error(reply, "creating --target-dir"@) {
                Some(e) => self.fail(e),
                None => self.ask(Phase::Cargo, ActionView::Run(self.cargo())),
            },
            Phase::Cargo => match run_error("cargo"@, reply) {
                Some(e) => self.fail(e),
                None => self.ask(Phase::Staticlib, ActionView::Exists(self.staticlib())),
            },
            Phase::Staticlib => match reply {
                Reply::Is(true) => self.ask(
                    Phase::CleanWork,
                    ActionView::RemoveDir(self.work_dir()),
                ),
                Reply::Is(false) => self.fail(ErrorView::no_staticlib(self.staticlib())),
                _ => self.fail(ErrorView::unexpected_reply()),
            },
            Phase::CleanWork => self.ask(
                Phase::WorkDir,
                ActionView::CreateDirs(self.work_dir()),
            ),
            Phase::WorkDir => match ack_error(reply, "creating kbuild work dir"@) {
                Some(e) => self.fail(e),
                None => self.ask(
                    Phase::LibraryPath,
                    ActionView::Canonicalize(self.staticlib()),
                ),
            },
            Phase::LibraryPath => match reply {
                Reply::Text(library) => {
                    let b = BuildView { library: library@, ..self };
                    b.ask(Phase::Extract, ActionView::Run(b.extract()))
                },
                Reply::Failed(cause) => self.fail(ErrorView::refused(cause@)),
                _ => self.fail(ErrorView::unexpected_reply()),
            },
            Phase::Extract => match run_error(self.tools.llvm_ar, reply) {
                Some(e) => self.fail(e),
                None => self.ask(Phase::Objects, ActionView::ListDir(self.work_dir())),
            },
            Phase::Objects => self.in_objects(reply),
            Phase::Ldscript => match reply {
                Reply::Is(there) => {
                    let b = BuildView {
                        ldscript: if there {
                            Some(self.ldscript_path())
                        } else {
                            None
                        },
                        ..self
                    };
                    b.ask(Phase::Link, ActionView::Run(b.link()))
                },
                _ => self.fail(ErrorView::unexpected_reply()),
            },
            Phase::Link => match run_error(self.tools.rust_lld, reply) {
                Some(e) => self.fail(e),
                None => BuildView { phase: Phase::Export, ..self }.in_export(Reply::Begin),
            },
            Phase::Export => self.in_export(reply),
            Phase::Share => match run_error(self.tools.rust_lld, reply) {
                Some(e) => self.fail(e),
                None => self.ask(Phase::Strip, ActionView::Run(self.strip())),
            },
            Phase::Strip => match run_error(self.tools.llvm_objcopy, reply) {
                Some(e) => self.fail(e),
                None => self.ask(
                    Phase::Copy,
                    ActionView::Copy { from: self.linked(), to: self.out() },
                ),
            },
            Phase::Copy => match ack_error(
                reply,
                "copying "@ + quoted_path_text(self.linked()) + " to "@ + quoted_path_text(self.out()),
            ) {
                Some(e) => self.fail(e),
                None => self.ask(
                    Phase::Report,
                    ActionView::Say("cargo-kbuild: wrote "@ + self.out()),
                ),
            },
            Phase::Report => (self, StepView::Done(self.out())),
        }
    }
}

/// The objects among the entries of a directory, as paths.
fn objects_among(dir: &str, names: &Vec<String>) -> (r: Vec<String>)
    ensures
        texts(r@) == objects_in(dir@, texts(names@)),
{
    let n: usize = names.len();
    let mut out: Vec<String> = Vec::new();
    let ghost every = texts(names@);
    assert(texts(out@) =~= Seq::<Seq<char>>::empty());
    for i in 0..n
        invariant
            n == names@.len(),
            every == texts(names@),
            texts(out@) == objects_in(dir@, every.take(i as int)),
    {
        assert(every.take(i + 1).drop_last() =~= every.take(i as int));
        assert(every.take(i + 1).last() == names@[i as int]@);
        match extension(names[i].as_str()) {
            Some(ext) => {
                if same(ext.as_str(), "o") {
                    let path = join(dir, names[i].as_str());
                    push_text(&mut out, path.as_str());
                }
            },
            None => {},
        }
    }
    assert(every.take(n as int) =~= every);
    out
}

impl Build {
    /// A build that has not begun.
    pub fn new(args: BuildArgs, manifest_dir: &str, rustflags: &str) -> (r: Build)
        ensures
            r@ == new_build(args@, manifest_dir@, rustflags@),
    {
        let objects: Vec<String> = Vec::new();
        assert(texts(objects@) =~= Seq::<Seq<char>>::empty());
        Build {
            args,
            manifest_dir: manifest_dir.to_owned(),
            rustflags: rustflags.to_owned(),
            phase: Phase::Sysdir,
            search: SysdirSearch::Start,
            discovery: Discovery::new(),
            export: Export::new(),
            sysdir: String::new(),
            cpuarch: String::new(),
            emulation: String::new(),
            target: String::new(),
            tools: Toolchain {
                rust_lld: String::new(),
                llvm_ar: String::new(),
                llvm_nm: String::new(),
                llvm_objcopy: String::new(),
            },
            target_json: String::new(),
            crate_name: String::new(),
            library: String::new(),
            objects,
            ldscript: None,
        }
    }

    fn staticlib(&self) -> (r: String)
        ensures
            r@ == self@.staticlib(),
    {
        let profile = if self.args.release { "release" } else { "debug" };
        let by_target = join(self.args.target_dir.as_str(), self.target.as_str());
        let dir = join(by_target.as_str(), profile);
        let name = replace_char(self.crate_name.as_str(), '-', '_');
        join(dir.as_str(), cat3("lib", name.as_str(), ".a").as_str())
    }

    fn work_dir(&self) -> (r: String)
        ensures
            r@ == self@.work_dir(),
    {
        let dir = join(self.args.target_dir.as_str(), "kbuild-work");
        join(dir.as_str(), self.crate_name.as_str())
    }

    fn kld(&self) -> (r: String)
        ensures
            r@ == self@.kld(),
    {
        join(self.work_dir().as_str(), cat2(self.crate_name.as_str(), ".kld").as_str())
    }

    fn shared(&self) -> (r: String)
        ensures
            r@ == self@.shared(),
    {
        join(self.work_dir().as_str(), cat2(self.crate_name.as_str(), ".ko").as_str())
    }

    fn links_directly(&self) -> (r: bool)
        ensures
            r == self@.links_directly(),
    {
        same(self.cpuarch.as_str(), "amd64")
    }

    fn linked(&self) -> (r: String)
        ensures
            r@ == self@.linked(),
    {
        if self.links_directly() {
            self.kld()
        } else {
            self.shared()
        }
    }

    fn ldscript_path(&self) -> (r: String)
        ensures
            r@ == self@.ldscript_path(),
    {
        join(
            self.sysdir.as_str(),
            cat2("conf/ldscript.kmod.", self.args.machine.as_str()).as_str(),
        )
    }

    fn out(&self) -> (r: String)
        ensures
            r@ == self@.out(),
    {
        match &self.args.out {
            Some(path) => path.clone(),
            None => cat2(self.crate_name.as_str(), ".ko"),
        }
    }

    fn in_sysdir(&mut self, reply: &Reply) -> (r: Step<String>)
        ensures
            (final(self)@, r@) == old(self)@.in_sysdir(*reply),
    {
        match resolve_sysdir(&mut self.search, self.args.sysdir.as_str(), reply) {
            Step::Do(action) => Step::Do(action),
            Step::Fail(e) => Step::Fail(e),
            Step::Done(sysdir) => {
                let cpuarch = match machine_cpuarch(self.args.machine.as_str()) {
                    Ok(s) => s,
                    Err(e) => return Step::Fail(e),
                };
                let emulation = match ld_emulation(self.args.machine.as_str()) {
                    Ok(s) => s,
                    Err(e) => return Step::Fail(e),
                };
                let target = match target_name(self.args.machine.as_str()) {
                    Ok(s) => s,
                    Err(e) => return Step::Fail(e),
                };
                self.phase = Phase::Tools;
                self.sysdir = sysdir;
                self.cpuarch = cpuarch.to_owned();
                self.emulation = emulation.to_owned();
                self.target = target;
                self.in_tools(&Reply::Begin)
            },
        }
    }

    fn in_tools(&mut self, reply: &Reply) -> (r: Step<String>)
        ensures
            (final(self)@, r@) == old(self)@.in_tools(*reply),
    {
        match Toolchain::discover(&mut self.discovery, reply) {
            Step::Do(action) => Step::Do(action),
            Step::Fail(e) => Step::Fail(e),
            Step::Done(tools) => {
                self.phase = Phase::TargetSpec;
                self.tools = tools;
                self.in_target_spec(&Reply::Begin)
            },
        }
    }

    fn in_target_spec(&mut self, reply: &Reply) -> (r: Step<String>)
        ensures
            (final(self)@, r@) == old(self)@.in_target_spec(*reply),
    {
        match target_spec_path(self.manifest_dir.as_str(), self.args.machine.as_str(), reply) {
            Step::Do(action) => Step::Do(action),
            Step::Fail(e) => Step::Fail(e),
            Step::Done(target_json) => {
                self.phase = Phase::Manifest;
                self.target_json = target_json;
                Step::Do(Action::ReadFile(self.args.manifest_path.clone()))
            },
        }
    }

    fn in_objects(&mut self, reply: &Reply) -> (r: Step<String>)
        ensures
            (final(self)@, r@) == old(self)@.in_objects(*reply),
    {
        match reply {
            Reply::Names(names) => {
                let objects = objects_among(self.work_dir().as_str(), names);
                if objects.len() == 0 {
                    Step::Fail(Error::no_objects(self.staticlib().as_str()))
                } else {
                    self.phase = Phase::Ldscript;
                    self.objects = objects;
                    Step::Do(Action::Exists(self.ldscript_path()))
                }
            },
            Reply::Failed(cause) => Step::Fail(
                Error::failed("reading extracted objects", cause.as_str()),
            ),
            _ => Step::Fail(Error::unexpected_reply()),
        }
    }

    fn link(&mut self, there: bool) -> (r: Step<String>)
        requires
            old(self)@.phase == Phase::Ldscript,
        ensures
            (final(self)@, r@) == old(self)@.step(Reply::Is(there)),
    {
        let script = self.ldscript_path();
        let kld = self.kld();
        self.phase = Phase::Link;
        let run = if there {
            link_command(
                &self.tools,
                self.emulation.as_str(),
                Some(script.as_str()),
                kld.as_str(),
                &self.objects,
            )
        } else {
            link_command(
                &self.tools,
                self.emulation.as_str(),
                None,
                kld.as_str(),
                &self.objects,
            )
        };
        self.ldscript = if there { Some(script) } else { None };
        Step::Do(Action::Run(run))
    }

    fn in_export(&mut self, reply: &Reply) -> (r: Step<String>)
        ensures
            (final(self)@, r@) == old(self)@.in_export(*reply),
    {
        let object = self.kld();
        let work_dir = self.work_dir();
        match apply_export_syms(
            &mut self.export,
            &self.args.export_syms,
            object.as_str(),
            self.sysdir.as_str(),
            &self.tools,
            work_dir.as_str(),
            reply,
        ) {
            Step::Do(action) => Step::Do(action),
            Step::Fail(e) => Step::Fail(e),
            Step::Done(_) => {
                if self.links_directly() {
                    self.strip()
                } else {
                    self.phase = Phase::Share;
                    let shared = self.shared();
                    Step::Do(
                        Action::Run(
                            share_command(
                                &self.tools,
                                self.emulation.as_str(),
                                object.as_str(),
                                shared.as_str(),
                            ),
                        ),
                    )
                }
            },
        }
    }

    fn strip(&mut self) -> (r: Step<String>)
        ensures
            (final(self)@, r@) == old(self)@.ask(Phase::Strip, ActionView::Run(old(self)@.strip())),
    {
        self.phase = Phase::Strip;
        let linked = self.linked();
        Step::Do(Action::Run(strip_command(&self.tools, linked.as_str())))
    }
}

/// Builds a module and returns where it was written. Resumable.
pub fn build(b: &mut Build, reply: &Reply) -> (r: Step<String>)
    ensures
        (final(b)@, r@) == old(b)@.step(*reply),
{
    match b.phase {
        Phase::Sysdir => b.in_sysdir(reply),
        Phase::Tools => b.in_tools(reply),
        Phase::TargetSpec => b.in_target_spec(reply),
        Phase::Manifest => match read_crate_name(b.args.manifest_path.as_str(), reply) {
            Err(e) => Step::Fail(e),
            Ok(crate_name) => {
                b.phase = Phase::TargetDir;
                b.crate_name = crate_name;
                Step::Do(Action::CreateDirs(b.args.target_dir.clone()))
            },
        },
        Phase::TargetDir => match ack(reply, "creating --target-dir") {
            Err(e) => Step::Fail(e),
            Ok(_) => {
                b.phase = Phase::Cargo;
                Step::Do(
                    Action::Run(
                        cargo_command(
                            &b.args,
                            b.target_json.as_str(),
                            b.sysdir.as_str(),
                            b.rustflags.as_str(),
                        ),
                    ),
                )
            },
        },
        Phase::Cargo => match run_cmd("cargo", reply) {
            Err(e) => Step::Fail(e),
            Ok(_) => {
                b.phase = Phase::Staticlib;
                Step::Do(Action::Exists(b.staticlib()))
            },
        },
        Phase::Staticlib => match reply {
            Reply::Is(true) => {
                b.phase = Phase::CleanWork;
                Step::Do(Action::RemoveDir(b.work_dir()))
            },
            Reply::Is(false) => Step::Fail(Error::no_staticlib(b.staticlib().as_str())),
            _ => Step::Fail(Error::unexpected_reply()),
        },
        Phase::CleanWork => {
            b.phase = Phase::WorkDir;
            Step::Do(Action::CreateDirs(b.work_dir()))
        },
        Phase::WorkDir => match ack(reply, "creating kbuild work dir") {
            Err(e) => Step::Fail(e),
            Ok(_) => {
                b.phase = Phase::LibraryPath;
                Step::Do(Action::Canonicalize(b.staticlib()))
            },
        },
        Phase::LibraryPath => match reply {
            Reply::Text(library) => {
                b.phase = Phase::Extract;
                b.library = library.clone();
                let dir = b.work_dir();
                Step::Do(
                    Action::Run(extract_command(&b.tools, library.as_str(), dir.as_str())),
                )
            },
            Reply::Failed(cause) => Step::Fail(Error::refused(cause.as_str())),
            _ => Step::Fail(Error::unexpected_reply()),
        },
        Phase::Extract => match run_cmd(b.tools.llvm_ar.as_str(), reply) {
            Err(e) => Step::Fail(e),
            Ok(_) => {
                b.phase = Phase::Objects;
                Step::Do(Action::ListDir(b.work_dir()))
            },
        },
        Phase::Objects => b.in_objects(reply),
        Phase::Ldscript => match reply {
            Reply::Is(there) => b.link(*there),
            _ => Step::Fail(Error::unexpected_reply()),
        },
        Phase::Link => match run_cmd(b.tools.rust_lld.as_str(), reply) {
            Err(e) => Step::Fail(e),
            Ok(_) => {
                b.phase = Phase::Export;
                b.in_export(&Reply::Begin)
            },
        },
        Phase::Export => b.in_export(reply),
        Phase::Share => match run_cmd(b.tools.rust_lld.as_str(), reply) {
            Err(e) => Step::Fail(e),
            Ok(_) => b.strip(),
        },
        Phase::Strip => match run_cmd(b.tools.llvm_objcopy.as_str(), reply) {
            Err(e) => Step::Fail(e),
            Ok(_) => {
                b.phase = Phase::Copy;
                Step::Do(Action::Copy { from: b.linked(), to: b.out() })
            },
        },
        Phase::Copy => {
            let doing = cat4(
                "copying ",
                quoted_path(b.linked().as_str()).as_str(),
                " to ",
                quoted_path(b.out().as_str()).as_str(),
            );
            match ack(reply, doing.as_str()) {
                Err(e) => Step::Fail(e),
                Ok(_) => {
                    b.phase = Phase::Report;
                    Step::Do(Action::Say(cat2("cargo-kbuild: wrote ", b.out().as_str())))
                },
            }
        },
        Phase::Report => Step::Done(b.out()),
    }
}

} // verus!
