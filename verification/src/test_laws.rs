//! Which module a test loads, and on which image.

use crate::host::{ActionView, Reply, StepView};
use crate::image::{download_path, fetch_step, unpacked_path};
use crate::iso::{iso_step, look_step, IsoStage};
use crate::ktest::{new_ktest, KtestView, SurroundingsView, TestPhase};
use crate::ktest_args::KtestArgsView;
use crate::ktest_laws::{has_image, is_test_run, test_after};
use crate::path::{is_plain, name_of};
use crate::path_laws::{
    a_path_is_its_parent_and_its_name, a_relative_path_goes_under_its_base, lemma_under, under,
};
use crate::pipeline::BuildView;
use crate::qemu::{firmware_step, FirmwareView};
use crate::session::{
    session_after, session_step, typed_lines, was_asked, DirectiveView, Happening, SessionView,
};
use crate::text_laws::{affixes_are_taken_off, splitting_is_at_the_first_and_the_last};
use crate::vm::VmView;
use vstd::prelude::*;

verus! {

/// Whether a line is one of those that the test of the module `module` types.
pub open spec fn is_typed_line(line: Seq<char>, module: Seq<char>) -> bool {
    ||| line == "root"@
    ||| line == ""@
    ||| line == "echo KBUILD_MARK_BOOTED"@
    ||| line == "mount -t cd9660 /dev/cd0 /mnt && echo KBUILD_MARK_MOUNTED"@
    ||| line == "kldload /mnt/"@ + module + ".ko && echo KBUILD_MARK_LOADED"@
    ||| line == "kldstat -n "@ + module + " >/dev/null && echo KBUILD_MARK_PRESENT"@
    ||| line == "kldunload "@ + module + " && echo KBUILD_MARK_UNLOADED"@
    ||| line == "poweroff"@
}

/// The commands, written out.
proof fn lemma_commands(module: Seq<char>)
    ensures
        ({
            let file = module + ".ko"@;
            &&& crate::session::mark_command(crate::session::Mark::Booted, file, module)
                == "echo KBUILD_MARK_BOOTED"@
            &&& crate::session::mark_command(crate::session::Mark::Mounted, file, module)
                == "mount -t cd9660 /dev/cd0 /mnt && echo KBUILD_MARK_MOUNTED"@
            &&& crate::session::mark_command(crate::session::Mark::Loaded, file, module)
                == "kldload /mnt/"@ + module + ".ko && echo KBUILD_MARK_LOADED"@
            &&& crate::session::mark_command(crate::session::Mark::Present, file, module)
                == "kldstat -n "@ + module + " >/dev/null && echo KBUILD_MARK_PRESENT"@
            &&& crate::session::mark_command(crate::session::Mark::Unloaded, file, module)
                == "kldunload "@ + module + " && echo KBUILD_MARK_UNLOADED"@
        }),
{
    reveal_strlit("echo ");
    reveal_strlit("KBUILD_MARK_BOOTED");
    reveal_strlit("KBUILD_MARK_MOUNTED");
    reveal_strlit("KBUILD_MARK_LOADED");
    reveal_strlit("KBUILD_MARK_PRESENT");
    reveal_strlit("KBUILD_MARK_UNLOADED");
    reveal_strlit(" && echo ");
    reveal_strlit(" >/dev/null && echo ");
    reveal_strlit("mount -t cd9660 /dev/cd0 /mnt");
    reveal_strlit(".ko");
    reveal_strlit("echo KBUILD_MARK_BOOTED");
    reveal_strlit("mount -t cd9660 /dev/cd0 /mnt && echo KBUILD_MARK_MOUNTED");
    reveal_strlit(".ko && echo KBUILD_MARK_LOADED");
    reveal_strlit(" >/dev/null && echo KBUILD_MARK_PRESENT");
    reveal_strlit(" && echo KBUILD_MARK_UNLOADED");
    assert("echo "@ + "KBUILD_MARK_BOOTED"@ =~= "echo KBUILD_MARK_BOOTED"@);
    assert("mount -t cd9660 /dev/cd0 /mnt"@ + " && echo "@ + "KBUILD_MARK_MOUNTED"@
        =~= "mount -t cd9660 /dev/cd0 /mnt && echo KBUILD_MARK_MOUNTED"@);
    assert(".ko"@ + " && echo "@ + "KBUILD_MARK_LOADED"@ =~= ".ko && echo KBUILD_MARK_LOADED"@);
    assert("kldload /mnt/"@ + (module + ".ko"@) + " && echo "@ + "KBUILD_MARK_LOADED"@
        =~= "kldload /mnt/"@ + module + (".ko"@ + " && echo "@ + "KBUILD_MARK_LOADED"@));
    assert(" >/dev/null && echo "@ + "KBUILD_MARK_PRESENT"@
        =~= " >/dev/null && echo KBUILD_MARK_PRESENT"@);
    assert("kldstat -n "@ + module + " >/dev/null && echo "@ + "KBUILD_MARK_PRESENT"@
        =~= "kldstat -n "@ + module + (" >/dev/null && echo "@ + "KBUILD_MARK_PRESENT"@));
    assert(" && echo "@ + "KBUILD_MARK_UNLOADED"@ =~= " && echo KBUILD_MARK_UNLOADED"@);
    assert("kldunload "@ + module + " && echo "@ + "KBUILD_MARK_UNLOADED"@ =~= "kldunload "@
        + module + (" && echo "@ + "KBUILD_MARK_UNLOADED"@));
}

/// What a test that passes has typed, to the letter: it logs in, mounts the CD, loads the
/// module's file from it, looks for the module by its name, unloads it by that name, and
/// powers off.
pub proof fn a_passed_test_typed_these_lines(
    step_timeout: u64,
    module: Seq<char>,
    happenings: Seq<Happening>,
    last: Happening,
)
    requires
        session_step(
            session_after(
                crate::session::new_session(step_timeout, module + ".ko"@, module),
                happenings,
            ),
            last,
        ).1 == Some(DirectiveView::Finish(None)),
    ensures
        ({
            let s = crate::session::new_session(step_timeout, module + ".ko"@, module);
            typed_lines(s, happenings) == (if was_asked(s, happenings) {
                seq!["root"@, ""@]
            } else {
                seq!["root"@]
            }) + seq![
                "echo KBUILD_MARK_BOOTED"@,
                "mount -t cd9660 /dev/cd0 /mnt && echo KBUILD_MARK_MOUNTED"@,
                "kldload /mnt/"@ + module + ".ko && echo KBUILD_MARK_LOADED"@,
                "kldstat -n "@ + module + " >/dev/null && echo KBUILD_MARK_PRESENT"@,
                "kldunload "@ + module + " && echo KBUILD_MARK_UNLOADED"@,
                "poweroff"@,
            ]
        }),
{
    crate::session::a_passed_test_typed_every_line(
        step_timeout,
        module + ".ko"@,
        module,
        happenings,
        last,
    );
    lemma_commands(module);
}

/// A session keeps its names and its patience, and types nothing but the lines of its test.
proof fn lemma_session_types(s: SessionView, happening: Happening)
    requires
        s.ko_name == s.module_name + ".ko"@,
    ensures
        ({
            let (after, directive) = session_step(s, happening);
            &&& after.ko_name == s.ko_name
            &&& after.module_name == s.module_name
            &&& after.step_timeout == s.step_timeout
            &&& directive matches Some(DirectiveView::Send(line)) ==> is_typed_line(
                line,
                s.module_name,
            )
        }),
{
    lemma_commands(s.module_name);
}

/// A VM keeps its session's names, and types nothing but the lines of its test.
proof fn lemma_vm_types(vm: VmView, reply: Reply)
    requires
        vm.session.ko_name == vm.session.module_name + ".ko"@,
    ensures
        ({
            let (after, step) = vm.step(reply);
            &&& after.session.ko_name == vm.session.ko_name
            &&& after.session.module_name == vm.session.module_name
            &&& after.session.step_timeout == vm.session.step_timeout
            &&& step matches StepView::Do(ActionView::Type(line)) ==> is_typed_line(
                line,
                vm.session.module_name,
            )
            &&& step matches StepView::Do(action) ==> !(action is Get) && !(action is StartVm)
                && !(action is Copy) && !(action is Run)
        }),
{
    match reply {
        Reply::Left(ns) => {
            lemma_session_types(vm.session, Happening::Polled(ns));
        },
        Reply::Heard(chunk) => {
            lemma_session_types(vm.session, Happening::Heard(chunk@));
        },
        _ => {},
    }
    lemma_session_types(vm.session, Happening::Closed);
}

/// Whether a test knows the module that it tests.
pub open spec fn knows_module(phase: TestPhase) -> bool {
    phase != TestPhase::Build && phase != TestPhase::KoPath
}

/// Where the image of a test comes from: from where the user says, and else from where
/// there is one for the machine.
pub open spec fn image_wanted(args: KtestArgsView) -> Seq<char> {
    match args.image_url {
        Some(url) => url,
        None => if args.build.machine == "arm64"@ {
            "https://download.freebsd.org/releases/VM-IMAGES/15.1-RELEASE/aarch64/Latest/FreeBSD-15.1-RELEASE-arm64-aarch64-zfs.qcow2.xz"@
        } else {
            "https://download.freebsd.org/releases/VM-IMAGES/15.1-RELEASE/amd64/Latest/FreeBSD-15.1-RELEASE-amd64-zfs.qcow2.xz"@
        },
    }
}

/// Whether a test has its image, but for decompressing it.
pub open spec fn has_download(phase: TestPhase) -> bool {
    phase == TestPhase::Decompress || has_image(phase)
}

/// What every test keeps about its module and its image.
pub open spec fn knows_what_it_tests(t: KtestView) -> bool {
    &&& knows_module(t.phase) ==> {
        &&& t.ko_name == t.module_name + ".ko"@
        &&& name_of(t.ko_path) == Some(t.ko_name)
        &&& t.image_url == image_wanted(t.args)
        &&& t.args.build.machine == "amd64"@ || t.args.build.machine == "arm64"@
    }
    &&& has_download(t.phase) ==> t.xz_path == download_path(t.image_url, t.cache_dir())
    &&& has_image(t.phase) ==> t.base == unpacked_path(t.xz_path)
    &&& t.phase == TestPhase::Boot ==> {
        &&& t.vm.session.ko_name == t.ko_name
        &&& t.vm.session.module_name == t.module_name
        &&& t.vm.session.step_timeout == t.args.step_timeout
    }
}

/// A build wants nothing that only a test wants.
proof fn lemma_build_wants(b: BuildView, reply: Reply)
    ensures
        b.step(reply).1 matches StepView::Do(action) ==> !(action is Get) && !(action is StartVm)
            && !(action is Type),
{
}

/// On the way to a CD nothing is wanted that only other parts of a test want.
proof fn lemma_iso_is_modest(at: IsoStage, src: Seq<char>, iso: Seq<char>, reply: Reply)
    ensures
        iso_step(at, src, iso, reply).1 matches StepView::Do(action) ==> !(action is Get) && !(
        action is StartVm) && !(action is Type) && !(action is Copy) && !(action is Exists),
{
    reveal_with_fuel(look_step, 4);
}

/// What a step of a test, which leads to the test in front, may want of the outside.
pub open spec fn wants_what_it_knows(step: (KtestView, StepView<()>)) -> bool {
    let t = step.0;
    step.1 matches StepView::Do(action) ==> match action {
        ActionView::Get(url) => url == image_wanted(t.args),
        ActionView::Type(line) => is_typed_line(line, t.module_name),
        ActionView::StartVm(command) => exists|firmware: Option<FirmwareView>|
            command == #[trigger] t.vm_command(firmware),
        ActionView::Copy { from, to } => knows_module(t.phase) ==> {
            &&& from == t.ko_path
            &&& to == under(t.iso_src(), t.module_name + ".ko"@)
        },
        ActionView::Exists(path) => t.phase == TestPhase::Download ==> path == download_path(
            image_wanted(t.args),
            t.cache_dir(),
        ),
        _ => true,
    }
}

/// What a step of a test keeps.
pub open spec fn keeps_what_it_knows(t: KtestView, step: (KtestView, StepView<()>)) -> bool {
    let after = step.0;
    &&& after.args == t.args
    &&& after.around == t.around
    &&& knows_module(t.phase) ==> {
        &&& knows_module(after.phase)
        &&& after.ko_path == t.ko_path
        &&& after.ko_name == t.ko_name
        &&& after.module_name == t.module_name
        &&& after.image_url == t.image_url
    }
    &&& has_download(t.phase) ==> has_download(after.phase) && after.xz_path == t.xz_path
    &&& has_image(t.phase) ==> has_image(after.phase) && after.base == t.base
}

proof fn lemma_boot(t: KtestView, firmware: Option<FirmwareView>)
    requires
        knows_what_it_tests(t),
        has_image(t.phase),
    ensures
        keeps_what_it_knows(t, t.boot(firmware)),
        t.boot(firmware).1 is Do,
        knows_what_it_tests(t.boot(firmware).0),
        wants_what_it_knows(t.boot(firmware)),
{
    let (after, step) = t.boot(firmware);
    assert(after.vm_command(firmware) == t.vm_command(firmware));
}

proof fn lemma_firmware(t: KtestView, reply: Reply)
    requires
        knows_what_it_tests(t),
        t.phase == TestPhase::Firmware,
    ensures
        keeps_what_it_knows(t, t.in_firmware(reply)),
        t.in_firmware(reply).1 is Do ==> knows_what_it_tests(t.in_firmware(reply).0),
        wants_what_it_knows(t.in_firmware(reply)),
{
    let (search, step) = firmware_step(t.search, t.around.temp_dir, reply);
    if let StepView::Done(firmware) = step {
        lemma_boot(KtestView { search, ..t }, Some(firmware));
    }
}

proof fn lemma_iso(t: KtestView, reply: Reply)
    requires
        knows_what_it_tests(t),
        t.phase == TestPhase::Iso,
    ensures
        keeps_what_it_knows(t, t.in_iso(reply)),
        t.in_iso(reply).1 is Do ==> knows_what_it_tests(t.in_iso(reply).0),
        wants_what_it_knows(t.in_iso(reply)),
{
    let (iso, step) = iso_step(t.iso, t.iso_src(), t.iso_path(), reply);
    let u = KtestView { iso, ..t };
    lemma_iso_is_modest(t.iso, t.iso_src(), t.iso_path(), reply);
    lemma_boot(u, None);
    lemma_firmware(KtestView { phase: TestPhase::Firmware, ..u }, Reply::Begin);
}

proof fn lemma_decompress(t: KtestView, reply: Reply)
    requires
        knows_what_it_tests(t),
        t.phase == TestPhase::Decompress,
    ensures
        keeps_what_it_knows(t, t.in_decompress(reply)),
        t.in_decompress(reply).1 is Do ==> knows_what_it_tests(t.in_decompress(reply).0),
        wants_what_it_knows(t.in_decompress(reply)),
{
}

proof fn lemma_download(t: KtestView, reply: Reply)
    requires
        knows_what_it_tests(t),
        t.phase == TestPhase::Download,
    ensures
        keeps_what_it_knows(t, t.in_download(reply)),
        t.in_download(reply).1 is Do ==> knows_what_it_tests(t.in_download(reply).0),
        wants_what_it_knows(t.in_download(reply)),
{
    let (fetch, step) = fetch_step(t.fetch, t.image_url, t.cache_dir(), t.args.fresh, reply);
    if let StepView::Done(xz_path) = step {
        lemma_decompress(
            KtestView { phase: TestPhase::Decompress, fetch, xz_path, ..t },
            Reply::Begin,
        );
    }
}

proof fn lemma_ko_path(t: KtestView, reply: Reply)
    requires
        t.phase == TestPhase::KoPath,
    ensures
        keeps_what_it_knows(t, t.in_ko_path(reply)),
        t.in_ko_path(reply).1 is Do ==> knows_what_it_tests(t.in_ko_path(reply).0),
        wants_what_it_knows(t.in_ko_path(reply)),
{
    if let Reply::Text(path) = reply {
        if let Some(name) = name_of(path@) {
            affixes_are_taken_off(name, ".ko"@);
        }
    }
}

/// A step that does not end a test keeps what the test knows, and wants only what fits it.
proof fn lemma_knowing_step(t: KtestView, reply: Reply)
    requires
        knows_what_it_tests(t),
    ensures
        keeps_what_it_knows(t, t.step(reply)),
        t.step(reply).1 is Do ==> knows_what_it_tests(t.step(reply).0),
        wants_what_it_knows(t.step(reply)),
{
    match t.phase {
        TestPhase::Build => {
            lemma_build_wants(t.build, reply);
        },
        TestPhase::KoPath => {
            lemma_ko_path(t, reply);
        },
        TestPhase::CacheDir => {
            lemma_download(KtestView { phase: TestPhase::Download, ..t }, Reply::Begin);
        },
        TestPhase::Download => {
            lemma_download(t, reply);
        },
        TestPhase::Decompress => {
            lemma_decompress(t, reply);
        },
        TestPhase::IsoDir => {
            lemma_copy_to(t);
        },
        TestPhase::IsoCopy => {
            lemma_iso(KtestView { phase: TestPhase::Iso, ..t }, Reply::Begin);
        },
        TestPhase::Iso => {
            lemma_iso(t, reply);
        },
        TestPhase::Firmware => {
            lemma_firmware(t, reply);
        },
        TestPhase::Boot => {
            lemma_vm_types(t.vm, reply);
        },
        _ => {},
    }
}

/// The module goes below the directory for the CD.
proof fn lemma_copy_to(t: KtestView)
    requires
        name_of(t.ko_path) == Some(t.ko_name),
    ensures
        crate::path::joined_path(t.iso_src(), t.ko_name) == under(t.iso_src(), t.ko_name),
{
    lemma_name_has_no_separator(t.ko_path);
    a_relative_path_goes_under_its_base(t.iso_src(), t.ko_name);
    if t.ko_name.len() > 0 && t.ko_name[0] == '/' {
        assert(t.ko_name.contains(t.ko_name[0]));
    }
}

/// The name at the end of a path holds no separator.
proof fn lemma_name_has_no_separator(path: Seq<char>)
    ensures
        name_of(path) matches Some(name) ==> !name.contains('/'),
{
    let t = crate::path::trimmed_path(path);
    crate::path::lemma_after_last(t.skip(crate::path::before_body(t) as int), '/');
}

proof fn lemma_knowing_run(t: KtestView, replies: Seq<Reply>)
    requires
        knows_what_it_tests(t),
        is_test_run(t, replies),
    ensures
        knows_what_it_tests(test_after(t, replies)),
        test_after(t, replies).args == t.args,
        test_after(t, replies).around == t.around,
    decreases replies.len(),
{
    if replies.len() > 0 {
        let before = replies.drop_last();
        let last = before.len() as int;
        assert forall|n: int| 0 <= n < before.len() implies (#[trigger] test_after(
            t,
            before.take(n),
        )).step(before[n]).1 is Do by {
            assert(before.take(n) =~= replies.take(n));
            assert(test_after(t, replies.take(n)).step(replies[n]).1 is Do);
        }
        lemma_knowing_run(t, before);
        assert(replies.take(last) =~= before);
        assert(test_after(t, replies.take(last)).step(replies[last]).1 is Do);
        lemma_knowing_step(test_after(t, before), replies.last());
    }
}

/// In every test, the file that is copied to the CD is the built module, under its own
/// name, which is the module's name and `.ko`; and the lines typed load that file and look
/// for and unload the module of that name.
pub proof fn the_module_tested_is_the_one_built(
    args: KtestArgsView,
    around: SurroundingsView,
    replies: Seq<Reply>,
    last: Reply,
)
    requires
        is_test_run(new_ktest(args, around), replies),
    ensures
        ({
            let t = test_after(new_ktest(args, around), replies);
            let (after, step) = t.step(last);
            &&& knows_module(t.phase) ==> {
                &&& t.ko_name == t.module_name + ".ko"@
                &&& name_of(t.ko_path) == Some(t.module_name + ".ko"@)
                &&& after.ko_path == t.ko_path
                &&& after.ko_name == t.ko_name
                &&& after.module_name == t.module_name
                &&& step matches StepView::Do(ActionView::Copy { from, to }) ==> from == t.ko_path
                    && to == under(t.iso_src(), t.module_name + ".ko"@)
            }
            &&& t.phase == TestPhase::Boot ==> {
                &&& t.vm.session.ko_name == t.module_name + ".ko"@
                &&& t.vm.session.module_name == t.module_name
                &&& t.vm.session.step_timeout == args.step_timeout
            }
            &&& step matches StepView::Do(ActionView::Type(line)) ==> is_typed_line(
                line,
                after.module_name,
            )
        }),
{
    let t = new_ktest(args, around);
    lemma_knowing_run(t, replies);
    lemma_knowing_step(test_after(t, replies), last);
}

/// The module that is tested is named as the file that was built, and a file that is no
/// `.ko` is refused: where the build has written `dir/NAME.ko`, that is what is tested,
/// under `NAME`, for either machine.
pub proof fn the_module_is_named_as_its_file(
    t: KtestView,
    path: String,
    dir: Seq<char>,
    file: Seq<char>,
    module: Seq<char>,
)
    requires
        t.phase == TestPhase::KoPath,
        path@ == dir + seq!['/'] + file,
        is_plain(file),
        t.args.build.machine == "amd64"@ || t.args.build.machine == "arm64"@,
    ensures
        ({
            let (after, step) = t.step(Reply::Text(path));
            &&& file == module + ".ko"@ ==> {
                &&& after.ko_path == path@
                &&& after.ko_name == file
                &&& after.module_name == module
                &&& after.phase == TestPhase::CacheDir
                &&& step == StepView::<()>::Do(ActionView::CreateDirs(t.cache_dir()))
            }
            &&& (forall|m: Seq<char>| file != #[trigger] (m + ".ko"@)) ==> step == StepView::<
                (),
            >::Fail(crate::error::ErrorView::not_a_ko())
        }),
{
    a_path_is_its_parent_and_its_name(dir, file);
    if dir.len() == 0 {
        assert(path@ =~= seq!['/'] + file);
    }
    affixes_are_taken_off(module, ".ko"@);
    affixes_are_taken_off(file, ".ko"@);
}

/// In every test, nothing is requested, and nothing looked for in the cache, but the image
/// that the user names or, where none is named, the one for the machine whose VM is
/// started; the disk of the VM is on top of that image.
pub proof fn the_image_is_that_of_the_machine(
    args: KtestArgsView,
    around: SurroundingsView,
    replies: Seq<Reply>,
    last: Reply,
)
    requires
        is_test_run(new_ktest(args, around), replies),
    ensures
        ({
            let t = test_after(new_ktest(args, around), replies);
            let (after, step) = t.step(last);
            &&& step matches StepView::Do(ActionView::Get(url)) ==> url == image_wanted(args)
            &&& step matches StepView::Do(ActionView::Exists(path)) ==> after.phase
                == TestPhase::Download ==> path == download_path(image_wanted(args), t.cache_dir())
            &&& knows_module(t.phase) ==> t.image_url == image_wanted(args) && (args.build.machine
                == "amd64"@ || args.build.machine == "arm64"@)
            &&& has_download(t.phase) ==> t.xz_path == download_path(
                image_wanted(args),
                t.cache_dir(),
            )
            &&& has_image(t.phase) ==> t.base == unpacked_path(
                download_path(image_wanted(args), t.cache_dir()),
            )
            &&& step matches StepView::Do(ActionView::StartVm(command)) ==> exists|
                firmware: Option<FirmwareView>,
            |
                command == #[trigger] crate::qemu::qemu_command_of(
                    args,
                    args.build.machine,
                    after.overlay(),
                    after.iso_path(),
                    firmware,
                    around.arch,
                )
        }),
{
    let t = new_ktest(args, around);
    lemma_knowing_run(t, replies);
    let now = test_after(t, replies);
    lemma_knowing_step(now, last);
    let (after, step) = now.step(last);
    if let StepView::Do(ActionView::StartVm(command)) = step {
        let firmware = choose|firmware: Option<FirmwareView>|
            command == #[trigger] after.vm_command(firmware);
        assert(command == crate::qemu::qemu_command_of(
            args,
            args.build.machine,
            after.overlay(),
            after.iso_path(),
            firmware,
            around.arch,
        ));
    }
}

/// Where an image is kept: in the cache directory, under the last part of its address; and
/// where it is decompressed to: next to it, without the extension.
pub proof fn an_image_is_kept_under_its_name(
    address: Seq<char>,
    stem: Seq<char>,
    ext: Seq<char>,
    cache_dir: Seq<char>,
)
    requires
        stem.len() > 0,
        is_plain(stem + seq!['.'] + ext),
        !ext.contains('.'),
    ensures
        ({
            let file = stem + seq!['.'] + ext;
            let url = address + seq!['/'] + file;
            &&& download_path(url, cache_dir) == under(cache_dir, file)
            &&& unpacked_path(download_path(url, cache_dir)) == under(cache_dir, stem)
        }),
{
    let file = stem + seq!['.'] + ext;
    splitting_is_at_the_first_and_the_last(address, file, '/');
    a_relative_path_goes_under_its_base(cache_dir, file);
    if file[0] == '/' {
        assert(file.contains(file[0]));
    }
    reveal_strlit("");
    assert(""@ =~= Seq::<char>::empty());
    crate::path_laws::another_extension_takes_its_place(cache_dir, stem, ext, seq!['x']);
}

/// An image is kept under the last part of its address, whatever that is called, and an
/// address without a separator is such a part as a whole.
pub proof fn an_address_ends_in_the_name_of_its_file(
    address: Seq<char>,
    file: Seq<char>,
    cache_dir: Seq<char>,
)
    requires
        is_plain(file),
    ensures
        download_path(address + seq!['/'] + file, cache_dir) == under(cache_dir, file),
        download_path(file, cache_dir) == under(cache_dir, file),
{
    splitting_is_at_the_first_and_the_last(address, file, '/');
    a_relative_path_goes_under_its_base(cache_dir, file);
    if file[0] == '/' {
        assert(file.contains(file[0]));
    }
}

/// The images that are used where none is named, for the two machines, are kept under
/// different names, so that neither is taken for the other.
pub proof fn the_machines_do_not_share_an_image(
    arm: KtestArgsView,
    amd: KtestArgsView,
    cache_dir: Seq<char>,
)
    requires
        arm.image_url is None,
        amd.image_url is None,
        arm.build.machine == "arm64"@,
        amd.build.machine == "amd64"@,
    ensures
        download_path(image_wanted(arm), cache_dir) == under(
            cache_dir,
            "FreeBSD-15.1-RELEASE-arm64-aarch64-zfs.qcow2.xz"@,
        ),
        download_path(image_wanted(amd), cache_dir) == under(
            cache_dir,
            "FreeBSD-15.1-RELEASE-amd64-zfs.qcow2.xz"@,
        ),
{
    reveal_strlit("arm64");
    reveal_strlit("amd64");
    assert("arm64"@[1] != "amd64"@[1]);
    reveal_strlit("https://download.freebsd.org/releases/VM-IMAGES/15.1-RELEASE/aarch64/Latest/FreeBSD-15.1-RELEASE-arm64-aarch64-zfs.qcow2.xz");
    reveal_strlit("https://download.freebsd.org/releases/VM-IMAGES/15.1-RELEASE/amd64/Latest/FreeBSD-15.1-RELEASE-amd64-zfs.qcow2.xz");
    reveal_strlit("FreeBSD-15.1-RELEASE-arm64-aarch64-zfs.qcow2.xz");
    reveal_strlit("FreeBSD-15.1-RELEASE-amd64-zfs.qcow2.xz");
    let a = image_wanted(arm);
    let b = image_wanted(amd);
    let x = "FreeBSD-15.1-RELEASE-arm64-aarch64-zfs.qcow2.xz"@;
    let y = "FreeBSD-15.1-RELEASE-amd64-zfs.qcow2.xz"@;
    let ka = a.len() - x.len() - 1;
    let kb = b.len() - y.len() - 1;
    assert(a =~= a.take(ka) + seq!['/'] + x);
    assert(b =~= b.take(kb) + seq!['/'] + y);
    assert(!x.contains('/'));
    assert(!y.contains('/'));
    splitting_is_at_the_first_and_the_last(a.take(ka), x, '/');
    splitting_is_at_the_first_and_the_last(b.take(kb), y, '/');
    a_relative_path_goes_under_its_base(cache_dir, x);
    a_relative_path_goes_under_its_base(cache_dir, y);
}

/// A test works in a directory of its own below the target directory, named after the
/// module.
pub proof fn a_test_works_below_its_target_directory(t: KtestView)
    requires
        crate::build_laws::is_component(t.module_name),
    ensures
        t.work_dir() == under(t.args.build.target_dir, "ktest-work/"@ + t.module_name),
        t.overlay() == t.work_dir() + "/overlay.qcow2"@,
        t.iso_src() == t.work_dir() + "/iso-src"@,
        t.iso_path() == t.work_dir() + "/test.iso"@,
        t.log_path() == t.work_dir() + "/console.log"@,
{
    reveal_strlit("ktest-work");
    reveal_strlit("ktest-work/");
    reveal_strlit("overlay.qcow2");
    reveal_strlit("/overlay.qcow2");
    reveal_strlit("iso-src");
    reveal_strlit("/iso-src");
    reveal_strlit("test.iso");
    reveal_strlit("/test.iso");
    reveal_strlit("console.log");
    reveal_strlit("/console.log");
    let top = t.args.build.target_dir;
    let name = t.module_name;
    a_relative_path_goes_under_its_base(top, "ktest-work"@);
    a_relative_path_goes_under_its_base(under(top, "ktest-work"@), name);
    lemma_under(top, "ktest-work"@, name);
    assert("ktest-work"@ + seq!['/'] + name =~= "ktest-work/"@ + name);
    let work = t.work_dir();
    assert(work.last() == name.last());
    a_relative_path_goes_under_its_base(work, "overlay.qcow2"@);
    a_relative_path_goes_under_its_base(work, "iso-src"@);
    a_relative_path_goes_under_its_base(work, "test.iso"@);
    a_relative_path_goes_under_its_base(work, "console.log"@);
    assert(work + seq!['/'] + "overlay.qcow2"@ =~= work + "/overlay.qcow2"@);
    assert(work + seq!['/'] + "iso-src"@ =~= work + "/iso-src"@);
    assert(work + seq!['/'] + "test.iso"@ =~= work + "/test.iso"@);
    assert(work + seq!['/'] + "console.log"@ =~= work + "/console.log"@);
}

} // verus!
