//! What holds of a test as a whole.

use crate::error::ErrorView;
use crate::host::{bare_ack_error, ActionView, Reply, StepView};
use crate::image::{
    download_path, fetch_step, half_unpacked, unfinished, unpack_step, unpacked_path, xz_command_of,
    Fetch, Unpack,
};
use crate::iso::{iso_command_of, iso_step, look_step, IsoStage, IsoTool};
use crate::ktest::{new_ktest, overlay_command_of, KtestView, SurroundingsView, TestPhase};
use crate::ktest_args::KtestArgsView;
use crate::path::{
    another_extension_is_another_file, dropping_the_extension_leaves_the_stem,
    extension_changes_only_the_name, extension_of, is_plain, joined_path,
    joined_path_ends_in_its_name, lemma_after_last, stem_of,
};
use crate::pipeline_laws::changes;
use crate::qemu::{firmware_step, vars_path, FirmwareView};
use crate::session::{
    all_marks_were_shown, lemma_session_step, panicked, session_inv, verdict_of, Happening, Stage,
};
use crate::text::after_last;
use crate::vm::{log_in, outcome, VmStage, VmView};
use vstd::prelude::*;

verus! {

/// The test `t` after the replies given.
pub open spec fn test_after(t: KtestView, replies: Seq<Reply>) -> KtestView
    decreases replies.len(),
{
    if replies.len() == 0 {
        t
    } else {
        test_after(t, replies.drop_last()).step(replies.last()).0
    }
}

/// Whether the test `t` got each of the replies for something that it asked for, and
/// asked for something more after it.
pub open spec fn is_test_run(t: KtestView, replies: Seq<Reply>) -> bool {
    forall|n: int|
        0 <= n < replies.len() ==> (#[trigger] test_after(t, replies.take(n))).step(
            replies[n],
        ).1 is Do
}

/// Whether a module has passed in a VM: the test on the console has ended without an
/// error, every marker was shown on a line of its own, and the log, which has just been
/// read, tells of no kernel panic.
pub open spec fn passes(vm: VmView, reply: Reply) -> bool {
    &&& vm.stage == VmStage::ReadLog
    &&& vm.result is None
    &&& all_marks_were_shown(vm.session)
    &&& !panicked(log_in(reply))
}

/// Whether the module has passed in the VM by the time that the test `t` got the
/// replies given.
pub open spec fn vm_passed(t: KtestView, replies: Seq<Reply>) -> bool {
    exists|n: int|
        0 <= n < replies.len() && (#[trigger] test_after(t, replies.take(n))).phase
            == TestPhase::Boot && passes(test_after(t, replies.take(n)).vm, replies[n])
}

/// Whether the test on a VM's console has ended.
pub open spec fn is_over(stage: VmStage) -> bool {
    match stage {
        VmStage::OffTimer
        | VmStage::Exited
        | VmStage::OffLeft
        | VmStage::Pause
        | VmStage::Kill
        | VmStage::Close
        | VmStage::ReadLog => true,
        _ => false,
    }
}

/// What every VM keeps: the test on its console has ended without an error only when
/// it came to its end.
pub open spec fn vm_inv(vm: VmView) -> bool {
    &&& session_inv(vm.session)
    &&& is_over(vm.stage) && vm.result is None ==> vm.session.stage == Stage::Over
}

proof fn lemma_vm_step(vm: VmView, reply: Reply)
    requires
        vm_inv(vm),
    ensures
        ({
            let (after, step) = vm.step(reply);
            &&& step is Do ==> vm_inv(after) && after.log == vm.log
            &&& step is Done ==> passes(vm, reply)
        }),
{
    match vm.stage {
        VmStage::Left => {
            if let Reply::Left(ns) = reply {
                lemma_session_step(vm.session, Happening::Polled(ns));
            }
        },
        VmStage::Hear => {
            if let Reply::Heard(chunk) = reply {
                lemma_session_step(vm.session, Happening::Heard(chunk@));
            }
            lemma_session_step(vm.session, Happening::Closed);
        },
        _ => {},
    }
}

/// A VM whose console was opened has exited by itself or been killed before the test
/// is judged, and it is judged by nothing but its log and the test's result.
pub proof fn a_vm_is_ended_before_it_is_judged(vm: VmView, reply: Reply)
    ensures
        ({
            let (after, step) = vm.step(reply);
            &&& step !is Do ==> vm.stage == VmStage::Spawn || vm.stage == VmStage::Open || vm.stage
                == VmStage::ReadLog
            &&& step is Do && after.stage == VmStage::ReadLog ==> vm.stage == VmStage::Close
            &&& step is Do && after.stage == VmStage::Close ==> {
                ||| vm.stage == VmStage::Exited && reply == Reply::Is(true)
                ||| vm.stage == VmStage::Kill
            }
            &&& vm.stage == VmStage::ReadLog ==> step == outcome(
                verdict_of(log_in(reply), vm.log, vm.result),
            )
        }),
{
}

/// Whether a test is past its VM.
pub open spec fn is_past_vm(phase: TestPhase) -> bool {
    match phase {
        TestPhase::DropOverlay
        | TestPhase::DropIsoDir
        | TestPhase::DropIso
        | TestPhase::Keep
        | TestPhase::Report => true,
        _ => false,
    }
}

/// What every test keeps about its VM.
pub open spec fn test_inv(t: KtestView) -> bool {
    t.phase == TestPhase::Boot ==> vm_inv(t.vm) && t.vm.log == t.log_path()
}

/// A step that brings a test past its VM without a failure is one in which the module
/// passed.
proof fn lemma_test_step(t: KtestView, reply: Reply)
    requires
        test_inv(t),
    ensures
        ({
            let (after, step) = t.step(reply);
            &&& step is Do ==> test_inv(after)
            &&& step is Do && is_past_vm(after.phase) && after.failure is None ==> {
                ||| is_past_vm(t.phase) && t.failure is None
                ||| t.phase == TestPhase::Boot && passes(t.vm, reply)
            }
            &&& step is Done ==> t.phase == TestPhase::Report && t.failure is None
        }),
{
    match t.phase {
        TestPhase::Build => {},
        TestPhase::CacheDir | TestPhase::Download | TestPhase::Decompress => {},
        TestPhase::IsoCopy | TestPhase::Iso | TestPhase::Firmware => {},
        TestPhase::Boot => {
            lemma_vm_step(t.vm, reply);
        },
        _ => {},
    }
}

proof fn lemma_test_run(t: KtestView, replies: Seq<Reply>)
    requires
        t.phase == TestPhase::Build,
        is_test_run(t, replies),
    ensures
        ({
            let end = test_after(t, replies);
            &&& test_inv(end)
            &&& is_past_vm(end.phase) && end.failure is None ==> vm_passed(t, replies)
        }),
    decreases replies.len(),
{
    if replies.len() > 0 {
        let before = replies.drop_last();
        let last = before.len() as int;
        assert forall|n: int| 0 <= n < before.len() implies (#[trigger] test_after(
            t,
            before.take(n),
        )).step(before[n]).1 is Do by {
            assert(before.take(n) =~= replies.take(n));
            assert(test_after(t, replies.take(n)).step(replies[n]).1 is Do);
        }
        lemma_test_run(t, before);
        assert(replies.take(last) =~= before);
        assert(test_after(t, replies.take(last)).step(replies[last]).1 is Do);
        lemma_test_step(test_after(t, before), replies.last());
        if vm_passed(t, before) {
            let n = choose|n: int|
                0 <= n < before.len() && (#[trigger] test_after(t, before.take(n))).phase
                    == TestPhase::Boot && passes(test_after(t, before.take(n)).vm, before[n]);
            assert(before.take(n) =~= replies.take(n));
            assert(test_after(t, replies.take(n)).phase == TestPhase::Boot);
        }
    }
}

/// A test is passed only if the VM was started, every marker was shown on its console
/// on a line of its own, and the console's log tells of no kernel panic.
pub proof fn a_test_passes_only_in_the_vm(
    args: KtestArgsView,
    around: SurroundingsView,
    replies: Seq<Reply>,
    last: Reply,
)
    requires
        is_test_run(new_ktest(args, around), replies),
        test_after(new_ktest(args, around), replies).step(last).1 is Done,
    ensures
        vm_passed(new_ktest(args, around), replies),
{
    let t = new_ktest(args, around);
    lemma_test_run(t, replies);
    lemma_test_step(test_after(t, replies), last);
}

/// The step that brings a test past its VM begins to clean up.
proof fn lemma_end_begins(t: KtestView, reply: Reply)
    requires
        !is_past_vm(t.phase),
        t.step(reply).1 is Do,
        is_past_vm(t.step(reply).0.phase),
    ensures
        ({
            let (after, step) = t.step(reply);
            let ended = KtestView {
                phase: if t.args.keep {
                    TestPhase::Keep
                } else {
                    TestPhase::DropOverlay
                },
                ..after
            };
            &&& after == ended
            &&& (after, step) == after.end(after.failure)
            &&& after.args == t.args
            &&& after.module_name == t.module_name
        }),
{
    match t.phase {
        TestPhase::Build => {},
        TestPhase::CacheDir | TestPhase::Download | TestPhase::Decompress => {},
        TestPhase::IsoCopy => {},
        TestPhase::Iso => {},
        TestPhase::Firmware => {},
        TestPhase::Boot => {},
        _ => {},
    }
}

/// A test that looks for firmware or has its VM does not end before it has cleaned up.
pub proof fn a_test_does_not_end_without_cleaning_up(t: KtestView, reply: Reply)
    requires
        t.phase == TestPhase::Firmware || t.phase == TestPhase::Boot,
    ensures
        t.step(reply).1 is Do,
{
}

/// A test that comes past its VM, because no firmware was found, because the VM did not
/// start, or however it ended, cleans up before it says how it ended, whatever becomes
/// of the cleaning: it removes its disk, the directory for the CD and the CD. Where the
/// files are kept, it says so and removes nothing.
pub proof fn a_test_cleans_up_however_it_ends(
    t: KtestView,
    reply: Reply,
    r1: Reply,
    r2: Reply,
    r3: Reply,
)
    requires
        !is_past_vm(t.phase),
        t.step(reply).1 is Do,
        is_past_vm(t.step(reply).0.phase),
    ensures
        ({
            let (t1, s1) = t.step(reply);
            let (t2, s2) = t1.step(r1);
            let (t3, s3) = t2.step(r2);
            let (t4, s4) = t3.step(r3);
            if t.args.keep {
                &&& s1 == StepView::<()>::Do(
                    ActionView::Say("cargo-kbuild: kept VM artifacts under "@ + t.work_dir()),
                )
                &&& t2.phase == TestPhase::Report
                &&& t2.failure == t1.failure
                &&& s2 matches StepView::Do(action)
                &&& action is Say || action is Warn
                &&& s3 !is Do
            } else {
                &&& s1 == StepView::<()>::Do(ActionView::RemoveFile(t.overlay()))
                &&& s2 == StepView::<()>::Do(ActionView::RemoveDir(t.iso_src()))
                &&& s3 == StepView::<()>::Do(ActionView::RemoveFile(t.iso_path()))
                &&& t4.phase == TestPhase::Report
                &&& t4.failure == t1.failure
                &&& s4 matches StepView::Do(action)
                &&& action is Say || action is Warn
            }
        }),
{
    lemma_end_begins(t, reply);
}

/// Whether a test is done with the VM image: it only reads it from here on.
pub open spec fn has_image(phase: TestPhase) -> bool {
    match phase {
        TestPhase::Build
        | TestPhase::KoPath
        | TestPhase::CacheDir
        | TestPhase::Download
        | TestPhase::Decompress => false,
        _ => true,
    }
}

/// What is wanted on the way to a CD.
proof fn lemma_iso_wants(at: IsoStage, src: Seq<char>, iso: Seq<char>, reply: Reply)
    ensures
        iso_step(at, src, iso, reply).1 matches StepView::Do(action) ==> {
            ||| action == ActionView::RemoveFile(iso)
            ||| action is Probe || action is Ask
            ||| exists|tool: IsoTool|
                action == ActionView::Run(#[trigger] iso_command_of(tool, src, iso))
        },
{
    reveal_with_fuel(look_step, 4);
    let (after, step) = iso_step(at, src, iso, reply);
    if let IsoStage::Make(tool) = after {
        assert(step is Do ==> step == StepView::<()>::Do(
            ActionView::Run(iso_command_of(tool, src, iso)),
        ));
    }
}

/// Whether a step of a test, which leads to the test in front, wants only what
/// [`stays_in_its_files`].
pub open spec fn wants_only_its_files(step: (KtestView, StepView<()>)) -> bool {
    step.1 matches StepView::Do(action) ==> stays_in_its_files(step.0, action)
}

/// A VM starts from the test's own disk.
proof fn lemma_vm_starts_from_disk(t: KtestView, firmware: Option<FirmwareView>)
    ensures
        wants_only_its_files(t.boot(firmware)),
{
    let (after, step) = t.boot(firmware);
    assert(after.vm_command(firmware) == t.vm_command(firmware));
}

/// Whether an action changes nothing but the working directory of `t` and the file for
/// the firmware's variables, and runs no program but one that makes a disk on top of
/// the VM image or a CD, and a VM with that disk.
pub open spec fn stays_in_its_files(t: KtestView, action: ActionView) -> bool {
    match action {
        ActionView::CreateDirs(p) => p == t.work_dir() || p == t.iso_src(),
        ActionView::RemoveDir(p) => p == t.work_dir() || p == t.iso_src(),
        ActionView::RemoveFile(p) => p == t.overlay() || p == t.iso_path(),
        ActionView::Copy { from, to } => to == joined_path(t.iso_src(), t.ko_name),
        ActionView::CreateFile(p) => p == vars_path(t.around.temp_dir),
        ActionView::Resize { path, .. } => path == vars_path(t.around.temp_dir),
        ActionView::StartVm(command) => exists|firmware: Option<FirmwareView>|
            command == #[trigger] t.vm_command(firmware),
        ActionView::OpenConsole(log) => log == t.log_path(),
        ActionView::Run(command) => {
            ||| command == overlay_command_of(t.base, t.overlay())
            ||| exists|tool: IsoTool|
                command == #[trigger] iso_command_of(tool, t.iso_src(), t.iso_path())
        },
        _ => !changes(action),
    }
}

/// What is wanted on the way to the firmware.
proof fn lemma_firmware_wants(t: KtestView, reply: Reply)
    ensures
        wants_only_its_files(t.in_firmware(reply)),
{
    let (search, step) = firmware_step(t.search, t.around.temp_dir, reply);
    if let StepView::Done(firmware) = step {
        lemma_vm_starts_from_disk(KtestView { search, ..t }, Some(firmware));
    }
}

/// What is wanted of a VM.
proof fn lemma_vm_wants(vm: VmView, reply: Reply)
    ensures
        vm.step(reply).1 matches StepView::Do(action) ==> {
            ||| action == ActionView::OpenConsole(vm.log)
            ||| action is SetTimer || action is TimeLeft || action is Type || action is Hear
            ||| action is HasExited || action is Pause || action is KillVm
            ||| action is CloseConsole || action is ReadBytes
        },
{
}

proof fn lemma_wants_after_image(t: KtestView, reply: Reply)
    requires
        has_image(t.phase),
        test_inv(t),
    ensures
        wants_only_its_files(t.step(reply)),
    decreases (if t.phase == TestPhase::IsoCopy { 1int } else { 0int }),
{
    match t.phase {
        TestPhase::IsoCopy => {
            let u = KtestView { phase: TestPhase::Iso, ..t };
            lemma_wants_after_image(u, Reply::Begin);
            if bare_ack_error(reply) is None {
                assert(t.step(reply) == u.step(Reply::Begin));
            } else {
                assert(t.step(reply).1 is Fail);
            }
        },
        TestPhase::Iso => {
            let (iso, _) = iso_step(t.iso, t.iso_src(), t.iso_path(), reply);
            let u = KtestView { iso, ..t };
            lemma_iso_wants(t.iso, t.iso_src(), t.iso_path(), reply);
            lemma_vm_starts_from_disk(u, None);
            lemma_firmware_wants(KtestView { phase: TestPhase::Firmware, ..u }, Reply::Begin);
        },
        TestPhase::Firmware => {
            lemma_firmware_wants(t, reply);
        },
        TestPhase::Boot => {
            lemma_vm_wants(t.vm, reply);
        },
        _ => {},
    }
}

/// Once it has the VM image, a test itself changes nothing but its own working
/// directory and the file for the firmware's variables. The programs that it runs
/// make a disk on top of the image, and a CD, and the VM writes to that disk.
pub proof fn a_test_changes_only_its_own_files(
    args: KtestArgsView,
    around: SurroundingsView,
    replies: Seq<Reply>,
    last: Reply,
)
    requires
        is_test_run(new_ktest(args, around), replies),
        has_image(test_after(new_ktest(args, around), replies).phase),
    ensures
        wants_only_its_files(test_after(new_ktest(args, around), replies).step(last)),
{
    let t = new_ktest(args, around);
    lemma_test_run(t, replies);
    lemma_wants_after_image(test_after(t, replies), last);
}

/// A file is given the name under which it counts as downloaded only at the end of
/// the document, and until then nothing but the unfinished file is
/// written.
pub proof fn a_download_is_named_when_it_is_complete(
    at: Fetch,
    url: Seq<char>,
    cache_dir: Seq<char>,
    fresh: bool,
    reply: Reply,
)
    ensures
        ({
            let dest = download_path(url, cache_dir);
            fetch_step(at, url, cache_dir, fresh, reply).1 matches StepView::Do(action) ==> {
                match action {
                    ActionView::Rename { from, to } => {
                        &&& from == unfinished(dest)
                        &&& to == dest
                        &&& at == Fetch::Receive
                        &&& reply == Reply::Size(0)
                    },
                    ActionView::CreateFile(path) => path == unfinished(dest),
                    ActionView::Append(path) => path == unfinished(dest),
                    _ => !changes(action),
                }
            }
        }),
{
}

/// The unfinished file is another one than the finished, whatever the file is called.
pub proof fn an_unfinished_download_is_another_file(url: Seq<char>, cache_dir: Seq<char>)
    requires
        is_plain(after_last(url, '/')),
    ensures
        unfinished(download_path(url, cache_dir)) != download_path(url, cache_dir),
{
    let name = after_last(url, '/');
    reveal_strlit("part");
    reveal_strlit("part.part");
    joined_path_ends_in_its_name(cache_dir, name);
    assert("part"@.len() != "part.part"@.len());
    another_extension_is_another_file(
        cache_dir,
        name,
        if extension_of(name) == Some("part"@) {
            "part.part"@
        } else {
            "part"@
        },
    );
}

/// An address that ends in no file name is refused before anything is asked for.
pub proof fn an_address_without_a_name_is_refused(
    url: Seq<char>,
    cache_dir: Seq<char>,
    fresh: bool,
    reply: Reply,
)
    requires
        !is_plain(after_last(url, '/')),
    ensures
        fetch_step(Fetch::Start, url, cache_dir, fresh, reply).1 == StepView::<Seq<char>>::Fail(
            ErrorView::no_path_component(),
        ),
{
}

/// A document that is there is not requested again, unless a fresh one is asked for;
/// a fresh one always is.
pub proof fn a_cached_download_is_used_unless_fresh(
    url: Seq<char>,
    cache_dir: Seq<char>,
    fresh: bool,
    there: bool,
    r: Reply,
)
    requires
        is_plain(after_last(url, '/')),
    ensures
        ({
            let (s1, _) = fetch_step(Fetch::Start, url, cache_dir, fresh, Reply::Begin);
            let (s2, _) = fetch_step(s1, url, cache_dir, fresh, Reply::Is(there));
            let (s3, next) = fetch_step(s2, url, cache_dir, fresh, r);
            let (_, request) = fetch_step(s3, url, cache_dir, fresh, Reply::Done);
            if there && !fresh {
                next == StepView::Done(download_path(url, cache_dir))
            } else {
                request == StepView::<Seq<char>>::Do(ActionView::Get(url))
            }
        }),
{
}

/// An image is given the name under which it counts as decompressed only when `xz`
/// has succeeded, and until then nothing but the unfinished file is written.
pub proof fn an_image_is_named_when_it_is_complete(
    at: Unpack,
    xz_path: Seq<char>,
    fresh: bool,
    reply: Reply,
)
    ensures
        ({
            let dest = unpacked_path(xz_path);
            unpack_step(at, xz_path, fresh, reply).1 matches StepView::Do(action) ==> {
                match action {
                    ActionView::Rename { from, to } => {
                        &&& from == half_unpacked(xz_path)
                        &&& to == dest
                        &&& at == Unpack::Run
                        &&& reply matches Reply::Exit { success, .. }
                        &&& success
                    },
                    ActionView::CreateFile(path) => path == half_unpacked(xz_path),
                    ActionView::RunInto { path, .. } => path == half_unpacked(xz_path),
                    _ => !changes(action),
                }
            }
        }),
{
}

/// An unfinished image is another file than the finished one, and than the compressed
/// one.
pub proof fn an_unfinished_image_is_another_file(dir: Seq<char>, name: Seq<char>)
    requires
        is_plain(name),
        is_plain(stem_of(name)),
    ensures
        ({
            let xz_path = joined_path(dir, name);
            &&& half_unpacked(xz_path) != unpacked_path(xz_path)
            &&& half_unpacked(xz_path) != xz_path
        }),
{
    let stem = stem_of(name);
    let xz_path = joined_path(dir, name);
    let dest = unpacked_path(xz_path);
    reveal_strlit("");
    assert(""@ =~= Seq::<char>::empty());
    dropping_the_extension_leaves_the_stem(dir, name);
    reveal_strlit("qcow2.part");
    reveal_strlit("qcow2.part.part");
    lemma_after_last(stem, '.');
    assert("qcow2.part"@[5] == '.');
    assert("qcow2.part.part"@[5] == '.');
    another_extension_is_another_file(dir, stem, "qcow2.part"@);
    another_extension_is_another_file(dir, stem, "qcow2.part.part"@);
    extension_changes_only_the_name(dir, stem, "qcow2.part"@);
    extension_changes_only_the_name(dir, stem, "qcow2.part.part"@);
    reveal_strlit("/");
    let a = stem_of(stem) + "."@ + "qcow2.part"@;
    let b = stem_of(stem) + "."@ + "qcow2.part.part"@;
    assert(a[0] == b[0]) by {
        reveal_strlit(".");
    }
    assert(joined_path(dir, a).len() != joined_path(dir, b).len());
}

/// An image that is there is not decompressed again, unless a fresh one is asked
/// for; a fresh one always is.
pub proof fn a_cached_image_is_used_unless_fresh(
    xz_path: Seq<char>,
    fresh: bool,
    there: bool,
    r1: Reply,
)
    ensures
        ({
            let dest = unpacked_path(xz_path);
            let (s1, _) = unpack_step(Unpack::Start, xz_path, fresh, Reply::Begin);
            let (s2, next) = unpack_step(s1, xz_path, fresh, Reply::Is(there));
            let (s3, made) = unpack_step(s2, xz_path, fresh, r1);
            let (_, run) = unpack_step(s3, xz_path, fresh, Reply::Done);
            if there && !fresh {
                next == StepView::Done(dest)
            } else {
                &&& made == StepView::<Seq<char>>::Do(ActionView::CreateFile(half_unpacked(xz_path)))
                &&& run == StepView::<Seq<char>>::Do(
                    ActionView::RunInto {
                        command: xz_command_of(xz_path),
                        path: half_unpacked(xz_path),
                    },
                )
            }
        }),
{
}

} // verus!
