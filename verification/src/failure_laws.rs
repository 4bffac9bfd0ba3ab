//! Why builds and tests fail, and what they start from.

use crate::args::{BuildArgsView, ExportSymsView};
use crate::error::{quoted_path_text, ErrorView};
use crate::export::{export_step, new_export, ExportInput, ExportStage, ExportView};
use crate::host::{Reply, StepView};
use crate::image::{download_path, fetch_step, half_unpacked, unfinished, unpack_step, Fetch, Unpack};
use crate::iso::{iso_step, IsoStage, IsoTool};
use crate::ktest::{new_ktest, KtestView, SurroundingsView, TestPhase};
use crate::ktest_args::KtestArgsView;
use crate::path_laws::{a_relative_path_goes_under_its_base, under};
use crate::pipeline::{new_build, BuildView, Phase};
use crate::qemu::{firmware_step, vars_path, FirmwareSearch, FirmwareView};
use crate::sysdir::{sysdir_step, SysdirSearch};
use crate::text::{readable_text, utf8_problem};
use crate::toolchain::{discover_step, DiscoveryView, Stage, ToolchainView};
use crate::vm::{VmStage, VmView};
use vstd::prelude::*;
use vstd::utf8::valid_utf8;

verus! {

/// A build starts from what it was asked for, and knows nothing else.
pub proof fn a_build_starts_from_what_was_asked_for(
    args: BuildArgsView,
    manifest_dir: Seq<char>,
    rustflags: Seq<char>,
)
    ensures
        ({
            let b = new_build(args, manifest_dir, rustflags);
            &&& b.args == args
            &&& b.manifest_dir == manifest_dir
            &&& b.rustflags == rustflags
            &&& b.phase == Phase::Sysdir
            &&& b.search == SysdirSearch::Start
            &&& b.discovery.stage == Stage::Start
            &&& b.export == new_export()
            &&& b.objects.len() == 0
            &&& b.ldscript is None
        }),
{
}

/// A test starts with the build of what it was asked for, in its own surroundings.
pub proof fn a_test_starts_with_its_build(args: KtestArgsView, around: SurroundingsView)
    ensures
        ({
            let t = new_ktest(args, around);
            &&& t.args == args
            &&& t.around == around
            &&& t.phase == TestPhase::Build
            &&& t.build == new_build(args.build, around.manifest_dir, around.rustflags)
            &&& t.fetch == Fetch::Start
            &&& t.unpack == Unpack::Start
            &&& t.iso == IsoStage::Start
            &&& t.search == FirmwareSearch::Start
            &&& t.failure is None
        }),
{
}

/// Why a build fails: what was refused is said, with the reason, or what is missing.
pub proof fn a_build_says_why_it_fails(b: BuildView, cause: String)
    ensures
        ({
            let refused = b.step(Reply::Failed(cause)).1;
            let failed = |doing: Seq<char>|
                StepView::<Seq<char>>::Fail(ErrorView::failed(doing, cause@));
            &&& b.phase == Phase::Manifest ==> refused == failed(
                "reading "@ + quoted_path_text(b.args.manifest_path),
            )
            &&& b.phase == Phase::TargetDir ==> refused == failed("creating --target-dir"@)
            &&& b.phase == Phase::Cargo ==> refused == failed(
                "spawning "@ + quoted_path_text("cargo"@),
            )
            &&& b.phase == Phase::Staticlib ==> b.step(Reply::Is(false)).1 == StepView::<
                Seq<char>,
            >::Fail(ErrorView::no_staticlib(b.staticlib()))
            &&& b.phase == Phase::WorkDir ==> refused == failed("creating kbuild work dir"@)
            &&& b.phase == Phase::LibraryPath ==> refused == StepView::<Seq<char>>::Fail(
                ErrorView::refused(cause@),
            )
            &&& b.phase == Phase::Extract ==> refused == failed(
                "spawning "@ + quoted_path_text(b.tools.llvm_ar),
            )
            &&& b.phase == Phase::Objects ==> refused == failed("reading extracted objects"@)
            &&& b.phase == Phase::Link || b.phase == Phase::Share ==> refused == failed(
                "spawning "@ + quoted_path_text(b.tools.rust_lld),
            )
            &&& b.phase == Phase::Strip ==> refused == failed(
                "spawning "@ + quoted_path_text(b.tools.llvm_objcopy),
            )
            &&& b.phase == Phase::Copy ==> refused == failed(
                "copying "@ + quoted_path_text(b.linked()) + " to "@ + quoted_path_text(b.out()),
            )
        }),
{
}

/// Why a test fails before its VM: what was refused is said, with the reason.
pub proof fn a_test_says_why_it_fails(t: KtestView, cause: String)
    ensures
        ({
            let refused = t.step(Reply::Failed(cause)).1;
            let failed = |doing: Seq<char>| StepView::<()>::Fail(ErrorView::failed(doing, cause@));
            &&& t.phase == TestPhase::KoPath || t.phase == TestPhase::IsoDir || t.phase
                == TestPhase::IsoCopy ==> refused == StepView::<()>::Fail(
                ErrorView::refused(cause@),
            )
            &&& t.phase == TestPhase::CacheDir ==> refused == failed("creating --cache-dir"@)
            &&& t.phase == TestPhase::WorkDir ==> refused == failed("creating ktest work dir"@)
            &&& t.phase == TestPhase::Overlay ==> refused == failed(
                "spawning "@ + quoted_path_text("qemu-img"@),
            )
        }),
{
}

/// A reply that does not fit what was asked for is an error, whatever was asked for.
pub proof fn a_reply_that_does_not_fit_is_an_error(b: BuildView, t: KtestView)
    ensures
        ({
            let odd = StepView::<Seq<char>>::Fail(ErrorView::unexpected_reply());
            let step = b.step(Reply::Silence).1;
            &&& b.phase == Phase::Manifest || b.phase == Phase::TargetDir || b.phase
                == Phase::Cargo || b.phase == Phase::Staticlib ==> step == odd
            &&& b.phase == Phase::WorkDir || b.phase == Phase::LibraryPath || b.phase
                == Phase::Extract || b.phase == Phase::Objects ==> step == odd
            &&& b.phase == Phase::Ldscript || b.phase == Phase::Link || b.phase == Phase::Share
                || b.phase == Phase::Strip || b.phase == Phase::Copy ==> step == odd
            &&& t.phase == TestPhase::KoPath || t.phase == TestPhase::CacheDir || t.phase
                == TestPhase::WorkDir || t.phase == TestPhase::Overlay || t.phase
                == TestPhase::IsoDir || t.phase == TestPhase::IsoCopy ==> t.step(
                Reply::Silence,
            ).1 == StepView::<()>::Fail(ErrorView::unexpected_reply())
        }),
{
}

/// As [`a_reply_that_does_not_fit_is_an_error`], for what builds and tests are made of.
pub proof fn a_search_wants_replies_that_fit(
    dir: Seq<char>,
    at: DiscoveryView,
    url: Seq<char>,
    cache_dir: Seq<char>,
    fresh: bool,
    firmware: FirmwareSearch,
    reply: Reply,
)
    requires
        reply is Silence || reply is Bytes,
    ensures
        ({
            let odd = ErrorView::unexpected_reply();
            let tree = |s: SysdirSearch| sysdir_step(s, dir, reply).1;
            let fetch = |f: Fetch| fetch_step(f, url, cache_dir, fresh, reply).1;
            let unpack = |u: Unpack| unpack_step(u, url, fresh, reply).1;
            &&& tree(SysdirSearch::Direct) == StepView::<Seq<char>>::Fail(odd)
            &&& tree(SysdirSearch::Nested) == StepView::<Seq<char>>::Fail(odd)
            &&& tree(SysdirSearch::FoundDirect) == StepView::<Seq<char>>::Fail(odd)
            &&& tree(SysdirSearch::FoundNested) == StepView::<Seq<char>>::Fail(odd)
            &&& at.stage != Stage::Start ==> discover_step(at, reply).1 == StepView::<
                ToolchainView,
            >::Fail(odd)
            &&& fetch(Fetch::Look) == StepView::<Seq<char>>::Fail(odd)
            &&& fetch(Fetch::Client) == StepView::<Seq<char>>::Fail(odd)
            &&& fetch(Fetch::Request) == StepView::<Seq<char>>::Fail(odd)
            &&& fetch(Fetch::Create) == StepView::<Seq<char>>::Fail(odd)
            &&& fetch(Fetch::Receive) == StepView::<Seq<char>>::Fail(odd)
            &&& fetch(Fetch::Append) == StepView::<Seq<char>>::Fail(odd)
            &&& fetch(Fetch::Rename) == StepView::<Seq<char>>::Fail(odd)
            &&& unpack(Unpack::Look) == StepView::<Seq<char>>::Fail(odd)
            &&& unpack(Unpack::Create) == StepView::<Seq<char>>::Fail(odd)
            &&& unpack(Unpack::Run) == StepView::<Seq<char>>::Fail(odd)
            &&& unpack(Unpack::Rename) == StepView::<Seq<char>>::Fail(odd)
            &&& firmware != FirmwareSearch::Start ==> firmware_step(firmware, dir, reply).1
                == StepView::<FirmwareView>::Fail(odd)
        }),
{
}

/// A reply that does not fit ends the test on a console, but not the VM, which is ended as
/// after any test.
pub proof fn an_odd_reply_ends_the_test_on_a_console(vm: VmView, reply: Reply)
    requires
        reply is Names,
        vm.stage == VmStage::Left || vm.stage == VmStage::Type || vm.stage == VmStage::Hear,
    ensures
        ({
            let (after, step) = vm.step(reply);
            &&& after.result == Some(ErrorView::unexpected_reply())
            &&& after.stage == VmStage::OffTimer
            &&& step == StepView::<()>::Do(crate::host::ActionView::SetTimer(30))
        }),
{
}

/// Why the search for the source tree or the tools fails.
pub proof fn a_search_says_why_it_fails(
    dir: Seq<char>,
    at: DiscoveryView,
    cause: String,
    stdout: Vec<u8>,
    stderr: Vec<u8>,
    success: bool,
)
    ensures
        sysdir_step(SysdirSearch::FoundDirect, dir, Reply::Failed(cause)).1 == StepView::<
            Seq<char>,
        >::Fail(ErrorView::failed("canonicalizing "@ + quoted_path_text(dir), cause@)),
        sysdir_step(SysdirSearch::FoundNested, dir, Reply::Failed(cause)).1 == StepView::<
            Seq<char>,
        >::Fail(
            ErrorView::failed("canonicalizing "@ + quoted_path_text(under(dir, "sys"@)), cause@),
        ),
        at.stage == Stage::Host ==> discover_step(at, Reply::Failed(cause)).1 == StepView::<
            ToolchainView,
        >::Fail(ErrorView::failed("running `rustc -vV`"@, cause@)),
        at.stage == Stage::Sysroot ==> discover_step(at, Reply::Failed(cause)).1 == StepView::<
            ToolchainView,
        >::Fail(ErrorView::failed("running `rustc --print sysroot`"@, cause@)),
        !valid_utf8(stdout@) && at.stage == Stage::Host ==> discover_step(
            at,
            Reply::Output { success, stdout, stderr },
        ).1 == StepView::<ToolchainView>::Fail(
            ErrorView::not_utf8("rustc -vV output not UTF-8"@, utf8_problem(stdout@)),
        ),
        !valid_utf8(stdout@) && at.stage == Stage::Sysroot ==> discover_step(
            at,
            Reply::Output { success, stdout, stderr },
        ).1 == StepView::<ToolchainView>::Fail(
            ErrorView::not_utf8("rustc --print sysroot not UTF-8"@, utf8_problem(stdout@)),
        ),
{
    reveal_strlit("sys");
    a_relative_path_goes_under_its_base(dir, "sys"@);
}

/// Why the editing of symbols fails.
pub proof fn the_editing_of_symbols_says_why_it_fails(
    at: ExportView,
    on: ExportInput,
    cause: String,
    stdout: Vec<u8>,
    stderr: Vec<u8>,
)
    ensures
        ({
            let refused = export_step(at, on, Reply::Failed(cause)).1;
            let script = under(on.sysdir, "conf/kmod_syms.awk"@);
            let failed = |doing: Seq<char>| StepView::<()>::Fail(ErrorView::failed(doing, cause@));
            &&& at.stage == ExportStage::ReadList ==> (on.export_syms matches ExportSymsView::List(
                path,
            ) ==> refused == failed("reading export-syms list "@ + quoted_path_text(path)))
            &&& at.stage == ExportStage::WriteList ==> refused == StepView::<()>::Fail(
                ErrorView::refused(cause@),
            )
            &&& at.stage == ExportStage::Script ==> refused == failed(
                "running awk -f "@ + quoted_path_text(script),
            )
            &&& at.stage == ExportStage::Script ==> export_step(
                at,
                on,
                Reply::Output { success: false, stdout, stderr },
            ).1 == StepView::<()>::Fail(ErrorView::awk_failed(script, readable_text(stderr@)))
            &&& at.stage == ExportStage::Script && !valid_utf8(stdout@) ==> export_step(
                at,
                on,
                Reply::Output { success: true, stdout, stderr },
            ).1 == StepView::<()>::Fail(
                ErrorView::not_utf8("kmod_syms.awk output not UTF-8"@, utf8_problem(stdout@)),
            )
            &&& at.stage == ExportStage::Localize ==> refused == failed(
                "spawning "@ + quoted_path_text(on.tools.llvm_objcopy),
            )
        }),
{
    reveal_strlit("conf/kmod_syms.awk");
    a_relative_path_goes_under_its_base(on.sysdir, "conf/kmod_syms.awk"@);
}

/// Why getting an image fails.
pub proof fn getting_an_image_says_why_it_fails(
    url: Seq<char>,
    cache_dir: Seq<char>,
    fresh: bool,
    xz_path: Seq<char>,
    cause: String,
)
    ensures
        ({
            let dest = download_path(url, cache_dir);
            let part = unfinished(dest);
            let fetch = |at: Fetch|
                fetch_step(at, url, cache_dir, fresh, Reply::Failed(cause)).1;
            let failed = |doing: Seq<char>|
                StepView::<Seq<char>>::Fail(ErrorView::failed(doing, cause@));
            &&& fetch(Fetch::Client) == failed("building HTTP client"@)
            &&& fetch(Fetch::Request) == failed("GET "@ + url)
            &&& fetch(Fetch::Create) == failed("creating "@ + quoted_path_text(part))
            &&& fetch(Fetch::Receive) == failed("reading download stream"@)
            &&& fetch(Fetch::Append) == failed("writing download"@)
            &&& fetch(Fetch::Rename) == failed(
                "renaming "@ + quoted_path_text(part) + " to "@ + quoted_path_text(dest),
            )
        }),
        ({
            let dest = crate::image::unpacked_path(xz_path);
            let part = half_unpacked(xz_path);
            let unpack = |at: Unpack| unpack_step(at, xz_path, fresh, Reply::Failed(cause)).1;
            let failed = |doing: Seq<char>|
                StepView::<Seq<char>>::Fail(ErrorView::failed(doing, cause@));
            &&& unpack(Unpack::Create) == failed("creating "@ + quoted_path_text(part))
            &&& unpack(Unpack::Run) == failed("running `xz -dc`"@)
            &&& unpack(Unpack::Rename) == failed(
                "renaming "@ + quoted_path_text(part) + " to "@ + quoted_path_text(dest),
            )
        }),
{
}

/// Why making a CD, finding the firmware or starting a VM fails.
pub proof fn what_a_vm_needs_says_why_it_fails(
    tool: IsoTool,
    src: Seq<char>,
    iso: Seq<char>,
    at: FirmwareSearch,
    dir: Seq<char>,
    vm: VmView,
    cause: String,
)
    ensures
        ({
            let name = match tool {
                IsoTool::Xorriso => "xorriso"@,
                IsoTool::Mkisofs => "mkisofs"@,
                IsoTool::Hdiutil => "hdiutil"@,
            };
            iso_step(IsoStage::Make(tool), src, iso, Reply::Failed(cause)).1 == StepView::<
                (),
            >::Fail(ErrorView::failed("spawning "@ + quoted_path_text(name), cause@))
        }),
        ({
            let refused = firmware_step(at, dir, Reply::Failed(cause)).1;
            &&& at is Measure ==> refused == StepView::<FirmwareView>::Fail(
                ErrorView::refused(cause@),
            )
            &&& at is Create ==> refused == StepView::<FirmwareView>::Fail(
                ErrorView::failed("creating "@ + quoted_path_text(vars_path(dir)), cause@),
            )
            &&& at is Fill ==> refused == StepView::<FirmwareView>::Fail(
                ErrorView::failed("sizing UEFI vars pflash"@, cause@),
            )
        }),
        vm.stage == VmStage::Spawn ==> vm.step(Reply::Failed(cause)).1 == StepView::<()>::Fail(
            ErrorView::failed("spawning qemu"@, cause@),
        ),
        vm.stage == VmStage::Open ==> vm.step(Reply::Failed(cause)).1 == StepView::<()>::Fail(
            ErrorView::failed("creating "@ + quoted_path_text(vm.log), cause@),
        ),
{
}

} // verus!
