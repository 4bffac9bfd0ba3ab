//! What a test is carried out with: the image, the disk, the CD, the firmware and the VM.

use crate::error::ErrorView;
use crate::host::{ActionView, Reply, StepView};
use crate::image::{
    cache_dir_of, download_path, fetch_step, half_unpacked, unfinished, unpack_step, unpacked_path,
    Fetch, Unpack,
};
use crate::iso::{iso_command_of, iso_step, look_step, IsoStage, IsoTool, Probe};
use crate::ktest::{overlay_command_of, KtestView, TestPhase};
use crate::ktest_args::KtestArgsView;
use crate::path::is_plain;
use crate::path_laws::{
    a_first_extension_goes_behind_the_name, a_relative_path_goes_under_its_base, another_extension_takes_its_place, lemma_under,
    the_extension_is_behind_the_last_dot, under,
};
use crate::qemu::{
    firmware_step, qemu_command_of, FirmwareSearch, FirmwareView, Place,
};
use crate::text_laws::splitting_is_at_the_first_and_the_last;
use vstd::prelude::*;

verus! {

/// Images are kept where the user's other caches are.
pub proof fn images_are_kept_with_other_caches(
    xdg: Option<Seq<char>>,
    home: Option<Seq<char>>,
)
    ensures
        xdg matches Some(dir) ==> cache_dir_of(xdg, home) == under(dir, "opendarwin-kbuild"@),
        xdg is None ==> (home matches Some(dir) ==> cache_dir_of(xdg, home) == under(
            dir,
            ".cache/opendarwin-kbuild"@,
        )),
        xdg is None && home is None ==> cache_dir_of(xdg, home) == ".kbuild-cache"@,
{
    reveal_strlit("opendarwin-kbuild");
    reveal_strlit(".cache");
    reveal_strlit(".cache/opendarwin-kbuild");
    if let Some(dir) = xdg {
        a_relative_path_goes_under_its_base(dir, "opendarwin-kbuild"@);
    } else if let Some(dir) = home {
        a_relative_path_goes_under_its_base(dir, ".cache"@);
        a_relative_path_goes_under_its_base(under(dir, ".cache"@), "opendarwin-kbuild"@);
        lemma_under(dir, ".cache"@, "opendarwin-kbuild"@);
        assert(".cache"@ + seq!['/'] + "opendarwin-kbuild"@ =~= ".cache/opendarwin-kbuild"@);
    }
}

/// A test keeps its images where it is told to, and else where the surroundings say.
pub proof fn a_test_keeps_its_images_where_it_is_told(t: KtestView)
    ensures
        t.args.cache_dir matches Some(dir) ==> t.cache_dir() == dir,
        t.args.cache_dir is None ==> t.cache_dir() == cache_dir_of(
            t.around.xdg_cache_home,
            t.around.home,
        ),
{
}

/// How an image gets into the cache: it is used where it is there and nothing fresh is
/// wanted; else the document at its address is requested, all of it is received into the
/// unfinished file, part by part, and that gets the name of the image.
pub proof fn an_image_is_downloaded_part_by_part(
    url: Seq<char>,
    cache_dir: Seq<char>,
    fresh: bool,
    there: bool,
    size: u64,
    any: Reply,
)
    requires
        is_plain(crate::text::after_last(url, '/')),
    ensures
        ({
            let dest = download_path(url, cache_dir);
            let part = unfinished(dest);
            let go = |at: Fetch, reply: Reply| fetch_step(at, url, cache_dir, fresh, reply);
            &&& go(Fetch::Start, any) == (
                Fetch::Look,
                StepView::<Seq<char>>::Do(ActionView::Exists(dest)),
            )
            &&& go(Fetch::Look, Reply::Is(there)).0 == (if there && !fresh {
                Fetch::Cached
            } else {
                Fetch::Announce
            })
            &&& go(Fetch::Look, Reply::Is(there)).1 == StepView::<Seq<char>>::Do(
                if there && !fresh {
                    ActionView::Say("cargo-kbuild: using cached "@ + dest)
                } else {
                    ActionView::Say("cargo-kbuild: downloading "@ + url)
                },
            )
            &&& go(Fetch::Cached, any).1 == StepView::Done(dest)
            &&& go(Fetch::Announce, any) == (
                Fetch::Client,
                StepView::<Seq<char>>::Do(ActionView::MakeClient),
            )
            &&& go(Fetch::Client, Reply::Done) == (
                Fetch::Request,
                StepView::<Seq<char>>::Do(ActionView::Get(url)),
            )
            &&& go(Fetch::Request, Reply::Done) == (
                Fetch::Create,
                StepView::<Seq<char>>::Do(ActionView::CreateFile(part)),
            )
            &&& go(Fetch::Create, Reply::Done) == (
                Fetch::Receive,
                StepView::<Seq<char>>::Do(ActionView::Receive),
            )
            &&& size > 0 ==> go(Fetch::Receive, Reply::Size(size)) == (
                Fetch::Append,
                StepView::<Seq<char>>::Do(ActionView::Append(part)),
            )
            &&& go(Fetch::Append, Reply::Done) == (
                Fetch::Receive,
                StepView::<Seq<char>>::Do(ActionView::Receive),
            )
            &&& go(Fetch::Receive, Reply::Size(0)) == (
                Fetch::Rename,
                StepView::<Seq<char>>::Do(ActionView::Rename { from: part, to: dest }),
            )
            &&& go(Fetch::Rename, Reply::Done).1 == StepView::Done(dest)
        }),
{
}

/// A download ends with an error when something goes wrong.
pub proof fn a_download_fails_with_what_it_needs(
    at: Fetch,
    url: Seq<char>,
    cache_dir: Seq<char>,
    fresh: bool,
    cause: String,
)
    requires
        at != Fetch::Start,
        at != Fetch::Cached,
        at != Fetch::Announce,
    ensures
        fetch_step(at, url, cache_dir, fresh, Reply::Failed(cause)).1 is Fail,
{
}

/// An unfinished download stands next to where the finished one will, as `*.part`.
pub proof fn an_unfinished_download_is_a_part(
    address: Seq<char>,
    stem: Seq<char>,
    ext: Seq<char>,
    cache_dir: Seq<char>,
)
    requires
        stem.len() > 0,
        !ext.contains('.'),
        is_plain(stem + seq!['.'] + ext),
    ensures
        ({
            let url = address + seq!['/'] + stem + seq!['.'] + ext;
            unfinished(download_path(url, cache_dir)) == under(
                cache_dir,
                stem + (if ext == "part"@ {
                    ".part.part"@
                } else {
                    ".part"@
                }),
            )
        }),
{
    let file = stem + seq!['.'] + ext;
    let url = address + seq!['/'] + stem + seq!['.'] + ext;
    assert(url =~= address + seq!['/'] + file);
    splitting_is_at_the_first_and_the_last(address, file, '/');
    a_relative_path_goes_under_its_base(cache_dir, file);
    if file[0] == '/' {
        assert(file.contains(file[0]));
    }
    crate::path::joined_path_ends_in_its_name(cache_dir, file);
    the_extension_is_behind_the_last_dot(stem, ext);
    reveal_strlit("part");
    reveal_strlit("part.part");
    reveal_strlit(".part");
    reveal_strlit(".part.part");
    another_extension_takes_its_place(cache_dir, stem, ext, "part"@);
    another_extension_takes_its_place(cache_dir, stem, ext, "part.part"@);
    assert(stem + seq!['.'] + "part"@ =~= stem + ".part"@);
    assert(stem + seq!['.'] + "part.part"@ =~= stem + ".part.part"@);
}

/// A file without an extension gets `.part` behind it while it is unfinished.
pub proof fn a_file_without_an_extension_is_a_part_too(dir: Seq<char>, file: Seq<char>)
    requires
        is_plain(file),
        !file.drop_first().contains('.'),
    ensures
        unfinished(under(dir, file)) == under(dir, file + ".part"@),
        unpacked_path(under(dir, file)) == under(dir, file),
        half_unpacked(under(dir, file)) == under(dir, file + ".qcow2.part"@),
{
    reveal_strlit("");
    assert(""@ =~= Seq::<char>::empty());
    reveal_strlit("part");
    reveal_strlit(".part");
    reveal_strlit("qcow2.part");
    reveal_strlit(".qcow2.part");
    let rest = file.drop_first();
    if file[0] == '/' {
        assert(file.contains(file[0]));
    }
    a_relative_path_goes_under_its_base(dir, file);
    crate::path::joined_path_ends_in_its_name(dir, file);
    assert(crate::path::extension_of(file) is None) by {
        if file[0] == '.' {
            assert(file =~= seq!['.'] + rest);
            the_extension_is_behind_the_last_dot(rest, rest);
        } else {
            assert(!file.contains('.')) by {
                if file.contains('.') {
                    let i = choose|i: int| 0 <= i < file.len() && file[i] == '.';
                    assert(rest[i - 1] == '.');
                }
            }
            the_extension_is_behind_the_last_dot(file, file);
        }
    }
    a_first_extension_goes_behind_the_name(dir, file, "part"@, file);
    a_first_extension_goes_behind_the_name(dir, file, "qcow2.part"@, file);
    assert(file + seq!['.'] + "part"@ =~= file + ".part"@);
    assert(file + seq!['.'] + "qcow2.part"@ =~= file + ".qcow2.part"@);
    assert(under(dir, file + ".qcow2.part"@).len() > under(dir, file).len());
}

/// An image whose name has but one extension is decompressed to `*.qcow2.part` too.
pub proof fn an_image_with_one_extension_is_a_part_too(
    dir: Seq<char>,
    stem: Seq<char>,
    ext: Seq<char>,
)
    requires
        is_plain(stem),
        !stem.drop_first().contains('.'),
        !ext.contains('.'),
        is_plain(stem + seq!['.'] + ext),
    ensures
        unpacked_path(under(dir, stem + seq!['.'] + ext)) == under(dir, stem),
        half_unpacked(under(dir, stem + seq!['.'] + ext)) == under(dir, stem + ".qcow2.part"@),
{
    reveal_strlit("");
    assert(""@ =~= Seq::<char>::empty());
    reveal_strlit("qcow2.part");
    reveal_strlit(".qcow2.part");
    another_extension_takes_its_place(dir, stem, ext, seq!['x']);
    a_first_extension_goes_behind_the_name(dir, stem, "qcow2.part"@, stem);
    let part = stem + ".qcow2.part"@;
    let file = stem + seq!['.'] + ext;
    assert(stem + seq!['.'] + "qcow2.part"@ =~= part);
    if under(dir, part) == under(dir, file) {
        let k = under(dir, part).len();
        assert(part.len() == file.len());
        let at = k - part.len() + stem.len() + 6;
        assert(under(dir, part)[at] == '.');
        assert(under(dir, file)[at] == ext[5]);
        assert(ext.contains(ext[5]));
    }
}

/// How an image is decompressed: not at all where that was done before and nothing fresh is
/// wanted; else by `xz`, into an unfinished file that then gets the name of the image.
pub proof fn an_image_is_decompressed_by_xz(
    xz_path: Seq<char>,
    fresh: bool,
    there: bool,
    any: Reply,
    status: String,
)
    ensures
        ({
            let dest = unpacked_path(xz_path);
            let part = half_unpacked(xz_path);
            let go = |at: Unpack, reply: Reply| unpack_step(at, xz_path, fresh, reply);
            &&& go(Unpack::Start, any) == (
                Unpack::Look,
                StepView::<Seq<char>>::Do(ActionView::Exists(dest)),
            )
            &&& there && !fresh ==> go(Unpack::Look, Reply::Is(there)).1 == StepView::Done(dest)
            &&& !there || fresh ==> go(Unpack::Look, Reply::Is(there)) == (
                Unpack::Announce,
                StepView::<Seq<char>>::Do(
                    ActionView::Say(
                        "cargo-kbuild: decompressing "@ + xz_path + " (this only happens once)"@,
                    ),
                ),
            )
            &&& go(Unpack::Announce, any) == (
                Unpack::Create,
                StepView::<Seq<char>>::Do(ActionView::CreateFile(part)),
            )
            &&& go(Unpack::Create, Reply::Done).0 == Unpack::Run
            &&& go(Unpack::Create, Reply::Done).1 matches StepView::Do(
                ActionView::RunInto { command, path },
            ) && {
                &&& command.program == "xz"@
                &&& command.args == seq!["-dc"@, "-T0"@, xz_path]
                &&& command.envs.len() == 0
                &&& command.dir is None
                &&& path == part
            }
            &&& go(Unpack::Run, Reply::Exit { success: true, status }) == (
                Unpack::Rename,
                StepView::<Seq<char>>::Do(ActionView::Rename { from: part, to: dest }),
            )
            &&& go(Unpack::Run, Reply::Exit { success: false, status }).1 == StepView::<
                Seq<char>,
            >::Fail(ErrorView::xz_failed(xz_path, status@))
            &&& go(Unpack::Rename, Reply::Done).1 == StepView::Done(dest)
        }),
{
}

/// An image that is being decompressed stands next to where it will be, as `*.qcow2.part`,
/// or as `*.qcow2.part.part` where the former is the compressed image itself.
pub proof fn a_half_decompressed_image_is_a_part(
    stem: Seq<char>,
    inner: Seq<char>,
    ext: Seq<char>,
    cache_dir: Seq<char>,
)
    requires
        stem.len() > 0,
        !inner.contains('.'),
        !ext.contains('.'),
        is_plain(stem + seq!['.'] + inner),
        is_plain(stem + seq!['.'] + inner + seq!['.'] + ext),
    ensures
        ({
            let xz_path = under(cache_dir, stem + seq!['.'] + inner + seq!['.'] + ext);
            let part = under(cache_dir, stem + ".qcow2.part"@);
            half_unpacked(xz_path) == (if part == xz_path {
                under(cache_dir, stem + ".qcow2.part.part"@)
            } else {
                part
            })
        }),
{
    reveal_strlit("");
    assert(""@ =~= Seq::<char>::empty());
    reveal_strlit("qcow2.part");
    reveal_strlit("qcow2.part.part");
    reveal_strlit(".qcow2.part");
    reveal_strlit(".qcow2.part.part");
    let name = stem + seq!['.'] + inner;
    another_extension_takes_its_place(cache_dir, name, ext, seq!['x']);
    another_extension_takes_its_place(cache_dir, stem, inner, "qcow2.part"@);
    another_extension_takes_its_place(cache_dir, stem, inner, "qcow2.part.part"@);
    assert(stem + seq!['.'] + "qcow2.part"@ =~= stem + ".qcow2.part"@);
    assert(stem + seq!['.'] + "qcow2.part.part"@ =~= stem + ".qcow2.part.part"@);
}

/// The disk of a VM is made on top of the image, and keeps what is written to it.
pub proof fn the_disk_is_on_top_of_the_image(base: Seq<char>, overlay: Seq<char>)
    ensures
        ({
            let c = overlay_command_of(base, overlay);
            &&& c.program == "qemu-img"@
            &&& c.args == seq!["create"@, "-f"@, "qcow2"@, "-F"@, "qcow2"@] + seq![
                "-b"@,
                base,
                overlay,
            ]
            &&& c.envs.len() == 0
            &&& c.dir is None
        }),
{
    assert(overlay_command_of(base, overlay).args =~= seq![
        "create"@,
        "-f"@,
        "qcow2"@,
        "-F"@,
        "qcow2"@,
    ] + seq!["-b"@, base, overlay]);
}

/// A CD is made of the directory given, at the place given, and called `KBUILD`, whatever
/// makes it.
pub proof fn a_cd_is_made_of_its_directory(tool: IsoTool, src_dir: Seq<char>, iso_path: Seq<char>)
    ensures
        ({
            let c = iso_command_of(tool, src_dir, iso_path);
            &&& c.envs.len() == 0
            &&& c.dir is None
            &&& c.args.len() >= 3
            &&& c.args[c.args.len() - 3] == "-o"@
            &&& c.args[c.args.len() - 2] == iso_path
            &&& c.args[c.args.len() - 1] == src_dir
            &&& match tool {
                IsoTool::Xorriso => c.program == "xorriso"@ && c.args.take(6) == seq![
                    "-as"@,
                    "mkisofs"@,
                    "-V"@,
                    "KBUILD"@,
                    "-J"@,
                    "-R"@,
                ] && c.args.len() == 9,
                IsoTool::Mkisofs => c.program == "mkisofs"@ && c.args.take(4) == seq![
                    "-V"@,
                    "KBUILD"@,
                    "-J"@,
                    "-R"@,
                ] && c.args.len() == 7,
                IsoTool::Hdiutil => c.program == "hdiutil"@ && c.args.take(5) == seq![
                    "makehybrid"@,
                    "-iso"@,
                    "-joliet"@,
                    "-default-volume-name"@,
                    "KBUILD"@,
                ] && c.args.len() == 8,
            }
        }),
{
    let c = iso_command_of(tool, src_dir, iso_path);
    match tool {
        IsoTool::Xorriso => {
            assert(c.args.take(6) =~= seq![
                "-as"@,
                "mkisofs"@,
                "-V"@,
                "KBUILD"@,
                "-J"@,
                "-R"@,
            ]);
        },
        IsoTool::Mkisofs => {
            assert(c.args.take(4) =~= seq!["-V"@, "KBUILD"@, "-J"@, "-R"@]);
        },
        IsoTool::Hdiutil => {
            assert(c.args.take(5) =~= seq![
                "makehybrid"@,
                "-iso"@,
                "-joliet"@,
                "-default-volume-name"@,
                "KBUILD"@,
            ]);
        },
    }
}

/// Whether a reply says that a program succeeded.
pub open spec fn went_well(reply: Reply) -> bool {
    reply matches Reply::Exit { success, .. } && success
}

/// What is asked of a program to find out whether it is there: first its version, and where
/// that fails the shell is asked for it.
pub open spec fn asks_for(step: StepView<()>, tool: Seq<char>) -> bool {
    step matches StepView::Do(ActionView::Probe(c)) && c.program == tool && c.args == seq![
        "--version"@,
    ] && c.envs.len() == 0 && c.dir is None
}

/// As [`asks_for`], by the shell.
pub open spec fn asks_shell_for(step: StepView<()>, tool: Seq<char>) -> bool {
    step matches StepView::Do(ActionView::Ask(c)) && c.program == "sh"@ && c.args == seq![
        "-c"@,
        "command -v "@ + tool,
    ] && c.envs.len() == 0 && c.dir is None
}

/// The CD is made by the first of `xorriso`, `mkisofs` and `hdiutil` that is installed, and
/// by none where none is. An older CD goes first.
pub proof fn a_cd_is_made_by_what_is_installed(src: Seq<char>, iso: Seq<char>, reply: Reply)
    ensures
        ({
            let go = |at: IsoStage| iso_step(at, src, iso, reply);
            let look = |tool: IsoTool, probe: Probe| go(IsoStage::Look(tool, probe));
            &&& go(IsoStage::Start) == (
                IsoStage::Remove,
                StepView::<()>::Do(ActionView::RemoveFile(iso)),
            )
            &&& go(IsoStage::Remove).0 == IsoStage::Look(IsoTool::Xorriso, Probe::Version)
            &&& asks_for(go(IsoStage::Remove).1, "xorriso"@)
            &&& went_well(reply) ==> forall|tool: IsoTool, probe: Probe|
                probe != Probe::Start ==> #[trigger] look(tool, probe) == (
                    IsoStage::Make(tool),
                    StepView::<()>::Do(ActionView::Run(iso_command_of(tool, src, iso))),
                )
            &&& !went_well(reply) ==> {
                &&& look(IsoTool::Xorriso, Probe::Version).0 == IsoStage::Look(
                    IsoTool::Xorriso,
                    Probe::Shell,
                )
                &&& asks_shell_for(look(IsoTool::Xorriso, Probe::Version).1, "xorriso"@)
                &&& look(IsoTool::Xorriso, Probe::Shell).0 == IsoStage::Look(
                    IsoTool::Mkisofs,
                    Probe::Version,
                )
                &&& asks_for(look(IsoTool::Xorriso, Probe::Shell).1, "mkisofs"@)
                &&& look(IsoTool::Mkisofs, Probe::Version).0 == IsoStage::Look(
                    IsoTool::Mkisofs,
                    Probe::Shell,
                )
                &&& asks_shell_for(look(IsoTool::Mkisofs, Probe::Version).1, "mkisofs"@)
                &&& look(IsoTool::Mkisofs, Probe::Shell).0 == IsoStage::Look(
                    IsoTool::Hdiutil,
                    Probe::Version,
                )
                &&& asks_for(look(IsoTool::Mkisofs, Probe::Shell).1, "hdiutil"@)
                &&& look(IsoTool::Hdiutil, Probe::Version).0 == IsoStage::Look(
                    IsoTool::Hdiutil,
                    Probe::Shell,
                )
                &&& asks_shell_for(look(IsoTool::Hdiutil, Probe::Version).1, "hdiutil"@)
                &&& look(IsoTool::Hdiutil, Probe::Shell).1 == StepView::<()>::Fail(
                    ErrorView::no_iso_tool(),
                )
            }
            &&& forall|tool: IsoTool|
                (#[trigger] go(IsoStage::Make(tool))).1 == StepView::Done(()) <==> went_well(reply)
            &&& forall|tool: IsoTool| (#[trigger] go(IsoStage::Make(tool))).1 !is Do
        }),
{
    reveal_with_fuel(look_step, 4);
}

/// The firmware is looked for in five places, one after the other.
pub proof fn the_firmware_is_looked_for_in_its_places(dir: Seq<char>, any: Reply)
    ensures
        ({
            let no = Reply::Is(false);
            let (a, s1) = firmware_step(FirmwareSearch::Start, dir, any);
            let (b, s2) = firmware_step(a, dir, no);
            let (c, s3) = firmware_step(b, dir, no);
            let (d, s4) = firmware_step(c, dir, no);
            let (e, s5) = firmware_step(d, dir, no);
            let (f, s6) = firmware_step(e, dir, no);
            &&& s1 == StepView::<FirmwareView>::Do(
                ActionView::Exists("/opt/homebrew/share/qemu/edk2-aarch64-code.fd"@),
            )
            &&& s2 == StepView::<FirmwareView>::Do(
                ActionView::Exists("/usr/local/share/qemu/edk2-aarch64-code.fd"@),
            )
            &&& s3 == StepView::<FirmwareView>::Do(
                ActionView::Exists("/usr/share/qemu/edk2-aarch64-code.fd"@),
            )
            &&& s4 == StepView::<FirmwareView>::Do(
                ActionView::Exists("/usr/share/edk2/aarch64/QEMU_EFI.fd"@),
            )
            &&& s5 == StepView::<FirmwareView>::Do(
                ActionView::Exists("/usr/share/AAVMF/AAVMF_CODE.fd"@),
            )
            &&& s6 == StepView::<FirmwareView>::Fail(ErrorView::no_firmware())
        }),
{
}

/// The firmware is the first that is there: the place that was looked at last is the one
/// that is measured and used, and the file for its variables is made as large as it, in the
/// directory given.
pub proof fn the_firmware_found_is_used(
    at: FirmwareSearch,
    place: Place,
    dir: Seq<char>,
    code: Seq<char>,
    before: FirmwareSearch,
    asked: Reply,
    size: u64,
)
    requires
        at == FirmwareSearch::Look(place),
        firmware_step(before, dir, asked) == (
            at,
            StepView::<FirmwareView>::Do(ActionView::Exists(code)),
        ),
    ensures
        ({
            let vars = under(dir, "kbuild-edk2-aarch64-vars.fd"@);
            let (a, s1) = firmware_step(at, dir, Reply::Is(true));
            let (b, s2) = firmware_step(a, dir, Reply::Size(size));
            let (c, s3) = firmware_step(b, dir, Reply::Done);
            let (d, s4) = firmware_step(c, dir, Reply::Done);
            &&& s1 == StepView::<FirmwareView>::Do(ActionView::FileSize(code))
            &&& s2 == StepView::<FirmwareView>::Do(ActionView::CreateFile(vars))
            &&& s3 == StepView::<FirmwareView>::Do(ActionView::Resize { path: vars, size })
            &&& s4 == StepView::Done(FirmwareView { code, vars })
        }),
{
    reveal_strlit("kbuild-edk2-aarch64-vars.fd");
    a_relative_path_goes_under_its_base(dir, "kbuild-edk2-aarch64-vars.fd"@);
}

/// How a VM is started: with the memory and processors asked for, the disk and, read-only,
/// the CD, the console on standard input and output, and no network; on the board, the
/// firmware and the processor that fit the machine, by the host's own processor where that
/// is of the same architecture, and by the QEMU for the machine unless another is asked for.
pub proof fn a_vm_fits_its_machine(
    args: KtestArgsView,
    machine: Seq<char>,
    overlay: Seq<char>,
    iso: Seq<char>,
    code: Seq<char>,
    vars: Seq<char>,
    host: Seq<char>,
)
    requires
        machine == "amd64"@ || machine == "arm64"@,
    ensures
        ({
            let firmware = if machine == "arm64"@ {
                Some(FirmwareView { code, vars })
            } else {
                None
            };
            let c = qemu_command_of(args, machine, overlay, iso, firmware, host);
            let devices = seq!["-m"@, args.memory, "-smp"@, args.smp] + seq![
                "-nographic"@,
                "-no-reboot"@,
                "-nic"@,
                "none"@,
            ] + seq!["-serial"@, "stdio"@, "-monitor"@, "none"@] + seq![
                "-drive"@,
                "if=none,id=hd0,file="@ + overlay + ",format=qcow2"@,
                "-device"@,
                "virtio-blk-pci,drive=hd0"@,
            ] + seq![
                "-device"@,
                "virtio-scsi-pci,id=scsi0"@,
                "-drive"@,
                "if=none,id=cd0,file="@ + iso + ",format=raw,readonly=on"@,
                "-device"@,
                "scsi-cd,bus=scsi0.0,drive=cd0"@,
            ];
            &&& args.qemu_bin matches Some(bin) ==> c.program == bin
            &&& c.envs.len() == 0
            &&& c.dir is None
            &&& machine == "arm64"@ ==> {
                &&& args.qemu_bin is None ==> c.program == "qemu-system-aarch64"@
                &&& c.args == devices + seq![
                    "-machine"@,
                    "virt,gic-version=max"@,
                    "-drive"@,
                    "if=pflash,format=raw,file="@ + code + ",readonly=on"@,
                    "-drive"@,
                    "if=pflash,format=raw,file="@ + vars,
                ] + (if host == "aarch64"@ {
                    seq!["-accel"@, "hvf"@, "-cpu"@, "host"@]
                } else {
                    seq!["-accel"@, "tcg"@, "-cpu"@, "max"@]
                })
            }
            &&& machine == "amd64"@ ==> {
                &&& args.qemu_bin is None ==> c.program == "qemu-system-x86_64"@
                &&& c.args == devices + seq!["-machine"@, "q35"@] + (if host == "x86_64"@ {
                    seq!["-accel"@, "hvf"@, "-cpu"@, "host"@]
                } else {
                    seq!["-accel"@, "tcg"@, "-cpu"@, "qemu64"@]
                })
            }
        }),
{
    reveal_strlit("amd64");
    reveal_strlit("arm64");
    assert("amd64"@[1] != "arm64"@[1]);
    reveal_strlit("qemu-system-");
    reveal_strlit("aarch64");
    reveal_strlit("x86_64");
    reveal_strlit("qemu-system-aarch64");
    reveal_strlit("qemu-system-x86_64");
    assert("qemu-system-"@ + "aarch64"@ =~= "qemu-system-aarch64"@);
    assert("qemu-system-"@ + "x86_64"@ =~= "qemu-system-x86_64"@);
    let devices = seq!["-m"@, args.memory, "-smp"@, args.smp] + seq![
        "-nographic"@,
        "-no-reboot"@,
        "-nic"@,
        "none"@,
    ] + seq!["-serial"@, "stdio"@, "-monitor"@, "none"@] + seq![
        "-drive"@,
        "if=none,id=hd0,file="@ + overlay + ",format=qcow2"@,
        "-device"@,
        "virtio-blk-pci,drive=hd0"@,
    ] + seq![
        "-device"@,
        "virtio-scsi-pci,id=scsi0"@,
        "-drive"@,
        "if=none,id=cd0,file="@ + iso + ",format=raw,readonly=on"@,
        "-device"@,
        "scsi-cd,bus=scsi0.0,drive=cd0"@,
    ];
    assert(crate::qemu::common_arguments(args.memory, args.smp, overlay, iso) =~= devices);
}

/// What a test does next once what it asked for went well, and that it goes on in no other
/// case.
pub proof fn a_test_goes_on_when_all_went_well(t: KtestView, reply: Reply)
    ensures
        ({
            let (after, step) = t.step(reply);
            &&& t.phase == TestPhase::CleanWork ==> step == StepView::<()>::Do(
                ActionView::CreateDirs(t.work_dir()),
            ) && after.phase == TestPhase::WorkDir
            &&& t.phase == TestPhase::WorkDir ==> if reply is Done {
                step == StepView::<()>::Do(
                    ActionView::Run(overlay_command_of(t.base, t.overlay())),
                ) && after.phase == TestPhase::Overlay
            } else {
                step is Fail
            }
            &&& t.phase == TestPhase::Overlay ==> if went_well(reply) {
                step == StepView::<()>::Do(ActionView::CreateDirs(t.iso_src())) && after.phase
                    == TestPhase::IsoDir
            } else {
                step is Fail
            }
            &&& t.phase == TestPhase::IsoDir ==> if reply is Done {
                step is Do && after.phase == TestPhase::IsoCopy
            } else {
                step is Fail
            }
            &&& t.phase == TestPhase::IsoCopy && reply !is Done ==> step is Fail
            &&& t.phase == TestPhase::CacheDir && reply !is Done ==> step is Fail
        }),
{
}

/// A test gets its image, in the cache directory and afresh where that is asked for, and
/// decompresses it, before it cleans up after earlier tests; it fails where one of these
/// does.
pub proof fn a_test_gets_its_image(t: KtestView, reply: Reply)
    ensures
        ({
            let (after, step) = t.step(reply);
            let get = fetch_step(t.fetch, t.image_url, t.cache_dir(), t.args.fresh, reply);
            let first = fetch_step(
                t.fetch,
                t.image_url,
                t.cache_dir(),
                t.args.fresh,
                Reply::Begin,
            );
            let unpack = unpack_step(t.unpack, t.xz_path, t.args.fresh, reply);
            &&& t.phase == TestPhase::CacheDir && reply is Done ==> after.fetch == first.0 && (
            first.1 matches StepView::Do(action) ==> step == StepView::<()>::Do(action)
                && after.phase == TestPhase::Download)
            &&& t.phase == TestPhase::CacheDir && reply is Done ==> (first.1 matches StepView::Fail(
                e,
            ) ==> step == StepView::<()>::Fail(e))
            &&& t.phase == TestPhase::Download ==> after.fetch == get.0 && match get.1 {
                StepView::Do(action) => step == StepView::<()>::Do(action) && after.phase
                    == TestPhase::Download,
                StepView::Fail(e) => step == StepView::<()>::Fail(e),
                StepView::Done(path) => after.xz_path == path && (t.unpack == Unpack::Start ==> step
                    == StepView::<()>::Do(ActionView::Exists(unpacked_path(path))) && after.phase
                    == TestPhase::Decompress),
            }
            &&& t.phase == TestPhase::Decompress ==> after.unpack == unpack.0 && match unpack.1 {
                StepView::Do(action) => step == StepView::<()>::Do(action) && after.phase
                    == TestPhase::Decompress,
                StepView::Fail(e) => step == StepView::<()>::Fail(e),
                StepView::Done(path) => after.base == path && step == StepView::<()>::Do(
                    ActionView::RemoveDir(t.work_dir()),
                ) && after.phase == TestPhase::CleanWork,
            }
        }),
{
}

/// The CD of a test is made of its own directory for that, once the module is in there.
pub proof fn a_test_makes_its_cd(t: KtestView, reply: Reply)
    ensures
        ({
            let (after, step) = t.step(reply);
            let (iso, wanted) = iso_step(t.iso, t.iso_src(), t.iso_path(), reply);
            &&& t.phase == TestPhase::IsoCopy && reply is Done && t.iso == IsoStage::Start ==> step
                == StepView::<()>::Do(ActionView::RemoveFile(t.iso_path())) && after.phase
                == TestPhase::Iso
            &&& t.phase == TestPhase::Iso ==> after.iso == iso
            &&& t.phase == TestPhase::Iso ==> (wanted matches StepView::Do(action) ==> step
                == StepView::<()>::Do(action) && after.phase == TestPhase::Iso)
            &&& t.phase == TestPhase::Iso ==> (wanted matches StepView::Fail(e) ==> step
                == StepView::<()>::Fail(e))
        }),
{
}

/// A test builds the module as it was asked to, goes on with the file that the build wrote,
/// and fails where the build does.
pub proof fn a_test_is_of_the_module_built(t: KtestView, reply: Reply)
    requires
        t.phase == TestPhase::Build,
    ensures
        ({
            let (after, step) = t.step(reply);
            let (build, wanted) = t.build.step(reply);
            &&& after.build == build
            &&& wanted matches StepView::Do(action) ==> step == StepView::<()>::Do(action)
                && after.phase == TestPhase::Build
            &&& wanted matches StepView::Fail(e) ==> step == StepView::<()>::Fail(e)
            &&& wanted matches StepView::Done(out) ==> step == StepView::<()>::Do(
                ActionView::Canonicalize(out),
            ) && after.phase == TestPhase::KoPath
        }),
{
}

/// The VM of a test starts once the CD is made: at once on `amd64`, and with the firmware
/// found on `arm64`, where none is found the test ends. Its console is logged to the test's
/// own file, and it is waited for as long as was asked for.
pub proof fn the_vm_starts_when_the_cd_is_made(t: KtestView, reply: Reply)
    requires
        t.args.build.machine == "amd64"@ || t.args.build.machine == "arm64"@,
        t.phase == TestPhase::Iso,
        t.iso is Make,
        went_well(reply),
    ensures
        ({
            let (after, step) = t.step(reply);
            &&& t.args.build.machine == "amd64"@ ==> {
                &&& after.phase == TestPhase::Boot
                &&& step == StepView::<()>::Do(ActionView::StartVm(t.vm_command(None)))
                &&& after.vm.log == t.log_path()
                &&& after.vm.session.step_timeout == t.args.step_timeout
            }
            &&& t.args.build.machine == "arm64"@ && t.search == FirmwareSearch::Start ==> {
                &&& after.phase == TestPhase::Firmware
                &&& step == StepView::<()>::Do(
                    ActionView::Exists("/opt/homebrew/share/qemu/edk2-aarch64-code.fd"@),
                )
            }
        }),
{
    reveal_strlit("amd64");
    reveal_strlit("arm64");
    assert("amd64"@[1] != "arm64"@[1]);
}

/// An `arm64` guest gets the firmware that was found, whose variables are kept in the
/// surroundings' directory for temporary files.
pub proof fn the_vm_gets_the_firmware_found(t: KtestView, reply: Reply)
    requires
        t.args.build.machine == "arm64"@,
        t.phase == TestPhase::Firmware,
    ensures
        ({
            let (after, step) = t.step(reply);
            let (search, found) = firmware_step(t.search, t.around.temp_dir, reply);
            &&& after.search == search
            &&& found matches StepView::Do(action) ==> step == StepView::<()>::Do(action)
                && after.phase == TestPhase::Firmware
            &&& found matches StepView::Done(firmware) ==> {
                &&& step == StepView::<()>::Do(ActionView::StartVm(t.vm_command(Some(firmware))))
                &&& after.phase == TestPhase::Boot
                &&& after.vm.log == t.log_path()
                &&& after.vm.session.step_timeout == t.args.step_timeout
            }
            &&& found matches StepView::Fail(e) ==> after.failure == Some(e)
        }),
{
}

/// How a test ended is said last: that the module passed, by its name and machine, or that
/// it failed and where the console's log is; and the error is the one that ended it.
pub proof fn a_test_says_how_it_ended(t: KtestView, reply: Reply)
    ensures
        ({
            let (after, step) = t.step(reply);
            let said = t.phase == TestPhase::DropIso || t.phase == TestPhase::Keep;
            &&& said && t.failure is None ==> step == StepView::<()>::Do(
                ActionView::Say(
                    "cargo-kbuild: ktest PASSED ("@ + t.module_name
                        + ".ko loads and unloads cleanly on --machine "@ + t.args.build.machine
                        + ")"@,
                ),
            )
            &&& said && t.failure is Some ==> step == StepView::<()>::Do(
                ActionView::Warn(
                    "cargo-kbuild: ktest FAILED; full console log: "@ + t.log_path(),
                ),
            )
            &&& said ==> after.phase == TestPhase::Report && after.failure == t.failure
            &&& t.phase == TestPhase::Report ==> step == (match t.failure {
                None => StepView::<()>::Done(()),
                Some(e) => StepView::Fail(e),
            })
        }),
{
}

/// A test that comes past its VM carries the VM's error, if there is one, to its end.
pub proof fn a_test_ends_as_its_vm_did(t: KtestView, reply: Reply)
    requires
        t.phase == TestPhase::Boot,
    ensures
        ({
            let (after, step) = t.step(reply);
            let (vm, ended) = t.vm.step(reply);
            &&& ended matches StepView::Do(action) ==> step == StepView::<()>::Do(action)
                && after.phase == TestPhase::Boot && after.vm == vm
            &&& ended matches StepView::Fail(e) ==> after.failure == Some(e)
            &&& ended is Done ==> after.failure is None
            &&& ended !is Do && t.args.keep ==> after.phase == TestPhase::Keep
            &&& ended !is Do && !t.args.keep ==> after.phase == TestPhase::DropOverlay
        }),
{
}

} // verus!
