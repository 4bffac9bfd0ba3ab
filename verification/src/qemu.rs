//! The VM: how QEMU is started, and the firmware that an `arm64` guest needs.

use crate::error::{quoted_path, quoted_path_text, Error, ErrorView};
use crate::host::{
    ack, ack_error, command, plain_command, Action, ActionView, Command, CommandView, Reply, Step,
    StepView,
};
use crate::ktest_args::{KtestArgs, KtestArgsView};
use crate::machine::is_supported;
use crate::path::{join, joined_path};
use crate::text::{cat2, cat3, push_text, same, texts};
use vstd::prelude::*;

verus! {

/// UEFI firmware for aarch64: the code, and the file that its variables live in.
#[derive(Debug)]
pub struct Firmware {
    pub code: String,
    pub vars: String,
}

/// The contents of a [`Firmware`].
pub ghost struct FirmwareView {
    pub code: Seq<char>,
    pub vars: Seq<char>,
}

impl View for Firmware {
    type V = FirmwareView;

    open spec fn view(&self) -> FirmwareView {
        FirmwareView { code: self.code@, vars: self.vars@ }
    }
}

/// A place where distributions put the firmware, in the order in which they are
/// looked at.
#[derive(Clone, Copy, Debug, PartialEq, Eq, Structural)]
pub enum Place {
    Homebrew,
    LocalQemu,
    Qemu,
    Edk2,
    Aavmf,
}

/// Where the code is.
pub open spec fn place_path(place: Place) -> Seq<char> {
    match place {
        Place::Homebrew => "/opt/homebrew/share/qemu/edk2-aarch64-code.fd"@,
        Place::LocalQemu => "/usr/local/share/qemu/edk2-aarch64-code.fd"@,
        Place::Qemu => "/usr/share/qemu/edk2-aarch64-code.fd"@,
        Place::Edk2 => "/usr/share/edk2/aarch64/QEMU_EFI.fd"@,
        Place::Aavmf => "/usr/share/AAVMF/AAVMF_CODE.fd"@,
    }
}

/// The place to look at after `place`.
pub open spec fn next_place(place: Place) -> Option<Place> {
    match place {
        Place::Homebrew => Some(Place::LocalQemu),
        Place::LocalQemu => Some(Place::Qemu),
        Place::Qemu => Some(Place::Edk2),
        Place::Edk2 => Some(Place::Aavmf),
        Place::Aavmf => None,
    }
}

/// How far [`aarch64_firmware`] has come.
#[derive(Clone, Copy, Debug, PartialEq, Eq, Structural)]
pub enum FirmwareSearch {
    Start,
    /// It asked whether the code is in a place.
    Look(Place),
    /// It asked how large it is.
    Measure(Place),
    /// It had the file for the variables created.
    Create(Place, u64),
    /// It had that file made as large as the code.
    Fill(Place),
}

/// The file that the firmware's variables live in.
pub open spec fn vars_path(work_dir: Seq<char>) -> Seq<char> {
    joined_path(work_dir, "kbuild-edk2-aarch64-vars.fd"@)
}

/// How [`aarch64_firmware`] goes on from `at`.
pub open spec fn firmware_step(at: FirmwareSearch, work_dir: Seq<char>, reply: Reply) -> (
    FirmwareSearch,
    StepView<FirmwareView>,
) {
    let vars = vars_path(work_dir);
    match at {
        FirmwareSearch::Start => (
            FirmwareSearch::Look(Place::Homebrew),
            StepView::Do(ActionView::Exists(place_path(Place::Homebrew))),
        ),
        FirmwareSearch::Look(place) => match reply {
            Reply::Is(true) => (
                FirmwareSearch::Measure(place),
                StepView::Do(ActionView::FileSize(place_path(place))),
            ),
            Reply::Is(false) => match next_place(place) {
                Some(next) => (
                    FirmwareSearch::Look(next),
                    StepView::Do(ActionView::Exists(place_path(next))),
                ),
                None => (at, StepView::Fail(ErrorView::no_firmware())),
            },
            _ => (at, StepView::Fail(ErrorView::unexpected_reply())),
        },
        FirmwareSearch::Measure(place) => match reply {
            Reply::Size(size) => (
                FirmwareSearch::Create(place, size),
                StepView::Do(ActionView::CreateFile(vars)),
            ),
            Reply::Failed(cause) => (at, StepView::Fail(ErrorView::refused(cause@))),
            _ => (at, StepView::Fail(ErrorView::unexpected_reply())),
        },
        FirmwareSearch::Create(place, size) => match ack_error(
            reply,
            "creating "@ + quoted_path_text(vars),
        ) {
            Some(e) => (at, StepView::Fail(e)),
            None => (
                FirmwareSearch::Fill(place),
                StepView::Do(ActionView::Resize { path: vars, size }),
            ),
        },
        FirmwareSearch::Fill(place) => match ack_error(reply, "sizing UEFI vars pflash"@) {
            Some(e) => (at, StepView::Fail(e)),
            None => (at, StepView::Done(FirmwareView { code: place_path(place), vars })),
        },
    }
}

/// Where the code is.
fn place_file(place: Place) -> (r: &'static str)
    ensures
        r@ == place_path(place),
{
    match place {
        Place::Homebrew => "/opt/homebrew/share/qemu/edk2-aarch64-code.fd",
        Place::LocalQemu => "/usr/local/share/qemu/edk2-aarch64-code.fd",
        Place::Qemu => "/usr/share/qemu/edk2-aarch64-code.fd",
        Place::Edk2 => "/usr/share/edk2/aarch64/QEMU_EFI.fd",
        Place::Aavmf => "/usr/share/AAVMF/AAVMF_CODE.fd",
    }
}

/// The place to look at after `place`.
fn place_after(place: Place) -> (r: Option<Place>)
    ensures
        r == next_place(place),
{
    match place {
        Place::Homebrew => Some(Place::LocalQemu),
        Place::LocalQemu => Some(Place::Qemu),
        Place::Qemu => Some(Place::Edk2),
        Place::Edk2 => Some(Place::Aavmf),
        Place::Aavmf => None,
    }
}

/// Finds the firmware that QEMU was installed with, and makes an empty file as large
/// as its code for its variables, in `work_dir`. Resumable.
pub fn aarch64_firmware(at: &mut FirmwareSearch, work_dir: &str, reply: &Reply) -> (r: Step<
    Firmware,
>)
    ensures
        (*final(at), r@) == firmware_step(*old(at), work_dir@, *reply),
{
    let vars = join(work_dir, "kbuild-edk2-aarch64-vars.fd");
    match *at {
        FirmwareSearch::Start => {
            *at = FirmwareSearch::Look(Place::Homebrew);
            Step::Do(Action::Exists(place_file(Place::Homebrew).to_owned()))
        },
        FirmwareSearch::Look(place) => match reply {
            Reply::Is(true) => {
                *at = FirmwareSearch::Measure(place);
                Step::Do(Action::FileSize(place_file(place).to_owned()))
            },
            Reply::Is(false) => match place_after(place) {
                Some(next) => {
                    *at = FirmwareSearch::Look(next);
                    Step::Do(Action::Exists(place_file(next).to_owned()))
                },
                None => Step::Fail(Error::no_firmware()),
            },
            _ => Step::Fail(Error::unexpected_reply()),
        },
        FirmwareSearch::Measure(place) => match reply {
            Reply::Size(size) => {
                *at = FirmwareSearch::Create(place, *size);
                Step::Do(Action::CreateFile(vars))
            },
            Reply::Failed(cause) => Step::Fail(Error::refused(cause.as_str())),
            _ => Step::Fail(Error::unexpected_reply()),
        },
        FirmwareSearch::Create(place, size) => match ack(
            reply,
            cat2("creating ", quoted_path(vars.as_str()).as_str()).as_str(),
        ) {
            Err(e) => Step::Fail(e),
            Ok(_) => {
                *at = FirmwareSearch::Fill(place);
                Step::Do(Action::Resize { path: vars, size })
            },
        },
        FirmwareSearch::Fill(place) => match ack(reply, "sizing UEFI vars pflash") {
            Err(e) => Step::Fail(e),
            Ok(_) => Step::Done(Firmware { code: place_file(place).to_owned(), vars }),
        },
    }
}

/// QEMU's name for the machine that it emulates a `MACHINE` with, which is also the
/// host's name for its own architecture where the two are the same.
pub open spec fn qemu_arch_of(machine: Seq<char>) -> Seq<char> {
    if machine == "arm64"@ {
        "aarch64"@
    } else {
        "x86_64"@
    }
}

/// The arguments that do not depend on the machine. There is no network: the module
/// comes on the CD, and waiting for an address can take minutes.
pub open spec fn common_arguments(
    memory: Seq<char>,
    smp: Seq<char>,
    overlay: Seq<char>,
    iso: Seq<char>,
) -> Seq<Seq<char>> {
    seq![
        "-m"@,
        memory,
        "-smp"@,
        smp,
        "-nographic"@,
        "-no-reboot"@,
        "-nic"@,
        "none"@,
        "-serial"@,
        "stdio"@,
        "-monitor"@,
        "none"@,
        "-drive"@,
        "if=none,id=hd0,file="@ + overlay + ",format=qcow2"@,
        "-device"@,
        "virtio-blk-pci,drive=hd0"@,
        "-device"@,
        "virtio-scsi-pci,id=scsi0"@,
        "-drive"@,
        "if=none,id=cd0,file="@ + iso + ",format=raw,readonly=on"@,
        "-device"@,
        "scsi-cd,bus=scsi0.0,drive=cd0"@,
    ]
}

/// The arguments that choose the board.
pub open spec fn board_arguments(machine: Seq<char>, firmware: Option<FirmwareView>) -> Seq<
    Seq<char>,
> {
    match firmware {
        Some(f) => if machine == "arm64"@ {
            seq![
                "-machine"@,
                "virt,gic-version=max"@,
                "-drive"@,
                "if=pflash,format=raw,file="@ + f.code + ",readonly=on"@,
                "-drive"@,
                "if=pflash,format=raw,file="@ + f.vars,
            ]
        } else {
            seq!["-machine"@, "q35"@]
        },
        None => seq!["-machine"@, "q35"@],
    }
}

/// The arguments that choose how the guest's instructions are run: on the host's own
/// processor where it is of the same architecture, emulated where it is not.
pub open spec fn cpu_arguments(machine: Seq<char>, native: bool) -> Seq<Seq<char>> {
    if native {
        seq!["-accel"@, "hvf"@, "-cpu"@, "host"@]
    } else if machine == "arm64"@ {
        seq!["-accel"@, "tcg"@, "-cpu"@, "max"@]
    } else {
        seq!["-accel"@, "tcg"@, "-cpu"@, "qemu64"@]
    }
}

/// Starts a VM for a machine that modules can be built for.
pub open spec fn qemu_command_of(
    args: KtestArgsView,
    machine: Seq<char>,
    overlay: Seq<char>,
    iso: Seq<char>,
    firmware: Option<FirmwareView>,
    host_arch: Seq<char>,
) -> CommandView {
    plain_command(
        match args.qemu_bin {
            Some(bin) => bin,
            None => "qemu-system-"@ + qemu_arch_of(machine),
        },
        common_arguments(args.memory, args.smp, overlay, iso) + board_arguments(
            machine,
            firmware,
        ) + cpu_arguments(machine, host_arch == qemu_arch_of(machine)),
    )
}

/// The contents of a search for firmware, or of none.
pub open spec fn opt_firmware(f: Option<Firmware>) -> Option<FirmwareView> {
    match f {
        Some(f) => Some(f@),
        None => None,
    }
}

/// Starts a VM with the disk `overlay` and the CD `iso` on a host of the architecture
/// `host_arch`. An `arm64` guest needs its firmware.
pub fn qemu_command(
    args: &KtestArgs,
    machine: &str,
    overlay: &str,
    iso: &str,
    firmware: &Option<Firmware>,
    host_arch: &str,
) -> (r: Result<Command, Error>)
    requires
        machine@ == "arm64"@ ==> firmware is Some,
    ensures
        match r {
            Ok(c) => is_supported(machine@) && c@ == qemu_command_of(
                args@,
                machine@,
                overlay@,
                iso@,
                opt_firmware(*firmware),
                host_arch@,
            ),
            Err(e) => !is_supported(machine@) && e@ == ErrorView::unsupported_vm(machine@),
        },
{
    let arch = if same(machine, "arm64") {
        "aarch64"
    } else if same(machine, "amd64") {
        "x86_64"
    } else {
        return Err(Error::unsupported_vm(machine));
    };
    let binary = match &args.qemu_bin {
        Some(bin) => bin.clone(),
        None => cat2("qemu-system-", arch),
    };
    let native: bool = same(host_arch, arch);
    let mut list: Vec<String> = Vec::new();
    assert(texts(list@) =~= Seq::<Seq<char>>::empty());
    push_text(&mut list, "-m");
    push_text(&mut list, args.memory.as_str());
    push_text(&mut list, "-smp");
    push_text(&mut list, args.smp.as_str());
    push_text(&mut list, "-nographic");
    push_text(&mut list, "-no-reboot");
    push_text(&mut list, "-nic");
    push_text(&mut list, "none");
    push_text(&mut list, "-serial");
    push_text(&mut list, "stdio");
    push_text(&mut list, "-monitor");
    push_text(&mut list, "none");
    push_text(&mut list, "-drive");
    push_text(&mut list, cat3("if=none,id=hd0,file=", overlay, ",format=qcow2").as_str());
    push_text(&mut list, "-device");
    push_text(&mut list, "virtio-blk-pci,drive=hd0");
    push_text(&mut list, "-device");
    push_text(&mut list, "virtio-scsi-pci,id=scsi0");
    push_text(&mut list, "-drive");
    push_text(&mut list, cat3("if=none,id=cd0,file=", iso, ",format=raw,readonly=on").as_str());
    push_text(&mut list, "-device");
    push_text(&mut list, "scsi-cd,bus=scsi0.0,drive=cd0");
    let ghost common = common_arguments(args.memory@, args.smp@, overlay@, iso@);
    assert(texts(list@) =~= common);
    push_text(&mut list, "-machine");
    match (same(machine, "arm64"), firmware) {
        (true, Some(f)) => {
            push_text(&mut list, "virt,gic-version=max");
            push_text(&mut list, "-drive");
            push_text(
                &mut list,
                cat3("if=pflash,format=raw,file=", f.code.as_str(), ",readonly=on").as_str(),
            );
            push_text(&mut list, "-drive");
            push_text(&mut list, cat2("if=pflash,format=raw,file=", f.vars.as_str()).as_str());
        },
        _ => {
            push_text(&mut list, "q35");
        },
    }
    let ghost board = board_arguments(machine@, opt_firmware(*firmware));
    assert(texts(list@) =~= common + board);
    push_text(&mut list, "-accel");
    if native {
        push_text(&mut list, "hvf");
        push_text(&mut list, "-cpu");
        push_text(&mut list, "host");
    } else {
        push_text(&mut list, "tcg");
        push_text(&mut list, "-cpu");
        push_text(&mut list, if same(machine, "arm64") { "max" } else { "qemu64" });
    }
    assert(texts(list@) =~= common + board + cpu_arguments(machine@, native));
    Ok(command(binary.as_str(), list))
}

} // verus!
