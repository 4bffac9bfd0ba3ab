//! What can go wrong, and what is said about it.

use crate::text::{cat2, cat3, cat4, cat5, push_text, push_texts, texts};
use vstd::prelude::*;

verus! {

/// `s` as a Rust string literal, quotes and escapes included: what `{:?}`
/// prints for it.
pub uninterp spec fn quoted_text(s: Seq<char>) -> Seq<char>;

/// The `Debug` output of the standard library's `str`. The result is named; its
/// escapes are not stated.
#[verifier::external_body]
pub(crate) fn quoted(s: &str) -> (r: String)
    ensures
        r@ == quoted_text(s@),
{
    format!("{:?}", s)
}

/// The path `p` in quotes and with escapes: what `{:?}` prints for it. The escapes of
/// paths and of other strings differ.
pub uninterp spec fn quoted_path_text(p: Seq<char>) -> Seq<char>;

/// The `Debug` output of the standard library's `Path`. The result is named; its
/// escapes are not stated.
#[verifier::external_body]
pub(crate) fn quoted_path(p: &str) -> (r: String)
    ensures
        r@ == quoted_path_text(p@),
{
    format!("{:?}", std::path::Path::new(p))
}

/// The sort of an error.
#[derive(Clone, Copy, Debug, PartialEq, Eq, Structural)]
pub enum ErrorKind {
    /// The file system, the network or a child process refused something.
    Io,
    /// A `--machine` that is neither `amd64` nor `arm64`.
    UnsupportedMachine,
    /// An LLVM tool that the Rust toolchain does not hold.
    ToolMissing,
    /// The tool's own directory lies in no workspace.
    NoGrandparent,
    /// There is no target specification for the machine.
    TargetSpecMissing,
    /// Neither the directory nor its `sys/` holds `conf/kmod.mk`.
    NotASourceTree,
    /// A manifest that names neither a package nor a library.
    NoCrateName,
    /// A program's output that is not UTF-8.
    NotUtf8,
    /// `rustc -vV` printed no `host:` line.
    NoHostTriple,
    /// A program that ended without success.
    Exited,
    /// A flag at the end of the command line that lacks its value.
    NeedsValue,
    /// An argument that is no flag of the subcommand.
    Unrecognized,
    /// A command line without `--sysdir`.
    SysdirRequired,
    /// A `--timeout` that is not a number of seconds.
    TimeoutNotANumber,
    /// Cargo succeeded without leaving the static library behind.
    NoStaticlib,
    /// A static library without a single object.
    NoObjects,
    /// The symbol script failed.
    AwkFailed,
    /// The path of the built module ends in no name.
    NoFileName,
    /// The built module is not called `*.ko`.
    NotAKo,
    /// The address of the VM image ends in no file name.
    NoPathComponent,
    /// The VM image could not be decompressed.
    XzFailed,
    /// No program that builds ISO images is installed.
    NoIsoTool,
    /// QEMU's UEFI firmware for aarch64 is not installed.
    NoFirmware,
    /// The console did not show what was waited for in time.
    TimedOut,
    /// QEMU's console closed before it showed what was waited for.
    Closed,
    /// The guest's kernel panicked.
    KernelPanic,
    /// A reply of a kind that the last action cannot have.
    UnexpectedReply,
}

/// An error: its sort, what is said about it, and what caused it, the nearest cause
/// first.
#[derive(Debug)]
pub struct Error {
    pub kind: ErrorKind,
    pub message: String,
    pub causes: Vec<String>,
}

/// The contents of an [`Error`].
pub ghost struct ErrorView {
    pub kind: ErrorKind,
    pub message: Seq<char>,
    pub causes: Seq<Seq<char>>,
}

impl View for Error {
    type V = ErrorView;

    open spec fn view(&self) -> ErrorView {
        ErrorView { kind: self.kind, message: self.message@, causes: texts(self.causes@) }
    }
}

impl ErrorView {
    /// Something refused `doing`, for the reason `cause`.
    pub open spec fn failed(doing: Seq<char>, cause: Seq<char>) -> ErrorView {
        ErrorView { kind: ErrorKind::Io, message: doing, causes: seq![cause] }
    }

    /// Something was refused for the reason `cause`.
    pub open spec fn refused(cause: Seq<char>) -> ErrorView {
        ErrorView { kind: ErrorKind::Io, message: cause, causes: Seq::empty() }
    }

    /// The error with a pointer to the console log in front; all that it said before is
    /// kept below.
    pub open spec fn logged(self, log: Seq<char>) -> ErrorView {
        ErrorView {
            kind: self.kind,
            message: "see full console log at "@ + log,
            causes: seq![self.message] + self.causes,
        }
    }

    /// A `--machine` that is neither `amd64` nor `arm64`.
    pub open spec fn unsupported_machine(machine: Seq<char>) -> ErrorView {
        ErrorView {
            kind: ErrorKind::UnsupportedMachine,
            message: "unsupported --machine "@ + machine + " (supported: amd64, arm64)"@,
            causes: Seq::empty(),
        }
    }

    /// A `--machine` that no VM can be booted for.
    pub open spec fn unsupported_vm(machine: Seq<char>) -> ErrorView {
        ErrorView {
            kind: ErrorKind::UnsupportedMachine,
            message: "unsupported --machine "@ + machine + " for ktest"@,
            causes: Seq::empty(),
        }
    }

    /// An LLVM tool that the Rust toolchain does not hold.
    pub open spec fn tool_missing(name: Seq<char>, path: Seq<char>) -> ErrorView {
        ErrorView {
            kind: ErrorKind::ToolMissing,
            message: name + " not found at "@ + quoted_path_text(path) + "; install it with `rustup component add llvm-tools`"@,
            causes: Seq::empty(),
        }
    }

    /// The tool's own directory lies in no workspace.
    pub open spec fn no_grandparent() -> ErrorView {
        ErrorView {
            kind: ErrorKind::NoGrandparent,
            message: "CARGO_MANIFEST_DIR has no grandparent"@,
            causes: Seq::empty(),
        }
    }

    /// There is no target specification for the machine.
    pub open spec fn target_spec_missing(path: Seq<char>) -> ErrorView {
        ErrorView {
            kind: ErrorKind::TargetSpecMissing,
            message: "target spec "@ + quoted_path_text(path) + " not found"@,
            causes: Seq::empty(),
        }
    }

    /// Neither the directory nor its `sys/` holds `conf/kmod.mk`.
    pub open spec fn not_a_source_tree(path: Seq<char>) -> ErrorView {
        ErrorView {
            kind: ErrorKind::NotASourceTree,
            message: quoted_path_text(path) + " doesn't look like a FreeBSD source tree: expected conf/kmod.mk under it (or under a sys/ subdirectory)"@,
            causes: Seq::empty(),
        }
    }

    /// A manifest that names neither a package nor a library.
    pub open spec fn no_crate_name(path: Seq<char>) -> ErrorView {
        ErrorView {
            kind: ErrorKind::NoCrateName,
            message: "no [package].name or [lib].name in "@ + quoted_path_text(path),
            causes: Seq::empty(),
        }
    }

    /// A program's output that is not UTF-8.
    pub open spec fn not_utf8(what: Seq<char>, cause: Seq<char>) -> ErrorView {
        ErrorView { kind: ErrorKind::NotUtf8, message: what, causes: seq![cause] }
    }

    /// `rustc -vV` printed no `host:` line.
    pub open spec fn no_host_triple() -> ErrorView {
        ErrorView {
            kind: ErrorKind::NoHostTriple,
            message: "`rustc -vV` did not report a host triple"@,
            causes: Seq::empty(),
        }
    }

    /// A program that ended without success.
    pub open spec fn exited(program: Seq<char>, status: Seq<char>) -> ErrorView {
        ErrorView {
            kind: ErrorKind::Exited,
            message: quoted_path_text(program) + " exited with "@ + status,
            causes: Seq::empty(),
        }
    }

    /// A flag at the end of the command line that lacks its value.
    pub open spec fn needs_value(flag: Seq<char>) -> ErrorView {
        ErrorView {
            kind: ErrorKind::NeedsValue,
            message: flag + " needs a value"@,
            causes: Seq::empty(),
        }
    }

    /// An argument that is no flag of the subcommand.
    pub open spec fn unrecognized(argument: Seq<char>) -> ErrorView {
        ErrorView {
            kind: ErrorKind::Unrecognized,
            message: "unrecognized argument: "@ + argument + " (see --help)"@,
            causes: Seq::empty(),
        }
    }

    /// A command line without `--sysdir`.
    pub open spec fn sysdir_required() -> ErrorView {
        ErrorView {
            kind: ErrorKind::SysdirRequired,
            message: "--sysdir <path> is required: point it at a FreeBSD source tree (its root or its sys/ subdirectory)"@,
            causes: Seq::empty(),
        }
    }

    /// A `--timeout` that is not a number of seconds.
    pub open spec fn timeout_not_a_number(cause: Seq<char>) -> ErrorView {
        ErrorView {
            kind: ErrorKind::TimeoutNotANumber,
            message: "--timeout must be a number of seconds"@,
            causes: seq![cause],
        }
    }

    /// Cargo succeeded without leaving the static library behind.
    pub open spec fn no_staticlib(path: Seq<char>) -> ErrorView {
        ErrorView {
            kind: ErrorKind::NoStaticlib,
            message: "expected staticlib at "@ + quoted_path_text(path) + " was not produced"@,
            causes: Seq::empty(),
        }
    }

    /// A static library without a single object.
    pub open spec fn no_objects(path: Seq<char>) -> ErrorView {
        ErrorView {
            kind: ErrorKind::NoObjects,
            message: "no .o members extracted from "@ + quoted_path_text(path),
            causes: Seq::empty(),
        }
    }

    /// The symbol script failed.
    pub open spec fn awk_failed(script: Seq<char>, stderr: Seq<char>) -> ErrorView {
        ErrorView {
            kind: ErrorKind::AwkFailed,
            message: quoted_path_text(script) + " failed: "@ + stderr,
            causes: Seq::empty(),
        }
    }

    /// The path of the built module ends in no name.
    pub open spec fn no_file_name() -> ErrorView {
        ErrorView {
            kind: ErrorKind::NoFileName,
            message: "built .ko has no file name"@,
            causes: Seq::empty(),
        }
    }

    /// The built module is not called `*.ko`.
    pub open spec fn not_a_ko() -> ErrorView {
        ErrorView {
            kind: ErrorKind::NotAKo,
            message: "built artifact doesn't end in .ko"@,
            causes: Seq::empty(),
        }
    }

    /// The address of the VM image ends in no file name.
    pub open spec fn no_path_component() -> ErrorView {
        ErrorView {
            kind: ErrorKind::NoPathComponent,
            message: "--image-url has no path component"@,
            causes: Seq::empty(),
        }
    }

    /// The VM image could not be decompressed.
    pub open spec fn xz_failed(path: Seq<char>, status: Seq<char>) -> ErrorView {
        ErrorView {
            kind: ErrorKind::XzFailed,
            message: "`xz -dc "@ + quoted_path_text(path) + "` exited with "@ + status,
            causes: Seq::empty(),
        }
    }

    /// No program that builds ISO images is installed.
    pub open spec fn no_iso_tool() -> ErrorView {
        ErrorView {
            kind: ErrorKind::NoIsoTool,
            message: "no ISO-building tool found (need one of: xorriso, mkisofs, hdiutil)"@,
            causes: Seq::empty(),
        }
    }

    /// QEMU's UEFI firmware for aarch64 is not installed.
    pub open spec fn no_firmware() -> ErrorView {
        ErrorView {
            kind: ErrorKind::NoFirmware,
            message: "no aarch64 UEFI firmware found; install qemu's edk2-aarch64 firmware or pass --qemu with a wrapper that supplies -drive if=pflash yourself"@,
            causes: Seq::empty(),
        }
    }

    /// The console did not show what was waited for in time.
    pub open spec fn timed_out(time: Seq<char>, what: Seq<char>, output: Seq<char>) -> ErrorView {
        ErrorView {
            kind: ErrorKind::TimedOut,
            message: "timed out after "@ + time + " waiting for "@ + what + "; last output:\n"@ + output,
            causes: Seq::empty(),
        }
    }

    /// QEMU's console closed before it showed what was waited for.
    pub open spec fn closed(what: Seq<char>, output: Seq<char>) -> ErrorView {
        ErrorView {
            kind: ErrorKind::Closed,
            message: "qemu's console closed while waiting for "@ + what + "; last output:\n"@ + output,
            causes: Seq::empty(),
        }
    }

    /// The guest's kernel panicked.
    pub open spec fn kernel_panic(log: Seq<char>, output: Seq<char>) -> ErrorView {
        ErrorView {
            kind: ErrorKind::KernelPanic,
            message: "kernel panic detected in console output (see "@ + log + "):\n"@ + output,
            causes: Seq::empty(),
        }
    }

    /// A reply of a kind that the last action cannot have.
    pub open spec fn unexpected_reply() -> ErrorView {
        ErrorView {
            kind: ErrorKind::UnexpectedReply,
            message: "unexpected reply to the last action"@,
            causes: Seq::empty(),
        }
    }
}

/// No cause.
fn no_causes() -> (r: Vec<String>)
    ensures
        texts(r@) == Seq::<Seq<char>>::empty(),
{
    Vec::new()
}

/// One cause.
fn one_cause(cause: &str) -> (r: Vec<String>)
    ensures
        texts(r@) == seq![cause@],
{
    let mut causes: Vec<String> = Vec::new();
    push_text(&mut causes, cause);
    causes
}

impl Error {
    /// Something refused `doing`, for the reason `cause`.
    pub fn failed(doing: &str, cause: &str) -> (r: Error)
        ensures
            r@ == ErrorView::failed(doing@, cause@),
    {
        Error { kind: ErrorKind::Io, message: doing.to_owned(), causes: one_cause(cause) }
    }

    /// Something was refused for the reason `cause`.
    pub fn refused(cause: &str) -> (r: Error)
        ensures
            r@ == ErrorView::refused(cause@),
    {
        Error { kind: ErrorKind::Io, message: cause.to_owned(), causes: no_causes() }
    }

    /// The error with a pointer to the console log in front.
    pub fn logged(&self, log: &str) -> (r: Error)
        ensures
            r@ == self@.logged(log@),
    {
        let mut causes = one_cause(self.message.as_str());
        push_texts(&mut causes, &self.causes, 0);
        assert(texts(self.causes@).skip(0) =~= texts(self.causes@));
        Error { kind: self.kind, message: cat2("see full console log at ", log), causes }
    }

    /// A `--machine` that is neither `amd64` nor `arm64`.
    pub fn unsupported_machine(machine: &str) -> (r: Error)
        ensures
            r@ == ErrorView::unsupported_machine(machine@),
    {
        Error {
            kind: ErrorKind::UnsupportedMachine,
            message: cat3("unsupported --machine ", machine, " (supported: amd64, arm64)"),
            causes: no_causes(),
        }
    }

    /// A `--machine` that no VM can be booted for.
    pub fn unsupported_vm(machine: &str) -> (r: Error)
        ensures
            r@ == ErrorView::unsupported_vm(machine@),
    {
        Error {
            kind: ErrorKind::UnsupportedMachine,
            message: cat3("unsupported --machine ", machine, " for ktest"),
            causes: no_causes(),
        }
    }

    /// An LLVM tool that the Rust toolchain does not hold.
    pub fn tool_missing(name: &str, path: &str) -> (r: Error)
        ensures
            r@ == ErrorView::tool_missing(name@, path@),
    {
        Error {
            kind: ErrorKind::ToolMissing,
            message: cat4(name, " not found at ", quoted_path(path).as_str(), "; install it with `rustup component add llvm-tools`"),
            causes: no_causes(),
        }
    }

    /// The tool's own directory lies in no workspace.
    pub fn no_grandparent() -> (r: Error)
        ensures
            r@ == ErrorView::no_grandparent(),
    {
        Error {
            kind: ErrorKind::NoGrandparent,
            message: "CARGO_MANIFEST_DIR has no grandparent".to_owned(),
            causes: no_causes(),
        }
    }

    /// There is no target specification for the machine.
    pub fn target_spec_missing(path: &str) -> (r: Error)
        ensures
            r@ == ErrorView::target_spec_missing(path@),
    {
        Error {
            kind: ErrorKind::TargetSpecMissing,
            message: cat3("target spec ", quoted_path(path).as_str(), " not found"),
            causes: no_causes(),
        }
    }

    /// Neither the directory nor its `sys/` holds `conf/kmod.mk`.
    pub fn not_a_source_tree(path: &str) -> (r: Error)
        ensures
            r@ == ErrorView::not_a_source_tree(path@),
    {
        Error {
            kind: ErrorKind::NotASourceTree,
            message: cat2(quoted_path(path).as_str(), " doesn't look like a FreeBSD source tree: expected conf/kmod.mk under it (or under a sys/ subdirectory)"),
            causes: no_causes(),
        }
    }

    /// A manifest that names neither a package nor a library.
    pub fn no_crate_name(path: &str) -> (r: Error)
        ensures
            r@ == ErrorView::no_crate_name(path@),
    {
        Error {
            kind: ErrorKind::NoCrateName,
            message: cat2("no [package].name or [lib].name in ", quoted_path(path).as_str()),
            causes: no_causes(),
        }
    }

    /// A program's output that is not UTF-8.
    pub fn not_utf8(what: &str, cause: &str) -> (r: Error)
        ensures
            r@ == ErrorView::not_utf8(what@, cause@),
    {
        Error {
            kind: ErrorKind::NotUtf8,
            message: what.to_owned(),
            causes: one_cause(cause),
        }
    }

    /// `rustc -vV` printed no `host:` line.
    pub fn no_host_triple() -> (r: Error)
        ensures
            r@ == ErrorView::no_host_triple(),
    {
        Error {
            kind: ErrorKind::NoHostTriple,
            message: "`rustc -vV` did not report a host triple".to_owned(),
            causes: no_causes(),
        }
    }

    /// A program that ended without success.
    pub fn exited(program: &str, status: &str) -> (r: Error)
        ensures
            r@ == ErrorView::exited(program@, status@),
    {
        Error {
            kind: ErrorKind::Exited,
            message: cat3(quoted_path(program).as_str(), " exited with ", status),
            causes: no_causes(),
        }
    }

    /// A flag at the end of the command line that lacks its value.
    pub fn needs_value(flag: &str) -> (r: Error)
        ensures
            r@ == ErrorView::needs_value(flag@),
    {
        Error {
            kind: ErrorKind::NeedsValue,
            message: cat2(flag, " needs a value"),
            causes: no_causes(),
        }
    }

    /// An argument that is no flag of the subcommand.
    pub fn unrecognized(argument: &str) -> (r: Error)
        ensures
            r@ == ErrorView::unrecognized(argument@),
    {
        Error {
            kind: ErrorKind::Unrecognized,
            message: cat3("unrecognized argument: ", argument, " (see --help)"),
            causes: no_causes(),
        }
    }

    /// A command line without `--sysdir`.
    pub fn sysdir_required() -> (r: Error)
        ensures
            r@ == ErrorView::sysdir_required(),
    {
        Error {
            kind: ErrorKind::SysdirRequired,
            message: "--sysdir <path> is required: point it at a FreeBSD source tree (its root or its sys/ subdirectory)".to_owned(),
            causes: no_causes(),
        }
    }

    /// A `--timeout` that is not a number of seconds.
    pub fn timeout_not_a_number(cause: &str) -> (r: Error)
        ensures
            r@ == ErrorView::timeout_not_a_number(cause@),
    {
        Error {
            kind: ErrorKind::TimeoutNotANumber,
            message: "--timeout must be a number of seconds".to_owned(),
            causes: one_cause(cause),
        }
    }

    /// Cargo succeeded without leaving the static library behind.
    pub fn no_staticlib(path: &str) -> (r: Error)
        ensures
            r@ == ErrorView::no_staticlib(path@),
    {
        Error {
            kind: ErrorKind::NoStaticlib,
            message: cat3("expected staticlib at ", quoted_path(path).as_str(), " was not produced"),
            causes: no_causes(),
        }
    }

    /// A static library without a single object.
    pub fn no_objects(path: &str) -> (r: Error)
        ensures
            r@ == ErrorView::no_objects(path@),
    {
        Error {
            kind: ErrorKind::NoObjects,
            message: cat2("no .o members extracted from ", quoted_path(path).as_str()),
            causes: no_causes(),
        }
    }

    /// The symbol script failed.
    pub fn awk_failed(script: &str, stderr: &str) -> (r: Error)
        ensures
            r@ == ErrorView::awk_failed(script@, stderr@),
    {
        Error {
            kind: ErrorKind::AwkFailed,
            message: cat3(quoted_path(script).as_str(), " failed: ", stderr),
            causes: no_causes(),
        }
    }

    /// The path of the built module ends in no name.
    pub fn no_file_name() -> (r: Error)
        ensures
            r@ == ErrorView::no_file_name(),
    {
        Error {
            kind: ErrorKind::NoFileName,
            message: "built .ko has no file name".to_owned(),
            causes: no_causes(),
        }
    }

    /// The built module is not called `*.ko`.
    pub fn not_a_ko() -> (r: Error)
        ensures
            r@ == ErrorView::not_a_ko(),
    {
        Error {
            kind: ErrorKind::NotAKo,
            message: "built artifact doesn't end in .ko".to_owned(),
            causes: no_causes(),
        }
    }

    /// The address of the VM image ends in no file name.
    pub fn no_path_component() -> (r: Error)
        ensures
            r@ == ErrorView::no_path_component(),
    {
        Error {
            kind: ErrorKind::NoPathComponent,
            message: "--image-url has no path component".to_owned(),
            causes: no_causes(),
        }
    }

    /// The VM image could not be decompressed.
    pub fn xz_failed(path: &str, status: &str) -> (r: Error)
        ensures
            r@ == ErrorView::xz_failed(path@, status@),
    {
        Error {
            kind: ErrorKind::XzFailed,
            message: cat4("`xz -dc ", quoted_path(path).as_str(), "` exited with ", status),
            causes: no_causes(),
        }
    }

    /// No program that builds ISO images is installed.
    pub fn no_iso_tool() -> (r: Error)
        ensures
            r@ == ErrorView::no_iso_tool(),
    {
        Error {
            kind: ErrorKind::NoIsoTool,
            message: "no ISO-building tool found (need one of: xorriso, mkisofs, hdiutil)".to_owned(),
            causes: no_causes(),
        }
    }

    /// QEMU's UEFI firmware for aarch64 is not installed.
    pub fn no_firmware() -> (r: Error)
        ensures
            r@ == ErrorView::no_firmware(),
    {
        Error {
            kind: ErrorKind::NoFirmware,
            message: "no aarch64 UEFI firmware found; install qemu's edk2-aarch64 firmware or pass --qemu with a wrapper that supplies -drive if=pflash yourself".to_owned(),
            causes: no_causes(),
        }
    }

    /// The console did not show what was waited for in time.
    pub fn timed_out(time: &str, what: &str, output: &str) -> (r: Error)
        ensures
            r@ == ErrorView::timed_out(time@, what@, output@),
    {
        Error {
            kind: ErrorKind::TimedOut,
            message: cat2(cat5("timed out after ", time, " waiting for ", what, "; last output:\n").as_str(), output),
            causes: no_causes(),
        }
    }

    /// QEMU's console closed before it showed what was waited for.
    pub fn closed(what: &str, output: &str) -> (r: Error)
        ensures
            r@ == ErrorView::closed(what@, output@),
    {
        Error {
            kind: ErrorKind::Closed,
            message: cat4("qemu's console closed while waiting for ", what, "; last output:\n", output),
            causes: no_causes(),
        }
    }

    /// The guest's kernel panicked.
    pub fn kernel_panic(log: &str, output: &str) -> (r: Error)
        ensures
            r@ == ErrorView::kernel_panic(log@, output@),
    {
        Error {
            kind: ErrorKind::KernelPanic,
            message: cat4("kernel panic detected in console output (see ", log, "):\n", output),
            causes: no_causes(),
        }
    }

    /// A reply of a kind that the last action cannot have.
    pub fn unexpected_reply() -> (r: Error)
        ensures
            r@ == ErrorView::unexpected_reply(),
    {
        Error {
            kind: ErrorKind::UnexpectedReply,
            message: "unexpected reply to the last action".to_owned(),
            causes: no_causes(),
        }
    }
}

} // verus!
