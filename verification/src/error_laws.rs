//! What is said of what went wrong.

use crate::error::{quoted_path_text, ErrorKind, ErrorView};
use crate::host::{ack_error, bare_ack_error, plain_command, run_error, Reply};
use vstd::prelude::*;

verus! {

/// What an error consists of.
pub open spec fn says(
    e: ErrorView,
    kind: ErrorKind,
    message: Seq<char>,
    causes: Seq<Seq<char>>,
) -> bool {
    e.kind == kind && e.message == message && e.causes == causes
}

/// What is said of each error, to the letter: it names what it is about.
pub proof fn what_is_said_of_each_error(
    doing: Seq<char>,
    cause: Seq<char>,
    machine: Seq<char>,
    name: Seq<char>,
    path: Seq<char>,
    what: Seq<char>,
    program: Seq<char>,
    status: Seq<char>,
    flag: Seq<char>,
    argument: Seq<char>,
    script: Seq<char>,
    stderr: Seq<char>,
    time: Seq<char>,
    output: Seq<char>,
    log: Seq<char>,
)
    ensures
        says(
            ErrorView::failed(doing, cause),
            ErrorKind::Io,
            doing,
            seq![cause],
        ),
        says(
            ErrorView::refused(cause),
            ErrorKind::Io,
            cause,
            Seq::empty(),
        ),
        says(
            ErrorView::unsupported_machine(machine),
            ErrorKind::UnsupportedMachine,
            "unsupported --machine "@ + machine + " (supported: amd64, arm64)"@,
            Seq::empty(),
        ),
        says(
            ErrorView::unsupported_vm(machine),
            ErrorKind::UnsupportedMachine,
            "unsupported --machine "@ + machine + " for ktest"@,
            Seq::empty(),
        ),
        says(
            ErrorView::tool_missing(name, path),
            ErrorKind::ToolMissing,
            name + " not found at "@ + quoted_path_text(path) + "; install it with `rustup component add llvm-tools`"@,
            Seq::empty(),
        ),
        says(
            ErrorView::no_grandparent(),
            ErrorKind::NoGrandparent,
            "CARGO_MANIFEST_DIR has no grandparent"@,
            Seq::empty(),
        ),
        says(
            ErrorView::target_spec_missing(path),
            ErrorKind::TargetSpecMissing,
            "target spec "@ + quoted_path_text(path) + " not found"@,
            Seq::empty(),
        ),
        says(
            ErrorView::not_a_source_tree(path),
            ErrorKind::NotASourceTree,
            quoted_path_text(path) + " doesn't look like a FreeBSD source tree: expected conf/kmod.mk under it (or under a sys/ subdirectory)"@,
            Seq::empty(),
        ),
        says(
            ErrorView::no_crate_name(path),
            ErrorKind::NoCrateName,
            "no [package].name or [lib].name in "@ + quoted_path_text(path),
            Seq::empty(),
        ),
        says(
            ErrorView::not_utf8(what, cause),
            ErrorKind::NotUtf8,
            what,
            seq![cause],
        ),
        says(
            ErrorView::no_host_triple(),
            ErrorKind::NoHostTriple,
            "`rustc -vV` did not report a host triple"@,
            Seq::empty(),
        ),
        says(
            ErrorView::exited(program, status),
            ErrorKind::Exited,
            quoted_path_text(program) + " exited with "@ + status,
            Seq::empty(),
        ),
        says(
            ErrorView::needs_value(flag),
            ErrorKind::NeedsValue,
            flag + " needs a value"@,
            Seq::empty(),
        ),
        says(
            ErrorView::unrecognized(argument),
            ErrorKind::Unrecognized,
            "unrecognized argument: "@ + argument + " (see --help)"@,
            Seq::empty(),
        ),
        says(
            ErrorView::sysdir_required(),
            ErrorKind::SysdirRequired,
            "--sysdir <path> is required: point it at a FreeBSD source tree (its root or its sys/ subdirectory)"@,
            Seq::empty(),
        ),
        says(
            ErrorView::timeout_not_a_number(cause),
            ErrorKind::TimeoutNotANumber,
            "--timeout must be a number of seconds"@,
            seq![cause],
        ),
        says(
            ErrorView::no_staticlib(path),
            ErrorKind::NoStaticlib,
            "expected staticlib at "@ + quoted_path_text(path) + " was not produced"@,
            Seq::empty(),
        ),
        says(
            ErrorView::no_objects(path),
            ErrorKind::NoObjects,
            "no .o members extracted from "@ + quoted_path_text(path),
            Seq::empty(),
        ),
        says(
            ErrorView::awk_failed(script, stderr),
            ErrorKind::AwkFailed,
            quoted_path_text(script) + " failed: "@ + stderr,
            Seq::empty(),
        ),
        says(
            ErrorView::no_file_name(),
            ErrorKind::NoFileName,
            "built .ko has no file name"@,
            Seq::empty(),
        ),
        says(
            ErrorView::not_a_ko(),
            ErrorKind::NotAKo,
            "built artifact doesn't end in .ko"@,
            Seq::empty(),
        ),
        says(
            ErrorView::no_path_component(),
            ErrorKind::NoPathComponent,
            "--image-url has no path component"@,
            Seq::empty(),
        ),
        says(
            ErrorView::xz_failed(path, status),
            ErrorKind::XzFailed,
            "`xz -dc "@ + quoted_path_text(path) + "` exited with "@ + status,
            Seq::empty(),
        ),
        says(
            ErrorView::no_iso_tool(),
            ErrorKind::NoIsoTool,
            "no ISO-building tool found (need one of: xorriso, mkisofs, hdiutil)"@,
            Seq::empty(),
        ),
        says(
            ErrorView::no_firmware(),
            ErrorKind::NoFirmware,
            "no aarch64 UEFI firmware found; install qemu's edk2-aarch64 firmware or pass --qemu with a wrapper that supplies -drive if=pflash yourself"@,
            Seq::empty(),
        ),
        says(
            ErrorView::timed_out(time, what, output),
            ErrorKind::TimedOut,
            "timed out after "@ + time + " waiting for "@ + what + "; last output:\n"@ + output,
            Seq::empty(),
        ),
        says(
            ErrorView::closed(what, output),
            ErrorKind::Closed,
            "qemu's console closed while waiting for "@ + what + "; last output:\n"@ + output,
            Seq::empty(),
        ),
        says(
            ErrorView::kernel_panic(log, output),
            ErrorKind::KernelPanic,
            "kernel panic detected in console output (see "@ + log + "):\n"@ + output,
            Seq::empty(),
        ),
        says(
            ErrorView::unexpected_reply(),
            ErrorKind::UnexpectedReply,
            "unexpected reply to the last action"@,
            Seq::empty(),
        ),
{
}

/// An error that is given the place of the console's log still says all that it said, below
/// that.
pub proof fn the_log_is_said_on_top(e: ErrorView, log: Seq<char>)
    ensures
        e.logged(log).kind == e.kind,
        e.logged(log).message == "see full console log at "@ + log,
        e.logged(log).causes.len() == e.causes.len() + 1,
        e.logged(log).causes[0] == e.message,
        e.logged(log).causes.drop_first() == e.causes,
{
    assert(e.logged(log).causes.drop_first() =~= e.causes);
}

/// A reply is an error unless it says that what was asked for was done, and the error gives
/// the reason that the reply gives.
pub proof fn only_what_was_done_is_no_error(reply: Reply, doing: Seq<char>, program: Seq<char>)
    ensures
        ack_error(reply, doing) is None <==> reply is Done,
        bare_ack_error(reply) is None <==> reply is Done,
        run_error(program, reply) is None <==> (reply matches Reply::Exit { success, .. }
            && success),
        reply matches Reply::Failed(cause) ==> {
            &&& says(ack_error(reply, doing)->0, ErrorKind::Io, doing, seq![cause@])
            &&& says(bare_ack_error(reply)->0, ErrorKind::Io, cause@, Seq::empty())
            &&& says(
                run_error(program, reply)->0,
                ErrorKind::Io,
                "spawning "@ + quoted_path_text(program),
                seq![cause@],
            )
        },
        reply matches Reply::Exit { success, status } ==> !success ==> says(
            run_error(program, reply)->0,
            ErrorKind::Exited,
            quoted_path_text(program) + " exited with "@ + status@,
            Seq::empty(),
        ),
{
}

/// A plain command runs its program with its arguments, and changes nothing else about how
/// programs are run.
pub proof fn a_plain_command_is_nothing_but_itself(program: Seq<char>, args: Seq<Seq<char>>)
    ensures
        plain_command(program, args).program == program,
        plain_command(program, args).args == args,
        plain_command(program, args).envs.len() == 0,
        plain_command(program, args).dir is None,
{
}

} // verus!
