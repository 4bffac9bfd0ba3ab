//! What the programs of a build are told.

use crate::args::BuildArgsView;
use crate::commands::{
    cargo_command_of, extract_command_of, link_command_of, localize_command_of, share_command_of,
    strip_command_of, symbols_command_of,
};
use crate::toolchain::ToolchainView;
use vstd::prelude::*;

verus! {

/// Whether `flag` is argument `i`, and `value` the one behind it.
pub open spec fn says_at(args: Seq<Seq<char>>, flag: Seq<char>, value: Seq<char>, i: int) -> bool {
    0 <= i < args.len() - 1 && args[i] == flag && args[i + 1] == value
}

/// The compiler is told the manifest, the target and the target directory that were
/// asked for, then what is passed through to it, and at the very end that the release
/// profile is wanted, where it is.
pub proof fn the_compiler_is_told_what_was_asked_for(
    args: BuildArgsView,
    target_json: Seq<char>,
    sysdir: Seq<char>,
    rustflags: Seq<char>,
)
    ensures
        ({
            let c = cargo_command_of(args, target_json, sysdir, rustflags);
            let n = args.extra_cargo_args.len();
            &&& c.program == "cargo"@
            &&& c.dir is None
            &&& c.args.len() == 11 + n + (if args.release {
                1int
            } else {
                0int
            })
            &&& c.args[0] == "build"@
            &&& says_at(c.args, "--manifest-path"@, args.manifest_path, 1)
            &&& says_at(c.args, "--target"@, target_json, 3)
            &&& says_at(c.args, "-Z"@, "build-std=core"@, 5)
            &&& says_at(c.args, "-Z"@, "json-target-spec"@, 7)
            &&& says_at(c.args, "--target-dir"@, args.target_dir, 9)
            &&& forall|i: int|
                0 <= i < n ==> c.args[11 + i] == #[trigger] args.extra_cargo_args[i]
            &&& args.release ==> c.args.last() == "--release"@
        }),
{
}

/// `--release` is given if and only if the release profile was asked for, whatever the
/// machine, where it is not passed through or hidden in a path.
pub proof fn release_is_given_where_it_was_asked_for(
    args: BuildArgsView,
    target_json: Seq<char>,
    sysdir: Seq<char>,
    rustflags: Seq<char>,
)
    requires
        !args.extra_cargo_args.contains("--release"@),
        args.manifest_path != "--release"@,
        args.target_dir != "--release"@,
        target_json != "--release"@,
    ensures
        cargo_command_of(args, target_json, sysdir, rustflags).args.contains("--release"@)
            <==> args.release,
{
    reveal_strlit("--release");
    reveal_strlit("build");
    reveal_strlit("--manifest-path");
    reveal_strlit("--target");
    reveal_strlit("-Z");
    reveal_strlit("build-std=core");
    reveal_strlit("json-target-spec");
    reveal_strlit("--target-dir");
    the_compiler_is_told_what_was_asked_for(args, target_json, sysdir, rustflags);
    let list = cargo_command_of(args, target_json, sysdir, rustflags).args;
    if args.release {
        assert(list[list.len() - 1] == "--release"@);
    } else if list.contains("--release"@) {
        let i = choose|i: int| 0 <= i < list.len() && list[i] == "--release"@;
        if i >= 11 {
            assert(args.extra_cargo_args[i - 11] == "--release"@);
        } else {
            let wanted = "--release"@;
            assert(wanted.len() == 9);
            assert("build"@.len() != 9 && "--manifest-path"@.len() != 9);
            assert("--target"@.len() != 9 && "-Z"@.len() != 9);
            assert("build-std=core"@.len() != 9 && "json-target-spec"@.len() != 9);
            assert("--target-dir"@.len() != 9);
            assert(list[0] != wanted && list[1] != wanted && list[2] != wanted);
            assert(list[3] != wanted && list[4] != wanted && list[5] != wanted);
            assert(list[6] != wanted && list[7] != wanted && list[8] != wanted);
            assert(list[9] != wanted && list[10] != wanted);
        }
    }
}

/// The machine decides only what the compiler finds in its environment: two builds
/// that differ in nothing else run it with the same arguments.
pub proof fn the_machine_changes_no_argument_of_the_compiler(
    a: BuildArgsView,
    b: BuildArgsView,
    target_json: Seq<char>,
    s1: Seq<char>,
    s2: Seq<char>,
    f1: Seq<char>,
    f2: Seq<char>,
)
    requires
        a.manifest_path == b.manifest_path,
        a.target_dir == b.target_dir,
        a.release == b.release,
        a.extra_cargo_args == b.extra_cargo_args,
    ensures
        cargo_command_of(a, target_json, s1, f1).args == cargo_command_of(
            b,
            target_json,
            s2,
            f2,
        ).args,
{
}

/// The compiler finds the source tree and the machine in its environment. For `arm64`,
/// and for no other machine, it also finds `RUSTFLAGS`: what was inherited, a blank
/// where that is not empty, and branch protection.
pub proof fn the_compiler_finds_tree_and_machine(
    args: BuildArgsView,
    target_json: Seq<char>,
    sysdir: Seq<char>,
    rustflags: Seq<char>,
)
    ensures
        ({
            let envs = cargo_command_of(args, target_json, sysdir, rustflags).envs;
            let protection = "-Z branch-protection=bti,pac-ret"@;
            &&& envs.len() == (if args.machine == "arm64"@ {
                3int
            } else {
                2int
            })
            &&& envs[0] == ("FBSD_SYSDIR"@, sysdir)
            &&& envs[1] == ("FBSD_MACHINE"@, args.machine)
            &&& args.machine == "arm64"@ && rustflags.len() == 0 ==> envs[2] == (
                "RUSTFLAGS"@,
                protection,
            )
            &&& args.machine == "arm64"@ && rustflags.len() > 0 ==> envs[2] == (
                "RUSTFLAGS"@,
                rustflags + " "@ + protection,
            )
        }),
{
}

/// The library is unpacked, all of it, in the directory given.
pub proof fn the_library_is_unpacked_in_its_directory(
    tools: ToolchainView,
    library: Seq<char>,
    dir: Seq<char>,
)
    ensures
        ({
            let c = extract_command_of(tools, library, dir);
            &&& c.program == tools.llvm_ar
            &&& c.args.len() == 2
            &&& c.args[0] == "x"@
            &&& c.args[1] == library
            &&& c.envs.len() == 0
            &&& c.dir == Some(dir)
        }),
{
}

/// The partial link is of all objects given, in their order, and of nothing else; it
/// goes to `out`, for the emulation given, through the script where there is one.
pub proof fn every_object_is_linked(
    tools: ToolchainView,
    emulation: Seq<char>,
    script: Option<Seq<char>>,
    out: Seq<char>,
    objects: Seq<Seq<char>>,
)
    ensures
        ({
            let c = link_command_of(tools, emulation, script, out, objects);
            let k = if script is Some {
                2int
            } else {
                0int
            };
            &&& c.program == tools.rust_lld
            &&& c.envs.len() == 0
            &&& c.dir is None
            &&& c.args.len() == 9 + k + objects.len()
            &&& says_at(c.args, "-flavor"@, "gnu"@, 0)
            &&& says_at(c.args, "-m"@, emulation, 2)
            &&& c.args[4] == "-warn-common"@
            &&& c.args[5] == "-d"@
            &&& script matches Some(path) ==> says_at(c.args, "-T"@, path, 6)
            &&& c.args[6 + k] == "-r"@
            &&& says_at(c.args, "-o"@, out, 7 + k)
            &&& forall|i: int|
                0 <= i < objects.len() ==> c.args[9 + k + i] == #[trigger] objects[i]
        }),
{
}

/// The script works on the object and the list given, with the toolchain's own `nm`.
pub proof fn the_script_works_on_object_and_list(
    tools: ToolchainView,
    script: Seq<char>,
    object: Seq<char>,
    list: Seq<char>,
)
    ensures
        ({
            let c = symbols_command_of(tools, script, object, list);
            &&& c.program == "awk"@
            &&& c.args.len() == 4
            &&& says_at(c.args, "-f"@, script, 0)
            &&& c.args[2] == object
            &&& c.args[3] == list
            &&& c.envs.len() == 1
            &&& c.envs[0] == ("NM"@, tools.llvm_nm)
            &&& c.dir is None
        }),
{
}

/// The symbols of an object are edited by all flags given, in their order.
pub proof fn every_flag_reaches_the_object(
    tools: ToolchainView,
    flags: Seq<Seq<char>>,
    object: Seq<char>,
)
    ensures
        ({
            let c = localize_command_of(tools, flags, object);
            &&& c.program == tools.llvm_objcopy
            &&& c.args.len() == flags.len() + 1
            &&& forall|i: int| 0 <= i < flags.len() ==> c.args[i] == #[trigger] flags[i]
            &&& c.args.last() == object
            &&& c.envs.len() == 0
            &&& c.dir is None
        }),
{
}

/// The shared object is linked out of the object given, for the emulation given.
pub proof fn the_shared_object_is_linked_out_of_its_object(
    tools: ToolchainView,
    emulation: Seq<char>,
    object: Seq<char>,
    out: Seq<char>,
)
    ensures
        ({
            let c = share_command_of(tools, emulation, object, out);
            &&& c.program == tools.rust_lld
            &&& c.args.len() == 10
            &&& says_at(c.args, "-flavor"@, "gnu"@, 0)
            &&& says_at(c.args, "-m"@, emulation, 2)
            &&& c.args[4] == "-Bshareable"@
            &&& c.args[5] == "-znotext"@
            &&& c.args[6] == "-znorelro"@
            &&& says_at(c.args, "-o"@, out, 7)
            &&& c.args[9] == object
            &&& c.envs.len() == 0
            &&& c.dir is None
        }),
{
}

/// Stripping takes the debugging information of the object given, and nothing else.
pub proof fn only_debugging_information_is_stripped(tools: ToolchainView, object: Seq<char>)
    ensures
        ({
            let c = strip_command_of(tools, object);
            &&& c.program == tools.llvm_objcopy
            &&& c.args.len() == 2
            &&& c.args[0] == "--strip-debug"@
            &&& c.args[1] == object
            &&& c.envs.len() == 0
            &&& c.dir is None
        }),
{
}

} // verus!
