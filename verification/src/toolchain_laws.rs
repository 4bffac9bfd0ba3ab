//! What holds of the search for what a build needs: the tools, the source tree and the
//! target specification.

use crate::error::ErrorView;
use crate::host::{ActionView, CommandView, Reply, StepView};
use crate::machine::{
    cpuarch_of, is_supported, ld_emulation_of, spec_file, spec_location, target_name_of,
    target_spec_step,
};
use crate::path::{parent_of, trimmed_path};
use crate::path_laws::{
    a_path_is_its_parent_and_its_name, a_relative_path_goes_under_its_base, lemma_under, under,
};
use crate::sysdir::{sysdir_step, SysdirSearch};
use crate::text::{after_prefix, CharClass};
use crate::text_laws::{
    affixes_are_taken_off, all_in, is_line, trimming_takes_both_ends, written,
    written_lines_are_read_back,
};
use crate::toolchain::{
    bin_dir_of, discover_step, host_line, new_discovery, DiscoveryView, Stage, Tool, ToolchainView,
};
use vstd::prelude::*;
use vstd::utf8::{encode_utf8, encode_utf8_decode_utf8, encode_utf8_valid_utf8};

verus! {

/// A reply that holds what a program printed, however it ended.
pub open spec fn output_of(reply: Reply, text: Seq<char>) -> bool {
    reply matches Reply::Output { stdout, .. } && stdout@ == encode_utf8(text)
}

/// Whether a line is one that names the host.
pub open spec fn names_host(line: Seq<char>) -> bool {
    exists|host: Seq<char>| line == "host: "@ + host
}

/// The first line that names the host counts, wherever it stands.
pub proof fn the_first_host_line_counts(
    before: Seq<Seq<char>>,
    host: Seq<char>,
    behind: Seq<Seq<char>>,
)
    requires
        forall|i: int| 0 <= i < before.len() ==> !names_host(#[trigger] before[i]),
    ensures
        host_line(before + seq!["host: "@ + host] + behind) == Some(host),
        host_line(before) is None,
    decreases before.len(),
{
    let all = before + seq!["host: "@ + host] + behind;
    if before.len() == 0 {
        affixes_are_taken_off(host, "host: "@);
        assert(all[0] == "host: "@ + host);
    } else {
        let rest = before.drop_first();
        assert forall|i: int| 0 <= i < rest.len() implies !names_host(#[trigger] rest[i]) by {
            assert(rest[i] == before[i + 1]);
        }
        the_first_host_line_counts(rest, host, behind);
        affixes_are_taken_off(before[0], "host: "@);
        assert(all[0] == before[0]);
        assert(all.drop_first() =~= rest + seq!["host: "@ + host] + behind);
        assert(!names_host(before[0]));
        assert(after_prefix(before[0], "host: "@) is None);
    }
}

/// Where the tools of a toolchain are.
pub proof fn the_tools_are_below_the_sysroot(sysroot: Seq<char>, host: Seq<char>, tool: Seq<char>)
    requires
        host.len() > 0,
        host[0] != '/',
        host.last() != '/',
    ensures
        under(bin_dir_of(sysroot, host), tool) == under(
            sysroot,
            "lib/rustlib/"@ + host + "/bin/"@ + tool,
        ),
{
    reveal_strlit("lib/rustlib");
    reveal_strlit("lib/rustlib/");
    reveal_strlit("bin");
    reveal_strlit("/bin/");
    let a = "lib/rustlib"@;
    let ab = a + seq!['/'] + host;
    let abc = ab + seq!['/'] + "bin"@;
    a_relative_path_goes_under_its_base(sysroot, a);
    a_relative_path_goes_under_its_base(under(sysroot, a), host);
    lemma_under(sysroot, a, host);
    a_relative_path_goes_under_its_base(under(sysroot, ab), "bin"@);
    lemma_under(sysroot, ab, "bin"@);
    lemma_under(sysroot, abc, tool);
    assert(abc + seq!['/'] + tool =~= "lib/rustlib/"@ + host + "/bin/"@ + tool);
}

/// `rustc` is asked for its host and its sysroot, and the tools are those of that
/// toolchain: whatever else it prints, the four of them are looked for below the sysroot,
/// one after the other, and found there.
pub proof fn the_tools_are_those_of_the_toolchain(
    start: Reply,
    version: Reply,
    printed: Reply,
    before: Seq<Seq<char>>,
    host: Seq<char>,
    behind: Seq<Seq<char>>,
    l: Seq<char>,
    sysroot: Seq<char>,
    r: Seq<char>,
)
    requires
        output_of(version, written(before + seq!["host: "@ + host] + behind)),
        forall|i: int| 0 <= i < before.len() ==> is_line(#[trigger] before[i]),
        forall|i: int| 0 <= i < before.len() ==> !names_host(#[trigger] before[i]),
        is_line("host: "@ + host),
        forall|i: int| 0 <= i < behind.len() ==> is_line(#[trigger] behind[i]),
        host.len() > 0,
        host[0] != '/',
        host.last() != '/',
        output_of(printed, l + sysroot + r),
        all_in(l, CharClass::Space),
        all_in(r, CharClass::Space),
        sysroot.len() > 0 ==> !CharClass::Space.has(sysroot[0]),
        sysroot.len() > 0 ==> !CharClass::Space.has(sysroot.last()),
    ensures
        ({
            let bin = "lib/rustlib/"@ + host + "/bin/"@;
            let (d1, s1) = discover_step(new_discovery(), start);
            let (d2, s2) = discover_step(d1, version);
            let (d3, s3) = discover_step(d2, printed);
            let (d4, s4) = discover_step(d3, Reply::Is(true));
            let (d5, s5) = discover_step(d4, Reply::Is(true));
            let (d6, s6) = discover_step(d5, Reply::Is(true));
            let (d7, s7) = discover_step(d6, Reply::Is(true));
            &&& s1 == StepView::<ToolchainView>::Do(
                ActionView::Capture(
                    CommandView {
                        program: "rustc"@,
                        args: seq!["-vV"@],
                        envs: Seq::empty(),
                        dir: None,
                    },
                ),
            )
            &&& s2 == StepView::<ToolchainView>::Do(
                ActionView::Capture(
                    CommandView {
                        program: "rustc"@,
                        args: seq!["--print"@, "sysroot"@],
                        envs: Seq::empty(),
                        dir: None,
                    },
                ),
            )
            &&& s3 == StepView::<ToolchainView>::Do(
                ActionView::Exists(under(sysroot, bin + "rust-lld"@)),
            )
            &&& s4 == StepView::<ToolchainView>::Do(
                ActionView::Exists(under(sysroot, bin + "llvm-ar"@)),
            )
            &&& s5 == StepView::<ToolchainView>::Do(
                ActionView::Exists(under(sysroot, bin + "llvm-nm"@)),
            )
            &&& s6 == StepView::<ToolchainView>::Do(
                ActionView::Exists(under(sysroot, bin + "llvm-objcopy"@)),
            )
            &&& s7 == StepView::<ToolchainView>::Done(
                ToolchainView {
                    rust_lld: under(sysroot, bin + "rust-lld"@),
                    llvm_ar: under(sysroot, bin + "llvm-ar"@),
                    llvm_nm: under(sysroot, bin + "llvm-nm"@),
                    llvm_objcopy: under(sysroot, bin + "llvm-objcopy"@),
                },
            )
        }),
{
    let lines = before + seq!["host: "@ + host] + behind;
    assert forall|i: int| 0 <= i < lines.len() implies is_line(#[trigger] lines[i]) by {
        if i < before.len() {
            assert(lines[i] == before[i]);
        } else if i > before.len() {
            assert(lines[i] == behind[i - before.len() - 1]);
        }
    }
    encode_utf8_valid_utf8(written(lines));
    encode_utf8_decode_utf8(written(lines));
    written_lines_are_read_back(lines);
    the_first_host_line_counts(before, host, behind);
    encode_utf8_valid_utf8(l + sysroot + r);
    encode_utf8_decode_utf8(l + sysroot + r);
    trimming_takes_both_ends(l, sysroot, r, CharClass::Space);
    reveal_strlit("rust-lld");
    reveal_strlit("llvm-ar");
    reveal_strlit("llvm-nm");
    reveal_strlit("llvm-objcopy");
    let dir = bin_dir_of(sysroot, host);
    a_relative_path_goes_under_its_base(dir, "rust-lld"@);
    a_relative_path_goes_under_its_base(dir, "llvm-ar"@);
    a_relative_path_goes_under_its_base(dir, "llvm-nm"@);
    a_relative_path_goes_under_its_base(dir, "llvm-objcopy"@);
    the_tools_are_below_the_sysroot(sysroot, host, "rust-lld"@);
    the_tools_are_below_the_sysroot(sysroot, host, "llvm-ar"@);
    the_tools_are_below_the_sysroot(sysroot, host, "llvm-nm"@);
    the_tools_are_below_the_sysroot(sysroot, host, "llvm-objcopy"@);
}

/// A tool that is not there ends the search, with an error that names it and where it was
/// looked for.
pub proof fn a_missing_tool_ends_the_search(at: DiscoveryView, tool: Tool)
    requires
        at.stage == Stage::Tool(tool),
    ensures
        ({
            let name = match tool {
                Tool::RustLld => "rust-lld"@,
                Tool::LlvmAr => "llvm-ar"@,
                Tool::LlvmNm => "llvm-nm"@,
                Tool::LlvmObjcopy => "llvm-objcopy"@,
            };
            discover_step(at, Reply::Is(false)).1 == StepView::<ToolchainView>::Fail(
                ErrorView::tool_missing(name, under(at.bin_dir, name)),
            )
        }),
{
    reveal_strlit("rust-lld");
    reveal_strlit("llvm-ar");
    reveal_strlit("llvm-nm");
    reveal_strlit("llvm-objcopy");
    a_relative_path_goes_under_its_base(at.bin_dir, "rust-lld"@);
    a_relative_path_goes_under_its_base(at.bin_dir, "llvm-ar"@);
    a_relative_path_goes_under_its_base(at.bin_dir, "llvm-nm"@);
    a_relative_path_goes_under_its_base(at.bin_dir, "llvm-objcopy"@);
}

/// The source tree is the directory given where that holds `conf/kmod.mk`, else its
/// `sys` where that does, and else nothing; the tree found is given in absolute form.
pub proof fn the_source_tree_holds_the_makefile(dir: Seq<char>, start: Reply, path: String)
    ensures
        ({
            let (a, asked) = sysdir_step(SysdirSearch::Start, dir, start);
            let (b, found) = sysdir_step(a, dir, Reply::Is(true));
            let (c, not_found) = sysdir_step(a, dir, Reply::Is(false));
            let (d, nested) = sysdir_step(c, dir, Reply::Is(true));
            let (e, nowhere) = sysdir_step(c, dir, Reply::Is(false));
            &&& asked == StepView::<Seq<char>>::Do(ActionView::Exists(under(dir, "conf/kmod.mk"@)))
            &&& found == StepView::<Seq<char>>::Do(ActionView::Canonicalize(dir))
            &&& not_found == StepView::<Seq<char>>::Do(
                ActionView::Exists(under(dir, "sys/conf/kmod.mk"@)),
            )
            &&& nested == StepView::<Seq<char>>::Do(ActionView::Canonicalize(under(dir, "sys"@)))
            &&& nowhere == StepView::<Seq<char>>::Fail(ErrorView::not_a_source_tree(dir))
            &&& sysdir_step(b, dir, Reply::Text(path)).1 == StepView::Done(path@)
            &&& sysdir_step(d, dir, Reply::Text(path)).1 == StepView::Done(path@)
        }),
{
    reveal_strlit("conf/kmod.mk");
    reveal_strlit("sys/conf/kmod.mk");
    reveal_strlit("sys");
    a_relative_path_goes_under_its_base(dir, "conf/kmod.mk"@);
    a_relative_path_goes_under_its_base(dir, "sys/conf/kmod.mk"@);
    a_relative_path_goes_under_its_base(dir, "sys"@);
}

/// What the supported machines are called elsewhere, and that there are two of them.
pub proof fn the_names_of_a_machine(machine: Seq<char>)
    ensures
        machine == "amd64"@ ==> {
            &&& cpuarch_of(machine) == Some("amd64"@)
            &&& ld_emulation_of(machine) == Some("elf_x86_64_fbsd"@)
            &&& target_name_of(machine) == Some("x86_64-unknown-freebsd-kernel"@)
        },
        machine == "arm64"@ ==> {
            &&& cpuarch_of(machine) == Some("aarch64"@)
            &&& ld_emulation_of(machine) == Some("aarch64elf"@)
            &&& target_name_of(machine) == Some("aarch64-unknown-freebsd-kernel"@)
        },
        is_supported(machine) <==> machine == "amd64"@ || machine == "arm64"@,
        !is_supported(machine) ==> {
            &&& cpuarch_of(machine) is None
            &&& ld_emulation_of(machine) is None
            &&& target_name_of(machine) is None
        },
{
    reveal_strlit("x86_64");
    reveal_strlit("aarch64");
    reveal_strlit("amd64");
    reveal_strlit("arm64");
    reveal_strlit("-unknown-freebsd-kernel");
    reveal_strlit("x86_64-unknown-freebsd-kernel");
    reveal_strlit("aarch64-unknown-freebsd-kernel");
    assert("x86_64"@ + "-unknown-freebsd-kernel"@ =~= "x86_64-unknown-freebsd-kernel"@);
    assert("aarch64"@ + "-unknown-freebsd-kernel"@ =~= "aarch64-unknown-freebsd-kernel"@);
    assert("amd64"@[1] != "arm64"@[1]);
}

/// The target specification is looked for in the workspace's `targets`, two levels above
/// the tool's own manifest, under the name of the machine's target, and is used where it
/// is there.
pub proof fn the_specification_is_in_the_workspace(
    workspace: Seq<char>,
    tools: Seq<char>,
    tool: Seq<char>,
    machine: Seq<char>,
)
    requires
        crate::path::is_plain(tools),
        crate::path::is_plain(tool),
        workspace.len() > 0,
        trimmed_path(workspace) == workspace,
        is_supported(machine),
    ensures
        ({
            let manifest_dir = workspace + seq!['/'] + tools + seq!['/'] + tool;
            let path = under(workspace, "targets/"@ + target_name_of(machine)->0 + ".json"@);
            &&& target_spec_step(manifest_dir, machine, Reply::Begin) == StepView::<Seq<char>>::Do(
                ActionView::Exists(path),
            )
            &&& target_spec_step(manifest_dir, machine, Reply::Is(true)) == StepView::Done(path)
            &&& target_spec_step(manifest_dir, machine, Reply::Is(false)) == StepView::<
                Seq<char>,
            >::Fail(ErrorView::target_spec_missing(path))
        }),
{
    let manifest_dir = workspace + seq!['/'] + tools + seq!['/'] + tool;
    let above = workspace + seq!['/'] + tools;
    a_path_is_its_parent_and_its_name(above, tool);
    a_path_is_its_parent_and_its_name(workspace, tools);
    assert(trimmed_path(above) == above) by {
        lemma_trimmed_above(workspace, tools);
    }
    assert(parent_of(manifest_dir) == Some(above));
    assert(parent_of(above) == Some(workspace));
    let target = target_name_of(machine)->0;
    lemma_spec_file(workspace, machine);
    assert(spec_location(manifest_dir, machine) == Ok::<Seq<char>, ErrorView>(
        spec_file(workspace, target),
    ));
}

proof fn lemma_trimmed_above(workspace: Seq<char>, name: Seq<char>)
    requires
        workspace.len() > 0,
        crate::path::is_plain(name),
    ensures
        trimmed_path(workspace + seq!['/'] + name) == workspace + seq!['/'] + name,
{
    let p = workspace + seq!['/'] + name;
    let start = crate::path::before_body(p) as int;
    let body = p.skip(start);
    let k = name.len() as int;
    assert(body.skip(body.len() - k) =~= name);
    assert(body[body.len() - k - 1] == '/');
    crate::path::lemma_after_last_is(body, '/', k);
    assert(crate::path::last_part(p) == name);
}

proof fn lemma_spec_file(workspace: Seq<char>, machine: Seq<char>)
    requires
        is_supported(machine),
    ensures
        spec_file(workspace, target_name_of(machine)->0) == under(
            workspace,
            "targets/"@ + target_name_of(machine)->0 + ".json"@,
        ),
{
    let target = target_name_of(machine)->0;
    the_names_of_a_machine(machine);
    reveal_strlit("targets");
    reveal_strlit("targets/");
    reveal_strlit("x86_64-unknown-freebsd-kernel");
    reveal_strlit("aarch64-unknown-freebsd-kernel");
    let file = target + ".json"@;
    assert(target.len() > 0 && target[0] != '/');
    assert(file[0] == target[0]);
    a_relative_path_goes_under_its_base(workspace, "targets"@);
    a_relative_path_goes_under_its_base(under(workspace, "targets"@), file);
    lemma_under(workspace, "targets"@, file);
    assert("targets"@ + seq!['/'] + file =~= "targets/"@ + target + ".json"@);
}

} // verus!
