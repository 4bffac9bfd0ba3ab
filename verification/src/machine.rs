//! What FreeBSD's makefiles and this project call the supported machines.

use crate::error::{Error, ErrorView};
use crate::host::{Action, ActionView, Reply, Step, StepView};
use crate::path::{
    join, joined_path, joined_path_ends_in_its_name, lemma_after_last_is, name_of, parent,
    parent_of, stem_of,
};
use crate::text::{cat2, same};
use vstd::prelude::*;

verus! {

/// `MACHINE_CPUARCH` of a `MACHINE` (`sys/conf/kern.mk`).
pub open spec fn cpuarch_of(machine: Seq<char>) -> Option<Seq<char>> {
    if machine == "amd64"@ {
        Some("amd64"@)
    } else if machine == "arm64"@ {
        Some("aarch64"@)
    } else {
        None
    }
}

/// `LD_EMULATION` of a `MACHINE` (`sys/conf/kern.mk`).
pub open spec fn ld_emulation_of(machine: Seq<char>) -> Option<Seq<char>> {
    if machine == "amd64"@ {
        Some("elf_x86_64_fbsd"@)
    } else if machine == "arm64"@ {
        Some("aarch64elf"@)
    } else {
        None
    }
}

/// The name of the Rust target that modules for a machine are compiled for.
pub open spec fn target_name_of(machine: Seq<char>) -> Option<Seq<char>> {
    if machine == "amd64"@ {
        Some("x86_64"@ + "-unknown-freebsd-kernel"@)
    } else if machine == "arm64"@ {
        Some("aarch64"@ + "-unknown-freebsd-kernel"@)
    } else {
        None
    }
}

/// Whether modules can be built for a machine.
pub open spec fn is_supported(machine: Seq<char>) -> bool {
    machine == "amd64"@ || machine == "arm64"@
}

/// The `MACHINE_CPUARCH` of a `MACHINE`. It decides whether a module is linked
/// directly (`amd64`) or as a shared object (everything else).
pub fn machine_cpuarch(machine: &str) -> (r: Result<&'static str, Error>)
    ensures
        match r {
            Ok(s) => cpuarch_of(machine@) == Some(s@),
            Err(e) => !is_supported(machine@) && e@ == ErrorView::unsupported_machine(machine@),
        },
{
    if same(machine, "amd64") {
        Ok("amd64")
    } else if same(machine, "arm64") {
        Ok("aarch64")
    } else {
        Err(Error::unsupported_machine(machine))
    }
}

/// The linker's emulation for a `MACHINE`.
pub fn ld_emulation(machine: &str) -> (r: Result<&'static str, Error>)
    ensures
        match r {
            Ok(s) => ld_emulation_of(machine@) == Some(s@),
            Err(e) => !is_supported(machine@) && e@ == ErrorView::unsupported_machine(machine@),
        },
{
    if same(machine, "amd64") {
        Ok("elf_x86_64_fbsd")
    } else if same(machine, "arm64") {
        Ok("aarch64elf")
    } else {
        Err(Error::unsupported_machine(machine))
    }
}

/// The name of the Rust target that modules for a machine are compiled for.
pub fn target_name(machine: &str) -> (r: Result<String, Error>)
    ensures
        match r {
            Ok(s) => target_name_of(machine@) == Some(s@),
            Err(e) => !is_supported(machine@) && e@ == ErrorView::unsupported_machine(machine@),
        },
{
    if same(machine, "amd64") {
        Ok(cat2("x86_64", "-unknown-freebsd-kernel"))
    } else if same(machine, "arm64") {
        Ok(cat2("aarch64", "-unknown-freebsd-kernel"))
    } else {
        Err(Error::unsupported_machine(machine))
    }
}

/// The workspace that holds the target specifications: two levels above the
/// tool's own manifest.
pub open spec fn workspace_of(manifest_dir: Seq<char>) -> Option<Seq<char>> {
    match parent_of(manifest_dir) {
        Some(p) => parent_of(p),
        None => None,
    }
}

/// Where the specification of a target lies in the workspace.
pub open spec fn spec_file(workspace: Seq<char>, target: Seq<char>) -> Seq<char> {
    joined_path(joined_path(workspace, "targets"@), target + ".json"@)
}

/// Where the target specification for a machine is, or why it is nowhere.
pub open spec fn spec_location(manifest_dir: Seq<char>, machine: Seq<char>) -> Result<
    Seq<char>,
    ErrorView,
> {
    match target_name_of(machine) {
        None => Err(ErrorView::unsupported_machine(machine)),
        Some(target) => match workspace_of(manifest_dir) {
            None => Err(ErrorView::no_grandparent()),
            Some(w) => Ok(spec_file(w, target)),
        },
    }
}

/// How [`target_spec_path`] goes on.
pub open spec fn target_spec_step(
    manifest_dir: Seq<char>,
    machine: Seq<char>,
    reply: Reply,
) -> StepView<Seq<char>> {
    match spec_location(manifest_dir, machine) {
        Err(e) => StepView::Fail(e),
        Ok(path) => match reply {
            Reply::Begin => StepView::Do(ActionView::Exists(path)),
            Reply::Is(true) => StepView::Done(path),
            Reply::Is(false) => StepView::Fail(ErrorView::target_spec_missing(path)),
            _ => StepView::Fail(ErrorView::unexpected_reply()),
        },
    }
}

/// Finds the target specification for a machine. Resumable: it asks whether the
/// file is there.
pub fn target_spec_path(manifest_dir: &str, machine: &str, reply: &Reply) -> (r: Step<String>)
    ensures
        r@ == target_spec_step(manifest_dir@, machine@, *reply),
{
    let target = match target_name(machine) {
        Ok(t) => t,
        Err(e) => return Step::Fail(e),
    };
    let above = match parent(manifest_dir) {
        Some(p) => p,
        None => return Step::Fail(Error::no_grandparent()),
    };
    let workspace = match parent(above.as_str()) {
        Some(p) => p,
        None => return Step::Fail(Error::no_grandparent()),
    };
    let path = join(
        join(workspace.as_str(), "targets").as_str(),
        cat2(target.as_str(), ".json").as_str(),
    );
    match reply {
        Reply::Begin => Step::Do(Action::Exists(path)),
        Reply::Is(true) => Step::Done(path),
        Reply::Is(false) => Step::Fail(Error::target_spec_missing(path.as_str())),
        _ => Step::Fail(Error::unexpected_reply()),
    }
}

/// A target specification is found in its directory under the name of its target.
pub proof fn a_specification_is_named_after_its_target(
    workspace: Seq<char>,
    machine: Seq<char>,
    target: Seq<char>,
)
    requires
        target_name_of(machine) == Some(target),
    ensures
        name_of(spec_file(workspace, target)) == Some(target + ".json"@),
        stem_of(target + ".json"@) == target,
{
    reveal_strlit("x86_64");
    reveal_strlit("aarch64");
    reveal_strlit("-unknown-freebsd-kernel");
    reveal_strlit(".json");
    let name = target + ".json"@;
    assert forall|i: int| 0 <= i < name.len() implies name[i] != '/' by {}
    joined_path_ends_in_its_name(joined_path(workspace, "targets"@), name);
    assert(name.skip(name.len() - 4) =~= seq!['j', 's', 'o', 'n']);
    lemma_after_last_is(name, '.', 4);
    assert(name.take(name.len() - 5) =~= target);
}

} // verus!
