//! What the steps of a build work on.

use crate::error::ErrorView;
use crate::host::{ActionView, Reply, StepView};
use crate::machine::{
    cpuarch_of, is_supported, ld_emulation_of, target_name_of, target_spec_step,
};
use crate::manifest::crate_name_in;
use crate::path::joined_path;
use crate::path_laws::{
    a_relative_path_goes_under_its_base, lemma_under, the_extension_is_behind_the_last_dot, under,
};
use crate::pipeline::{objects_in, BuildView, Phase};
use crate::sysdir::sysdir_step;
use crate::text::{replaced, texts};
use crate::toolchain::discover_step;
use crate::toolchain_laws::the_names_of_a_machine;
use vstd::prelude::*;

verus! {

/// Whether a name is that of an object: something, and `.o` behind it.
pub open spec fn is_object_name(name: Seq<char>) -> bool {
    exists|stem: Seq<char>| stem.len() > 0 && name == #[trigger] (stem + ".o"@)
}

/// The names of objects are those with the extension `o`.
proof fn lemma_object_name(name: Seq<char>)
    ensures
        is_object_name(name) <==> crate::path::extension_of(name) == Some("o"@),
{
    reveal_strlit(".o");
    reveal_strlit("o");
    if is_object_name(name) {
        let stem = choose|stem: Seq<char>| stem.len() > 0 && name == #[trigger] (stem + ".o"@);
        assert(!"o"@.contains('.'));
        assert(name =~= stem + seq!['.'] + "o"@);
        the_extension_is_behind_the_last_dot(stem, "o"@);
    }
    if crate::path::extension_of(name) == Some("o"@) {
        crate::path::lemma_after_last(name, '.');
        let stem = name.take(name.len() - 2);
        assert(name.skip(name.len() - 1) == "o"@);
        assert(name[name.len() - 1] == name.skip(name.len() - 1)[0]);
        assert(name =~= stem + ".o"@);
    }
}

/// Every object among the entries of a directory is taken, each once and in the order
/// listed, and nothing else is.
pub proof fn every_object_is_taken_and_nothing_else(dir: Seq<char>, names: Seq<Seq<char>>)
    ensures
        objects_in(dir, names) == names.filter(|n: Seq<char>| is_object_name(n)).map_values(
            |n: Seq<char>| joined_path(dir, n),
        ),
    decreases names.len(),
{
    reveal(Seq::filter);
    let test = |n: Seq<char>| is_object_name(n);
    let place = |n: Seq<char>| joined_path(dir, n);
    if names.len() == 0 {
        assert(objects_in(dir, names) =~= names.filter(test).map_values(place));
    } else {
        let before = names.drop_last();
        every_object_is_taken_and_nothing_else(dir, before);
        lemma_object_name(names.last());
        if is_object_name(names.last()) {
            assert(test(names.last()));
            assert(names.filter(test) =~= before.filter(test).push(names.last()));
            assert(names.filter(test).map_values(place) =~= before.filter(test).map_values(
                place,
            ).push(place(names.last())));
        } else {
            assert(!test(names.last()));
            assert(names.filter(test) =~= before.filter(test));
        }
    }
}

/// An entry of a directory is among its objects if and only if its name is that of an
/// object, whatever else is in the directory.
pub proof fn an_entry_is_an_object_by_its_name_alone(
    dir: Seq<char>,
    before: Seq<Seq<char>>,
    name: Seq<char>,
    behind: Seq<Seq<char>>,
)
    ensures
        objects_in(dir, before + seq![name] + behind) == objects_in(dir, before) + (
        if is_object_name(name) {
            seq![joined_path(dir, name)]
        } else {
            Seq::empty()
        }) + objects_in(dir, behind),
    decreases behind.len(),
{
    let all = before + seq![name] + behind;
    lemma_object_name(name);
    if behind.len() == 0 {
        assert(all.drop_last() =~= before);
        assert(objects_in(dir, behind) =~= Seq::<Seq<char>>::empty());
        assert(all.last() == name);
        if is_object_name(name) {
            assert(objects_in(dir, before).push(joined_path(dir, name)) =~= objects_in(dir, before)
                + seq![joined_path(dir, name)] + Seq::<Seq<char>>::empty());
        } else {
            assert(objects_in(dir, before) =~= objects_in(dir, before) + Seq::<Seq<char>>::empty()
                + Seq::<Seq<char>>::empty());
        }
    } else {
        let less = behind.drop_last();
        an_entry_is_an_object_by_its_name_alone(dir, before, name, less);
        assert(all.drop_last() =~= before + seq![name] + less);
        assert(all.last() == behind.last());
        let own: Seq<Seq<char>> = if is_object_name(name) {
            seq![joined_path(dir, name)]
        } else {
            Seq::empty()
        };
        assert(objects_in(dir, all) =~= objects_in(dir, before) + own + objects_in(dir, behind));
    }
}

/// Whether a text can stand for a component of a path.
pub open spec fn is_component(s: Seq<char>) -> bool {
    s.len() > 0 && s[0] != '/' && s.last() != '/'
}

/// A build works in a directory of its own below the target directory, named after the
/// crate; the module is made there, and goes where it was asked for or, where nothing was
/// said, to a file in the current directory that is named after the crate.
pub proof fn a_build_works_below_its_target_directory(b: BuildView)
    requires
        is_component(b.crate_name),
    ensures
        b.work_dir() == under(b.args.target_dir, "kbuild-work/"@ + b.crate_name),
        b.kld() == b.work_dir() + "/"@ + b.crate_name + ".kld"@,
        b.shared() == b.work_dir() + "/"@ + b.crate_name + ".ko"@,
        b.links_directly() <==> b.cpuarch == "amd64"@,
        b.links_directly() ==> b.linked() == b.kld(),
        !b.links_directly() ==> b.linked() == b.shared(),
        b.args.out is None ==> b.out() == b.crate_name + ".ko"@,
        b.args.out matches Some(path) ==> b.out() == path,
{
    reveal_strlit("kbuild-work");
    reveal_strlit("kbuild-work/");
    reveal_strlit("/");
    reveal_strlit(".kld");
    reveal_strlit(".ko");
    let name = b.crate_name;
    let top = b.args.target_dir;
    a_relative_path_goes_under_its_base(top, "kbuild-work"@);
    a_relative_path_goes_under_its_base(under(top, "kbuild-work"@), name);
    lemma_under(top, "kbuild-work"@, name);
    assert("kbuild-work"@ + seq!['/'] + name =~= "kbuild-work/"@ + name);
    let work = b.work_dir();
    assert(work.last() == name.last());
    let kld = name + ".kld"@;
    let ko = name + ".ko"@;
    assert(kld[0] == name[0]);
    assert(ko[0] == name[0]);
    a_relative_path_goes_under_its_base(work, kld);
    a_relative_path_goes_under_its_base(work, ko);
    assert(work + seq!['/'] + kld =~= work + "/"@ + name + ".kld"@);
    assert(work + seq!['/'] + ko =~= work + "/"@ + name + ".ko"@);
}

/// The static library is looked for below the target directory, in the directory of the
/// target and of the profile that the compiler is told to use, under the crate's name with
/// `_` for each `-`.
pub proof fn the_library_is_that_of_the_profile_compiled(b: BuildView)
    requires
        target_name_of(b.args.machine) == Some(b.target),
    ensures
        b.args.release ==> b.cargo().args.contains("--release"@),
        b.args.release ==> b.staticlib() == under(
            b.args.target_dir,
            b.target + "/release/lib"@ + replaced(b.crate_name, '-', '_') + ".a"@,
        ),
        !b.args.release && b.args.extra_cargo_args.len() == 0 ==> b.cargo().args.len() == 11,
        !b.args.release ==> b.staticlib() == under(
            b.args.target_dir,
            b.target + "/debug/lib"@ + replaced(b.crate_name, '-', '_') + ".a"@,
        ),
{
    let args = b.cargo().args;
    crate::command_laws::the_compiler_is_told_what_was_asked_for(
        b.args,
        b.target_json,
        b.sysdir,
        b.rustflags,
    );
    if b.args.release {
        assert(args[args.len() - 1] == "--release"@);
    }
    the_names_of_a_machine(b.args.machine);
    reveal_strlit("x86_64-unknown-freebsd-kernel");
    reveal_strlit("aarch64-unknown-freebsd-kernel");
    reveal_strlit("release");
    reveal_strlit("debug");
    reveal_strlit("/release/lib");
    reveal_strlit("/debug/lib");
    reveal_strlit("lib");
    let target = b.target;
    assert(is_component(target));
    let profile = if b.args.release {
        "release"@
    } else {
        "debug"@
    };
    let file = "lib"@ + replaced(b.crate_name, '-', '_') + ".a"@;
    assert(file[0] == 'l');
    let top = b.args.target_dir;
    let ab = target + seq!['/'] + profile;
    a_relative_path_goes_under_its_base(top, target);
    a_relative_path_goes_under_its_base(under(top, target), profile);
    lemma_under(top, target, profile);
    a_relative_path_goes_under_its_base(under(top, ab), file);
    lemma_under(top, ab, file);
    let name = replaced(b.crate_name, '-', '_');
    if b.args.release {
        assert(ab + seq!['/'] + file =~= target + "/release/lib"@ + name + ".a"@);
    } else {
        assert(ab + seq!['/'] + file =~= target + "/debug/lib"@ + name + ".a"@);
    }
}

/// The kernel's linker script is that of the machine, in the source tree.
pub proof fn the_linker_script_is_that_of_the_machine(b: BuildView)
    ensures
        b.ldscript_path() == under(b.sysdir, "conf/ldscript.kmod."@ + b.args.machine),
{
    reveal_strlit("conf/ldscript.kmod.");
    let rest = "conf/ldscript.kmod."@ + b.args.machine;
    assert(rest[0] == 'c');
    a_relative_path_goes_under_its_base(b.sysdir, rest);
}

/// A build never forgets or changes what it was asked for or has learned: each step
/// changes only what its phase is for.
pub proof fn a_step_keeps_what_was_learned_before(b: BuildView, reply: Reply)
    ensures
        ({
            let after = b.step(reply).0;
            let early = b.phase == Phase::Sysdir || b.phase == Phase::Tools;
            &&& after.args == b.args
            &&& after.manifest_dir == b.manifest_dir
            &&& after.rustflags == b.rustflags
            &&& b.phase != Phase::Sysdir ==> {
                &&& after.sysdir == b.sysdir
                &&& after.cpuarch == b.cpuarch
                &&& after.emulation == b.emulation
                &&& after.target == b.target
            }
            &&& !early ==> after.tools == b.tools
            &&& !early && b.phase != Phase::TargetSpec ==> after.target_json == b.target_json
            &&& b.phase != Phase::Manifest ==> after.crate_name == b.crate_name
            &&& b.phase != Phase::LibraryPath ==> after.library == b.library
            &&& b.phase != Phase::Objects ==> after.objects == b.objects
            &&& b.phase != Phase::Ldscript ==> after.ldscript == b.ldscript
            &&& b.phase != Phase::Link && b.phase != Phase::Export ==> after.export == b.export
        }),
{
}

/// What a build learns, and from what: the source tree in absolute form, the machine's
/// names, the target specification that is there, the static library in absolute form, the
/// objects of the working directory, and whether the machine has a linker script.
pub proof fn what_a_build_learns(b: BuildView, reply: Reply)
    ensures
        ({
            let (after, step) = b.step(reply);
            &&& b.phase == Phase::Sysdir && after.phase != Phase::Sysdir ==> {
                &&& reply matches Reply::Text(path)
                &&& after.sysdir == path@
                &&& is_supported(b.args.machine)
                &&& Some(after.cpuarch) == cpuarch_of(b.args.machine)
                &&& Some(after.emulation) == ld_emulation_of(b.args.machine)
                &&& Some(after.target) == target_name_of(b.args.machine)
            }
            &&& b.phase == Phase::TargetSpec && after.phase != Phase::TargetSpec ==> {
                &&& reply == Reply::Is(true)
                &&& target_spec_step(
                    b.manifest_dir,
                    b.args.machine,
                    Reply::Begin,
                ) == StepView::<Seq<char>>::Do(ActionView::Exists(after.target_json))
            }
            &&& b.phase == Phase::LibraryPath && step is Do ==> {
                &&& reply matches Reply::Text(path)
                &&& after.library == path@
            }
            &&& b.phase == Phase::Objects && step is Do ==> {
                &&& reply matches Reply::Names(names)
                &&& after.objects == texts(names@).filter(
                    |n: Seq<char>| is_object_name(n),
                ).map_values(|n: Seq<char>| joined_path(b.work_dir(), n))
                &&& after.objects.len() > 0
            }
            &&& b.phase == Phase::Ldscript && step is Do ==> {
                ||| reply == Reply::Is(true) && after.ldscript == Some(b.ldscript_path())
                ||| reply == Reply::Is(false) && after.ldscript is None
            }
        }),
{
    match reply {
        Reply::Names(names) => {
            every_object_is_taken_and_nothing_else(b.work_dir(), texts(names@));
        },
        _ => {},
    }
}

/// A build looks for the source tree where it was told to, then for the tools, then for the
/// target specification, and then reads the manifest that it was given; it fails where one
/// of these searches does, and before all others for a machine that is not supported.
pub proof fn a_build_looks_for_what_it_needs(b: BuildView, reply: Reply)
    ensures
        ({
            let (after, step) = b.step(reply);
            let tree = sysdir_step(b.search, b.args.sysdir, reply);
            let tools = discover_step(b.discovery, reply);
            let spec = target_spec_step(b.manifest_dir, b.args.machine, reply);
            &&& b.phase == Phase::Sysdir ==> after.search == tree.0 && match tree.1 {
                StepView::Do(action) => step == StepView::<Seq<char>>::Do(action) && after.phase
                    == Phase::Sysdir,
                StepView::Fail(e) => step == StepView::<Seq<char>>::Fail(e),
                StepView::Done(_) => if b.args.machine == "amd64"@ || b.args.machine == "arm64"@ {
                    let first = discover_step(b.discovery, Reply::Begin);
                    after.discovery == first.0 && (first.1 matches StepView::Do(action) ==> step
                        == StepView::<Seq<char>>::Do(action) && after.phase == Phase::Tools)
                } else {
                    step == StepView::<Seq<char>>::Fail(
                        ErrorView::unsupported_machine(b.args.machine),
                    )
                },
            }
            &&& b.phase == Phase::Tools ==> after.discovery == tools.0 && match tools.1 {
                StepView::Do(action) => step == StepView::<Seq<char>>::Do(action) && after.phase
                    == Phase::Tools,
                StepView::Fail(e) => step == StepView::<Seq<char>>::Fail(e),
                StepView::Done(found) => after.tools == found && (target_spec_step(
                    b.manifest_dir,
                    b.args.machine,
                    Reply::Begin,
                ) matches StepView::Do(action) ==> step == StepView::<Seq<char>>::Do(action)
                    && after.phase == Phase::TargetSpec),
            }
            &&& b.phase == Phase::TargetSpec ==> match spec {
                StepView::Do(action) => step == StepView::<Seq<char>>::Do(action),
                StepView::Fail(e) => step == StepView::<Seq<char>>::Fail(e),
                StepView::Done(path) => after.target_json == path && after.phase == Phase::Manifest
                    && step == StepView::<Seq<char>>::Do(
                    ActionView::ReadFile(b.args.manifest_path),
                ),
            }
            &&& b.phase == Phase::Manifest && reply is Text ==> match crate_name_in(
                reply->Text_0@,
            ) {
                Some(name) => after.crate_name == name && step is Do,
                None => step == StepView::<Seq<char>>::Fail(
                    ErrorView::no_crate_name(b.args.manifest_path),
                ),
            }
            &&& b.phase == Phase::Manifest && reply !is Text ==> step is Fail
        }),
{
}

/// Any object that was unpacked keeps a build going, and only none at all ends it there.
pub proof fn a_build_goes_on_with_any_object(b: BuildView, names: Vec<String>)
    requires
        b.phase == Phase::Objects,
    ensures
        ({
            let (after, step) = b.step(Reply::Names(names));
            let some = exists|i: int| 0 <= i < names@.len() && is_object_name(names@[i]@);
            &&& some ==> step == StepView::<Seq<char>>::Do(ActionView::Exists(b.ldscript_path()))
            &&& !some ==> step == StepView::<Seq<char>>::Fail(ErrorView::no_objects(b.staticlib()))
        }),
{
    let all = texts(names@);
    let dir = b.work_dir();
    if exists|i: int| 0 <= i < names@.len() && is_object_name(names@[i]@) {
        let i = choose|i: int| 0 <= i < names@.len() && is_object_name(names@[i]@);
        assert(all =~= all.take(i) + seq![all[i]] + all.skip(i + 1));
        an_entry_is_an_object_by_its_name_alone(dir, all.take(i), all[i], all.skip(i + 1));
    } else {
        assert forall|i: int| 0 <= i < all.len() implies !is_object_name(#[trigger] all[i]) by {
            assert(all[i] == names@[i]@);
        }
        lemma_no_objects(dir, all);
    }
}

proof fn lemma_no_objects(dir: Seq<char>, names: Seq<Seq<char>>)
    requires
        forall|i: int| 0 <= i < names.len() ==> !is_object_name(#[trigger] names[i]),
    ensures
        objects_in(dir, names).len() == 0,
    decreases names.len(),
{
    if names.len() > 0 {
        lemma_object_name(names.last());
        assert(!is_object_name(names[names.len() - 1]));
        let before = names.drop_last();
        assert forall|i: int| 0 <= i < before.len() implies !is_object_name(
            #[trigger] before[i],
        ) by {
            assert(before[i] == names[i]);
        }
        lemma_no_objects(dir, before);
    }
}

/// Whether a reply says that a program succeeded.
pub open spec fn succeeded(reply: Reply) -> bool {
    reply matches Reply::Exit { success, .. } && success
}

/// What a build does next once what it asked for went well, and that it goes on in no
/// other case.
pub proof fn a_build_goes_on_when_all_went_well(b: BuildView, reply: Reply)
    ensures
        ({
            let (after, step) = b.step(reply);
            &&& b.phase == Phase::Manifest && step !is Fail ==> step == StepView::<Seq<char>>::Do(
                ActionView::CreateDirs(b.args.target_dir),
            ) && after.phase == Phase::TargetDir
            &&& b.phase == Phase::TargetDir ==> if reply is Done {
                step == StepView::<Seq<char>>::Do(ActionView::Run(b.cargo())) && after.phase
                    == Phase::Cargo
            } else {
                step is Fail
            }
            &&& b.phase == Phase::Cargo ==> if succeeded(reply) {
                step == StepView::<Seq<char>>::Do(ActionView::Exists(b.staticlib())) && after.phase
                    == Phase::Staticlib
            } else {
                step is Fail
            }
            &&& b.phase == Phase::Staticlib ==> if reply == Reply::Is(true) {
                step == StepView::<Seq<char>>::Do(ActionView::RemoveDir(b.work_dir()))
                    && after.phase == Phase::CleanWork
            } else {
                step is Fail
            }
            &&& b.phase == Phase::CleanWork ==> step == StepView::<Seq<char>>::Do(
                ActionView::CreateDirs(b.work_dir()),
            ) && after.phase == Phase::WorkDir
            &&& b.phase == Phase::WorkDir ==> if reply is Done {
                step == StepView::<Seq<char>>::Do(ActionView::Canonicalize(b.staticlib()))
                    && after.phase == Phase::LibraryPath
            } else {
                step is Fail
            }
            &&& b.phase == Phase::LibraryPath ==> if reply is Text {
                step == StepView::<Seq<char>>::Do(ActionView::Run(after.extract())) && after.phase
                    == Phase::Extract
            } else {
                step is Fail
            }
            &&& b.phase == Phase::Extract ==> if succeeded(reply) {
                step == StepView::<Seq<char>>::Do(ActionView::ListDir(b.work_dir()))
                    && after.phase == Phase::Objects
            } else {
                step is Fail
            }
            &&& b.phase == Phase::Ldscript ==> if reply is Is {
                step == StepView::<Seq<char>>::Do(ActionView::Run(after.link())) && after.phase
                    == Phase::Link
            } else {
                step is Fail
            }
            &&& b.phase == Phase::Link && !succeeded(reply) ==> step is Fail
            &&& b.phase == Phase::Share ==> if succeeded(reply) {
                step == StepView::<Seq<char>>::Do(ActionView::Run(b.strip())) && after.phase
                    == Phase::Strip
            } else {
                step is Fail
            }
            &&& b.phase == Phase::Strip ==> if succeeded(reply) {
                step == StepView::<Seq<char>>::Do(
                    ActionView::Copy { from: b.linked(), to: b.out() },
                ) && after.phase == Phase::Copy
            } else {
                step is Fail
            }
            &&& b.phase == Phase::Copy ==> if reply is Done {
                step == StepView::<Seq<char>>::Do(
                    ActionView::Say("cargo-kbuild: wrote "@ + b.out()),
                ) && after.phase == Phase::Report
            } else {
                step is Fail
            }
            &&& b.phase == Phase::Report ==> step == StepView::Done(b.out())
        }),
{
}

/// Once the objects are linked, the symbols are edited unless all are exported; then, and
/// when that is over, the module is linked as a shared object except on `amd64`, where it
/// is stripped at once.
pub proof fn the_symbols_are_edited_behind_the_link(b: BuildView, reply: Reply)
    requires
        b.export == crate::export::new_export(),
        b.phase == Phase::Link,
        succeeded(reply),
    ensures
        ({
            let (after, step) = b.step(reply);
            let direct = b.cpuarch == "amd64"@;
            &&& b.args.export_syms is Yes && direct ==> after.phase == Phase::Strip && step
                == StepView::<Seq<char>>::Do(ActionView::Run(after.strip()))
            &&& b.args.export_syms is Yes && !direct ==> after.phase == Phase::Share && step
                == StepView::<Seq<char>>::Do(ActionView::Run(after.share()))
            &&& b.args.export_syms is No ==> after.phase == Phase::Export && step == StepView::<
                Seq<char>,
            >::Do(
                ActionView::WriteFile {
                    path: under(b.work_dir(), "export_syms"@),
                    contents: Seq::empty(),
                },
            )
            &&& b.args.export_syms matches crate::args::ExportSymsView::List(path) ==> after.phase
                == Phase::Export && step == StepView::<Seq<char>>::Do(ActionView::ReadFile(path))
        }),
{
    crate::export_laws::what_is_exported_decides_the_list(b.export_input(), Reply::Begin);
}

/// The symbols that are edited are those of the partially linked module, with the tools and
/// the script that the build found, and its own working directory.
pub proof fn the_symbols_edited_are_those_of_the_module(b: BuildView)
    ensures
        b.export_input().object == b.kld(),
        b.export_input().tools == b.tools,
        b.export_input().sysdir == b.sysdir,
        b.export_input().work_dir == b.work_dir(),
        b.export_input().export_syms == b.args.export_syms,
{
}

/// What each program of a build is run on.
pub proof fn each_program_gets_the_files_of_the_build(b: BuildView)
    ensures
        b.cargo().args[2] == b.args.manifest_path,
        b.cargo().args[4] == b.target_json,
        b.cargo().args[10] == b.args.target_dir,
        b.extract().program == b.tools.llvm_ar,
        b.extract().args == seq!["x"@, b.library],
        b.extract().dir == Some(b.work_dir()),
        b.link().program == b.tools.rust_lld,
        b.link().args == seq!["-flavor"@, "gnu"@, "-m"@, b.emulation, "-warn-common"@, "-d"@] + (
        match b.ldscript {
            Some(path) => seq!["-T"@, path],
            None => Seq::empty(),
        }) + seq!["-r"@, "-o"@, b.kld()] + b.objects,
        b.localize().program == b.tools.llvm_objcopy,
        b.localize().args == b.export.flags.push(b.kld()),
        b.share().program == b.tools.rust_lld,
        b.share().args == seq!["-flavor"@, "gnu"@, "-m"@, b.emulation] + seq![
            "-Bshareable"@,
            "-znotext"@,
            "-znorelro"@,
        ] + seq!["-o"@, b.shared(), b.kld()],
        b.strip().program == b.tools.llvm_objcopy,
        b.strip().args == seq!["--strip-debug"@, b.linked()],
{
    crate::command_laws::the_compiler_is_told_what_was_asked_for(
        b.args,
        b.target_json,
        b.sysdir,
        b.rustflags,
    );
}

} // verus!
