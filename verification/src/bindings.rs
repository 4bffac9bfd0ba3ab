//! What the binding generator is told of the kernel headers of a source tree.

use crate::host::env_texts;
use crate::machine::{is_supported, target_name_of};
use crate::path::{join, joined_path};
use crate::path_laws::{a_relative_path_goes_under_its_base, lemma_under, under};
use crate::text::{cat2, cat3, push_text, same, texts};
use vstd::prelude::*;

verus! {

/// The machine whose headers are bound where none is named.
pub const DEFAULT_MACHINE: &'static str = "amd64";

/// The directories of the tree that a machine's headers refer to by name, beyond
/// `machine` itself (`_ILINKS` in `sys/conf/kmod.mk`).
pub open spec fn arch_links_of(machine: Seq<char>) -> Seq<Seq<char>> {
    if machine == "amd64"@ {
        seq!["x86"@, "i386"@]
    } else if machine == "i386"@ {
        seq!["x86"@]
    } else {
        Seq::empty()
    }
}

/// The target that the headers of a machine are parsed for.
pub open spec fn clang_target_of(machine: Seq<char>) -> Option<Seq<char>> {
    if machine == "amd64"@ {
        Some("x86_64-unknown-freebsd14"@)
    } else if machine == "arm64"@ {
        Some("aarch64-unknown-freebsd14"@)
    } else if machine == "i386"@ {
        Some("i386-unknown-freebsd14"@)
    } else {
        None
    }
}

/// Where the headers of the directory `part` of a source tree are.
pub open spec fn headers_of(sysdir: Seq<char>, part: Seq<char>) -> Seq<char> {
    joined_path(joined_path(sysdir, part), "include"@)
}

/// The links that make the headers of a machine find each other: a name, and what it
/// stands for.
pub open spec fn header_links_of(machine: Seq<char>, sysdir: Seq<char>) -> Seq<
    (Seq<char>, Seq<char>),
> {
    let links = arch_links_of(machine);
    seq![("machine"@, headers_of(sysdir, machine))] + Seq::new(
        links.len(),
        |i: int| (links[i], headers_of(sysdir, links[i])),
    )
}

/// The arguments that the headers are parsed with.
pub open spec fn clang_args_of(
    target: Seq<char>,
    links_dir: Seq<char>,
    sysdir: Seq<char>,
) -> Seq<Seq<char>> {
    seq![
        "--target="@ + target,
        "-D_KERNEL"@,
        "-DKLD_MODULE"@,
        "-nostdinc"@,
        "-I"@ + links_dir,
        "-I"@ + sysdir,
        "-I"@ + sysdir + "/contrib/ck/include"@,
        "-fno-builtin"@,
        "-D__BSD_VISIBLE=1"@,
    ]
}

/// The directories of the tree that a machine's headers refer to by name, beyond
/// `machine` itself.
pub fn arch_links(machine: &str) -> (r: Vec<String>)
    ensures
        texts(r@) == arch_links_of(machine@),
{
    let mut links: Vec<String> = Vec::new();
    assert(texts(links@) =~= Seq::<Seq<char>>::empty());
    if same(machine, "amd64") {
        push_text(&mut links, "x86");
        push_text(&mut links, "i386");
    } else if same(machine, "i386") {
        push_text(&mut links, "x86");
    }
    links
}

/// The target that the headers of a machine are parsed for; `None` for a machine
/// that has none.
pub fn clang_target_triple(machine: &str) -> (r: Option<&'static str>)
    ensures
        match r {
            Some(target) => clang_target_of(machine@) == Some(target@),
            None => clang_target_of(machine@) is None,
        },
{
    if same(machine, "amd64") {
        Some("x86_64-unknown-freebsd14")
    } else if same(machine, "arm64") {
        Some("aarch64-unknown-freebsd14")
    } else if same(machine, "i386") {
        Some("i386-unknown-freebsd14")
    } else {
        None
    }
}

fn headers(sysdir: &str, part: &str) -> (r: String)
    ensures
        r@ == headers_of(sysdir@, part@),
{
    join(join(sysdir, part).as_str(), "include")
}

/// The links that make the headers of a machine find each other: a name, and what it
/// stands for.
pub fn header_links(machine: &str, sysdir: &str) -> (r: Vec<(String, String)>)
    ensures
        env_texts(r@) == header_links_of(machine@, sysdir@),
{
    let names = arch_links(machine);
    let ghost list = arch_links_of(machine@);
    let mut links: Vec<(String, String)> = Vec::new();
    links.push(("machine".to_owned(), headers(sysdir, machine)));
    let mut i: usize = 0;
    while i < names.len()
        invariant
            i <= names.len(),
            texts(names@) == list,
            links.len() == i + 1,
            links[0].0@ == "machine"@,
            links[0].1@ == headers_of(sysdir@, machine@),
            forall|j: int|
                0 <= j < i ==> (#[trigger] links[j + 1]).0@ == list[j] && links[j + 1].1@
                    == headers_of(sysdir@, list[j]),
        decreases names.len() - i,
    {
        assert(list[i as int] == names[i as int]@);
        links.push((names[i].clone(), headers(sysdir, names[i].as_str())));
        i += 1;
    }
    assert(list.len() == names.len());
    assert(env_texts(links@) =~= header_links_of(machine@, sysdir@)) by {
        assert forall|k: int| 0 < k < links.len() implies env_texts(links@)[k] == (
            list[k - 1],
            headers_of(sysdir@, list[k - 1]),
        ) by {
            assert(links[(k - 1) + 1].0@ == list[k - 1]);
        }
    }
    links
}

/// The arguments that the headers are parsed with.
pub fn clang_args(target: &str, links_dir: &str, sysdir: &str) -> (r: Vec<String>)
    ensures
        texts(r@) == clang_args_of(target@, links_dir@, sysdir@),
{
    let mut args: Vec<String> = Vec::new();
    assert(texts(args@) =~= Seq::<Seq<char>>::empty());
    push_text(&mut args, cat2("--target=", target).as_str());
    push_text(&mut args, "-D_KERNEL");
    push_text(&mut args, "-DKLD_MODULE");
    push_text(&mut args, "-nostdinc");
    push_text(&mut args, cat2("-I", links_dir).as_str());
    push_text(&mut args, cat2("-I", sysdir).as_str());
    push_text(&mut args, cat3("-I", sysdir, "/contrib/ck/include").as_str());
    push_text(&mut args, "-fno-builtin");
    push_text(&mut args, "-D__BSD_VISIBLE=1");
    args
}

/// Every machine that modules are built for has headers that can be bound.
pub proof fn every_supported_machine_has_bindings(machine: Seq<char>)
    requires
        is_supported(machine),
    ensures
        clang_target_of(machine) is Some,
        target_name_of(machine) is Some,
{
}

/// What a machine's headers refer to by name, and what they are parsed for.
pub proof fn the_headers_of_a_machine(machine: Seq<char>)
    ensures
        machine == "amd64"@ ==> {
            &&& arch_links_of(machine) == seq!["x86"@, "i386"@]
            &&& clang_target_of(machine) == Some("x86_64-unknown-freebsd14"@)
        },
        machine == "arm64"@ ==> {
            &&& arch_links_of(machine).len() == 0
            &&& clang_target_of(machine) == Some("aarch64-unknown-freebsd14"@)
        },
        machine == "i386"@ ==> {
            &&& arch_links_of(machine) == seq!["x86"@]
            &&& clang_target_of(machine) == Some("i386-unknown-freebsd14"@)
        },
        machine != "amd64"@ && machine != "arm64"@ && machine != "i386"@ ==> {
            &&& arch_links_of(machine).len() == 0
            &&& clang_target_of(machine) is None
        },
{
    reveal_strlit("amd64");
    reveal_strlit("arm64");
    reveal_strlit("i386");
    assert("amd64"@[1] != "arm64"@[1]);
    assert("amd64"@.len() != "i386"@.len());
    assert("arm64"@.len() != "i386"@.len());
}

/// The headers that `machine` stands for are those of the machine, and each other name
/// stands for the headers of its own directory, in the same tree.
pub proof fn each_name_stands_for_its_headers(machine: Seq<char>, sysdir: Seq<char>)
    requires
        machine == "amd64"@ || machine == "arm64"@,
    ensures
        machine == "amd64"@ ==> header_links_of(machine, sysdir) == seq![
            ("machine"@, under(sysdir, "amd64/include"@)),
            ("x86"@, under(sysdir, "x86/include"@)),
            ("i386"@, under(sysdir, "i386/include"@)),
        ],
        machine == "arm64"@ ==> header_links_of(machine, sysdir) == seq![
            ("machine"@, under(sysdir, "arm64/include"@)),
        ],
{
    the_headers_of_a_machine(machine);
    reveal_strlit("amd64");
    reveal_strlit("arm64");
    reveal_strlit("x86");
    reveal_strlit("i386");
    reveal_strlit("include");
    reveal_strlit("amd64/include");
    reveal_strlit("arm64/include");
    reveal_strlit("x86/include");
    reveal_strlit("i386/include");
    assert("amd64"@[1] != "arm64"@[1]);
    lemma_headers(sysdir, "amd64"@);
    lemma_headers(sysdir, "arm64"@);
    lemma_headers(sysdir, "x86"@);
    lemma_headers(sysdir, "i386"@);
    assert("amd64"@ + seq!['/'] + "include"@ =~= "amd64/include"@);
    assert("arm64"@ + seq!['/'] + "include"@ =~= "arm64/include"@);
    assert("x86"@ + seq!['/'] + "include"@ =~= "x86/include"@);
    assert("i386"@ + seq!['/'] + "include"@ =~= "i386/include"@);
}

/// As [`each_name_stands_for_its_headers`], for any machine: there is a link for the machine
/// and for each directory that its headers refer to, in that order, and no other.
pub proof fn there_is_a_link_for_each_name(machine: Seq<char>, sysdir: Seq<char>)
    requires
        machine.len() > 0,
        machine[0] != '/',
        machine.last() != '/',
    ensures
        ({
            let names = arch_links_of(machine);
            let links = header_links_of(machine, sysdir);
            &&& links.len() == names.len() + 1
            &&& links[0] == ("machine"@, under(sysdir, machine + "/include"@))
            &&& forall|i: int|
                0 <= i < names.len() ==> links[i + 1] == (
                    #[trigger] names[i],
                    under(sysdir, names[i] + "/include"@),
                )
        }),
{
    let names = arch_links_of(machine);
    let links = header_links_of(machine, sysdir);
    reveal_strlit("x86");
    reveal_strlit("i386");
    reveal_strlit("include");
    reveal_strlit("/include");
    lemma_headers(sysdir, machine);
    assert(machine + seq!['/'] + "include"@ =~= machine + "/include"@);
    assert forall|i: int| 0 <= i < names.len() implies links[i + 1] == (
        #[trigger] names[i],
        under(sysdir, names[i] + "/include"@),
    ) by {
        assert(names[i] == "x86"@ || names[i] == "i386"@);
        lemma_headers(sysdir, names[i]);
        assert(names[i] + seq!['/'] + "include"@ =~= names[i] + "/include"@);
    }
}

proof fn lemma_headers(sysdir: Seq<char>, part: Seq<char>)
    requires
        part.len() > 0,
        part[0] != '/',
        part.last() != '/',
    ensures
        headers_of(sysdir, part) == under(sysdir, part + seq!['/'] + "include"@),
{
    reveal_strlit("include");
    a_relative_path_goes_under_its_base(sysdir, part);
    a_relative_path_goes_under_its_base(under(sysdir, part), "include"@);
    lemma_under(sysdir, part, "include"@);
}

/// The headers are parsed as those of the kernel and of a module, for the target, out of the
/// links and the tree given and nothing else.
pub proof fn headers_are_parsed_as_the_kernel_s(
    target: Seq<char>,
    links_dir: Seq<char>,
    sysdir: Seq<char>,
)
    ensures
        ({
            let args = clang_args_of(target, links_dir, sysdir);
            &&& args.len() == 9
            &&& args[0] == "--target="@ + target
            &&& args[1] == "-D_KERNEL"@
            &&& args[2] == "-DKLD_MODULE"@
            &&& args[3] == "-nostdinc"@
            &&& args[4] == "-I"@ + links_dir
            &&& args[5] == "-I"@ + sysdir
            &&& args[6] == "-I"@ + sysdir + "/contrib/ck/include"@
            &&& args[7] == "-fno-builtin"@
            &&& args[8] == "-D__BSD_VISIBLE=1"@
        }),
{
}

} // verus!
