//! The LLVM tools that come with the Rust toolchain and stand in for a FreeBSD
//! cross toolchain.

use crate::error::{Error, ErrorView};
use crate::host::{command, plain_command, Action, ActionView, Reply, Step, StepView};
use crate::path::{join, joined_path};
use crate::text::{
    after_prefix, from_utf8, lines, lines_of, push_text, strip_prefix, texts, trim, trimmed,
    utf8_problem, utf8_text, CharClass,
};
use vstd::prelude::*;

verus! {

/// Where the tools are.
#[derive(Debug)]
pub struct Toolchain {
    pub rust_lld: String,
    pub llvm_ar: String,
    pub llvm_nm: String,
    pub llvm_objcopy: String,
}

/// The contents of a [`Toolchain`].
pub ghost struct ToolchainView {
    pub rust_lld: Seq<char>,
    pub llvm_ar: Seq<char>,
    pub llvm_nm: Seq<char>,
    pub llvm_objcopy: Seq<char>,
}

impl View for Toolchain {
    type V = ToolchainView;

    open spec fn view(&self) -> ToolchainView {
        ToolchainView {
            rust_lld: self.rust_lld@,
            llvm_ar: self.llvm_ar@,
            llvm_nm: self.llvm_nm@,
            llvm_objcopy: self.llvm_objcopy@,
        }
    }
}

/// The rest of the first line that starts with `host: `.
pub open spec fn host_line(lines: Seq<Seq<char>>) -> Option<Seq<char>>
    decreases lines.len(),
{
    if lines.len() == 0 {
        None
    } else if after_prefix(lines[0], "host: "@) is Some {
        after_prefix(lines[0], "host: "@)
    } else {
        host_line(lines.drop_first())
    }
}

/// The host triple in the reply to `rustc -vV`.
pub open spec fn host_triple_of(reply: Reply) -> Result<Seq<char>, ErrorView> {
    match reply {
        Reply::Output { stdout, .. } => match utf8_text(stdout@) {
            None => Err(
                ErrorView::not_utf8("rustc -vV output not UTF-8"@, utf8_problem(stdout@)),
            ),
            Some(text) => match host_line(lines_of(text)) {
                None => Err(ErrorView::no_host_triple()),
                Some(host) => Ok(host),
            },
        },
        Reply::Failed(cause) => Err(ErrorView::failed("running `rustc -vV`"@, cause@)),
        _ => Err(ErrorView::unexpected_reply()),
    }
}

/// The directory in the reply to `rustc --print sysroot`.
pub open spec fn sysroot_of(reply: Reply) -> Result<Seq<char>, ErrorView> {
    match reply {
        Reply::Output { stdout, .. } => match utf8_text(stdout@) {
            None => Err(
                ErrorView::not_utf8("rustc --print sysroot not UTF-8"@, utf8_problem(stdout@)),
            ),
            Some(text) => Ok(trimmed(text, CharClass::Space)),
        },
        Reply::Failed(cause) => Err(
            ErrorView::failed("running `rustc --print sysroot`"@, cause@),
        ),
        _ => Err(ErrorView::unexpected_reply()),
    }
}

/// The contents of a text or an error.
pub open spec fn text_or_error(r: Result<String, Error>) -> Result<Seq<char>, ErrorView> {
    match r {
        Ok(s) => Ok(s@),
        Err(e) => Err(e@),
    }
}

/// The triple of the host, out of what `rustc -vV` prints. How `rustc` ended does
/// not matter.
pub fn host_triple(reply: &Reply) -> (r: Result<String, Error>)
    ensures
        text_or_error(r) == host_triple_of(*reply),
{
    match reply {
        Reply::Output { stdout, .. } => match from_utf8(stdout) {
            Err(problem) => Err(
                Error::not_utf8("rustc -vV output not UTF-8", problem.as_str()),
            ),
            Ok(text) => {
                let all = lines(text.as_str());
                let n: usize = all.len();
                assert(texts(all@).skip(0) =~= texts(all@));
                for i in 0..n
                    invariant
                        n == all@.len(),
                        texts(all@) == lines_of(text@),
                        host_line(texts(all@).skip(i as int)) == host_line(texts(all@)),
                        reply matches Reply::Output { stdout, .. } && utf8_text(stdout@) == Some(
                            text@,
                        ),
                {
                    let ghost rest = texts(all@).skip(i as int);
                    assert(rest[0] == all@[i as int]@);
                    assert(rest.drop_first() =~= texts(all@).skip(i + 1));
                    match strip_prefix(all[i].as_str(), "host: ") {
                        Some(host) => return Ok(host),
                        None => {},
                    }
                }
                assert(texts(all@).skip(n as int) =~= Seq::<Seq<char>>::empty());
                Err(Error::no_host_triple())
            },
        },
        Reply::Failed(cause) => Err(Error::failed("running `rustc -vV`", cause.as_str())),
        _ => Err(Error::unexpected_reply()),
    }
}

/// Where the Rust toolchain lies, out of what `rustc --print sysroot` prints.
pub fn rustc_sysroot(reply: &Reply) -> (r: Result<String, Error>)
    ensures
        text_or_error(r) == sysroot_of(*reply),
{
    match reply {
        Reply::Output { stdout, .. } => match from_utf8(stdout) {
            Err(problem) => Err(
                Error::not_utf8("rustc --print sysroot not UTF-8", problem.as_str()),
            ),
            Ok(text) => Ok(trim(text.as_str())),
        },
        Reply::Failed(cause) => Err(
            Error::failed("running `rustc --print sysroot`", cause.as_str()),
        ),
        _ => Err(Error::unexpected_reply()),
    }
}

/// How far [`Toolchain::discover`] has come.
#[derive(Clone, Copy, Debug, PartialEq, Eq, Structural)]
pub enum Stage {
    Start,
    /// It asked for the host triple.
    Host,
    /// It asked for the toolchain's directory.
    Sysroot,
    /// It asked whether a tool is there.
    Tool(Tool),
}

/// A tool, in the order in which they are looked for.
#[derive(Clone, Copy, Debug, PartialEq, Eq, Structural)]
pub enum Tool {
    RustLld,
    LlvmAr,
    LlvmNm,
    LlvmObjcopy,
}

/// A search for the tools.
#[derive(Debug)]
pub struct Discovery {
    pub stage: Stage,
    /// The host triple, once it is known.
    pub host: String,
    /// Where the tools have to be, once it is known.
    pub bin_dir: String,
}

/// The contents of a [`Discovery`].
pub ghost struct DiscoveryView {
    pub stage: Stage,
    pub host: Seq<char>,
    pub bin_dir: Seq<char>,
}

impl View for Discovery {
    type V = DiscoveryView;

    open spec fn view(&self) -> DiscoveryView {
        DiscoveryView { stage: self.stage, host: self.host@, bin_dir: self.bin_dir@ }
    }
}

pub open spec fn new_discovery() -> DiscoveryView {
    DiscoveryView { stage: Stage::Start, host: Seq::empty(), bin_dir: Seq::empty() }
}

/// A tool's file name.
pub open spec fn tool_name(tool: Tool) -> Seq<char> {
    match tool {
        Tool::RustLld => "rust-lld"@,
        Tool::LlvmAr => "llvm-ar"@,
        Tool::LlvmNm => "llvm-nm"@,
        Tool::LlvmObjcopy => "llvm-objcopy"@,
    }
}

/// The tool to look for after `tool`.
pub open spec fn next_tool(tool: Tool) -> Option<Tool> {
    match tool {
        Tool::RustLld => Some(Tool::LlvmAr),
        Tool::LlvmAr => Some(Tool::LlvmNm),
        Tool::LlvmNm => Some(Tool::LlvmObjcopy),
        Tool::LlvmObjcopy => None,
    }
}

/// Where the tools are in a toolchain for `host`.
pub open spec fn bin_dir_of(sysroot: Seq<char>, host: Seq<char>) -> Seq<char> {
    joined_path(joined_path(joined_path(sysroot, "lib/rustlib"@), host), "bin"@)
}

/// The four tools in `bin_dir`.
pub open spec fn toolchain_in(bin_dir: Seq<char>) -> ToolchainView {
    ToolchainView {
        rust_lld: joined_path(bin_dir, "rust-lld"@),
        llvm_ar: joined_path(bin_dir, "llvm-ar"@),
        llvm_nm: joined_path(bin_dir, "llvm-nm"@),
        llvm_objcopy: joined_path(bin_dir, "llvm-objcopy"@),
    }
}

/// How [`Toolchain::discover`] goes on from `at`.
pub open spec fn discover_step(at: DiscoveryView, reply: Reply) -> (
    DiscoveryView,
    StepView<ToolchainView>,
) {
    match at.stage {
        Stage::Start => (
            DiscoveryView { stage: Stage::Host, ..at },
            StepView::Do(ActionView::Capture(plain_command("rustc"@, seq!["-vV"@]))),
        ),
        Stage::Host => match host_triple_of(reply) {
            Err(e) => (at, StepView::Fail(e)),
            Ok(host) => (
                DiscoveryView { stage: Stage::Sysroot, host, ..at },
                StepView::Do(
                    ActionView::Capture(
                        plain_command("rustc"@, seq!["--print"@, "sysroot"@]),
                    ),
                ),
            ),
        },
        Stage::Sysroot => match sysroot_of(reply) {
            Err(e) => (at, StepView::Fail(e)),
            Ok(sysroot) => {
                let bin_dir = bin_dir_of(sysroot, at.host);
                (
                    DiscoveryView { stage: Stage::Tool(Tool::RustLld), bin_dir, ..at },
                    StepView::Do(
                        ActionView::Exists(joined_path(bin_dir, tool_name(Tool::RustLld))),
                    ),
                )
            },
        },
        Stage::Tool(tool) => match reply {
            Reply::Is(true) => match next_tool(tool) {
                Some(next) => (
                    DiscoveryView { stage: Stage::Tool(next), ..at },
                    StepView::Do(ActionView::Exists(joined_path(at.bin_dir, tool_name(next)))),
                ),
                None => (at, StepView::Done(toolchain_in(at.bin_dir))),
            },
            Reply::Is(false) => (
                at,
                StepView::Fail(
                    ErrorView::tool_missing(
                        tool_name(tool),
                        joined_path(at.bin_dir, tool_name(tool)),
                    ),
                ),
            ),
            _ => (at, StepView::Fail(ErrorView::unexpected_reply())),
        },
    }
}

impl Tool {
    /// The tool's file name.
    pub fn name(&self) -> (r: &'static str)
        ensures
            r@ == tool_name(*self),
    {
        match self {
            Tool::RustLld => "rust-lld",
            Tool::LlvmAr => "llvm-ar",
            Tool::LlvmNm => "llvm-nm",
            Tool::LlvmObjcopy => "llvm-objcopy",
        }
    }

    /// The tool to look for after this one.
    pub fn next(&self) -> (r: Option<Tool>)
        ensures
            r == next_tool(*self),
    {
        match self {
            Tool::RustLld => Some(Tool::LlvmAr),
            Tool::LlvmAr => Some(Tool::LlvmNm),
            Tool::LlvmNm => Some(Tool::LlvmObjcopy),
            Tool::LlvmObjcopy => None,
        }
    }
}

impl Discovery {
    /// A search that has not begun.
    pub fn new() -> (r: Discovery)
        ensures
            r@ == new_discovery(),
    {
        Discovery { stage: Stage::Start, host: String::new(), bin_dir: String::new() }
    }
}

impl Toolchain {
    /// Finds the tools of the Rust toolchain in use; the first one that is missing
    /// is an error. Resumable.
    pub fn discover(at: &mut Discovery, reply: &Reply) -> (r: Step<Toolchain>)
        ensures
            (final(at)@, r@) == discover_step(old(at)@, *reply),
    {
        match at.stage {
            Stage::Start => {
                at.stage = Stage::Host;
                let mut args: Vec<String> = Vec::new();
                push_text(&mut args, "-vV");
                assert(texts(args@) =~= seq!["-vV"@]);
                Step::Do(Action::Capture(command("rustc", args)))
            },
            Stage::Host => match host_triple(reply) {
                Err(e) => Step::Fail(e),
                Ok(host) => {
                    at.stage = Stage::Sysroot;
                    at.host = host;
                    let mut args: Vec<String> = Vec::new();
                    push_text(&mut args, "--print");
                    push_text(&mut args, "sysroot");
                    assert(texts(args@) =~= seq!["--print"@, "sysroot"@]);
                    Step::Do(Action::Capture(command("rustc", args)))
                },
            },
            Stage::Sysroot => match rustc_sysroot(reply) {
                Err(e) => Step::Fail(e),
                Ok(sysroot) => {
                    let lib = join(sysroot.as_str(), "lib/rustlib");
                    at.bin_dir = join(join(lib.as_str(), at.host.as_str()).as_str(), "bin");
                    at.stage = Stage::Tool(Tool::RustLld);
                    Step::Do(Action::Exists(join(at.bin_dir.as_str(), Tool::RustLld.name())))
                },
            },
            Stage::Tool(tool) => match reply {
                Reply::Is(true) => match tool.next() {
                    Some(next) => {
                        at.stage = Stage::Tool(next);
                        Step::Do(Action::Exists(join(at.bin_dir.as_str(), next.name())))
                    },
                    None => Step::Done(
                        Toolchain {
                            rust_lld: join(at.bin_dir.as_str(), "rust-lld"),
                            llvm_ar: join(at.bin_dir.as_str(), "llvm-ar"),
                            llvm_nm: join(at.bin_dir.as_str(), "llvm-nm"),
                            llvm_objcopy: join(at.bin_dir.as_str(), "llvm-objcopy"),
                        },
                    ),
                },
                Reply::Is(false) => Step::Fail(
                    Error::tool_missing(
                        tool.name(),
                        join(at.bin_dir.as_str(), tool.name()).as_str(),
                    ),
                ),
                _ => Step::Fail(Error::unexpected_reply()),
            },
        }
    }
}

} // verus!
