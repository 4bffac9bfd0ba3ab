//! Finding the `sys/` directory of a FreeBSD source tree.

use crate::error::{quoted_path, quoted_path_text, Error, ErrorView};
use crate::host::{Action, ActionView, Reply, Step, StepView};
use crate::path::{join, joined_path};
use crate::text::cat2;
use vstd::prelude::*;

verus! {

/// How far [`resolve_sysdir`] has come.
#[derive(Clone, Copy, Debug, PartialEq, Eq, Structural)]
pub enum SysdirSearch {
    Start,
    /// It asked whether the directory is the one.
    Direct,
    /// It asked whether its `sys/` is the one.
    Nested,
    /// It asked for the directory in absolute form.
    FoundDirect,
    /// It asked for the directory's `sys/` in absolute form.
    FoundNested,
}

/// What comes of the reply to `Canonicalize` for the directory `candidate`.
pub open spec fn canonical_step(candidate: Seq<char>, reply: Reply) -> StepView<Seq<char>> {
    match reply {
        Reply::Text(path) => StepView::Done(path@),
        Reply::Failed(cause) => StepView::Fail(
            ErrorView::failed("canonicalizing "@ + quoted_path_text(candidate), cause@),
        ),
        _ => StepView::Fail(ErrorView::unexpected_reply()),
    }
}

/// How [`resolve_sysdir`] goes on from `at`.
pub open spec fn sysdir_step(at: SysdirSearch, p: Seq<char>, reply: Reply) -> (
    SysdirSearch,
    StepView<Seq<char>>,
) {
    let nested = joined_path(p, "sys"@);
    match (at, reply) {
        (SysdirSearch::Start, _) => (
            SysdirSearch::Direct,
            StepView::Do(ActionView::Exists(joined_path(p, "conf/kmod.mk"@))),
        ),
        (SysdirSearch::Direct, Reply::Is(true)) => (
            SysdirSearch::FoundDirect,
            StepView::Do(ActionView::Canonicalize(p)),
        ),
        (SysdirSearch::Direct, Reply::Is(false)) => (
            SysdirSearch::Nested,
            StepView::Do(ActionView::Exists(joined_path(p, "sys/conf/kmod.mk"@))),
        ),
        (SysdirSearch::Nested, Reply::Is(true)) => (
            SysdirSearch::FoundNested,
            StepView::Do(ActionView::Canonicalize(nested)),
        ),
        (SysdirSearch::Nested, Reply::Is(false)) => (
            at,
            StepView::Fail(ErrorView::not_a_source_tree(p)),
        ),
        (SysdirSearch::FoundDirect, _) => (at, canonical_step(p, reply)),
        (SysdirSearch::FoundNested, _) => (at, canonical_step(nested, reply)),
        _ => (at, StepView::Fail(ErrorView::unexpected_reply())),
    }
}

/// Ends the search with the absolute form of `candidate`.
fn canonical(candidate: &str, reply: &Reply) -> (r: Step<String>)
    ensures
        r@ == canonical_step(candidate@, *reply),
{
    match reply {
        Reply::Text(path) => Step::Done(path.clone()),
        Reply::Failed(cause) => Step::Fail(
            Error::failed(
                cat2("canonicalizing ", quoted_path(candidate).as_str()).as_str(),
                cause.as_str(),
            ),
        ),
        _ => Step::Fail(Error::unexpected_reply()),
    }
}

/// The `sys/` directory of the source tree `p`, in absolute form: `p` itself where
/// it holds `conf/kmod.mk`, and else its subdirectory `sys` where that does.
/// Resumable.
pub fn resolve_sysdir(at: &mut SysdirSearch, p: &str, reply: &Reply) -> (r: Step<String>)
    ensures
        (*final(at), r@) == sysdir_step(*old(at), p@, *reply),
{
    match (*at, reply) {
        (SysdirSearch::Start, _) => {
            *at = SysdirSearch::Direct;
            Step::Do(Action::Exists(join(p, "conf/kmod.mk")))
        },
        (SysdirSearch::Direct, Reply::Is(true)) => {
            *at = SysdirSearch::FoundDirect;
            Step::Do(Action::Canonicalize(p.to_owned()))
        },
        (SysdirSearch::Direct, Reply::Is(false)) => {
            *at = SysdirSearch::Nested;
            Step::Do(Action::Exists(join(p, "sys/conf/kmod.mk")))
        },
        (SysdirSearch::Nested, Reply::Is(true)) => {
            *at = SysdirSearch::FoundNested;
            Step::Do(Action::Canonicalize(join(p, "sys")))
        },
        (SysdirSearch::Nested, Reply::Is(false)) => Step::Fail(Error::not_a_source_tree(p)),
        (SysdirSearch::FoundDirect, _) => canonical(p, reply),
        (SysdirSearch::FoundNested, _) => canonical(join(p, "sys").as_str(), reply),
        _ => Step::Fail(Error::unexpected_reply()),
    }
}

/// The root of a source tree may be given in place of its `sys/` directory: where the
/// root itself is no such directory, both ask for the same file, and both end with
/// the same directory.
pub proof fn root_stands_for_its_sys(root: Seq<char>, r: Reply)
    ensures
        ({
            let sys = joined_path(root, "sys"@);
            let (s1, _) = sysdir_step(SysdirSearch::Start, root, Reply::Begin);
            let (s2, of_root) = sysdir_step(s1, root, Reply::Is(false));
            let (s3, by_root) = sysdir_step(s2, root, Reply::Is(true));
            let (d1, of_sys) = sysdir_step(SysdirSearch::Start, sys, Reply::Begin);
            let (d2, by_sys) = sysdir_step(d1, sys, Reply::Is(true));
            &&& of_root == of_sys
            &&& by_root == by_sys
            &&& sysdir_step(s3, root, r).1 == sysdir_step(d2, sys, r).1
        }),
{
    reveal_strlit("sys");
    reveal_strlit("/");
    reveal_strlit("conf/kmod.mk");
    reveal_strlit("sys/conf/kmod.mk");
    assert("sys/conf/kmod.mk"@ =~= "sys"@ + "/"@ + "conf/kmod.mk"@);
    assert(joined_path(joined_path(root, "sys"@), "conf/kmod.mk"@) =~= joined_path(
        root,
        "sys/conf/kmod.mk"@,
    ));
}

} // verus!
