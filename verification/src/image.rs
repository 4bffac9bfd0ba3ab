//! The VM image: where it comes from, where it is kept, and how it gets there.

use crate::error::{quoted_path, quoted_path_text, Error, ErrorView};
use crate::host::{
    ack, ack_error, command, plain_command, Action, ActionView, Command, CommandView, Reply, Step,
    StepView,
};
use crate::machine::is_supported;
use crate::path::{
    extension, extension_of, file_name, is_plain, join, joined_path, lemma_after_last, name_of,
    with_extension, with_extension_of,
};
use crate::text::{after_last, cat2, cat3, cat4, opt_text, push_text, rest_after_last, same, texts};
use vstd::prelude::*;

verus! {

/// Where images are kept where the user does not say: under the user's cache
/// directory, given by `XDG_CACHE_HOME` or else by `HOME`.
pub open spec fn cache_dir_of(xdg: Option<Seq<char>>, home: Option<Seq<char>>) -> Seq<char> {
    match xdg {
        Some(dir) => joined_path(dir, "opendarwin-kbuild"@),
        None => match home {
            Some(dir) => joined_path(joined_path(dir, ".cache"@), "opendarwin-kbuild"@),
            None => ".kbuild-cache"@,
        },
    }
}

/// Where images are kept where the user does not say, given the variables
/// `XDG_CACHE_HOME` and `HOME`.
pub fn default_cache_dir(xdg: &Option<String>, home: &Option<String>) -> (r: String)
    ensures
        r@ == cache_dir_of(opt_text(*xdg), opt_text(*home)),
{
    match xdg {
        Some(dir) => join(dir.as_str(), "opendarwin-kbuild"),
        None => match home {
            Some(dir) => join(join(dir.as_str(), ".cache").as_str(), "opendarwin-kbuild"),
            None => ".kbuild-cache".to_owned(),
        },
    }
}

/// The default image for `arm64`.
pub const ARM64_IMAGE: &'static str = "https://download.freebsd.org/releases/VM-IMAGES/15.1-RELEASE/aarch64/Latest/FreeBSD-15.1-RELEASE-arm64-aarch64-zfs.qcow2.xz";

/// The default image for `amd64`.
pub const AMD64_IMAGE: &'static str = "https://download.freebsd.org/releases/VM-IMAGES/15.1-RELEASE/amd64/Latest/FreeBSD-15.1-RELEASE-amd64-zfs.qcow2.xz";

/// The default image for a machine. It is that of a numbered release, whose
/// `__FreeBSD_version` stays what it is: a module built for it keeps loading.
pub open spec fn image_url_of(machine: Seq<char>) -> Seq<char> {
    if machine == "arm64"@ {
        ARM64_IMAGE@
    } else {
        AMD64_IMAGE@
    }
}

/// The default image for a machine.
pub fn default_image_url(machine: &str) -> (r: &'static str)
    requires
        is_supported(machine@),
    ensures
        r@ == image_url_of(machine@),
{
    if same(machine, "arm64") {
        ARM64_IMAGE
    } else {
        AMD64_IMAGE
    }
}

/// How far [`download_cached`] has come.
#[derive(Clone, Copy, Debug, PartialEq, Eq, Structural)]
pub enum Fetch {
    Start,
    /// It asked whether the file is there.
    Look,
    /// It said that it is.
    Cached,
    /// It said that it will be downloaded.
    Announce,
    /// It had a client made.
    Client,
    /// It had the document requested.
    Request,
    /// It had the unfinished file created.
    Create,
    /// It had a part of the document received.
    Receive,
    /// It had that part appended to the unfinished file.
    Append,
    /// It had the file given its name.
    Rename,
}

/// Where a document is kept: under the last part of its address.
pub open spec fn download_path(url: Seq<char>, cache_dir: Seq<char>) -> Seq<char> {
    joined_path(cache_dir, after_last(url, '/'))
}

/// Whether a file is called `*.part`.
pub open spec fn is_part(path: Seq<char>) -> bool {
    name_of(path) matches Some(name) && extension_of(name) == Some("part"@)
}

/// Where a download stands while it is unfinished: never under the name of the
/// finished file.
pub open spec fn unfinished(dest: Seq<char>) -> Seq<char> {
    with_extension_of(
        dest,
        if is_part(dest) {
            "part.part"@
        } else {
            "part"@
        },
    )
}

/// What is said of a file being renamed.
pub open spec fn renaming(from: Seq<char>, to: Seq<char>) -> Seq<char> {
    "renaming "@ + quoted_path_text(from) + " to "@ + quoted_path_text(to)
}

/// How [`download_cached`] goes on from `at`.
pub open spec fn fetch_step(
    at: Fetch,
    url: Seq<char>,
    cache_dir: Seq<char>,
    fresh: bool,
    reply: Reply,
) -> (Fetch, StepView<Seq<char>>) {
    let dest = download_path(url, cache_dir);
    let part = unfinished(dest);
    match at {
        Fetch::Start => if is_plain(after_last(url, '/')) {
            (Fetch::Look, StepView::Do(ActionView::Exists(dest)))
        } else {
            (at, StepView::Fail(ErrorView::no_path_component()))
        },
        Fetch::Look => match reply {
            Reply::Is(there) => if there && !fresh {
                (
                    Fetch::Cached,
                    StepView::Do(ActionView::Say("cargo-kbuild: using cached "@ + dest)),
                )
            } else {
                (
                    Fetch::Announce,
                    StepView::Do(ActionView::Say("cargo-kbuild: downloading "@ + url)),
                )
            },
            _ => (at, StepView::Fail(ErrorView::unexpected_reply())),
        },
        Fetch::Cached => (at, StepView::Done(dest)),
        Fetch::Announce => (Fetch::Client, StepView::Do(ActionView::MakeClient)),
        Fetch::Client => match ack_error(reply, "building HTTP client"@) {
            Some(e) => (at, StepView::Fail(e)),
            None => (Fetch::Request, StepView::Do(ActionView::Get(url))),
        },
        Fetch::Request => match ack_error(reply, "GET "@ + url) {
            Some(e) => (at, StepView::Fail(e)),
            None => (Fetch::Create, StepView::Do(ActionView::CreateFile(part))),
        },
        Fetch::Create => match ack_error(reply, "creating "@ + quoted_path_text(part)) {
            Some(e) => (at, StepView::Fail(e)),
            None => (Fetch::Receive, StepView::Do(ActionView::Receive)),
        },
        Fetch::Receive => match reply {
            Reply::Size(n) => if n == 0 {
                (Fetch::Rename, StepView::Do(ActionView::Rename { from: part, to: dest }))
            } else {
                (Fetch::Append, StepView::Do(ActionView::Append(part)))
            },
            Reply::Failed(cause) => (
                at,
                StepView::Fail(ErrorView::failed("reading download stream"@, cause@)),
            ),
            _ => (at, StepView::Fail(ErrorView::unexpected_reply())),
        },
        Fetch::Append => match ack_error(reply, "writing download"@) {
            Some(e) => (at, StepView::Fail(e)),
            None => (Fetch::Receive, StepView::Do(ActionView::Receive)),
        },
        Fetch::Rename => match ack_error(reply, renaming(part, dest)) {
            Some(e) => (at, StepView::Fail(e)),
            None => (at, StepView::Done(dest)),
        },
    }
}

/// Whether a text names an entry of a directory.
fn names_a_file(name: &str) -> (r: bool)
    requires
        !name@.contains('/'),
    ensures
        r == is_plain(name@),
{
    proof {
        reveal_strlit("");
        reveal_strlit(".");
        reveal_strlit("..");
        assert("."@ =~= seq!['.']);
        assert(".."@ =~= seq!['.', '.']);
        assert(name@.len() == 0 ==> name@ =~= ""@);
    }
    !same(name, "") && !same(name, ".") && !same(name, "..")
}

/// Where a download stands while it is unfinished.
fn unfinished_path(dest: &str) -> (r: String)
    ensures
        r@ == unfinished(dest@),
{
    let is_part = match file_name(dest) {
        Some(name) => match extension(name.as_str()) {
            Some(ext) => same(ext.as_str(), "part"),
            None => false,
        },
        None => false,
    };
    if is_part {
        with_extension(dest, "part.part")
    } else {
        with_extension(dest, "part")
    }
}

/// What is said of a file being renamed.
fn say_renaming(from: &str, to: &str) -> (r: String)
    ensures
        r@ == renaming(from@, to@),
{
    cat4("renaming ", quoted_path(from).as_str(), " to ", quoted_path(to).as_str())
}

/// Has the document at `url` in `cache_dir`, downloading it where it is not there
/// or `fresh` is set. It is downloaded to a file of another name, which gets its own
/// only when it is complete. An address that ends in no file name is refused.
/// Resumable.
pub fn download_cached(
    at: &mut Fetch,
    url: &str,
    cache_dir: &str,
    fresh: bool,
    reply: &Reply,
) -> (r: Step<String>)
    ensures
        (*final(at), r@) == fetch_step(*old(at), url@, cache_dir@, fresh, *reply),
{
    let filename = rest_after_last(url, '/');
    let dest = join(cache_dir, filename.as_str());
    let part = unfinished_path(dest.as_str());
    match *at {
        Fetch::Start => {
            proof {
                lemma_after_last(url@, '/');
            }
            if !names_a_file(filename.as_str()) {
                return Step::Fail(Error::no_path_component());
            }
            *at = Fetch::Look;
            Step::Do(Action::Exists(dest))
        },
        Fetch::Look => match reply {
            Reply::Is(there) => {
                if *there && !fresh {
                    *at = Fetch::Cached;
                    Step::Do(Action::Say(cat2("cargo-kbuild: using cached ", dest.as_str())))
                } else {
                    *at = Fetch::Announce;
                    Step::Do(Action::Say(cat2("cargo-kbuild: downloading ", url)))
                }
            },
            _ => Step::Fail(Error::unexpected_reply()),
        },
        Fetch::Cached => Step::Done(dest),
        Fetch::Announce => {
            *at = Fetch::Client;
            Step::Do(Action::MakeClient)
        },
        Fetch::Client => match ack(reply, "building HTTP client") {
            Err(e) => Step::Fail(e),
            Ok(_) => {
                *at = Fetch::Request;
                Step::Do(Action::Get(url.to_owned()))
            },
        },
        Fetch::Request => match ack(reply, cat2("GET ", url).as_str()) {
            Err(e) => Step::Fail(e),
            Ok(_) => {
                *at = Fetch::Create;
                Step::Do(Action::CreateFile(part))
            },
        },
        Fetch::Create => match ack(
            reply,
            cat2("creating ", quoted_path(part.as_str()).as_str()).as_str(),
        ) {
            Err(e) => Step::Fail(e),
            Ok(_) => {
                *at = Fetch::Receive;
                Step::Do(Action::Receive)
            },
        },
        Fetch::Receive => match reply {
            Reply::Size(n) => {
                if *n == 0 {
                    *at = Fetch::Rename;
                    Step::Do(Action::Rename { from: part, to: dest })
                } else {
                    *at = Fetch::Append;
                    Step::Do(Action::Append(part))
                }
            },
            Reply::Failed(cause) => Step::Fail(
                Error::failed("reading download stream", cause.as_str()),
            ),
            _ => Step::Fail(Error::unexpected_reply()),
        },
        Fetch::Append => match ack(reply, "writing download") {
            Err(e) => Step::Fail(e),
            Ok(_) => {
                *at = Fetch::Receive;
                Step::Do(Action::Receive)
            },
        },
        Fetch::Rename => match ack(
            reply,
            say_renaming(part.as_str(), dest.as_str()).as_str(),
        ) {
            Err(e) => Step::Fail(e),
            Ok(_) => Step::Done(dest),
        },
    }
}

/// How far [`decompress_cached`] has come.
#[derive(Clone, Copy, Debug, PartialEq, Eq, Structural)]
pub enum Unpack {
    Start,
    /// It asked whether the file is there.
    Look,
    /// It said that it will be decompressed.
    Announce,
    /// It had the unfinished file created.
    Create,
    /// It had the image decompressed there.
    Run,
    /// It had the file given its name.
    Rename,
}

/// Where a decompressed image is kept: next to the compressed one.
pub open spec fn unpacked_path(xz_path: Seq<char>) -> Seq<char> {
    with_extension_of(xz_path, ""@)
}

/// Where a decompressed image stands while it is unfinished: under a name that is
/// neither its own nor that of the compressed image.
pub open spec fn half_unpacked(xz_path: Seq<char>) -> Seq<char> {
    let dest = unpacked_path(xz_path);
    let part = with_extension_of(dest, "qcow2.part"@);
    if part == xz_path {
        with_extension_of(dest, "qcow2.part.part"@)
    } else {
        part
    }
}

/// Decompresses an image to standard output.
pub open spec fn xz_command_of(xz_path: Seq<char>) -> CommandView {
    plain_command("xz"@, seq!["-dc"@, "-T0"@, xz_path])
}

/// How [`decompress_cached`] goes on from `at`.
pub open spec fn unpack_step(at: Unpack, xz_path: Seq<char>, fresh: bool, reply: Reply) -> (
    Unpack,
    StepView<Seq<char>>,
) {
    let dest = unpacked_path(xz_path);
    let part = half_unpacked(xz_path);
    match at {
        Unpack::Start => (Unpack::Look, StepView::Do(ActionView::Exists(dest))),
        Unpack::Look => match reply {
            Reply::Is(there) => if there && !fresh {
                (at, StepView::Done(dest))
            } else {
                (
                    Unpack::Announce,
                    StepView::Do(
                        ActionView::Say(
                            "cargo-kbuild: decompressing "@ + xz_path
                                + " (this only happens once)"@,
                        ),
                    ),
                )
            },
            _ => (at, StepView::Fail(ErrorView::unexpected_reply())),
        },
        Unpack::Announce => (Unpack::Create, StepView::Do(ActionView::CreateFile(part))),
        Unpack::Create => match ack_error(reply, "creating "@ + quoted_path_text(part)) {
            Some(e) => (at, StepView::Fail(e)),
            None => (
                Unpack::Run,
                StepView::Do(
                    ActionView::RunInto { command: xz_command_of(xz_path), path: part },
                ),
            ),
        },
        Unpack::Run => match reply {
            Reply::Exit { success, status } => if success {
                (Unpack::Rename, StepView::Do(ActionView::Rename { from: part, to: dest }))
            } else {
                (at, StepView::Fail(ErrorView::xz_failed(xz_path, status@)))
            },
            Reply::Failed(cause) => (
                at,
                StepView::Fail(ErrorView::failed("running `xz -dc`"@, cause@)),
            ),
            _ => (at, StepView::Fail(ErrorView::unexpected_reply())),
        },
        Unpack::Rename => match ack_error(reply, renaming(part, dest)) {
            Some(e) => (at, StepView::Fail(e)),
            None => (at, StepView::Done(dest)),
        },
    }
}

/// Decompresses an image to standard output.
fn xz_command(xz_path: &str) -> (r: Command)
    ensures
        r@ == xz_command_of(xz_path@),
{
    let mut args: Vec<String> = Vec::new();
    push_text(&mut args, "-dc");
    push_text(&mut args, "-T0");
    push_text(&mut args, xz_path);
    assert(texts(args@) =~= seq!["-dc"@, "-T0"@, xz_path@]);
    command("xz", args)
}

/// Has the image decompressed next to the compressed one, decompressing it where
/// that is not there or `fresh` is set, in the manner of [`download_cached`].
/// Resumable.
pub fn decompress_cached(
    at: &mut Unpack,
    xz_path: &str,
    fresh: bool,
    reply: &Reply,
) -> (r: Step<String>)
    ensures
        (*final(at), r@) == unpack_step(*old(at), xz_path@, fresh, *reply),
{
    let dest = with_extension(xz_path, "");
    let mut part = with_extension(dest.as_str(), "qcow2.part");
    if same(part.as_str(), xz_path) {
        part = with_extension(dest.as_str(), "qcow2.part.part");
    }
    match *at {
        Unpack::Start => {
            *at = Unpack::Look;
            Step::Do(Action::Exists(dest))
        },
        Unpack::Look => match reply {
            Reply::Is(there) => {
                if *there && !fresh {
                    Step::Done(dest)
                } else {
                    *at = Unpack::Announce;
                    Step::Do(
                        Action::Say(
                            cat3(
                                "cargo-kbuild: decompressing ",
                                xz_path,
                                " (this only happens once)",
                            ),
                        ),
                    )
                }
            },
            _ => Step::Fail(Error::unexpected_reply()),
        },
        Unpack::Announce => {
            *at = Unpack::Create;
            Step::Do(Action::CreateFile(part))
        },
        Unpack::Create => match ack(
            reply,
            cat2("creating ", quoted_path(part.as_str()).as_str()).as_str(),
        ) {
            Err(e) => Step::Fail(e),
            Ok(_) => {
                *at = Unpack::Run;
                Step::Do(Action::RunInto { command: xz_command(xz_path), path: part })
            },
        },
        Unpack::Run => match reply {
            Reply::Exit { success, status } => if *success {
                *at = Unpack::Rename;
                Step::Do(Action::Rename { from: part, to: dest })
            } else {
                Step::Fail(Error::xz_failed(xz_path, status.as_str()))
            },
            Reply::Failed(cause) => Step::Fail(Error::failed("running `xz -dc`", cause.as_str())),
            _ => Step::Fail(Error::unexpected_reply()),
        },
        Unpack::Rename => match ack(
            reply,
            say_renaming(part.as_str(), dest.as_str()).as_str(),
        ) {
            Err(e) => Step::Fail(e),
            Ok(_) => Step::Done(dest),
        },
    }
}

} // verus!
