//! The name of a crate's library, out of its manifest.
//!
//! This is no TOML parser: only the `name` keys of the `[package]` and `[lib]`
//! sections matter.

use crate::error::{quoted_path, quoted_path_text, Error, ErrorView};
use crate::host::Reply;
use crate::text::{
    after_prefix, before_suffix, cat2, lines, lines_of, opt_text, same, split_at_first, split_once,
    strip_prefix, strip_suffix, texts, trim, trim_by, trimmed, CharClass,
};
use crate::toolchain::text_or_error;
use vstd::prelude::*;

verus! {

/// A section of a manifest.
#[derive(Clone, Copy, Debug, PartialEq, Eq, Structural)]
pub enum Section {
    Package,
    Lib,
    Other,
}

/// What stands between the brackets of a section header.
pub open spec fn header_of(line: Seq<char>) -> Option<Seq<char>> {
    match after_prefix(line, "["@) {
        Some(rest) => before_suffix(rest, "]"@),
        None => None,
    }
}

/// The section that a header opens.
pub open spec fn section_called(name: Seq<char>) -> Section {
    if name == "package"@ {
        Section::Package
    } else if name == "lib"@ {
        Section::Lib
    } else {
        Section::Other
    }
}

/// The value of a `name = value` line, without white space and quotes around it.
pub open spec fn name_value(line: Seq<char>) -> Option<Seq<char>> {
    match split_at_first(line, '=') {
        Some((key, value)) => if trimmed(key, CharClass::Space) == "name"@ {
            Some(trimmed(trimmed(value, CharClass::Space), CharClass::Only('"')))
        } else {
            None
        },
        None => None,
    }
}

/// What has been read of a manifest.
pub ghost struct ScanView {
    pub section: Section,
    pub package: Option<Seq<char>>,
    pub lib: Option<Seq<char>>,
}

/// Reads a line, white space around it dropped.
pub open spec fn scan_line(at: ScanView, line: Seq<char>) -> ScanView {
    let line = trimmed(line, CharClass::Space);
    match header_of(line) {
        Some(name) => ScanView { section: section_called(name), ..at },
        None => match name_value(line) {
            Some(value) => match at.section {
                Section::Package => ScanView { package: Some(value), ..at },
                Section::Lib => ScanView { lib: Some(value), ..at },
                Section::Other => at,
            },
            None => at,
        },
    }
}

/// Reads lines, one after the other.
pub open spec fn scan(at: ScanView, lines: Seq<Seq<char>>) -> ScanView
    decreases lines.len(),
{
    if lines.len() == 0 {
        at
    } else {
        scan_line(scan(at, lines.drop_last()), lines.last())
    }
}

/// What has been read of a manifest before its first line.
pub open spec fn scan_start() -> ScanView {
    ScanView { section: Section::Other, package: None, lib: None }
}

/// The library's name where the manifest gives one, and else the package's.
pub open spec fn crate_name_in(text: Seq<char>) -> Option<Seq<char>> {
    let end = scan(scan_start(), lines_of(text));
    if end.lib is Some {
        end.lib
    } else {
        end.package
    }
}

/// The crate's name in the reply to reading its manifest.
pub open spec fn crate_name_of(manifest_path: Seq<char>, reply: Reply) -> Result<
    Seq<char>,
    ErrorView,
> {
    match reply {
        Reply::Text(text) => match crate_name_in(text@) {
            Some(name) => Ok(name),
            None => Err(ErrorView::no_crate_name(manifest_path)),
        },
        Reply::Failed(cause) => Err(
            ErrorView::failed("reading "@ + quoted_path_text(manifest_path), cause@),
        ),
        _ => Err(ErrorView::unexpected_reply()),
    }
}

/// The header of a section, if a line is one.
fn header(line: &str) -> (r: Option<String>)
    ensures
        opt_text(r) == header_of(line@),
{
    match strip_prefix(line, "[") {
        Some(rest) => strip_suffix(rest.as_str(), "]"),
        None => None,
    }
}

/// The value of a `name = value` line.
fn value_of_name(line: &str) -> (r: Option<String>)
    ensures
        opt_text(r) == name_value(line@),
{
    match split_once(line, '=') {
        Some((key, value)) => {
            let key = trim(key.as_str());
            if same(key.as_str(), "name") {
                Some(trim_by(trim(value.as_str()).as_str(), CharClass::Only('"')))
            } else {
                None
            }
        },
        None => None,
    }
}

/// The name that a manifest gives to the crate's library.
pub fn crate_name(text: &str) -> (r: Option<String>)
    ensures
        opt_text(r) == crate_name_in(text@),
{
    let all = lines(text);
    let n: usize = all.len();
    let mut section = Section::Other;
    let mut package: Option<String> = None;
    let mut lib: Option<String> = None;
    let ghost every = texts(all@);
    for i in 0..n
        invariant
            n == all@.len(),
            every == texts(all@),
            scan(scan_start(), every.take(i as int)) == (ScanView {
                section,
                package: opt_text(package),
                lib: opt_text(lib),
            }),
    {
        assert(every.take(i + 1).drop_last() =~= every.take(i as int));
        assert(every.take(i + 1).last() == all@[i as int]@);
        let line = trim(all[i].as_str());
        match header(line.as_str()) {
            Some(name) => {
                section = if same(name.as_str(), "package") {
                    Section::Package
                } else if same(name.as_str(), "lib") {
                    Section::Lib
                } else {
                    Section::Other
                };
            },
            None => match value_of_name(line.as_str()) {
                Some(value) => match section {
                    Section::Package => {
                        package = Some(value);
                    },
                    Section::Lib => {
                        lib = Some(value);
                    },
                    Section::Other => {},
                },
                None => {},
            },
        }
    }
    assert(every.take(n as int) =~= every);
    match lib {
        Some(name) => Some(name),
        None => package,
    }
}

/// The name of the crate whose manifest was read.
pub fn read_crate_name(manifest_path: &str, reply: &Reply) -> (r: Result<String, Error>)
    ensures
        text_or_error(r) == crate_name_of(manifest_path@, *reply),
{
    match reply {
        Reply::Text(text) => match crate_name(text.as_str()) {
            Some(name) => Ok(name),
            None => Err(Error::no_crate_name(manifest_path)),
        },
        Reply::Failed(cause) => Err(
            Error::failed(
                cat2("reading ", quoted_path(manifest_path).as_str()).as_str(),
                cause.as_str(),
            ),
        ),
        _ => Err(Error::unexpected_reply()),
    }
}

/// A section that is neither `[package]` nor `[lib]` names nothing, whatever it
/// holds.
pub proof fn other_sections_name_nothing(
    before: Seq<Seq<char>>,
    name: Seq<char>,
    header: Seq<char>,
    body: Seq<Seq<char>>,
)
    requires
        header_of(trimmed(header, CharClass::Space)) == Some(name),
        section_called(name) == Section::Other,
        forall|i: int|
            0 <= i < body.len() ==> header_of(#[trigger] trimmed(body[i], CharClass::Space)) is None,
    ensures
        ({
            let end = scan(scan_start(), before.push(header) + body);
            &&& end.package == scan(scan_start(), before).package
            &&& end.lib == scan(scan_start(), before).lib
            &&& end.section == Section::Other
        }),
    decreases body.len(),
{
    let all = before.push(header) + body;
    if body.len() == 0 {
        assert(all =~= before.push(header));
        assert(all.drop_last() =~= before);
    } else {
        let less = body.drop_last();
        assert forall|i: int| 0 <= i < less.len() implies header_of(
            #[trigger] trimmed(less[i], CharClass::Space),
        ) is None by {
            assert(less[i] == body[i]);
            assert(header_of(trimmed(body[i], CharClass::Space)) is None);
        }
        other_sections_name_nothing(before, name, header, less);
        assert(all.drop_last() =~= before.push(header) + less);
        assert(header_of(trimmed(body[body.len() - 1], CharClass::Space)) is None);
    }
}

} // verus!
