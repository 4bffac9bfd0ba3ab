//! Which name a manifest gives to a crate.

use crate::manifest::{
    crate_name_in, header_of, name_value, scan, scan_line, scan_start, ScanView,
};
use crate::text::{after_prefix, before_suffix, trimmed, CharClass};
use crate::text_laws::{
    affixes_are_taken_off, is_line, splitting_is_at_the_first_and_the_last,
    trimming_takes_both_ends, written, written_lines_are_read_back,
};
use vstd::prelude::*;

verus! {

/// A line that opens the section `name`.
pub open spec fn header_line(name: Seq<char>) -> Seq<char> {
    seq!['['] + name + seq![']']
}

/// A line that gives `value` to `key`, in quotes.
pub open spec fn value_line(key: Seq<char>, value: Seq<char>) -> Seq<char> {
    key + seq!['=', '"'] + value + seq!['"']
}

/// Whether a text neither begins nor ends with a quote, and is one line.
pub open spec fn is_value(s: Seq<char>) -> bool {
    &&& s.len() > 0 ==> s[0] != '"' && s.last() != '"'
    &&& !s.contains('\n')
}

/// Whether a text can be a key: letters, digits, `-` and `_`, at least one of them.
pub open spec fn is_key(s: Seq<char>) -> bool {
    &&& s.len() > 0
    &&& forall|i: int|
        0 <= i < s.len() ==> {
            ||| 'a' <= #[trigger] s[i] <= 'z'
            ||| 'A' <= s[i] <= 'Z'
            ||| '0' <= s[i] <= '9'
            ||| s[i] == '-'
            ||| s[i] == '_'
        }
}

/// Whether a line is empty or gives a value to another key than `name`.
pub open spec fn is_other_line(line: Seq<char>) -> bool {
    ||| line.len() == 0
    ||| exists|key: Seq<char>, value: Seq<char>|
        is_key(key) && key != "name"@ && is_value(value) && line == #[trigger] value_line(
            key,
            value,
        )
}

/// A text that begins and ends with something else than white space is not trimmed.
proof fn lemma_trimmed_as_it_is(s: Seq<char>, class: CharClass)
    requires
        s.len() > 0 ==> !class.has(s[0]) && !class.has(s.last()),
    ensures
        trimmed(s, class) == s,
{
    let none = Seq::<char>::empty();
    assert(none + s + none =~= s);
    trimming_takes_both_ends(none, s, none, class);
}

/// A header opens its section and names nothing.
pub proof fn a_header_opens_its_section(at: ScanView, name: Seq<char>)
    ensures
        ({
            let after = scan_line(at, header_line(name));
            &&& after.package == at.package
            &&& after.lib == at.lib
            &&& after.section is Package <==> name == "package"@
            &&& after.section is Lib <==> name == "lib"@
        }),
{
    let line = header_line(name);
    reveal_strlit("package");
    reveal_strlit("lib");
    assert("package"@.len() != "lib"@.len());
    lemma_trimmed_as_it_is(line, CharClass::Space);
    reveal_strlit("[");
    reveal_strlit("]");
    assert("["@ =~= seq!['[']);
    assert("]"@ =~= seq![']']);
    assert(line =~= seq!['['] + (name + seq![']']));
    affixes_are_taken_off(name + seq![']'], "["@);
    affixes_are_taken_off(name, "]"@);
}

/// The shape of a line that gives a value.
proof fn lemma_value_line(key: Seq<char>, value: Seq<char>)
    requires
        is_key(key),
        is_value(value),
    ensures
        ({
            let line = value_line(key, value);
            &&& trimmed(line, CharClass::Space) == line
            &&& after_prefix(line, "["@) is None
            &&& name_value(line) == (if key == "name"@ {
                Some(value)
            } else {
                None
            })
            &&& is_line(line)
        }),
{
    let line = value_line(key, value);
    assert(line[0] == key[0]);
    lemma_trimmed_as_it_is(line, CharClass::Space);
    reveal_strlit("[");
    affixes_are_taken_off(line, "["@);
    assert(after_prefix(line, "["@) is None) by {
        if after_prefix(line, "["@) is Some {
            assert(line[0] == '[');
        }
    }
    assert(!key.contains('=')) by {
        if key.contains('=') {
            let i = choose|i: int| 0 <= i < key.len() && key[i] == '=';
            assert(key[i] == '=');
        }
    }
    let quoted = seq!['"'] + value + seq!['"'];
    assert(line =~= key + seq!['='] + quoted);
    splitting_is_at_the_first_and_the_last(key, quoted, '=');
    lemma_trimmed_as_it_is(key, CharClass::Space);
    lemma_trimmed_as_it_is(quoted, CharClass::Space);
    trimming_takes_both_ends(seq!['"'], value, seq!['"'], CharClass::Only('"'));
    assert(!line.contains('\n')) by {
        if line.contains('\n') {
            let i = choose|i: int| 0 <= i < line.len() && line[i] == '\n';
            if i < key.len() {
                assert(line[i] == key[i]);
            } else if key.len() + 2 <= i < key.len() + 2 + value.len() {
                assert(value[i - key.len() - 2] == '\n');
            }
        }
    }
}

/// A `name` is that of the section that it stands in, and one in any other section names
/// nothing; another key names nothing anywhere.
pub proof fn a_name_belongs_to_its_section(at: ScanView, key: Seq<char>, value: Seq<char>)
    requires
        is_key(key),
        is_value(value),
    ensures
        ({
            let after = scan_line(at, value_line(key, value));
            let counts = key == "name"@;
            &&& after.section == at.section
            &&& after.package == (if counts && at.section is Package {
                Some(value)
            } else {
                at.package
            })
            &&& after.lib == (if counts && at.section is Lib {
                Some(value)
            } else {
                at.lib
            })
        }),
{
    lemma_value_line(key, value);
}

/// Any line, white space around it dropped, is a header, gives a value or says nothing: what
/// begins with `[` and ends with `]` opens a section; else what stands before the first `=`
/// is the key, and a `name` has the rest for its value, without white space and quotes
/// around it; a line without `=` says nothing.
pub proof fn a_line_is_a_header_a_value_or_nothing(
    at: ScanView,
    line: Seq<char>,
    key: Seq<char>,
    value: Seq<char>,
)
    ensures
        ({
            let t = trimmed(line, CharClass::Space);
            let opens = t.len() > 1 && t[0] == '[' && t.last() == ']';
            let name = trimmed(trimmed(value, CharClass::Space), CharClass::Only('"'));
            let after = scan_line(at, line);
            &&& opens ==> after == scan_line(at, header_line(t.subrange(1, t.len() - 1)))
            &&& !opens && !t.contains('=') ==> after == at
            &&& !opens && t == key + seq!['='] + value && !key.contains('=') ==> {
                let counts = trimmed(key, CharClass::Space) == "name"@;
                &&& after.section == at.section
                &&& after.package == (if counts && at.section is Package {
                    Some(name)
                } else {
                    at.package
                })
                &&& after.lib == (if counts && at.section is Lib {
                    Some(name)
                } else {
                    at.lib
                })
            }
        }),
{
    let t = trimmed(line, CharClass::Space);
    reveal_strlit("[");
    reveal_strlit("]");
    assert("["@ =~= seq!['[']);
    assert("]"@ =~= seq![']']);
    affixes_are_taken_off(t, "["@);
    if t.len() > 1 && t[0] == '[' && t.last() == ']' {
        let inner = t.subrange(1, t.len() - 1);
        assert(t =~= header_line(inner));
        lemma_trimmed_as_it_is(header_line(inner), CharClass::Space);
    } else {
        if let Some(rest) = after_prefix(t, "["@) {
            affixes_are_taken_off(rest, "]"@);
            if let Some(inner) = before_suffix(rest, "]"@) {
                assert(t[0] == '[');
                assert(rest.last() == ']');
                assert(t.last() == ']');
            }
        }
        assert(header_of(t) is None);
        if !t.contains('=') {
            splitting_is_at_the_first_and_the_last(t, t, '=');
        }
        if t == key + seq!['='] + value && !key.contains('=') {
            splitting_is_at_the_first_and_the_last(key, value, '=');
        }
    }
}

/// Lines that name nothing change nothing.
proof fn lemma_other_lines(at: ScanView, lines: Seq<Seq<char>>)
    requires
        forall|i: int| 0 <= i < lines.len() ==> is_other_line(#[trigger] lines[i]),
    ensures
        scan(at, lines) == at,
        forall|i: int| 0 <= i < lines.len() ==> is_line(#[trigger] lines[i]),
    decreases lines.len(),
{
    assert forall|i: int| 0 <= i < lines.len() implies is_line(#[trigger] lines[i]) by {
        if lines[i].len() > 0 {
            let (key, value) = choose|key: Seq<char>, value: Seq<char>|
                is_key(key) && key != "name"@ && is_value(value) && lines[i]
                    == #[trigger] value_line(key, value);
            lemma_value_line(key, value);
        }
    }
    if lines.len() > 0 {
        let before = lines.drop_last();
        let line = lines.last();
        assert forall|i: int| 0 <= i < before.len() implies is_other_line(#[trigger] before[i]) by {
            assert(before[i] == lines[i]);
        }
        lemma_other_lines(at, before);
        assert(is_other_line(lines[lines.len() - 1]));
        if line.len() == 0 {
            lemma_trimmed_as_it_is(line, CharClass::Space);
            reveal_strlit("[");
            assert(after_prefix(line, "["@) is None);
            assert(!line.contains('='));
            splitting_is_at_the_first_and_the_last(line, line, '=');
            assert(name_value(line) is None);
        } else {
            let (key, value) = choose|key: Seq<char>, value: Seq<char>|
                is_key(key) && key != "name"@ && is_value(value) && line == #[trigger] value_line(
                    key,
                    value,
                );
            lemma_value_line(key, value);
        }
    }
}

/// Lines are read one after the other.
proof fn lemma_scan_append(at: ScanView, a: Seq<Seq<char>>, b: Seq<Seq<char>>)
    ensures
        scan(at, a + b) == scan(scan(at, a), b),
    decreases b.len(),
{
    if b.len() == 0 {
        assert(a + b =~= a);
    } else {
        lemma_scan_append(at, a, b.drop_last());
        assert((a + b).drop_last() =~= a + b.drop_last());
    }
}

/// A section with a `name` in it.
pub open spec fn section_lines(
    section: Seq<char>,
    between: Seq<Seq<char>>,
    name: Seq<char>,
    behind: Seq<Seq<char>>,
) -> Seq<Seq<char>> {
    seq![header_line(section)] + between + seq![value_line("name"@, name)] + behind
}

proof fn lemma_section(
    at: ScanView,
    section: Seq<char>,
    between: Seq<Seq<char>>,
    name: Seq<char>,
    behind: Seq<Seq<char>>,
)
    requires
        section == "package"@ || section == "lib"@,
        is_value(name),
        forall|i: int| 0 <= i < between.len() ==> is_other_line(#[trigger] between[i]),
        forall|i: int| 0 <= i < behind.len() ==> is_other_line(#[trigger] behind[i]),
    ensures
        ({
            let lines = section_lines(section, between, name, behind);
            let after = scan(at, lines);
            &&& forall|i: int| 0 <= i < lines.len() ==> is_line(#[trigger] lines[i])
            &&& section == "package"@ ==> after.package == Some(name) && after.lib == at.lib
            &&& section == "lib"@ ==> after.lib == Some(name) && after.package == at.package
        }),
{
    reveal_strlit("package");
    reveal_strlit("lib");
    reveal_strlit("name");
    assert("package"@.len() != "lib"@.len());
    assert(is_key("name"@));
    let head = seq![header_line(section)];
    let named = seq![value_line("name"@, name)];
    let opened = scan_line(at, header_line(section));
    a_header_opens_its_section(at, section);
    reveal_with_fuel(scan, 2);
    assert(head.drop_last() =~= Seq::empty());
    assert(scan(at, head) == opened);
    lemma_other_lines(opened, between);
    lemma_scan_append(at, head, between);
    a_name_belongs_to_its_section(opened, "name"@, name);
    lemma_value_line("name"@, name);
    assert(named.drop_last() =~= Seq::empty());
    assert(scan(opened, named) == scan_line(opened, value_line("name"@, name)));
    lemma_scan_append(at, head + between, named);
    let set = scan_line(opened, value_line("name"@, name));
    lemma_other_lines(set, behind);
    lemma_scan_append(at, head + between + named, behind);
    let lines = section_lines(section, between, name, behind);
    assert(is_line(header_line(section))) by {
        let h = header_line(section);
        assert forall|i: int| 0 <= i < h.len() implies h[i] != '\n' by {}
    }
    assert forall|i: int| 0 <= i < lines.len() implies is_line(#[trigger] lines[i]) by {
        if i == 0 {
        } else if i < 1 + between.len() {
            assert(lines[i] == between[i - 1]);
        } else if i > 1 + between.len() {
            assert(lines[i] == behind[i - 2 - between.len()]);
        }
    }
}

/// The name of the package is that of the crate where no library is named: whatever keys
/// surround it.
pub proof fn the_package_names_the_crate(
    first: Seq<Seq<char>>,
    between: Seq<Seq<char>>,
    name: Seq<char>,
    behind: Seq<Seq<char>>,
)
    requires
        is_value(name),
        forall|i: int| 0 <= i < first.len() ==> is_other_line(#[trigger] first[i]),
        forall|i: int| 0 <= i < between.len() ==> is_other_line(#[trigger] between[i]),
        forall|i: int| 0 <= i < behind.len() ==> is_other_line(#[trigger] behind[i]),
    ensures
        crate_name_in(written(first + section_lines("package"@, between, name, behind))) == Some(
            name,
        ),
        crate_name_in(written(first)) is None,
{
    let lines = section_lines("package"@, between, name, behind);
    lemma_other_lines(scan_start(), first);
    lemma_section(scan_start(), "package"@, between, name, behind);
    lemma_scan_append(scan_start(), first, lines);
    let all = first + lines;
    assert forall|i: int| 0 <= i < all.len() implies is_line(#[trigger] all[i]) by {
        if i < first.len() {
            assert(all[i] == first[i]);
        } else {
            assert(all[i] == lines[i - first.len()]);
        }
    }
    written_lines_are_read_back(all);
    written_lines_are_read_back(first);
}

/// The name of the library is that of the crate, whatever stands before it.
pub proof fn the_library_names_the_crate(
    first: Seq<Seq<char>>,
    between: Seq<Seq<char>>,
    name: Seq<char>,
    behind: Seq<Seq<char>>,
)
    requires
        is_value(name),
        forall|i: int| 0 <= i < first.len() ==> is_line(#[trigger] first[i]),
        forall|i: int| 0 <= i < between.len() ==> is_other_line(#[trigger] between[i]),
        forall|i: int| 0 <= i < behind.len() ==> is_other_line(#[trigger] behind[i]),
    ensures
        crate_name_in(written(first + section_lines("lib"@, between, name, behind))) == Some(name),
{
    let lines = section_lines("lib"@, between, name, behind);
    let at = scan(scan_start(), first);
    lemma_section(at, "lib"@, between, name, behind);
    lemma_scan_append(scan_start(), first, lines);
    let all = first + lines;
    assert forall|i: int| 0 <= i < all.len() implies is_line(#[trigger] all[i]) by {
        if i < first.len() {
            assert(all[i] == first[i]);
        } else {
            assert(all[i] == lines[i - first.len()]);
        }
    }
    written_lines_are_read_back(all);
}

/// A library that is named before the package still names the crate.
pub proof fn a_library_named_first_names_the_crate(
    first: Seq<Seq<char>>,
    lib: Seq<char>,
    package: Seq<char>,
    between: Seq<Seq<char>>,
)
    requires
        is_value(lib),
        is_value(package),
        forall|i: int| 0 <= i < first.len() ==> is_line(#[trigger] first[i]),
        forall|i: int| 0 <= i < between.len() ==> is_other_line(#[trigger] between[i]),
    ensures
        crate_name_in(
            written(
                first + section_lines("lib"@, between, lib, between) + section_lines(
                    "package"@,
                    between,
                    package,
                    between,
                ),
            ),
        ) == Some(lib),
{
    reveal_strlit("package");
    reveal_strlit("lib");
    assert("package"@.len() != "lib"@.len());
    let a = section_lines("lib"@, between, lib, between);
    let b = section_lines("package"@, between, package, between);
    let at = scan(scan_start(), first);
    lemma_section(at, "lib"@, between, lib, between);
    lemma_section(scan(at, a), "package"@, between, package, between);
    lemma_scan_append(scan_start(), first, a);
    lemma_scan_append(scan_start(), first + a, b);
    let all = first + a + b;
    assert forall|i: int| 0 <= i < all.len() implies is_line(#[trigger] all[i]) by {
        if i < first.len() {
            assert(all[i] == first[i]);
        } else if i < first.len() + a.len() {
            assert(all[i] == a[i - first.len()]);
        } else {
            assert(all[i] == b[i - first.len() - a.len()]);
        }
    }
    written_lines_are_read_back(all);
}

} // verus!
