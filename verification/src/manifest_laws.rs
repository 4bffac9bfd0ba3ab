//! What a manifest may look like without naming another crate.

use crate::manifest::{
    crate_name_in, header_of, scan, scan_line, scan_start, section_called, ScanView, Section,
};
use crate::text::{
    chomp, find, is_white_space, lemma_find, lemma_find_is, lines_of, split_at_first, trimmed,
    trimmed_end, trimmed_start, CharClass,
};
use vstd::prelude::*;

verus! {

/// Whether a text is nothing but white space.
pub open spec fn is_blank(s: Seq<char>) -> bool {
    forall|i: int| 0 <= i < s.len() ==> is_white_space(#[trigger] s[i])
}

/// A line with `p` before its first `=`, and `q` behind it; a line without `=` as it
/// stands.
pub open spec fn spread(line: Seq<char>, p: Seq<char>, q: Seq<char>) -> Seq<char> {
    let i = find(line, '=');
    if 0 <= i < line.len() {
        line.take(i) + p + seq!['='] + q + line.skip(i + 1)
    } else {
        line
    }
}

/// A line with `l` at its start, `r` at its end, `p` before its first `=`, and `q`
/// behind it.
pub open spec fn widened(
    line: Seq<char>,
    l: Seq<char>,
    p: Seq<char>,
    q: Seq<char>,
    r: Seq<char>,
) -> Seq<char> {
    l + spread(line, p, q) + r
}

/// Whether `b` is the line `a` with white space added at its start, at its end, and on
/// both sides of its first `=`.
pub open spec fn only_blanks_added(a: Seq<char>, b: Seq<char>) -> bool {
    exists|l: Seq<char>, p: Seq<char>, q: Seq<char>, r: Seq<char>|
        is_blank(l) && is_blank(p) && is_blank(q) && is_blank(r) && b == #[trigger] widened(
            a,
            l,
            p,
            q,
            r,
        )
}

/// Whether `b` is the text `a` with such white space added to its lines.
pub open spec fn only_blanks_added_to_lines(a: Seq<char>, b: Seq<char>) -> bool {
    &&& lines_of(a).len() == lines_of(b).len()
    &&& forall|i: int|
        0 <= i < lines_of(a).len() ==> only_blanks_added(
            #[trigger] lines_of(a)[i],
            lines_of(b)[i],
        )
}

/// A text with `\r\n` for each `\n`.
pub open spec fn with_crlf(s: Seq<char>) -> Seq<char>
    decreases s.len(),
{
    if s.len() == 0 {
        s
    } else if s[0] == '\n' {
        seq!['\r', '\n'] + with_crlf(s.drop_first())
    } else {
        seq![s[0]] + with_crlf(s.drop_first())
    }
}

/// What trimming takes away is white space, and what it leaves begins and ends with
/// none.
proof fn lemma_trimmed_start(s: Seq<char>)
    ensures
        ({
            let t = trimmed_start(s, CharClass::Space);
            &&& t.len() <= s.len()
            &&& is_blank(s.take(s.len() - t.len()))
            &&& t == s.skip(s.len() - t.len())
            &&& t.len() > 0 ==> !is_white_space(t[0])
        }),
    decreases s.len(),
{
    let t = trimmed_start(s, CharClass::Space);
    if s.len() > 0 && is_white_space(s[0]) {
        let rest = s.drop_first();
        lemma_trimmed_start(rest);
        let k = rest.len() - t.len();
        assert(rest.skip(k) =~= s.skip(k + 1));
        assert forall|i: int| 0 <= i < k + 1 implies is_white_space(
            #[trigger] s.take(k + 1)[i],
        ) by {
            if i > 0 {
                assert(rest.take(k)[i - 1] == s[i]);
            }
        }
    } else {
        assert(s.skip(0) =~= s);
    }
}

proof fn lemma_trimmed_end(s: Seq<char>)
    ensures
        ({
            let t = trimmed_end(s, CharClass::Space);
            &&& t.len() <= s.len()
            &&& is_blank(s.skip(t.len() as int))
            &&& t == s.take(t.len() as int)
            &&& t.len() > 0 ==> !is_white_space(t.last())
        }),
    decreases s.len(),
{
    let t = trimmed_end(s, CharClass::Space);
    if s.len() > 0 && is_white_space(s.last()) {
        let rest = s.drop_last();
        lemma_trimmed_end(rest);
        let k = t.len() as int;
        assert(rest.take(k) =~= s.take(k));
        assert forall|i: int| 0 <= i < s.len() - k implies is_white_space(
            #[trigger] s.skip(k)[i],
        ) by {
            if i < rest.len() - k {
                assert(rest.skip(k)[i] == s[k + i]);
            }
        }
    } else {
        assert(s.take(s.len() as int) =~= s);
    }
}

/// White space in front is dropped.
proof fn lemma_blank_in_front(l: Seq<char>, s: Seq<char>)
    requires
        is_blank(l),
    ensures
        trimmed_start(l + s, CharClass::Space) == trimmed_start(s, CharClass::Space),
    decreases l.len(),
{
    if l.len() == 0 {
        assert(l + s =~= s);
    } else {
        assert((l + s)[0] == l[0]);
        assert forall|i: int| 0 <= i < l.drop_first().len() implies is_white_space(
            #[trigger] l.drop_first()[i],
        ) by {
            assert(l[i + 1] == l.drop_first()[i]);
        }
        assert((l + s).drop_first() =~= l.drop_first() + s);
        lemma_blank_in_front(l.drop_first(), s);
    }
}

/// White space behind is dropped.
proof fn lemma_blank_behind(s: Seq<char>, r: Seq<char>)
    requires
        is_blank(r),
    ensures
        trimmed_end(s + r, CharClass::Space) == trimmed_end(s, CharClass::Space),
    decreases r.len(),
{
    if r.len() == 0 {
        assert(s + r =~= s);
    } else {
        assert((s + r).last() == r[r.len() - 1]);
        assert forall|i: int| 0 <= i < r.drop_last().len() implies is_white_space(
            #[trigger] r.drop_last()[i],
        ) by {
            assert(r[i] == r.drop_last()[i]);
        }
        assert((s + r).drop_last() =~= s + r.drop_last());
        lemma_blank_behind(s, r.drop_last());
    }
}

/// A text that begins with none keeps what is put behind it.
proof fn lemma_start_kept(s: Seq<char>, r: Seq<char>)
    requires
        s.len() > 0,
        !is_white_space(s[0]),
    ensures
        trimmed_start(s + r, CharClass::Space) == s + r,
{
    assert((s + r)[0] == s[0]);
}

/// White space around a text is dropped.
proof fn lemma_trimmed_around(l: Seq<char>, s: Seq<char>, r: Seq<char>)
    requires
        is_blank(l),
        is_blank(r),
    ensures
        trimmed(l + s + r, CharClass::Space) == trimmed(s, CharClass::Space),
{
    let t = trimmed_start(s, CharClass::Space);
    lemma_trimmed_start(s);
    assert(l + s + r =~= l + (s + r));
    lemma_blank_in_front(l, s + r);
    let front = s.take(s.len() - t.len());
    assert(s + r =~= front + (t + r));
    lemma_blank_in_front(front, t + r);
    if t.len() > 0 {
        lemma_start_kept(t, r);
        lemma_blank_behind(t, r);
    } else {
        assert(t + r =~= r + t);
        lemma_blank_in_front(r, t);
    }
}

/// The effect of a `key = value` line, both without white space around them.
pub open spec fn pair_effect(at: ScanView, key: Seq<char>, value: Seq<char>) -> ScanView {
    if key.len() > 0 && key[0] == '[' && value.len() > 0 && value.last() == ']' {
        ScanView { section: Section::Other, ..at }
    } else if key == "name"@ {
        let name = trimmed(value, CharClass::Only('"'));
        match at.section {
            Section::Package => ScanView { package: Some(name), ..at },
            Section::Lib => ScanView { lib: Some(name), ..at },
            Section::Other => at,
        }
    } else {
        at
    }
}

/// A line with a `=` is read by its key and its value alone, white space around them
/// dropped.
proof fn lemma_pair_line(at: ScanView, key: Seq<char>, value: Seq<char>)
    requires
        !key.contains('='),
    ensures
        scan_line(at, key + seq!['='] + value) == pair_effect(
            at,
            trimmed(key, CharClass::Space),
            trimmed(value, CharClass::Space),
        ),
{
    let line = key + seq!['='] + value;
    let k = trimmed_start(key, CharClass::Space);
    let v = trimmed_end(value, CharClass::Space);
    lemma_trimmed_start(key);
    lemma_trimmed_end(value);
    let l = key.take(key.len() - k.len());
    let r = value.skip(v.len() as int);
    let mid = k + seq!['='] + v;
    assert(key =~= l + k);
    assert(value =~= v + r);
    assert(line =~= l + mid + r);
    lemma_trimmed_around(l, mid, r);
    assert(mid[0] == (if k.len() > 0 { k[0] } else { '=' }));
    assert(mid.last() == (if v.len() > 0 { v.last() } else { '=' }));
    assert(trimmed(mid, CharClass::Space) == mid);
    assert(trimmed(line, CharClass::Space) == mid);
    // The parts of the trimmed line.
    let tk = trimmed(key, CharClass::Space);
    let tv = trimmed(value, CharClass::Space);
    let none = Seq::<char>::empty();
    assert(l + k + none =~= key);
    lemma_trimmed_around(l, k, none);
    assert(none + v + r =~= value);
    lemma_trimmed_around(none, v, r);
    assert(!k.contains('=')) by {
        if k.contains('=') {
            let i = choose|i: int| 0 <= i < k.len() && k[i] == '=';
            assert(key[key.len() - k.len() + i] == '=');
        }
    }
    lemma_find_is(mid, '=', k.len() as int);
    assert(mid.take(k.len() as int) =~= k);
    assert(mid.skip(k.len() + 1int) =~= v);
    assert(split_at_first(mid, '=') == Some((k, v)));
    // What it begins and ends with.
    lemma_trimmed_end(trimmed_start(k, CharClass::Space));
    assert(tk == trimmed_end(k, CharClass::Space)) by {
        if k.len() == 0 {
            assert(trimmed_start(k, CharClass::Space) =~= k);
        }
    }
    lemma_trimmed_end(k);
    assert(k.len() > 0 ==> tk.len() > 0 && tk[0] == k[0]) by {
        if k.len() > 0 && tk.len() == 0 {
            assert(k.skip(0)[0] == k[0]);
        }
    }
    lemma_trimmed_start(v);
    let tsv = trimmed_start(v, CharClass::Space);
    assert(v.len() > 0 ==> tsv.len() > 0 && tsv.last() == v.last()) by {
        if v.len() > 0 && tsv.len() == 0 {
            assert(v.take(v.len() as int)[v.len() - 1] == v.last());
        }
    }
    assert(v.len() > 0 ==> tv == tsv);
    assert(v.len() == 0 ==> tv.len() == 0) by {
        lemma_trimmed_end(tsv);
    }
    lemma_header(k, v);
    assert(header_of(mid) is Some <==> tk.len() > 0 && tk[0] == '[' && tv.len() > 0 && tv.last()
        == ']');
}

/// When a `key=value` line is the header of a section, and that the section is another.
proof fn lemma_header(k: Seq<char>, v: Seq<char>)
    ensures
        ({
            let line = k + seq!['='] + v;
            &&& header_of(line) is Some <==> k.len() > 0 && k[0] == '[' && v.len() > 0 && v.last()
                == ']'
            &&& header_of(line) matches Some(name) ==> section_called(name) == Section::Other
        }),
{
    reveal_strlit("[");
    reveal_strlit("]");
    reveal_strlit("package");
    reveal_strlit("lib");
    let line = k + seq!['='] + v;
    assert(line[0] == (if k.len() > 0 { k[0] } else { '=' }));
    assert(line.last() == (if v.len() > 0 { v.last() } else { '=' }));
    assert("["@.is_prefix_of(line) <==> line[0] == '[') by {
        assert("["@[0] == '[');
        assert(line.subrange(0, 1)[0] == line[0]);
        if line[0] == '[' {
            assert("["@ =~= line.subrange(0, 1));
        }
    }
    if line[0] == '[' {
        let rest = line.skip(1);
        assert(rest.last() == line.last());
        assert("]"@.is_suffix_of(rest) <==> rest.last() == ']') by {
            assert("]"@[0] == ']');
            assert(rest.subrange(rest.len() - 1, rest.len() as int)[0] == rest.last());
            if rest.last() == ']' {
                assert("]"@ =~= rest.subrange(rest.len() - 1, rest.len() as int));
            }
        }
        if rest.last() == ']' {
            let name = rest.take(rest.len() - 1);
            assert(name[k.len() - 1] == '=');
            assert(forall|i: int| 0 <= i < "package"@.len() ==> "package"@[i] != '=');
            assert(forall|i: int| 0 <= i < "lib"@.len() ==> "lib"@[i] != '=');
        }
    }
}

/// White space added to a line changes nothing about what is read in it.
proof fn lemma_line(at: ScanView, a: Seq<char>, b: Seq<char>)
    requires
        only_blanks_added(a, b),
    ensures
        scan_line(at, b) == scan_line(at, a),
{
    let (l, p, q, r) = choose|l: Seq<char>, p: Seq<char>, q: Seq<char>, r: Seq<char>|
        is_blank(l) && is_blank(p) && is_blank(q) && is_blank(r) && b == #[trigger] widened(
            a,
            l,
            p,
            q,
            r,
        );
    let i = find(a, '=');
    lemma_find(a, '=');
    if i < a.len() {
        let key = a.take(i);
        let value = a.skip(i + 1);
        let key2 = l + key + p;
        let value2 = q + value + r;
        assert(a =~= key + seq!['='] + value);
        assert(b =~= key2 + seq!['='] + value2);
        assert(!key2.contains('=')) by {
            if key2.contains('=') {
                let j = choose|j: int| 0 <= j < key2.len() && key2[j] == '=';
                if j < l.len() {
                    assert(l[j] == '=');
                } else if j < l.len() + key.len() {
                    assert(a[j - l.len()] == '=');
                } else {
                    assert(p[j - l.len() - key.len()] == '=');
                }
            }
        }
        assert(!key.contains('='));
        lemma_pair_line(at, key, value);
        lemma_pair_line(at, key2, value2);
        lemma_trimmed_around(l, key, p);
        lemma_trimmed_around(q, value, r);
    } else {
        lemma_trimmed_around(l, a, r);
    }
}

proof fn lemma_lines(a: Seq<Seq<char>>, b: Seq<Seq<char>>)
    requires
        a.len() == b.len(),
        forall|i: int| 0 <= i < a.len() ==> only_blanks_added(#[trigger] a[i], b[i]),
    ensures
        scan(scan_start(), a) == scan(scan_start(), b),
    decreases a.len(),
{
    if a.len() > 0 {
        let n = a.len() - 1;
        assert forall|i: int| 0 <= i < n implies only_blanks_added(
            #[trigger] a.drop_last()[i],
            b.drop_last()[i],
        ) by {
            assert(a.drop_last()[i] == a[i]);
        }
        lemma_lines(a.drop_last(), b.drop_last());
        assert(only_blanks_added(a[n], b[n]));
        lemma_line(scan(scan_start(), a.drop_last()), a.last(), b.last());
    }
}

/// A text up to a line feed, and what follows.
proof fn lemma_crlf_line(s: Seq<char>, i: int)
    requires
        0 <= i <= s.len(),
        forall|j: int| 0 <= j < i ==> s[j] != '\n',
        i < s.len() ==> s[i] == '\n',
    ensures
        i < s.len() ==> with_crlf(s) == s.take(i) + seq!['\r', '\n'] + with_crlf(s.skip(i + 1)),
        i == s.len() ==> with_crlf(s) == s,
    decreases i,
{
    if i == 0 {
        if s.len() > 0 {
            assert(s.drop_first() =~= s.skip(1));
            assert(s.take(0) + seq!['\r', '\n'] =~= seq!['\r', '\n']);
        }
    } else {
        let rest = s.drop_first();
        assert forall|j: int| 0 <= j < i - 1 implies rest[j] != '\n' by {
            assert(rest[j] == s[j + 1]);
        }
        lemma_crlf_line(rest, i - 1);
        if i < s.len() {
            assert(rest.skip(i) =~= s.skip(i + 1));
            assert(seq![s[0]] + rest.take(i - 1) =~= s.take(i));
            assert(with_crlf(s) =~= s.take(i) + seq!['\r', '\n'] + with_crlf(s.skip(i + 1)));
        } else {
            assert(seq![s[0]] + rest =~= s);
        }
    }
}

/// With `\r\n` for each `\n` a text has the same lines, but for a carriage return at the
/// end of some.
proof fn lemma_crlf_lines(s: Seq<char>)
    ensures
        lines_of(with_crlf(s)).len() == lines_of(s).len(),
        forall|k: int|
            0 <= k < lines_of(s).len() ==> only_blanks_added(
                #[trigger] lines_of(s)[k],
                lines_of(with_crlf(s))[k],
            ),
    decreases s.len(),
{
    let t = with_crlf(s);
    let i = find(s, '\n');
    lemma_find(s, '\n');
    if s.len() > 0 {
        lemma_crlf_line(s, i);
        if i < s.len() {
            let rest = s.skip(i + 1);
            lemma_crlf_lines(rest);
            assert forall|j: int| 0 <= j < i + 1 implies t[j] != '\n' by {
                if j < i {
                    assert(t[j] == s[j]);
                }
            }
            assert(t[i + 1] == '\n');
            lemma_find_is(t, '\n', i + 1);
            assert(t.skip(i + 2) =~= with_crlf(rest));
            let line = s.take(i);
            assert(t.take(i + 1) =~= line.push('\r'));
            assert(chomp(t.take(i + 1)) =~= line);
            lemma_chomped(line);
            let a = lines_of(s);
            let b = lines_of(t);
            assert(a == seq![chomp(line)] + lines_of(rest));
            assert(b == seq![line] + lines_of(with_crlf(rest)));
            assert forall|k: int| 0 <= k < a.len() implies only_blanks_added(
                #[trigger] a[k],
                b[k],
            ) by {
                if k > 0 {
                    assert(a[k] == lines_of(rest)[k - 1]);
                }
            }
        } else {
            assert forall|k: int| 0 <= k < lines_of(s).len() implies only_blanks_added(
                #[trigger] lines_of(s)[k],
                lines_of(t)[k],
            ) by {
                lemma_same_line(lines_of(s)[k]);
            }
        }
    }
}

proof fn lemma_same_line(line: Seq<char>)
    ensures
        only_blanks_added(line, line),
{
    let none = Seq::<char>::empty();
    lemma_find(line, '=');
    assert(widened(line, none, none, none, none) =~= line);
}

proof fn lemma_chomped(line: Seq<char>)
    ensures
        only_blanks_added(chomp(line), line),
{
    let none = Seq::<char>::empty();
    let a = chomp(line);
    lemma_find(a, '=');
    if a == line {
        lemma_same_line(line);
    } else {
        assert(widened(a, none, none, none, seq!['\r']) =~= line);
    }
}

/// White space at the start and the end of lines and on both sides of the first `=` of
/// a line, and `\r\n` in place of each `\n`, change nothing about the name that a
/// manifest gives, or that it gives none.
pub proof fn blanks_and_line_ends_change_no_name(a: Seq<char>, b: Seq<char>)
    requires
        only_blanks_added_to_lines(a, b),
    ensures
        crate_name_in(b) == crate_name_in(a),
        crate_name_in(with_crlf(b)) == crate_name_in(a),
{
    lemma_lines(lines_of(a), lines_of(b));
    lemma_crlf_lines(b);
    lemma_lines(lines_of(b), lines_of(with_crlf(b)));
}

} // verus!
