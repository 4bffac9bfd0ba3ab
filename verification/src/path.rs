//! Unix paths as text: components are separated by `/`, a leading `/` makes a
//! path absolute, and repeated separators and inner `.` components count for
//! nothing.

use crate::text::{
    after_last, cat2, cat3, from_range, lemma_find, opt_text, rest_after_last, to_chars,
};
use vstd::prelude::*;

verus! {

/// `path` seen from `base`: an absolute path stands for itself, any other is
/// appended, with a separator between the two unless `base` is empty or ends in
/// one.
pub open spec fn joined_path(base: Seq<char>, path: Seq<char>) -> Seq<char> {
    if path.len() > 0 && path[0] == '/' {
        path
    } else if base.len() == 0 || base.last() == '/' {
        base + path
    } else {
        base + "/"@ + path
    }
}

/// How many characters at the start of a path stand before its named
/// components: one for the root, and one for a leading `.` component.
pub open spec fn before_body(p: Seq<char>) -> nat {
    if p.len() > 0 && p[0] == '/' {
        1
    } else if p.len() > 0 && p[0] == '.' && (p.len() == 1 || p[1] == '/') {
        1
    } else {
        0
    }
}

/// What stands after the last separator behind the start of the path.
pub open spec fn last_part(p: Seq<char>) -> Seq<char> {
    after_last(p.skip(before_body(p) as int), '/')
}

/// The path without its last part and the separator before that.
pub open spec fn without_last_part(p: Seq<char>) -> Seq<char> {
    let body = p.len() - before_body(p);
    let part = last_part(p).len();
    p.take(p.len() - part - (if part < body { 1int } else { 0int }))
}

/// The path without the separators and `.` components that it ends with.
pub open spec fn trimmed_path(p: Seq<char>) -> Seq<char>
    decreases p.len(),
{
    if p.len() > before_body(p) && (last_part(p).len() == 0 || last_part(p) == seq!['.']) {
        proof {
            lemma_last_part(p);
        }
        trimmed_path(without_last_part(p))
    } else {
        p
    }
}

/// The last component, if it is a name: not the root, `.` or `..`.
pub open spec fn name_of(p: Seq<char>) -> Option<Seq<char>> {
    let t = trimmed_path(p);
    if t.len() > before_body(t) && last_part(t) != seq!['.', '.'] {
        Some(last_part(t))
    } else {
        None
    }
}

/// The path without its last component, if it has one.
pub open spec fn parent_of(p: Seq<char>) -> Option<Seq<char>> {
    let t = trimmed_path(p);
    if t.len() > before_body(t) {
        Some(trimmed_path(without_last_part(t)))
    } else if t.len() > 0 && t[0] == '.' {
        Some(Seq::empty())
    } else {
        None
    }
}

/// A file name without its extension: what stands before the last dot, or the
/// whole name where it has no dot but one at its start.
pub open spec fn stem_of(name: Seq<char>) -> Seq<char> {
    let ext = after_last(name, '.');
    if ext.len() + 1 < name.len() {
        name.take(name.len() - ext.len() - 1)
    } else {
        name
    }
}

/// A file name's extension: what stands after the dot that ends its stem.
pub open spec fn extension_of(name: Seq<char>) -> Option<Seq<char>> {
    let ext = after_last(name, '.');
    if ext.len() + 1 < name.len() {
        Some(ext)
    } else {
        None
    }
}

/// The path with `ext` in place of the extension of its last component, or
/// without one where `ext` is empty. A path that ends in no name stays as it is.
pub open spec fn with_extension_of(p: Seq<char>, ext: Seq<char>) -> Seq<char> {
    match name_of(p) {
        None => p,
        Some(name) => {
            let t = trimmed_path(p);
            let base = t.take(t.len() - name.len() + stem_of(name).len());
            if ext.len() == 0 {
                base
            } else {
                base + "."@ + ext
            }
        },
    }
}

/// What follows the last `c` is a suffix without `c`, preceded by a `c` unless it
/// is everything.
pub proof fn lemma_after_last(s: Seq<char>, c: char)
    ensures
        after_last(s, c).len() <= s.len(),
        after_last(s, c) == s.skip(s.len() - after_last(s, c).len()),
        !after_last(s, c).contains(c),
        after_last(s, c).len() < s.len() ==> s[s.len() - after_last(s, c).len() - 1] == c,
    decreases s.len(),
{
    lemma_find(s, c);
    let i = crate::text::find(s, c);
    if i < s.len() {
        let rest = s.skip(i + 1);
        lemma_after_last(rest, c);
        let k = after_last(rest, c).len();
        assert(rest.skip(rest.len() - k) =~= s.skip(s.len() - k));
        if k < rest.len() {
            assert(rest[rest.len() - k - 1] == s[s.len() - k - 1]);
        }
    } else {
        assert(s.skip(0) =~= s);
    }
}

/// The suffix after a `c` that holds none is what follows the last `c`.
pub proof fn lemma_after_last_is(s: Seq<char>, c: char, k: int)
    requires
        0 <= k <= s.len(),
        k == s.len() || s[s.len() - k - 1] == c,
        !s.skip(s.len() - k).contains(c),
    ensures
        after_last(s, c) == s.skip(s.len() - k),
{
    lemma_after_last(s, c);
    let m = after_last(s, c).len();
    if m < k {
        assert(s.skip(s.len() - k)[k - m - 1] == s[s.len() - m - 1]);
    }
    if k < m {
        assert(s.skip(s.len() - m)[m - k - 1] == s[s.len() - k - 1]);
    }
}

/// The last part is no longer than what it is taken from, and where it is empty
/// a separator precedes it.
pub proof fn lemma_last_part(p: Seq<char>)
    requires
        p.len() > before_body(p),
    ensures
        last_part(p).len() <= p.len() - before_body(p),
        before_body(p) <= without_last_part(p).len() < p.len(),
{
    lemma_after_last(p.skip(before_body(p) as int), '/');
}

/// `path` seen from `base`.
pub fn join(base: &str, path: &str) -> (r: String)
    ensures
        r@ == joined_path(base@, path@),
{
    if !path.is_empty() && path.get_char(0) == '/' {
        return path.to_owned();
    }
    let b = to_chars(base);
    if b.len() == 0 || b[b.len() - 1] == '/' {
        cat2(base, path)
    } else {
        cat3(base, "/", path)
    }
}

/// How many characters of `v[..n]` stand before its named components.
fn body_start(v: &Vec<char>, n: usize) -> (r: usize)
    requires
        n <= v@.len(),
    ensures
        r == before_body(v@.take(n as int)),
        r <= n,
{
    if n > 0 && v[0] == '/' {
        1
    } else if n > 0 && v[0] == '.' && (n == 1 || v[1] == '/') {
        1
    } else {
        0
    }
}

/// Where the last part of `v[..n]` starts, `v[..start]` being what precedes its
/// named components.
fn part_start(v: &Vec<char>, n: usize, start: usize) -> (r: usize)
    requires
        n <= v@.len(),
        start == before_body(v@.take(n as int)),
        start <= n,
    ensures
        start <= r <= n,
        last_part(v@.take(n as int)) == v@.subrange(r as int, n as int),
        start < r ==> v@[r - 1] == '/',
{
    let mut i: usize = n;
    while i > start && v[i - 1] != '/'
        invariant
            start <= i <= n,
            n <= v@.len(),
            forall|j: int| i <= j < n ==> v@[j] != '/',
        decreases i,
    {
        i = i - 1;
    }
    proof {
        let body = v@.take(n as int).skip(start as int);
        let k = n - i;
        assert(body.skip(body.len() - k) =~= v@.subrange(i as int, n as int));
        assert(!v@.subrange(i as int, n as int).contains('/'));
        if k < body.len() {
            assert(body[body.len() - k - 1] == v@[i - 1]);
        }
        lemma_after_last_is(body, '/', k);
    }
    i
}

/// How long `v` is without the separators and `.` components that it ends with.
fn trimmed_len(v: &Vec<char>) -> (r: usize)
    ensures
        r <= v@.len(),
        v@.take(r as int) == trimmed_path(v@),
{
    let mut n: usize = v.len();
    assert(v@.take(n as int) =~= v@);
    loop
        invariant
            n <= v@.len(),
            trimmed_path(v@.take(n as int)) == trimmed_path(v@),
        decreases n,
    {
        let start = body_start(v, n);
        let i = part_start(v, n, start);
        let ghost p = v@.take(n as int);
        assert(last_part(p).len() == n - i);
        if n > start && (i == n || (i + 1 == n && v[i] == '.')) {
            proof {
                lemma_last_part(p);
                if i + 1 == n {
                    assert(last_part(p) =~= seq!['.']);
                }
            }
            let cut: usize = if start < i { i - 1 } else { i };
            assert(without_last_part(p) =~= v@.take(cut as int));
            n = cut;
        } else {
            proof {
                if n > start && last_part(p) == seq!['.'] {
                    assert(last_part(p)[0] == v@[i as int]);
                }
            }
            return n;
        }
    }
}

/// The name that a path ends with, if its last component is one.
pub fn file_name(path: &str) -> (r: Option<String>)
    ensures
        opt_text(r) == name_of(path@),
{
    let v = to_chars(path);
    let n = trimmed_len(&v);
    let start = body_start(&v, n);
    if n == start {
        return None;
    }
    let i = part_start(&v, n, start);
    let ghost part = last_part(v@.take(n as int));
    assert(part.len() == n - i);
    if n - i == 2 && v[i] == '.' && v[i + 1] == '.' {
        assert(part =~= seq!['.', '.']);
        None
    } else {
        proof {
            if part == seq!['.', '.'] {
                assert(part.len() == 2);
                assert(part[0] == v@[i as int]);
                assert(part[1] == v@[i + 1]);
            }
        }
        Some(from_range(&v, i, n))
    }
}

/// The path without its last component, if it has one.
pub fn parent(path: &str) -> (r: Option<String>)
    ensures
        opt_text(r) == parent_of(path@),
{
    let v = to_chars(path);
    let n = trimmed_len(&v);
    let start = body_start(&v, n);
    if n > start {
        let i = part_start(&v, n, start);
        let ghost t = v@.take(n as int);
        let cut: usize = if start < i { i - 1 } else { i };
        proof {
            assert(last_part(t).len() == n - i);
            assert(without_last_part(t) =~= v@.take(cut as int));
        }
        let head = from_range(&v, 0, cut);
        assert(head@ =~= v@.take(cut as int));
        let h = to_chars(head.as_str());
        let m = trimmed_len(&h);
        let out = from_range(&h, 0, m);
        assert(out@ =~= h@.take(m as int));
        Some(out)
    } else if n > 0 && v[0] == '.' {
        Some(String::new())
    } else {
        None
    }
}

/// A file name without its extension.
pub fn file_stem(name: &str) -> (r: String)
    ensures
        r@ == stem_of(name@),
{
    let ext = rest_after_last(name, '.');
    let k: usize = to_chars(ext.as_str()).len();
    let v = to_chars(name);
    proof {
        lemma_after_last(name@, '.');
    }
    if k < v.len() && k + 1 < v.len() {
        let r = from_range(&v, 0, v.len() - k - 1);
        assert(r@ =~= name@.take(name@.len() - k - 1));
        r
    } else {
        name.to_owned()
    }
}

/// A file name's extension.
pub fn extension(name: &str) -> (r: Option<String>)
    ensures
        opt_text(r) == extension_of(name@),
{
    let ext = rest_after_last(name, '.');
    let k: usize = to_chars(ext.as_str()).len();
    let n: usize = to_chars(name).len();
    if k < n && k + 1 < n {
        Some(ext)
    } else {
        None
    }
}

/// The path with `ext` in place of its extension.
pub fn with_extension(path: &str, ext: &str) -> (r: String)
    ensures
        r@ == with_extension_of(path@, ext@),
{
    match file_name(path) {
        None => path.to_owned(),
        Some(name) => {
            let v = to_chars(path);
            let n = trimmed_len(&v);
            let stem = file_stem(name.as_str());
            let ghost t = v@.take(n as int);
            proof {
                lemma_last_part(t);
                lemma_after_last(name@, '.');
            }
            let whole: usize = to_chars(name.as_str()).len();
            let kept: usize = to_chars(stem.as_str()).len();
            let base = from_range(&v, 0, n - whole + kept);
            assert(base@ =~= t.take(t.len() - name@.len() + stem_of(name@).len()));
            if ext.is_empty() {
                base
            } else {
                cat3(base.as_str(), ".", ext)
            }
        },
    }
}

/// Whether a text names an entry of a directory: it is not empty, has no separator,
/// and is neither `.` nor `..`.
pub open spec fn is_plain(name: Seq<char>) -> bool {
    &&& name.len() > 0
    &&& !name.contains('/')
    &&& name != seq!['.']
    &&& name != seq!['.', '.']
}

/// A plain name appended to a path is the path's last part, and nothing is trimmed.
proof fn lemma_joined_name(dir: Seq<char>, name: Seq<char>)
    requires
        is_plain(name),
    ensures
        ({
            let p = joined_path(dir, name);
            &&& name.len() <= p.len()
            &&& p.skip(p.len() - name.len()) == name
            &&& before_body(p) <= p.len() - name.len()
            &&& last_part(p) == name
            &&& trimmed_path(p) == p
        }),
{
    reveal_strlit("/");
    let p = joined_path(dir, name);
    let k = name.len() as int;
    assert(!name.contains('/'));
    assert(name[0] != '/') by {
        if name[0] == '/' {
            assert(name.contains(name[0]));
        }
    }
    assert(p.skip(p.len() - k) =~= name);
    let start = before_body(p) as int;
    if dir.len() == 0 {
        assert(p =~= name);
        if name.len() > 1 && name[1] == '/' {
            assert(name.contains(name[1]));
        }
        if name.len() == 1 && name[0] == '.' {
            assert(name =~= seq!['.']);
        }
        assert(start == 0);
    } else {
        assert(p.len() > k);
    }
    let body = p.skip(start);
    assert(body.skip(body.len() - k) =~= name);
    if k < body.len() {
        assert(body[body.len() - k - 1] == p[p.len() - k - 1]);
        assert(p[p.len() - k - 1] == '/');
    }
    lemma_after_last_is(body, '/', k);
}

/// A file in a directory is found again by its name.
pub proof fn joined_path_ends_in_its_name(dir: Seq<char>, name: Seq<char>)
    requires
        is_plain(name),
    ensures
        name_of(joined_path(dir, name)) == Some(name),
{
    lemma_joined_name(dir, name);
}

/// Changing the extension of a file stays in its directory and keeps its stem.
pub proof fn extension_changes_only_the_name(dir: Seq<char>, name: Seq<char>, ext: Seq<char>)
    requires
        is_plain(name),
        ext.len() > 0,
    ensures
        with_extension_of(joined_path(dir, name), ext) == joined_path(
            dir,
            stem_of(name) + "."@ + ext,
        ),
{
    lemma_joined_name(dir, name);
    lemma_after_last(name, '.');
    reveal_strlit("/");
    let p = joined_path(dir, name);
    let stem = stem_of(name);
    let base = p.take(p.len() - name.len() + stem.len());
    assert(name[0] != '/') by {
        if name[0] == '/' {
            assert(name.contains(name[0]));
        }
    }
    assert(stem.len() > 0 && stem[0] == name[0]);
    let renamed = stem + "."@ + ext;
    assert(renamed[0] == name[0]);
    assert(base + "."@ + ext =~= joined_path(dir, renamed));
}

/// Dropping the extension of a file stays in its directory and leaves its stem.
pub proof fn dropping_the_extension_leaves_the_stem(dir: Seq<char>, name: Seq<char>)
    requires
        is_plain(name),
    ensures
        with_extension_of(joined_path(dir, name), Seq::empty()) == joined_path(dir, stem_of(name)),
{
    lemma_joined_name(dir, name);
    lemma_after_last(name, '.');
    reveal_strlit("/");
    let p = joined_path(dir, name);
    let stem = stem_of(name);
    assert(name[0] != '/') by {
        if name[0] == '/' {
            assert(name.contains(name[0]));
        }
    }
    assert(stem.len() > 0 && stem[0] == name[0]);
    assert(p.take(p.len() - name.len() + stem.len()) =~= joined_path(dir, stem));
}

/// A file whose extension is not `ext` is another one than that with its extension
/// changed to `ext`.
pub proof fn another_extension_is_another_file(dir: Seq<char>, name: Seq<char>, ext: Seq<char>)
    requires
        is_plain(name),
        ext.len() > 0,
        extension_of(name) != Some(ext),
    ensures
        with_extension_of(joined_path(dir, name), ext) != joined_path(dir, name),
{
    reveal_strlit(".");
    reveal_strlit("/");
    lemma_joined_name(dir, name);
    lemma_after_last(name, '.');
    let p = joined_path(dir, name);
    let stem = stem_of(name);
    let renamed = stem + "."@ + ext;
    let q = with_extension_of(p, ext);
    let base = p.take(p.len() - name.len() + stem.len());
    assert(q == base + "."@ + ext);
    if q == p {
        assert(name.len() == renamed.len());
        assert(name =~= renamed) by {
            assert forall|i: int| 0 <= i < name.len() implies name[i] == renamed[i] by {
                let at = p.len() - name.len() + i;
                assert(p.skip(p.len() - name.len())[i] == p[at]);
                assert(q[at] == renamed[i]) by {
                    if i < stem.len() {
                        assert(stem[i] == name[i]);
                    }
                }
            }
        }
        assert(name.skip(name.len() - ext.len()) =~= ext);
        assert(stem.len() < name.len());
        assert(after_last(name, '.').len() == ext.len());
    }
}

} // verus!
