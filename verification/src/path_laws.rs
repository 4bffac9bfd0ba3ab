//! What holds of the operations on paths.

use crate::path::{
    before_body, extension_of, is_plain, joined_path, last_part, lemma_after_last_is, name_of,
    parent_of, stem_of, trimmed_path, with_extension_of, without_last_part,
};
use vstd::prelude::*;

verus! {

/// `rest` below `dir`: behind it, with one separator between the two unless there is
/// nothing before it or a separator already.
pub open spec fn under(dir: Seq<char>, rest: Seq<char>) -> Seq<char> {
    if dir.len() > 0 && dir.last() != '/' {
        dir + seq!['/'] + rest
    } else {
        dir + rest
    }
}

/// A relative path is joined to any directory by exactly one separator, and an absolute
/// path stands for itself.
pub proof fn a_relative_path_goes_under_its_base(base: Seq<char>, path: Seq<char>)
    ensures
        path.len() > 0 && path[0] == '/' ==> joined_path(base, path) == path,
        path.len() == 0 || path[0] != '/' ==> joined_path(base, path) == under(base, path),
{
    reveal_strlit("/");
    assert("/"@ =~= seq!['/']);
}

/// Any name can stand for an entry of a directory, but for none at all, those with a
/// separator in them, `.` and `..`.
pub proof fn any_name_but_dots_is_plain(name: Seq<char>)
    ensures
        is_plain(name) <==> {
            &&& name.len() > 0
            &&& forall|i: int| 0 <= i < name.len() ==> #[trigger] name[i] != '/'
            &&& !(name.len() == 1 && name[0] == '.')
            &&& !(name.len() == 2 && name[0] == '.' && name[1] == '.')
        },
{
    if name.len() == 1 && name[0] == '.' {
        assert(name =~= seq!['.']);
    }
    if name.len() == 2 && name[0] == '.' && name[1] == '.' {
        assert(name =~= seq!['.', '.']);
    }
    assert(seq!['.'].len() == 1 && seq!['.'][0] == '.');
    assert(seq!['.', '.'].len() == 2 && seq!['.', '.'][0] == '.' && seq!['.', '.'][1] == '.');
    if name.contains('/') {
        let i = choose|i: int| 0 <= i < name.len() && name[i] == '/';
        assert(name[i] == '/');
    } else {
        assert forall|i: int| 0 <= i < name.len() implies #[trigger] name[i] != '/' by {
            if name[i] == '/' {
                assert(name.contains(name[i]));
            }
        }
    }
}

/// What is below what is below a directory is below the directory.
pub proof fn lemma_under(dir: Seq<char>, a: Seq<char>, b: Seq<char>)
    requires
        a.len() > 0,
        a.last() != '/',
    ensures
        under(under(dir, a), b) == under(dir, a + seq!['/'] + b),
{
    let inner = under(dir, a);
    assert(inner.last() == a.last());
    assert(under(inner, b) =~= under(dir, a + seq!['/'] + b));
}

/// The extension of a name is what stands behind its last dot, and its stem what stands
/// before that; a dot at the start of the name does not count.
pub proof fn the_extension_is_behind_the_last_dot(stem: Seq<char>, ext: Seq<char>)
    requires
        !ext.contains('.'),
    ensures
        stem.len() > 0 ==> extension_of(stem + seq!['.'] + ext) == Some(ext),
        stem.len() > 0 ==> stem_of(stem + seq!['.'] + ext) == stem,
        extension_of(seq!['.'] + ext) is None,
        stem_of(seq!['.'] + ext) == seq!['.'] + ext,
        extension_of(ext) is None,
        stem_of(ext) == ext,
{
    let name = stem + seq!['.'] + ext;
    assert(name.skip(name.len() - ext.len()) =~= ext);
    lemma_after_last_is(name, '.', ext.len() as int);
    assert(name.take(stem.len() as int) =~= stem);
    let hidden = seq!['.'] + ext;
    assert(hidden.skip(hidden.len() - ext.len()) =~= ext);
    lemma_after_last_is(hidden, '.', ext.len() as int);
    assert(ext.skip(0) =~= ext);
    lemma_after_last_is(ext, '.', ext.len() as int);
}

/// The last part of a path that ends in a separator and `part`.
proof fn lemma_part_behind(p: Seq<char>, part: Seq<char>)
    requires
        p.len() > 0,
        !part.contains('/'),
    ensures
        ({
            let whole = p + seq!['/'] + part;
            &&& whole.len() > before_body(whole)
            &&& last_part(whole) == part
            &&& without_last_part(whole) == p
        }),
{
    let whole = p + seq!['/'] + part;
    let body = whole.skip(before_body(whole) as int);
    let k = part.len() as int;
    assert(body.skip(body.len() - k) =~= part);
    assert(body[body.len() - k - 1] == '/');
    lemma_after_last_is(body, '/', k);
    assert(without_last_part(whole) =~= p);
}

/// Separators and `.` components at the end of a path count for nothing.
pub proof fn what_a_path_ends_with_counts_for_nothing(p: Seq<char>)
    requires
        p.len() > 0,
    ensures
        trimmed_path(p + seq!['/']) == trimmed_path(p),
        trimmed_path(p + seq!['/', '.']) == trimmed_path(p),
        name_of(p + seq!['/']) == name_of(p),
        name_of(p + seq!['/', '.']) == name_of(p),
        parent_of(p + seq!['/']) == parent_of(p),
        parent_of(p + seq!['/', '.']) == parent_of(p),
        forall|ext: Seq<char>|
            name_of(p) is Some ==> #[trigger] with_extension_of(p + seq!['/'], ext)
                == with_extension_of(p, ext),
{
    let none = Seq::<char>::empty();
    assert(p + seq!['/'] =~= p + seq!['/'] + none);
    lemma_part_behind(p, none);
    assert(p + seq!['/', '.'] =~= p + seq!['/'] + seq!['.']);
    lemma_part_behind(p, seq!['.']);
}

/// A path that ends in a name ends in that name, and what is before it is its parent;
/// one that ends in `..` ends in no name.
pub proof fn a_path_is_its_parent_and_its_name(p: Seq<char>, name: Seq<char>)
    requires
        is_plain(name),
    ensures
        p.len() > 0 ==> name_of(p + seq!['/'] + name) == Some(name),
        p.len() > 0 ==> parent_of(p + seq!['/'] + name) == Some(trimmed_path(p)),
        p.len() > 0 ==> name_of(p + seq!['/', '.', '.']) is None,
        name_of(seq!['/'] + name) == Some(name),
        parent_of(seq!['/'] + name) == Some(seq!['/']),
        name_of(name) == Some(name),
        parent_of(name) == Some(Seq::<char>::empty()),
        name_of(seq!['/']) is None,
        parent_of(seq!['/']) is None,
        name_of(Seq::empty()) is None,
        parent_of(Seq::empty()) is None,
        name_of(seq!['.']) is None,
        parent_of(seq!['.']) == Some(Seq::<char>::empty()),
        name_of(seq!['.', '.']) is None,
        parent_of(seq!['.', '.']) == Some(Seq::<char>::empty()),
        name_of(seq!['/', '.']) is None,
        name_of(seq!['/', '.', '.']) is None,
{
    if p.len() > 0 {
        lemma_part_behind(p, name);
        let up = p + seq!['/', '.', '.'];
        assert(up =~= p + seq!['/'] + seq!['.', '.']);
        lemma_part_behind(p, seq!['.', '.']);
        assert(last_part(up).len() == 2);
        assert(trimmed_path(up) == up);
    }
    assert(name[0] != '/') by {
        if name[0] == '/' {
            assert(name.contains(name[0]));
        }
    }
    let rooted = seq!['/'] + name;
    let root = seq!['/'];
    let none = Seq::<char>::empty();
    assert(rooted.skip(1) =~= name);
    assert(name.skip(0) =~= name);
    lemma_after_last_is(name, '/', name.len() as int);
    assert(last_part(rooted) == name);
    assert(without_last_part(rooted) =~= root);
    assert(trimmed_path(root) == root);
    assert(trimmed_path(none) == none);
    if name.len() > 1 && name[1] == '/' {
        assert(name.contains(name[1]));
    }
    if name.len() == 1 && name[0] == '.' {
        assert(name =~= seq!['.']);
    }
    let dots = seq!['.', '.'];
    assert(dots.skip(0) =~= dots);
    assert(!dots.contains('/'));
    lemma_after_last_is(dots, '/', 2);
    assert(last_part(dots) == dots);
    assert(dots.len() == 2);
    assert(trimmed_path(dots) == dots);
    assert(without_last_part(dots) =~= none);
    assert(trimmed_path(seq!['.']) == seq!['.']);
    let here = seq!['/', '.'];
    assert(here.skip(1) =~= seq!['.']);
    assert(seq!['.'].skip(0) =~= seq!['.']);
    assert(!seq!['.'].contains('/'));
    lemma_after_last_is(seq!['.'], '/', 1);
    assert(last_part(here) == seq!['.']);
    assert(without_last_part(here) =~= root);
    let above = seq!['/', '.', '.'];
    assert(above.skip(1) =~= dots);
    assert(last_part(above) == dots);
    assert(trimmed_path(above) == above);
    assert(before_body(name) == 0);
    assert(last_part(name) == name);
    assert(without_last_part(name) =~= none);
}

/// Another extension takes the place of that of the name, where it has one.
pub proof fn another_extension_takes_its_place(
    dir: Seq<char>,
    stem: Seq<char>,
    old_ext: Seq<char>,
    ext: Seq<char>,
)
    requires
        is_plain(stem + seq!['.'] + old_ext),
        stem.len() > 0,
        !old_ext.contains('.'),
        ext.len() > 0,
    ensures
        with_extension_of(under(dir, stem + seq!['.'] + old_ext), ext) == under(
            dir,
            stem + seq!['.'] + ext,
        ),
        with_extension_of(under(dir, stem + seq!['.'] + old_ext), Seq::empty()) == under(
            dir,
            stem,
        ),
{
    let name = stem + seq!['.'] + old_ext;
    reveal_strlit(".");
    assert("."@ =~= seq!['.']);
    the_extension_is_behind_the_last_dot(stem, old_ext);
    crate::path::extension_changes_only_the_name(dir, name, ext);
    crate::path::dropping_the_extension_leaves_the_stem(dir, name);
    assert(name[0] != '/') by {
        if name[0] == '/' {
            assert(name.contains(name[0]));
        }
    }
    assert(stem[0] == name[0]);
    let renamed = stem + seq!['.'] + ext;
    assert(renamed[0] == stem[0]);
    a_relative_path_goes_under_its_base(dir, name);
    a_relative_path_goes_under_its_base(dir, stem);
    a_relative_path_goes_under_its_base(dir, renamed);
}

/// A name without an extension gets one behind it, also where it begins with a dot, and a
/// path that ends in no name stays as it is.
pub proof fn a_first_extension_goes_behind_the_name(
    dir: Seq<char>,
    name: Seq<char>,
    ext: Seq<char>,
    path: Seq<char>,
)
    requires
        is_plain(name),
        !name.drop_first().contains('.'),
        ext.len() > 0,
    ensures
        with_extension_of(under(dir, name), ext) == under(dir, name + seq!['.'] + ext),
        with_extension_of(under(dir, name), Seq::empty()) == under(dir, name),
        name_of(path) is None ==> with_extension_of(path, ext) == path,
{
    reveal_strlit(".");
    assert("."@ =~= seq!['.']);
    let rest = name.drop_first();
    assert(stem_of(name) == name) by {
        if name[0] == '.' {
            assert(name =~= seq!['.'] + rest);
            the_extension_is_behind_the_last_dot(rest, rest);
        } else {
            assert(!name.contains('.')) by {
                if name.contains('.') {
                    let i = choose|i: int| 0 <= i < name.len() && name[i] == '.';
                    assert(rest[i - 1] == '.');
                }
            }
            the_extension_is_behind_the_last_dot(name, name);
        }
    }
    crate::path::extension_changes_only_the_name(dir, name, ext);
    crate::path::dropping_the_extension_leaves_the_stem(dir, name);
    if name[0] == '/' {
        assert(name.contains(name[0]));
    }
    let renamed = name + seq!['.'] + ext;
    assert(renamed[0] == name[0]);
    a_relative_path_goes_under_its_base(dir, name);
    a_relative_path_goes_under_its_base(dir, renamed);
}

} // verus!
