//! Text as a sequence of characters: the handful of string operations that
//! argument parsing, manifest reading and console matching are made of, each
//! with an exact statement of its result.

use vstd::prelude::*;
use vstd::utf8::{decode_utf8, encode_utf8, encode_utf8_decode_utf8, valid_utf8};

verus! {

/// The contents of a list of strings.
pub open spec fn texts(v: Seq<String>) -> Seq<Seq<char>> {
    Seq::new(v.len(), |i: int| v[i]@)
}

/// The contents of an optional string.
pub open spec fn opt_text(o: Option<String>) -> Option<Seq<char>> {
    match o {
        Some(s) => Some(s@),
        None => None,
    }
}

/// `String::push` of the standard library: the character goes to the end.
pub assume_specification[ String::push ](s: &mut String, c: char)
    ensures
        final(s)@ == old(s)@.push(c),
;

/// The text that bytes encode, if they are UTF-8.
pub open spec fn utf8_text(bytes: Seq<u8>) -> Option<Seq<char>> {
    if valid_utf8(bytes) {
        Some(decode_utf8(bytes))
    } else {
        None
    }
}

/// What is said of bytes that are not UTF-8.
pub uninterp spec fn utf8_problem(bytes: Seq<u8>) -> Seq<char>;

/// `String::from_utf8` of the standard library: bytes that are UTF-8 become the
/// text that they encode, others are refused. What the error says is named, not
/// stated.
#[verifier::external_body]
pub(crate) fn from_utf8(bytes: &Vec<u8>) -> (r: Result<String, String>)
    ensures
        match r {
            Ok(text) => utf8_text(bytes@) == Some(text@),
            Err(problem) => utf8_text(bytes@) is None && problem@ == utf8_problem(bytes@),
        },
{
    String::from_utf8(bytes.clone()).map_err(|e| e.to_string())
}

/// The text that bytes encode, with replacement characters for what is not
/// UTF-8.
pub uninterp spec fn lossy_text(bytes: Seq<u8>) -> Seq<char>;

/// `String::from_utf8_lossy` of the standard library. Bytes that are UTF-8 become
/// the text that they encode; where replacement characters go otherwise is named,
/// not stated.
#[verifier::external_body]
pub(crate) fn from_utf8_lossy(bytes: &Vec<u8>) -> (r: String)
    ensures
        r@ == lossy_text(bytes@),
        valid_utf8(bytes@) ==> r@ == decode_utf8(bytes@),
{
    String::from_utf8_lossy(bytes).into_owned()
}

/// The text that bytes are shown as: what they encode, with replacement characters
/// where they are not UTF-8.
pub open spec fn readable_text(bytes: Seq<u8>) -> Seq<char> {
    if valid_utf8(bytes) {
        decode_utf8(bytes)
    } else {
        lossy_text(bytes)
    }
}

/// The text that bytes are shown as.
pub fn readable(bytes: &Vec<u8>) -> (r: String)
    ensures
        r@ == readable_text(bytes@),
        r@ == lossy_text(bytes@),
{
    from_utf8_lossy(bytes)
}

/// Unicode's `White_Space` property.
pub open spec fn is_white_space(c: char) -> bool {
    ||| '\u{9}' <= c <= '\u{d}'
    ||| c == '\u{20}'
    ||| c == '\u{85}'
    ||| c == '\u{a0}'
    ||| c == '\u{1680}'
    ||| '\u{2000}' <= c <= '\u{200a}'
    ||| c == '\u{2028}'
    ||| c == '\u{2029}'
    ||| c == '\u{202f}'
    ||| c == '\u{205f}'
    ||| c == '\u{3000}'
}

/// Where `c` first occurs in `s`; the length of `s` where it does not.
pub open spec fn find(s: Seq<char>, c: char) -> int
    decreases s.len(),
{
    if s.len() == 0 || s[0] == c {
        0
    } else {
        1 + find(s.drop_first(), c)
    }
}

/// A line without the carriage return that ends it, if one does.
pub open spec fn chomp(line: Seq<char>) -> Seq<char> {
    if line.len() > 0 && line.last() == '\r' {
        line.drop_last()
    } else {
        line
    }
}

/// The lines of `s`. A line ends in `\n` or `\r\n`, neither of which belongs
/// to it; the last line need not end at all.
pub open spec fn lines_of(s: Seq<char>) -> Seq<Seq<char>>
    decreases s.len(),
{
    let i = find(s, '\n');
    if s.len() == 0 {
        Seq::empty()
    } else if i < 0 || i >= s.len() {
        seq![s]
    } else {
        seq![chomp(s.take(i))] + lines_of(s.skip(i + 1))
    }
}

/// The pieces, with `sep` between each two neighbours.
pub open spec fn joined(pieces: Seq<Seq<char>>, sep: Seq<char>) -> Seq<char>
    decreases pieces.len(),
{
    if pieces.len() == 0 {
        Seq::empty()
    } else if pieces.len() == 1 {
        pieces[0]
    } else {
        joined(pieces.drop_last(), sep) + sep + pieces.last()
    }
}

/// A set of characters to trim by.
pub enum CharClass {
    /// Unicode white space.
    Space,
    /// One character.
    Only(char),
}

impl CharClass {
    pub open spec fn has(self, c: char) -> bool {
        match self {
            CharClass::Space => is_white_space(c),
            CharClass::Only(d) => c == d,
        }
    }
}

/// `s` without the characters of `class` that it starts with.
pub open spec fn trimmed_start(s: Seq<char>, class: CharClass) -> Seq<char>
    decreases s.len(),
{
    if s.len() > 0 && class.has(s[0]) {
        trimmed_start(s.drop_first(), class)
    } else {
        s
    }
}

/// `s` without the characters of `class` that it ends with.
pub open spec fn trimmed_end(s: Seq<char>, class: CharClass) -> Seq<char>
    decreases s.len(),
{
    if s.len() > 0 && class.has(s.last()) {
        trimmed_end(s.drop_last(), class)
    } else {
        s
    }
}

/// `s` without the characters of `class` at both its ends.
pub open spec fn trimmed(s: Seq<char>, class: CharClass) -> Seq<char> {
    trimmed_end(trimmed_start(s, class), class)
}

/// `needle` stands in `hay` at position `i`.
pub open spec fn occurs_at(hay: Seq<char>, needle: Seq<char>, i: int) -> bool {
    &&& 0 <= i
    &&& i + needle.len() <= hay.len()
    &&& hay.subrange(i, i + needle.len()) == needle
}

/// `needle` stands somewhere in `hay`.
pub open spec fn contains_text(hay: Seq<char>, needle: Seq<char>) -> bool {
    exists|i: int| occurs_at(hay, needle, i)
}

/// What follows `prefix` in `s`, if `s` starts with it.
pub open spec fn after_prefix(s: Seq<char>, prefix: Seq<char>) -> Option<Seq<char>> {
    if prefix.is_prefix_of(s) {
        Some(s.skip(prefix.len() as int))
    } else {
        None
    }
}

/// What precedes `suffix` in `s`, if `s` ends with it.
pub open spec fn before_suffix(s: Seq<char>, suffix: Seq<char>) -> Option<Seq<char>> {
    if suffix.is_suffix_of(s) {
        Some(s.take(s.len() - suffix.len()))
    } else {
        None
    }
}

/// What stands before and after the first `c` in `s`, if there is one.
pub open spec fn split_at_first(s: Seq<char>, c: char) -> Option<(Seq<char>, Seq<char>)> {
    let i = find(s, c);
    if 0 <= i < s.len() {
        Some((s.take(i), s.skip(i + 1)))
    } else {
        None
    }
}

/// What stands after the last `c` in `s`; all of `s` where there is none.
pub open spec fn after_last(s: Seq<char>, c: char) -> Seq<char>
    decreases s.len(),
{
    let i = find(s, c);
    if 0 <= i < s.len() {
        after_last(s.skip(i + 1), c)
    } else {
        s
    }
}

/// `s` without its occurrences of `c`.
pub open spec fn without(s: Seq<char>, c: char) -> Seq<char>
    decreases s.len(),
{
    if s.len() == 0 {
        s
    } else if s.last() == c {
        without(s.drop_last(), c)
    } else {
        without(s.drop_last(), c).push(s.last())
    }
}

/// A character is dropped from two texts as it is from both of them together.
pub proof fn lemma_without_parts(a: Seq<char>, b: Seq<char>, c: char)
    ensures
        without(a + b, c) == without(a, c) + without(b, c),
    decreases b.len(),
{
    if b.len() == 0 {
        assert(a + b =~= a);
        assert(without(a, c) + without(b, c) =~= without(a, c));
    } else {
        let less = b.drop_last();
        lemma_without_parts(a, less, c);
        assert((a + b).drop_last() =~= a + less);
        assert(without(a + b, c) =~= without(a, c) + without(b, c));
    }
}

/// `s` with `to` for each `from`.
pub open spec fn replaced(s: Seq<char>, from: char, to: char) -> Seq<char> {
    s.map_values(|c: char| if c == from { to } else { c })
}

/// The last `n` lines of `s`, or all of them where there are fewer.
pub open spec fn tail_of(s: Seq<char>, n: nat) -> Seq<char> {
    let all = lines_of(s);
    let first = if all.len() > n { all.len() - n } else { 0 };
    joined(all.skip(first), seq!['\n'])
}

pub open spec fn is_digit(c: char) -> bool {
    '0' <= c <= '9'
}

/// The number that a run of decimal digits writes.
pub open spec fn decimal_value(s: Seq<char>) -> nat
    decreases s.len(),
{
    if s.len() == 0 {
        0
    } else {
        10 * decimal_value(s.drop_last()) + (s.last() as nat - '0' as nat) as nat
    }
}

/// `s` without a leading plus sign.
pub open spec fn unsigned_part(s: Seq<char>) -> Seq<char> {
    if s.len() > 0 && s[0] == '+' {
        s.drop_first()
    } else {
        s
    }
}

/// The 64-bit number that `s` writes: decimal digits, at least one, after an
/// optional plus sign.
pub open spec fn number_of(s: Seq<char>) -> Option<u64> {
    let d = unsigned_part(s);
    if d.len() > 0 && (forall|i: int| 0 <= i < d.len() ==> is_digit(#[trigger] d[i]))
        && decimal_value(d) <= u64::MAX {
        Some(decimal_value(d) as u64)
    } else {
        None
    }
}

/// What is said of a text that writes no 64-bit number.
pub uninterp spec fn number_problem(s: Seq<char>) -> Seq<char>;

/// `str::parse` of the standard library on a text that writes no 64-bit number: what
/// its error says, which is named, not stated.
#[verifier::external_body]
pub(crate) fn number_error(s: &str) -> (r: String)
    requires
        number_of(s@) is None,
    ensures
        r@ == number_problem(s@),
{
    match s.parse::<u64>() {
        Ok(n) => n.to_string(),
        Err(e) => e.to_string(),
    }
}

/// `n` in decimal, without leading zeros.
pub open spec fn decimal(n: nat) -> Seq<char>
    decreases n,
{
    if n < 10 {
        seq![('0' as nat + n) as char]
    } else {
        decimal(n / 10).push(('0' as nat + n % 10) as char)
    }
}

/// `find` is the first position that holds `c`.
pub proof fn lemma_find(s: Seq<char>, c: char)
    ensures
        0 <= find(s, c) <= s.len(),
        find(s, c) < s.len() ==> s[find(s, c)] == c,
        forall|j: int| 0 <= j < find(s, c) ==> s[j] != c,
    decreases s.len(),
{
    if s.len() > 0 && s[0] != c {
        lemma_find(s.drop_first(), c);
        let k = find(s.drop_first(), c);
        assert(k < s.len() - 1 ==> s.drop_first()[k] == s[k + 1]);
        assert forall|j: int| 0 <= j < find(s, c) implies s[j] != c by {
            if j > 0 {
                assert(s.drop_first()[j - 1] == s[j]);
            }
        }
    }
}

/// The first position that holds `c`, or the end where none does, is `find`.
pub proof fn lemma_find_is(s: Seq<char>, c: char, i: int)
    requires
        0 <= i <= s.len(),
        i < s.len() ==> s[i] == c,
        forall|j: int| 0 <= j < i ==> s[j] != c,
    ensures
        find(s, c) == i,
{
    lemma_find(s, c);
    let k = find(s, c);
    if k < i {
        assert(s[k] != c);
    }
    if i < k {
        assert(s[i] != c);
    }
}


/// The characters of `s`.
pub fn to_chars(s: &str) -> (r: Vec<char>)
    ensures
        r@ == s@,
{
    let mut v: Vec<char> = Vec::new();
    for c in it: s.chars()
        invariant
            v@ =~= it.seq().take(it.index() as int),
    {
        v.push(c);
    }
    v
}

/// The string made of `v[from..to]`.
pub fn from_range(v: &Vec<char>, from: usize, to: usize) -> (r: String)
    requires
        from <= to <= v@.len(),
    ensures
        r@ == v@.subrange(from as int, to as int),
{
    let mut s = String::new();
    for i in from..to
        invariant
            from <= to <= v@.len(),
            s@ =~= v@.subrange(from as int, i as int),
    {
        s.push(v[i]);
    }
    s
}

/// Whether `a` and `b` are the same text.
pub fn same(a: &str, b: &str) -> (r: bool)
    ensures
        r == (a@ == b@),
{
    let x = a.as_bytes();
    let y = b.as_bytes();
    if x.len() != y.len() {
        return false;
    }
    let n: usize = x.len();
    for i in 0..n
        invariant
            n == x@.len(),
            n == y@.len(),
            x@ == encode_utf8(a@),
            y@ == encode_utf8(b@),
            forall|j: int| 0 <= j < i ==> x@[j] == y@[j],
    {
        if x[i] != y[i] {
            return false;
        }
    }
    proof {
        assert(x@ =~= y@);
        encode_utf8_decode_utf8(a@);
        encode_utf8_decode_utf8(b@);
    }
    true
}

/// `a` followed by `b`.
pub fn cat2(a: &str, b: &str) -> (r: String)
    ensures
        r@ == a@ + b@,
{
    a.to_owned().concat(b)
}

/// `a`, `b` and `c` in a row.
pub fn cat3(a: &str, b: &str, c: &str) -> (r: String)
    ensures
        r@ == a@ + b@ + c@,
{
    a.to_owned().concat(b).concat(c)
}

/// `a`, `b`, `c` and `d` in a row.
pub fn cat4(a: &str, b: &str, c: &str, d: &str) -> (r: String)
    ensures
        r@ == a@ + b@ + c@ + d@,
{
    a.to_owned().concat(b).concat(c).concat(d)
}

/// `a`, `b`, `c`, `d` and `e` in a row.
pub fn cat5(a: &str, b: &str, c: &str, d: &str, e: &str) -> (r: String)
    ensures
        r@ == a@ + b@ + c@ + d@ + e@,
{
    a.to_owned().concat(b).concat(c).concat(d).concat(e)
}

/// Adds a copy of `s` to the end of a list.
pub fn push_text(v: &mut Vec<String>, s: &str)
    ensures
        texts(final(v)@) == texts(old(v)@).push(s@),
{
    v.push(s.to_owned());
    assert(texts(v@) =~= texts(old(v)@).push(s@));
}

/// Adds copies of `from[start..]` to the end of a list.
pub fn push_texts(v: &mut Vec<String>, from: &Vec<String>, start: usize)
    requires
        start <= from@.len(),
    ensures
        texts(final(v)@) == texts(old(v)@) + texts(from@).skip(start as int),
{
    let n: usize = from.len();
    let ghost before = texts(v@);
    assert(texts(from@).subrange(start as int, start as int) =~= Seq::<Seq<char>>::empty());
    for i in start..n
        invariant
            start <= n,
            n == from@.len(),
            texts(v@) =~= before + texts(from@).subrange(start as int, i as int),
    {
        push_text(v, from[i].as_str());
    }
}

/// A copy of an optional string.
pub fn copy_opt(o: &Option<String>) -> (r: Option<String>)
    ensures
        opt_text(r) == opt_text(*o),
{
    match o {
        Some(s) => Some(s.clone()),
        None => None,
    }
}

/// A copy of a list of strings.
pub fn copy_texts(v: &Vec<String>) -> (r: Vec<String>)
    ensures
        texts(r@) == texts(v@),
{
    let mut r: Vec<String> = Vec::new();
    push_texts(&mut r, v, 0);
    assert(texts(r@) =~= texts(v@));
    r
}

impl CharClass {
    /// Whether `c` belongs to the class.
    pub fn test(&self, c: char) -> (r: bool)
        ensures
            r == self.has(c),
    {
        match self {
            CharClass::Space => ('\u{9}' <= c && c <= '\u{d}') || c == '\u{20}' || c == '\u{85}'
                || c == '\u{a0}' || c == '\u{1680}' || ('\u{2000}' <= c && c <= '\u{200a}') || c
                == '\u{2028}' || c == '\u{2029}' || c == '\u{202f}' || c == '\u{205f}' || c
                == '\u{3000}',
            CharClass::Only(d) => c == *d,
        }
    }
}

/// `s` without the characters of `class` at both its ends.
pub fn trim_by(s: &str, class: CharClass) -> (r: String)
    ensures
        r@ == trimmed(s@, class),
{
    let v = to_chars(s);
    let n: usize = v.len();
    let mut from: usize = 0;
    assert(v@.skip(0) =~= v@);
    while from < n && class.test(v[from])
        invariant
            from <= n,
            n == v@.len(),
            trimmed_start(v@.skip(from as int), class) == trimmed_start(v@, class),
        decreases n - from,
    {
        assert(v@.skip(from as int).drop_first() =~= v@.skip(from + 1));
        from = from + 1;
    }
    let mut to: usize = n;
    assert(trimmed_start(v@, class) == v@.skip(from as int));
    assert(v@.subrange(from as int, n as int) =~= v@.skip(from as int));
    while from < to && class.test(v[to - 1])
        invariant
            from <= to <= n,
            n == v@.len(),
            trimmed_end(v@.subrange(from as int, to as int), class) == trimmed_end(
                v@.skip(from as int),
                class,
            ),
        decreases to,
    {
        assert(v@.subrange(from as int, to as int).drop_last() =~= v@.subrange(
            from as int,
            to - 1,
        ));
        to = to - 1;
    }
    from_range(&v, from, to)
}

/// `s` without white space at its ends.
pub fn trim(s: &str) -> (r: String)
    ensures
        r@ == trimmed(s@, CharClass::Space),
{
    trim_by(s, CharClass::Space)
}

/// Where `c` first occurs in `v[from..]`, as a position in `v`.
pub fn find_from(v: &Vec<char>, c: char, from: usize) -> (r: usize)
    requires
        from <= v@.len(),
    ensures
        r == from + find(v@.skip(from as int), c),
        from <= r <= v@.len(),
{
    let n: usize = v.len();
    let mut i: usize = from;
    while i < n && v[i] != c
        invariant
            from <= i <= n,
            n == v@.len(),
            forall|j: int| from <= j < i ==> v@[j] != c,
        decreases n - i,
    {
        i = i + 1;
    }
    proof {
        lemma_find_is(v@.skip(from as int), c, i - from);
    }
    i
}

/// The lines of `s`.
pub fn lines(s: &str) -> (r: Vec<String>)
    ensures
        texts(r@) == lines_of(s@),
{
    let v = to_chars(s);
    let n: usize = v.len();
    let mut out: Vec<String> = Vec::new();
    let mut at: usize = 0;
    assert(v@.skip(0) =~= v@);
    assert(texts(out@) =~= Seq::<Seq<char>>::empty());
    while at < n
        invariant
            at <= n,
            n == v@.len(),
            texts(out@) + lines_of(v@.skip(at as int)) =~= lines_of(v@),
        decreases n - at,
    {
        let ghost rest = v@.skip(at as int);
        let ghost had = texts(out@);
        let end = find_from(&v, '\n', at);
        if end == n {
            let line = from_range(&v, at, n);
            assert(line@ =~= rest);
            push_text(&mut out, line.as_str());
            assert(lines_of(rest) =~= seq![rest]);
            at = n;
            assert(v@.skip(at as int) =~= Seq::<char>::empty());
            assert(lines_of(v@.skip(at as int)) =~= Seq::<Seq<char>>::empty());
        } else {
            let cut: usize = if end > at && v[end - 1] == '\r' { end - 1 } else { end };
            let line = from_range(&v, at, cut);
            assert(rest.take(end - at) =~= v@.subrange(at as int, end as int));
            assert(line@ =~= chomp(rest.take(end - at)));
            push_text(&mut out, line.as_str());
            assert(rest.skip(end - at + 1) =~= v@.skip(end + 1));
            assert(lines_of(rest) =~= seq![line@] + lines_of(v@.skip(end + 1)));
            at = end + 1;
        }
    }
    assert(v@.skip(at as int) =~= Seq::<char>::empty());
    out
}

/// The pieces `v[from..]` with `sep` between each two neighbours.
pub fn join(v: &Vec<String>, from: usize, sep: &str) -> (r: String)
    requires
        from <= v@.len(),
    ensures
        r@ == joined(texts(v@).skip(from as int), sep@),
{
    let ghost all = texts(v@).skip(from as int);
    let n: usize = v.len();
    let mut s = String::new();
    for i in from..n
        invariant
            from <= n,
            n == v@.len(),
            all == texts(v@).skip(from as int),
            s@ =~= joined(all.take(i - from), sep@),
    {
        assert(all.take(i - from + 1).drop_last() =~= all.take(i - from));
        assert(all.take(i - from + 1).last() == v@[i as int]@);
        if i > from {
            s.append(sep);
        }
        s.append(v[i].as_str());
    }
    assert(all.take(n - from) =~= all);
    s
}

/// Whether `needle` stands in `hay` at position `i`.
pub fn occurs(hay: &Vec<char>, needle: &Vec<char>, i: usize) -> (r: bool)
    requires
        i <= hay@.len(),
    ensures
        r == occurs_at(hay@, needle@, i as int),
{
    let m: usize = needle.len();
    if hay.len() - i < m {
        return false;
    }
    for k in 0..m
        invariant
            m == needle@.len(),
            i + m <= hay.len(),
            forall|j: int| 0 <= j < k ==> hay@[i + j] == needle@[j],
    {
        if hay[i + k] != needle[k] {
            assert(hay@.subrange(i as int, i + m)[k as int] != needle@[k as int]);
            return false;
        }
    }
    assert(hay@.subrange(i as int, i + m) =~= needle@);
    true
}

/// Whether `needle` stands in `hay`.
pub fn contains(hay: &Vec<char>, needle: &str) -> (r: bool)
    ensures
        r == contains_text(hay@, needle@),
{
    let nv = to_chars(needle);
    let n: usize = hay.len();
    let mut i: usize = 0;
    loop
        invariant
            i <= n,
            n == hay@.len(),
            nv@ == needle@,
            forall|j: int| 0 <= j < i ==> !occurs_at(hay@, nv@, j),
        decreases n - i,
    {
        if occurs(hay, &nv, i) {
            return true;
        }
        if i == n {
            return false;
        }
        i = i + 1;
    }
}

/// What follows `prefix` in `s`, if `s` starts with it.
pub fn strip_prefix(s: &str, prefix: &str) -> (r: Option<String>)
    ensures
        opt_text(r) == after_prefix(s@, prefix@),
{
    let v = to_chars(s);
    let p = to_chars(prefix);
    if occurs(&v, &p, 0) {
        let r = from_range(&v, p.len(), v.len());
        assert(r@ =~= s@.skip(prefix@.len() as int));
        Some(r)
    } else {
        None
    }
}

/// What precedes `suffix` in `s`, if `s` ends with it.
pub fn strip_suffix(s: &str, suffix: &str) -> (r: Option<String>)
    ensures
        opt_text(r) == before_suffix(s@, suffix@),
{
    let v = to_chars(s);
    let p = to_chars(suffix);
    if p.len() <= v.len() && occurs(&v, &p, v.len() - p.len()) {
        let r = from_range(&v, 0, v.len() - p.len());
        assert(r@ =~= s@.take(s@.len() - suffix@.len()));
        Some(r)
    } else {
        None
    }
}

/// What stands before and after the first `c` in `s`, if there is one.
pub fn split_once(s: &str, c: char) -> (r: Option<(String, String)>)
    ensures
        match r {
            Some((a, b)) => split_at_first(s@, c) == Some((a@, b@)),
            None => split_at_first(s@, c) is None,
        },
{
    let v = to_chars(s);
    assert(v@.skip(0) =~= v@);
    let i = find_from(&v, c, 0);
    if i < v.len() {
        let a = from_range(&v, 0, i);
        let b = from_range(&v, i + 1, v.len());
        assert(a@ =~= s@.take(i as int));
        assert(b@ =~= s@.skip(i + 1));
        Some((a, b))
    } else {
        None
    }
}

/// What stands after the last `c` in `s`; all of `s` where there is none.
pub fn rest_after_last(s: &str, c: char) -> (r: String)
    ensures
        r@ == after_last(s@, c),
{
    let v = to_chars(s);
    let n: usize = v.len();
    let mut at: usize = 0;
    assert(v@.skip(0) =~= v@);
    loop
        invariant
            at <= n,
            n == v@.len(),
            after_last(v@.skip(at as int), c) == after_last(v@, c),
            v@ == s@,
        decreases n - at,
    {
        let ghost rest = v@.skip(at as int);
        let end = find_from(&v, c, at);
        if end == n {
            let r = from_range(&v, at, n);
            assert(r@ =~= rest);
            return r;
        }
        assert(rest.skip(end - at + 1) =~= v@.skip(end + 1));
        at = end + 1;
    }
}

/// `s` with `to` for each `from`.
pub fn replace_char(s: &str, from: char, to: char) -> (r: String)
    ensures
        r@ == replaced(s@, from, to),
{
    let v = to_chars(s);
    let n: usize = v.len();
    let mut out = String::new();
    for i in 0..n
        invariant
            n == v@.len(),
            out@ =~= replaced(v@, from, to).take(i as int),
    {
        let c = if v[i] == from { to } else { v[i] };
        out.push(c);
    }
    out
}

/// Adds the characters of `s` other than `c` to the end of `v`.
pub fn push_without(v: &mut Vec<char>, s: &str, c: char)
    ensures
        final(v)@ == old(v)@ + without(s@, c),
{
    let w = to_chars(s);
    let n: usize = w.len();
    let ghost before = v@;
    for i in 0..n
        invariant
            n == w@.len(),
            v@ =~= before + without(w@.take(i as int), c),
    {
        assert(w@.take(i + 1).drop_last() =~= w@.take(i as int));
        if w[i] != c {
            v.push(w[i]);
        }
    }
    assert(w@.take(n as int) =~= w@);
}

/// The last `lines` lines of `s`, joined by line feeds.
pub fn tail(s: &str, lines: usize) -> (r: String)
    ensures
        r@ == tail_of(s@, lines as nat),
{
    let all = self::lines(s);
    let first: usize = if all.len() > lines { all.len() - lines } else { 0 };
    proof {
        reveal_strlit("\n");
        assert("\n"@ =~= seq!['\n']);
    }
    join(&all, first, "\n")
}

/// The number that `s` writes in decimal, if it is one and fits.
pub fn parse_u64(s: &str) -> (r: Option<u64>)
    ensures
        r == number_of(s@),
{
    let v = to_chars(s);
    let n: usize = v.len();
    let from: usize = if n > 0 && v[0] == '+' { 1 } else { 0 };
    let ghost d = unsigned_part(s@);
    assert(d =~= v@.skip(from as int));
    if from == n {
        return None;
    }
    let mut value: u64 = 0;
    let mut fits: bool = true;
    let mut i: usize = from;
    assert(d.take(0) =~= Seq::<char>::empty());
    while i < n
        invariant
            from <= i <= n,
            n == v@.len(),
            d == v@.skip(from as int),
            d == unsigned_part(s@),
            forall|j: int| 0 <= j < i - from ==> is_digit(#[trigger] d[j]),
            fits ==> value == decimal_value(d.take(i - from)),
            !fits ==> decimal_value(d.take(i - from)) > u64::MAX,
        decreases n - i,
    {
        let c = v[i];
        assert(d[i - from] == c);
        if !('0' <= c && c <= '9') {
            return None;
        }
        let digit: u64 = c as u64 - '0' as u64;
        assert(d.take(i - from + 1).drop_last() =~= d.take(i - from));
        assert(d.take(i - from + 1).last() == c);
        if fits {
            if value > (u64::MAX - digit) / 10 {
                fits = false;
            } else {
                value = value * 10 + digit;
            }
        }
        i = i + 1;
    }
    assert(d.take(n - from) =~= d);
    if fits {
        Some(value)
    } else {
        None
    }
}

/// `n` in decimal.
pub fn decimal_text(n: u64) -> (r: String)
    ensures
        r@ == decimal(n as nat),
    decreases n,
{
    let low: u8 = (n % 10) as u8;
    let digit: char = (48u8 + low) as char;
    if n < 10 {
        let mut s = String::new();
        s.push(digit);
        assert(s@ =~= decimal(n as nat));
        s
    } else {
        let mut s = decimal_text(n / 10);
        s.push(digit);
        s
    }
}

} // verus!
