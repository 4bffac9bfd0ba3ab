//! What holds of the operations on text.

use crate::text::{
    after_last, after_prefix, before_suffix, chomp, contains_text, decimal, decimal_value, find,
    is_digit, joined, lemma_find, lemma_find_is, lines_of, number_of, occurs_at, readable_text,
    replaced, split_at_first, tail_of, trimmed, trimmed_end, trimmed_start, unsigned_part,
    utf8_text, without, CharClass,
};
use vstd::prelude::*;
use vstd::utf8::{
    decode_utf8_encode_utf8, encode_utf8, encode_utf8_decode_utf8, encode_utf8_valid_utf8,
};

verus! {

/// Lines, each with a line feed at its end.
pub open spec fn written(lines: Seq<Seq<char>>) -> Seq<char>
    decreases lines.len(),
{
    if lines.len() == 0 {
        Seq::empty()
    } else {
        lines[0] + seq!['\n'] + written(lines.drop_first())
    }
}

/// Whether a text is one line, and is read back as it stands.
pub open spec fn is_line(s: Seq<char>) -> bool {
    &&& !s.contains('\n')
    &&& s.len() > 0 ==> s.last() != '\r'
}

/// No text has no lines; a text without a line feed is one line; and a line ends in a
/// line feed, or in a carriage return and a line feed, which are both dropped. So the
/// lines of every text are fixed.
pub proof fn lines_end_in_line_feeds(line: Seq<char>, rest: Seq<char>)
    requires
        !line.contains('\n'),
    ensures
        lines_of(Seq::empty()).len() == 0,
        line.len() > 0 ==> lines_of(line) == seq![line],
        is_line(line) ==> lines_of(line + seq!['\n'] + rest) == seq![line] + lines_of(rest),
        lines_of(line + seq!['\r', '\n'] + rest) == seq![line] + lines_of(rest),
{
    lemma_find(line, '\n');
    assert(find(line, '\n') == line.len()) by {
        if find(line, '\n') < line.len() {
            assert(line[find(line, '\n')] == '\n');
        }
    }
    let a = line + seq!['\n'] + rest;
    let n = line.len() as int;
    assert forall|j: int| 0 <= j < n implies a[j] != '\n' by {
        assert(a[j] == line[j]);
    }
    lemma_find_is(a, '\n', n);
    assert(a.take(n) =~= line);
    assert(a.skip(n + 1) =~= rest);
    let b = line + seq!['\r', '\n'] + rest;
    assert forall|j: int| 0 <= j < n + 1 implies b[j] != '\n' by {
        if j < n {
            assert(b[j] == line[j]);
        }
    }
    assert(b[n + 1] == '\n');
    lemma_find_is(b, '\n', n + 1);
    assert(b.take(n + 1) =~= line.push('\r'));
    assert(chomp(line.push('\r')) =~= line);
    assert(b.skip(n + 2) =~= rest);
}

/// What is written line by line is read back line by line.
pub proof fn written_lines_are_read_back(lines: Seq<Seq<char>>)
    requires
        forall|i: int| 0 <= i < lines.len() ==> is_line(#[trigger] lines[i]),
    ensures
        lines_of(written(lines)) == lines,
    decreases lines.len(),
{
    if lines.len() == 0 {
        assert(lines_of(written(lines)) =~= lines);
    } else {
        let rest = lines.drop_first();
        assert forall|i: int| 0 <= i < rest.len() implies is_line(#[trigger] rest[i]) by {
            assert(rest[i] == lines[i + 1]);
        }
        written_lines_are_read_back(rest);
        assert(is_line(lines[0]));
        lines_end_in_line_feeds(lines[0], written(rest));
        assert(seq![lines[0]] + rest =~= lines);
    }
}

/// No line of a text is left out: where the text holds no carriage return and its last
/// line ends too, its lines make it up again.
pub proof fn no_line_is_left_out(s: Seq<char>)
    requires
        !s.contains('\r'),
        s.len() > 0 ==> s.last() == '\n',
    ensures
        written(lines_of(s)) == s,
    decreases s.len(),
{
    if s.len() > 0 {
        let i = find(s, '\n');
        lemma_find(s, '\n');
        assert(i < s.len()) by {
            if i >= s.len() {
                assert(s[s.len() - 1] == '\n');
            }
        }
        let line = s.take(i);
        let rest = s.skip(i + 1);
        assert(chomp(line) == line) by {
            if line.len() > 0 {
                assert(line.last() == s[i - 1]);
                assert(s.contains(s[i - 1]));
            }
        }
        assert(!rest.contains('\r')) by {
            if rest.contains('\r') {
                let k = choose|k: int| 0 <= k < rest.len() && rest[k] == '\r';
                assert(s[i + 1 + k] == '\r');
            }
        }
        assert(rest.len() > 0 ==> rest.last() == s.last());
        no_line_is_left_out(rest);
        let all = seq![line] + lines_of(rest);
        assert(all.drop_first() =~= lines_of(rest));
        assert(written(all) =~= s);
    }
}

/// Pieces are put together with the separator between each two, and nowhere else.
pub proof fn pieces_are_put_together(pieces: Seq<Seq<char>>, last: Seq<char>, sep: Seq<char>)
    ensures
        joined(Seq::empty(), sep).len() == 0,
        joined(seq![last], sep) == last,
        pieces.len() > 0 ==> joined(pieces.push(last), sep) == joined(pieces, sep) + sep + last,
{
    assert(pieces.push(last).drop_last() =~= pieces);
}

/// The tail of a text is its last lines, and all of them where there are fewer.
pub proof fn the_tail_is_the_last_lines(s: Seq<char>, n: nat)
    ensures
        lines_of(s).len() <= n ==> tail_of(s, n) == joined(lines_of(s), seq!['\n']),
        lines_of(s).len() > n ==> forall|before: Seq<Seq<char>>, after: Seq<Seq<char>>|
            #![trigger before + after]
            lines_of(s) == before + after && after.len() == n ==> tail_of(s, n) == joined(
                after,
                seq!['\n'],
            ),
{
    let all = lines_of(s);
    if all.len() <= n {
        assert(all.skip(0) =~= all);
    } else {
        assert forall|before: Seq<Seq<char>>, after: Seq<Seq<char>>|
            #![trigger before + after]
            all == before + after && after.len() == n implies tail_of(s, n) == joined(
            after,
            seq!['\n'],
        ) by {
            assert(all.skip(all.len() - n) =~= after);
        }
    }
}

/// Whether all characters of a text are in a class.
pub open spec fn all_in(s: Seq<char>, class: CharClass) -> bool {
    forall|i: int| 0 <= i < s.len() ==> class.has(#[trigger] s[i])
}

proof fn lemma_start(l: Seq<char>, s: Seq<char>, class: CharClass)
    requires
        all_in(l, class),
        s.len() > 0 ==> !class.has(s[0]),
    ensures
        trimmed_start(l + s, class) == s,
    decreases l.len(),
{
    if l.len() == 0 {
        assert(l + s =~= s);
    } else {
        assert((l + s)[0] == l[0]);
        assert((l + s).drop_first() =~= l.drop_first() + s);
        assert forall|i: int| 0 <= i < l.drop_first().len() implies class.has(
            #[trigger] l.drop_first()[i],
        ) by {
            assert(l.drop_first()[i] == l[i + 1]);
        }
        lemma_start(l.drop_first(), s, class);
    }
}

proof fn lemma_end(s: Seq<char>, r: Seq<char>, class: CharClass)
    requires
        all_in(r, class),
        s.len() > 0 ==> !class.has(s.last()),
    ensures
        trimmed_end(s + r, class) == s,
    decreases r.len(),
{
    if r.len() == 0 {
        assert(s + r =~= s);
    } else {
        assert((s + r).last() == r[r.len() - 1]);
        assert((s + r).drop_last() =~= s + r.drop_last());
        assert forall|i: int| 0 <= i < r.drop_last().len() implies class.has(
            #[trigger] r.drop_last()[i],
        ) by {
            assert(r.drop_last()[i] == r[i]);
        }
        lemma_end(s, r.drop_last(), class);
    }
}

/// Trimming takes what is in the class from both ends, and nothing else. As every text
/// is such a sum, this fixes what trimming leaves.
pub proof fn trimming_takes_both_ends(l: Seq<char>, s: Seq<char>, r: Seq<char>, class: CharClass)
    requires
        all_in(l, class),
        all_in(r, class),
        s.len() > 0 ==> !class.has(s[0]) && !class.has(s.last()),
    ensures
        trimmed(l + s + r, class) == s,
{
    if s.len() > 0 {
        assert(l + s + r =~= l + (s + r));
        assert((s + r)[0] == s[0]);
        lemma_start(l, s + r, class);
        lemma_end(s, r, class);
    } else {
        let all = l + s + r;
        let none = Seq::<char>::empty();
        assert forall|i: int| 0 <= i < all.len() implies class.has(#[trigger] all[i]) by {
            if i < l.len() {
                assert(all[i] == l[i]);
            } else {
                assert(all[i] == r[i - l.len()]);
            }
        }
        assert(all + none =~= all);
        lemma_start(all, none, class);
        assert(s =~= none);
    }
}

/// What white space is, by the numbers of its characters, and that a single character is a
/// class of its own.
pub proof fn white_space_is_what_unicode_calls_so(c: char, d: char)
    ensures
        CharClass::Only(c).has(d) <==> c == d,
        CharClass::Space.has(c) <==> {
            ||| 9 <= c as nat <= 13
            ||| c as nat == 32
            ||| c as nat == 133
            ||| c as nat == 160
            ||| c as nat == 5760
            ||| 8192 <= c as nat <= 8202
            ||| c as nat == 8232
            ||| c as nat == 8233
            ||| c as nat == 8239
            ||| c as nat == 8287
            ||| c as nat == 12288
        },
{
}

/// A text contains another if and only if it is that other with something, or nothing,
/// before and behind it.
pub proof fn containing_is_standing_between(hay: Seq<char>, needle: Seq<char>)
    ensures
        contains_text(hay, needle) <==> exists|a: Seq<char>, b: Seq<char>|
            hay == #[trigger] (a + needle + b),
{
    if contains_text(hay, needle) {
        let i = choose|i: int| occurs_at(hay, needle, i);
        let a = hay.take(i);
        let b = hay.skip(i + needle.len());
        assert(hay =~= a + needle + b);
    }
    if exists|a: Seq<char>, b: Seq<char>| hay == #[trigger] (a + needle + b) {
        let (a, b) = choose|a: Seq<char>, b: Seq<char>| hay == #[trigger] (a + needle + b);
        let i = a.len() as int;
        assert(hay.subrange(i, i + needle.len()) =~= needle);
        assert(occurs_at(hay, needle, i));
    }
}

/// A prefix and a suffix are taken off where they stand, and only there.
pub proof fn affixes_are_taken_off(s: Seq<char>, affix: Seq<char>)
    ensures
        after_prefix(affix + s, affix) == Some(s),
        before_suffix(s + affix, affix) == Some(s),
        after_prefix(s, affix) matches Some(rest) ==> s == affix + rest,
        before_suffix(s, affix) matches Some(rest) ==> s == rest + affix,
{
    assert((affix + s).subrange(0, affix.len() as int) =~= affix);
    assert((affix + s).skip(affix.len() as int) =~= s);
    let t = s + affix;
    assert(t.subrange(t.len() - affix.len(), t.len() as int) =~= affix);
    assert(t.take(t.len() - affix.len()) =~= s);
    if after_prefix(s, affix) is Some {
        assert(s =~= affix + s.skip(affix.len() as int));
    }
    if before_suffix(s, affix) is Some {
        assert(s =~= s.take(s.len() - affix.len()) + affix);
    }
}

/// A text is split at the first of a character, where it has one, and what follows the
/// last of it is what follows the last of it.
pub proof fn splitting_is_at_the_first_and_the_last(a: Seq<char>, b: Seq<char>, c: char)
    ensures
        !a.contains(c) ==> split_at_first(a + seq![c] + b, c) == Some((a, b)),
        !a.contains(c) ==> split_at_first(a, c) is None,
        !b.contains(c) ==> after_last(a + seq![c] + b, c) == b,
        !b.contains(c) ==> after_last(b, c) == b,
{
    let s = a + seq![c] + b;
    if !a.contains(c) {
        assert forall|j: int| 0 <= j < a.len() implies s[j] != c by {
            assert(s[j] == a[j]);
        }
        lemma_find_is(s, c, a.len() as int);
        assert(s.take(a.len() as int) =~= a);
        assert(s.skip(a.len() + 1int) =~= b);
        lemma_find(a, c);
    }
    if !b.contains(c) {
        lemma_find(b, c);
        crate::path::lemma_after_last(b, c);
        assert(s.skip(s.len() - b.len()) =~= b);
        crate::path::lemma_after_last_is(s, c, b.len() as int);
    }
}

/// Replacing a character keeps every other one where it is; dropping one keeps the order
/// of the others.
pub proof fn replacing_and_dropping_touch_one_character(
    s: Seq<char>,
    d: char,
    from: char,
    to: char,
)
    ensures
        replaced(s, from, to).len() == s.len(),
        forall|i: int|
            0 <= i < s.len() ==> #[trigger] replaced(s, from, to)[i] == (if s[i] == from {
                to
            } else {
                s[i]
            }),
        without(Seq::empty(), from).len() == 0,
        without(s.push(d), from) == (if d == from {
            without(s, from)
        } else {
            without(s, from).push(d)
        }),
{
    assert(s.push(d).drop_last() =~= s);
}

proof fn lemma_decimal(n: nat)
    ensures
        decimal(n).len() > 0,
        forall|i: int| 0 <= i < decimal(n).len() ==> is_digit(#[trigger] decimal(n)[i]),
        decimal_value(decimal(n)) == n,
    decreases n,
{
    if n < 10 {
        let d = ('0' as nat + n) as char;
        assert(decimal(n).drop_last() =~= Seq::<char>::empty());
        assert(decimal_value(Seq::<char>::empty()) == 0);
        assert(d as nat == '0' as nat + n);
    } else {
        lemma_decimal(n / 10);
        let d = ('0' as nat + n % 10) as char;
        assert(decimal(n).drop_last() =~= decimal(n / 10));
        assert(d as nat == '0' as nat + n % 10);
    }
}

proof fn lemma_leading_zero(s: Seq<char>)
    ensures
        decimal_value(seq!['0'] + s) == decimal_value(s),
    decreases s.len(),
{
    let t = seq!['0'] + s;
    if s.len() == 0 {
        assert(t.drop_last() =~= Seq::<char>::empty());
        assert(decimal_value(Seq::<char>::empty()) == 0);
    } else {
        assert(t.drop_last() =~= seq!['0'] + s.drop_last());
        lemma_leading_zero(s.drop_last());
    }
}

/// A number that is written in decimal is read back; leading zeros and one plus sign in
/// front change nothing; one that takes more than 64 bits is no number, and neither is
/// what holds anything but digits behind the sign.
pub proof fn written_numbers_are_read_back(n: nat, s: Seq<char>, i: int)
    ensures
        n <= u64::MAX ==> number_of(decimal(n)) == Some(n as u64),
        n > u64::MAX ==> number_of(decimal(n)) is None,
        s.len() > 0 && s[0] != '+' ==> number_of(seq!['0'] + s) == number_of(s),
        s.len() > 0 && s[0] != '+' ==> number_of(seq!['+'] + s) == number_of(s),
        s.len() > 0 && s[0] == '+' ==> number_of(seq!['+'] + s) is None,
        number_of(Seq::empty()) is None,
        number_of(seq!['+']) is None,
        0 < i < s.len() && !('0' <= s[i] <= '9') ==> number_of(s) is None,
        s.len() > 0 && s[0] != '+' && !('0' <= s[0] <= '9') ==> number_of(s) is None,
{
    lemma_decimal(n);
    assert(is_digit(decimal(n)[0]));
    assert(unsigned_part(decimal(n)) == decimal(n));
    if s.len() > 0 && s[0] != '+' {
        let z = seq!['0'] + s;
        lemma_leading_zero(s);
        assert(unsigned_part(z) == z);
        assert((forall|k: int| 0 <= k < z.len() ==> is_digit(#[trigger] z[k])) <==> (forall|k: int|
            0 <= k < s.len() ==> is_digit(#[trigger] s[k]))) by {
            if forall|k: int| 0 <= k < z.len() ==> is_digit(#[trigger] z[k]) {
                assert forall|k: int| 0 <= k < s.len() implies is_digit(#[trigger] s[k]) by {
                    assert(z[k + 1] == s[k]);
                }
            }
            if forall|k: int| 0 <= k < s.len() ==> is_digit(#[trigger] s[k]) {
                assert forall|k: int| 0 <= k < z.len() implies is_digit(#[trigger] z[k]) by {
                    if k > 0 {
                        assert(z[k] == s[k - 1]);
                    }
                }
            }
        }
        let p = seq!['+'] + s;
        assert(p.drop_first() =~= s);
    }
    if s.len() > 0 && s[0] == '+' {
        let p = seq!['+'] + s;
        assert(p.drop_first() =~= s);
        assert(!is_digit(s[0]));
    }
    assert(unsigned_part(Seq::<char>::empty()) =~= Seq::<char>::empty());
    assert(seq!['+'].drop_first() =~= Seq::<char>::empty());
    if 0 < i < s.len() && !('0' <= s[i] <= '9') {
        let d = unsigned_part(s);
        if s[0] == '+' {
            assert(d[i - 1] == s[i]);
            assert(!is_digit(d[i - 1]));
        } else {
            assert(!is_digit(d[i]));
        }
    }
    if s.len() > 0 && s[0] != '+' && !('0' <= s[0] <= '9') {
        assert(!is_digit(unsigned_part(s)[0]));
    }
}

/// What was encoded is decoded again, and what cannot be decoded is no text.
pub proof fn encoded_text_is_read_back(text: Seq<char>, bytes: Seq<u8>)
    ensures
        utf8_text(encode_utf8(text)) == Some(text),
        readable_text(encode_utf8(text)) == text,
        utf8_text(bytes) matches Some(t) ==> encode_utf8(t) == bytes,
{
    encode_utf8_valid_utf8(text);
    encode_utf8_decode_utf8(text);
    if utf8_text(bytes) is Some {
        decode_utf8_encode_utf8(bytes);
    }
}

/// Decimals are written digit by digit.
pub proof fn decimals_are_written_digit_by_digit(q: nat, d: nat)
    requires
        d < 10,
    ensures
        decimal(d) == seq![('0' as nat + d) as char],
        q > 0 ==> decimal(10 * q + d) == decimal(q).push(('0' as nat + d) as char),
{
    assert((10 * q + d) / 10 == q);
    assert((10 * q + d) % 10 == d);
}

} // verus!
