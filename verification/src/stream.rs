//! UTF-8 that arrives in pieces: a character may be cut in two, and its first bytes
//! wait for the rest.

use crate::text::{contains_text, occurs_at};
use vstd::prelude::*;
use vstd::utf8::{
    decode_utf8, decode_utf8_encode_utf8, encode_utf8, encode_utf8_valid_utf8,
    is_continuation_byte, length_of_first_scalar, pop_first_scalar, take_first_scalar,
    valid_first_scalar, valid_utf8, valid_utf8_concat,
};

verus! {

/// `needle` stands in `hay` at position `i`.
pub open spec fn bytes_at(hay: Seq<u8>, needle: Seq<u8>, i: int) -> bool {
    &&& 0 <= i
    &&& i + needle.len() <= hay.len()
    &&& hay.subrange(i, i + needle.len()) == needle
}

/// `needle` stands somewhere in `hay`.
pub open spec fn contains_bytes(hay: Seq<u8>, needle: Seq<u8>) -> bool {
    exists|i: int| bytes_at(hay, needle, i)
}

/// How many bytes the encoding of a character has that begins with `byte`; one where
/// none does.
pub open spec fn width(byte: u8) -> nat {
    if 0xc0 <= byte <= 0xdf {
        2
    } else if 0xe0 <= byte <= 0xef {
        3
    } else if 0xf0 <= byte <= 0xf7 {
        4
    } else {
        1
    }
}

/// Whether the last `k` bytes begin a character and do not complete it.
pub open spec fn is_cut(bytes: Seq<u8>, k: int) -> bool {
    &&& 0 < k <= bytes.len()
    &&& width(bytes[bytes.len() - k]) > k
    &&& forall|i: int|
        bytes.len() - k < i < bytes.len() ==> is_continuation_byte(#[trigger] bytes[i])
}

/// How many bytes at the end begin a character and do not complete it.
pub open spec fn cut_off(bytes: Seq<u8>) -> nat {
    if is_cut(bytes, 1) {
        1
    } else if is_cut(bytes, 2) {
        2
    } else if is_cut(bytes, 3) {
        3
    } else {
        0
    }
}

/// The bytes of a stream that can be decoded.
pub open spec fn decodable(bytes: Seq<u8>) -> Seq<u8> {
    bytes.take(bytes.len() - cut_off(bytes))
}

/// The bytes at the end of a stream that wait for more.
pub open spec fn undecoded(bytes: Seq<u8>) -> Seq<u8> {
    bytes.skip(bytes.len() - cut_off(bytes))
}

fn width_of(byte: u8) -> (r: usize)
    ensures
        r == width(byte),
{
    if 0xc0 <= byte && byte <= 0xdf {
        2
    } else if 0xe0 <= byte && byte <= 0xef {
        3
    } else if 0xf0 <= byte && byte <= 0xf7 {
        4
    } else {
        1
    }
}

/// Whether the bytes of `needle` stand in `hay` at position `i`.
fn has_text_at(hay: &Vec<u8>, needle: &str, i: usize) -> (r: bool)
    requires
        i <= hay@.len(),
    ensures
        r == bytes_at(hay@, encode_utf8(needle@), i as int),
{
    let bytes = needle.as_bytes();
    let m: usize = bytes.len();
    if hay.len() - i < m {
        return false;
    }
    for k in 0..m
        invariant
            m == bytes@.len(),
            i + m <= hay.len(),
            bytes@ == encode_utf8(needle@),
            forall|j: int| 0 <= j < k ==> hay@[i + j] == bytes@[j],
    {
        if hay[i + k] != bytes[k] {
            assert(hay@.subrange(i as int, i + m)[k as int] != bytes@[k as int]);
            return false;
        }
    }
    assert(hay@.subrange(i as int, i + m) =~= bytes@);
    true
}

/// Whether the bytes of `needle` stand in `hay`.
pub fn has_text(hay: &Vec<u8>, needle: &str) -> (r: bool)
    ensures
        r == contains_bytes(hay@, encode_utf8(needle@)),
{
    let n: usize = hay.len();
    let mut i: usize = 0;
    loop
        invariant
            i <= n,
            n == hay@.len(),
            forall|j: int| 0 <= j < i ==> !bytes_at(hay@, encode_utf8(needle@), j),
        decreases n - i,
    {
        if has_text_at(hay, needle, i) {
            return true;
        }
        if i == n {
            return false;
        }
        i = i + 1;
    }
}

/// How many bytes at the end begin a character and do not complete it.
pub fn cut_off_len(bytes: &Vec<u8>) -> (r: usize)
    ensures
        r == cut_off(bytes@),
        r <= bytes.len(),
{
    let n: usize = bytes.len();
    if n >= 1 && width_of(bytes[n - 1]) > 1 {
        assert(is_cut(bytes@, 1));
        return 1;
    }
    if n < 2 || bytes[n - 1] < 0x80 || bytes[n - 1] > 0xbf {
        assert(n >= 1 ==> !is_continuation_byte(bytes@[n - 1]) || n < 2);
        return 0;
    }
    if width_of(bytes[n - 2]) > 2 {
        assert(is_cut(bytes@, 2));
        return 2;
    }
    if n < 3 || bytes[n - 2] < 0x80 || bytes[n - 2] > 0xbf {
        assert(n < 3 || !is_continuation_byte(bytes@[n - 2]));
        return 0;
    }
    if width_of(bytes[n - 3]) > 3 {
        assert(is_cut(bytes@, 3));
        return 3;
    }
    0
}

/// Splits a stream into what can be decoded and what waits for more.
pub fn split_stream(bytes: &Vec<u8>) -> (r: (Vec<u8>, Vec<u8>))
    ensures
        r.0@ == decodable(bytes@),
        r.1@ == undecoded(bytes@),
{
    let n: usize = bytes.len();
    let end: usize = n - cut_off_len(bytes);
    let mut ready: Vec<u8> = Vec::new();
    let mut rest: Vec<u8> = Vec::new();
    for i in 0..end
        invariant
            end <= bytes@.len(),
            ready@ == bytes@.take(i as int),
    {
        ready.push(bytes[i]);
    }
    for i in end..n
        invariant
            end <= n,
            n == bytes@.len(),
            rest@ == bytes@.subrange(end as int, i as int),
    {
        rest.push(bytes[i]);
    }
    (ready, rest)
}

/// A complete character in front changes nothing about where a stream is cut.
proof fn lemma_character_in_front(bytes: Seq<u8>, rest: Seq<u8>)
    requires
        valid_first_scalar(bytes),
        bytes.len() == length_of_first_scalar(bytes),
    ensures
        cut_off(bytes + rest) == cut_off(rest),
{
    let all = bytes + rest;
    assert forall|k: int| 1 <= k <= 3 implies is_cut(all, k) == is_cut(rest, k) by {
        if k <= rest.len() {
            assert(all[all.len() - k] == rest[rest.len() - k]);
            assert forall|i: int| all.len() - k < i < all.len() implies #[trigger] all[i]
                == rest[i - bytes.len()] by {}
            if is_cut(all, k) {
                assert forall|i: int| rest.len() - k < i < rest.len() implies is_continuation_byte(
                    #[trigger] rest[i],
                ) by {
                    assert(all[i + bytes.len()] == rest[i]);
                }
            }
        } else if k <= all.len() {
            let j = all.len() - k;
            assert(all[j] == bytes[j]);
            if j > 0 {
                assert(is_continuation_byte(bytes[j]));
            }
        }
    }
}

/// Complete characters in front change nothing about where a stream is cut.
proof fn lemma_characters_in_front(bytes: Seq<u8>, rest: Seq<u8>)
    requires
        valid_utf8(bytes),
    ensures
        cut_off(bytes + rest) == cut_off(rest),
    decreases bytes.len(),
{
    if bytes.len() == 0 {
        assert(bytes + rest =~= rest);
    } else {
        let first = take_first_scalar(bytes);
        let more = pop_first_scalar(bytes);
        lemma_first_character(bytes);
        lemma_characters_in_front(more, rest);
        lemma_character_in_front(first, more + rest);
        assert(bytes + rest =~= first + (more + rest));
    }
}

/// The first character of a stream, on its own.
proof fn lemma_first_character(bytes: Seq<u8>)
    requires
        valid_utf8(bytes),
        bytes.len() > 0,
    ensures
        ({
            let first = take_first_scalar(bytes);
            &&& valid_first_scalar(first)
            &&& first.len() == length_of_first_scalar(first)
            &&& first.len() == length_of_first_scalar(bytes)
            &&& 0 < first.len() <= bytes.len()
            &&& valid_utf8(first)
            &&& valid_utf8(pop_first_scalar(bytes))
            &&& bytes == first + pop_first_scalar(bytes)
        }),
{
    reveal_with_fuel(valid_utf8, 2);
    let first = take_first_scalar(bytes);
    assert(bytes =~= first + pop_first_scalar(bytes));
    assert(pop_first_scalar(first) =~= Seq::<u8>::empty());
}

/// Wherever a stream of UTF-8 is cut, what counts as decodable is UTF-8.
pub proof fn a_cut_stream_is_decodable(whole: Seq<u8>, m: int)
    requires
        valid_utf8(whole),
        0 <= m <= whole.len(),
    ensures
        valid_utf8(decodable(whole.take(m))),
        m == whole.len() ==> decodable(whole) == whole,
    decreases whole.len(),
{
    let s = whole.take(m);
    if whole.len() == 0 {
        assert(decodable(s) =~= Seq::<u8>::empty());
        assert(decodable(whole) =~= whole);
    } else {
        let first = take_first_scalar(whole);
        let more = pop_first_scalar(whole);
        lemma_first_character(whole);
        if m < first.len() {
            assert(forall|i: int| 0 <= i < m ==> s[i] == first[i]);
            assert(m > 0 ==> is_cut(s, m)) by {
                if m > 0 {
                    assert(s[s.len() - m] == whole[0]);
                    assert forall|i: int| s.len() - m < i < s.len() implies is_continuation_byte(
                        #[trigger] s[i],
                    ) by {
                        assert(s[i] == whole[i]);
                    }
                }
            }
            assert forall|k: int| 0 < k < m implies !is_cut(s, k) by {
                assert(is_continuation_byte(whole[m - k]));
                assert(s[s.len() - k] == whole[m - k]);
            }
            assert(cut_off(s) == m);
            assert(decodable(s) =~= Seq::<u8>::empty());
        } else {
            let n = m - first.len();
            let rest = more.take(n);
            a_cut_stream_is_decodable(more, n);
            assert(s =~= first + rest);
            lemma_character_in_front(first, rest);
            assert(decodable(s) =~= first + decodable(rest));
            valid_utf8_concat(first, decodable(rest));
            if m == whole.len() {
                assert(rest =~= more);
                assert(s =~= whole);
                assert(decodable(whole) =~= whole);
            }
        }
    }
}

/// Two streams of which the first ends with a character are decoded one by one.
pub proof fn lemma_decode_in_parts(a: Seq<u8>, b: Seq<u8>)
    requires
        valid_utf8(a),
        valid_utf8(a + b),
    ensures
        valid_utf8(b),
        decode_utf8(a + b) == decode_utf8(a) + decode_utf8(b),
    decreases a.len(),
{
    if a.len() == 0 {
        assert(a + b =~= b);
        assert(decode_utf8(a) + decode_utf8(b) =~= decode_utf8(b));
    } else {
        let more = pop_first_scalar(a);
        lemma_first_character(a);
        assert(pop_first_scalar(a + b) =~= more + b);
        lemma_decode_in_parts(more, b);
        assert(decode_utf8(a + b) =~= decode_utf8(a) + decode_utf8(b));
    }
}

/// A stream is split in the same place whether it is taken as a whole or continued
/// from what waited for more.
pub proof fn a_stream_may_be_continued(whole: Seq<u8>, before: Seq<u8>, chunk: Seq<u8>)
    requires
        valid_utf8(whole),
        (before + chunk).is_prefix_of(whole),
    ensures
        ({
            let pending = undecoded(before) + chunk;
            &&& undecoded(before + chunk) == undecoded(pending)
            &&& decodable(before + chunk) == decodable(before) + decodable(pending)
            &&& valid_utf8(decodable(before))
            &&& valid_utf8(decodable(pending))
            &&& valid_utf8(decodable(before + chunk))
            &&& decode_utf8(decodable(before + chunk)) == decode_utf8(decodable(before))
                + decode_utf8(decodable(pending))
        }),
{
    let all = before + chunk;
    let pending = undecoded(before) + chunk;
    assert(before =~= whole.take(before.len() as int)) by {
        assert(forall|i: int| 0 <= i < before.len() ==> before[i] == all[i]);
    }
    assert(all =~= whole.take(all.len() as int));
    a_cut_stream_is_decodable(whole, before.len() as int);
    a_cut_stream_is_decodable(whole, all.len() as int);
    assert(all =~= decodable(before) + pending);
    lemma_characters_in_front(decodable(before), pending);
    assert(undecoded(all) =~= undecoded(pending));
    assert(decodable(all) =~= decodable(before) + decodable(pending));
    lemma_decode_in_parts(decodable(before), decodable(pending));
}

/// Two texts are encoded one by one.
proof fn lemma_encode_in_parts(a: Seq<char>, b: Seq<char>)
    ensures
        encode_utf8(a + b) == encode_utf8(a) + encode_utf8(b),
    decreases a.len(),
{
    if a.len() == 0 {
        assert(a + b =~= b);
        assert(encode_utf8(a) + encode_utf8(b) =~= encode_utf8(b));
    } else {
        lemma_encode_in_parts(a.drop_first(), b);
        assert((a + b).drop_first() =~= a.drop_first() + b);
        assert(encode_utf8(a + b) =~= encode_utf8(a) + encode_utf8(b));
    }
}

/// What stands in a text stands in its bytes.
pub proof fn text_is_found_in_its_bytes(bytes: Seq<u8>, needle: Seq<char>)
    requires
        valid_utf8(bytes),
        contains_text(decode_utf8(bytes), needle),
    ensures
        contains_bytes(bytes, encode_utf8(needle)),
{
    let text = decode_utf8(bytes);
    let i = choose|i: int| occurs_at(text, needle, i);
    let before = text.take(i);
    let after = text.skip(i + needle.len());
    assert(text =~= before + (needle + after));
    lemma_encode_in_parts(before, needle + after);
    lemma_encode_in_parts(needle, after);
    decode_utf8_encode_utf8(bytes);
    let at = encode_utf8(before).len() as int;
    let found = encode_utf8(needle);
    assert(bytes.subrange(at, at + found.len()) =~= found);
    assert(bytes_at(bytes, found, at));
}

/// Nothing is kept back but the bytes of one character that is not complete: where such
/// bytes follow whole characters, they alone wait for more.
pub proof fn only_an_incomplete_character_waits(before: Seq<char>, bytes: Seq<u8>, k: int)
    requires
        valid_first_scalar(bytes),
        bytes.len() == length_of_first_scalar(bytes),
        0 < k < bytes.len(),
    ensures
        decodable(encode_utf8(before) + bytes.take(k)) == encode_utf8(before),
        undecoded(encode_utf8(before) + bytes.take(k)) == bytes.take(k),
        decodable(encode_utf8(before)) == encode_utf8(before),
{
    let front = encode_utf8(before);
    let part = bytes.take(k);
    encode_utf8_valid_utf8(before);
    lemma_characters_in_front(front, part);
    lemma_leading_width(bytes);
    assert(part[0] == bytes[0]);
    assert(is_cut(part, k)) by {
        assert forall|i: int| part.len() - k < i < part.len() implies is_continuation_byte(
            #[trigger] part[i],
        ) by {
            assert(part[i] == bytes[i]);
        }
    }
    assert forall|j: int| 1 <= j < k implies !is_cut(part, j) by {
        assert(part[part.len() - j] == bytes[k - j]);
        assert(is_continuation_byte(bytes[k - j]));
    }
    assert(cut_off(part) == k);
    let all = front + part;
    assert(all.take(front.len() as int) =~= front);
    assert(all.skip(front.len() as int) =~= part);
    assert(front.take(front.len() as int) =~= front);
    a_cut_stream_is_decodable(front, front.len() as int);
}

/// The first byte of a character says how many bytes it has, and the others only go on.
proof fn lemma_leading_width(bytes: Seq<u8>)
    requires
        valid_first_scalar(bytes),
        bytes.len() == length_of_first_scalar(bytes),
    ensures
        width(bytes[0]) == bytes.len(),
        forall|i: int| 0 < i < bytes.len() ==> is_continuation_byte(#[trigger] bytes[i]),
{
}

} // verus!
