//! Small text utilities: trusted bridges to std string operations that
//! vstd leaves unspecified, verified string equality, and whitespace
//! trimming over character sequences.

use vstd::prelude::*;
use vstd::utf8::{encode_utf8, decode_utf8, is_scalar};
use vstd::slice::slice_to_vec;

verus! {

broadcast use vstd::utf8::group_utf8_lib;

/// Relies on char::from_u32: every valid Unicode scalar value converts to
/// the char with exactly that value (documented to return Some for all
/// values that are not surrogates and not above 0x10FFFF).
#[verifier::external_body]
pub(crate) fn char_from_scalar(v: u32) -> (c: char)
    requires
        is_scalar(v),
    ensures
        c as u32 == v,
{
    match char::from_u32(v) {
        Some(c) => c,
        None => '\u{fffd}',
    }
}

/// Relies on String::push_str: appends the characters of `t` after those
/// of `s`, changing nothing else.
#[verifier::external_body]
pub(crate) fn append_str(s: &mut String, t: &str)
    ensures
        final(s)@ == old(s)@ + t@,
{
    s.push_str(t);
}

/// Relies on String's FromIterator implementation: collecting a sequence
/// of chars yields the string of exactly those characters in order.
#[verifier::external_body]
pub(crate) fn string_from_chars(v: &Vec<char>) -> (s: String)
    ensures
        s@ == v@,
{
    v.iter().collect()
}

/// Concatenates two string slices into a fresh `String`.
pub fn concat_str(a: &str, b: &str) -> (r: String)
    ensures
        r@ == a@ + b@,
{
    let mut s = a.to_owned();
    append_str(&mut s, b);
    s
}

/// Decides equality of two strings by comparing their UTF-8 bytes.
pub fn str_eq(a: &str, b: &str) -> (r: bool)
    ensures
        r == (a@ == b@),
{
    let av: Vec<u8> = slice_to_vec(a.as_bytes());
    let bv: Vec<u8> = slice_to_vec(b.as_bytes());
    if av.len() != bv.len() {
        proof {
            assert(encode_utf8(a@).len() != encode_utf8(b@).len());
        }
        return false;
    }
    let n = av.len();
    let mut i: usize = 0;
    while i < n
        invariant
            n == av.len() == bv.len(),
            av@ == encode_utf8(a@),
            bv@ == encode_utf8(b@),
            i <= n,
            forall|k: int| 0 <= k < i ==> av@[k] == bv@[k],
        decreases n - i,
    {
        if av[i] != bv[i] {
            proof {
                assert(encode_utf8(a@) != encode_utf8(b@));
            }
            return false;
        }
        i += 1;
    }
    proof {
        assert(av@ =~= bv@);
        assert(decode_utf8(encode_utf8(a@)) == a@);
        assert(decode_utf8(encode_utf8(b@)) == b@);
    }
    true
}

/// True of exactly the characters with the Unicode `White_Space` property,
/// the characters that trimming removes.
pub open spec fn spec_is_ws(c: char) -> bool {
    let v = c as u32;
    ||| (0x09 <= v && v <= 0x0D)
    ||| v == 0x20
    ||| v == 0x85
    ||| v == 0xA0
    ||| v == 0x1680
    ||| (0x2000 <= v && v <= 0x200A)
    ||| v == 0x2028
    ||| v == 0x2029
    ||| v == 0x202F
    ||| v == 0x205F
    ||| v == 0x3000
}

/// Decides whether a character is whitespace.
pub fn is_ws(c: char) -> (b: bool)
    ensures
        b == spec_is_ws(c),
{
    let v = c as u32;
    (0x09 <= v && v <= 0x0D) || v == 0x20 || v == 0x85 || v == 0xA0 || v == 0x1680
        || (0x2000 <= v && v <= 0x200A) || v == 0x2028 || v == 0x2029 || v == 0x202F
        || v == 0x205F || v == 0x3000
}

/// The sequence with leading whitespace removed.
pub open spec fn spec_drop_leading_ws(s: Seq<char>) -> Seq<char>
    decreases s.len(),
{
    if s.len() > 0 && spec_is_ws(s[0]) {
        spec_drop_leading_ws(s.drop_first())
    } else {
        s
    }
}

/// The sequence with trailing whitespace removed.
pub open spec fn spec_drop_trailing_ws(s: Seq<char>) -> Seq<char>
    decreases s.len(),
{
    if s.len() > 0 && spec_is_ws(s.last()) {
        spec_drop_trailing_ws(s.drop_last())
    } else {
        s
    }
}

/// The sequence with leading and trailing whitespace removed.
pub open spec fn spec_trim(s: Seq<char>) -> Seq<char> {
    spec_drop_trailing_ws(spec_drop_leading_ws(s))
}

proof fn lemma_drop_leading_ws_at(s: Seq<char>, i: int)
    requires
        0 <= i <= s.len(),
        forall|k: int| 0 <= k < i ==> spec_is_ws(s[k]),
        i < s.len() ==> !spec_is_ws(s[i]),
    ensures
        spec_drop_leading_ws(s) == s.subrange(i, s.len() as int),
    decreases i,
{
    if i == 0 {
        assert(s.subrange(0, s.len() as int) =~= s);
    } else {
        let t = s.drop_first();
        lemma_drop_leading_ws_at(t, i - 1);
        assert(t.subrange(i - 1, t.len() as int) =~= s.subrange(i, s.len() as int));
    }
}

proof fn lemma_drop_trailing_ws_at(s: Seq<char>, j: int)
    requires
        0 <= j <= s.len(),
        forall|k: int| j <= k < s.len() ==> spec_is_ws(s[k]),
        j > 0 ==> !spec_is_ws(s[j - 1]),
    ensures
        spec_drop_trailing_ws(s) == s.subrange(0, j),
    decreases s.len() - j,
{
    if j == s.len() {
        assert(s.subrange(0, s.len() as int) =~= s);
    } else {
        let t = s.drop_last();
        lemma_drop_trailing_ws_at(t, j);
        assert(t.subrange(0, j) =~= s.subrange(0, j));
    }
}

/// Copies `v` with leading and trailing whitespace characters removed.
pub fn trim_chars(v: &Vec<char>) -> (r: Vec<char>)
    ensures
        r@ == spec_trim(v@),
{
    let n = v.len();
    let mut start: usize = 0;
    while start < n && is_ws(v[start])
        invariant
            n == v@.len(),
            start <= n,
            forall|k: int| 0 <= k < start ==> spec_is_ws(v@[k]),
        decreases n - start,
    {
        start += 1;
    }
    proof {
        lemma_drop_leading_ws_at(v@, start as int);
    }
    let ghost led = v@.subrange(start as int, n as int);
    let mut end: usize = n;
    while end > start && is_ws(v[end - 1])
        invariant
            n == v@.len(),
            start <= end <= n,
            forall|k: int| end <= k < n ==> spec_is_ws(v@[k]),
        decreases end,
    {
        end -= 1;
    }
    proof {
        assert(forall|k: int| end - start <= k < led.len() ==> spec_is_ws(#[trigger] led[k]));
        lemma_drop_trailing_ws_at(led, end - start);
        assert(led.subrange(0, end - start) =~= v@.subrange(start as int, end as int));
    }
    let mut r: Vec<char> = Vec::new();
    let mut i: usize = start;
    while i < end
        invariant
            start <= i <= end <= n,
            n == v@.len(),
            r@ == v@.subrange(start as int, i as int),
        decreases end - i,
    {
        r.push(v[i]);
        proof {
            assert(v@.subrange(start as int, i + 1 as int) =~= v@.subrange(
                start as int,
                i as int,
            ).push(v@[i as int]));
        }
        i += 1;
    }
    r
}

} // verus!
