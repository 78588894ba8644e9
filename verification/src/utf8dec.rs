//! Incremental UTF-8 decoding.
//!
//! A generated token carries raw bytes that may end in the middle of a
//! multi-byte character, so the bytes of consecutive tokens must be decoded
//! through one stateful decoder rather than token by token in isolation.
//! [`Utf8Decoder`] buffers at most the incomplete tail of one character;
//! malformed input never stops it, a broken sequence decodes to the
//! replacement character.  Its behaviour is pinned exactly by [`spec_push`]
//! and [`spec_feed`], and [`lemma_split_decode`] shows that feeding a valid
//! encoding in any two chunks reassembles the encoded characters exactly.

use vstd::prelude::*;
use vstd::utf8::{
    decode_first_codepoint, decode_first_scalar, decode_utf8, encode_utf8, is_continuation_byte,
    is_leading_byte_width_1, is_leading_byte_width_2, is_leading_byte_width_3,
    is_leading_byte_width_4, length_of_first_scalar, not_overlong_encoding,
    not_surrogate, pop_first_scalar, take_first_scalar, valid_first_scalar, valid_utf8,
};
use crate::text::char_from_scalar;

verus! {

broadcast use vstd::utf8::group_utf8_lib;

/// The replacement character emitted for malformed byte sequences.
pub open spec fn replacement() -> char {
    '\u{fffd}'
}

/// Total length in bytes of the encoding announced by a leading byte.
pub open spec fn expected_len(lead: u8) -> int {
    if is_leading_byte_width_2(lead) {
        2
    } else if is_leading_byte_width_3(lead) {
        3
    } else if is_leading_byte_width_4(lead) {
        4
    } else {
        1
    }
}

/// The buffered bytes are the incomplete strict prefix of one multi-byte
/// encoding: a multi-byte leading byte followed only by continuation bytes,
/// fewer than the leading byte announces.
pub open spec fn wf_pending(p: Seq<u8>) -> bool {
    p.len() == 0 || {
        &&& (is_leading_byte_width_2(p[0]) || is_leading_byte_width_3(p[0])
            || is_leading_byte_width_4(p[0]))
        &&& p.len() < expected_len(p[0])
        &&& forall|i: int| 1 <= i < p.len() ==> is_continuation_byte(#[trigger] p[i])
    }
}

/// The character a completed byte sequence decodes to: its codepoint when
/// the sequence is a shortest-form encoding of a Unicode scalar, the
/// replacement character otherwise.
pub open spec fn spec_complete_char(q: Seq<u8>) -> char {
    let cp = decode_first_codepoint(q);
    if not_overlong_encoding(cp, q.len() as int) && not_surrogate(cp) {
        cp as char
    } else {
        replacement()
    }
}

/// One byte arriving at a decoder with no buffered bytes.
pub open spec fn spec_push_fresh(b: u8) -> (Seq<u8>, Seq<char>) {
    if is_leading_byte_width_1(b) {
        (Seq::empty(), seq![(b as u32) as char])
    } else if is_leading_byte_width_2(b) || is_leading_byte_width_3(b)
        || is_leading_byte_width_4(b) {
        (seq![b], Seq::empty())
    } else {
        (Seq::empty(), seq![replacement()])
    }
}

/// One byte arriving at a decoder whose buffer holds `p`: the new buffer
/// and the characters emitted.
pub open spec fn spec_push(p: Seq<u8>, b: u8) -> (Seq<u8>, Seq<char>) {
    if p.len() == 0 {
        spec_push_fresh(b)
    } else if is_continuation_byte(b) {
        let q = p.push(b);
        if q.len() == expected_len(q[0]) {
            (Seq::empty(), seq![spec_complete_char(q)])
        } else {
            (q, Seq::empty())
        }
    } else {
        let fresh = spec_push_fresh(b);
        (fresh.0, seq![replacement()] + fresh.1)
    }
}

/// A whole byte sequence arriving at a decoder whose buffer holds `p`.
pub open spec fn spec_feed(p: Seq<u8>, bytes: Seq<u8>) -> (Seq<u8>, Seq<char>)
    decreases bytes.len(),
{
    if bytes.len() == 0 {
        (p, Seq::empty())
    } else {
        let first = spec_push(p, bytes[0]);
        let rest = spec_feed(first.0, bytes.drop_first());
        (rest.0, first.1 + rest.1)
    }
}

/// Stateful incremental UTF-8 decoder.
pub struct Utf8Decoder {
    pending: Vec<u8>,
}

impl Utf8Decoder {
    /// The bytes buffered as the incomplete tail of one character.
    pub closed spec fn pending(&self) -> Seq<u8> {
        self.pending@
    }

    /// The decoder's buffer is always an incomplete prefix of one encoding.
    pub open spec fn wf(&self) -> bool {
        wf_pending(self.pending())
    }

    /// A fresh decoder with an empty buffer.
    pub fn new() -> (d: Self)
        ensures
            d.pending() == Seq::<u8>::empty(),
            d.wf(),
    {
        Utf8Decoder { pending: Vec::new() }
    }

    /// Feeds a single byte; returns the characters completed by it.
    pub fn push_byte(&mut self, b: u8) -> (out: Vec<char>)
        requires
            old(self).wf(),
        ensures
            final(self).wf(),
            final(self).pending() == spec_push(old(self).pending(), b).0,
            out@ == spec_push(old(self).pending(), b).1,
    {
        let mut out: Vec<char> = Vec::new();
        if self.pending.len() == 0 {
            self.push_fresh(b, &mut out);
        } else if 0x80 <= b && b <= 0xbf {
            self.pending.push(b);
            let lead = self.pending[0];
            let need: usize = if lead <= 0xdf {
                2
            } else if lead <= 0xef {
                3
            } else {
                4
            };
            proof {
                assert(need == expected_len(self.pending@[0]));
            }
            if self.pending.len() == need {
                let c = self.complete_char();
                out.push(c);
                self.pending.clear();
            }
        } else {
            out.push('\u{fffd}');
            self.pending.clear();
            self.push_fresh(b, &mut out);
            proof {
                assert(out@ =~= seq![replacement()] + spec_push_fresh(b).1);
            }
        }
        out
    }

    /// Handles a byte that starts a new character.
    fn push_fresh(&mut self, b: u8, out: &mut Vec<char>)
        requires
            old(self).pending@.len() == 0,
        ensures
            final(self).pending@ == spec_push_fresh(b).0,
            final(out)@ == old(out)@ + spec_push_fresh(b).1,
    {
        if b <= 0x7f {
            let c = char_from_scalar(b as u32);
            out.push(c);
        } else if 0xc0 <= b && b <= 0xf7 {
            self.pending.push(b);
        } else {
            out.push('\u{fffd}');
        }
    }

    /// Decodes the completed buffer into one character.
    fn complete_char(&self) -> (c: char)
        requires
            self.pending@.len() == expected_len(self.pending@[0]),
            is_leading_byte_width_2(self.pending@[0]) || is_leading_byte_width_3(
                self.pending@[0],
            ) || is_leading_byte_width_4(self.pending@[0]),
            forall|i: int|
                1 <= i < self.pending@.len() ==> is_continuation_byte(#[trigger] self.pending@[i]),
        ensures
            c == spec_complete_char(self.pending@),
    {
        let lead = self.pending[0];
        let cp: u32;
        let overlong_ok: bool;
        if lead <= 0xdf {
            let b1 = self.pending[1];
            cp = (((lead & 0x1f) as u32) << 6u32) | ((b1 & 0x3f) as u32);
            overlong_ok = cp >= 0x80;
            proof {
                assert((((lead & 0x1f) as u32) << 6u32) | ((b1 & 0x3f) as u32) <= 0x7ff)
                    by (bit_vector);
            }
        } else if lead <= 0xef {
            let b1 = self.pending[1];
            let b2 = self.pending[2];
            cp = (((lead & 0x0f) as u32) << 12u32) | (((b1 & 0x3f) as u32) << 6u32) | ((b2
                & 0x3f) as u32);
            overlong_ok = cp >= 0x800;
            proof {
                assert((((lead & 0x0f) as u32) << 12u32) | (((b1 & 0x3f) as u32) << 6u32) | ((b2
                    & 0x3f) as u32) <= 0xffff) by (bit_vector);
            }
        } else {
            let b1 = self.pending[1];
            let b2 = self.pending[2];
            let b3 = self.pending[3];
            cp = (((lead & 0x07) as u32) << 18u32) | (((b1 & 0x3f) as u32) << 12u32) | (((b2
                & 0x3f) as u32) << 6u32) | ((b3 & 0x3f) as u32);
            overlong_ok = 0x10000 <= cp && cp <= 0x10ffff;
        }
        if overlong_ok && !(0xd800 <= cp && cp <= 0xdfff) {
            char_from_scalar(cp)
        } else {
            '\u{fffd}'
        }
    }

    /// Feeds a byte slice; returns all characters completed by it.
    pub fn feed(&mut self, bytes: &[u8]) -> (out: Vec<char>)
        requires
            old(self).wf(),
        ensures
            final(self).wf(),
            final(self).pending() == spec_feed(old(self).pending(), bytes@).0,
            out@ == spec_feed(old(self).pending(), bytes@).1,
    {
        let mut out: Vec<char> = Vec::new();
        let n = bytes.len();
        let mut i: usize = 0;
        while i < n
            invariant
                n == bytes@.len(),
                i <= n,
                self.wf(),
                self.pending() == spec_feed(old(self).pending(), bytes@.subrange(0, i as int)).0,
                out@ == spec_feed(old(self).pending(), bytes@.subrange(0, i as int)).1,
            decreases n - i,
        {
            let mut chunk = self.push_byte(bytes[i]);
            out.append(&mut chunk);
            proof {
                lemma_spec_feed_snoc(old(self).pending(), bytes@.subrange(0, i as int), bytes@[i as int]);
                assert(bytes@.subrange(0, i as int).push(bytes@[i as int]) =~= bytes@.subrange(
                    0,
                    i + 1 as int,
                ));
            }
            i += 1;
        }
        proof {
            assert(bytes@.subrange(0, n as int) =~= bytes@);
        }
        out
    }
}

/// Feeding `s` and then one more byte is one more step after feeding `s`.
proof fn lemma_spec_feed_snoc(p: Seq<u8>, s: Seq<u8>, b: u8)
    ensures
        spec_feed(p, s.push(b)).0 == spec_push(spec_feed(p, s).0, b).0,
        spec_feed(p, s.push(b)).1 == spec_feed(p, s).1 + spec_push(spec_feed(p, s).0, b).1,
    decreases s.len(),
{
    reveal_with_fuel(spec_feed, 3);
    if s.len() == 0 {
        assert(s.push(b)[0] == b);
        assert(s.push(b).drop_first() =~= s);
        assert(spec_feed(p, s.push(b)).1 =~= spec_push(p, b).1);
        assert(spec_feed(p, s).1 + spec_push(spec_feed(p, s).0, b).1 =~= spec_push(p, b).1);
    } else {
        let first = spec_push(p, s[0]);
        assert(s.push(b)[0] == s[0]);
        assert(s.push(b).drop_first() =~= s.drop_first().push(b));
        lemma_spec_feed_snoc(first.0, s.drop_first(), b);
        assert(spec_feed(p, s.push(b)).1 =~= spec_feed(p, s).1 + spec_push(
            spec_feed(p, s).0,
            b,
        ).1);
    }
}

/// Feeding a concatenation is feeding the parts in order.
pub proof fn lemma_spec_feed_concat(p: Seq<u8>, s1: Seq<u8>, s2: Seq<u8>)
    ensures
        spec_feed(p, s1 + s2).0 == spec_feed(spec_feed(p, s1).0, s2).0,
        spec_feed(p, s1 + s2).1 == spec_feed(p, s1).1 + spec_feed(spec_feed(p, s1).0, s2).1,
    decreases s1.len(),
{
    if s1.len() == 0 {
        assert(s1 + s2 =~= s2);
        assert(spec_feed(p, s1).1 + spec_feed(spec_feed(p, s1).0, s2).1 =~= spec_feed(p, s2).1);
    } else {
        let first = spec_push(p, s1[0]);
        assert((s1 + s2).drop_first() =~= s1.drop_first() + s2);
        lemma_spec_feed_concat(first.0, s1.drop_first(), s2);
        assert(spec_feed(p, s1 + s2).1 =~= spec_feed(p, s1).1 + spec_feed(
            spec_feed(p, s1).0,
            s2,
        ).1);
    }
}

/// Feeding exactly the bytes of one well-formed scalar encoding into an
/// empty decoder emits exactly that scalar's character.
proof fn lemma_feed_one_scalar(bytes: Seq<u8>)
    requires
        valid_first_scalar(bytes),
        bytes.len() == length_of_first_scalar(bytes),
    ensures
        spec_feed(Seq::empty(), bytes).0 == Seq::<u8>::empty(),
        spec_feed(Seq::empty(), bytes).1 == seq![decode_first_scalar(bytes) as char],
{
    reveal_with_fuel(spec_feed, 5);
    let b0 = bytes[0];
    if is_leading_byte_width_1(b0) {
        assert(((b0 & 0x7f) as u32) == (b0 as u32)) by (bit_vector)
            requires
                b0 <= 0x7f,
        ;
        assert(decode_first_codepoint(bytes) == (b0 as u32));
        assert(bytes.drop_first() =~= Seq::<u8>::empty());
        assert(spec_feed(Seq::empty(), bytes).1 =~= seq![(b0 as u32) as char]);
    } else if is_leading_byte_width_2(b0) {
        let q = seq![b0].push(bytes[1]);
        assert(q =~= bytes);
        assert(expected_len(q[0]) == 2);
        assert(spec_complete_char(bytes) == decode_first_scalar(bytes) as char);
        assert(bytes.drop_first().drop_first() =~= Seq::<u8>::empty());
        assert(spec_feed(Seq::empty(), bytes).1 =~= seq![spec_complete_char(bytes)]);
    } else if is_leading_byte_width_3(b0) {
        let p1 = seq![b0];
        let p2 = p1.push(bytes[1]);
        let q = p2.push(bytes[2]);
        assert(q =~= bytes);
        assert(p2[0] == b0 && p2.len() == 2 && expected_len(p2[0]) == 3);
        assert(spec_complete_char(bytes) == decode_first_scalar(bytes) as char);
        assert(bytes.drop_first().drop_first().drop_first() =~= Seq::<u8>::empty());
        assert(spec_feed(Seq::empty(), bytes).1 =~= seq![spec_complete_char(bytes)]);
    } else {
        let p1 = seq![b0];
        let p2 = p1.push(bytes[1]);
        let p3 = p2.push(bytes[2]);
        let q = p3.push(bytes[3]);
        assert(q =~= bytes);
        assert(p2[0] == b0 && p2.len() == 2 && expected_len(p2[0]) == 4);
        assert(p3[0] == b0 && p3.len() == 3 && expected_len(p3[0]) == 4);
        assert(spec_complete_char(bytes) == decode_first_scalar(bytes) as char);
        assert(bytes.drop_first().drop_first().drop_first().drop_first() =~= Seq::<u8>::empty());
        assert(spec_feed(Seq::empty(), bytes).1 =~= seq![spec_complete_char(bytes)]);
    }
}

/// Feeding any valid UTF-8 byte sequence into an empty decoder emits
/// exactly its decoding and leaves the buffer empty.
pub proof fn lemma_feed_valid_utf8(bytes: Seq<u8>)
    requires
        valid_utf8(bytes),
    ensures
        spec_feed(Seq::empty(), bytes).0 == Seq::<u8>::empty(),
        spec_feed(Seq::empty(), bytes).1 == decode_utf8(bytes),
    decreases bytes.len(),
{
    if bytes.len() == 0 {
        assert(spec_feed(Seq::empty(), bytes).1 =~= decode_utf8(bytes));
    } else {
        let head = take_first_scalar(bytes);
        let tail = pop_first_scalar(bytes);
        assert(head + tail =~= bytes);
        assert(valid_first_scalar(head) && length_of_first_scalar(head) == head.len()
            && decode_first_scalar(head) == decode_first_scalar(bytes)) by {
            assert(forall|i: int| 0 <= i < head.len() ==> head[i] == bytes[i]);
        }
        lemma_feed_one_scalar(head);
        lemma_spec_feed_concat(Seq::empty(), head, tail);
        lemma_feed_valid_utf8(tail);
        assert(spec_feed(Seq::empty(), bytes).1 =~= seq![decode_first_scalar(bytes) as char]
            + decode_utf8(tail));
        assert(decode_utf8(bytes) =~= seq![decode_first_scalar(bytes) as char] + decode_utf8(
            tail,
        ));
    }
}

/// Law: however the UTF-8 encoding of a text is split in two, feeding the
/// two chunks through one decoder in order reassembles exactly the text,
/// with nothing left buffered.  In particular a multi-byte character whose
/// bytes straddle the boundary between two tokens is decoded correctly.
pub proof fn lemma_split_decode(s: Seq<char>, cut: int)
    requires
        0 <= cut <= encode_utf8(s).len(),
    ensures
        ({
            let e = encode_utf8(s);
            let first = spec_feed(Seq::empty(), e.subrange(0, cut));
            let second = spec_feed(first.0, e.subrange(cut, e.len() as int));
            first.1 + second.1 == s && second.0 == Seq::<u8>::empty()
        }),
{
    let e = encode_utf8(s);
    let c1 = e.subrange(0, cut);
    let c2 = e.subrange(cut, e.len() as int);
    assert(c1 + c2 =~= e);
    lemma_spec_feed_concat(Seq::empty(), c1, c2);
    lemma_feed_valid_utf8(e);
}

} // verus!
