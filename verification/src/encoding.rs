//! Comparing strings through their bytes.
//!
//! UTF-8 keeps the order of texts: comparing two strings byte by byte, as
//! `str` does, compares them character by character.

use crate::bytes::{
    agree_up_to, bytes_before, bytes_equal, bytes_less, decides_before, differs_before,
    lemma_head_decides, lemma_same_head,
};
use crate::text::{lemma_text_before_by_first, letters_decide, text_before};
use vstd::prelude::*;
use vstd::utf8::{
    char_is_scalar, encode_scalar, encode_utf8, has_width_1_encoding, has_width_2_encoding,
    has_width_3_encoding, has_width_4_encoding, is_scalar, last_continuation_byte,
    leading_byte_width_1, leading_byte_width_2, leading_byte_width_3, leading_byte_width_4,
    second_last_continuation_byte, third_last_continuation_byte,
};

verus! {

/// The first byte of an encoding tells how many bytes it has: the ranges of
/// the first bytes lie one after the other.
proof fn lemma_leading_byte_ranges(c: u32)
    by (bit_vector)
    ensures
        has_width_1_encoding(c) ==> leading_byte_width_1(c) <= 0x7F,
        has_width_2_encoding(c) ==> 0xC0 <= leading_byte_width_2(c) <= 0xDF,
        has_width_3_encoding(c) ==> 0xE0 <= leading_byte_width_3(c) <= 0xEF,
        has_width_4_encoding(c) ==> 0xF0 <= leading_byte_width_4(c) <= 0xF7,
{
}

/// Encodings of one byte order as their scalar values do.
proof fn lemma_order_width_1(c: u32, d: u32)
    by (bit_vector)
    requires
        has_width_1_encoding(c),
        has_width_1_encoding(d),
        c < d,
    ensures
        leading_byte_width_1(c) < leading_byte_width_1(d),
{
}

/// Encodings of two bytes order as their scalar values do.
proof fn lemma_order_width_2(c: u32, d: u32)
    by (bit_vector)
    requires
        has_width_2_encoding(c),
        has_width_2_encoding(d),
        c < d,
    ensures
        leading_byte_width_2(c) < leading_byte_width_2(d) || (leading_byte_width_2(c)
            == leading_byte_width_2(d) && last_continuation_byte(c) < last_continuation_byte(d)),
{
}

/// Encodings of three bytes order as their scalar values do.
proof fn lemma_order_width_3(c: u32, d: u32)
    by (bit_vector)
    requires
        has_width_3_encoding(c),
        has_width_3_encoding(d),
        c < d,
    ensures
        leading_byte_width_3(c) < leading_byte_width_3(d) || (leading_byte_width_3(c)
            == leading_byte_width_3(d) && (second_last_continuation_byte(c)
            < second_last_continuation_byte(d) || (second_last_continuation_byte(c)
            == second_last_continuation_byte(d) && last_continuation_byte(c)
            < last_continuation_byte(d)))),
{
}

/// Encodings of four bytes order as their scalar values do.
proof fn lemma_order_width_4(c: u32, d: u32)
    by (bit_vector)
    requires
        has_width_4_encoding(c),
        has_width_4_encoding(d),
        c < d,
    ensures
        leading_byte_width_4(c) < leading_byte_width_4(d) || (leading_byte_width_4(c)
            == leading_byte_width_4(d) && (third_last_continuation_byte(c)
            < third_last_continuation_byte(d) || (third_last_continuation_byte(c)
            == third_last_continuation_byte(d) && (second_last_continuation_byte(c)
            < second_last_continuation_byte(d) || (second_last_continuation_byte(c)
            == second_last_continuation_byte(d) && last_continuation_byte(c)
            < last_continuation_byte(d)))))),
{
}

/// The encoding of the smaller of two scalar values differs before the
/// encoding of the larger.
proof fn lemma_scalar_order(c: u32, d: u32)
    requires
        is_scalar(c),
        is_scalar(d),
        c < d,
    ensures
        differs_before(encode_scalar(c), encode_scalar(d)),
{
    let x = encode_scalar(c);
    let y = encode_scalar(d);
    lemma_leading_byte_ranges(c);
    lemma_leading_byte_ranges(d);
    if has_width_1_encoding(d) {
        lemma_order_width_1(c, d);
    } else if has_width_2_encoding(c) && has_width_2_encoding(d) {
        lemma_order_width_2(c, d);
    } else if has_width_3_encoding(c) && has_width_3_encoding(d) {
        lemma_order_width_3(c, d);
    } else if has_width_4_encoding(c) {
        lemma_order_width_4(c, d);
    }
    // Encodings of different lengths differ in their first bytes.
    let k: int = if x[0] != y[0] {
        0
    } else if x[1] != y[1] {
        1
    } else if x[2] != y[2] {
        2
    } else {
        3
    };
    assert(agree_up_to(x, y, k) && x[k] < y[k]);
}

/// The encoding of the smaller of two characters differs before the encoding
/// of the larger.
proof fn lemma_char_order(c: char, d: char)
    requires
        c < d,
    ensures
        differs_before(encode_scalar(c as u32), encode_scalar(d as u32)),
{
    char_is_scalar(c);
    char_is_scalar(d);
    lemma_scalar_order(c as u32, d as u32);
}

/// UTF-8 keeps the order of texts.
pub proof fn lemma_encoding_keeps_order(a: Seq<char>, b: Seq<char>)
    ensures
        bytes_before(encode_utf8(a), encode_utf8(b)) == text_before(a, b),
    decreases a.len(),
{
    let ea = encode_utf8(a);
    let eb = encode_utf8(b);
    if a.len() == 0 && b.len() > 0 {
        assert(decides_before(ea, eb, 0));
        assert(letters_decide(a, b, 0));
    } else if a.len() > 0 && b.len() > 0 {
        let x = encode_scalar(a[0] as u32);
        let y = encode_scalar(b[0] as u32);
        let s = encode_utf8(a.drop_first());
        let t = encode_utf8(b.drop_first());
        lemma_text_before_by_first(a, b);
        if a[0] == b[0] {
            lemma_same_head(x, s, t);
            lemma_encoding_keeps_order(a.drop_first(), b.drop_first());
        } else if a[0] < b[0] {
            lemma_char_order(a[0], b[0]);
            lemma_head_decides(x, y, s, t);
        } else {
            lemma_char_order(b[0], a[0]);
            lemma_head_decides(y, x, t, s);
        }
    }
}

/// Texts with the same encoding are the same text.
pub proof fn lemma_encoding_determines_text(a: Seq<char>, b: Seq<char>)
    requires
        encode_utf8(a) == encode_utf8(b),
    ensures
        a == b,
{
    vstd::utf8::encode_utf8_decode_utf8(a);
    vstd::utf8::encode_utf8_decode_utf8(b);
}

/// Whether `a` and `b` are the same text.
pub fn same_text(a: &str, b: &str) -> (same: bool)
    ensures
        same == (a@ == b@),
{
    let same = bytes_equal(a.as_bytes(), b.as_bytes());
    proof {
        if same {
            lemma_encoding_determines_text(a@, b@);
        }
    }
    same
}

/// Whether the string `a` sorts strictly before the string `b`.
pub fn text_less(a: &str, b: &str) -> (less: bool)
    ensures
        less == text_before(a@, b@),
{
    proof {
        lemma_encoding_keeps_order(a@, b@);
    }
    bytes_less(a.as_bytes(), b.as_bytes())
}

} // verus!
