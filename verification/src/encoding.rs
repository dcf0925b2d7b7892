//! Byte encodings that feed the block hash: decimal text of integers and
//! lowercase hexadecimal text of byte strings.

use vstd::prelude::*;

verus! {

/// ASCII code of the decimal digit `d` (`0 <= d < 10`).
pub open spec fn decimal_digit(d: nat) -> u8 {
    (48 + d) as u8
}

/// Decimal text of `n`, most significant digit first, without leading zeros:
/// what `to_string` gives for an unsigned integer.
pub open spec fn decimal_text(n: nat) -> Seq<u8>
    decreases n,
{
    if n < 10 {
        seq![decimal_digit(n)]
    } else {
        decimal_text(n / 10).push(decimal_digit(n % 10))
    }
}

/// Decimal text of a signed integer: a `-` before the digits of its magnitude
/// when it is negative.
pub open spec fn signed_decimal_text(n: int) -> Seq<u8> {
    if n < 0 {
        seq![45u8] + decimal_text((-n) as nat)
    } else {
        decimal_text(n as nat)
    }
}

/// Appends the decimal text of `n` to `out`.
pub fn push_decimal(out: &mut Vec<u8>, n: u64)
    ensures
        final(out)@ == old(out)@ + decimal_text(n as nat),
    decreases n,
{
    let ghost start = out@;
    if n >= 10 {
        push_decimal(out, n / 10);
    }
    let digit: u8 = (n % 10) as u8;
    out.push(48 + digit);
    assert(out@ =~= start + decimal_text(n as nat));
}

/// Appends the decimal text of the signed integer `n` to `out`.
pub fn push_signed_decimal(out: &mut Vec<u8>, n: i64)
    ensures
        final(out)@ == old(out)@ + signed_decimal_text(n as int),
{
    if n < 0 {
        let ghost start = out@;
        out.push(45u8);
        let magnitude: u64 = ((-(n + 1)) as u64) + 1;
        push_decimal(out, magnitude);
        assert(out@ =~= start + signed_decimal_text(n as int));
    } else {
        push_decimal(out, n as u64);
    }
}

} // verus!

verus! {

/// ASCII code of the lowercase hexadecimal digit for `v` (`0 <= v < 16`).
pub open spec fn hex_digit(v: u8) -> u8 {
    if v < 10 {
        (48 + v) as u8
    } else {
        (87 + v) as u8
    }
}

/// Lowercase hexadecimal text of `bytes`, as ASCII codes: two digits per
/// byte, the high nibble first.
pub open spec fn hex_text(bytes: Seq<u8>) -> Seq<u8> {
    Seq::new(
        2 * bytes.len(),
        |i: int|
            if i % 2 == 0 {
                hex_digit(bytes[i / 2] / 16)
            } else {
                hex_digit(bytes[i / 2] % 16)
            },
    )
}

/// The same text as characters.
pub open spec fn ascii_chars(text: Seq<u8>) -> Seq<char> {
    text.map_values(|c: u8| c as char)
}

/// Whether `c` is a lowercase hexadecimal digit: `0`-`9` or `a`-`f`.
pub open spec fn is_hex_symbol(c: u8) -> bool {
    (48 <= c <= 57) || (97 <= c <= 102)
}

/// The value of the hexadecimal digit `c`.
pub open spec fn hex_value(c: u8) -> int {
    if c <= 57 {
        c - 48
    } else {
        c - 87
    }
}

/// Whether every symbol of `text` is a lowercase hexadecimal digit.
pub open spec fn all_hex_symbols(text: Seq<u8>) -> bool {
    forall|i: int| 0 <= i < text.len() ==> is_hex_symbol(#[trigger] text[i])
}

/// Whether `pos` is the first position of `text` that holds no lowercase
/// hexadecimal digit.
pub open spec fn first_non_hex(text: Seq<u8>, pos: int) -> bool {
    &&& 0 <= pos < text.len()
    &&& !is_hex_symbol(text[pos])
    &&& forall|i: int| 0 <= i < pos ==> is_hex_symbol(#[trigger] text[i])
}

/// The bytes that the hexadecimal text `text` (of even length) stands for.
pub open spec fn hex_decoded(text: Seq<u8>) -> Seq<u8> {
    Seq::new(
        text.len() / 2,
        |i: int| (16 * hex_value(text[2 * i]) + hex_value(text[2 * i + 1])) as u8,
    )
}

/// Every symbol of the hexadecimal text of a byte string is a hexadecimal
/// digit, and decoding that text gives the byte string back.
pub proof fn lemma_hex_round_trip(bytes: Seq<u8>)
    ensures
        all_hex_symbols(hex_text(bytes)),
        hex_decoded(hex_text(bytes)) == bytes,
{
    let text = hex_text(bytes);
    assert forall|i: int| 0 <= i < text.len() implies is_hex_symbol(#[trigger] text[i]) by {
        let b = bytes[i / 2];
        assert(b / 16 < 16);
    }
    assert forall|i: int| 0 <= i < bytes.len() implies #[trigger] hex_decoded(text)[i] == bytes[i] by {
        let b = bytes[i];
        assert((2 * i) / 2 == i);
        assert((2 * i + 1) / 2 == i);
        assert((2 * i) % 2 == 0);
        assert((2 * i + 1) % 2 == 1);
        assert(hex_value(hex_digit(b / 16)) == b / 16);
        assert(hex_value(hex_digit(b % 16)) == b % 16);
        assert(16 * (b / 16) + b % 16 == b);
    }
    assert(hex_decoded(text) =~= bytes);
}

/// Decoding a text of lowercase hexadecimal digits of even length and
/// encoding the bytes again gives the text back.
pub proof fn lemma_hex_decode_encode(text: Seq<u8>)
    requires
        text.len() % 2 == 0,
        all_hex_symbols(text),
    ensures
        hex_text(hex_decoded(text)) == text,
{
    let bytes = hex_decoded(text);
    let again = hex_text(bytes);
    assert forall|i: int| 0 <= i < text.len() implies #[trigger] again[i] == text[i] by {
        let k = i / 2;
        assert(0 <= k < bytes.len());
        let hi = hex_value(text[2 * k]);
        let lo = hex_value(text[2 * k + 1]);
        assert(is_hex_symbol(text[2 * k]));
        assert(is_hex_symbol(text[2 * k + 1]));
        assert(0 <= hi < 16 && 0 <= lo < 16);
        let b = bytes[k];
        assert(b == 16 * hi + lo);
        assert(b / 16 == hi && b % 16 == lo) by (nonlinear_arith)
            requires
                b == 16 * hi + lo,
                0 <= hi < 16,
                0 <= lo < 16,
        ;
        if i % 2 == 0 {
            assert(i == 2 * k);
        } else {
            assert(i == 2 * k + 1);
        }
    }
    assert(again =~= text);
}

} // verus!
