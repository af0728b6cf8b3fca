//! Single-byte text decoding.
//!
//! The region embeds text (variable names, units, descriptions and the
//! session document) as single-byte characters: each byte stands for the
//! Unicode code point of the same numeric value.  Decoding therefore never
//! fails, whatever the byte content.

use vstd::prelude::*;

verus! {

/// The text that a byte sequence denotes: one char per byte, each the code
/// point of the byte's value.
pub open spec fn latin1_chars(b: Seq<u8>) -> Seq<char> {
    Seq::new(b.len(), |i: int| b[i] as char)
}

/// `t` is the text of the field bytes `field`, cut at the first NUL:
/// a prefix of non-NUL bytes, decoded one char per byte, with a NUL right
/// after it unless it spans the whole field.
pub open spec fn trimmed_text(field: Seq<u8>, t: Seq<char>) -> bool {
    &&& t.len() <= field.len()
    &&& (forall|i: int| 0 <= i < t.len() ==> field[i] != 0 && t[i] == field[i] as char)
    &&& (t.len() < field.len() ==> field[t.len() as int] == 0)
}

/// Decode the `len` bytes of `buf` at `off` as single-byte text cut at the
/// first NUL.
pub fn trimmed_latin1(buf: &Vec<u8>, off: usize, len: usize) -> (r: String)
    requires
        off + len <= buf@.len(),
    ensures
        trimmed_text(buf@.subrange(off as int, off + len), r@),
{
    let n = buf.len();
    let mut m: usize = 0;
    while m < len && buf[off + m] != 0
        invariant
            m <= len,
            off + len <= n == buf@.len(),
            forall|j: int| 0 <= j < m ==> #[trigger] buf@[off + j] != 0,
        decreases len - m,
    {
        m = m + 1;
    }
    let at_end = m >= len;
    let mut raw: Vec<u8> = Vec::new();
    let mut i: usize = 0;
    while i < m
        invariant
            i <= m <= len,
            off + len <= n == buf@.len(),
            raw@ == buf@.subrange(off as int, off + i),
        decreases m - i,
    {
        raw.push(buf[off + i]);
        assert(raw@ =~= buf@.subrange(off as int, off + i + 1));
        i = i + 1;
    }
    let text = decode_latin1_text(raw.as_slice());
    proof {
        let field = buf@.subrange(off as int, off + len);
        assert(text@.len() == m);
        assert(!at_end ==> field[m as int] == buf@[off + m] == 0);
        assert forall|k: int| 0 <= k < text@.len() implies field[k] != 0 && text@[k] == field[k]
            as char by {
            assert(field[k] == buf@[off + k]);
            assert(raw@[k] == buf@[off + k]);
            assert(latin1_chars(raw@)[k] == raw@[k] as char);
        }
        assert(trimmed_text(field, text@));
    }
    text
}

/// Relies on `encoding_rs::mem::decode_latin1`: it converts bytes whose
/// unsigned value is interpreted as a Unicode code point (U+0000 to U+00FF)
/// to text, so the result has exactly one char per input byte, each equal to
/// the byte's value.
#[verifier::external_body]
pub(crate) fn decode_latin1_text(bytes: &[u8]) -> (r: String)
    ensures
        r@ == latin1_chars(bytes@),
{
    encoding_rs::mem::decode_latin1(bytes).into_owned()
}


/// `s` is one or more decimal digits.
pub open spec fn is_digits(s: Seq<char>) -> bool {
    s.len() >= 1 && forall|i: int| 0 <= i < s.len() ==> '0' <= #[trigger] s[i] <= '9'
}

/// The decimal value the digits `s` denote.
pub open spec fn dec_value(s: Seq<char>) -> int
    decreases s.len(),
{
    if s.len() == 0 {
        0
    } else {
        dec_value(s.drop_last()) * 10 + (s.last() as int - 48)
    }
}

/// `s` is one or more lower-case hexadecimal digits.
pub open spec fn is_hex_digits(s: Seq<char>) -> bool {
    s.len() >= 1 && forall|i: int|
        0 <= i < s.len() ==> ('0' <= #[trigger] s[i] <= '9' || 'a' <= s[i] <= 'f')
}

/// The value one hexadecimal digit denotes.
pub open spec fn hex_digit_value(c: char) -> int {
    if '0' <= c <= '9' {
        c as int - 48
    } else {
        c as int - 87
    }
}

/// The value the hexadecimal digits `s` denote.
pub open spec fn hex_value(s: Seq<char>) -> int
    decreases s.len(),
{
    if s.len() == 0 {
        0
    } else {
        hex_value(s.drop_last()) * 16 + hex_digit_value(s.last())
    }
}

/// Relies on std's decimal formatting for `u64`: the text is the number's
/// decimal digits, with no leading zero except for zero itself.
#[verifier::external_body]
pub(crate) fn decimal_text(n: u64) -> (r: String)
    ensures
        is_digits(r@),
        dec_value(r@) == n,
        n > 0 ==> r@[0] != '0',
        n == 0 ==> r@ =~= seq!['0'],
{
    n.to_string()
}

/// Relies on std's `LowerHex` formatting for `u32`: the text is the
/// number's hexadecimal digits, lower case, with no leading zero except
/// for zero itself.
#[verifier::external_body]
pub(crate) fn hex_text(n: u32) -> (r: String)
    ensures
        is_hex_digits(r@),
        hex_value(r@) == n,
        n > 0 ==> r@[0] != '0',
        n == 0 ==> r@ =~= seq!['0'],
{
    format!("{:x}", n)
}

} // verus!
