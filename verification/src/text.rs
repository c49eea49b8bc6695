//! UTF-8: encoding of code points, and what keeps a byte string well formed.

use vstd::prelude::*;
use vstd::utf8::*;

verus! {

/// Unicode replacement character (U+FFFD), the expansion of numeric
/// references that name no valid character.
pub const REPLACEMENT_CHAR: char = '\u{fffd}';

/// Whether every byte of `s` is an ASCII byte.
pub open spec fn is_ascii_bytes(s: Seq<u8>) -> bool {
    forall|i: int| 0 <= i < s.len() ==> #[trigger] s[i] <= 0x7f
}

/// The text that a lossy reading makes of `bytes`: the text that the
/// bytes encode where they are well-formed UTF-8; else that text with a
/// replacement character for each ill-formed stretch.
pub uninterp spec fn lossy_text(bytes: Seq<u8>) -> Seq<char>;

/// Reads `bytes` as text with `String::from_utf8_lossy`, which cannot
/// fail. Trusted: the result is named `lossy_text`, and for well-formed
/// UTF-8 it is the text that the bytes encode, as the documentation of
/// `String::from_utf8_lossy` says.
#[verifier::external_body]
pub(crate) fn text_from_bytes(bytes: &[u8]) -> (text: String)
    ensures
        text@ == lossy_text(bytes@),
        valid_utf8(bytes@) ==> text@ == decode_utf8(bytes@),
{
    String::from_utf8_lossy(bytes).into_owned()
}

/// Encodes the Unicode scalar value `c` in UTF-8.
pub fn u32_to_vecu8(c: u32) -> (bytes: Vec<u8>)
    requires
        is_scalar(c),
    ensures
        bytes@ == encode_scalar(c),
{
    let mut bytes: Vec<u8> = Vec::with_capacity(4);
    if c <= 0x7F {
        assert(c & 0x7F == c) by (bit_vector)
            requires
                c <= 0x7F,
        ;
        bytes.push(c as u8);
    } else if c <= 0x7FF {
        assert((c >> 6) & 0x1F < 0x100 && c & 0x3F < 0x100) by (bit_vector);
        bytes.push(0xC0 | ((c >> 6) & 0x1F) as u8);
        bytes.push(0x80 | (c & 0x3F) as u8);
    } else if c <= 0xFFFF {
        assert((c >> 12) & 0x0F < 0x100 && (c >> 6) & 0x3F < 0x100 && c & 0x3F < 0x100)
            by (bit_vector);
        bytes.push(0xE0 | ((c >> 12) & 0x0F) as u8);
        bytes.push(0x80 | ((c >> 6) & 0x3F) as u8);
        bytes.push(0x80 | (c & 0x3F) as u8);
    } else {
        assert((c >> 18) & 0x7 < 0x100 && (c >> 12) & 0x3F < 0x100 && (c >> 6) & 0x3F < 0x100 && c
            & 0x3F < 0x100) by (bit_vector);
        bytes.push(0xF0 | ((c >> 18) & 0x7) as u8);
        bytes.push(0x80 | ((c >> 12) & 0x3F) as u8);
        bytes.push(0x80 | ((c >> 6) & 0x3F) as u8);
        bytes.push(0x80 | (c & 0x3F) as u8);
    }
    assert(bytes@ =~= encode_scalar(c));
    bytes
}

/// Encodes the character `c` in UTF-8.
pub fn char_to_vecu8(c: char) -> (bytes: Vec<u8>)
    ensures
        bytes@ == encode_scalar(c as u32),
{
    proof {
        char_is_scalar(c);
    }
    u32_to_vecu8(c as u32)
}

/// The encoding of a scalar value is well-formed UTF-8.
pub proof fn lemma_encode_scalar_valid(c: u32)
    requires
        is_scalar(c),
    ensures
        valid_utf8(encode_scalar(c)),
        1 <= encode_scalar(c).len() <= 4,
{
    let chars = seq![c as char];
    assert(chars[0] as u32 == c);
    assert(chars.drop_first() =~= Seq::<char>::empty());
    assert(encode_utf8(chars.drop_first()) =~= Seq::<u8>::empty());
    assert(encode_utf8(chars) =~= encode_scalar(c));
    encode_utf8_valid_utf8(chars);
}

/// A sequence of ASCII bytes is well-formed UTF-8.
pub proof fn lemma_ascii_valid(s: Seq<u8>)
    requires
        is_ascii_bytes(s),
    ensures
        valid_utf8(s),
    decreases s.len(),
{
    if s.len() > 0 {
        let b = s[0];
        assert((b & 0x7f) as u32 <= 0x7f) by (bit_vector);
        lemma_ascii_valid(pop_first_scalar(s));
    }
}

/// What follows ASCII bytes in well-formed UTF-8 is well formed.
pub proof fn lemma_valid_after_ascii(m: Seq<u8>, b: Seq<u8>)
    requires
        is_ascii_bytes(m),
        valid_utf8(m + b),
    ensures
        valid_utf8(b),
    decreases m.len(),
{
    if m.len() == 0 {
        assert(m + b =~= b);
    } else {
        assert((m + b)[0] == m[0]);
        assert(pop_first_scalar(m + b) =~= m.drop_first() + b);
        lemma_valid_after_ascii(m.drop_first(), b);
    }
}

/// What stands before an ASCII byte in well-formed UTF-8 is well formed,
/// and so is what starts with that byte.
pub proof fn lemma_valid_before_ascii(a: Seq<u8>, rest: Seq<u8>)
    requires
        rest.len() > 0,
        rest[0] <= 0x7f,
        valid_utf8(a + rest),
    ensures
        valid_utf8(a),
        valid_utf8(rest),
{
    let whole = a + rest;
    let at = a.len() as int;
    assert(whole[at] == rest[0]);
    is_char_boundary_iff_not_is_continuation_byte(whole, at);
    valid_utf8_split(whole, at);
    assert(whole.subrange(0, at) =~= a);
    assert(whole.subrange(at, whole.len() as int) =~= rest);
}

/// In well-formed UTF-8, a stretch of ASCII bytes can be replaced by any
/// well-formed UTF-8 without harm to the whole.
pub proof fn lemma_valid_replace_ascii(a: Seq<u8>, m: Seq<u8>, e: Seq<u8>, b: Seq<u8>)
    requires
        m.len() > 0,
        is_ascii_bytes(m),
        valid_utf8(e),
        valid_utf8(a + m + b),
    ensures
        valid_utf8(a + e + b),
{
    assert(a + m + b =~= a + (m + b));
    lemma_valid_before_ascii(a, m + b);
    lemma_valid_after_ascii(m, b);
    valid_utf8_concat(a, e);
    valid_utf8_concat(a + e, b);
}

} // verus!
