//! Numeric character references: `&#` and decimal digits, or `&#x` and
//! hexadecimal digits, with an optional `;`.

use crate::scan::{
    consume_decimal, consume_hexadecimal, extend_from_range, lemma_run_len, run_len, ByteClass,
    AMPERSAND, NUMBER_SIGN, SEMICOLON,
};
use crate::text::{
    char_to_vecu8, is_ascii_bytes, lemma_ascii_valid, lemma_encode_scalar_valid, u32_to_vecu8,
    REPLACEMENT_CHAR,
};
use vstd::prelude::*;
use vstd::utf8::*;

verus! {

/// The code points that the numbers `0x80..=0x9F` stand for. Most of them
/// are read as Windows-1252 bytes; `0x81`, `0x8D`, `0x8F`, `0x90` and
/// `0x9D` stand for themselves.
pub const LEGACY_CODE_POINTS: [u32; 32] = [
    0x20AC,  // 0x80 EURO SIGN
    0x0081,  // 0x81
    0x201A,  // 0x82 SINGLE LOW-9 QUOTATION MARK
    0x0192,  // 0x83 LATIN SMALL LETTER F WITH HOOK
    0x201E,  // 0x84 DOUBLE LOW-9 QUOTATION MARK
    0x2026,  // 0x85 HORIZONTAL ELLIPSIS
    0x2020,  // 0x86 DAGGER
    0x2021,  // 0x87 DOUBLE DAGGER
    0x02C6,  // 0x88 MODIFIER LETTER CIRCUMFLEX ACCENT
    0x2030,  // 0x89 PER MILLE SIGN
    0x0160,  // 0x8A LATIN CAPITAL LETTER S WITH CARON
    0x2039,  // 0x8B SINGLE LEFT-POINTING ANGLE QUOTATION MARK
    0x0152,  // 0x8C LATIN CAPITAL LIGATURE OE
    0x008D,  // 0x8D
    0x017D,  // 0x8E LATIN CAPITAL LETTER Z WITH CARON
    0x008F,  // 0x8F
    0x0090,  // 0x90
    0x2018,  // 0x91 LEFT SINGLE QUOTATION MARK
    0x2019,  // 0x92 RIGHT SINGLE QUOTATION MARK
    0x201C,  // 0x93 LEFT DOUBLE QUOTATION MARK
    0x201D,  // 0x94 RIGHT DOUBLE QUOTATION MARK
    0x2022,  // 0x95 BULLET
    0x2013,  // 0x96 EN DASH
    0x2014,  // 0x97 EM DASH
    0x02DC,  // 0x98 SMALL TILDE
    0x2122,  // 0x99 TRADE MARK SIGN
    0x0161,  // 0x9A LATIN SMALL LETTER S WITH CARON
    0x203A,  // 0x9B SINGLE RIGHT-POINTING ANGLE QUOTATION MARK
    0x0153,  // 0x9C LATIN SMALL LIGATURE OE
    0x009D,  // 0x9D
    0x017E,  // 0x9E LATIN SMALL LETTER Z WITH CARON
    0x0178,  // 0x9F LATIN CAPITAL LETTER Y WITH DIAERESIS
];

/// The code point that a numeric reference to `number` expands to: the
/// replacement character for zero, for numbers beyond the last code point
/// and for surrogates; the legacy reading for `0x80..=0x9F`; else `number`.
pub open spec fn corrected_code_point(number: nat) -> u32 {
    if number == 0 || number > 0x10FFFF || 0xD800 <= number <= 0xDFFF {
        REPLACEMENT_CHAR as u32
    } else if 0x80 <= number <= 0x9F {
        LEGACY_CODE_POINTS[number - 0x80]
    } else {
        number as u32
    }
}

/// Every corrected code point is a Unicode scalar value, so every
/// number has an expansion.
pub proof fn lemma_corrected_code_point_is_scalar(number: nat)
    ensures
        is_scalar(corrected_code_point(number)),
{
}

/// Whether `c` lies beyond the last Unicode code point.
pub fn is_outside_range(c: u32) -> (r: bool)
    ensures
        r == (c > 0x10FFFF),
{
    c > 0x10FFFF
}

/// Whether `c` is a UTF-16 surrogate.
pub fn is_surrogate(c: u32) -> (r: bool)
    ensures
        r == (0xD800 <= c <= 0xDFFF),
{
    0xD800 <= c && c <= 0xDFFF
}

/// The UTF-8 expansion of a numeric reference to `number`.
pub fn correct_numeric_entity(number: u32) -> (expansion: Vec<u8>)
    ensures
        expansion@ == encode_scalar(corrected_code_point(number as nat)),
{
    if number == 0 || is_outside_range(number) || is_surrogate(number) {
        char_to_vecu8(REPLACEMENT_CHAR)
    } else if 0x80 <= number && number <= 0x9F {
        let index: usize = (number - 0x80) as usize;
        u32_to_vecu8(LEGACY_CODE_POINTS[index])
    } else {
        u32_to_vecu8(number)
    }
}

/// The value of a digit in base 10 or 16.
pub open spec fn digit_value(b: u8) -> nat {
    if '0' as u8 <= b <= '9' as u8 {
        (b - '0' as u8) as nat
    } else if 'a' as u8 <= b <= 'f' as u8 {
        (b - 'a' as u8 + 10) as nat
    } else if 'A' as u8 <= b <= 'F' as u8 {
        (b - 'A' as u8 + 10) as nat
    } else {
        0
    }
}

/// The number that `digits` write in base `radix`, most significant
/// digit first.
pub open spec fn digits_value(digits: Seq<u8>, radix: nat) -> nat
    decreases digits.len(),
{
    if digits.len() == 0 {
        0
    } else {
        digits_value(digits.drop_last(), radix) * radix + digit_value(digits.last())
    }
}

/// More digits never write a smaller number.
pub proof fn lemma_digits_value_grows(digits: Seq<u8>, radix: nat, k: int)
    requires
        radix >= 1,
        0 <= k <= digits.len(),
    ensures
        digits_value(digits.take(k), radix) <= digits_value(digits, radix),
    decreases digits.len() - k,
{
    if k == digits.len() {
        assert(digits.take(k) =~= digits);
    } else {
        lemma_digits_value_grows(digits.drop_last(), radix, k);
        assert(digits.drop_last().take(k) =~= digits.take(k));
        let v = digits_value(digits.drop_last(), radix);
        assert(v <= v * radix) by (nonlinear_arith)
            requires
                radix >= 1,
        ;
    }
}

/// The value of the digit `b`.
fn digit_of(b: u8) -> (v: u64)
    requires
        ByteClass::Hexadecimal.contains(b),
    ensures
        v == digit_value(b),
        v < 16,
        ByteClass::Decimal.contains(b) ==> v < 10,
{
    if b <= '9' as u8 {
        (b - '0' as u8) as u64
    } else if b >= 'a' as u8 {
        (b - 'a' as u8 + 10) as u64
    } else {
        (b - 'A' as u8 + 10) as u64
    }
}

/// The base that the digits of `class` are read in.
pub open spec fn radix_of(class: ByteClass) -> nat {
    if class == ByteClass::Hexadecimal {
        16
    } else {
        10
    }
}

/// Reads the digits of `input` from `start` up to `end` as a number in
/// base 10 (`ByteClass::Decimal`) or 16 (`ByteClass::Hexadecimal`).
/// Returns `None` if the number does not fit in a `u32`.
pub fn parse_digits(input: &[u8], start: usize, end: usize, class: ByteClass) -> (number: Option<
    u32,
>)
    requires
        start <= end <= input.len(),
        class != ByteClass::Alphanumeric,
        forall|i: int| start <= i < end ==> class.contains(#[trigger] input@[i]),
    ensures
        number == (if digits_value(input@.subrange(start as int, end as int), radix_of(class))
            <= u32::MAX {
            Some(digits_value(input@.subrange(start as int, end as int), radix_of(class)) as u32)
        } else {
            None
        }),
{
    let radix: u64 = if class == ByteClass::Hexadecimal {
        16
    } else {
        10
    };
    let ghost digits = input@.subrange(start as int, end as int);
    let mut value: u64 = 0;
    let mut i: usize = start;
    while i < end
        invariant
            start <= i <= end <= input.len(),
            class != ByteClass::Alphanumeric,
            radix == radix_of(class),
            digits == input@.subrange(start as int, end as int),
            forall|j: int| start <= j < end ==> class.contains(#[trigger] input@[j]),
            value == digits_value(digits.take(i - start), radix as nat),
            value <= u32::MAX,
        decreases end - i,
    {
        let digit = digit_of(input[i]);
        proof {
            let longer = digits.take(i + 1 - start);
            assert(longer.drop_last() =~= digits.take(i - start));
            assert(longer.last() == input@[i as int]);
            assert(digits_value(longer, radix as nat) == value * radix + digit);
            lemma_digits_value_grows(digits, radix as nat, i + 1 - start);
        }
        value = value * radix + digit;
        if value > u32::MAX as u64 {
            return None;
        }
        i += 1;
    }
    assert(digits.take(i - start) =~= digits);
    Some(value as u32)
}

/// Whether the `#` at `pos` is followed by `x` or `X`.
pub open spec fn is_hexadecimal_reference(s: Seq<u8>, pos: int) -> bool {
    pos + 1 < s.len() && (s[pos + 1] == 'x' as u8 || s[pos + 1] == 'X' as u8)
}

/// The class of the digits that may follow the `#` at `pos`.
pub open spec fn digit_class(s: Seq<u8>, pos: int) -> ByteClass {
    if is_hexadecimal_reference(s, pos) {
        ByteClass::Hexadecimal
    } else {
        ByteClass::Decimal
    }
}

/// Where the digits that follow the `#` at `pos` start.
pub open spec fn digits_start(s: Seq<u8>, pos: int) -> int {
    if is_hexadecimal_reference(s, pos) {
        pos + 2
    } else {
        pos + 1
    }
}

/// Where the digits that follow the `#` at `pos` end.
pub open spec fn digits_end(s: Seq<u8>, pos: int) -> int {
    digits_start(s, pos) + run_len(s, digits_start(s, pos), digit_class(s, pos))
}

/// Where the numeric reference whose `#` stands at `pos` ends: after
/// its digits, and after the `;` that follows them if there is one.
pub open spec fn numeric_end(s: Seq<u8>, pos: int) -> int {
    let end = digits_end(s, pos);
    if 0 <= end < s.len() && s[end] == SEMICOLON {
        end + 1
    } else {
        end
    }
}

/// What the numeric reference whose `#` stands at `pos` expands to: with
/// digits, the UTF-8 encoding of the corrected code point; without, the
/// text of the reference itself.
pub open spec fn numeric_expansion(s: Seq<u8>, pos: int) -> Seq<u8> {
    let digits = s.subrange(digits_start(s, pos), digits_end(s, pos));
    if digits.len() == 0 {
        seq![AMPERSAND] + s.subrange(pos, numeric_end(s, pos))
    } else {
        encode_scalar(corrected_code_point(digits_value(digits, radix_of(digit_class(s, pos)))))
    }
}

/// A numeric reference lies inside its input, and holds its `#`.
pub proof fn lemma_numeric_end(s: Seq<u8>, pos: int)
    requires
        0 <= pos < s.len(),
    ensures
        pos < digits_start(s, pos) <= digits_end(s, pos) <= numeric_end(s, pos) <= s.len(),
        forall|i: int|
            digits_start(s, pos) <= i < digits_end(s, pos) ==> digit_class(s, pos).contains(
                #[trigger] s[i],
            ),
{
    lemma_run_len(s, digits_start(s, pos), digit_class(s, pos));
}

/// The bytes of a numeric reference are ASCII, and so is `#` itself.
pub proof fn lemma_numeric_reference_is_ascii(s: Seq<u8>, pos: int)
    requires
        0 <= pos < s.len(),
        s[pos] == NUMBER_SIGN,
    ensures
        is_ascii_bytes(s.subrange(pos, numeric_end(s, pos))),
{
    lemma_numeric_end(s, pos);
}

/// The expansion of a numeric reference is well-formed UTF-8.
pub proof fn lemma_numeric_expansion_valid(s: Seq<u8>, pos: int)
    requires
        0 <= pos < s.len(),
        s[pos] == NUMBER_SIGN,
    ensures
        valid_utf8(numeric_expansion(s, pos)),
{
    lemma_numeric_end(s, pos);
    let digits = s.subrange(digits_start(s, pos), digits_end(s, pos));
    if digits.len() == 0 {
        lemma_numeric_reference_is_ascii(s, pos);
        lemma_ascii_valid(seq![AMPERSAND] + s.subrange(pos, numeric_end(s, pos)));
    } else {
        let number = digits_value(digits, radix_of(digit_class(s, pos)));
        lemma_corrected_code_point_is_scalar(number);
        lemma_encode_scalar_valid(corrected_code_point(number));
    }
}

/// Expands the numeric reference whose `#` stands at `pos`, after an
/// `&`. Returns the expansion and the position after the reference.
pub fn match_numeric_entity(input: &[u8], pos: usize) -> (r: (Vec<u8>, usize))
    requires
        pos < input.len(),
        input[pos as int] == NUMBER_SIGN,
    ensures
        r.0@ == numeric_expansion(input@, pos as int),
        r.1 == numeric_end(input@, pos as int),
        pos < r.1 <= input.len(),
{
    proof {
        lemma_numeric_end(input@, pos as int);
    }
    let mut next: usize = pos + 1;
    let class = if next < input.len() && (input[next] == 'x' as u8 || input[next] == 'X' as u8) {
        next += 1;
        ByteClass::Hexadecimal
    } else {
        ByteClass::Decimal
    };
    let start = next;
    let end = match class {
        ByteClass::Hexadecimal => consume_hexadecimal(input, start),
        _ => consume_decimal(input, start),
    };
    next = end;
    if next < input.len() && input[next] == SEMICOLON {
        next += 1;
    }
    if start < end {
        match parse_digits(input, start, end, class) {
            Some(number) => (correct_numeric_entity(number), next),
            None => (char_to_vecu8(REPLACEMENT_CHAR), next),
        }
    } else {
        let mut best_expansion: Vec<u8> = Vec::with_capacity(next - pos + 1);
        best_expansion.push(AMPERSAND);
        extend_from_range(&mut best_expansion, input, pos, next);
        (best_expansion, next)
    }
}

} // verus!
