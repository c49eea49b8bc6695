//! Byte classes and maximal runs of bytes of one class.

use vstd::prelude::*;

verus! {

pub const AMPERSAND: u8 = '&' as u8;

pub const NUMBER_SIGN: u8 = '#' as u8;

pub const SEMICOLON: u8 = ';' as u8;

pub const EQUALS_SIGN: u8 = '=' as u8;

/// `0-9`.
pub open spec fn is_decimal_digit(b: u8) -> bool {
    '0' as u8 <= b <= '9' as u8
}

/// `0-9`, `a-f`, `A-F`.
pub open spec fn is_hexadecimal_digit(b: u8) -> bool {
    is_decimal_digit(b) || 'a' as u8 <= b <= 'f' as u8 || 'A' as u8 <= b <= 'F' as u8
}

/// `0-9`, `a-z`, `A-Z`.
pub open spec fn is_alphanumeric(b: u8) -> bool {
    is_decimal_digit(b) || 'a' as u8 <= b <= 'z' as u8 || 'A' as u8 <= b <= 'Z' as u8
}

/// The sets of bytes that a run can be made of.
#[derive(Clone, Copy, Debug, PartialEq, Eq, Structural)]
pub enum ByteClass {
    Decimal,
    Hexadecimal,
    Alphanumeric,
}

impl ByteClass {
    /// Whether `b` belongs to the class.
    pub open spec fn contains(self, b: u8) -> bool {
        match self {
            ByteClass::Decimal => is_decimal_digit(b),
            ByteClass::Hexadecimal => is_hexadecimal_digit(b),
            ByteClass::Alphanumeric => is_alphanumeric(b),
        }
    }

    /// Tests whether `b` belongs to the class.
    pub fn accepts(self, b: u8) -> (r: bool)
        ensures
            r == self.contains(b),
    {
        let digit = '0' as u8 <= b && b <= '9' as u8;
        match self {
            ByteClass::Decimal => digit,
            ByteClass::Hexadecimal => digit || ('a' as u8 <= b && b <= 'f' as u8) || ('A' as u8
                <= b && b <= 'F' as u8),
            ByteClass::Alphanumeric => digit || ('a' as u8 <= b && b <= 'z' as u8) || ('A' as u8
                <= b && b <= 'Z' as u8),
        }
    }
}

/// The number of bytes of `class` that stand in `s` from `pos` on, up to the
/// first byte outside the class or the end of `s`.
pub open spec fn run_len(s: Seq<u8>, pos: int, class: ByteClass) -> nat
    decreases s.len() - pos,
{
    if 0 <= pos < s.len() && class.contains(s[pos]) {
        1 + run_len(s, pos + 1, class)
    } else {
        0
    }
}

/// A run stays inside the sequence, holds bytes of its class only, and
/// ends at the end of the sequence or before a byte outside the class.
pub proof fn lemma_run_len(s: Seq<u8>, pos: int, class: ByteClass)
    requires
        0 <= pos <= s.len(),
    ensures
        pos + run_len(s, pos, class) <= s.len(),
        forall|i: int| pos <= i < pos + run_len(s, pos, class) ==> class.contains(#[trigger] s[i]),
        pos + run_len(s, pos, class) < s.len() ==> !class.contains(
            s[pos + run_len(s, pos, class)],
        ),
    decreases s.len() - pos,
{
    if pos < s.len() && class.contains(s[pos]) {
        lemma_run_len(s, pos + 1, class);
    }
}

/// The run of `class` from `pos` ends at `end` if every byte in between is
/// of the class and `end` is the end of `s` or a byte outside the class.
pub proof fn lemma_run_ends_at(s: Seq<u8>, pos: int, end: int, class: ByteClass)
    requires
        0 <= pos <= end <= s.len(),
        forall|i: int| pos <= i < end ==> class.contains(#[trigger] s[i]),
        end < s.len() ==> !class.contains(s[end]),
    ensures
        pos + run_len(s, pos, class) == end,
    decreases end - pos,
{
    if pos < end {
        lemma_run_ends_at(s, pos + 1, end, class);
    }
}

/// Consumes the maximal run of bytes of `class` that starts at `pos`, and
/// returns the position of the first byte after it.
pub fn consume_while(input: &[u8], pos: usize, class: ByteClass) -> (end: usize)
    requires
        pos <= input.len(),
    ensures
        end == pos + run_len(input@, pos as int, class),
        end <= input.len(),
{
    let mut end: usize = pos;
    while end < input.len() && class.accepts(input[end])
        invariant
            pos <= end <= input.len(),
            forall|i: int| pos <= i < end ==> class.contains(#[trigger] input@[i]),
        decreases input.len() - end,
    {
        end += 1;
    }
    proof {
        lemma_run_ends_at(input@, pos as int, end as int, class);
    }
    end
}

/// Consumes the decimal digits that start at `pos`.
pub fn consume_decimal(input: &[u8], pos: usize) -> (end: usize)
    requires
        pos <= input.len(),
    ensures
        end == pos + run_len(input@, pos as int, ByteClass::Decimal),
        end <= input.len(),
{
    consume_while(input, pos, ByteClass::Decimal)
}

/// Consumes the hexadecimal digits that start at `pos`.
pub fn consume_hexadecimal(input: &[u8], pos: usize) -> (end: usize)
    requires
        pos <= input.len(),
    ensures
        end == pos + run_len(input@, pos as int, ByteClass::Hexadecimal),
        end <= input.len(),
{
    consume_while(input, pos, ByteClass::Hexadecimal)
}

/// Consumes the ASCII letters and digits that start at `pos`.
pub fn consume_alphanumeric(input: &[u8], pos: usize) -> (end: usize)
    requires
        pos <= input.len(),
    ensures
        end == pos + run_len(input@, pos as int, ByteClass::Alphanumeric),
        end <= input.len(),
{
    consume_while(input, pos, ByteClass::Alphanumeric)
}

/// Appends the bytes of `input` from `from` up to `to` to `buffer`.
pub fn extend_from_range(buffer: &mut Vec<u8>, input: &[u8], from: usize, to: usize)
    requires
        from <= to <= input.len(),
    ensures
        final(buffer)@ == old(buffer)@ + input@.subrange(from as int, to as int),
{
    let mut i: usize = from;
    while i < to
        invariant
            from <= i <= to <= input.len(),
            buffer@ == old(buffer)@ + input@.subrange(from as int, i as int),
        decreases to - i,
    {
        buffer.push(input[i]);
        assert(input@.subrange(from as int, i + 1) =~= input@.subrange(from as int, i as int).push(
            input@[i as int],
        ));
        assert(buffer@ =~= old(buffer)@ + input@.subrange(from as int, i + 1));
        i += 1;
    }
}

} // verus!
