//! The named character references that start with `Q` or `q`.

use crate::entities::{names_in_order, names_start_with};
use crate::search::{entry_name, names_ascend, precedes, precedes_at, Entry};
use vstd::prelude::*;
use vstd::string::{is_ascii, is_ascii_spec_bytes};

verus! {

/// The named character references that start with `&Q`, each with its
/// expansion, in the order of byte strings.
pub const ENTITIES_UPPER_Q: [Entry; 5] = [
    ("&QUOT", "\""),
    ("&QUOT;", "\""),
    ("&Qfr;", "\u{1d514}"),
    ("&Qopf;", "\u{211a}"),
    ("&Qscr;", "\u{1d4ac}"),
];

/// The named character references that start with `&q`, each with its
/// expansion, in the order of byte strings.
pub const ENTITIES_LOWER_Q: [Entry; 11] = [
    ("&qfr;", "\u{1d52e}"),
    ("&qint;", "\u{2a0c}"),
    ("&qopf;", "\u{1d562}"),
    ("&qprime;", "\u{2057}"),
    ("&qscr;", "\u{1d4c6}"),
    ("&quaternions;", "\u{210d}"),
    ("&quatint;", "\u{2a16}"),
    ("&quest;", "?"),
    ("&questeq;", "\u{225f}"),
    ("&quot", "\""),
    ("&quot;", "\""),
];

/// The names of `ENTITIES_UPPER_Q` from entry 0 up to entry 5.
proof fn lemma_names_upper_q_from_0()
    ensures
        names_in_order(ENTITIES_UPPER_Q@, 'Q' as u8, 0, 5),
{
    broadcast use is_ascii_spec_bytes;

    reveal(precedes);
    let table = ENTITIES_UPPER_Q@;
    reveal_strlit("&QUOT");
    assert(is_ascii("&QUOT"));
    reveal_strlit("&QUOT;");
    assert(is_ascii("&QUOT;"));
    reveal_strlit("&Qfr;");
    assert(is_ascii("&Qfr;"));
    reveal_strlit("&Qopf;");
    assert(is_ascii("&Qopf;"));
    reveal_strlit("&Qscr;");
    assert(is_ascii("&Qscr;"));
    assert(precedes_at(entry_name(table[0]), entry_name(table[1]), 5));
    assert(precedes_at(entry_name(table[1]), entry_name(table[2]), 2));
    assert(precedes_at(entry_name(table[2]), entry_name(table[3]), 2));
    assert(precedes_at(entry_name(table[3]), entry_name(table[4]), 2));
}

/// Every name in `ENTITIES_UPPER_Q` starts with `&Q` and has 3 to 33 bytes, and
/// each name comes before the next in the order of byte strings.
pub proof fn lemma_names_upper_q()
    ensures
        names_start_with(ENTITIES_UPPER_Q@, 'Q' as u8),
        names_ascend(ENTITIES_UPPER_Q@),
{
    lemma_names_upper_q_from_0();
}

/// The names of `ENTITIES_LOWER_Q` from entry 0 up to entry 8.
proof fn lemma_names_lower_q_from_0()
    ensures
        names_in_order(ENTITIES_LOWER_Q@, 'q' as u8, 0, 8),
{
    broadcast use is_ascii_spec_bytes;

    reveal(precedes);
    let table = ENTITIES_LOWER_Q@;
    reveal_strlit("&qfr;");
    assert(is_ascii("&qfr;"));
    reveal_strlit("&qint;");
    assert(is_ascii("&qint;"));
    reveal_strlit("&qopf;");
    assert(is_ascii("&qopf;"));
    reveal_strlit("&qprime;");
    assert(is_ascii("&qprime;"));
    reveal_strlit("&qscr;");
    assert(is_ascii("&qscr;"));
    reveal_strlit("&quaternions;");
    assert(is_ascii("&quaternions;"));
    reveal_strlit("&quatint;");
    assert(is_ascii("&quatint;"));
    reveal_strlit("&quest;");
    assert(is_ascii("&quest;"));
    reveal_strlit("&questeq;");
    assert(is_ascii("&questeq;"));
    assert(precedes_at(entry_name(table[0]), entry_name(table[1]), 2));
    assert(precedes_at(entry_name(table[1]), entry_name(table[2]), 2));
    assert(precedes_at(entry_name(table[2]), entry_name(table[3]), 2));
    assert(precedes_at(entry_name(table[3]), entry_name(table[4]), 2));
    assert(precedes_at(entry_name(table[4]), entry_name(table[5]), 2));
    assert(precedes_at(entry_name(table[5]), entry_name(table[6]), 5));
    assert(precedes_at(entry_name(table[6]), entry_name(table[7]), 3));
    assert(precedes_at(entry_name(table[7]), entry_name(table[8]), 6));
}

/// The names of `ENTITIES_LOWER_Q` from entry 8 up to entry 11.
proof fn lemma_names_lower_q_from_8()
    ensures
        names_in_order(ENTITIES_LOWER_Q@, 'q' as u8, 8, 11),
{
    broadcast use is_ascii_spec_bytes;

    reveal(precedes);
    let table = ENTITIES_LOWER_Q@;
    reveal_strlit("&questeq;");
    assert(is_ascii("&questeq;"));
    reveal_strlit("&quot");
    assert(is_ascii("&quot"));
    reveal_strlit("&quot;");
    assert(is_ascii("&quot;"));
    assert(precedes_at(entry_name(table[8]), entry_name(table[9]), 3));
    assert(precedes_at(entry_name(table[9]), entry_name(table[10]), 5));
}

/// Every name in `ENTITIES_LOWER_Q` starts with `&q` and has 3 to 33 bytes, and
/// each name comes before the next in the order of byte strings.
pub proof fn lemma_names_lower_q()
    ensures
        names_start_with(ENTITIES_LOWER_Q@, 'q' as u8),
        names_ascend(ENTITIES_LOWER_Q@),
{
    lemma_names_lower_q_from_0();
    lemma_names_lower_q_from_8();
}

} // verus!
