//! The named character references that start with `W` or `w`.

use crate::entities::{names_in_order, names_start_with};
use crate::search::{entry_name, names_ascend, precedes, precedes_at, Entry};
use vstd::prelude::*;
use vstd::string::{is_ascii, is_ascii_spec_bytes};

verus! {

/// The named character references that start with `&W`, each with its
/// expansion, in the order of byte strings.
pub const ENTITIES_UPPER_W: [Entry; 5] = [
    ("&Wcirc;", "\u{174}"),
    ("&Wedge;", "\u{22c0}"),
    ("&Wfr;", "\u{1d51a}"),
    ("&Wopf;", "\u{1d54e}"),
    ("&Wscr;", "\u{1d4b2}"),
];

/// The named character references that start with `&w`, each with its
/// expansion, in the order of byte strings.
pub const ENTITIES_LOWER_W: [Entry; 11] = [
    ("&wcirc;", "\u{175}"),
    ("&wedbar;", "\u{2a5f}"),
    ("&wedge;", "\u{2227}"),
    ("&wedgeq;", "\u{2259}"),
    ("&weierp;", "\u{2118}"),
    ("&wfr;", "\u{1d534}"),
    ("&wopf;", "\u{1d568}"),
    ("&wp;", "\u{2118}"),
    ("&wr;", "\u{2240}"),
    ("&wreath;", "\u{2240}"),
    ("&wscr;", "\u{1d4cc}"),
];

/// The names of `ENTITIES_UPPER_W` from entry 0 up to entry 5.
proof fn lemma_names_upper_w_from_0()
    ensures
        names_in_order(ENTITIES_UPPER_W@, 'W' as u8, 0, 5),
{
    broadcast use is_ascii_spec_bytes;

    reveal(precedes);
    let table = ENTITIES_UPPER_W@;
    reveal_strlit("&Wcirc;");
    assert(is_ascii("&Wcirc;"));
    reveal_strlit("&Wedge;");
    assert(is_ascii("&Wedge;"));
    reveal_strlit("&Wfr;");
    assert(is_ascii("&Wfr;"));
    reveal_strlit("&Wopf;");
    assert(is_ascii("&Wopf;"));
    reveal_strlit("&Wscr;");
    assert(is_ascii("&Wscr;"));
    assert(precedes_at(entry_name(table[0]), entry_name(table[1]), 2));
    assert(precedes_at(entry_name(table[1]), entry_name(table[2]), 2));
    assert(precedes_at(entry_name(table[2]), entry_name(table[3]), 2));
    assert(precedes_at(entry_name(table[3]), entry_name(table[4]), 2));
}

/// Every name in `ENTITIES_UPPER_W` starts with `&W` and has 3 to 33 bytes, and
/// each name comes before the next in the order of byte strings.
pub proof fn lemma_names_upper_w()
    ensures
        names_start_with(ENTITIES_UPPER_W@, 'W' as u8),
        names_ascend(ENTITIES_UPPER_W@),
{
    lemma_names_upper_w_from_0();
}

/// The names of `ENTITIES_LOWER_W` from entry 0 up to entry 8.
proof fn lemma_names_lower_w_from_0()
    ensures
        names_in_order(ENTITIES_LOWER_W@, 'w' as u8, 0, 8),
{
    broadcast use is_ascii_spec_bytes;

    reveal(precedes);
    let table = ENTITIES_LOWER_W@;
    reveal_strlit("&wcirc;");
    assert(is_ascii("&wcirc;"));
    reveal_strlit("&wedbar;");
    assert(is_ascii("&wedbar;"));
    reveal_strlit("&wedge;");
    assert(is_ascii("&wedge;"));
    reveal_strlit("&wedgeq;");
    assert(is_ascii("&wedgeq;"));
    reveal_strlit("&weierp;");
    assert(is_ascii("&weierp;"));
    reveal_strlit("&wfr;");
    assert(is_ascii("&wfr;"));
    reveal_strlit("&wopf;");
    assert(is_ascii("&wopf;"));
    reveal_strlit("&wp;");
    assert(is_ascii("&wp;"));
    reveal_strlit("&wr;");
    assert(is_ascii("&wr;"));
    assert(precedes_at(entry_name(table[0]), entry_name(table[1]), 2));
    assert(precedes_at(entry_name(table[1]), entry_name(table[2]), 4));
    assert(precedes_at(entry_name(table[2]), entry_name(table[3]), 6));
    assert(precedes_at(entry_name(table[3]), entry_name(table[4]), 3));
    assert(precedes_at(entry_name(table[4]), entry_name(table[5]), 2));
    assert(precedes_at(entry_name(table[5]), entry_name(table[6]), 2));
    assert(precedes_at(entry_name(table[6]), entry_name(table[7]), 2));
    assert(precedes_at(entry_name(table[7]), entry_name(table[8]), 2));
}

/// The names of `ENTITIES_LOWER_W` from entry 8 up to entry 11.
proof fn lemma_names_lower_w_from_8()
    ensures
        names_in_order(ENTITIES_LOWER_W@, 'w' as u8, 8, 11),
{
    broadcast use is_ascii_spec_bytes;

    reveal(precedes);
    let table = ENTITIES_LOWER_W@;
    reveal_strlit("&wr;");
    assert(is_ascii("&wr;"));
    reveal_strlit("&wreath;");
    assert(is_ascii("&wreath;"));
    reveal_strlit("&wscr;");
    assert(is_ascii("&wscr;"));
    assert(precedes_at(entry_name(table[8]), entry_name(table[9]), 3));
    assert(precedes_at(entry_name(table[9]), entry_name(table[10]), 2));
}

/// Every name in `ENTITIES_LOWER_W` starts with `&w` and has 3 to 33 bytes, and
/// each name comes before the next in the order of byte strings.
pub proof fn lemma_names_lower_w()
    ensures
        names_start_with(ENTITIES_LOWER_W@, 'w' as u8),
        names_ascend(ENTITIES_LOWER_W@),
{
    lemma_names_lower_w_from_0();
    lemma_names_lower_w_from_8();
}

} // verus!
