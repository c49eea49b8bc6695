//! The named character references that start with `Y` or `y`.

use crate::entities::{names_in_order, names_start_with};
use crate::search::{entry_name, names_ascend, precedes, precedes_at, Entry};
use vstd::prelude::*;
use vstd::string::{is_ascii, is_ascii_spec_bytes};

verus! {

/// The named character references that start with `&Y`, each with its
/// expansion, in the order of byte strings.
pub const ENTITIES_UPPER_Y: [Entry; 11] = [
    ("&YAcy;", "\u{42f}"),
    ("&YIcy;", "\u{407}"),
    ("&YUcy;", "\u{42e}"),
    ("&Yacute", "\u{dd}"),
    ("&Yacute;", "\u{dd}"),
    ("&Ycirc;", "\u{176}"),
    ("&Ycy;", "\u{42b}"),
    ("&Yfr;", "\u{1d51c}"),
    ("&Yopf;", "\u{1d550}"),
    ("&Yscr;", "\u{1d4b4}"),
    ("&Yuml;", "\u{178}"),
];

/// The named character references that start with `&y`, each with its
/// expansion, in the order of byte strings.
pub const ENTITIES_LOWER_Y: [Entry; 14] = [
    ("&yacute", "\u{fd}"),
    ("&yacute;", "\u{fd}"),
    ("&yacy;", "\u{44f}"),
    ("&ycirc;", "\u{177}"),
    ("&ycy;", "\u{44b}"),
    ("&yen", "\u{a5}"),
    ("&yen;", "\u{a5}"),
    ("&yfr;", "\u{1d536}"),
    ("&yicy;", "\u{457}"),
    ("&yopf;", "\u{1d56a}"),
    ("&yscr;", "\u{1d4ce}"),
    ("&yucy;", "\u{44e}"),
    ("&yuml", "\u{ff}"),
    ("&yuml;", "\u{ff}"),
];

/// The names of `ENTITIES_UPPER_Y` from entry 0 up to entry 8.
proof fn lemma_names_upper_y_from_0()
    ensures
        names_in_order(ENTITIES_UPPER_Y@, 'Y' as u8, 0, 8),
{
    broadcast use is_ascii_spec_bytes;

    reveal(precedes);
    let table = ENTITIES_UPPER_Y@;
    reveal_strlit("&YAcy;");
    assert(is_ascii("&YAcy;"));
    reveal_strlit("&YIcy;");
    assert(is_ascii("&YIcy;"));
    reveal_strlit("&YUcy;");
    assert(is_ascii("&YUcy;"));
    reveal_strlit("&Yacute");
    assert(is_ascii("&Yacute"));
    reveal_strlit("&Yacute;");
    assert(is_ascii("&Yacute;"));
    reveal_strlit("&Ycirc;");
    assert(is_ascii("&Ycirc;"));
    reveal_strlit("&Ycy;");
    assert(is_ascii("&Ycy;"));
    reveal_strlit("&Yfr;");
    assert(is_ascii("&Yfr;"));
    reveal_strlit("&Yopf;");
    assert(is_ascii("&Yopf;"));
    assert(precedes_at(entry_name(table[0]), entry_name(table[1]), 2));
    assert(precedes_at(entry_name(table[1]), entry_name(table[2]), 2));
    assert(precedes_at(entry_name(table[2]), entry_name(table[3]), 2));
    assert(precedes_at(entry_name(table[3]), entry_name(table[4]), 7));
    assert(precedes_at(entry_name(table[4]), entry_name(table[5]), 2));
    assert(precedes_at(entry_name(table[5]), entry_name(table[6]), 3));
    assert(precedes_at(entry_name(table[6]), entry_name(table[7]), 2));
    assert(precedes_at(entry_name(table[7]), entry_name(table[8]), 2));
}

/// The names of `ENTITIES_UPPER_Y` from entry 8 up to entry 11.
proof fn lemma_names_upper_y_from_8()
    ensures
        names_in_order(ENTITIES_UPPER_Y@, 'Y' as u8, 8, 11),
{
    broadcast use is_ascii_spec_bytes;

    reveal(precedes);
    let table = ENTITIES_UPPER_Y@;
    reveal_strlit("&Yopf;");
    assert(is_ascii("&Yopf;"));
    reveal_strlit("&Yscr;");
    assert(is_ascii("&Yscr;"));
    reveal_strlit("&Yuml;");
    assert(is_ascii("&Yuml;"));
    assert(precedes_at(entry_name(table[8]), entry_name(table[9]), 2));
    assert(precedes_at(entry_name(table[9]), entry_name(table[10]), 2));
}

/// Every name in `ENTITIES_UPPER_Y` starts with `&Y` and has 3 to 33 bytes, and
/// each name comes before the next in the order of byte strings.
pub proof fn lemma_names_upper_y()
    ensures
        names_start_with(ENTITIES_UPPER_Y@, 'Y' as u8),
        names_ascend(ENTITIES_UPPER_Y@),
{
    lemma_names_upper_y_from_0();
    lemma_names_upper_y_from_8();
}

/// The names of `ENTITIES_LOWER_Y` from entry 0 up to entry 8.
proof fn lemma_names_lower_y_from_0()
    ensures
        names_in_order(ENTITIES_LOWER_Y@, 'y' as u8, 0, 8),
{
    broadcast use is_ascii_spec_bytes;

    reveal(precedes);
    let table = ENTITIES_LOWER_Y@;
    reveal_strlit("&yacute");
    assert(is_ascii("&yacute"));
    reveal_strlit("&yacute;");
    assert(is_ascii("&yacute;"));
    reveal_strlit("&yacy;");
    assert(is_ascii("&yacy;"));
    reveal_strlit("&ycirc;");
    assert(is_ascii("&ycirc;"));
    reveal_strlit("&ycy;");
    assert(is_ascii("&ycy;"));
    reveal_strlit("&yen");
    assert(is_ascii("&yen"));
    reveal_strlit("&yen;");
    assert(is_ascii("&yen;"));
    reveal_strlit("&yfr;");
    assert(is_ascii("&yfr;"));
    reveal_strlit("&yicy;");
    assert(is_ascii("&yicy;"));
    assert(precedes_at(entry_name(table[0]), entry_name(table[1]), 7));
    assert(precedes_at(entry_name(table[1]), entry_name(table[2]), 4));
    assert(precedes_at(entry_name(table[2]), entry_name(table[3]), 2));
    assert(precedes_at(entry_name(table[3]), entry_name(table[4]), 3));
    assert(precedes_at(entry_name(table[4]), entry_name(table[5]), 2));
    assert(precedes_at(entry_name(table[5]), entry_name(table[6]), 4));
    assert(precedes_at(entry_name(table[6]), entry_name(table[7]), 2));
    assert(precedes_at(entry_name(table[7]), entry_name(table[8]), 2));
}

/// The names of `ENTITIES_LOWER_Y` from entry 8 up to entry 14.
proof fn lemma_names_lower_y_from_8()
    ensures
        names_in_order(ENTITIES_LOWER_Y@, 'y' as u8, 8, 14),
{
    broadcast use is_ascii_spec_bytes;

    reveal(precedes);
    let table = ENTITIES_LOWER_Y@;
    reveal_strlit("&yicy;");
    assert(is_ascii("&yicy;"));
    reveal_strlit("&yopf;");
    assert(is_ascii("&yopf;"));
    reveal_strlit("&yscr;");
    assert(is_ascii("&yscr;"));
    reveal_strlit("&yucy;");
    assert(is_ascii("&yucy;"));
    reveal_strlit("&yuml");
    assert(is_ascii("&yuml"));
    reveal_strlit("&yuml;");
    assert(is_ascii("&yuml;"));
    assert(precedes_at(entry_name(table[8]), entry_name(table[9]), 2));
    assert(precedes_at(entry_name(table[9]), entry_name(table[10]), 2));
    assert(precedes_at(entry_name(table[10]), entry_name(table[11]), 2));
    assert(precedes_at(entry_name(table[11]), entry_name(table[12]), 3));
    assert(precedes_at(entry_name(table[12]), entry_name(table[13]), 5));
}

/// Every name in `ENTITIES_LOWER_Y` starts with `&y` and has 3 to 33 bytes, and
/// each name comes before the next in the order of byte strings.
pub proof fn lemma_names_lower_y()
    ensures
        names_start_with(ENTITIES_LOWER_Y@, 'y' as u8),
        names_ascend(ENTITIES_LOWER_Y@),
{
    lemma_names_lower_y_from_0();
    lemma_names_lower_y_from_8();
}

} // verus!
