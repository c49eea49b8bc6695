//! The named character references that start with `Z` or `z`.

use crate::entities::{names_in_order, names_start_with};
use crate::search::{entry_name, names_ascend, precedes, precedes_at, Entry};
use vstd::prelude::*;
use vstd::string::{is_ascii, is_ascii_spec_bytes};

verus! {

/// The named character references that start with `&Z`, each with its
/// expansion, in the order of byte strings.
pub const ENTITIES_UPPER_Z: [Entry; 10] = [
    ("&ZHcy;", "\u{416}"),
    ("&Zacute;", "\u{179}"),
    ("&Zcaron;", "\u{17d}"),
    ("&Zcy;", "\u{417}"),
    ("&Zdot;", "\u{17b}"),
    ("&ZeroWidthSpace;", "\u{200b}"),
    ("&Zeta;", "\u{396}"),
    ("&Zfr;", "\u{2128}"),
    ("&Zopf;", "\u{2124}"),
    ("&Zscr;", "\u{1d4b5}"),
];

/// The named character references that start with `&z`, each with its
/// expansion, in the order of byte strings.
pub const ENTITIES_LOWER_Z: [Entry; 13] = [
    ("&zacute;", "\u{17a}"),
    ("&zcaron;", "\u{17e}"),
    ("&zcy;", "\u{437}"),
    ("&zdot;", "\u{17c}"),
    ("&zeetrf;", "\u{2128}"),
    ("&zeta;", "\u{3b6}"),
    ("&zfr;", "\u{1d537}"),
    ("&zhcy;", "\u{436}"),
    ("&zigrarr;", "\u{21dd}"),
    ("&zopf;", "\u{1d56b}"),
    ("&zscr;", "\u{1d4cf}"),
    ("&zwj;", "\u{200d}"),
    ("&zwnj;", "\u{200c}"),
];

/// The names of `ENTITIES_UPPER_Z` from entry 0 up to entry 8.
proof fn lemma_names_upper_z_from_0()
    ensures
        names_in_order(ENTITIES_UPPER_Z@, 'Z' as u8, 0, 8),
{
    broadcast use is_ascii_spec_bytes;

    reveal(precedes);
    let table = ENTITIES_UPPER_Z@;
    reveal_strlit("&ZHcy;");
    assert(is_ascii("&ZHcy;"));
    reveal_strlit("&Zacute;");
    assert(is_ascii("&Zacute;"));
    reveal_strlit("&Zcaron;");
    assert(is_ascii("&Zcaron;"));
    reveal_strlit("&Zcy;");
    assert(is_ascii("&Zcy;"));
    reveal_strlit("&Zdot;");
    assert(is_ascii("&Zdot;"));
    reveal_strlit("&ZeroWidthSpace;");
    assert(is_ascii("&ZeroWidthSpace;"));
    reveal_strlit("&Zeta;");
    assert(is_ascii("&Zeta;"));
    reveal_strlit("&Zfr;");
    assert(is_ascii("&Zfr;"));
    reveal_strlit("&Zopf;");
    assert(is_ascii("&Zopf;"));
    assert(precedes_at(entry_name(table[0]), entry_name(table[1]), 2));
    assert(precedes_at(entry_name(table[1]), entry_name(table[2]), 2));
    assert(precedes_at(entry_name(table[2]), entry_name(table[3]), 3));
    assert(precedes_at(entry_name(table[3]), entry_name(table[4]), 2));
    assert(precedes_at(entry_name(table[4]), entry_name(table[5]), 2));
    assert(precedes_at(entry_name(table[5]), entry_name(table[6]), 3));
    assert(precedes_at(entry_name(table[6]), entry_name(table[7]), 2));
    assert(precedes_at(entry_name(table[7]), entry_name(table[8]), 2));
}

/// The names of `ENTITIES_UPPER_Z` from entry 8 up to entry 10.
proof fn lemma_names_upper_z_from_8()
    ensures
        names_in_order(ENTITIES_UPPER_Z@, 'Z' as u8, 8, 10),
{
    broadcast use is_ascii_spec_bytes;

    reveal(precedes);
    let table = ENTITIES_UPPER_Z@;
    reveal_strlit("&Zopf;");
    assert(is_ascii("&Zopf;"));
    reveal_strlit("&Zscr;");
    assert(is_ascii("&Zscr;"));
    assert(precedes_at(entry_name(table[8]), entry_name(table[9]), 2));
}

/// Every name in `ENTITIES_UPPER_Z` starts with `&Z` and has 3 to 33 bytes, and
/// each name comes before the next in the order of byte strings.
pub proof fn lemma_names_upper_z()
    ensures
        names_start_with(ENTITIES_UPPER_Z@, 'Z' as u8),
        names_ascend(ENTITIES_UPPER_Z@),
{
    lemma_names_upper_z_from_0();
    lemma_names_upper_z_from_8();
}

/// The names of `ENTITIES_LOWER_Z` from entry 0 up to entry 8.
proof fn lemma_names_lower_z_from_0()
    ensures
        names_in_order(ENTITIES_LOWER_Z@, 'z' as u8, 0, 8),
{
    broadcast use is_ascii_spec_bytes;

    reveal(precedes);
    let table = ENTITIES_LOWER_Z@;
    reveal_strlit("&zacute;");
    assert(is_ascii("&zacute;"));
    reveal_strlit("&zcaron;");
    assert(is_ascii("&zcaron;"));
    reveal_strlit("&zcy;");
    assert(is_ascii("&zcy;"));
    reveal_strlit("&zdot;");
    assert(is_ascii("&zdot;"));
    reveal_strlit("&zeetrf;");
    assert(is_ascii("&zeetrf;"));
    reveal_strlit("&zeta;");
    assert(is_ascii("&zeta;"));
    reveal_strlit("&zfr;");
    assert(is_ascii("&zfr;"));
    reveal_strlit("&zhcy;");
    assert(is_ascii("&zhcy;"));
    reveal_strlit("&zigrarr;");
    assert(is_ascii("&zigrarr;"));
    assert(precedes_at(entry_name(table[0]), entry_name(table[1]), 2));
    assert(precedes_at(entry_name(table[1]), entry_name(table[2]), 3));
    assert(precedes_at(entry_name(table[2]), entry_name(table[3]), 2));
    assert(precedes_at(entry_name(table[3]), entry_name(table[4]), 2));
    assert(precedes_at(entry_name(table[4]), entry_name(table[5]), 3));
    assert(precedes_at(entry_name(table[5]), entry_name(table[6]), 2));
    assert(precedes_at(entry_name(table[6]), entry_name(table[7]), 2));
    assert(precedes_at(entry_name(table[7]), entry_name(table[8]), 2));
}

/// The names of `ENTITIES_LOWER_Z` from entry 8 up to entry 13.
proof fn lemma_names_lower_z_from_8()
    ensures
        names_in_order(ENTITIES_LOWER_Z@, 'z' as u8, 8, 13),
{
    broadcast use is_ascii_spec_bytes;

    reveal(precedes);
    let table = ENTITIES_LOWER_Z@;
    reveal_strlit("&zigrarr;");
    assert(is_ascii("&zigrarr;"));
    reveal_strlit("&zopf;");
    assert(is_ascii("&zopf;"));
    reveal_strlit("&zscr;");
    assert(is_ascii("&zscr;"));
    reveal_strlit("&zwj;");
    assert(is_ascii("&zwj;"));
    reveal_strlit("&zwnj;");
    assert(is_ascii("&zwnj;"));
    assert(precedes_at(entry_name(table[8]), entry_name(table[9]), 2));
    assert(precedes_at(entry_name(table[9]), entry_name(table[10]), 2));
    assert(precedes_at(entry_name(table[10]), entry_name(table[11]), 2));
    assert(precedes_at(entry_name(table[11]), entry_name(table[12]), 3));
}

/// Every name in `ENTITIES_LOWER_Z` starts with `&z` and has 3 to 33 bytes, and
/// each name comes before the next in the order of byte strings.
pub proof fn lemma_names_lower_z()
    ensures
        names_start_with(ENTITIES_LOWER_Z@, 'z' as u8),
        names_ascend(ENTITIES_LOWER_Z@),
{
    lemma_names_lower_z_from_0();
    lemma_names_lower_z_from_8();
}

} // verus!
