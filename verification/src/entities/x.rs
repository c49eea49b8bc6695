//! The named character references that start with `X` or `x`.

use crate::entities::{names_in_order, names_start_with};
use crate::search::{entry_name, names_ascend, precedes, precedes_at, Entry};
use vstd::prelude::*;
use vstd::string::{is_ascii, is_ascii_spec_bytes};

verus! {

/// The named character references that start with `&X`, each with its
/// expansion, in the order of byte strings.
pub const ENTITIES_UPPER_X: [Entry; 4] = [
    ("&Xfr;", "\u{1d51b}"),
    ("&Xi;", "\u{39e}"),
    ("&Xopf;", "\u{1d54f}"),
    ("&Xscr;", "\u{1d4b3}"),
];

/// The named character references that start with `&x`, each with its
/// expansion, in the order of byte strings.
pub const ENTITIES_LOWER_X: [Entry; 24] = [
    ("&xcap;", "\u{22c2}"),
    ("&xcirc;", "\u{25ef}"),
    ("&xcup;", "\u{22c3}"),
    ("&xdtri;", "\u{25bd}"),
    ("&xfr;", "\u{1d535}"),
    ("&xhArr;", "\u{27fa}"),
    ("&xharr;", "\u{27f7}"),
    ("&xi;", "\u{3be}"),
    ("&xlArr;", "\u{27f8}"),
    ("&xlarr;", "\u{27f5}"),
    ("&xmap;", "\u{27fc}"),
    ("&xnis;", "\u{22fb}"),
    ("&xodot;", "\u{2a00}"),
    ("&xopf;", "\u{1d569}"),
    ("&xoplus;", "\u{2a01}"),
    ("&xotime;", "\u{2a02}"),
    ("&xrArr;", "\u{27f9}"),
    ("&xrarr;", "\u{27f6}"),
    ("&xscr;", "\u{1d4cd}"),
    ("&xsqcup;", "\u{2a06}"),
    ("&xuplus;", "\u{2a04}"),
    ("&xutri;", "\u{25b3}"),
    ("&xvee;", "\u{22c1}"),
    ("&xwedge;", "\u{22c0}"),
];

/// The names of `ENTITIES_UPPER_X` from entry 0 up to entry 4.
proof fn lemma_names_upper_x_from_0()
    ensures
        names_in_order(ENTITIES_UPPER_X@, 'X' as u8, 0, 4),
{
    broadcast use is_ascii_spec_bytes;

    reveal(precedes);
    let table = ENTITIES_UPPER_X@;
    reveal_strlit("&Xfr;");
    assert(is_ascii("&Xfr;"));
    reveal_strlit("&Xi;");
    assert(is_ascii("&Xi;"));
    reveal_strlit("&Xopf;");
    assert(is_ascii("&Xopf;"));
    reveal_strlit("&Xscr;");
    assert(is_ascii("&Xscr;"));
    assert(precedes_at(entry_name(table[0]), entry_name(table[1]), 2));
    assert(precedes_at(entry_name(table[1]), entry_name(table[2]), 2));
    assert(precedes_at(entry_name(table[2]), entry_name(table[3]), 2));
}

/// Every name in `ENTITIES_UPPER_X` starts with `&X` and has 3 to 33 bytes, and
/// each name comes before the next in the order of byte strings.
pub proof fn lemma_names_upper_x()
    ensures
        names_start_with(ENTITIES_UPPER_X@, 'X' as u8),
        names_ascend(ENTITIES_UPPER_X@),
{
    lemma_names_upper_x_from_0();
}

/// The names of `ENTITIES_LOWER_X` from entry 0 up to entry 8.
proof fn lemma_names_lower_x_from_0()
    ensures
        names_in_order(ENTITIES_LOWER_X@, 'x' as u8, 0, 8),
{
    broadcast use is_ascii_spec_bytes;

    reveal(precedes);
    let table = ENTITIES_LOWER_X@;
    reveal_strlit("&xcap;");
    assert(is_ascii("&xcap;"));
    reveal_strlit("&xcirc;");
    assert(is_ascii("&xcirc;"));
    reveal_strlit("&xcup;");
    assert(is_ascii("&xcup;"));
    reveal_strlit("&xdtri;");
    assert(is_ascii("&xdtri;"));
    reveal_strlit("&xfr;");
    assert(is_ascii("&xfr;"));
    reveal_strlit("&xhArr;");
    assert(is_ascii("&xhArr;"));
    reveal_strlit("&xharr;");
    assert(is_ascii("&xharr;"));
    reveal_strlit("&xi;");
    assert(is_ascii("&xi;"));
    reveal_strlit("&xlArr;");
    assert(is_ascii("&xlArr;"));
    assert(precedes_at(entry_name(table[0]), entry_name(table[1]), 3));
    assert(precedes_at(entry_name(table[1]), entry_name(table[2]), 3));
    assert(precedes_at(entry_name(table[2]), entry_name(table[3]), 2));
    assert(precedes_at(entry_name(table[3]), entry_name(table[4]), 2));
    assert(precedes_at(entry_name(table[4]), entry_name(table[5]), 2));
    assert(precedes_at(entry_name(table[5]), entry_name(table[6]), 3));
    assert(precedes_at(entry_name(table[6]), entry_name(table[7]), 2));
    assert(precedes_at(entry_name(table[7]), entry_name(table[8]), 2));
}

/// The names of `ENTITIES_LOWER_X` from entry 8 up to entry 16.
proof fn lemma_names_lower_x_from_8()
    ensures
        names_in_order(ENTITIES_LOWER_X@, 'x' as u8, 8, 16),
{
    broadcast use is_ascii_spec_bytes;

    reveal(precedes);
    let table = ENTITIES_LOWER_X@;
    reveal_strlit("&xlArr;");
    assert(is_ascii("&xlArr;"));
    reveal_strlit("&xlarr;");
    assert(is_ascii("&xlarr;"));
    reveal_strlit("&xmap;");
    assert(is_ascii("&xmap;"));
    reveal_strlit("&xnis;");
    assert(is_ascii("&xnis;"));
    reveal_strlit("&xodot;");
    assert(is_ascii("&xodot;"));
    reveal_strlit("&xopf;");
    assert(is_ascii("&xopf;"));
    reveal_strlit("&xoplus;");
    assert(is_ascii("&xoplus;"));
    reveal_strlit("&xotime;");
    assert(is_ascii("&xotime;"));
    reveal_strlit("&xrArr;");
    assert(is_ascii("&xrArr;"));
    assert(precedes_at(entry_name(table[8]), entry_name(table[9]), 3));
    assert(precedes_at(entry_name(table[9]), entry_name(table[10]), 2));
    assert(precedes_at(entry_name(table[10]), entry_name(table[11]), 2));
    assert(precedes_at(entry_name(table[11]), entry_name(table[12]), 2));
    assert(precedes_at(entry_name(table[12]), entry_name(table[13]), 3));
    assert(precedes_at(entry_name(table[13]), entry_name(table[14]), 4));
    assert(precedes_at(entry_name(table[14]), entry_name(table[15]), 3));
    assert(precedes_at(entry_name(table[15]), entry_name(table[16]), 2));
}

/// The names of `ENTITIES_LOWER_X` from entry 16 up to entry 24.
proof fn lemma_names_lower_x_from_16()
    ensures
        names_in_order(ENTITIES_LOWER_X@, 'x' as u8, 16, 24),
{
    broadcast use is_ascii_spec_bytes;

    reveal(precedes);
    let table = ENTITIES_LOWER_X@;
    reveal_strlit("&xrArr;");
    assert(is_ascii("&xrArr;"));
    reveal_strlit("&xrarr;");
    assert(is_ascii("&xrarr;"));
    reveal_strlit("&xscr;");
    assert(is_ascii("&xscr;"));
    reveal_strlit("&xsqcup;");
    assert(is_ascii("&xsqcup;"));
    reveal_strlit("&xuplus;");
    assert(is_ascii("&xuplus;"));
    reveal_strlit("&xutri;");
    assert(is_ascii("&xutri;"));
    reveal_strlit("&xvee;");
    assert(is_ascii("&xvee;"));
    reveal_strlit("&xwedge;");
    assert(is_ascii("&xwedge;"));
    assert(precedes_at(entry_name(table[16]), entry_name(table[17]), 3));
    assert(precedes_at(entry_name(table[17]), entry_name(table[18]), 2));
    assert(precedes_at(entry_name(table[18]), entry_name(table[19]), 3));
    assert(precedes_at(entry_name(table[19]), entry_name(table[20]), 2));
    assert(precedes_at(entry_name(table[20]), entry_name(table[21]), 3));
    assert(precedes_at(entry_name(table[21]), entry_name(table[22]), 2));
    assert(precedes_at(entry_name(table[22]), entry_name(table[23]), 2));
}

/// Every name in `ENTITIES_LOWER_X` starts with `&x` and has 3 to 33 bytes, and
/// each name comes before the next in the order of byte strings.
pub proof fn lemma_names_lower_x()
    ensures
        names_start_with(ENTITIES_LOWER_X@, 'x' as u8),
        names_ascend(ENTITIES_LOWER_X@),
{
    lemma_names_lower_x_from_0();
    lemma_names_lower_x_from_8();
    lemma_names_lower_x_from_16();
}

} // verus!
