//! The named character references that start with `H` or `h`.

use crate::entities::{names_in_order, names_start_with};
use crate::search::{entry_name, names_ascend, precedes, precedes_at, Entry};
use vstd::prelude::*;
use vstd::string::{is_ascii, is_ascii_spec_bytes};

verus! {

/// The named character references that start with `&H`, each with its
/// expansion, in the order of byte strings.
pub const ENTITIES_UPPER_H: [Entry; 12] = [
    ("&HARDcy;", "\u{42a}"),
    ("&Hacek;", "\u{2c7}"),
    ("&Hat;", "^"),
    ("&Hcirc;", "\u{124}"),
    ("&Hfr;", "\u{210c}"),
    ("&HilbertSpace;", "\u{210b}"),
    ("&Hopf;", "\u{210d}"),
    ("&HorizontalLine;", "\u{2500}"),
    ("&Hscr;", "\u{210b}"),
    ("&Hstrok;", "\u{126}"),
    ("&HumpDownHump;", "\u{224e}"),
    ("&HumpEqual;", "\u{224f}"),
];

/// The named character references that start with `&h`, each with its
/// expansion, in the order of byte strings.
pub const ENTITIES_LOWER_H: [Entry; 28] = [
    ("&hArr;", "\u{21d4}"),
    ("&hairsp;", "\u{200a}"),
    ("&half;", "\u{bd}"),
    ("&hamilt;", "\u{210b}"),
    ("&hardcy;", "\u{44a}"),
    ("&harr;", "\u{2194}"),
    ("&harrcir;", "\u{2948}"),
    ("&harrw;", "\u{21ad}"),
    ("&hbar;", "\u{210f}"),
    ("&hcirc;", "\u{125}"),
    ("&hearts;", "\u{2665}"),
    ("&heartsuit;", "\u{2665}"),
    ("&hellip;", "\u{2026}"),
    ("&hercon;", "\u{22b9}"),
    ("&hfr;", "\u{1d525}"),
    ("&hksearow;", "\u{2925}"),
    ("&hkswarow;", "\u{2926}"),
    ("&hoarr;", "\u{21ff}"),
    ("&homtht;", "\u{223b}"),
    ("&hookleftarrow;", "\u{21a9}"),
    ("&hookrightarrow;", "\u{21aa}"),
    ("&hopf;", "\u{1d559}"),
    ("&horbar;", "\u{2015}"),
    ("&hscr;", "\u{1d4bd}"),
    ("&hslash;", "\u{210f}"),
    ("&hstrok;", "\u{127}"),
    ("&hybull;", "\u{2043}"),
    ("&hyphen;", "\u{2010}"),
];

/// The names of `ENTITIES_UPPER_H` from entry 0 up to entry 8.
proof fn lemma_names_upper_h_from_0()
    ensures
        names_in_order(ENTITIES_UPPER_H@, 'H' as u8, 0, 8),
{
    broadcast use is_ascii_spec_bytes;

    reveal(precedes);
    let table = ENTITIES_UPPER_H@;
    reveal_strlit("&HARDcy;");
    assert(is_ascii("&HARDcy;"));
    reveal_strlit("&Hacek;");
    assert(is_ascii("&Hacek;"));
    reveal_strlit("&Hat;");
    assert(is_ascii("&Hat;"));
    reveal_strlit("&Hcirc;");
    assert(is_ascii("&Hcirc;"));
    reveal_strlit("&Hfr;");
    assert(is_ascii("&Hfr;"));
    reveal_strlit("&HilbertSpace;");
    assert(is_ascii("&HilbertSpace;"));
    reveal_strlit("&Hopf;");
    assert(is_ascii("&Hopf;"));
    reveal_strlit("&HorizontalLine;");
    assert(is_ascii("&HorizontalLine;"));
    reveal_strlit("&Hscr;");
    assert(is_ascii("&Hscr;"));
    assert(precedes_at(entry_name(table[0]), entry_name(table[1]), 2));
    assert(precedes_at(entry_name(table[1]), entry_name(table[2]), 3));
    assert(precedes_at(entry_name(table[2]), entry_name(table[3]), 2));
    assert(precedes_at(entry_name(table[3]), entry_name(table[4]), 2));
    assert(precedes_at(entry_name(table[4]), entry_name(table[5]), 2));
    assert(precedes_at(entry_name(table[5]), entry_name(table[6]), 2));
    assert(precedes_at(entry_name(table[6]), entry_name(table[7]), 3));
    assert(precedes_at(entry_name(table[7]), entry_name(table[8]), 2));
}

/// The names of `ENTITIES_UPPER_H` from entry 8 up to entry 12.
proof fn lemma_names_upper_h_from_8()
    ensures
        names_in_order(ENTITIES_UPPER_H@, 'H' as u8, 8, 12),
{
    broadcast use is_ascii_spec_bytes;

    reveal(precedes);
    let table = ENTITIES_UPPER_H@;
    reveal_strlit("&Hscr;");
    assert(is_ascii("&Hscr;"));
    reveal_strlit("&Hstrok;");
    assert(is_ascii("&Hstrok;"));
    reveal_strlit("&HumpDownHump;");
    assert(is_ascii("&HumpDownHump;"));
    reveal_strlit("&HumpEqual;");
    assert(is_ascii("&HumpEqual;"));
    assert(precedes_at(entry_name(table[8]), entry_name(table[9]), 3));
    assert(precedes_at(entry_name(table[9]), entry_name(table[10]), 2));
    assert(precedes_at(entry_name(table[10]), entry_name(table[11]), 5));
}

/// Every name in `ENTITIES_UPPER_H` starts with `&H` and has 3 to 33 bytes, and
/// each name comes before the next in the order of byte strings.
pub proof fn lemma_names_upper_h()
    ensures
        names_start_with(ENTITIES_UPPER_H@, 'H' as u8),
        names_ascend(ENTITIES_UPPER_H@),
{
    lemma_names_upper_h_from_0();
    lemma_names_upper_h_from_8();
}

/// The names of `ENTITIES_LOWER_H` from entry 0 up to entry 8.
proof fn lemma_names_lower_h_from_0()
    ensures
        names_in_order(ENTITIES_LOWER_H@, 'h' as u8, 0, 8),
{
    broadcast use is_ascii_spec_bytes;

    reveal(precedes);
    let table = ENTITIES_LOWER_H@;
    reveal_strlit("&hArr;");
    assert(is_ascii("&hArr;"));
    reveal_strlit("&hairsp;");
    assert(is_ascii("&hairsp;"));
    reveal_strlit("&half;");
    assert(is_ascii("&half;"));
    reveal_strlit("&hamilt;");
    assert(is_ascii("&hamilt;"));
    reveal_strlit("&hardcy;");
    assert(is_ascii("&hardcy;"));
    reveal_strlit("&harr;");
    assert(is_ascii("&harr;"));
    reveal_strlit("&harrcir;");
    assert(is_ascii("&harrcir;"));
    reveal_strlit("&harrw;");
    assert(is_ascii("&harrw;"));
    reveal_strlit("&hbar;");
    assert(is_ascii("&hbar;"));
    assert(precedes_at(entry_name(table[0]), entry_name(table[1]), 2));
    assert(precedes_at(entry_name(table[1]), entry_name(table[2]), 3));
    assert(precedes_at(entry_name(table[2]), entry_name(table[3]), 3));
    assert(precedes_at(entry_name(table[3]), entry_name(table[4]), 3));
    assert(precedes_at(entry_name(table[4]), entry_name(table[5]), 4));
    assert(precedes_at(entry_name(table[5]), entry_name(table[6]), 5));
    assert(precedes_at(entry_name(table[6]), entry_name(table[7]), 5));
    assert(precedes_at(entry_name(table[7]), entry_name(table[8]), 2));
}

/// The names of `ENTITIES_LOWER_H` from entry 8 up to entry 16.
proof fn lemma_names_lower_h_from_8()
    ensures
        names_in_order(ENTITIES_LOWER_H@, 'h' as u8, 8, 16),
{
    broadcast use is_ascii_spec_bytes;

    reveal(precedes);
    let table = ENTITIES_LOWER_H@;
    reveal_strlit("&hbar;");
    assert(is_ascii("&hbar;"));
    reveal_strlit("&hcirc;");
    assert(is_ascii("&hcirc;"));
    reveal_strlit("&hearts;");
    assert(is_ascii("&hearts;"));
    reveal_strlit("&heartsuit;");
    assert(is_ascii("&heartsuit;"));
    reveal_strlit("&hellip;");
    assert(is_ascii("&hellip;"));
    reveal_strlit("&hercon;");
    assert(is_ascii("&hercon;"));
    reveal_strlit("&hfr;");
    assert(is_ascii("&hfr;"));
    reveal_strlit("&hksearow;");
    assert(is_ascii("&hksearow;"));
    reveal_strlit("&hkswarow;");
    assert(is_ascii("&hkswarow;"));
    assert(precedes_at(entry_name(table[8]), entry_name(table[9]), 2));
    assert(precedes_at(entry_name(table[9]), entry_name(table[10]), 2));
    assert(precedes_at(entry_name(table[10]), entry_name(table[11]), 7));
    assert(precedes_at(entry_name(table[11]), entry_name(table[12]), 3));
    assert(precedes_at(entry_name(table[12]), entry_name(table[13]), 3));
    assert(precedes_at(entry_name(table[13]), entry_name(table[14]), 2));
    assert(precedes_at(entry_name(table[14]), entry_name(table[15]), 2));
    assert(precedes_at(entry_name(table[15]), entry_name(table[16]), 4));
}

/// The names of `ENTITIES_LOWER_H` from entry 16 up to entry 24.
proof fn lemma_names_lower_h_from_16()
    ensures
        names_in_order(ENTITIES_LOWER_H@, 'h' as u8, 16, 24),
{
    broadcast use is_ascii_spec_bytes;

    reveal(precedes);
    let table = ENTITIES_LOWER_H@;
    reveal_strlit("&hkswarow;");
    assert(is_ascii("&hkswarow;"));
    reveal_strlit("&hoarr;");
    assert(is_ascii("&hoarr;"));
    reveal_strlit("&homtht;");
    assert(is_ascii("&homtht;"));
    reveal_strlit("&hookleftarrow;");
    assert(is_ascii("&hookleftarrow;"));
    reveal_strlit("&hookrightarrow;");
    assert(is_ascii("&hookrightarrow;"));
    reveal_strlit("&hopf;");
    assert(is_ascii("&hopf;"));
    reveal_strlit("&horbar;");
    assert(is_ascii("&horbar;"));
    reveal_strlit("&hscr;");
    assert(is_ascii("&hscr;"));
    reveal_strlit("&hslash;");
    assert(is_ascii("&hslash;"));
    assert(precedes_at(entry_name(table[16]), entry_name(table[17]), 2));
    assert(precedes_at(entry_name(table[17]), entry_name(table[18]), 3));
    assert(precedes_at(entry_name(table[18]), entry_name(table[19]), 3));
    assert(precedes_at(entry_name(table[19]), entry_name(table[20]), 5));
    assert(precedes_at(entry_name(table[20]), entry_name(table[21]), 3));
    assert(precedes_at(entry_name(table[21]), entry_name(table[22]), 3));
    assert(precedes_at(entry_name(table[22]), entry_name(table[23]), 2));
    assert(precedes_at(entry_name(table[23]), entry_name(table[24]), 3));
}

/// The names of `ENTITIES_LOWER_H` from entry 24 up to entry 28.
proof fn lemma_names_lower_h_from_24()
    ensures
        names_in_order(ENTITIES_LOWER_H@, 'h' as u8, 24, 28),
{
    broadcast use is_ascii_spec_bytes;

    reveal(precedes);
    let table = ENTITIES_LOWER_H@;
    reveal_strlit("&hslash;");
    assert(is_ascii("&hslash;"));
    reveal_strlit("&hstrok;");
    assert(is_ascii("&hstrok;"));
    reveal_strlit("&hybull;");
    assert(is_ascii("&hybull;"));
    reveal_strlit("&hyphen;");
    assert(is_ascii("&hyphen;"));
    assert(precedes_at(entry_name(table[24]), entry_name(table[25]), 3));
    assert(precedes_at(entry_name(table[25]), entry_name(table[26]), 2));
    assert(precedes_at(entry_name(table[26]), entry_name(table[27]), 3));
}

/// Every name in `ENTITIES_LOWER_H` starts with `&h` and has 3 to 33 bytes, and
/// each name comes before the next in the order of byte strings.
pub proof fn lemma_names_lower_h()
    ensures
        names_start_with(ENTITIES_LOWER_H@, 'h' as u8),
        names_ascend(ENTITIES_LOWER_H@),
{
    lemma_names_lower_h_from_0();
    lemma_names_lower_h_from_8();
    lemma_names_lower_h_from_16();
    lemma_names_lower_h_from_24();
}

} // verus!
