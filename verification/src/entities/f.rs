//! The named character references that start with `F` or `f`.

use crate::entities::{names_in_order, names_start_with};
use crate::search::{entry_name, names_ascend, precedes, precedes_at, Entry};
use vstd::prelude::*;
use vstd::string::{is_ascii, is_ascii_spec_bytes};

verus! {

/// The named character references that start with `&F`, each with its
/// expansion, in the order of byte strings.
pub const ENTITIES_UPPER_F: [Entry; 8] = [
    ("&Fcy;", "\u{424}"),
    ("&Ffr;", "\u{1d509}"),
    ("&FilledSmallSquare;", "\u{25fc}"),
    ("&FilledVerySmallSquare;", "\u{25aa}"),
    ("&Fopf;", "\u{1d53d}"),
    ("&ForAll;", "\u{2200}"),
    ("&Fouriertrf;", "\u{2131}"),
    ("&Fscr;", "\u{2131}"),
];

/// The named character references that start with `&f`, each with its
/// expansion, in the order of byte strings.
pub const ENTITIES_LOWER_F: [Entry; 39] = [
    ("&fallingdotseq;", "\u{2252}"),
    ("&fcy;", "\u{444}"),
    ("&female;", "\u{2640}"),
    ("&ffilig;", "\u{fb03}"),
    ("&fflig;", "\u{fb00}"),
    ("&ffllig;", "\u{fb04}"),
    ("&ffr;", "\u{1d523}"),
    ("&filig;", "\u{fb01}"),
    ("&fjlig;", "fj"),
    ("&flat;", "\u{266d}"),
    ("&fllig;", "\u{fb02}"),
    ("&fltns;", "\u{25b1}"),
    ("&fnof;", "\u{192}"),
    ("&fopf;", "\u{1d557}"),
    ("&forall;", "\u{2200}"),
    ("&fork;", "\u{22d4}"),
    ("&forkv;", "\u{2ad9}"),
    ("&fpartint;", "\u{2a0d}"),
    ("&frac12", "\u{bd}"),
    ("&frac12;", "\u{bd}"),
    ("&frac13;", "\u{2153}"),
    ("&frac14", "\u{bc}"),
    ("&frac14;", "\u{bc}"),
    ("&frac15;", "\u{2155}"),
    ("&frac16;", "\u{2159}"),
    ("&frac18;", "\u{215b}"),
    ("&frac23;", "\u{2154}"),
    ("&frac25;", "\u{2156}"),
    ("&frac34", "\u{be}"),
    ("&frac34;", "\u{be}"),
    ("&frac35;", "\u{2157}"),
    ("&frac38;", "\u{215c}"),
    ("&frac45;", "\u{2158}"),
    ("&frac56;", "\u{215a}"),
    ("&frac58;", "\u{215d}"),
    ("&frac78;", "\u{215e}"),
    ("&frasl;", "\u{2044}"),
    ("&frown;", "\u{2322}"),
    ("&fscr;", "\u{1d4bb}"),
];

/// The names of `ENTITIES_UPPER_F` from entry 0 up to entry 8.
proof fn lemma_names_upper_f_from_0()
    ensures
        names_in_order(ENTITIES_UPPER_F@, 'F' as u8, 0, 8),
{
    broadcast use is_ascii_spec_bytes;

    reveal(precedes);
    let table = ENTITIES_UPPER_F@;
    reveal_strlit("&Fcy;");
    assert(is_ascii("&Fcy;"));
    reveal_strlit("&Ffr;");
    assert(is_ascii("&Ffr;"));
    reveal_strlit("&FilledSmallSquare;");
    assert(is_ascii("&FilledSmallSquare;"));
    reveal_strlit("&FilledVerySmallSquare;");
    assert(is_ascii("&FilledVerySmallSquare;"));
    reveal_strlit("&Fopf;");
    assert(is_ascii("&Fopf;"));
    reveal_strlit("&ForAll;");
    assert(is_ascii("&ForAll;"));
    reveal_strlit("&Fouriertrf;");
    assert(is_ascii("&Fouriertrf;"));
    reveal_strlit("&Fscr;");
    assert(is_ascii("&Fscr;"));
    assert(precedes_at(entry_name(table[0]), entry_name(table[1]), 2));
    assert(precedes_at(entry_name(table[1]), entry_name(table[2]), 2));
    assert(precedes_at(entry_name(table[2]), entry_name(table[3]), 7));
    assert(precedes_at(entry_name(table[3]), entry_name(table[4]), 2));
    assert(precedes_at(entry_name(table[4]), entry_name(table[5]), 3));
    assert(precedes_at(entry_name(table[5]), entry_name(table[6]), 3));
    assert(precedes_at(entry_name(table[6]), entry_name(table[7]), 2));
}

/// Every name in `ENTITIES_UPPER_F` starts with `&F` and has 3 to 33 bytes, and
/// each name comes before the next in the order of byte strings.
pub proof fn lemma_names_upper_f()
    ensures
        names_start_with(ENTITIES_UPPER_F@, 'F' as u8),
        names_ascend(ENTITIES_UPPER_F@),
{
    lemma_names_upper_f_from_0();
}

/// The names of `ENTITIES_LOWER_F` from entry 0 up to entry 8.
proof fn lemma_names_lower_f_from_0()
    ensures
        names_in_order(ENTITIES_LOWER_F@, 'f' as u8, 0, 8),
{
    broadcast use is_ascii_spec_bytes;

    reveal(precedes);
    let table = ENTITIES_LOWER_F@;
    reveal_strlit("&fallingdotseq;");
    assert(is_ascii("&fallingdotseq;"));
    reveal_strlit("&fcy;");
    assert(is_ascii("&fcy;"));
    reveal_strlit("&female;");
    assert(is_ascii("&female;"));
    reveal_strlit("&ffilig;");
    assert(is_ascii("&ffilig;"));
    reveal_strlit("&fflig;");
    assert(is_ascii("&fflig;"));
    reveal_strlit("&ffllig;");
    assert(is_ascii("&ffllig;"));
    reveal_strlit("&ffr;");
    assert(is_ascii("&ffr;"));
    reveal_strlit("&filig;");
    assert(is_ascii("&filig;"));
    reveal_strlit("&fjlig;");
    assert(is_ascii("&fjlig;"));
    assert(precedes_at(entry_name(table[0]), entry_name(table[1]), 2));
    assert(precedes_at(entry_name(table[1]), entry_name(table[2]), 2));
    assert(precedes_at(entry_name(table[2]), entry_name(table[3]), 2));
    assert(precedes_at(entry_name(table[3]), entry_name(table[4]), 3));
    assert(precedes_at(entry_name(table[4]), entry_name(table[5]), 4));
    assert(precedes_at(entry_name(table[5]), entry_name(table[6]), 3));
    assert(precedes_at(entry_name(table[6]), entry_name(table[7]), 2));
    assert(precedes_at(entry_name(table[7]), entry_name(table[8]), 2));
}

/// The names of `ENTITIES_LOWER_F` from entry 8 up to entry 16.
proof fn lemma_names_lower_f_from_8()
    ensures
        names_in_order(ENTITIES_LOWER_F@, 'f' as u8, 8, 16),
{
    broadcast use is_ascii_spec_bytes;

    reveal(precedes);
    let table = ENTITIES_LOWER_F@;
    reveal_strlit("&fjlig;");
    assert(is_ascii("&fjlig;"));
    reveal_strlit("&flat;");
    assert(is_ascii("&flat;"));
    reveal_strlit("&fllig;");
    assert(is_ascii("&fllig;"));
    reveal_strlit("&fltns;");
    assert(is_ascii("&fltns;"));
    reveal_strlit("&fnof;");
    assert(is_ascii("&fnof;"));
    reveal_strlit("&fopf;");
    assert(is_ascii("&fopf;"));
    reveal_strlit("&forall;");
    assert(is_ascii("&forall;"));
    reveal_strlit("&fork;");
    assert(is_ascii("&fork;"));
    reveal_strlit("&forkv;");
    assert(is_ascii("&forkv;"));
    assert(precedes_at(entry_name(table[8]), entry_name(table[9]), 2));
    assert(precedes_at(entry_name(table[9]), entry_name(table[10]), 3));
    assert(precedes_at(entry_name(table[10]), entry_name(table[11]), 3));
    assert(precedes_at(entry_name(table[11]), entry_name(table[12]), 2));
    assert(precedes_at(entry_name(table[12]), entry_name(table[13]), 2));
    assert(precedes_at(entry_name(table[13]), entry_name(table[14]), 3));
    assert(precedes_at(entry_name(table[14]), entry_name(table[15]), 4));
    assert(precedes_at(entry_name(table[15]), entry_name(table[16]), 5));
}

/// The names of `ENTITIES_LOWER_F` from entry 16 up to entry 24.
proof fn lemma_names_lower_f_from_16()
    ensures
        names_in_order(ENTITIES_LOWER_F@, 'f' as u8, 16, 24),
{
    broadcast use is_ascii_spec_bytes;

    reveal(precedes);
    let table = ENTITIES_LOWER_F@;
    reveal_strlit("&forkv;");
    assert(is_ascii("&forkv;"));
    reveal_strlit("&fpartint;");
    assert(is_ascii("&fpartint;"));
    reveal_strlit("&frac12");
    assert(is_ascii("&frac12"));
    reveal_strlit("&frac12;");
    assert(is_ascii("&frac12;"));
    reveal_strlit("&frac13;");
    assert(is_ascii("&frac13;"));
    reveal_strlit("&frac14");
    assert(is_ascii("&frac14"));
    reveal_strlit("&frac14;");
    assert(is_ascii("&frac14;"));
    reveal_strlit("&frac15;");
    assert(is_ascii("&frac15;"));
    reveal_strlit("&frac16;");
    assert(is_ascii("&frac16;"));
    assert(precedes_at(entry_name(table[16]), entry_name(table[17]), 2));
    assert(precedes_at(entry_name(table[17]), entry_name(table[18]), 2));
    assert(precedes_at(entry_name(table[18]), entry_name(table[19]), 7));
    assert(precedes_at(entry_name(table[19]), entry_name(table[20]), 6));
    assert(precedes_at(entry_name(table[20]), entry_name(table[21]), 6));
    assert(precedes_at(entry_name(table[21]), entry_name(table[22]), 7));
    assert(precedes_at(entry_name(table[22]), entry_name(table[23]), 6));
    assert(precedes_at(entry_name(table[23]), entry_name(table[24]), 6));
}

/// The names of `ENTITIES_LOWER_F` from entry 24 up to entry 32.
proof fn lemma_names_lower_f_from_24()
    ensures
        names_in_order(ENTITIES_LOWER_F@, 'f' as u8, 24, 32),
{
    broadcast use is_ascii_spec_bytes;

    reveal(precedes);
    let table = ENTITIES_LOWER_F@;
    reveal_strlit("&frac16;");
    assert(is_ascii("&frac16;"));
    reveal_strlit("&frac18;");
    assert(is_ascii("&frac18;"));
    reveal_strlit("&frac23;");
    assert(is_ascii("&frac23;"));
    reveal_strlit("&frac25;");
    assert(is_ascii("&frac25;"));
    reveal_strlit("&frac34");
    assert(is_ascii("&frac34"));
    reveal_strlit("&frac34;");
    assert(is_ascii("&frac34;"));
    reveal_strlit("&frac35;");
    assert(is_ascii("&frac35;"));
    reveal_strlit("&frac38;");
    assert(is_ascii("&frac38;"));
    reveal_strlit("&frac45;");
    assert(is_ascii("&frac45;"));
    assert(precedes_at(entry_name(table[24]), entry_name(table[25]), 6));
    assert(precedes_at(entry_name(table[25]), entry_name(table[26]), 5));
    assert(precedes_at(entry_name(table[26]), entry_name(table[27]), 6));
    assert(precedes_at(entry_name(table[27]), entry_name(table[28]), 5));
    assert(precedes_at(entry_name(table[28]), entry_name(table[29]), 7));
    assert(precedes_at(entry_name(table[29]), entry_name(table[30]), 6));
    assert(precedes_at(entry_name(table[30]), entry_name(table[31]), 6));
    assert(precedes_at(entry_name(table[31]), entry_name(table[32]), 5));
}

/// The names of `ENTITIES_LOWER_F` from entry 32 up to entry 39.
proof fn lemma_names_lower_f_from_32()
    ensures
        names_in_order(ENTITIES_LOWER_F@, 'f' as u8, 32, 39),
{
    broadcast use is_ascii_spec_bytes;

    reveal(precedes);
    let table = ENTITIES_LOWER_F@;
    reveal_strlit("&frac45;");
    assert(is_ascii("&frac45;"));
    reveal_strlit("&frac56;");
    assert(is_ascii("&frac56;"));
    reveal_strlit("&frac58;");
    assert(is_ascii("&frac58;"));
    reveal_strlit("&frac78;");
    assert(is_ascii("&frac78;"));
    reveal_strlit("&frasl;");
    assert(is_ascii("&frasl;"));
    reveal_strlit("&frown;");
    assert(is_ascii("&frown;"));
    reveal_strlit("&fscr;");
    assert(is_ascii("&fscr;"));
    assert(precedes_at(entry_name(table[32]), entry_name(table[33]), 5));
    assert(precedes_at(entry_name(table[33]), entry_name(table[34]), 6));
    assert(precedes_at(entry_name(table[34]), entry_name(table[35]), 5));
    assert(precedes_at(entry_name(table[35]), entry_name(table[36]), 4));
    assert(precedes_at(entry_name(table[36]), entry_name(table[37]), 3));
    assert(precedes_at(entry_name(table[37]), entry_name(table[38]), 2));
}

/// Every name in `ENTITIES_LOWER_F` starts with `&f` and has 3 to 33 bytes, and
/// each name comes before the next in the order of byte strings.
pub proof fn lemma_names_lower_f()
    ensures
        names_start_with(ENTITIES_LOWER_F@, 'f' as u8),
        names_ascend(ENTITIES_LOWER_F@),
{
    lemma_names_lower_f_from_0();
    lemma_names_lower_f_from_8();
    lemma_names_lower_f_from_16();
    lemma_names_lower_f_from_24();
    lemma_names_lower_f_from_32();
}

} // verus!
