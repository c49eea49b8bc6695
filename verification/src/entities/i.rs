//! The named character references that start with `I` or `i`.

use crate::entities::{names_in_order, names_start_with};
use crate::search::{entry_name, names_ascend, precedes, precedes_at, Entry};
use vstd::prelude::*;
use vstd::string::{is_ascii, is_ascii_spec_bytes};

verus! {

/// The named character references that start with `&I`, each with its
/// expansion, in the order of byte strings.
pub const ENTITIES_UPPER_I: [Entry; 29] = [
    ("&IEcy;", "\u{415}"),
    ("&IJlig;", "\u{132}"),
    ("&IOcy;", "\u{401}"),
    ("&Iacute", "\u{cd}"),
    ("&Iacute;", "\u{cd}"),
    ("&Icirc", "\u{ce}"),
    ("&Icirc;", "\u{ce}"),
    ("&Icy;", "\u{418}"),
    ("&Idot;", "\u{130}"),
    ("&Ifr;", "\u{2111}"),
    ("&Igrave", "\u{cc}"),
    ("&Igrave;", "\u{cc}"),
    ("&Im;", "\u{2111}"),
    ("&Imacr;", "\u{12a}"),
    ("&ImaginaryI;", "\u{2148}"),
    ("&Implies;", "\u{21d2}"),
    ("&Int;", "\u{222c}"),
    ("&Integral;", "\u{222b}"),
    ("&Intersection;", "\u{22c2}"),
    ("&InvisibleComma;", "\u{2063}"),
    ("&InvisibleTimes;", "\u{2062}"),
    ("&Iogon;", "\u{12e}"),
    ("&Iopf;", "\u{1d540}"),
    ("&Iota;", "\u{399}"),
    ("&Iscr;", "\u{2110}"),
    ("&Itilde;", "\u{128}"),
    ("&Iukcy;", "\u{406}"),
    ("&Iuml", "\u{cf}"),
    ("&Iuml;", "\u{cf}"),
];

/// The named character references that start with `&i`, each with its
/// expansion, in the order of byte strings.
pub const ENTITIES_LOWER_I: [Entry; 56] = [
    ("&iacute", "\u{ed}"),
    ("&iacute;", "\u{ed}"),
    ("&ic;", "\u{2063}"),
    ("&icirc", "\u{ee}"),
    ("&icirc;", "\u{ee}"),
    ("&icy;", "\u{438}"),
    ("&iecy;", "\u{435}"),
    ("&iexcl", "\u{a1}"),
    ("&iexcl;", "\u{a1}"),
    ("&iff;", "\u{21d4}"),
    ("&ifr;", "\u{1d526}"),
    ("&igrave", "\u{ec}"),
    ("&igrave;", "\u{ec}"),
    ("&ii;", "\u{2148}"),
    ("&iiiint;", "\u{2a0c}"),
    ("&iiint;", "\u{222d}"),
    ("&iinfin;", "\u{29dc}"),
    ("&iiota;", "\u{2129}"),
    ("&ijlig;", "\u{133}"),
    ("&imacr;", "\u{12b}"),
    ("&image;", "\u{2111}"),
    ("&imagline;", "\u{2110}"),
    ("&imagpart;", "\u{2111}"),
    ("&imath;", "\u{131}"),
    ("&imof;", "\u{22b7}"),
    ("&imped;", "\u{1b5}"),
    ("&in;", "\u{2208}"),
    ("&incare;", "\u{2105}"),
    ("&infin;", "\u{221e}"),
    ("&infintie;", "\u{29dd}"),
    ("&inodot;", "\u{131}"),
    ("&int;", "\u{222b}"),
    ("&intcal;", "\u{22ba}"),
    ("&integers;", "\u{2124}"),
    ("&intercal;", "\u{22ba}"),
    ("&intlarhk;", "\u{2a17}"),
    ("&intprod;", "\u{2a3c}"),
    ("&iocy;", "\u{451}"),
    ("&iogon;", "\u{12f}"),
    ("&iopf;", "\u{1d55a}"),
    ("&iota;", "\u{3b9}"),
    ("&iprod;", "\u{2a3c}"),
    ("&iquest", "\u{bf}"),
    ("&iquest;", "\u{bf}"),
    ("&iscr;", "\u{1d4be}"),
    ("&isin;", "\u{2208}"),
    ("&isinE;", "\u{22f9}"),
    ("&isindot;", "\u{22f5}"),
    ("&isins;", "\u{22f4}"),
    ("&isinsv;", "\u{22f3}"),
    ("&isinv;", "\u{2208}"),
    ("&it;", "\u{2062}"),
    ("&itilde;", "\u{129}"),
    ("&iukcy;", "\u{456}"),
    ("&iuml", "\u{ef}"),
    ("&iuml;", "\u{ef}"),
];

/// The names of `ENTITIES_UPPER_I` from entry 0 up to entry 8.
proof fn lemma_names_upper_i_from_0()
    ensures
        names_in_order(ENTITIES_UPPER_I@, 'I' as u8, 0, 8),
{
    broadcast use is_ascii_spec_bytes;

    reveal(precedes);
    let table = ENTITIES_UPPER_I@;
    reveal_strlit("&IEcy;");
    assert(is_ascii("&IEcy;"));
    reveal_strlit("&IJlig;");
    assert(is_ascii("&IJlig;"));
    reveal_strlit("&IOcy;");
    assert(is_ascii("&IOcy;"));
    reveal_strlit("&Iacute");
    assert(is_ascii("&Iacute"));
    reveal_strlit("&Iacute;");
    assert(is_ascii("&Iacute;"));
    reveal_strlit("&Icirc");
    assert(is_ascii("&Icirc"));
    reveal_strlit("&Icirc;");
    assert(is_ascii("&Icirc;"));
    reveal_strlit("&Icy;");
    assert(is_ascii("&Icy;"));
    reveal_strlit("&Idot;");
    assert(is_ascii("&Idot;"));
    assert(precedes_at(entry_name(table[0]), entry_name(table[1]), 2));
    assert(precedes_at(entry_name(table[1]), entry_name(table[2]), 2));
    assert(precedes_at(entry_name(table[2]), entry_name(table[3]), 2));
    assert(precedes_at(entry_name(table[3]), entry_name(table[4]), 7));
    assert(precedes_at(entry_name(table[4]), entry_name(table[5]), 2));
    assert(precedes_at(entry_name(table[5]), entry_name(table[6]), 6));
    assert(precedes_at(entry_name(table[6]), entry_name(table[7]), 3));
    assert(precedes_at(entry_name(table[7]), entry_name(table[8]), 2));
}

/// The names of `ENTITIES_UPPER_I` from entry 8 up to entry 16.
proof fn lemma_names_upper_i_from_8()
    ensures
        names_in_order(ENTITIES_UPPER_I@, 'I' as u8, 8, 16),
{
    broadcast use is_ascii_spec_bytes;

    reveal(precedes);
    let table = ENTITIES_UPPER_I@;
    reveal_strlit("&Idot;");
    assert(is_ascii("&Idot;"));
    reveal_strlit("&Ifr;");
    assert(is_ascii("&Ifr;"));
    reveal_strlit("&Igrave");
    assert(is_ascii("&Igrave"));
    reveal_strlit("&Igrave;");
    assert(is_ascii("&Igrave;"));
    reveal_strlit("&Im;");
    assert(is_ascii("&Im;"));
    reveal_strlit("&Imacr;");
    assert(is_ascii("&Imacr;"));
    reveal_strlit("&ImaginaryI;");
    assert(is_ascii("&ImaginaryI;"));
    reveal_strlit("&Implies;");
    assert(is_ascii("&Implies;"));
    reveal_strlit("&Int;");
    assert(is_ascii("&Int;"));
    assert(precedes_at(entry_name(table[8]), entry_name(table[9]), 2));
    assert(precedes_at(entry_name(table[9]), entry_name(table[10]), 2));
    assert(precedes_at(entry_name(table[10]), entry_name(table[11]), 7));
    assert(precedes_at(entry_name(table[11]), entry_name(table[12]), 2));
    assert(precedes_at(entry_name(table[12]), entry_name(table[13]), 3));
    assert(precedes_at(entry_name(table[13]), entry_name(table[14]), 4));
    assert(precedes_at(entry_name(table[14]), entry_name(table[15]), 3));
    assert(precedes_at(entry_name(table[15]), entry_name(table[16]), 2));
}

/// The names of `ENTITIES_UPPER_I` from entry 16 up to entry 24.
proof fn lemma_names_upper_i_from_16()
    ensures
        names_in_order(ENTITIES_UPPER_I@, 'I' as u8, 16, 24),
{
    broadcast use is_ascii_spec_bytes;

    reveal(precedes);
    let table = ENTITIES_UPPER_I@;
    reveal_strlit("&Int;");
    assert(is_ascii("&Int;"));
    reveal_strlit("&Integral;");
    assert(is_ascii("&Integral;"));
    reveal_strlit("&Intersection;");
    assert(is_ascii("&Intersection;"));
    reveal_strlit("&InvisibleComma;");
    assert(is_ascii("&InvisibleComma;"));
    reveal_strlit("&InvisibleTimes;");
    assert(is_ascii("&InvisibleTimes;"));
    reveal_strlit("&Iogon;");
    assert(is_ascii("&Iogon;"));
    reveal_strlit("&Iopf;");
    assert(is_ascii("&Iopf;"));
    reveal_strlit("&Iota;");
    assert(is_ascii("&Iota;"));
    reveal_strlit("&Iscr;");
    assert(is_ascii("&Iscr;"));
    assert(precedes_at(entry_name(table[16]), entry_name(table[17]), 4));
    assert(precedes_at(entry_name(table[17]), entry_name(table[18]), 5));
    assert(precedes_at(entry_name(table[18]), entry_name(table[19]), 3));
    assert(precedes_at(entry_name(table[19]), entry_name(table[20]), 10));
    assert(precedes_at(entry_name(table[20]), entry_name(table[21]), 2));
    assert(precedes_at(entry_name(table[21]), entry_name(table[22]), 3));
    assert(precedes_at(entry_name(table[22]), entry_name(table[23]), 3));
    assert(precedes_at(entry_name(table[23]), entry_name(table[24]), 2));
}

/// The names of `ENTITIES_UPPER_I` from entry 24 up to entry 29.
proof fn lemma_names_upper_i_from_24()
    ensures
        names_in_order(ENTITIES_UPPER_I@, 'I' as u8, 24, 29),
{
    broadcast use is_ascii_spec_bytes;

    reveal(precedes);
    let table = ENTITIES_UPPER_I@;
    reveal_strlit("&Iscr;");
    assert(is_ascii("&Iscr;"));
    reveal_strlit("&Itilde;");
    assert(is_ascii("&Itilde;"));
    reveal_strlit("&Iukcy;");
    assert(is_ascii("&Iukcy;"));
    reveal_strlit("&Iuml");
    assert(is_ascii("&Iuml"));
    reveal_strlit("&Iuml;");
    assert(is_ascii("&Iuml;"));
    assert(precedes_at(entry_name(table[24]), entry_name(table[25]), 2));
    assert(precedes_at(entry_name(table[25]), entry_name(table[26]), 2));
    assert(precedes_at(entry_name(table[26]), entry_name(table[27]), 3));
    assert(precedes_at(entry_name(table[27]), entry_name(table[28]), 5));
}

/// Every name in `ENTITIES_UPPER_I` starts with `&I` and has 3 to 33 bytes, and
/// each name comes before the next in the order of byte strings.
pub proof fn lemma_names_upper_i()
    ensures
        names_start_with(ENTITIES_UPPER_I@, 'I' as u8),
        names_ascend(ENTITIES_UPPER_I@),
{
    lemma_names_upper_i_from_0();
    lemma_names_upper_i_from_8();
    lemma_names_upper_i_from_16();
    lemma_names_upper_i_from_24();
}

/// The names of `ENTITIES_LOWER_I` from entry 0 up to entry 8.
proof fn lemma_names_lower_i_from_0()
    ensures
        names_in_order(ENTITIES_LOWER_I@, 'i' as u8, 0, 8),
{
    broadcast use is_ascii_spec_bytes;

    reveal(precedes);
    let table = ENTITIES_LOWER_I@;
    reveal_strlit("&iacute");
    assert(is_ascii("&iacute"));
    reveal_strlit("&iacute;");
    assert(is_ascii("&iacute;"));
    reveal_strlit("&ic;");
    assert(is_ascii("&ic;"));
    reveal_strlit("&icirc");
    assert(is_ascii("&icirc"));
    reveal_strlit("&icirc;");
    assert(is_ascii("&icirc;"));
    reveal_strlit("&icy;");
    assert(is_ascii("&icy;"));
    reveal_strlit("&iecy;");
    assert(is_ascii("&iecy;"));
    reveal_strlit("&iexcl");
    assert(is_ascii("&iexcl"));
    reveal_strlit("&iexcl;");
    assert(is_ascii("&iexcl;"));
    assert(precedes_at(entry_name(table[0]), entry_name(table[1]), 7));
    assert(precedes_at(entry_name(table[1]), entry_name(table[2]), 2));
    assert(precedes_at(entry_name(table[2]), entry_name(table[3]), 3));
    assert(precedes_at(entry_name(table[3]), entry_name(table[4]), 6));
    assert(precedes_at(entry_name(table[4]), entry_name(table[5]), 3));
    assert(precedes_at(entry_name(table[5]), entry_name(table[6]), 2));
    assert(precedes_at(entry_name(table[6]), entry_name(table[7]), 3));
    assert(precedes_at(entry_name(table[7]), entry_name(table[8]), 6));
}

/// The names of `ENTITIES_LOWER_I` from entry 8 up to entry 16.
proof fn lemma_names_lower_i_from_8()
    ensures
        names_in_order(ENTITIES_LOWER_I@, 'i' as u8, 8, 16),
{
    broadcast use is_ascii_spec_bytes;

    reveal(precedes);
    let table = ENTITIES_LOWER_I@;
    reveal_strlit("&iexcl;");
    assert(is_ascii("&iexcl;"));
    reveal_strlit("&iff;");
    assert(is_ascii("&iff;"));
    reveal_strlit("&ifr;");
    assert(is_ascii("&ifr;"));
    reveal_strlit("&igrave");
    assert(is_ascii("&igrave"));
    reveal_strlit("&igrave;");
    assert(is_ascii("&igrave;"));
    reveal_strlit("&ii;");
    assert(is_ascii("&ii;"));
    reveal_strlit("&iiiint;");
    assert(is_ascii("&iiiint;"));
    reveal_strlit("&iiint;");
    assert(is_ascii("&iiint;"));
    reveal_strlit("&iinfin;");
    assert(is_ascii("&iinfin;"));
    assert(precedes_at(entry_name(table[8]), entry_name(table[9]), 2));
    assert(precedes_at(entry_name(table[9]), entry_name(table[10]), 3));
    assert(precedes_at(entry_name(table[10]), entry_name(table[11]), 2));
    assert(precedes_at(entry_name(table[11]), entry_name(table[12]), 7));
    assert(precedes_at(entry_name(table[12]), entry_name(table[13]), 2));
    assert(precedes_at(entry_name(table[13]), entry_name(table[14]), 3));
    assert(precedes_at(entry_name(table[14]), entry_name(table[15]), 4));
    assert(precedes_at(entry_name(table[15]), entry_name(table[16]), 3));
}

/// The names of `ENTITIES_LOWER_I` from entry 16 up to entry 24.
proof fn lemma_names_lower_i_from_16()
    ensures
        names_in_order(ENTITIES_LOWER_I@, 'i' as u8, 16, 24),
{
    broadcast use is_ascii_spec_bytes;

    reveal(precedes);
    let table = ENTITIES_LOWER_I@;
    reveal_strlit("&iinfin;");
    assert(is_ascii("&iinfin;"));
    reveal_strlit("&iiota;");
    assert(is_ascii("&iiota;"));
    reveal_strlit("&ijlig;");
    assert(is_ascii("&ijlig;"));
    reveal_strlit("&imacr;");
    assert(is_ascii("&imacr;"));
    reveal_strlit("&image;");
    assert(is_ascii("&image;"));
    reveal_strlit("&imagline;");
    assert(is_ascii("&imagline;"));
    reveal_strlit("&imagpart;");
    assert(is_ascii("&imagpart;"));
    reveal_strlit("&imath;");
    assert(is_ascii("&imath;"));
    reveal_strlit("&imof;");
    assert(is_ascii("&imof;"));
    assert(precedes_at(entry_name(table[16]), entry_name(table[17]), 3));
    assert(precedes_at(entry_name(table[17]), entry_name(table[18]), 2));
    assert(precedes_at(entry_name(table[18]), entry_name(table[19]), 2));
    assert(precedes_at(entry_name(table[19]), entry_name(table[20]), 4));
    assert(precedes_at(entry_name(table[20]), entry_name(table[21]), 5));
    assert(precedes_at(entry_name(table[21]), entry_name(table[22]), 5));
    assert(precedes_at(entry_name(table[22]), entry_name(table[23]), 4));
    assert(precedes_at(entry_name(table[23]), entry_name(table[24]), 3));
}

/// The names of `ENTITIES_LOWER_I` from entry 24 up to entry 32.
proof fn lemma_names_lower_i_from_24()
    ensures
        names_in_order(ENTITIES_LOWER_I@, 'i' as u8, 24, 32),
{
    broadcast use is_ascii_spec_bytes;

    reveal(precedes);
    let table = ENTITIES_LOWER_I@;
    reveal_strlit("&imof;");
    assert(is_ascii("&imof;"));
    reveal_strlit("&imped;");
    assert(is_ascii("&imped;"));
    reveal_strlit("&in;");
    assert(is_ascii("&in;"));
    reveal_strlit("&incare;");
    assert(is_ascii("&incare;"));
    reveal_strlit("&infin;");
    assert(is_ascii("&infin;"));
    reveal_strlit("&infintie;");
    assert(is_ascii("&infintie;"));
    reveal_strlit("&inodot;");
    assert(is_ascii("&inodot;"));
    reveal_strlit("&int;");
    assert(is_ascii("&int;"));
    reveal_strlit("&intcal;");
    assert(is_ascii("&intcal;"));
    assert(precedes_at(entry_name(table[24]), entry_name(table[25]), 3));
    assert(precedes_at(entry_name(table[25]), entry_name(table[26]), 2));
    assert(precedes_at(entry_name(table[26]), entry_name(table[27]), 3));
    assert(precedes_at(entry_name(table[27]), entry_name(table[28]), 3));
    assert(precedes_at(entry_name(table[28]), entry_name(table[29]), 6));
    assert(precedes_at(entry_name(table[29]), entry_name(table[30]), 3));
    assert(precedes_at(entry_name(table[30]), entry_name(table[31]), 3));
    assert(precedes_at(entry_name(table[31]), entry_name(table[32]), 4));
}

/// The names of `ENTITIES_LOWER_I` from entry 32 up to entry 40.
proof fn lemma_names_lower_i_from_32()
    ensures
        names_in_order(ENTITIES_LOWER_I@, 'i' as u8, 32, 40),
{
    broadcast use is_ascii_spec_bytes;

    reveal(precedes);
    let table = ENTITIES_LOWER_I@;
    reveal_strlit("&intcal;");
    assert(is_ascii("&intcal;"));
    reveal_strlit("&integers;");
    assert(is_ascii("&integers;"));
    reveal_strlit("&intercal;");
    assert(is_ascii("&intercal;"));
    reveal_strlit("&intlarhk;");
    assert(is_ascii("&intlarhk;"));
    reveal_strlit("&intprod;");
    assert(is_ascii("&intprod;"));
    reveal_strlit("&iocy;");
    assert(is_ascii("&iocy;"));
    reveal_strlit("&iogon;");
    assert(is_ascii("&iogon;"));
    reveal_strlit("&iopf;");
    assert(is_ascii("&iopf;"));
    reveal_strlit("&iota;");
    assert(is_ascii("&iota;"));
    assert(precedes_at(entry_name(table[32]), entry_name(table[33]), 4));
    assert(precedes_at(entry_name(table[33]), entry_name(table[34]), 5));
    assert(precedes_at(entry_name(table[34]), entry_name(table[35]), 4));
    assert(precedes_at(entry_name(table[35]), entry_name(table[36]), 4));
    assert(precedes_at(entry_name(table[36]), entry_name(table[37]), 2));
    assert(precedes_at(entry_name(table[37]), entry_name(table[38]), 3));
    assert(precedes_at(entry_name(table[38]), entry_name(table[39]), 3));
    assert(precedes_at(entry_name(table[39]), entry_name(table[40]), 3));
}

/// The names of `ENTITIES_LOWER_I` from entry 40 up to entry 48.
proof fn lemma_names_lower_i_from_40()
    ensures
        names_in_order(ENTITIES_LOWER_I@, 'i' as u8, 40, 48),
{
    broadcast use is_ascii_spec_bytes;

    reveal(precedes);
    let table = ENTITIES_LOWER_I@;
    reveal_strlit("&iota;");
    assert(is_ascii("&iota;"));
    reveal_strlit("&iprod;");
    assert(is_ascii("&iprod;"));
    reveal_strlit("&iquest");
    assert(is_ascii("&iquest"));
    reveal_strlit("&iquest;");
    assert(is_ascii("&iquest;"));
    reveal_strlit("&iscr;");
    assert(is_ascii("&iscr;"));
    reveal_strlit("&isin;");
    assert(is_ascii("&isin;"));
    reveal_strlit("&isinE;");
    assert(is_ascii("&isinE;"));
    reveal_strlit("&isindot;");
    assert(is_ascii("&isindot;"));
    reveal_strlit("&isins;");
    assert(is_ascii("&isins;"));
    assert(precedes_at(entry_name(table[40]), entry_name(table[41]), 2));
    assert(precedes_at(entry_name(table[41]), entry_name(table[42]), 2));
    assert(precedes_at(entry_name(table[42]), entry_name(table[43]), 7));
    assert(precedes_at(entry_name(table[43]), entry_name(table[44]), 2));
    assert(precedes_at(entry_name(table[44]), entry_name(table[45]), 3));
    assert(precedes_at(entry_name(table[45]), entry_name(table[46]), 5));
    assert(precedes_at(entry_name(table[46]), entry_name(table[47]), 5));
    assert(precedes_at(entry_name(table[47]), entry_name(table[48]), 5));
}

/// The names of `ENTITIES_LOWER_I` from entry 48 up to entry 56.
proof fn lemma_names_lower_i_from_48()
    ensures
        names_in_order(ENTITIES_LOWER_I@, 'i' as u8, 48, 56),
{
    broadcast use is_ascii_spec_bytes;

    reveal(precedes);
    let table = ENTITIES_LOWER_I@;
    reveal_strlit("&isins;");
    assert(is_ascii("&isins;"));
    reveal_strlit("&isinsv;");
    assert(is_ascii("&isinsv;"));
    reveal_strlit("&isinv;");
    assert(is_ascii("&isinv;"));
    reveal_strlit("&it;");
    assert(is_ascii("&it;"));
    reveal_strlit("&itilde;");
    assert(is_ascii("&itilde;"));
    reveal_strlit("&iukcy;");
    assert(is_ascii("&iukcy;"));
    reveal_strlit("&iuml");
    assert(is_ascii("&iuml"));
    reveal_strlit("&iuml;");
    assert(is_ascii("&iuml;"));
    assert(precedes_at(entry_name(table[48]), entry_name(table[49]), 6));
    assert(precedes_at(entry_name(table[49]), entry_name(table[50]), 5));
    assert(precedes_at(entry_name(table[50]), entry_name(table[51]), 2));
    assert(precedes_at(entry_name(table[51]), entry_name(table[52]), 3));
    assert(precedes_at(entry_name(table[52]), entry_name(table[53]), 2));
    assert(precedes_at(entry_name(table[53]), entry_name(table[54]), 3));
    assert(precedes_at(entry_name(table[54]), entry_name(table[55]), 5));
}

/// Every name in `ENTITIES_LOWER_I` starts with `&i` and has 3 to 33 bytes, and
/// each name comes before the next in the order of byte strings.
pub proof fn lemma_names_lower_i()
    ensures
        names_start_with(ENTITIES_LOWER_I@, 'i' as u8),
        names_ascend(ENTITIES_LOWER_I@),
{
    lemma_names_lower_i_from_0();
    lemma_names_lower_i_from_8();
    lemma_names_lower_i_from_16();
    lemma_names_lower_i_from_24();
    lemma_names_lower_i_from_32();
    lemma_names_lower_i_from_40();
    lemma_names_lower_i_from_48();
}

} // verus!
