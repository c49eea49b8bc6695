//! The named character references that start with `U` or `u`.

use crate::entities::{names_in_order, names_start_with};
use crate::search::{entry_name, names_ascend, precedes, precedes_at, Entry};
use vstd::prelude::*;
use vstd::string::{is_ascii, is_ascii_spec_bytes};

verus! {

/// The named character references that start with `&U`, each with its
/// expansion, in the order of byte strings.
pub const ENTITIES_UPPER_U: [Entry; 40] = [
    ("&Uacute", "\u{da}"),
    ("&Uacute;", "\u{da}"),
    ("&Uarr;", "\u{219f}"),
    ("&Uarrocir;", "\u{2949}"),
    ("&Ubrcy;", "\u{40e}"),
    ("&Ubreve;", "\u{16c}"),
    ("&Ucirc", "\u{db}"),
    ("&Ucirc;", "\u{db}"),
    ("&Ucy;", "\u{423}"),
    ("&Udblac;", "\u{170}"),
    ("&Ufr;", "\u{1d518}"),
    ("&Ugrave", "\u{d9}"),
    ("&Ugrave;", "\u{d9}"),
    ("&Umacr;", "\u{16a}"),
    ("&UnderBar;", "_"),
    ("&UnderBrace;", "\u{23df}"),
    ("&UnderBracket;", "\u{23b5}"),
    ("&UnderParenthesis;", "\u{23dd}"),
    ("&Union;", "\u{22c3}"),
    ("&UnionPlus;", "\u{228e}"),
    ("&Uogon;", "\u{172}"),
    ("&Uopf;", "\u{1d54c}"),
    ("&UpArrow;", "\u{2191}"),
    ("&UpArrowBar;", "\u{2912}"),
    ("&UpArrowDownArrow;", "\u{21c5}"),
    ("&UpDownArrow;", "\u{2195}"),
    ("&UpEquilibrium;", "\u{296e}"),
    ("&UpTee;", "\u{22a5}"),
    ("&UpTeeArrow;", "\u{21a5}"),
    ("&Uparrow;", "\u{21d1}"),
    ("&Updownarrow;", "\u{21d5}"),
    ("&UpperLeftArrow;", "\u{2196}"),
    ("&UpperRightArrow;", "\u{2197}"),
    ("&Upsi;", "\u{3d2}"),
    ("&Upsilon;", "\u{3a5}"),
    ("&Uring;", "\u{16e}"),
    ("&Uscr;", "\u{1d4b0}"),
    ("&Utilde;", "\u{168}"),
    ("&Uuml", "\u{dc}"),
    ("&Uuml;", "\u{dc}"),
];

/// The named character references that start with `&u`, each with its
/// expansion, in the order of byte strings.
pub const ENTITIES_LOWER_U: [Entry; 52] = [
    ("&uArr;", "\u{21d1}"),
    ("&uHar;", "\u{2963}"),
    ("&uacute", "\u{fa}"),
    ("&uacute;", "\u{fa}"),
    ("&uarr;", "\u{2191}"),
    ("&ubrcy;", "\u{45e}"),
    ("&ubreve;", "\u{16d}"),
    ("&ucirc", "\u{fb}"),
    ("&ucirc;", "\u{fb}"),
    ("&ucy;", "\u{443}"),
    ("&udarr;", "\u{21c5}"),
    ("&udblac;", "\u{171}"),
    ("&udhar;", "\u{296e}"),
    ("&ufisht;", "\u{297e}"),
    ("&ufr;", "\u{1d532}"),
    ("&ugrave", "\u{f9}"),
    ("&ugrave;", "\u{f9}"),
    ("&uharl;", "\u{21bf}"),
    ("&uharr;", "\u{21be}"),
    ("&uhblk;", "\u{2580}"),
    ("&ulcorn;", "\u{231c}"),
    ("&ulcorner;", "\u{231c}"),
    ("&ulcrop;", "\u{230f}"),
    ("&ultri;", "\u{25f8}"),
    ("&umacr;", "\u{16b}"),
    ("&uml", "\u{a8}"),
    ("&uml;", "\u{a8}"),
    ("&uogon;", "\u{173}"),
    ("&uopf;", "\u{1d566}"),
    ("&uparrow;", "\u{2191}"),
    ("&updownarrow;", "\u{2195}"),
    ("&upharpoonleft;", "\u{21bf}"),
    ("&upharpoonright;", "\u{21be}"),
    ("&uplus;", "\u{228e}"),
    ("&upsi;", "\u{3c5}"),
    ("&upsih;", "\u{3d2}"),
    ("&upsilon;", "\u{3c5}"),
    ("&upuparrows;", "\u{21c8}"),
    ("&urcorn;", "\u{231d}"),
    ("&urcorner;", "\u{231d}"),
    ("&urcrop;", "\u{230e}"),
    ("&uring;", "\u{16f}"),
    ("&urtri;", "\u{25f9}"),
    ("&uscr;", "\u{1d4ca}"),
    ("&utdot;", "\u{22f0}"),
    ("&utilde;", "\u{169}"),
    ("&utri;", "\u{25b5}"),
    ("&utrif;", "\u{25b4}"),
    ("&uuarr;", "\u{21c8}"),
    ("&uuml", "\u{fc}"),
    ("&uuml;", "\u{fc}"),
    ("&uwangle;", "\u{29a7}"),
];

/// The names of `ENTITIES_UPPER_U` from entry 0 up to entry 8.
proof fn lemma_names_upper_u_from_0()
    ensures
        names_in_order(ENTITIES_UPPER_U@, 'U' as u8, 0, 8),
{
    broadcast use is_ascii_spec_bytes;

    reveal(precedes);
    let table = ENTITIES_UPPER_U@;
    reveal_strlit("&Uacute");
    assert(is_ascii("&Uacute"));
    reveal_strlit("&Uacute;");
    assert(is_ascii("&Uacute;"));
    reveal_strlit("&Uarr;");
    assert(is_ascii("&Uarr;"));
    reveal_strlit("&Uarrocir;");
    assert(is_ascii("&Uarrocir;"));
    reveal_strlit("&Ubrcy;");
    assert(is_ascii("&Ubrcy;"));
    reveal_strlit("&Ubreve;");
    assert(is_ascii("&Ubreve;"));
    reveal_strlit("&Ucirc");
    assert(is_ascii("&Ucirc"));
    reveal_strlit("&Ucirc;");
    assert(is_ascii("&Ucirc;"));
    reveal_strlit("&Ucy;");
    assert(is_ascii("&Ucy;"));
    assert(precedes_at(entry_name(table[0]), entry_name(table[1]), 7));
    assert(precedes_at(entry_name(table[1]), entry_name(table[2]), 3));
    assert(precedes_at(entry_name(table[2]), entry_name(table[3]), 5));
    assert(precedes_at(entry_name(table[3]), entry_name(table[4]), 2));
    assert(precedes_at(entry_name(table[4]), entry_name(table[5]), 4));
    assert(precedes_at(entry_name(table[5]), entry_name(table[6]), 2));
    assert(precedes_at(entry_name(table[6]), entry_name(table[7]), 6));
    assert(precedes_at(entry_name(table[7]), entry_name(table[8]), 3));
}

/// The names of `ENTITIES_UPPER_U` from entry 8 up to entry 16.
proof fn lemma_names_upper_u_from_8()
    ensures
        names_in_order(ENTITIES_UPPER_U@, 'U' as u8, 8, 16),
{
    broadcast use is_ascii_spec_bytes;

    reveal(precedes);
    let table = ENTITIES_UPPER_U@;
    reveal_strlit("&Ucy;");
    assert(is_ascii("&Ucy;"));
    reveal_strlit("&Udblac;");
    assert(is_ascii("&Udblac;"));
    reveal_strlit("&Ufr;");
    assert(is_ascii("&Ufr;"));
    reveal_strlit("&Ugrave");
    assert(is_ascii("&Ugrave"));
    reveal_strlit("&Ugrave;");
    assert(is_ascii("&Ugrave;"));
    reveal_strlit("&Umacr;");
    assert(is_ascii("&Umacr;"));
    reveal_strlit("&UnderBar;");
    assert(is_ascii("&UnderBar;"));
    reveal_strlit("&UnderBrace;");
    assert(is_ascii("&UnderBrace;"));
    reveal_strlit("&UnderBracket;");
    assert(is_ascii("&UnderBracket;"));
    assert(precedes_at(entry_name(table[8]), entry_name(table[9]), 2));
    assert(precedes_at(entry_name(table[9]), entry_name(table[10]), 2));
    assert(precedes_at(entry_name(table[10]), entry_name(table[11]), 2));
    assert(precedes_at(entry_name(table[11]), entry_name(table[12]), 7));
    assert(precedes_at(entry_name(table[12]), entry_name(table[13]), 2));
    assert(precedes_at(entry_name(table[13]), entry_name(table[14]), 2));
    assert(precedes_at(entry_name(table[14]), entry_name(table[15]), 7));
    assert(precedes_at(entry_name(table[15]), entry_name(table[16]), 10));
}

/// The names of `ENTITIES_UPPER_U` from entry 16 up to entry 24.
proof fn lemma_names_upper_u_from_16()
    ensures
        names_in_order(ENTITIES_UPPER_U@, 'U' as u8, 16, 24),
{
    broadcast use is_ascii_spec_bytes;

    reveal(precedes);
    let table = ENTITIES_UPPER_U@;
    reveal_strlit("&UnderBracket;");
    assert(is_ascii("&UnderBracket;"));
    reveal_strlit("&UnderParenthesis;");
    assert(is_ascii("&UnderParenthesis;"));
    reveal_strlit("&Union;");
    assert(is_ascii("&Union;"));
    reveal_strlit("&UnionPlus;");
    assert(is_ascii("&UnionPlus;"));
    reveal_strlit("&Uogon;");
    assert(is_ascii("&Uogon;"));
    reveal_strlit("&Uopf;");
    assert(is_ascii("&Uopf;"));
    reveal_strlit("&UpArrow;");
    assert(is_ascii("&UpArrow;"));
    reveal_strlit("&UpArrowBar;");
    assert(is_ascii("&UpArrowBar;"));
    reveal_strlit("&UpArrowDownArrow;");
    assert(is_ascii("&UpArrowDownArrow;"));
    assert(precedes_at(entry_name(table[16]), entry_name(table[17]), 6));
    assert(precedes_at(entry_name(table[17]), entry_name(table[18]), 3));
    assert(precedes_at(entry_name(table[18]), entry_name(table[19]), 6));
    assert(precedes_at(entry_name(table[19]), entry_name(table[20]), 2));
    assert(precedes_at(entry_name(table[20]), entry_name(table[21]), 3));
    assert(precedes_at(entry_name(table[21]), entry_name(table[22]), 2));
    assert(precedes_at(entry_name(table[22]), entry_name(table[23]), 8));
    assert(precedes_at(entry_name(table[23]), entry_name(table[24]), 8));
}

/// The names of `ENTITIES_UPPER_U` from entry 24 up to entry 32.
proof fn lemma_names_upper_u_from_24()
    ensures
        names_in_order(ENTITIES_UPPER_U@, 'U' as u8, 24, 32),
{
    broadcast use is_ascii_spec_bytes;

    reveal(precedes);
    let table = ENTITIES_UPPER_U@;
    reveal_strlit("&UpArrowDownArrow;");
    assert(is_ascii("&UpArrowDownArrow;"));
    reveal_strlit("&UpDownArrow;");
    assert(is_ascii("&UpDownArrow;"));
    reveal_strlit("&UpEquilibrium;");
    assert(is_ascii("&UpEquilibrium;"));
    reveal_strlit("&UpTee;");
    assert(is_ascii("&UpTee;"));
    reveal_strlit("&UpTeeArrow;");
    assert(is_ascii("&UpTeeArrow;"));
    reveal_strlit("&Uparrow;");
    assert(is_ascii("&Uparrow;"));
    reveal_strlit("&Updownarrow;");
    assert(is_ascii("&Updownarrow;"));
    reveal_strlit("&UpperLeftArrow;");
    assert(is_ascii("&UpperLeftArrow;"));
    reveal_strlit("&UpperRightArrow;");
    assert(is_ascii("&UpperRightArrow;"));
    assert(precedes_at(entry_name(table[24]), entry_name(table[25]), 3));
    assert(precedes_at(entry_name(table[25]), entry_name(table[26]), 3));
    assert(precedes_at(entry_name(table[26]), entry_name(table[27]), 3));
    assert(precedes_at(entry_name(table[27]), entry_name(table[28]), 6));
    assert(precedes_at(entry_name(table[28]), entry_name(table[29]), 3));
    assert(precedes_at(entry_name(table[29]), entry_name(table[30]), 3));
    assert(precedes_at(entry_name(table[30]), entry_name(table[31]), 3));
    assert(precedes_at(entry_name(table[31]), entry_name(table[32]), 6));
}

/// The names of `ENTITIES_UPPER_U` from entry 32 up to entry 40.
proof fn lemma_names_upper_u_from_32()
    ensures
        names_in_order(ENTITIES_UPPER_U@, 'U' as u8, 32, 40),
{
    broadcast use is_ascii_spec_bytes;

    reveal(precedes);
    let table = ENTITIES_UPPER_U@;
    reveal_strlit("&UpperRightArrow;");
    assert(is_ascii("&UpperRightArrow;"));
    reveal_strlit("&Upsi;");
    assert(is_ascii("&Upsi;"));
    reveal_strlit("&Upsilon;");
    assert(is_ascii("&Upsilon;"));
    reveal_strlit("&Uring;");
    assert(is_ascii("&Uring;"));
    reveal_strlit("&Uscr;");
    assert(is_ascii("&Uscr;"));
    reveal_strlit("&Utilde;");
    assert(is_ascii("&Utilde;"));
    reveal_strlit("&Uuml");
    assert(is_ascii("&Uuml"));
    reveal_strlit("&Uuml;");
    assert(is_ascii("&Uuml;"));
    assert(precedes_at(entry_name(table[32]), entry_name(table[33]), 3));
    assert(precedes_at(entry_name(table[33]), entry_name(table[34]), 5));
    assert(precedes_at(entry_name(table[34]), entry_name(table[35]), 2));
    assert(precedes_at(entry_name(table[35]), entry_name(table[36]), 2));
    assert(precedes_at(entry_name(table[36]), entry_name(table[37]), 2));
    assert(precedes_at(entry_name(table[37]), entry_name(table[38]), 2));
    assert(precedes_at(entry_name(table[38]), entry_name(table[39]), 5));
}

/// Every name in `ENTITIES_UPPER_U` starts with `&U` and has 3 to 33 bytes, and
/// each name comes before the next in the order of byte strings.
pub proof fn lemma_names_upper_u()
    ensures
        names_start_with(ENTITIES_UPPER_U@, 'U' as u8),
        names_ascend(ENTITIES_UPPER_U@),
{
    lemma_names_upper_u_from_0();
    lemma_names_upper_u_from_8();
    lemma_names_upper_u_from_16();
    lemma_names_upper_u_from_24();
    lemma_names_upper_u_from_32();
}

/// The names of `ENTITIES_LOWER_U` from entry 0 up to entry 8.
proof fn lemma_names_lower_u_from_0()
    ensures
        names_in_order(ENTITIES_LOWER_U@, 'u' as u8, 0, 8),
{
    broadcast use is_ascii_spec_bytes;

    reveal(precedes);
    let table = ENTITIES_LOWER_U@;
    reveal_strlit("&uArr;");
    assert(is_ascii("&uArr;"));
    reveal_strlit("&uHar;");
    assert(is_ascii("&uHar;"));
    reveal_strlit("&uacute");
    assert(is_ascii("&uacute"));
    reveal_strlit("&uacute;");
    assert(is_ascii("&uacute;"));
    reveal_strlit("&uarr;");
    assert(is_ascii("&uarr;"));
    reveal_strlit("&ubrcy;");
    assert(is_ascii("&ubrcy;"));
    reveal_strlit("&ubreve;");
    assert(is_ascii("&ubreve;"));
    reveal_strlit("&ucirc");
    assert(is_ascii("&ucirc"));
    reveal_strlit("&ucirc;");
    assert(is_ascii("&ucirc;"));
    assert(precedes_at(entry_name(table[0]), entry_name(table[1]), 2));
    assert(precedes_at(entry_name(table[1]), entry_name(table[2]), 2));
    assert(precedes_at(entry_name(table[2]), entry_name(table[3]), 7));
    assert(precedes_at(entry_name(table[3]), entry_name(table[4]), 3));
    assert(precedes_at(entry_name(table[4]), entry_name(table[5]), 2));
    assert(precedes_at(entry_name(table[5]), entry_name(table[6]), 4));
    assert(precedes_at(entry_name(table[6]), entry_name(table[7]), 2));
    assert(precedes_at(entry_name(table[7]), entry_name(table[8]), 6));
}

/// The names of `ENTITIES_LOWER_U` from entry 8 up to entry 16.
proof fn lemma_names_lower_u_from_8()
    ensures
        names_in_order(ENTITIES_LOWER_U@, 'u' as u8, 8, 16),
{
    broadcast use is_ascii_spec_bytes;

    reveal(precedes);
    let table = ENTITIES_LOWER_U@;
    reveal_strlit("&ucirc;");
    assert(is_ascii("&ucirc;"));
    reveal_strlit("&ucy;");
    assert(is_ascii("&ucy;"));
    reveal_strlit("&udarr;");
    assert(is_ascii("&udarr;"));
    reveal_strlit("&udblac;");
    assert(is_ascii("&udblac;"));
    reveal_strlit("&udhar;");
    assert(is_ascii("&udhar;"));
    reveal_strlit("&ufisht;");
    assert(is_ascii("&ufisht;"));
    reveal_strlit("&ufr;");
    assert(is_ascii("&ufr;"));
    reveal_strlit("&ugrave");
    assert(is_ascii("&ugrave"));
    reveal_strlit("&ugrave;");
    assert(is_ascii("&ugrave;"));
    assert(precedes_at(entry_name(table[8]), entry_name(table[9]), 3));
    assert(precedes_at(entry_name(table[9]), entry_name(table[10]), 2));
    assert(precedes_at(entry_name(table[10]), entry_name(table[11]), 3));
    assert(precedes_at(entry_name(table[11]), entry_name(table[12]), 3));
    assert(precedes_at(entry_name(table[12]), entry_name(table[13]), 2));
    assert(precedes_at(entry_name(table[13]), entry_name(table[14]), 3));
    assert(precedes_at(entry_name(table[14]), entry_name(table[15]), 2));
    assert(precedes_at(entry_name(table[15]), entry_name(table[16]), 7));
}

/// The names of `ENTITIES_LOWER_U` from entry 16 up to entry 24.
proof fn lemma_names_lower_u_from_16()
    ensures
        names_in_order(ENTITIES_LOWER_U@, 'u' as u8, 16, 24),
{
    broadcast use is_ascii_spec_bytes;

    reveal(precedes);
    let table = ENTITIES_LOWER_U@;
    reveal_strlit("&ugrave;");
    assert(is_ascii("&ugrave;"));
    reveal_strlit("&uharl;");
    assert(is_ascii("&uharl;"));
    reveal_strlit("&uharr;");
    assert(is_ascii("&uharr;"));
    reveal_strlit("&uhblk;");
    assert(is_ascii("&uhblk;"));
    reveal_strlit("&ulcorn;");
    assert(is_ascii("&ulcorn;"));
    reveal_strlit("&ulcorner;");
    assert(is_ascii("&ulcorner;"));
    reveal_strlit("&ulcrop;");
    assert(is_ascii("&ulcrop;"));
    reveal_strlit("&ultri;");
    assert(is_ascii("&ultri;"));
    reveal_strlit("&umacr;");
    assert(is_ascii("&umacr;"));
    assert(precedes_at(entry_name(table[16]), entry_name(table[17]), 2));
    assert(precedes_at(entry_name(table[17]), entry_name(table[18]), 5));
    assert(precedes_at(entry_name(table[18]), entry_name(table[19]), 3));
    assert(precedes_at(entry_name(table[19]), entry_name(table[20]), 2));
    assert(precedes_at(entry_name(table[20]), entry_name(table[21]), 7));
    assert(precedes_at(entry_name(table[21]), entry_name(table[22]), 4));
    assert(precedes_at(entry_name(table[22]), entry_name(table[23]), 3));
    assert(precedes_at(entry_name(table[23]), entry_name(table[24]), 2));
}

/// The names of `ENTITIES_LOWER_U` from entry 24 up to entry 32.
proof fn lemma_names_lower_u_from_24()
    ensures
        names_in_order(ENTITIES_LOWER_U@, 'u' as u8, 24, 32),
{
    broadcast use is_ascii_spec_bytes;

    reveal(precedes);
    let table = ENTITIES_LOWER_U@;
    reveal_strlit("&umacr;");
    assert(is_ascii("&umacr;"));
    reveal_strlit("&uml");
    assert(is_ascii("&uml"));
    reveal_strlit("&uml;");
    assert(is_ascii("&uml;"));
    reveal_strlit("&uogon;");
    assert(is_ascii("&uogon;"));
    reveal_strlit("&uopf;");
    assert(is_ascii("&uopf;"));
    reveal_strlit("&uparrow;");
    assert(is_ascii("&uparrow;"));
    reveal_strlit("&updownarrow;");
    assert(is_ascii("&updownarrow;"));
    reveal_strlit("&upharpoonleft;");
    assert(is_ascii("&upharpoonleft;"));
    reveal_strlit("&upharpoonright;");
    assert(is_ascii("&upharpoonright;"));
    assert(precedes_at(entry_name(table[24]), entry_name(table[25]), 3));
    assert(precedes_at(entry_name(table[25]), entry_name(table[26]), 4));
    assert(precedes_at(entry_name(table[26]), entry_name(table[27]), 2));
    assert(precedes_at(entry_name(table[27]), entry_name(table[28]), 3));
    assert(precedes_at(entry_name(table[28]), entry_name(table[29]), 2));
    assert(precedes_at(entry_name(table[29]), entry_name(table[30]), 3));
    assert(precedes_at(entry_name(table[30]), entry_name(table[31]), 3));
    assert(precedes_at(entry_name(table[31]), entry_name(table[32]), 10));
}

/// The names of `ENTITIES_LOWER_U` from entry 32 up to entry 40.
proof fn lemma_names_lower_u_from_32()
    ensures
        names_in_order(ENTITIES_LOWER_U@, 'u' as u8, 32, 40),
{
    broadcast use is_ascii_spec_bytes;

    reveal(precedes);
    let table = ENTITIES_LOWER_U@;
    reveal_strlit("&upharpoonright;");
    assert(is_ascii("&upharpoonright;"));
    reveal_strlit("&uplus;");
    assert(is_ascii("&uplus;"));
    reveal_strlit("&upsi;");
    assert(is_ascii("&upsi;"));
    reveal_strlit("&upsih;");
    assert(is_ascii("&upsih;"));
    reveal_strlit("&upsilon;");
    assert(is_ascii("&upsilon;"));
    reveal_strlit("&upuparrows;");
    assert(is_ascii("&upuparrows;"));
    reveal_strlit("&urcorn;");
    assert(is_ascii("&urcorn;"));
    reveal_strlit("&urcorner;");
    assert(is_ascii("&urcorner;"));
    reveal_strlit("&urcrop;");
    assert(is_ascii("&urcrop;"));
    assert(precedes_at(entry_name(table[32]), entry_name(table[33]), 3));
    assert(precedes_at(entry_name(table[33]), entry_name(table[34]), 3));
    assert(precedes_at(entry_name(table[34]), entry_name(table[35]), 5));
    assert(precedes_at(entry_name(table[35]), entry_name(table[36]), 5));
    assert(precedes_at(entry_name(table[36]), entry_name(table[37]), 3));
    assert(precedes_at(entry_name(table[37]), entry_name(table[38]), 2));
    assert(precedes_at(entry_name(table[38]), entry_name(table[39]), 7));
    assert(precedes_at(entry_name(table[39]), entry_name(table[40]), 4));
}

/// The names of `ENTITIES_LOWER_U` from entry 40 up to entry 48.
proof fn lemma_names_lower_u_from_40()
    ensures
        names_in_order(ENTITIES_LOWER_U@, 'u' as u8, 40, 48),
{
    broadcast use is_ascii_spec_bytes;

    reveal(precedes);
    let table = ENTITIES_LOWER_U@;
    reveal_strlit("&urcrop;");
    assert(is_ascii("&urcrop;"));
    reveal_strlit("&uring;");
    assert(is_ascii("&uring;"));
    reveal_strlit("&urtri;");
    assert(is_ascii("&urtri;"));
    reveal_strlit("&uscr;");
    assert(is_ascii("&uscr;"));
    reveal_strlit("&utdot;");
    assert(is_ascii("&utdot;"));
    reveal_strlit("&utilde;");
    assert(is_ascii("&utilde;"));
    reveal_strlit("&utri;");
    assert(is_ascii("&utri;"));
    reveal_strlit("&utrif;");
    assert(is_ascii("&utrif;"));
    reveal_strlit("&uuarr;");
    assert(is_ascii("&uuarr;"));
    assert(precedes_at(entry_name(table[40]), entry_name(table[41]), 3));
    assert(precedes_at(entry_name(table[41]), entry_name(table[42]), 3));
    assert(precedes_at(entry_name(table[42]), entry_name(table[43]), 2));
    assert(precedes_at(entry_name(table[43]), entry_name(table[44]), 2));
    assert(precedes_at(entry_name(table[44]), entry_name(table[45]), 3));
    assert(precedes_at(entry_name(table[45]), entry_name(table[46]), 3));
    assert(precedes_at(entry_name(table[46]), entry_name(table[47]), 5));
    assert(precedes_at(entry_name(table[47]), entry_name(table[48]), 2));
}

/// The names of `ENTITIES_LOWER_U` from entry 48 up to entry 52.
proof fn lemma_names_lower_u_from_48()
    ensures
        names_in_order(ENTITIES_LOWER_U@, 'u' as u8, 48, 52),
{
    broadcast use is_ascii_spec_bytes;

    reveal(precedes);
    let table = ENTITIES_LOWER_U@;
    reveal_strlit("&uuarr;");
    assert(is_ascii("&uuarr;"));
    reveal_strlit("&uuml");
    assert(is_ascii("&uuml"));
    reveal_strlit("&uuml;");
    assert(is_ascii("&uuml;"));
    reveal_strlit("&uwangle;");
    assert(is_ascii("&uwangle;"));
    assert(precedes_at(entry_name(table[48]), entry_name(table[49]), 3));
    assert(precedes_at(entry_name(table[49]), entry_name(table[50]), 5));
    assert(precedes_at(entry_name(table[50]), entry_name(table[51]), 2));
}

/// Every name in `ENTITIES_LOWER_U` starts with `&u` and has 3 to 33 bytes, and
/// each name comes before the next in the order of byte strings.
pub proof fn lemma_names_lower_u()
    ensures
        names_start_with(ENTITIES_LOWER_U@, 'u' as u8),
        names_ascend(ENTITIES_LOWER_U@),
{
    lemma_names_lower_u_from_0();
    lemma_names_lower_u_from_8();
    lemma_names_lower_u_from_16();
    lemma_names_lower_u_from_24();
    lemma_names_lower_u_from_32();
    lemma_names_lower_u_from_40();
    lemma_names_lower_u_from_48();
}

} // verus!
