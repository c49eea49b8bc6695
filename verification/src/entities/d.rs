//! The named character references that start with `D` or `d`.

use crate::entities::{names_in_order, names_start_with};
use crate::search::{entry_name, names_ascend, precedes, precedes_at, Entry};
use vstd::prelude::*;
use vstd::string::{is_ascii, is_ascii_spec_bytes};

verus! {

/// The named character references that start with `&D`, each with its
/// expansion, in the order of byte strings.
pub const ENTITIES_UPPER_D: [Entry; 54] = [
    ("&DD;", "\u{2145}"),
    ("&DDotrahd;", "\u{2911}"),
    ("&DJcy;", "\u{402}"),
    ("&DScy;", "\u{405}"),
    ("&DZcy;", "\u{40f}"),
    ("&Dagger;", "\u{2021}"),
    ("&Darr;", "\u{21a1}"),
    ("&Dashv;", "\u{2ae4}"),
    ("&Dcaron;", "\u{10e}"),
    ("&Dcy;", "\u{414}"),
    ("&Del;", "\u{2207}"),
    ("&Delta;", "\u{394}"),
    ("&Dfr;", "\u{1d507}"),
    ("&DiacriticalAcute;", "\u{b4}"),
    ("&DiacriticalDot;", "\u{2d9}"),
    ("&DiacriticalDoubleAcute;", "\u{2dd}"),
    ("&DiacriticalGrave;", "`"),
    ("&DiacriticalTilde;", "\u{2dc}"),
    ("&Diamond;", "\u{22c4}"),
    ("&DifferentialD;", "\u{2146}"),
    ("&Dopf;", "\u{1d53b}"),
    ("&Dot;", "\u{a8}"),
    ("&DotDot;", "\u{20dc}"),
    ("&DotEqual;", "\u{2250}"),
    ("&DoubleContourIntegral;", "\u{222f}"),
    ("&DoubleDot;", "\u{a8}"),
    ("&DoubleDownArrow;", "\u{21d3}"),
    ("&DoubleLeftArrow;", "\u{21d0}"),
    ("&DoubleLeftRightArrow;", "\u{21d4}"),
    ("&DoubleLeftTee;", "\u{2ae4}"),
    ("&DoubleLongLeftArrow;", "\u{27f8}"),
    ("&DoubleLongLeftRightArrow;", "\u{27fa}"),
    ("&DoubleLongRightArrow;", "\u{27f9}"),
    ("&DoubleRightArrow;", "\u{21d2}"),
    ("&DoubleRightTee;", "\u{22a8}"),
    ("&DoubleUpArrow;", "\u{21d1}"),
    ("&DoubleUpDownArrow;", "\u{21d5}"),
    ("&DoubleVerticalBar;", "\u{2225}"),
    ("&DownArrow;", "\u{2193}"),
    ("&DownArrowBar;", "\u{2913}"),
    ("&DownArrowUpArrow;", "\u{21f5}"),
    ("&DownBreve;", "\u{311}"),
    ("&DownLeftRightVector;", "\u{2950}"),
    ("&DownLeftTeeVector;", "\u{295e}"),
    ("&DownLeftVector;", "\u{21bd}"),
    ("&DownLeftVectorBar;", "\u{2956}"),
    ("&DownRightTeeVector;", "\u{295f}"),
    ("&DownRightVector;", "\u{21c1}"),
    ("&DownRightVectorBar;", "\u{2957}"),
    ("&DownTee;", "\u{22a4}"),
    ("&DownTeeArrow;", "\u{21a7}"),
    ("&Downarrow;", "\u{21d3}"),
    ("&Dscr;", "\u{1d49f}"),
    ("&Dstrok;", "\u{110}"),
];

/// The named character references that start with `&d`, each with its
/// expansion, in the order of byte strings.
pub const ENTITIES_LOWER_D: [Entry; 66] = [
    ("&dArr;", "\u{21d3}"),
    ("&dHar;", "\u{2965}"),
    ("&dagger;", "\u{2020}"),
    ("&daleth;", "\u{2138}"),
    ("&darr;", "\u{2193}"),
    ("&dash;", "\u{2010}"),
    ("&dashv;", "\u{22a3}"),
    ("&dbkarow;", "\u{290f}"),
    ("&dblac;", "\u{2dd}"),
    ("&dcaron;", "\u{10f}"),
    ("&dcy;", "\u{434}"),
    ("&dd;", "\u{2146}"),
    ("&ddagger;", "\u{2021}"),
    ("&ddarr;", "\u{21ca}"),
    ("&ddotseq;", "\u{2a77}"),
    ("&deg", "\u{b0}"),
    ("&deg;", "\u{b0}"),
    ("&delta;", "\u{3b4}"),
    ("&demptyv;", "\u{29b1}"),
    ("&dfisht;", "\u{297f}"),
    ("&dfr;", "\u{1d521}"),
    ("&dharl;", "\u{21c3}"),
    ("&dharr;", "\u{21c2}"),
    ("&diam;", "\u{22c4}"),
    ("&diamond;", "\u{22c4}"),
    ("&diamondsuit;", "\u{2666}"),
    ("&diams;", "\u{2666}"),
    ("&die;", "\u{a8}"),
    ("&digamma;", "\u{3dd}"),
    ("&disin;", "\u{22f2}"),
    ("&div;", "\u{f7}"),
    ("&divide", "\u{f7}"),
    ("&divide;", "\u{f7}"),
    ("&divideontimes;", "\u{22c7}"),
    ("&divonx;", "\u{22c7}"),
    ("&djcy;", "\u{452}"),
    ("&dlcorn;", "\u{231e}"),
    ("&dlcrop;", "\u{230d}"),
    ("&dollar;", "$"),
    ("&dopf;", "\u{1d555}"),
    ("&dot;", "\u{2d9}"),
    ("&doteq;", "\u{2250}"),
    ("&doteqdot;", "\u{2251}"),
    ("&dotminus;", "\u{2238}"),
    ("&dotplus;", "\u{2214}"),
    ("&dotsquare;", "\u{22a1}"),
    ("&doublebarwedge;", "\u{2306}"),
    ("&downarrow;", "\u{2193}"),
    ("&downdownarrows;", "\u{21ca}"),
    ("&downharpoonleft;", "\u{21c3}"),
    ("&downharpoonright;", "\u{21c2}"),
    ("&drbkarow;", "\u{2910}"),
    ("&drcorn;", "\u{231f}"),
    ("&drcrop;", "\u{230c}"),
    ("&dscr;", "\u{1d4b9}"),
    ("&dscy;", "\u{455}"),
    ("&dsol;", "\u{29f6}"),
    ("&dstrok;", "\u{111}"),
    ("&dtdot;", "\u{22f1}"),
    ("&dtri;", "\u{25bf}"),
    ("&dtrif;", "\u{25be}"),
    ("&duarr;", "\u{21f5}"),
    ("&duhar;", "\u{296f}"),
    ("&dwangle;", "\u{29a6}"),
    ("&dzcy;", "\u{45f}"),
    ("&dzigrarr;", "\u{27ff}"),
];

/// The names of `ENTITIES_UPPER_D` from entry 0 up to entry 8.
proof fn lemma_names_upper_d_from_0()
    ensures
        names_in_order(ENTITIES_UPPER_D@, 'D' as u8, 0, 8),
{
    broadcast use is_ascii_spec_bytes;

    reveal(precedes);
    let table = ENTITIES_UPPER_D@;
    reveal_strlit("&DD;");
    assert(is_ascii("&DD;"));
    reveal_strlit("&DDotrahd;");
    assert(is_ascii("&DDotrahd;"));
    reveal_strlit("&DJcy;");
    assert(is_ascii("&DJcy;"));
    reveal_strlit("&DScy;");
    assert(is_ascii("&DScy;"));
    reveal_strlit("&DZcy;");
    assert(is_ascii("&DZcy;"));
    reveal_strlit("&Dagger;");
    assert(is_ascii("&Dagger;"));
    reveal_strlit("&Darr;");
    assert(is_ascii("&Darr;"));
    reveal_strlit("&Dashv;");
    assert(is_ascii("&Dashv;"));
    reveal_strlit("&Dcaron;");
    assert(is_ascii("&Dcaron;"));
    assert(precedes_at(entry_name(table[0]), entry_name(table[1]), 3));
    assert(precedes_at(entry_name(table[1]), entry_name(table[2]), 2));
    assert(precedes_at(entry_name(table[2]), entry_name(table[3]), 2));
    assert(precedes_at(entry_name(table[3]), entry_name(table[4]), 2));
    assert(precedes_at(entry_name(table[4]), entry_name(table[5]), 2));
    assert(precedes_at(entry_name(table[5]), entry_name(table[6]), 3));
    assert(precedes_at(entry_name(table[6]), entry_name(table[7]), 3));
    assert(precedes_at(entry_name(table[7]), entry_name(table[8]), 2));
}

/// The names of `ENTITIES_UPPER_D` from entry 8 up to entry 16.
proof fn lemma_names_upper_d_from_8()
    ensures
        names_in_order(ENTITIES_UPPER_D@, 'D' as u8, 8, 16),
{
    broadcast use is_ascii_spec_bytes;

    reveal(precedes);
    let table = ENTITIES_UPPER_D@;
    reveal_strlit("&Dcaron;");
    assert(is_ascii("&Dcaron;"));
    reveal_strlit("&Dcy;");
    assert(is_ascii("&Dcy;"));
    reveal_strlit("&Del;");
    assert(is_ascii("&Del;"));
    reveal_strlit("&Delta;");
    assert(is_ascii("&Delta;"));
    reveal_strlit("&Dfr;");
    assert(is_ascii("&Dfr;"));
    reveal_strlit("&DiacriticalAcute;");
    assert(is_ascii("&DiacriticalAcute;"));
    reveal_strlit("&DiacriticalDot;");
    assert(is_ascii("&DiacriticalDot;"));
    reveal_strlit("&DiacriticalDoubleAcute;");
    assert(is_ascii("&DiacriticalDoubleAcute;"));
    reveal_strlit("&DiacriticalGrave;");
    assert(is_ascii("&DiacriticalGrave;"));
    assert(precedes_at(entry_name(table[8]), entry_name(table[9]), 3));
    assert(precedes_at(entry_name(table[9]), entry_name(table[10]), 2));
    assert(precedes_at(entry_name(table[10]), entry_name(table[11]), 4));
    assert(precedes_at(entry_name(table[11]), entry_name(table[12]), 2));
    assert(precedes_at(entry_name(table[12]), entry_name(table[13]), 2));
    assert(precedes_at(entry_name(table[13]), entry_name(table[14]), 12));
    assert(precedes_at(entry_name(table[14]), entry_name(table[15]), 14));
    assert(precedes_at(entry_name(table[15]), entry_name(table[16]), 12));
}

/// The names of `ENTITIES_UPPER_D` from entry 16 up to entry 24.
proof fn lemma_names_upper_d_from_16()
    ensures
        names_in_order(ENTITIES_UPPER_D@, 'D' as u8, 16, 24),
{
    broadcast use is_ascii_spec_bytes;

    reveal(precedes);
    let table = ENTITIES_UPPER_D@;
    reveal_strlit("&DiacriticalGrave;");
    assert(is_ascii("&DiacriticalGrave;"));
    reveal_strlit("&DiacriticalTilde;");
    assert(is_ascii("&DiacriticalTilde;"));
    reveal_strlit("&Diamond;");
    assert(is_ascii("&Diamond;"));
    reveal_strlit("&DifferentialD;");
    assert(is_ascii("&DifferentialD;"));
    reveal_strlit("&Dopf;");
    assert(is_ascii("&Dopf;"));
    reveal_strlit("&Dot;");
    assert(is_ascii("&Dot;"));
    reveal_strlit("&DotDot;");
    assert(is_ascii("&DotDot;"));
    reveal_strlit("&DotEqual;");
    assert(is_ascii("&DotEqual;"));
    reveal_strlit("&DoubleContourIntegral;");
    assert(is_ascii("&DoubleContourIntegral;"));
    assert(precedes_at(entry_name(table[16]), entry_name(table[17]), 12));
    assert(precedes_at(entry_name(table[17]), entry_name(table[18]), 4));
    assert(precedes_at(entry_name(table[18]), entry_name(table[19]), 3));
    assert(precedes_at(entry_name(table[19]), entry_name(table[20]), 2));
    assert(precedes_at(entry_name(table[20]), entry_name(table[21]), 3));
    assert(precedes_at(entry_name(table[21]), entry_name(table[22]), 4));
    assert(precedes_at(entry_name(table[22]), entry_name(table[23]), 4));
    assert(precedes_at(entry_name(table[23]), entry_name(table[24]), 3));
}

/// The names of `ENTITIES_UPPER_D` from entry 24 up to entry 32.
proof fn lemma_names_upper_d_from_24()
    ensures
        names_in_order(ENTITIES_UPPER_D@, 'D' as u8, 24, 32),
{
    broadcast use is_ascii_spec_bytes;

    reveal(precedes);
    let table = ENTITIES_UPPER_D@;
    reveal_strlit("&DoubleContourIntegral;");
    assert(is_ascii("&DoubleContourIntegral;"));
    reveal_strlit("&DoubleDot;");
    assert(is_ascii("&DoubleDot;"));
    reveal_strlit("&DoubleDownArrow;");
    assert(is_ascii("&DoubleDownArrow;"));
    reveal_strlit("&DoubleLeftArrow;");
    assert(is_ascii("&DoubleLeftArrow;"));
    reveal_strlit("&DoubleLeftRightArrow;");
    assert(is_ascii("&DoubleLeftRightArrow;"));
    reveal_strlit("&DoubleLeftTee;");
    assert(is_ascii("&DoubleLeftTee;"));
    reveal_strlit("&DoubleLongLeftArrow;");
    assert(is_ascii("&DoubleLongLeftArrow;"));
    reveal_strlit("&DoubleLongLeftRightArrow;");
    assert(is_ascii("&DoubleLongLeftRightArrow;"));
    reveal_strlit("&DoubleLongRightArrow;");
    assert(is_ascii("&DoubleLongRightArrow;"));
    assert(precedes_at(entry_name(table[24]), entry_name(table[25]), 7));
    assert(precedes_at(entry_name(table[25]), entry_name(table[26]), 9));
    assert(precedes_at(entry_name(table[26]), entry_name(table[27]), 7));
    assert(precedes_at(entry_name(table[27]), entry_name(table[28]), 11));
    assert(precedes_at(entry_name(table[28]), entry_name(table[29]), 11));
    assert(precedes_at(entry_name(table[29]), entry_name(table[30]), 8));
    assert(precedes_at(entry_name(table[30]), entry_name(table[31]), 15));
    assert(precedes_at(entry_name(table[31]), entry_name(table[32]), 11));
}

/// The names of `ENTITIES_UPPER_D` from entry 32 up to entry 40.
proof fn lemma_names_upper_d_from_32()
    ensures
        names_in_order(ENTITIES_UPPER_D@, 'D' as u8, 32, 40),
{
    broadcast use is_ascii_spec_bytes;

    reveal(precedes);
    let table = ENTITIES_UPPER_D@;
    reveal_strlit("&DoubleLongRightArrow;");
    assert(is_ascii("&DoubleLongRightArrow;"));
    reveal_strlit("&DoubleRightArrow;");
    assert(is_ascii("&DoubleRightArrow;"));
    reveal_strlit("&DoubleRightTee;");
    assert(is_ascii("&DoubleRightTee;"));
    reveal_strlit("&DoubleUpArrow;");
    assert(is_ascii("&DoubleUpArrow;"));
    reveal_strlit("&DoubleUpDownArrow;");
    assert(is_ascii("&DoubleUpDownArrow;"));
    reveal_strlit("&DoubleVerticalBar;");
    assert(is_ascii("&DoubleVerticalBar;"));
    reveal_strlit("&DownArrow;");
    assert(is_ascii("&DownArrow;"));
    reveal_strlit("&DownArrowBar;");
    assert(is_ascii("&DownArrowBar;"));
    reveal_strlit("&DownArrowUpArrow;");
    assert(is_ascii("&DownArrowUpArrow;"));
    assert(precedes_at(entry_name(table[32]), entry_name(table[33]), 7));
    assert(precedes_at(entry_name(table[33]), entry_name(table[34]), 12));
    assert(precedes_at(entry_name(table[34]), entry_name(table[35]), 7));
    assert(precedes_at(entry_name(table[35]), entry_name(table[36]), 9));
    assert(precedes_at(entry_name(table[36]), entry_name(table[37]), 7));
    assert(precedes_at(entry_name(table[37]), entry_name(table[38]), 3));
    assert(precedes_at(entry_name(table[38]), entry_name(table[39]), 10));
    assert(precedes_at(entry_name(table[39]), entry_name(table[40]), 10));
}

/// The names of `ENTITIES_UPPER_D` from entry 40 up to entry 48.
proof fn lemma_names_upper_d_from_40()
    ensures
        names_in_order(ENTITIES_UPPER_D@, 'D' as u8, 40, 48),
{
    broadcast use is_ascii_spec_bytes;

    reveal(precedes);
    let table = ENTITIES_UPPER_D@;
    reveal_strlit("&DownArrowUpArrow;");
    assert(is_ascii("&DownArrowUpArrow;"));
    reveal_strlit("&DownBreve;");
    assert(is_ascii("&DownBreve;"));
    reveal_strlit("&DownLeftRightVector;");
    assert(is_ascii("&DownLeftRightVector;"));
    reveal_strlit("&DownLeftTeeVector;");
    assert(is_ascii("&DownLeftTeeVector;"));
    reveal_strlit("&DownLeftVector;");
    assert(is_ascii("&DownLeftVector;"));
    reveal_strlit("&DownLeftVectorBar;");
    assert(is_ascii("&DownLeftVectorBar;"));
    reveal_strlit("&DownRightTeeVector;");
    assert(is_ascii("&DownRightTeeVector;"));
    reveal_strlit("&DownRightVector;");
    assert(is_ascii("&DownRightVector;"));
    reveal_strlit("&DownRightVectorBar;");
    assert(is_ascii("&DownRightVectorBar;"));
    assert(precedes_at(entry_name(table[40]), entry_name(table[41]), 5));
    assert(precedes_at(entry_name(table[41]), entry_name(table[42]), 5));
    assert(precedes_at(entry_name(table[42]), entry_name(table[43]), 9));
    assert(precedes_at(entry_name(table[43]), entry_name(table[44]), 9));
    assert(precedes_at(entry_name(table[44]), entry_name(table[45]), 15));
    assert(precedes_at(entry_name(table[45]), entry_name(table[46]), 5));
    assert(precedes_at(entry_name(table[46]), entry_name(table[47]), 10));
    assert(precedes_at(entry_name(table[47]), entry_name(table[48]), 16));
}

/// The names of `ENTITIES_UPPER_D` from entry 48 up to entry 54.
proof fn lemma_names_upper_d_from_48()
    ensures
        names_in_order(ENTITIES_UPPER_D@, 'D' as u8, 48, 54),
{
    broadcast use is_ascii_spec_bytes;

    reveal(precedes);
    let table = ENTITIES_UPPER_D@;
    reveal_strlit("&DownRightVectorBar;");
    assert(is_ascii("&DownRightVectorBar;"));
    reveal_strlit("&DownTee;");
    assert(is_ascii("&DownTee;"));
    reveal_strlit("&DownTeeArrow;");
    assert(is_ascii("&DownTeeArrow;"));
    reveal_strlit("&Downarrow;");
    assert(is_ascii("&Downarrow;"));
    reveal_strlit("&Dscr;");
    assert(is_ascii("&Dscr;"));
    reveal_strlit("&Dstrok;");
    assert(is_ascii("&Dstrok;"));
    assert(precedes_at(entry_name(table[48]), entry_name(table[49]), 5));
    assert(precedes_at(entry_name(table[49]), entry_name(table[50]), 8));
    assert(precedes_at(entry_name(table[50]), entry_name(table[51]), 5));
    assert(precedes_at(entry_name(table[51]), entry_name(table[52]), 2));
    assert(precedes_at(entry_name(table[52]), entry_name(table[53]), 3));
}

/// Every name in `ENTITIES_UPPER_D` starts with `&D` and has 3 to 33 bytes, and
/// each name comes before the next in the order of byte strings.
pub proof fn lemma_names_upper_d()
    ensures
        names_start_with(ENTITIES_UPPER_D@, 'D' as u8),
        names_ascend(ENTITIES_UPPER_D@),
{
    lemma_names_upper_d_from_0();
    lemma_names_upper_d_from_8();
    lemma_names_upper_d_from_16();
    lemma_names_upper_d_from_24();
    lemma_names_upper_d_from_32();
    lemma_names_upper_d_from_40();
    lemma_names_upper_d_from_48();
}

/// The names of `ENTITIES_LOWER_D` from entry 0 up to entry 8.
proof fn lemma_names_lower_d_from_0()
    ensures
        names_in_order(ENTITIES_LOWER_D@, 'd' as u8, 0, 8),
{
    broadcast use is_ascii_spec_bytes;

    reveal(precedes);
    let table = ENTITIES_LOWER_D@;
    reveal_strlit("&dArr;");
    assert(is_ascii("&dArr;"));
    reveal_strlit("&dHar;");
    assert(is_ascii("&dHar;"));
    reveal_strlit("&dagger;");
    assert(is_ascii("&dagger;"));
    reveal_strlit("&daleth;");
    assert(is_ascii("&daleth;"));
    reveal_strlit("&darr;");
    assert(is_ascii("&darr;"));
    reveal_strlit("&dash;");
    assert(is_ascii("&dash;"));
    reveal_strlit("&dashv;");
    assert(is_ascii("&dashv;"));
    reveal_strlit("&dbkarow;");
    assert(is_ascii("&dbkarow;"));
    reveal_strlit("&dblac;");
    assert(is_ascii("&dblac;"));
    assert(precedes_at(entry_name(table[0]), entry_name(table[1]), 2));
    assert(precedes_at(entry_name(table[1]), entry_name(table[2]), 2));
    assert(precedes_at(entry_name(table[2]), entry_name(table[3]), 3));
    assert(precedes_at(entry_name(table[3]), entry_name(table[4]), 3));
    assert(precedes_at(entry_name(table[4]), entry_name(table[5]), 3));
    assert(precedes_at(entry_name(table[5]), entry_name(table[6]), 5));
    assert(precedes_at(entry_name(table[6]), entry_name(table[7]), 2));
    assert(precedes_at(entry_name(table[7]), entry_name(table[8]), 3));
}

/// The names of `ENTITIES_LOWER_D` from entry 8 up to entry 16.
proof fn lemma_names_lower_d_from_8()
    ensures
        names_in_order(ENTITIES_LOWER_D@, 'd' as u8, 8, 16),
{
    broadcast use is_ascii_spec_bytes;

    reveal(precedes);
    let table = ENTITIES_LOWER_D@;
    reveal_strlit("&dblac;");
    assert(is_ascii("&dblac;"));
    reveal_strlit("&dcaron;");
    assert(is_ascii("&dcaron;"));
    reveal_strlit("&dcy;");
    assert(is_ascii("&dcy;"));
    reveal_strlit("&dd;");
    assert(is_ascii("&dd;"));
    reveal_strlit("&ddagger;");
    assert(is_ascii("&ddagger;"));
    reveal_strlit("&ddarr;");
    assert(is_ascii("&ddarr;"));
    reveal_strlit("&ddotseq;");
    assert(is_ascii("&ddotseq;"));
    reveal_strlit("&deg");
    assert(is_ascii("&deg"));
    reveal_strlit("&deg;");
    assert(is_ascii("&deg;"));
    assert(precedes_at(entry_name(table[8]), entry_name(table[9]), 2));
    assert(precedes_at(entry_name(table[9]), entry_name(table[10]), 3));
    assert(precedes_at(entry_name(table[10]), entry_name(table[11]), 2));
    assert(precedes_at(entry_name(table[11]), entry_name(table[12]), 3));
    assert(precedes_at(entry_name(table[12]), entry_name(table[13]), 4));
    assert(precedes_at(entry_name(table[13]), entry_name(table[14]), 3));
    assert(precedes_at(entry_name(table[14]), entry_name(table[15]), 2));
    assert(precedes_at(entry_name(table[15]), entry_name(table[16]), 4));
}

/// The names of `ENTITIES_LOWER_D` from entry 16 up to entry 24.
proof fn lemma_names_lower_d_from_16()
    ensures
        names_in_order(ENTITIES_LOWER_D@, 'd' as u8, 16, 24),
{
    broadcast use is_ascii_spec_bytes;

    reveal(precedes);
    let table = ENTITIES_LOWER_D@;
    reveal_strlit("&deg;");
    assert(is_ascii("&deg;"));
    reveal_strlit("&delta;");
    assert(is_ascii("&delta;"));
    reveal_strlit("&demptyv;");
    assert(is_ascii("&demptyv;"));
    reveal_strlit("&dfisht;");
    assert(is_ascii("&dfisht;"));
    reveal_strlit("&dfr;");
    assert(is_ascii("&dfr;"));
    reveal_strlit("&dharl;");
    assert(is_ascii("&dharl;"));
    reveal_strlit("&dharr;");
    assert(is_ascii("&dharr;"));
    reveal_strlit("&diam;");
    assert(is_ascii("&diam;"));
    reveal_strlit("&diamond;");
    assert(is_ascii("&diamond;"));
    assert(precedes_at(entry_name(table[16]), entry_name(table[17]), 3));
    assert(precedes_at(entry_name(table[17]), entry_name(table[18]), 3));
    assert(precedes_at(entry_name(table[18]), entry_name(table[19]), 2));
    assert(precedes_at(entry_name(table[19]), entry_name(table[20]), 3));
    assert(precedes_at(entry_name(table[20]), entry_name(table[21]), 2));
    assert(precedes_at(entry_name(table[21]), entry_name(table[22]), 5));
    assert(precedes_at(entry_name(table[22]), entry_name(table[23]), 2));
    assert(precedes_at(entry_name(table[23]), entry_name(table[24]), 5));
}

/// The names of `ENTITIES_LOWER_D` from entry 24 up to entry 32.
proof fn lemma_names_lower_d_from_24()
    ensures
        names_in_order(ENTITIES_LOWER_D@, 'd' as u8, 24, 32),
{
    broadcast use is_ascii_spec_bytes;

    reveal(precedes);
    let table = ENTITIES_LOWER_D@;
    reveal_strlit("&diamond;");
    assert(is_ascii("&diamond;"));
    reveal_strlit("&diamondsuit;");
    assert(is_ascii("&diamondsuit;"));
    reveal_strlit("&diams;");
    assert(is_ascii("&diams;"));
    reveal_strlit("&die;");
    assert(is_ascii("&die;"));
    reveal_strlit("&digamma;");
    assert(is_ascii("&digamma;"));
    reveal_strlit("&disin;");
    assert(is_ascii("&disin;"));
    reveal_strlit("&div;");
    assert(is_ascii("&div;"));
    reveal_strlit("&divide");
    assert(is_ascii("&divide"));
    reveal_strlit("&divide;");
    assert(is_ascii("&divide;"));
    assert(precedes_at(entry_name(table[24]), entry_name(table[25]), 8));
    assert(precedes_at(entry_name(table[25]), entry_name(table[26]), 5));
    assert(precedes_at(entry_name(table[26]), entry_name(table[27]), 3));
    assert(precedes_at(entry_name(table[27]), entry_name(table[28]), 3));
    assert(precedes_at(entry_name(table[28]), entry_name(table[29]), 3));
    assert(precedes_at(entry_name(table[29]), entry_name(table[30]), 3));
    assert(precedes_at(entry_name(table[30]), entry_name(table[31]), 4));
    assert(precedes_at(entry_name(table[31]), entry_name(table[32]), 7));
}

/// The names of `ENTITIES_LOWER_D` from entry 32 up to entry 40.
proof fn lemma_names_lower_d_from_32()
    ensures
        names_in_order(ENTITIES_LOWER_D@, 'd' as u8, 32, 40),
{
    broadcast use is_ascii_spec_bytes;

    reveal(precedes);
    let table = ENTITIES_LOWER_D@;
    reveal_strlit("&divide;");
    assert(is_ascii("&divide;"));
    reveal_strlit("&divideontimes;");
    assert(is_ascii("&divideontimes;"));
    reveal_strlit("&divonx;");
    assert(is_ascii("&divonx;"));
    reveal_strlit("&djcy;");
    assert(is_ascii("&djcy;"));
    reveal_strlit("&dlcorn;");
    assert(is_ascii("&dlcorn;"));
    reveal_strlit("&dlcrop;");
    assert(is_ascii("&dlcrop;"));
    reveal_strlit("&dollar;");
    assert(is_ascii("&dollar;"));
    reveal_strlit("&dopf;");
    assert(is_ascii("&dopf;"));
    reveal_strlit("&dot;");
    assert(is_ascii("&dot;"));
    assert(precedes_at(entry_name(table[32]), entry_name(table[33]), 7));
    assert(precedes_at(entry_name(table[33]), entry_name(table[34]), 4));
    assert(precedes_at(entry_name(table[34]), entry_name(table[35]), 2));
    assert(precedes_at(entry_name(table[35]), entry_name(table[36]), 2));
    assert(precedes_at(entry_name(table[36]), entry_name(table[37]), 4));
    assert(precedes_at(entry_name(table[37]), entry_name(table[38]), 2));
    assert(precedes_at(entry_name(table[38]), entry_name(table[39]), 3));
    assert(precedes_at(entry_name(table[39]), entry_name(table[40]), 3));
}

/// The names of `ENTITIES_LOWER_D` from entry 40 up to entry 48.
proof fn lemma_names_lower_d_from_40()
    ensures
        names_in_order(ENTITIES_LOWER_D@, 'd' as u8, 40, 48),
{
    broadcast use is_ascii_spec_bytes;

    reveal(precedes);
    let table = ENTITIES_LOWER_D@;
    reveal_strlit("&dot;");
    assert(is_ascii("&dot;"));
    reveal_strlit("&doteq;");
    assert(is_ascii("&doteq;"));
    reveal_strlit("&doteqdot;");
    assert(is_ascii("&doteqdot;"));
    reveal_strlit("&dotminus;");
    assert(is_ascii("&dotminus;"));
    reveal_strlit("&dotplus;");
    assert(is_ascii("&dotplus;"));
    reveal_strlit("&dotsquare;");
    assert(is_ascii("&dotsquare;"));
    reveal_strlit("&doublebarwedge;");
    assert(is_ascii("&doublebarwedge;"));
    reveal_strlit("&downarrow;");
    assert(is_ascii("&downarrow;"));
    reveal_strlit("&downdownarrows;");
    assert(is_ascii("&downdownarrows;"));
    assert(precedes_at(entry_name(table[40]), entry_name(table[41]), 4));
    assert(precedes_at(entry_name(table[41]), entry_name(table[42]), 6));
    assert(precedes_at(entry_name(table[42]), entry_name(table[43]), 4));
    assert(precedes_at(entry_name(table[43]), entry_name(table[44]), 4));
    assert(precedes_at(entry_name(table[44]), entry_name(table[45]), 4));
    assert(precedes_at(entry_name(table[45]), entry_name(table[46]), 3));
    assert(precedes_at(entry_name(table[46]), entry_name(table[47]), 3));
    assert(precedes_at(entry_name(table[47]), entry_name(table[48]), 5));
}

/// The names of `ENTITIES_LOWER_D` from entry 48 up to entry 56.
proof fn lemma_names_lower_d_from_48()
    ensures
        names_in_order(ENTITIES_LOWER_D@, 'd' as u8, 48, 56),
{
    broadcast use is_ascii_spec_bytes;

    reveal(precedes);
    let table = ENTITIES_LOWER_D@;
    reveal_strlit("&downdownarrows;");
    assert(is_ascii("&downdownarrows;"));
    reveal_strlit("&downharpoonleft;");
    assert(is_ascii("&downharpoonleft;"));
    reveal_strlit("&downharpoonright;");
    assert(is_ascii("&downharpoonright;"));
    reveal_strlit("&drbkarow;");
    assert(is_ascii("&drbkarow;"));
    reveal_strlit("&drcorn;");
    assert(is_ascii("&drcorn;"));
    reveal_strlit("&drcrop;");
    assert(is_ascii("&drcrop;"));
    reveal_strlit("&dscr;");
    assert(is_ascii("&dscr;"));
    reveal_strlit("&dscy;");
    assert(is_ascii("&dscy;"));
    reveal_strlit("&dsol;");
    assert(is_ascii("&dsol;"));
    assert(precedes_at(entry_name(table[48]), entry_name(table[49]), 5));
    assert(precedes_at(entry_name(table[49]), entry_name(table[50]), 12));
    assert(precedes_at(entry_name(table[50]), entry_name(table[51]), 2));
    assert(precedes_at(entry_name(table[51]), entry_name(table[52]), 3));
    assert(precedes_at(entry_name(table[52]), entry_name(table[53]), 4));
    assert(precedes_at(entry_name(table[53]), entry_name(table[54]), 2));
    assert(precedes_at(entry_name(table[54]), entry_name(table[55]), 4));
    assert(precedes_at(entry_name(table[55]), entry_name(table[56]), 3));
}

/// The names of `ENTITIES_LOWER_D` from entry 56 up to entry 64.
proof fn lemma_names_lower_d_from_56()
    ensures
        names_in_order(ENTITIES_LOWER_D@, 'd' as u8, 56, 64),
{
    broadcast use is_ascii_spec_bytes;

    reveal(precedes);
    let table = ENTITIES_LOWER_D@;
    reveal_strlit("&dsol;");
    assert(is_ascii("&dsol;"));
    reveal_strlit("&dstrok;");
    assert(is_ascii("&dstrok;"));
    reveal_strlit("&dtdot;");
    assert(is_ascii("&dtdot;"));
    reveal_strlit("&dtri;");
    assert(is_ascii("&dtri;"));
    reveal_strlit("&dtrif;");
    assert(is_ascii("&dtrif;"));
    reveal_strlit("&duarr;");
    assert(is_ascii("&duarr;"));
    reveal_strlit("&duhar;");
    assert(is_ascii("&duhar;"));
    reveal_strlit("&dwangle;");
    assert(is_ascii("&dwangle;"));
    reveal_strlit("&dzcy;");
    assert(is_ascii("&dzcy;"));
    assert(precedes_at(entry_name(table[56]), entry_name(table[57]), 3));
    assert(precedes_at(entry_name(table[57]), entry_name(table[58]), 2));
    assert(precedes_at(entry_name(table[58]), entry_name(table[59]), 3));
    assert(precedes_at(entry_name(table[59]), entry_name(table[60]), 5));
    assert(precedes_at(entry_name(table[60]), entry_name(table[61]), 2));
    assert(precedes_at(entry_name(table[61]), entry_name(table[62]), 3));
    assert(precedes_at(entry_name(table[62]), entry_name(table[63]), 2));
    assert(precedes_at(entry_name(table[63]), entry_name(table[64]), 2));
}

/// The names of `ENTITIES_LOWER_D` from entry 64 up to entry 66.
proof fn lemma_names_lower_d_from_64()
    ensures
        names_in_order(ENTITIES_LOWER_D@, 'd' as u8, 64, 66),
{
    broadcast use is_ascii_spec_bytes;

    reveal(precedes);
    let table = ENTITIES_LOWER_D@;
    reveal_strlit("&dzcy;");
    assert(is_ascii("&dzcy;"));
    reveal_strlit("&dzigrarr;");
    assert(is_ascii("&dzigrarr;"));
    assert(precedes_at(entry_name(table[64]), entry_name(table[65]), 3));
}

/// Every name in `ENTITIES_LOWER_D` starts with `&d` and has 3 to 33 bytes, and
/// each name comes before the next in the order of byte strings.
pub proof fn lemma_names_lower_d()
    ensures
        names_start_with(ENTITIES_LOWER_D@, 'd' as u8),
        names_ascend(ENTITIES_LOWER_D@),
{
    lemma_names_lower_d_from_0();
    lemma_names_lower_d_from_8();
    lemma_names_lower_d_from_16();
    lemma_names_lower_d_from_24();
    lemma_names_lower_d_from_32();
    lemma_names_lower_d_from_40();
    lemma_names_lower_d_from_48();
    lemma_names_lower_d_from_56();
    lemma_names_lower_d_from_64();
}

} // verus!
