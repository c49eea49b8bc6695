//! The named character references that start with `A` or `a`.

use crate::entities::{names_in_order, names_start_with};
use crate::search::{entry_name, names_ascend, precedes, precedes_at, Entry};
use vstd::prelude::*;
use vstd::string::{is_ascii, is_ascii_spec_bytes};

verus! {

/// The named character references that start with `&A`, each with its
/// expansion, in the order of byte strings.
pub const ENTITIES_UPPER_A: [Entry; 27] = [
    ("&AElig", "\u{c6}"),
    ("&AElig;", "\u{c6}"),
    ("&AMP", "&"),
    ("&AMP;", "&"),
    ("&Aacute", "\u{c1}"),
    ("&Aacute;", "\u{c1}"),
    ("&Abreve;", "\u{102}"),
    ("&Acirc", "\u{c2}"),
    ("&Acirc;", "\u{c2}"),
    ("&Acy;", "\u{410}"),
    ("&Afr;", "\u{1d504}"),
    ("&Agrave", "\u{c0}"),
    ("&Agrave;", "\u{c0}"),
    ("&Alpha;", "\u{391}"),
    ("&Amacr;", "\u{100}"),
    ("&And;", "\u{2a53}"),
    ("&Aogon;", "\u{104}"),
    ("&Aopf;", "\u{1d538}"),
    ("&ApplyFunction;", "\u{2061}"),
    ("&Aring", "\u{c5}"),
    ("&Aring;", "\u{c5}"),
    ("&Ascr;", "\u{1d49c}"),
    ("&Assign;", "\u{2254}"),
    ("&Atilde", "\u{c3}"),
    ("&Atilde;", "\u{c3}"),
    ("&Auml", "\u{c4}"),
    ("&Auml;", "\u{c4}"),
];

/// The named character references that start with `&a`, each with its
/// expansion, in the order of byte strings.
pub const ENTITIES_LOWER_A: [Entry; 69] = [
    ("&aacute", "\u{e1}"),
    ("&aacute;", "\u{e1}"),
    ("&abreve;", "\u{103}"),
    ("&ac;", "\u{223e}"),
    ("&acE;", "\u{223e}\u{333}"),
    ("&acd;", "\u{223f}"),
    ("&acirc", "\u{e2}"),
    ("&acirc;", "\u{e2}"),
    ("&acute", "\u{b4}"),
    ("&acute;", "\u{b4}"),
    ("&acy;", "\u{430}"),
    ("&aelig", "\u{e6}"),
    ("&aelig;", "\u{e6}"),
    ("&af;", "\u{2061}"),
    ("&afr;", "\u{1d51e}"),
    ("&agrave", "\u{e0}"),
    ("&agrave;", "\u{e0}"),
    ("&alefsym;", "\u{2135}"),
    ("&aleph;", "\u{2135}"),
    ("&alpha;", "\u{3b1}"),
    ("&amacr;", "\u{101}"),
    ("&amalg;", "\u{2a3f}"),
    ("&amp", "&"),
    ("&amp;", "&"),
    ("&and;", "\u{2227}"),
    ("&andand;", "\u{2a55}"),
    ("&andd;", "\u{2a5c}"),
    ("&andslope;", "\u{2a58}"),
    ("&andv;", "\u{2a5a}"),
    ("&ang;", "\u{2220}"),
    ("&ange;", "\u{29a4}"),
    ("&angle;", "\u{2220}"),
    ("&angmsd;", "\u{2221}"),
    ("&angmsdaa;", "\u{29a8}"),
    ("&angmsdab;", "\u{29a9}"),
    ("&angmsdac;", "\u{29aa}"),
    ("&angmsdad;", "\u{29ab}"),
    ("&angmsdae;", "\u{29ac}"),
    ("&angmsdaf;", "\u{29ad}"),
    ("&angmsdag;", "\u{29ae}"),
    ("&angmsdah;", "\u{29af}"),
    ("&angrt;", "\u{221f}"),
    ("&angrtvb;", "\u{22be}"),
    ("&angrtvbd;", "\u{299d}"),
    ("&angsph;", "\u{2222}"),
    ("&angst;", "\u{c5}"),
    ("&angzarr;", "\u{237c}"),
    ("&aogon;", "\u{105}"),
    ("&aopf;", "\u{1d552}"),
    ("&ap;", "\u{2248}"),
    ("&apE;", "\u{2a70}"),
    ("&apacir;", "\u{2a6f}"),
    ("&ape;", "\u{224a}"),
    ("&apid;", "\u{224b}"),
    ("&apos;", "'"),
    ("&approx;", "\u{2248}"),
    ("&approxeq;", "\u{224a}"),
    ("&aring", "\u{e5}"),
    ("&aring;", "\u{e5}"),
    ("&ascr;", "\u{1d4b6}"),
    ("&ast;", "*"),
    ("&asymp;", "\u{2248}"),
    ("&asympeq;", "\u{224d}"),
    ("&atilde", "\u{e3}"),
    ("&atilde;", "\u{e3}"),
    ("&auml", "\u{e4}"),
    ("&auml;", "\u{e4}"),
    ("&awconint;", "\u{2233}"),
    ("&awint;", "\u{2a11}"),
];

/// The names of `ENTITIES_UPPER_A` from entry 0 up to entry 8.
proof fn lemma_names_upper_a_from_0()
    ensures
        names_in_order(ENTITIES_UPPER_A@, 'A' as u8, 0, 8),
{
    broadcast use is_ascii_spec_bytes;

    reveal(precedes);
    let table = ENTITIES_UPPER_A@;
    reveal_strlit("&AElig");
    assert(is_ascii("&AElig"));
    reveal_strlit("&AElig;");
    assert(is_ascii("&AElig;"));
    reveal_strlit("&AMP");
    assert(is_ascii("&AMP"));
    reveal_strlit("&AMP;");
    assert(is_ascii("&AMP;"));
    reveal_strlit("&Aacute");
    assert(is_ascii("&Aacute"));
    reveal_strlit("&Aacute;");
    assert(is_ascii("&Aacute;"));
    reveal_strlit("&Abreve;");
    assert(is_ascii("&Abreve;"));
    reveal_strlit("&Acirc");
    assert(is_ascii("&Acirc"));
    reveal_strlit("&Acirc;");
    assert(is_ascii("&Acirc;"));
    assert(precedes_at(entry_name(table[0]), entry_name(table[1]), 6));
    assert(precedes_at(entry_name(table[1]), entry_name(table[2]), 2));
    assert(precedes_at(entry_name(table[2]), entry_name(table[3]), 4));
    assert(precedes_at(entry_name(table[3]), entry_name(table[4]), 2));
    assert(precedes_at(entry_name(table[4]), entry_name(table[5]), 7));
    assert(precedes_at(entry_name(table[5]), entry_name(table[6]), 2));
    assert(precedes_at(entry_name(table[6]), entry_name(table[7]), 2));
    assert(precedes_at(entry_name(table[7]), entry_name(table[8]), 6));
}

/// The names of `ENTITIES_UPPER_A` from entry 8 up to entry 16.
proof fn lemma_names_upper_a_from_8()
    ensures
        names_in_order(ENTITIES_UPPER_A@, 'A' as u8, 8, 16),
{
    broadcast use is_ascii_spec_bytes;

    reveal(precedes);
    let table = ENTITIES_UPPER_A@;
    reveal_strlit("&Acirc;");
    assert(is_ascii("&Acirc;"));
    reveal_strlit("&Acy;");
    assert(is_ascii("&Acy;"));
    reveal_strlit("&Afr;");
    assert(is_ascii("&Afr;"));
    reveal_strlit("&Agrave");
    assert(is_ascii("&Agrave"));
    reveal_strlit("&Agrave;");
    assert(is_ascii("&Agrave;"));
    reveal_strlit("&Alpha;");
    assert(is_ascii("&Alpha;"));
    reveal_strlit("&Amacr;");
    assert(is_ascii("&Amacr;"));
    reveal_strlit("&And;");
    assert(is_ascii("&And;"));
    reveal_strlit("&Aogon;");
    assert(is_ascii("&Aogon;"));
    assert(precedes_at(entry_name(table[8]), entry_name(table[9]), 3));
    assert(precedes_at(entry_name(table[9]), entry_name(table[10]), 2));
    assert(precedes_at(entry_name(table[10]), entry_name(table[11]), 2));
    assert(precedes_at(entry_name(table[11]), entry_name(table[12]), 7));
    assert(precedes_at(entry_name(table[12]), entry_name(table[13]), 2));
    assert(precedes_at(entry_name(table[13]), entry_name(table[14]), 2));
    assert(precedes_at(entry_name(table[14]), entry_name(table[15]), 2));
    assert(precedes_at(entry_name(table[15]), entry_name(table[16]), 2));
}

/// The names of `ENTITIES_UPPER_A` from entry 16 up to entry 24.
proof fn lemma_names_upper_a_from_16()
    ensures
        names_in_order(ENTITIES_UPPER_A@, 'A' as u8, 16, 24),
{
    broadcast use is_ascii_spec_bytes;

    reveal(precedes);
    let table = ENTITIES_UPPER_A@;
    reveal_strlit("&Aogon;");
    assert(is_ascii("&Aogon;"));
    reveal_strlit("&Aopf;");
    assert(is_ascii("&Aopf;"));
    reveal_strlit("&ApplyFunction;");
    assert(is_ascii("&ApplyFunction;"));
    reveal_strlit("&Aring");
    assert(is_ascii("&Aring"));
    reveal_strlit("&Aring;");
    assert(is_ascii("&Aring;"));
    reveal_strlit("&Ascr;");
    assert(is_ascii("&Ascr;"));
    reveal_strlit("&Assign;");
    assert(is_ascii("&Assign;"));
    reveal_strlit("&Atilde");
    assert(is_ascii("&Atilde"));
    reveal_strlit("&Atilde;");
    assert(is_ascii("&Atilde;"));
    assert(precedes_at(entry_name(table[16]), entry_name(table[17]), 3));
    assert(precedes_at(entry_name(table[17]), entry_name(table[18]), 2));
    assert(precedes_at(entry_name(table[18]), entry_name(table[19]), 2));
    assert(precedes_at(entry_name(table[19]), entry_name(table[20]), 6));
    assert(precedes_at(entry_name(table[20]), entry_name(table[21]), 2));
    assert(precedes_at(entry_name(table[21]), entry_name(table[22]), 3));
    assert(precedes_at(entry_name(table[22]), entry_name(table[23]), 2));
    assert(precedes_at(entry_name(table[23]), entry_name(table[24]), 7));
}

/// The names of `ENTITIES_UPPER_A` from entry 24 up to entry 27.
proof fn lemma_names_upper_a_from_24()
    ensures
        names_in_order(ENTITIES_UPPER_A@, 'A' as u8, 24, 27),
{
    broadcast use is_ascii_spec_bytes;

    reveal(precedes);
    let table = ENTITIES_UPPER_A@;
    reveal_strlit("&Atilde;");
    assert(is_ascii("&Atilde;"));
    reveal_strlit("&Auml");
    assert(is_ascii("&Auml"));
    reveal_strlit("&Auml;");
    assert(is_ascii("&Auml;"));
    assert(precedes_at(entry_name(table[24]), entry_name(table[25]), 2));
    assert(precedes_at(entry_name(table[25]), entry_name(table[26]), 5));
}

/// Every name in `ENTITIES_UPPER_A` starts with `&A` and has 3 to 33 bytes, and
/// each name comes before the next in the order of byte strings.
pub proof fn lemma_names_upper_a()
    ensures
        names_start_with(ENTITIES_UPPER_A@, 'A' as u8),
        names_ascend(ENTITIES_UPPER_A@),
{
    lemma_names_upper_a_from_0();
    lemma_names_upper_a_from_8();
    lemma_names_upper_a_from_16();
    lemma_names_upper_a_from_24();
}

/// The names of `ENTITIES_LOWER_A` from entry 0 up to entry 8.
proof fn lemma_names_lower_a_from_0()
    ensures
        names_in_order(ENTITIES_LOWER_A@, 'a' as u8, 0, 8),
{
    broadcast use is_ascii_spec_bytes;

    reveal(precedes);
    let table = ENTITIES_LOWER_A@;
    reveal_strlit("&aacute");
    assert(is_ascii("&aacute"));
    reveal_strlit("&aacute;");
    assert(is_ascii("&aacute;"));
    reveal_strlit("&abreve;");
    assert(is_ascii("&abreve;"));
    reveal_strlit("&ac;");
    assert(is_ascii("&ac;"));
    reveal_strlit("&acE;");
    assert(is_ascii("&acE;"));
    reveal_strlit("&acd;");
    assert(is_ascii("&acd;"));
    reveal_strlit("&acirc");
    assert(is_ascii("&acirc"));
    reveal_strlit("&acirc;");
    assert(is_ascii("&acirc;"));
    reveal_strlit("&acute");
    assert(is_ascii("&acute"));
    assert(precedes_at(entry_name(table[0]), entry_name(table[1]), 7));
    assert(precedes_at(entry_name(table[1]), entry_name(table[2]), 2));
    assert(precedes_at(entry_name(table[2]), entry_name(table[3]), 2));
    assert(precedes_at(entry_name(table[3]), entry_name(table[4]), 3));
    assert(precedes_at(entry_name(table[4]), entry_name(table[5]), 3));
    assert(precedes_at(entry_name(table[5]), entry_name(table[6]), 3));
    assert(precedes_at(entry_name(table[6]), entry_name(table[7]), 6));
    assert(precedes_at(entry_name(table[7]), entry_name(table[8]), 3));
}

/// The names of `ENTITIES_LOWER_A` from entry 8 up to entry 16.
proof fn lemma_names_lower_a_from_8()
    ensures
        names_in_order(ENTITIES_LOWER_A@, 'a' as u8, 8, 16),
{
    broadcast use is_ascii_spec_bytes;

    reveal(precedes);
    let table = ENTITIES_LOWER_A@;
    reveal_strlit("&acute");
    assert(is_ascii("&acute"));
    reveal_strlit("&acute;");
    assert(is_ascii("&acute;"));
    reveal_strlit("&acy;");
    assert(is_ascii("&acy;"));
    reveal_strlit("&aelig");
    assert(is_ascii("&aelig"));
    reveal_strlit("&aelig;");
    assert(is_ascii("&aelig;"));
    reveal_strlit("&af;");
    assert(is_ascii("&af;"));
    reveal_strlit("&afr;");
    assert(is_ascii("&afr;"));
    reveal_strlit("&agrave");
    assert(is_ascii("&agrave"));
    reveal_strlit("&agrave;");
    assert(is_ascii("&agrave;"));
    assert(precedes_at(entry_name(table[8]), entry_name(table[9]), 6));
    assert(precedes_at(entry_name(table[9]), entry_name(table[10]), 3));
    assert(precedes_at(entry_name(table[10]), entry_name(table[11]), 2));
    assert(precedes_at(entry_name(table[11]), entry_name(table[12]), 6));
    assert(precedes_at(entry_name(table[12]), entry_name(table[13]), 2));
    assert(precedes_at(entry_name(table[13]), entry_name(table[14]), 3));
    assert(precedes_at(entry_name(table[14]), entry_name(table[15]), 2));
    assert(precedes_at(entry_name(table[15]), entry_name(table[16]), 7));
}

/// The names of `ENTITIES_LOWER_A` from entry 16 up to entry 24.
proof fn lemma_names_lower_a_from_16()
    ensures
        names_in_order(ENTITIES_LOWER_A@, 'a' as u8, 16, 24),
{
    broadcast use is_ascii_spec_bytes;

    reveal(precedes);
    let table = ENTITIES_LOWER_A@;
    reveal_strlit("&agrave;");
    assert(is_ascii("&agrave;"));
    reveal_strlit("&alefsym;");
    assert(is_ascii("&alefsym;"));
    reveal_strlit("&aleph;");
    assert(is_ascii("&aleph;"));
    reveal_strlit("&alpha;");
    assert(is_ascii("&alpha;"));
    reveal_strlit("&amacr;");
    assert(is_ascii("&amacr;"));
    reveal_strlit("&amalg;");
    assert(is_ascii("&amalg;"));
    reveal_strlit("&amp");
    assert(is_ascii("&amp"));
    reveal_strlit("&amp;");
    assert(is_ascii("&amp;"));
    reveal_strlit("&and;");
    assert(is_ascii("&and;"));
    assert(precedes_at(entry_name(table[16]), entry_name(table[17]), 2));
    assert(precedes_at(entry_name(table[17]), entry_name(table[18]), 4));
    assert(precedes_at(entry_name(table[18]), entry_name(table[19]), 3));
    assert(precedes_at(entry_name(table[19]), entry_name(table[20]), 2));
    assert(precedes_at(entry_name(table[20]), entry_name(table[21]), 4));
    assert(precedes_at(entry_name(table[21]), entry_name(table[22]), 3));
    assert(precedes_at(entry_name(table[22]), entry_name(table[23]), 4));
    assert(precedes_at(entry_name(table[23]), entry_name(table[24]), 2));
}

/// The names of `ENTITIES_LOWER_A` from entry 24 up to entry 32.
proof fn lemma_names_lower_a_from_24()
    ensures
        names_in_order(ENTITIES_LOWER_A@, 'a' as u8, 24, 32),
{
    broadcast use is_ascii_spec_bytes;

    reveal(precedes);
    let table = ENTITIES_LOWER_A@;
    reveal_strlit("&and;");
    assert(is_ascii("&and;"));
    reveal_strlit("&andand;");
    assert(is_ascii("&andand;"));
    reveal_strlit("&andd;");
    assert(is_ascii("&andd;"));
    reveal_strlit("&andslope;");
    assert(is_ascii("&andslope;"));
    reveal_strlit("&andv;");
    assert(is_ascii("&andv;"));
    reveal_strlit("&ang;");
    assert(is_ascii("&ang;"));
    reveal_strlit("&ange;");
    assert(is_ascii("&ange;"));
    reveal_strlit("&angle;");
    assert(is_ascii("&angle;"));
    reveal_strlit("&angmsd;");
    assert(is_ascii("&angmsd;"));
    assert(precedes_at(entry_name(table[24]), entry_name(table[25]), 4));
    assert(precedes_at(entry_name(table[25]), entry_name(table[26]), 4));
    assert(precedes_at(entry_name(table[26]), entry_name(table[27]), 4));
    assert(precedes_at(entry_name(table[27]), entry_name(table[28]), 4));
    assert(precedes_at(entry_name(table[28]), entry_name(table[29]), 3));
    assert(precedes_at(entry_name(table[29]), entry_name(table[30]), 4));
    assert(precedes_at(entry_name(table[30]), entry_name(table[31]), 4));
    assert(precedes_at(entry_name(table[31]), entry_name(table[32]), 4));
}

/// The names of `ENTITIES_LOWER_A` from entry 32 up to entry 40.
proof fn lemma_names_lower_a_from_32()
    ensures
        names_in_order(ENTITIES_LOWER_A@, 'a' as u8, 32, 40),
{
    broadcast use is_ascii_spec_bytes;

    reveal(precedes);
    let table = ENTITIES_LOWER_A@;
    reveal_strlit("&angmsd;");
    assert(is_ascii("&angmsd;"));
    reveal_strlit("&angmsdaa;");
    assert(is_ascii("&angmsdaa;"));
    reveal_strlit("&angmsdab;");
    assert(is_ascii("&angmsdab;"));
    reveal_strlit("&angmsdac;");
    assert(is_ascii("&angmsdac;"));
    reveal_strlit("&angmsdad;");
    assert(is_ascii("&angmsdad;"));
    reveal_strlit("&angmsdae;");
    assert(is_ascii("&angmsdae;"));
    reveal_strlit("&angmsdaf;");
    assert(is_ascii("&angmsdaf;"));
    reveal_strlit("&angmsdag;");
    assert(is_ascii("&angmsdag;"));
    reveal_strlit("&angmsdah;");
    assert(is_ascii("&angmsdah;"));
    assert(precedes_at(entry_name(table[32]), entry_name(table[33]), 7));
    assert(precedes_at(entry_name(table[33]), entry_name(table[34]), 8));
    assert(precedes_at(entry_name(table[34]), entry_name(table[35]), 8));
    assert(precedes_at(entry_name(table[35]), entry_name(table[36]), 8));
    assert(precedes_at(entry_name(table[36]), entry_name(table[37]), 8));
    assert(precedes_at(entry_name(table[37]), entry_name(table[38]), 8));
    assert(precedes_at(entry_name(table[38]), entry_name(table[39]), 8));
    assert(precedes_at(entry_name(table[39]), entry_name(table[40]), 8));
}

/// The names of `ENTITIES_LOWER_A` from entry 40 up to entry 48.
proof fn lemma_names_lower_a_from_40()
    ensures
        names_in_order(ENTITIES_LOWER_A@, 'a' as u8, 40, 48),
{
    broadcast use is_ascii_spec_bytes;

    reveal(precedes);
    let table = ENTITIES_LOWER_A@;
    reveal_strlit("&angmsdah;");
    assert(is_ascii("&angmsdah;"));
    reveal_strlit("&angrt;");
    assert(is_ascii("&angrt;"));
    reveal_strlit("&angrtvb;");
    assert(is_ascii("&angrtvb;"));
    reveal_strlit("&angrtvbd;");
    assert(is_ascii("&angrtvbd;"));
    reveal_strlit("&angsph;");
    assert(is_ascii("&angsph;"));
    reveal_strlit("&angst;");
    assert(is_ascii("&angst;"));
    reveal_strlit("&angzarr;");
    assert(is_ascii("&angzarr;"));
    reveal_strlit("&aogon;");
    assert(is_ascii("&aogon;"));
    reveal_strlit("&aopf;");
    assert(is_ascii("&aopf;"));
    assert(precedes_at(entry_name(table[40]), entry_name(table[41]), 4));
    assert(precedes_at(entry_name(table[41]), entry_name(table[42]), 6));
    assert(precedes_at(entry_name(table[42]), entry_name(table[43]), 8));
    assert(precedes_at(entry_name(table[43]), entry_name(table[44]), 4));
    assert(precedes_at(entry_name(table[44]), entry_name(table[45]), 5));
    assert(precedes_at(entry_name(table[45]), entry_name(table[46]), 4));
    assert(precedes_at(entry_name(table[46]), entry_name(table[47]), 2));
    assert(precedes_at(entry_name(table[47]), entry_name(table[48]), 3));
}

/// The names of `ENTITIES_LOWER_A` from entry 48 up to entry 56.
proof fn lemma_names_lower_a_from_48()
    ensures
        names_in_order(ENTITIES_LOWER_A@, 'a' as u8, 48, 56),
{
    broadcast use is_ascii_spec_bytes;

    reveal(precedes);
    let table = ENTITIES_LOWER_A@;
    reveal_strlit("&aopf;");
    assert(is_ascii("&aopf;"));
    reveal_strlit("&ap;");
    assert(is_ascii("&ap;"));
    reveal_strlit("&apE;");
    assert(is_ascii("&apE;"));
    reveal_strlit("&apacir;");
    assert(is_ascii("&apacir;"));
    reveal_strlit("&ape;");
    assert(is_ascii("&ape;"));
    reveal_strlit("&apid;");
    assert(is_ascii("&apid;"));
    reveal_strlit("&apos;");
    assert(is_ascii("&apos;"));
    reveal_strlit("&approx;");
    assert(is_ascii("&approx;"));
    reveal_strlit("&approxeq;");
    assert(is_ascii("&approxeq;"));
    assert(precedes_at(entry_name(table[48]), entry_name(table[49]), 2));
    assert(precedes_at(entry_name(table[49]), entry_name(table[50]), 3));
    assert(precedes_at(entry_name(table[50]), entry_name(table[51]), 3));
    assert(precedes_at(entry_name(table[51]), entry_name(table[52]), 3));
    assert(precedes_at(entry_name(table[52]), entry_name(table[53]), 3));
    assert(precedes_at(entry_name(table[53]), entry_name(table[54]), 3));
    assert(precedes_at(entry_name(table[54]), entry_name(table[55]), 3));
    assert(precedes_at(entry_name(table[55]), entry_name(table[56]), 7));
}

/// The names of `ENTITIES_LOWER_A` from entry 56 up to entry 64.
proof fn lemma_names_lower_a_from_56()
    ensures
        names_in_order(ENTITIES_LOWER_A@, 'a' as u8, 56, 64),
{
    broadcast use is_ascii_spec_bytes;

    reveal(precedes);
    let table = ENTITIES_LOWER_A@;
    reveal_strlit("&approxeq;");
    assert(is_ascii("&approxeq;"));
    reveal_strlit("&aring");
    assert(is_ascii("&aring"));
    reveal_strlit("&aring;");
    assert(is_ascii("&aring;"));
    reveal_strlit("&ascr;");
    assert(is_ascii("&ascr;"));
    reveal_strlit("&ast;");
    assert(is_ascii("&ast;"));
    reveal_strlit("&asymp;");
    assert(is_ascii("&asymp;"));
    reveal_strlit("&asympeq;");
    assert(is_ascii("&asympeq;"));
    reveal_strlit("&atilde");
    assert(is_ascii("&atilde"));
    reveal_strlit("&atilde;");
    assert(is_ascii("&atilde;"));
    assert(precedes_at(entry_name(table[56]), entry_name(table[57]), 2));
    assert(precedes_at(entry_name(table[57]), entry_name(table[58]), 6));
    assert(precedes_at(entry_name(table[58]), entry_name(table[59]), 2));
    assert(precedes_at(entry_name(table[59]), entry_name(table[60]), 3));
    assert(precedes_at(entry_name(table[60]), entry_name(table[61]), 3));
    assert(precedes_at(entry_name(table[61]), entry_name(table[62]), 6));
    assert(precedes_at(entry_name(table[62]), entry_name(table[63]), 2));
    assert(precedes_at(entry_name(table[63]), entry_name(table[64]), 7));
}

/// The names of `ENTITIES_LOWER_A` from entry 64 up to entry 69.
proof fn lemma_names_lower_a_from_64()
    ensures
        names_in_order(ENTITIES_LOWER_A@, 'a' as u8, 64, 69),
{
    broadcast use is_ascii_spec_bytes;

    reveal(precedes);
    let table = ENTITIES_LOWER_A@;
    reveal_strlit("&atilde;");
    assert(is_ascii("&atilde;"));
    reveal_strlit("&auml");
    assert(is_ascii("&auml"));
    reveal_strlit("&auml;");
    assert(is_ascii("&auml;"));
    reveal_strlit("&awconint;");
    assert(is_ascii("&awconint;"));
    reveal_strlit("&awint;");
    assert(is_ascii("&awint;"));
    assert(precedes_at(entry_name(table[64]), entry_name(table[65]), 2));
    assert(precedes_at(entry_name(table[65]), entry_name(table[66]), 5));
    assert(precedes_at(entry_name(table[66]), entry_name(table[67]), 2));
    assert(precedes_at(entry_name(table[67]), entry_name(table[68]), 3));
}

/// Every name in `ENTITIES_LOWER_A` starts with `&a` and has 3 to 33 bytes, and
/// each name comes before the next in the order of byte strings.
pub proof fn lemma_names_lower_a()
    ensures
        names_start_with(ENTITIES_LOWER_A@, 'a' as u8),
        names_ascend(ENTITIES_LOWER_A@),
{
    lemma_names_lower_a_from_0();
    lemma_names_lower_a_from_8();
    lemma_names_lower_a_from_16();
    lemma_names_lower_a_from_24();
    lemma_names_lower_a_from_32();
    lemma_names_lower_a_from_40();
    lemma_names_lower_a_from_48();
    lemma_names_lower_a_from_56();
    lemma_names_lower_a_from_64();
}

} // verus!
