//! The named character references that start with `E` or `e`.

use crate::entities::{names_in_order, names_start_with};
use crate::search::{entry_name, names_ascend, precedes, precedes_at, Entry};
use vstd::prelude::*;
use vstd::string::{is_ascii, is_ascii_spec_bytes};

verus! {

/// The named character references that start with `&E`, each with its
/// expansion, in the order of byte strings.
pub const ENTITIES_UPPER_E: [Entry; 30] = [
    ("&ENG;", "\u{14a}"),
    ("&ETH", "\u{d0}"),
    ("&ETH;", "\u{d0}"),
    ("&Eacute", "\u{c9}"),
    ("&Eacute;", "\u{c9}"),
    ("&Ecaron;", "\u{11a}"),
    ("&Ecirc", "\u{ca}"),
    ("&Ecirc;", "\u{ca}"),
    ("&Ecy;", "\u{42d}"),
    ("&Edot;", "\u{116}"),
    ("&Efr;", "\u{1d508}"),
    ("&Egrave", "\u{c8}"),
    ("&Egrave;", "\u{c8}"),
    ("&Element;", "\u{2208}"),
    ("&Emacr;", "\u{112}"),
    ("&EmptySmallSquare;", "\u{25fb}"),
    ("&EmptyVerySmallSquare;", "\u{25ab}"),
    ("&Eogon;", "\u{118}"),
    ("&Eopf;", "\u{1d53c}"),
    ("&Epsilon;", "\u{395}"),
    ("&Equal;", "\u{2a75}"),
    ("&EqualTilde;", "\u{2242}"),
    ("&Equilibrium;", "\u{21cc}"),
    ("&Escr;", "\u{2130}"),
    ("&Esim;", "\u{2a73}"),
    ("&Eta;", "\u{397}"),
    ("&Euml", "\u{cb}"),
    ("&Euml;", "\u{cb}"),
    ("&Exists;", "\u{2203}"),
    ("&ExponentialE;", "\u{2147}"),
];

/// The named character references that start with `&e`, each with its
/// expansion, in the order of byte strings.
pub const ENTITIES_LOWER_E: [Entry; 67] = [
    ("&eDDot;", "\u{2a77}"),
    ("&eDot;", "\u{2251}"),
    ("&eacute", "\u{e9}"),
    ("&eacute;", "\u{e9}"),
    ("&easter;", "\u{2a6e}"),
    ("&ecaron;", "\u{11b}"),
    ("&ecir;", "\u{2256}"),
    ("&ecirc", "\u{ea}"),
    ("&ecirc;", "\u{ea}"),
    ("&ecolon;", "\u{2255}"),
    ("&ecy;", "\u{44d}"),
    ("&edot;", "\u{117}"),
    ("&ee;", "\u{2147}"),
    ("&efDot;", "\u{2252}"),
    ("&efr;", "\u{1d522}"),
    ("&eg;", "\u{2a9a}"),
    ("&egrave", "\u{e8}"),
    ("&egrave;", "\u{e8}"),
    ("&egs;", "\u{2a96}"),
    ("&egsdot;", "\u{2a98}"),
    ("&el;", "\u{2a99}"),
    ("&elinters;", "\u{23e7}"),
    ("&ell;", "\u{2113}"),
    ("&els;", "\u{2a95}"),
    ("&elsdot;", "\u{2a97}"),
    ("&emacr;", "\u{113}"),
    ("&empty;", "\u{2205}"),
    ("&emptyset;", "\u{2205}"),
    ("&emptyv;", "\u{2205}"),
    ("&emsp13;", "\u{2004}"),
    ("&emsp14;", "\u{2005}"),
    ("&emsp;", "\u{2003}"),
    ("&eng;", "\u{14b}"),
    ("&ensp;", "\u{2002}"),
    ("&eogon;", "\u{119}"),
    ("&eopf;", "\u{1d556}"),
    ("&epar;", "\u{22d5}"),
    ("&eparsl;", "\u{29e3}"),
    ("&eplus;", "\u{2a71}"),
    ("&epsi;", "\u{3b5}"),
    ("&epsilon;", "\u{3b5}"),
    ("&epsiv;", "\u{3f5}"),
    ("&eqcirc;", "\u{2256}"),
    ("&eqcolon;", "\u{2255}"),
    ("&eqsim;", "\u{2242}"),
    ("&eqslantgtr;", "\u{2a96}"),
    ("&eqslantless;", "\u{2a95}"),
    ("&equals;", "="),
    ("&equest;", "\u{225f}"),
    ("&equiv;", "\u{2261}"),
    ("&equivDD;", "\u{2a78}"),
    ("&eqvparsl;", "\u{29e5}"),
    ("&erDot;", "\u{2253}"),
    ("&erarr;", "\u{2971}"),
    ("&escr;", "\u{212f}"),
    ("&esdot;", "\u{2250}"),
    ("&esim;", "\u{2242}"),
    ("&eta;", "\u{3b7}"),
    ("&eth", "\u{f0}"),
    ("&eth;", "\u{f0}"),
    ("&euml", "\u{eb}"),
    ("&euml;", "\u{eb}"),
    ("&euro;", "\u{20ac}"),
    ("&excl;", "!"),
    ("&exist;", "\u{2203}"),
    ("&expectation;", "\u{2130}"),
    ("&exponentiale;", "\u{2147}"),
];

/// The names of `ENTITIES_UPPER_E` from entry 0 up to entry 8.
proof fn lemma_names_upper_e_from_0()
    ensures
        names_in_order(ENTITIES_UPPER_E@, 'E' as u8, 0, 8),
{
    broadcast use is_ascii_spec_bytes;

    reveal(precedes);
    let table = ENTITIES_UPPER_E@;
    reveal_strlit("&ENG;");
    assert(is_ascii("&ENG;"));
    reveal_strlit("&ETH");
    assert(is_ascii("&ETH"));
    reveal_strlit("&ETH;");
    assert(is_ascii("&ETH;"));
    reveal_strlit("&Eacute");
    assert(is_ascii("&Eacute"));
    reveal_strlit("&Eacute;");
    assert(is_ascii("&Eacute;"));
    reveal_strlit("&Ecaron;");
    assert(is_ascii("&Ecaron;"));
    reveal_strlit("&Ecirc");
    assert(is_ascii("&Ecirc"));
    reveal_strlit("&Ecirc;");
    assert(is_ascii("&Ecirc;"));
    reveal_strlit("&Ecy;");
    assert(is_ascii("&Ecy;"));
    assert(precedes_at(entry_name(table[0]), entry_name(table[1]), 2));
    assert(precedes_at(entry_name(table[1]), entry_name(table[2]), 4));
    assert(precedes_at(entry_name(table[2]), entry_name(table[3]), 2));
    assert(precedes_at(entry_name(table[3]), entry_name(table[4]), 7));
    assert(precedes_at(entry_name(table[4]), entry_name(table[5]), 2));
    assert(precedes_at(entry_name(table[5]), entry_name(table[6]), 3));
    assert(precedes_at(entry_name(table[6]), entry_name(table[7]), 6));
    assert(precedes_at(entry_name(table[7]), entry_name(table[8]), 3));
}

/// The names of `ENTITIES_UPPER_E` from entry 8 up to entry 16.
proof fn lemma_names_upper_e_from_8()
    ensures
        names_in_order(ENTITIES_UPPER_E@, 'E' as u8, 8, 16),
{
    broadcast use is_ascii_spec_bytes;

    reveal(precedes);
    let table = ENTITIES_UPPER_E@;
    reveal_strlit("&Ecy;");
    assert(is_ascii("&Ecy;"));
    reveal_strlit("&Edot;");
    assert(is_ascii("&Edot;"));
    reveal_strlit("&Efr;");
    assert(is_ascii("&Efr;"));
    reveal_strlit("&Egrave");
    assert(is_ascii("&Egrave"));
    reveal_strlit("&Egrave;");
    assert(is_ascii("&Egrave;"));
    reveal_strlit("&Element;");
    assert(is_ascii("&Element;"));
    reveal_strlit("&Emacr;");
    assert(is_ascii("&Emacr;"));
    reveal_strlit("&EmptySmallSquare;");
    assert(is_ascii("&EmptySmallSquare;"));
    reveal_strlit("&EmptyVerySmallSquare;");
    assert(is_ascii("&EmptyVerySmallSquare;"));
    assert(precedes_at(entry_name(table[8]), entry_name(table[9]), 2));
    assert(precedes_at(entry_name(table[9]), entry_name(table[10]), 2));
    assert(precedes_at(entry_name(table[10]), entry_name(table[11]), 2));
    assert(precedes_at(entry_name(table[11]), entry_name(table[12]), 7));
    assert(precedes_at(entry_name(table[12]), entry_name(table[13]), 2));
    assert(precedes_at(entry_name(table[13]), entry_name(table[14]), 2));
    assert(precedes_at(entry_name(table[14]), entry_name(table[15]), 3));
    assert(precedes_at(entry_name(table[15]), entry_name(table[16]), 6));
}

/// The names of `ENTITIES_UPPER_E` from entry 16 up to entry 24.
proof fn lemma_names_upper_e_from_16()
    ensures
        names_in_order(ENTITIES_UPPER_E@, 'E' as u8, 16, 24),
{
    broadcast use is_ascii_spec_bytes;

    reveal(precedes);
    let table = ENTITIES_UPPER_E@;
    reveal_strlit("&EmptyVerySmallSquare;");
    assert(is_ascii("&EmptyVerySmallSquare;"));
    reveal_strlit("&Eogon;");
    assert(is_ascii("&Eogon;"));
    reveal_strlit("&Eopf;");
    assert(is_ascii("&Eopf;"));
    reveal_strlit("&Epsilon;");
    assert(is_ascii("&Epsilon;"));
    reveal_strlit("&Equal;");
    assert(is_ascii("&Equal;"));
    reveal_strlit("&EqualTilde;");
    assert(is_ascii("&EqualTilde;"));
    reveal_strlit("&Equilibrium;");
    assert(is_ascii("&Equilibrium;"));
    reveal_strlit("&Escr;");
    assert(is_ascii("&Escr;"));
    reveal_strlit("&Esim;");
    assert(is_ascii("&Esim;"));
    assert(precedes_at(entry_name(table[16]), entry_name(table[17]), 2));
    assert(precedes_at(entry_name(table[17]), entry_name(table[18]), 3));
    assert(precedes_at(entry_name(table[18]), entry_name(table[19]), 2));
    assert(precedes_at(entry_name(table[19]), entry_name(table[20]), 2));
    assert(precedes_at(entry_name(table[20]), entry_name(table[21]), 6));
    assert(precedes_at(entry_name(table[21]), entry_name(table[22]), 4));
    assert(precedes_at(entry_name(table[22]), entry_name(table[23]), 2));
    assert(precedes_at(entry_name(table[23]), entry_name(table[24]), 3));
}

/// The names of `ENTITIES_UPPER_E` from entry 24 up to entry 30.
proof fn lemma_names_upper_e_from_24()
    ensures
        names_in_order(ENTITIES_UPPER_E@, 'E' as u8, 24, 30),
{
    broadcast use is_ascii_spec_bytes;

    reveal(precedes);
    let table = ENTITIES_UPPER_E@;
    reveal_strlit("&Esim;");
    assert(is_ascii("&Esim;"));
    reveal_strlit("&Eta;");
    assert(is_ascii("&Eta;"));
    reveal_strlit("&Euml");
    assert(is_ascii("&Euml"));
    reveal_strlit("&Euml;");
    assert(is_ascii("&Euml;"));
    reveal_strlit("&Exists;");
    assert(is_ascii("&Exists;"));
    reveal_strlit("&ExponentialE;");
    assert(is_ascii("&ExponentialE;"));
    assert(precedes_at(entry_name(table[24]), entry_name(table[25]), 2));
    assert(precedes_at(entry_name(table[25]), entry_name(table[26]), 2));
    assert(precedes_at(entry_name(table[26]), entry_name(table[27]), 5));
    assert(precedes_at(entry_name(table[27]), entry_name(table[28]), 2));
    assert(precedes_at(entry_name(table[28]), entry_name(table[29]), 3));
}

/// Every name in `ENTITIES_UPPER_E` starts with `&E` and has 3 to 33 bytes, and
/// each name comes before the next in the order of byte strings.
pub proof fn lemma_names_upper_e()
    ensures
        names_start_with(ENTITIES_UPPER_E@, 'E' as u8),
        names_ascend(ENTITIES_UPPER_E@),
{
    lemma_names_upper_e_from_0();
    lemma_names_upper_e_from_8();
    lemma_names_upper_e_from_16();
    lemma_names_upper_e_from_24();
}

/// The names of `ENTITIES_LOWER_E` from entry 0 up to entry 8.
proof fn lemma_names_lower_e_from_0()
    ensures
        names_in_order(ENTITIES_LOWER_E@, 'e' as u8, 0, 8),
{
    broadcast use is_ascii_spec_bytes;

    reveal(precedes);
    let table = ENTITIES_LOWER_E@;
    reveal_strlit("&eDDot;");
    assert(is_ascii("&eDDot;"));
    reveal_strlit("&eDot;");
    assert(is_ascii("&eDot;"));
    reveal_strlit("&eacute");
    assert(is_ascii("&eacute"));
    reveal_strlit("&eacute;");
    assert(is_ascii("&eacute;"));
    reveal_strlit("&easter;");
    assert(is_ascii("&easter;"));
    reveal_strlit("&ecaron;");
    assert(is_ascii("&ecaron;"));
    reveal_strlit("&ecir;");
    assert(is_ascii("&ecir;"));
    reveal_strlit("&ecirc");
    assert(is_ascii("&ecirc"));
    reveal_strlit("&ecirc;");
    assert(is_ascii("&ecirc;"));
    assert(precedes_at(entry_name(table[0]), entry_name(table[1]), 3));
    assert(precedes_at(entry_name(table[1]), entry_name(table[2]), 2));
    assert(precedes_at(entry_name(table[2]), entry_name(table[3]), 7));
    assert(precedes_at(entry_name(table[3]), entry_name(table[4]), 3));
    assert(precedes_at(entry_name(table[4]), entry_name(table[5]), 2));
    assert(precedes_at(entry_name(table[5]), entry_name(table[6]), 3));
    assert(precedes_at(entry_name(table[6]), entry_name(table[7]), 5));
    assert(precedes_at(entry_name(table[7]), entry_name(table[8]), 6));
}

/// The names of `ENTITIES_LOWER_E` from entry 8 up to entry 16.
proof fn lemma_names_lower_e_from_8()
    ensures
        names_in_order(ENTITIES_LOWER_E@, 'e' as u8, 8, 16),
{
    broadcast use is_ascii_spec_bytes;

    reveal(precedes);
    let table = ENTITIES_LOWER_E@;
    reveal_strlit("&ecirc;");
    assert(is_ascii("&ecirc;"));
    reveal_strlit("&ecolon;");
    assert(is_ascii("&ecolon;"));
    reveal_strlit("&ecy;");
    assert(is_ascii("&ecy;"));
    reveal_strlit("&edot;");
    assert(is_ascii("&edot;"));
    reveal_strlit("&ee;");
    assert(is_ascii("&ee;"));
    reveal_strlit("&efDot;");
    assert(is_ascii("&efDot;"));
    reveal_strlit("&efr;");
    assert(is_ascii("&efr;"));
    reveal_strlit("&eg;");
    assert(is_ascii("&eg;"));
    reveal_strlit("&egrave");
    assert(is_ascii("&egrave"));
    assert(precedes_at(entry_name(table[8]), entry_name(table[9]), 3));
    assert(precedes_at(entry_name(table[9]), entry_name(table[10]), 3));
    assert(precedes_at(entry_name(table[10]), entry_name(table[11]), 2));
    assert(precedes_at(entry_name(table[11]), entry_name(table[12]), 2));
    assert(precedes_at(entry_name(table[12]), entry_name(table[13]), 2));
    assert(precedes_at(entry_name(table[13]), entry_name(table[14]), 3));
    assert(precedes_at(entry_name(table[14]), entry_name(table[15]), 2));
    assert(precedes_at(entry_name(table[15]), entry_name(table[16]), 3));
}

/// The names of `ENTITIES_LOWER_E` from entry 16 up to entry 24.
proof fn lemma_names_lower_e_from_16()
    ensures
        names_in_order(ENTITIES_LOWER_E@, 'e' as u8, 16, 24),
{
    broadcast use is_ascii_spec_bytes;

    reveal(precedes);
    let table = ENTITIES_LOWER_E@;
    reveal_strlit("&egrave");
    assert(is_ascii("&egrave"));
    reveal_strlit("&egrave;");
    assert(is_ascii("&egrave;"));
    reveal_strlit("&egs;");
    assert(is_ascii("&egs;"));
    reveal_strlit("&egsdot;");
    assert(is_ascii("&egsdot;"));
    reveal_strlit("&el;");
    assert(is_ascii("&el;"));
    reveal_strlit("&elinters;");
    assert(is_ascii("&elinters;"));
    reveal_strlit("&ell;");
    assert(is_ascii("&ell;"));
    reveal_strlit("&els;");
    assert(is_ascii("&els;"));
    reveal_strlit("&elsdot;");
    assert(is_ascii("&elsdot;"));
    assert(precedes_at(entry_name(table[16]), entry_name(table[17]), 7));
    assert(precedes_at(entry_name(table[17]), entry_name(table[18]), 3));
    assert(precedes_at(entry_name(table[18]), entry_name(table[19]), 4));
    assert(precedes_at(entry_name(table[19]), entry_name(table[20]), 2));
    assert(precedes_at(entry_name(table[20]), entry_name(table[21]), 3));
    assert(precedes_at(entry_name(table[21]), entry_name(table[22]), 3));
    assert(precedes_at(entry_name(table[22]), entry_name(table[23]), 3));
    assert(precedes_at(entry_name(table[23]), entry_name(table[24]), 4));
}

/// The names of `ENTITIES_LOWER_E` from entry 24 up to entry 32.
proof fn lemma_names_lower_e_from_24()
    ensures
        names_in_order(ENTITIES_LOWER_E@, 'e' as u8, 24, 32),
{
    broadcast use is_ascii_spec_bytes;

    reveal(precedes);
    let table = ENTITIES_LOWER_E@;
    reveal_strlit("&elsdot;");
    assert(is_ascii("&elsdot;"));
    reveal_strlit("&emacr;");
    assert(is_ascii("&emacr;"));
    reveal_strlit("&empty;");
    assert(is_ascii("&empty;"));
    reveal_strlit("&emptyset;");
    assert(is_ascii("&emptyset;"));
    reveal_strlit("&emptyv;");
    assert(is_ascii("&emptyv;"));
    reveal_strlit("&emsp13;");
    assert(is_ascii("&emsp13;"));
    reveal_strlit("&emsp14;");
    assert(is_ascii("&emsp14;"));
    reveal_strlit("&emsp;");
    assert(is_ascii("&emsp;"));
    reveal_strlit("&eng;");
    assert(is_ascii("&eng;"));
    assert(precedes_at(entry_name(table[24]), entry_name(table[25]), 2));
    assert(precedes_at(entry_name(table[25]), entry_name(table[26]), 3));
    assert(precedes_at(entry_name(table[26]), entry_name(table[27]), 6));
    assert(precedes_at(entry_name(table[27]), entry_name(table[28]), 6));
    assert(precedes_at(entry_name(table[28]), entry_name(table[29]), 3));
    assert(precedes_at(entry_name(table[29]), entry_name(table[30]), 6));
    assert(precedes_at(entry_name(table[30]), entry_name(table[31]), 5));
    assert(precedes_at(entry_name(table[31]), entry_name(table[32]), 2));
}

/// The names of `ENTITIES_LOWER_E` from entry 32 up to entry 40.
proof fn lemma_names_lower_e_from_32()
    ensures
        names_in_order(ENTITIES_LOWER_E@, 'e' as u8, 32, 40),
{
    broadcast use is_ascii_spec_bytes;

    reveal(precedes);
    let table = ENTITIES_LOWER_E@;
    reveal_strlit("&eng;");
    assert(is_ascii("&eng;"));
    reveal_strlit("&ensp;");
    assert(is_ascii("&ensp;"));
    reveal_strlit("&eogon;");
    assert(is_ascii("&eogon;"));
    reveal_strlit("&eopf;");
    assert(is_ascii("&eopf;"));
    reveal_strlit("&epar;");
    assert(is_ascii("&epar;"));
    reveal_strlit("&eparsl;");
    assert(is_ascii("&eparsl;"));
    reveal_strlit("&eplus;");
    assert(is_ascii("&eplus;"));
    reveal_strlit("&epsi;");
    assert(is_ascii("&epsi;"));
    reveal_strlit("&epsilon;");
    assert(is_ascii("&epsilon;"));
    assert(precedes_at(entry_name(table[32]), entry_name(table[33]), 3));
    assert(precedes_at(entry_name(table[33]), entry_name(table[34]), 2));
    assert(precedes_at(entry_name(table[34]), entry_name(table[35]), 3));
    assert(precedes_at(entry_name(table[35]), entry_name(table[36]), 2));
    assert(precedes_at(entry_name(table[36]), entry_name(table[37]), 5));
    assert(precedes_at(entry_name(table[37]), entry_name(table[38]), 3));
    assert(precedes_at(entry_name(table[38]), entry_name(table[39]), 3));
    assert(precedes_at(entry_name(table[39]), entry_name(table[40]), 5));
}

/// The names of `ENTITIES_LOWER_E` from entry 40 up to entry 48.
proof fn lemma_names_lower_e_from_40()
    ensures
        names_in_order(ENTITIES_LOWER_E@, 'e' as u8, 40, 48),
{
    broadcast use is_ascii_spec_bytes;

    reveal(precedes);
    let table = ENTITIES_LOWER_E@;
    reveal_strlit("&epsilon;");
    assert(is_ascii("&epsilon;"));
    reveal_strlit("&epsiv;");
    assert(is_ascii("&epsiv;"));
    reveal_strlit("&eqcirc;");
    assert(is_ascii("&eqcirc;"));
    reveal_strlit("&eqcolon;");
    assert(is_ascii("&eqcolon;"));
    reveal_strlit("&eqsim;");
    assert(is_ascii("&eqsim;"));
    reveal_strlit("&eqslantgtr;");
    assert(is_ascii("&eqslantgtr;"));
    reveal_strlit("&eqslantless;");
    assert(is_ascii("&eqslantless;"));
    reveal_strlit("&equals;");
    assert(is_ascii("&equals;"));
    reveal_strlit("&equest;");
    assert(is_ascii("&equest;"));
    assert(precedes_at(entry_name(table[40]), entry_name(table[41]), 5));
    assert(precedes_at(entry_name(table[41]), entry_name(table[42]), 2));
    assert(precedes_at(entry_name(table[42]), entry_name(table[43]), 4));
    assert(precedes_at(entry_name(table[43]), entry_name(table[44]), 3));
    assert(precedes_at(entry_name(table[44]), entry_name(table[45]), 4));
    assert(precedes_at(entry_name(table[45]), entry_name(table[46]), 8));
    assert(precedes_at(entry_name(table[46]), entry_name(table[47]), 3));
    assert(precedes_at(entry_name(table[47]), entry_name(table[48]), 4));
}

/// The names of `ENTITIES_LOWER_E` from entry 48 up to entry 56.
proof fn lemma_names_lower_e_from_48()
    ensures
        names_in_order(ENTITIES_LOWER_E@, 'e' as u8, 48, 56),
{
    broadcast use is_ascii_spec_bytes;

    reveal(precedes);
    let table = ENTITIES_LOWER_E@;
    reveal_strlit("&equest;");
    assert(is_ascii("&equest;"));
    reveal_strlit("&equiv;");
    assert(is_ascii("&equiv;"));
    reveal_strlit("&equivDD;");
    assert(is_ascii("&equivDD;"));
    reveal_strlit("&eqvparsl;");
    assert(is_ascii("&eqvparsl;"));
    reveal_strlit("&erDot;");
    assert(is_ascii("&erDot;"));
    reveal_strlit("&erarr;");
    assert(is_ascii("&erarr;"));
    reveal_strlit("&escr;");
    assert(is_ascii("&escr;"));
    reveal_strlit("&esdot;");
    assert(is_ascii("&esdot;"));
    reveal_strlit("&esim;");
    assert(is_ascii("&esim;"));
    assert(precedes_at(entry_name(table[48]), entry_name(table[49]), 4));
    assert(precedes_at(entry_name(table[49]), entry_name(table[50]), 6));
    assert(precedes_at(entry_name(table[50]), entry_name(table[51]), 3));
    assert(precedes_at(entry_name(table[51]), entry_name(table[52]), 2));
    assert(precedes_at(entry_name(table[52]), entry_name(table[53]), 3));
    assert(precedes_at(entry_name(table[53]), entry_name(table[54]), 2));
    assert(precedes_at(entry_name(table[54]), entry_name(table[55]), 3));
    assert(precedes_at(entry_name(table[55]), entry_name(table[56]), 3));
}

/// The names of `ENTITIES_LOWER_E` from entry 56 up to entry 64.
proof fn lemma_names_lower_e_from_56()
    ensures
        names_in_order(ENTITIES_LOWER_E@, 'e' as u8, 56, 64),
{
    broadcast use is_ascii_spec_bytes;

    reveal(precedes);
    let table = ENTITIES_LOWER_E@;
    reveal_strlit("&esim;");
    assert(is_ascii("&esim;"));
    reveal_strlit("&eta;");
    assert(is_ascii("&eta;"));
    reveal_strlit("&eth");
    assert(is_ascii("&eth"));
    reveal_strlit("&eth;");
    assert(is_ascii("&eth;"));
    reveal_strlit("&euml");
    assert(is_ascii("&euml"));
    reveal_strlit("&euml;");
    assert(is_ascii("&euml;"));
    reveal_strlit("&euro;");
    assert(is_ascii("&euro;"));
    reveal_strlit("&excl;");
    assert(is_ascii("&excl;"));
    reveal_strlit("&exist;");
    assert(is_ascii("&exist;"));
    assert(precedes_at(entry_name(table[56]), entry_name(table[57]), 2));
    assert(precedes_at(entry_name(table[57]), entry_name(table[58]), 3));
    assert(precedes_at(entry_name(table[58]), entry_name(table[59]), 4));
    assert(precedes_at(entry_name(table[59]), entry_name(table[60]), 2));
    assert(precedes_at(entry_name(table[60]), entry_name(table[61]), 5));
    assert(precedes_at(entry_name(table[61]), entry_name(table[62]), 3));
    assert(precedes_at(entry_name(table[62]), entry_name(table[63]), 2));
    assert(precedes_at(entry_name(table[63]), entry_name(table[64]), 3));
}

/// The names of `ENTITIES_LOWER_E` from entry 64 up to entry 67.
proof fn lemma_names_lower_e_from_64()
    ensures
        names_in_order(ENTITIES_LOWER_E@, 'e' as u8, 64, 67),
{
    broadcast use is_ascii_spec_bytes;

    reveal(precedes);
    let table = ENTITIES_LOWER_E@;
    reveal_strlit("&exist;");
    assert(is_ascii("&exist;"));
    reveal_strlit("&expectation;");
    assert(is_ascii("&expectation;"));
    reveal_strlit("&exponentiale;");
    assert(is_ascii("&exponentiale;"));
    assert(precedes_at(entry_name(table[64]), entry_name(table[65]), 3));
    assert(precedes_at(entry_name(table[65]), entry_name(table[66]), 4));
}

/// Every name in `ENTITIES_LOWER_E` starts with `&e` and has 3 to 33 bytes, and
/// each name comes before the next in the order of byte strings.
pub proof fn lemma_names_lower_e()
    ensures
        names_start_with(ENTITIES_LOWER_E@, 'e' as u8),
        names_ascend(ENTITIES_LOWER_E@),
{
    lemma_names_lower_e_from_0();
    lemma_names_lower_e_from_8();
    lemma_names_lower_e_from_16();
    lemma_names_lower_e_from_24();
    lemma_names_lower_e_from_32();
    lemma_names_lower_e_from_40();
    lemma_names_lower_e_from_48();
    lemma_names_lower_e_from_56();
    lemma_names_lower_e_from_64();
}

} // verus!
