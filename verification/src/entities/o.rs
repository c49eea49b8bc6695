//! The named character references that start with `O` or `o`.

use crate::entities::{names_in_order, names_start_with};
use crate::search::{entry_name, names_ascend, precedes, precedes_at, Entry};
use vstd::prelude::*;
use vstd::string::{is_ascii, is_ascii_spec_bytes};

verus! {

/// The named character references that start with `&O`, each with its
/// expansion, in the order of byte strings.
pub const ENTITIES_UPPER_O: [Entry; 29] = [
    ("&OElig;", "\u{152}"),
    ("&Oacute", "\u{d3}"),
    ("&Oacute;", "\u{d3}"),
    ("&Ocirc", "\u{d4}"),
    ("&Ocirc;", "\u{d4}"),
    ("&Ocy;", "\u{41e}"),
    ("&Odblac;", "\u{150}"),
    ("&Ofr;", "\u{1d512}"),
    ("&Ograve", "\u{d2}"),
    ("&Ograve;", "\u{d2}"),
    ("&Omacr;", "\u{14c}"),
    ("&Omega;", "\u{3a9}"),
    ("&Omicron;", "\u{39f}"),
    ("&Oopf;", "\u{1d546}"),
    ("&OpenCurlyDoubleQuote;", "\u{201c}"),
    ("&OpenCurlyQuote;", "\u{2018}"),
    ("&Or;", "\u{2a54}"),
    ("&Oscr;", "\u{1d4aa}"),
    ("&Oslash", "\u{d8}"),
    ("&Oslash;", "\u{d8}"),
    ("&Otilde", "\u{d5}"),
    ("&Otilde;", "\u{d5}"),
    ("&Otimes;", "\u{2a37}"),
    ("&Ouml", "\u{d6}"),
    ("&Ouml;", "\u{d6}"),
    ("&OverBar;", "\u{203e}"),
    ("&OverBrace;", "\u{23de}"),
    ("&OverBracket;", "\u{23b4}"),
    ("&OverParenthesis;", "\u{23dc}"),
];

/// The named character references that start with `&o`, each with its
/// expansion, in the order of byte strings.
pub const ENTITIES_LOWER_O: [Entry; 61] = [
    ("&oS;", "\u{24c8}"),
    ("&oacute", "\u{f3}"),
    ("&oacute;", "\u{f3}"),
    ("&oast;", "\u{229b}"),
    ("&ocir;", "\u{229a}"),
    ("&ocirc", "\u{f4}"),
    ("&ocirc;", "\u{f4}"),
    ("&ocy;", "\u{43e}"),
    ("&odash;", "\u{229d}"),
    ("&odblac;", "\u{151}"),
    ("&odiv;", "\u{2a38}"),
    ("&odot;", "\u{2299}"),
    ("&odsold;", "\u{29bc}"),
    ("&oelig;", "\u{153}"),
    ("&ofcir;", "\u{29bf}"),
    ("&ofr;", "\u{1d52c}"),
    ("&ogon;", "\u{2db}"),
    ("&ograve", "\u{f2}"),
    ("&ograve;", "\u{f2}"),
    ("&ogt;", "\u{29c1}"),
    ("&ohbar;", "\u{29b5}"),
    ("&ohm;", "\u{3a9}"),
    ("&oint;", "\u{222e}"),
    ("&olarr;", "\u{21ba}"),
    ("&olcir;", "\u{29be}"),
    ("&olcross;", "\u{29bb}"),
    ("&oline;", "\u{203e}"),
    ("&olt;", "\u{29c0}"),
    ("&omacr;", "\u{14d}"),
    ("&omega;", "\u{3c9}"),
    ("&omicron;", "\u{3bf}"),
    ("&omid;", "\u{29b6}"),
    ("&ominus;", "\u{2296}"),
    ("&oopf;", "\u{1d560}"),
    ("&opar;", "\u{29b7}"),
    ("&operp;", "\u{29b9}"),
    ("&oplus;", "\u{2295}"),
    ("&or;", "\u{2228}"),
    ("&orarr;", "\u{21bb}"),
    ("&ord;", "\u{2a5d}"),
    ("&order;", "\u{2134}"),
    ("&orderof;", "\u{2134}"),
    ("&ordf", "\u{aa}"),
    ("&ordf;", "\u{aa}"),
    ("&ordm", "\u{ba}"),
    ("&ordm;", "\u{ba}"),
    ("&origof;", "\u{22b6}"),
    ("&oror;", "\u{2a56}"),
    ("&orslope;", "\u{2a57}"),
    ("&orv;", "\u{2a5b}"),
    ("&oscr;", "\u{2134}"),
    ("&oslash", "\u{f8}"),
    ("&oslash;", "\u{f8}"),
    ("&osol;", "\u{2298}"),
    ("&otilde", "\u{f5}"),
    ("&otilde;", "\u{f5}"),
    ("&otimes;", "\u{2297}"),
    ("&otimesas;", "\u{2a36}"),
    ("&ouml", "\u{f6}"),
    ("&ouml;", "\u{f6}"),
    ("&ovbar;", "\u{233d}"),
];

/// The names of `ENTITIES_UPPER_O` from entry 0 up to entry 8.
proof fn lemma_names_upper_o_from_0()
    ensures
        names_in_order(ENTITIES_UPPER_O@, 'O' as u8, 0, 8),
{
    broadcast use is_ascii_spec_bytes;

    reveal(precedes);
    let table = ENTITIES_UPPER_O@;
    reveal_strlit("&OElig;");
    assert(is_ascii("&OElig;"));
    reveal_strlit("&Oacute");
    assert(is_ascii("&Oacute"));
    reveal_strlit("&Oacute;");
    assert(is_ascii("&Oacute;"));
    reveal_strlit("&Ocirc");
    assert(is_ascii("&Ocirc"));
    reveal_strlit("&Ocirc;");
    assert(is_ascii("&Ocirc;"));
    reveal_strlit("&Ocy;");
    assert(is_ascii("&Ocy;"));
    reveal_strlit("&Odblac;");
    assert(is_ascii("&Odblac;"));
    reveal_strlit("&Ofr;");
    assert(is_ascii("&Ofr;"));
    reveal_strlit("&Ograve");
    assert(is_ascii("&Ograve"));
    assert(precedes_at(entry_name(table[0]), entry_name(table[1]), 2));
    assert(precedes_at(entry_name(table[1]), entry_name(table[2]), 7));
    assert(precedes_at(entry_name(table[2]), entry_name(table[3]), 2));
    assert(precedes_at(entry_name(table[3]), entry_name(table[4]), 6));
    assert(precedes_at(entry_name(table[4]), entry_name(table[5]), 3));
    assert(precedes_at(entry_name(table[5]), entry_name(table[6]), 2));
    assert(precedes_at(entry_name(table[6]), entry_name(table[7]), 2));
    assert(precedes_at(entry_name(table[7]), entry_name(table[8]), 2));
}

/// The names of `ENTITIES_UPPER_O` from entry 8 up to entry 16.
proof fn lemma_names_upper_o_from_8()
    ensures
        names_in_order(ENTITIES_UPPER_O@, 'O' as u8, 8, 16),
{
    broadcast use is_ascii_spec_bytes;

    reveal(precedes);
    let table = ENTITIES_UPPER_O@;
    reveal_strlit("&Ograve");
    assert(is_ascii("&Ograve"));
    reveal_strlit("&Ograve;");
    assert(is_ascii("&Ograve;"));
    reveal_strlit("&Omacr;");
    assert(is_ascii("&Omacr;"));
    reveal_strlit("&Omega;");
    assert(is_ascii("&Omega;"));
    reveal_strlit("&Omicron;");
    assert(is_ascii("&Omicron;"));
    reveal_strlit("&Oopf;");
    assert(is_ascii("&Oopf;"));
    reveal_strlit("&OpenCurlyDoubleQuote;");
    assert(is_ascii("&OpenCurlyDoubleQuote;"));
    reveal_strlit("&OpenCurlyQuote;");
    assert(is_ascii("&OpenCurlyQuote;"));
    reveal_strlit("&Or;");
    assert(is_ascii("&Or;"));
    assert(precedes_at(entry_name(table[8]), entry_name(table[9]), 7));
    assert(precedes_at(entry_name(table[9]), entry_name(table[10]), 2));
    assert(precedes_at(entry_name(table[10]), entry_name(table[11]), 3));
    assert(precedes_at(entry_name(table[11]), entry_name(table[12]), 3));
    assert(precedes_at(entry_name(table[12]), entry_name(table[13]), 2));
    assert(precedes_at(entry_name(table[13]), entry_name(table[14]), 2));
    assert(precedes_at(entry_name(table[14]), entry_name(table[15]), 10));
    assert(precedes_at(entry_name(table[15]), entry_name(table[16]), 2));
}

/// The names of `ENTITIES_UPPER_O` from entry 16 up to entry 24.
proof fn lemma_names_upper_o_from_16()
    ensures
        names_in_order(ENTITIES_UPPER_O@, 'O' as u8, 16, 24),
{
    broadcast use is_ascii_spec_bytes;

    reveal(precedes);
    let table = ENTITIES_UPPER_O@;
    reveal_strlit("&Or;");
    assert(is_ascii("&Or;"));
    reveal_strlit("&Oscr;");
    assert(is_ascii("&Oscr;"));
    reveal_strlit("&Oslash");
    assert(is_ascii("&Oslash"));
    reveal_strlit("&Oslash;");
    assert(is_ascii("&Oslash;"));
    reveal_strlit("&Otilde");
    assert(is_ascii("&Otilde"));
    reveal_strlit("&Otilde;");
    assert(is_ascii("&Otilde;"));
    reveal_strlit("&Otimes;");
    assert(is_ascii("&Otimes;"));
    reveal_strlit("&Ouml");
    assert(is_ascii("&Ouml"));
    reveal_strlit("&Ouml;");
    assert(is_ascii("&Ouml;"));
    assert(precedes_at(entry_name(table[16]), entry_name(table[17]), 2));
    assert(precedes_at(entry_name(table[17]), entry_name(table[18]), 3));
    assert(precedes_at(entry_name(table[18]), entry_name(table[19]), 7));
    assert(precedes_at(entry_name(table[19]), entry_name(table[20]), 2));
    assert(precedes_at(entry_name(table[20]), entry_name(table[21]), 7));
    assert(precedes_at(entry_name(table[21]), entry_name(table[22]), 4));
    assert(precedes_at(entry_name(table[22]), entry_name(table[23]), 2));
    assert(precedes_at(entry_name(table[23]), entry_name(table[24]), 5));
}

/// The names of `ENTITIES_UPPER_O` from entry 24 up to entry 29.
proof fn lemma_names_upper_o_from_24()
    ensures
        names_in_order(ENTITIES_UPPER_O@, 'O' as u8, 24, 29),
{
    broadcast use is_ascii_spec_bytes;

    reveal(precedes);
    let table = ENTITIES_UPPER_O@;
    reveal_strlit("&Ouml;");
    assert(is_ascii("&Ouml;"));
    reveal_strlit("&OverBar;");
    assert(is_ascii("&OverBar;"));
    reveal_strlit("&OverBrace;");
    assert(is_ascii("&OverBrace;"));
    reveal_strlit("&OverBracket;");
    assert(is_ascii("&OverBracket;"));
    reveal_strlit("&OverParenthesis;");
    assert(is_ascii("&OverParenthesis;"));
    assert(precedes_at(entry_name(table[24]), entry_name(table[25]), 2));
    assert(precedes_at(entry_name(table[25]), entry_name(table[26]), 6));
    assert(precedes_at(entry_name(table[26]), entry_name(table[27]), 9));
    assert(precedes_at(entry_name(table[27]), entry_name(table[28]), 5));
}

/// Every name in `ENTITIES_UPPER_O` starts with `&O` and has 3 to 33 bytes, and
/// each name comes before the next in the order of byte strings.
pub proof fn lemma_names_upper_o()
    ensures
        names_start_with(ENTITIES_UPPER_O@, 'O' as u8),
        names_ascend(ENTITIES_UPPER_O@),
{
    lemma_names_upper_o_from_0();
    lemma_names_upper_o_from_8();
    lemma_names_upper_o_from_16();
    lemma_names_upper_o_from_24();
}

/// The names of `ENTITIES_LOWER_O` from entry 0 up to entry 8.
proof fn lemma_names_lower_o_from_0()
    ensures
        names_in_order(ENTITIES_LOWER_O@, 'o' as u8, 0, 8),
{
    broadcast use is_ascii_spec_bytes;

    reveal(precedes);
    let table = ENTITIES_LOWER_O@;
    reveal_strlit("&oS;");
    assert(is_ascii("&oS;"));
    reveal_strlit("&oacute");
    assert(is_ascii("&oacute"));
    reveal_strlit("&oacute;");
    assert(is_ascii("&oacute;"));
    reveal_strlit("&oast;");
    assert(is_ascii("&oast;"));
    reveal_strlit("&ocir;");
    assert(is_ascii("&ocir;"));
    reveal_strlit("&ocirc");
    assert(is_ascii("&ocirc"));
    reveal_strlit("&ocirc;");
    assert(is_ascii("&ocirc;"));
    reveal_strlit("&ocy;");
    assert(is_ascii("&ocy;"));
    reveal_strlit("&odash;");
    assert(is_ascii("&odash;"));
    assert(precedes_at(entry_name(table[0]), entry_name(table[1]), 2));
    assert(precedes_at(entry_name(table[1]), entry_name(table[2]), 7));
    assert(precedes_at(entry_name(table[2]), entry_name(table[3]), 3));
    assert(precedes_at(entry_name(table[3]), entry_name(table[4]), 2));
    assert(precedes_at(entry_name(table[4]), entry_name(table[5]), 5));
    assert(precedes_at(entry_name(table[5]), entry_name(table[6]), 6));
    assert(precedes_at(entry_name(table[6]), entry_name(table[7]), 3));
    assert(precedes_at(entry_name(table[7]), entry_name(table[8]), 2));
}

/// The names of `ENTITIES_LOWER_O` from entry 8 up to entry 16.
proof fn lemma_names_lower_o_from_8()
    ensures
        names_in_order(ENTITIES_LOWER_O@, 'o' as u8, 8, 16),
{
    broadcast use is_ascii_spec_bytes;

    reveal(precedes);
    let table = ENTITIES_LOWER_O@;
    reveal_strlit("&odash;");
    assert(is_ascii("&odash;"));
    reveal_strlit("&odblac;");
    assert(is_ascii("&odblac;"));
    reveal_strlit("&odiv;");
    assert(is_ascii("&odiv;"));
    reveal_strlit("&odot;");
    assert(is_ascii("&odot;"));
    reveal_strlit("&odsold;");
    assert(is_ascii("&odsold;"));
    reveal_strlit("&oelig;");
    assert(is_ascii("&oelig;"));
    reveal_strlit("&ofcir;");
    assert(is_ascii("&ofcir;"));
    reveal_strlit("&ofr;");
    assert(is_ascii("&ofr;"));
    reveal_strlit("&ogon;");
    assert(is_ascii("&ogon;"));
    assert(precedes_at(entry_name(table[8]), entry_name(table[9]), 3));
    assert(precedes_at(entry_name(table[9]), entry_name(table[10]), 3));
    assert(precedes_at(entry_name(table[10]), entry_name(table[11]), 3));
    assert(precedes_at(entry_name(table[11]), entry_name(table[12]), 3));
    assert(precedes_at(entry_name(table[12]), entry_name(table[13]), 2));
    assert(precedes_at(entry_name(table[13]), entry_name(table[14]), 2));
    assert(precedes_at(entry_name(table[14]), entry_name(table[15]), 3));
    assert(precedes_at(entry_name(table[15]), entry_name(table[16]), 2));
}

/// The names of `ENTITIES_LOWER_O` from entry 16 up to entry 24.
proof fn lemma_names_lower_o_from_16()
    ensures
        names_in_order(ENTITIES_LOWER_O@, 'o' as u8, 16, 24),
{
    broadcast use is_ascii_spec_bytes;

    reveal(precedes);
    let table = ENTITIES_LOWER_O@;
    reveal_strlit("&ogon;");
    assert(is_ascii("&ogon;"));
    reveal_strlit("&ograve");
    assert(is_ascii("&ograve"));
    reveal_strlit("&ograve;");
    assert(is_ascii("&ograve;"));
    reveal_strlit("&ogt;");
    assert(is_ascii("&ogt;"));
    reveal_strlit("&ohbar;");
    assert(is_ascii("&ohbar;"));
    reveal_strlit("&ohm;");
    assert(is_ascii("&ohm;"));
    reveal_strlit("&oint;");
    assert(is_ascii("&oint;"));
    reveal_strlit("&olarr;");
    assert(is_ascii("&olarr;"));
    reveal_strlit("&olcir;");
    assert(is_ascii("&olcir;"));
    assert(precedes_at(entry_name(table[16]), entry_name(table[17]), 3));
    assert(precedes_at(entry_name(table[17]), entry_name(table[18]), 7));
    assert(precedes_at(entry_name(table[18]), entry_name(table[19]), 3));
    assert(precedes_at(entry_name(table[19]), entry_name(table[20]), 2));
    assert(precedes_at(entry_name(table[20]), entry_name(table[21]), 3));
    assert(precedes_at(entry_name(table[21]), entry_name(table[22]), 2));
    assert(precedes_at(entry_name(table[22]), entry_name(table[23]), 2));
    assert(precedes_at(entry_name(table[23]), entry_name(table[24]), 3));
}

/// The names of `ENTITIES_LOWER_O` from entry 24 up to entry 32.
proof fn lemma_names_lower_o_from_24()
    ensures
        names_in_order(ENTITIES_LOWER_O@, 'o' as u8, 24, 32),
{
    broadcast use is_ascii_spec_bytes;

    reveal(precedes);
    let table = ENTITIES_LOWER_O@;
    reveal_strlit("&olcir;");
    assert(is_ascii("&olcir;"));
    reveal_strlit("&olcross;");
    assert(is_ascii("&olcross;"));
    reveal_strlit("&oline;");
    assert(is_ascii("&oline;"));
    reveal_strlit("&olt;");
    assert(is_ascii("&olt;"));
    reveal_strlit("&omacr;");
    assert(is_ascii("&omacr;"));
    reveal_strlit("&omega;");
    assert(is_ascii("&omega;"));
    reveal_strlit("&omicron;");
    assert(is_ascii("&omicron;"));
    reveal_strlit("&omid;");
    assert(is_ascii("&omid;"));
    reveal_strlit("&ominus;");
    assert(is_ascii("&ominus;"));
    assert(precedes_at(entry_name(table[24]), entry_name(table[25]), 4));
    assert(precedes_at(entry_name(table[25]), entry_name(table[26]), 3));
    assert(precedes_at(entry_name(table[26]), entry_name(table[27]), 3));
    assert(precedes_at(entry_name(table[27]), entry_name(table[28]), 2));
    assert(precedes_at(entry_name(table[28]), entry_name(table[29]), 3));
    assert(precedes_at(entry_name(table[29]), entry_name(table[30]), 3));
    assert(precedes_at(entry_name(table[30]), entry_name(table[31]), 4));
    assert(precedes_at(entry_name(table[31]), entry_name(table[32]), 4));
}

/// The names of `ENTITIES_LOWER_O` from entry 32 up to entry 40.
proof fn lemma_names_lower_o_from_32()
    ensures
        names_in_order(ENTITIES_LOWER_O@, 'o' as u8, 32, 40),
{
    broadcast use is_ascii_spec_bytes;

    reveal(precedes);
    let table = ENTITIES_LOWER_O@;
    reveal_strlit("&ominus;");
    assert(is_ascii("&ominus;"));
    reveal_strlit("&oopf;");
    assert(is_ascii("&oopf;"));
    reveal_strlit("&opar;");
    assert(is_ascii("&opar;"));
    reveal_strlit("&operp;");
    assert(is_ascii("&operp;"));
    reveal_strlit("&oplus;");
    assert(is_ascii("&oplus;"));
    reveal_strlit("&or;");
    assert(is_ascii("&or;"));
    reveal_strlit("&orarr;");
    assert(is_ascii("&orarr;"));
    reveal_strlit("&ord;");
    assert(is_ascii("&ord;"));
    reveal_strlit("&order;");
    assert(is_ascii("&order;"));
    assert(precedes_at(entry_name(table[32]), entry_name(table[33]), 2));
    assert(precedes_at(entry_name(table[33]), entry_name(table[34]), 2));
    assert(precedes_at(entry_name(table[34]), entry_name(table[35]), 3));
    assert(precedes_at(entry_name(table[35]), entry_name(table[36]), 3));
    assert(precedes_at(entry_name(table[36]), entry_name(table[37]), 2));
    assert(precedes_at(entry_name(table[37]), entry_name(table[38]), 3));
    assert(precedes_at(entry_name(table[38]), entry_name(table[39]), 3));
    assert(precedes_at(entry_name(table[39]), entry_name(table[40]), 4));
}

/// The names of `ENTITIES_LOWER_O` from entry 40 up to entry 48.
proof fn lemma_names_lower_o_from_40()
    ensures
        names_in_order(ENTITIES_LOWER_O@, 'o' as u8, 40, 48),
{
    broadcast use is_ascii_spec_bytes;

    reveal(precedes);
    let table = ENTITIES_LOWER_O@;
    reveal_strlit("&order;");
    assert(is_ascii("&order;"));
    reveal_strlit("&orderof;");
    assert(is_ascii("&orderof;"));
    reveal_strlit("&ordf");
    assert(is_ascii("&ordf"));
    reveal_strlit("&ordf;");
    assert(is_ascii("&ordf;"));
    reveal_strlit("&ordm");
    assert(is_ascii("&ordm"));
    reveal_strlit("&ordm;");
    assert(is_ascii("&ordm;"));
    reveal_strlit("&origof;");
    assert(is_ascii("&origof;"));
    reveal_strlit("&oror;");
    assert(is_ascii("&oror;"));
    reveal_strlit("&orslope;");
    assert(is_ascii("&orslope;"));
    assert(precedes_at(entry_name(table[40]), entry_name(table[41]), 6));
    assert(precedes_at(entry_name(table[41]), entry_name(table[42]), 4));
    assert(precedes_at(entry_name(table[42]), entry_name(table[43]), 5));
    assert(precedes_at(entry_name(table[43]), entry_name(table[44]), 4));
    assert(precedes_at(entry_name(table[44]), entry_name(table[45]), 5));
    assert(precedes_at(entry_name(table[45]), entry_name(table[46]), 3));
    assert(precedes_at(entry_name(table[46]), entry_name(table[47]), 3));
    assert(precedes_at(entry_name(table[47]), entry_name(table[48]), 3));
}

/// The names of `ENTITIES_LOWER_O` from entry 48 up to entry 56.
proof fn lemma_names_lower_o_from_48()
    ensures
        names_in_order(ENTITIES_LOWER_O@, 'o' as u8, 48, 56),
{
    broadcast use is_ascii_spec_bytes;

    reveal(precedes);
    let table = ENTITIES_LOWER_O@;
    reveal_strlit("&orslope;");
    assert(is_ascii("&orslope;"));
    reveal_strlit("&orv;");
    assert(is_ascii("&orv;"));
    reveal_strlit("&oscr;");
    assert(is_ascii("&oscr;"));
    reveal_strlit("&oslash");
    assert(is_ascii("&oslash"));
    reveal_strlit("&oslash;");
    assert(is_ascii("&oslash;"));
    reveal_strlit("&osol;");
    assert(is_ascii("&osol;"));
    reveal_strlit("&otilde");
    assert(is_ascii("&otilde"));
    reveal_strlit("&otilde;");
    assert(is_ascii("&otilde;"));
    reveal_strlit("&otimes;");
    assert(is_ascii("&otimes;"));
    assert(precedes_at(entry_name(table[48]), entry_name(table[49]), 3));
    assert(precedes_at(entry_name(table[49]), entry_name(table[50]), 2));
    assert(precedes_at(entry_name(table[50]), entry_name(table[51]), 3));
    assert(precedes_at(entry_name(table[51]), entry_name(table[52]), 7));
    assert(precedes_at(entry_name(table[52]), entry_name(table[53]), 3));
    assert(precedes_at(entry_name(table[53]), entry_name(table[54]), 2));
    assert(precedes_at(entry_name(table[54]), entry_name(table[55]), 7));
    assert(precedes_at(entry_name(table[55]), entry_name(table[56]), 4));
}

/// The names of `ENTITIES_LOWER_O` from entry 56 up to entry 61.
proof fn lemma_names_lower_o_from_56()
    ensures
        names_in_order(ENTITIES_LOWER_O@, 'o' as u8, 56, 61),
{
    broadcast use is_ascii_spec_bytes;

    reveal(precedes);
    let table = ENTITIES_LOWER_O@;
    reveal_strlit("&otimes;");
    assert(is_ascii("&otimes;"));
    reveal_strlit("&otimesas;");
    assert(is_ascii("&otimesas;"));
    reveal_strlit("&ouml");
    assert(is_ascii("&ouml"));
    reveal_strlit("&ouml;");
    assert(is_ascii("&ouml;"));
    reveal_strlit("&ovbar;");
    assert(is_ascii("&ovbar;"));
    assert(precedes_at(entry_name(table[56]), entry_name(table[57]), 7));
    assert(precedes_at(entry_name(table[57]), entry_name(table[58]), 2));
    assert(precedes_at(entry_name(table[58]), entry_name(table[59]), 5));
    assert(precedes_at(entry_name(table[59]), entry_name(table[60]), 2));
}

/// Every name in `ENTITIES_LOWER_O` starts with `&o` and has 3 to 33 bytes, and
/// each name comes before the next in the order of byte strings.
pub proof fn lemma_names_lower_o()
    ensures
        names_start_with(ENTITIES_LOWER_O@, 'o' as u8),
        names_ascend(ENTITIES_LOWER_O@),
{
    lemma_names_lower_o_from_0();
    lemma_names_lower_o_from_8();
    lemma_names_lower_o_from_16();
    lemma_names_lower_o_from_24();
    lemma_names_lower_o_from_32();
    lemma_names_lower_o_from_40();
    lemma_names_lower_o_from_48();
    lemma_names_lower_o_from_56();
}

} // verus!
