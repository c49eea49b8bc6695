//! The named character references that start with `G` or `g`.

use crate::entities::{names_in_order, names_start_with};
use crate::search::{entry_name, names_ascend, precedes, precedes_at, Entry};
use vstd::prelude::*;
use vstd::string::{is_ascii, is_ascii_spec_bytes};

verus! {

/// The named character references that start with `&G`, each with its
/// expansion, in the order of byte strings.
pub const ENTITIES_UPPER_G: [Entry; 22] = [
    ("&GJcy;", "\u{403}"),
    ("&GT", ">"),
    ("&GT;", ">"),
    ("&Gamma;", "\u{393}"),
    ("&Gammad;", "\u{3dc}"),
    ("&Gbreve;", "\u{11e}"),
    ("&Gcedil;", "\u{122}"),
    ("&Gcirc;", "\u{11c}"),
    ("&Gcy;", "\u{413}"),
    ("&Gdot;", "\u{120}"),
    ("&Gfr;", "\u{1d50a}"),
    ("&Gg;", "\u{22d9}"),
    ("&Gopf;", "\u{1d53e}"),
    ("&GreaterEqual;", "\u{2265}"),
    ("&GreaterEqualLess;", "\u{22db}"),
    ("&GreaterFullEqual;", "\u{2267}"),
    ("&GreaterGreater;", "\u{2aa2}"),
    ("&GreaterLess;", "\u{2277}"),
    ("&GreaterSlantEqual;", "\u{2a7e}"),
    ("&GreaterTilde;", "\u{2273}"),
    ("&Gscr;", "\u{1d4a2}"),
    ("&Gt;", "\u{226b}"),
];

/// The named character references that start with `&g`, each with its
/// expansion, in the order of byte strings.
pub const ENTITIES_LOWER_G: [Entry; 60] = [
    ("&gE;", "\u{2267}"),
    ("&gEl;", "\u{2a8c}"),
    ("&gacute;", "\u{1f5}"),
    ("&gamma;", "\u{3b3}"),
    ("&gammad;", "\u{3dd}"),
    ("&gap;", "\u{2a86}"),
    ("&gbreve;", "\u{11f}"),
    ("&gcirc;", "\u{11d}"),
    ("&gcy;", "\u{433}"),
    ("&gdot;", "\u{121}"),
    ("&ge;", "\u{2265}"),
    ("&gel;", "\u{22db}"),
    ("&geq;", "\u{2265}"),
    ("&geqq;", "\u{2267}"),
    ("&geqslant;", "\u{2a7e}"),
    ("&ges;", "\u{2a7e}"),
    ("&gescc;", "\u{2aa9}"),
    ("&gesdot;", "\u{2a80}"),
    ("&gesdoto;", "\u{2a82}"),
    ("&gesdotol;", "\u{2a84}"),
    ("&gesl;", "\u{22db}\u{fe00}"),
    ("&gesles;", "\u{2a94}"),
    ("&gfr;", "\u{1d524}"),
    ("&gg;", "\u{226b}"),
    ("&ggg;", "\u{22d9}"),
    ("&gimel;", "\u{2137}"),
    ("&gjcy;", "\u{453}"),
    ("&gl;", "\u{2277}"),
    ("&glE;", "\u{2a92}"),
    ("&gla;", "\u{2aa5}"),
    ("&glj;", "\u{2aa4}"),
    ("&gnE;", "\u{2269}"),
    ("&gnap;", "\u{2a8a}"),
    ("&gnapprox;", "\u{2a8a}"),
    ("&gne;", "\u{2a88}"),
    ("&gneq;", "\u{2a88}"),
    ("&gneqq;", "\u{2269}"),
    ("&gnsim;", "\u{22e7}"),
    ("&gopf;", "\u{1d558}"),
    ("&grave;", "`"),
    ("&gscr;", "\u{210a}"),
    ("&gsim;", "\u{2273}"),
    ("&gsime;", "\u{2a8e}"),
    ("&gsiml;", "\u{2a90}"),
    ("&gt", ">"),
    ("&gt;", ">"),
    ("&gtcc;", "\u{2aa7}"),
    ("&gtcir;", "\u{2a7a}"),
    ("&gtdot;", "\u{22d7}"),
    ("&gtlPar;", "\u{2995}"),
    ("&gtquest;", "\u{2a7c}"),
    ("&gtrapprox;", "\u{2a86}"),
    ("&gtrarr;", "\u{2978}"),
    ("&gtrdot;", "\u{22d7}"),
    ("&gtreqless;", "\u{22db}"),
    ("&gtreqqless;", "\u{2a8c}"),
    ("&gtrless;", "\u{2277}"),
    ("&gtrsim;", "\u{2273}"),
    ("&gvertneqq;", "\u{2269}\u{fe00}"),
    ("&gvnE;", "\u{2269}\u{fe00}"),
];

/// The names of `ENTITIES_UPPER_G` from entry 0 up to entry 8.
proof fn lemma_names_upper_g_from_0()
    ensures
        names_in_order(ENTITIES_UPPER_G@, 'G' as u8, 0, 8),
{
    broadcast use is_ascii_spec_bytes;

    reveal(precedes);
    let table = ENTITIES_UPPER_G@;
    reveal_strlit("&GJcy;");
    assert(is_ascii("&GJcy;"));
    reveal_strlit("&GT");
    assert(is_ascii("&GT"));
    reveal_strlit("&GT;");
    assert(is_ascii("&GT;"));
    reveal_strlit("&Gamma;");
    assert(is_ascii("&Gamma;"));
    reveal_strlit("&Gammad;");
    assert(is_ascii("&Gammad;"));
    reveal_strlit("&Gbreve;");
    assert(is_ascii("&Gbreve;"));
    reveal_strlit("&Gcedil;");
    assert(is_ascii("&Gcedil;"));
    reveal_strlit("&Gcirc;");
    assert(is_ascii("&Gcirc;"));
    reveal_strlit("&Gcy;");
    assert(is_ascii("&Gcy;"));
    assert(precedes_at(entry_name(table[0]), entry_name(table[1]), 2));
    assert(precedes_at(entry_name(table[1]), entry_name(table[2]), 3));
    assert(precedes_at(entry_name(table[2]), entry_name(table[3]), 2));
    assert(precedes_at(entry_name(table[3]), entry_name(table[4]), 6));
    assert(precedes_at(entry_name(table[4]), entry_name(table[5]), 2));
    assert(precedes_at(entry_name(table[5]), entry_name(table[6]), 2));
    assert(precedes_at(entry_name(table[6]), entry_name(table[7]), 3));
    assert(precedes_at(entry_name(table[7]), entry_name(table[8]), 3));
}

/// The names of `ENTITIES_UPPER_G` from entry 8 up to entry 16.
proof fn lemma_names_upper_g_from_8()
    ensures
        names_in_order(ENTITIES_UPPER_G@, 'G' as u8, 8, 16),
{
    broadcast use is_ascii_spec_bytes;

    reveal(precedes);
    let table = ENTITIES_UPPER_G@;
    reveal_strlit("&Gcy;");
    assert(is_ascii("&Gcy;"));
    reveal_strlit("&Gdot;");
    assert(is_ascii("&Gdot;"));
    reveal_strlit("&Gfr;");
    assert(is_ascii("&Gfr;"));
    reveal_strlit("&Gg;");
    assert(is_ascii("&Gg;"));
    reveal_strlit("&Gopf;");
    assert(is_ascii("&Gopf;"));
    reveal_strlit("&GreaterEqual;");
    assert(is_ascii("&GreaterEqual;"));
    reveal_strlit("&GreaterEqualLess;");
    assert(is_ascii("&GreaterEqualLess;"));
    reveal_strlit("&GreaterFullEqual;");
    assert(is_ascii("&GreaterFullEqual;"));
    reveal_strlit("&GreaterGreater;");
    assert(is_ascii("&GreaterGreater;"));
    assert(precedes_at(entry_name(table[8]), entry_name(table[9]), 2));
    assert(precedes_at(entry_name(table[9]), entry_name(table[10]), 2));
    assert(precedes_at(entry_name(table[10]), entry_name(table[11]), 2));
    assert(precedes_at(entry_name(table[11]), entry_name(table[12]), 2));
    assert(precedes_at(entry_name(table[12]), entry_name(table[13]), 2));
    assert(precedes_at(entry_name(table[13]), entry_name(table[14]), 13));
    assert(precedes_at(entry_name(table[14]), entry_name(table[15]), 8));
    assert(precedes_at(entry_name(table[15]), entry_name(table[16]), 8));
}

/// The names of `ENTITIES_UPPER_G` from entry 16 up to entry 22.
proof fn lemma_names_upper_g_from_16()
    ensures
        names_in_order(ENTITIES_UPPER_G@, 'G' as u8, 16, 22),
{
    broadcast use is_ascii_spec_bytes;

    reveal(precedes);
    let table = ENTITIES_UPPER_G@;
    reveal_strlit("&GreaterGreater;");
    assert(is_ascii("&GreaterGreater;"));
    reveal_strlit("&GreaterLess;");
    assert(is_ascii("&GreaterLess;"));
    reveal_strlit("&GreaterSlantEqual;");
    assert(is_ascii("&GreaterSlantEqual;"));
    reveal_strlit("&GreaterTilde;");
    assert(is_ascii("&GreaterTilde;"));
    reveal_strlit("&Gscr;");
    assert(is_ascii("&Gscr;"));
    reveal_strlit("&Gt;");
    assert(is_ascii("&Gt;"));
    assert(precedes_at(entry_name(table[16]), entry_name(table[17]), 8));
    assert(precedes_at(entry_name(table[17]), entry_name(table[18]), 8));
    assert(precedes_at(entry_name(table[18]), entry_name(table[19]), 8));
    assert(precedes_at(entry_name(table[19]), entry_name(table[20]), 2));
    assert(precedes_at(entry_name(table[20]), entry_name(table[21]), 2));
}

/// Every name in `ENTITIES_UPPER_G` starts with `&G` and has 3 to 33 bytes, and
/// each name comes before the next in the order of byte strings.
pub proof fn lemma_names_upper_g()
    ensures
        names_start_with(ENTITIES_UPPER_G@, 'G' as u8),
        names_ascend(ENTITIES_UPPER_G@),
{
    lemma_names_upper_g_from_0();
    lemma_names_upper_g_from_8();
    lemma_names_upper_g_from_16();
}

/// The names of `ENTITIES_LOWER_G` from entry 0 up to entry 8.
proof fn lemma_names_lower_g_from_0()
    ensures
        names_in_order(ENTITIES_LOWER_G@, 'g' as u8, 0, 8),
{
    broadcast use is_ascii_spec_bytes;

    reveal(precedes);
    let table = ENTITIES_LOWER_G@;
    reveal_strlit("&gE;");
    assert(is_ascii("&gE;"));
    reveal_strlit("&gEl;");
    assert(is_ascii("&gEl;"));
    reveal_strlit("&gacute;");
    assert(is_ascii("&gacute;"));
    reveal_strlit("&gamma;");
    assert(is_ascii("&gamma;"));
    reveal_strlit("&gammad;");
    assert(is_ascii("&gammad;"));
    reveal_strlit("&gap;");
    assert(is_ascii("&gap;"));
    reveal_strlit("&gbreve;");
    assert(is_ascii("&gbreve;"));
    reveal_strlit("&gcirc;");
    assert(is_ascii("&gcirc;"));
    reveal_strlit("&gcy;");
    assert(is_ascii("&gcy;"));
    assert(precedes_at(entry_name(table[0]), entry_name(table[1]), 3));
    assert(precedes_at(entry_name(table[1]), entry_name(table[2]), 2));
    assert(precedes_at(entry_name(table[2]), entry_name(table[3]), 3));
    assert(precedes_at(entry_name(table[3]), entry_name(table[4]), 6));
    assert(precedes_at(entry_name(table[4]), entry_name(table[5]), 3));
    assert(precedes_at(entry_name(table[5]), entry_name(table[6]), 2));
    assert(precedes_at(entry_name(table[6]), entry_name(table[7]), 2));
    assert(precedes_at(entry_name(table[7]), entry_name(table[8]), 3));
}

/// The names of `ENTITIES_LOWER_G` from entry 8 up to entry 16.
proof fn lemma_names_lower_g_from_8()
    ensures
        names_in_order(ENTITIES_LOWER_G@, 'g' as u8, 8, 16),
{
    broadcast use is_ascii_spec_bytes;

    reveal(precedes);
    let table = ENTITIES_LOWER_G@;
    reveal_strlit("&gcy;");
    assert(is_ascii("&gcy;"));
    reveal_strlit("&gdot;");
    assert(is_ascii("&gdot;"));
    reveal_strlit("&ge;");
    assert(is_ascii("&ge;"));
    reveal_strlit("&gel;");
    assert(is_ascii("&gel;"));
    reveal_strlit("&geq;");
    assert(is_ascii("&geq;"));
    reveal_strlit("&geqq;");
    assert(is_ascii("&geqq;"));
    reveal_strlit("&geqslant;");
    assert(is_ascii("&geqslant;"));
    reveal_strlit("&ges;");
    assert(is_ascii("&ges;"));
    reveal_strlit("&gescc;");
    assert(is_ascii("&gescc;"));
    assert(precedes_at(entry_name(table[8]), entry_name(table[9]), 2));
    assert(precedes_at(entry_name(table[9]), entry_name(table[10]), 2));
    assert(precedes_at(entry_name(table[10]), entry_name(table[11]), 3));
    assert(precedes_at(entry_name(table[11]), entry_name(table[12]), 3));
    assert(precedes_at(entry_name(table[12]), entry_name(table[13]), 4));
    assert(precedes_at(entry_name(table[13]), entry_name(table[14]), 4));
    assert(precedes_at(entry_name(table[14]), entry_name(table[15]), 3));
    assert(precedes_at(entry_name(table[15]), entry_name(table[16]), 4));
}

/// The names of `ENTITIES_LOWER_G` from entry 16 up to entry 24.
proof fn lemma_names_lower_g_from_16()
    ensures
        names_in_order(ENTITIES_LOWER_G@, 'g' as u8, 16, 24),
{
    broadcast use is_ascii_spec_bytes;

    reveal(precedes);
    let table = ENTITIES_LOWER_G@;
    reveal_strlit("&gescc;");
    assert(is_ascii("&gescc;"));
    reveal_strlit("&gesdot;");
    assert(is_ascii("&gesdot;"));
    reveal_strlit("&gesdoto;");
    assert(is_ascii("&gesdoto;"));
    reveal_strlit("&gesdotol;");
    assert(is_ascii("&gesdotol;"));
    reveal_strlit("&gesl;");
    assert(is_ascii("&gesl;"));
    reveal_strlit("&gesles;");
    assert(is_ascii("&gesles;"));
    reveal_strlit("&gfr;");
    assert(is_ascii("&gfr;"));
    reveal_strlit("&gg;");
    assert(is_ascii("&gg;"));
    reveal_strlit("&ggg;");
    assert(is_ascii("&ggg;"));
    assert(precedes_at(entry_name(table[16]), entry_name(table[17]), 4));
    assert(precedes_at(entry_name(table[17]), entry_name(table[18]), 7));
    assert(precedes_at(entry_name(table[18]), entry_name(table[19]), 8));
    assert(precedes_at(entry_name(table[19]), entry_name(table[20]), 4));
    assert(precedes_at(entry_name(table[20]), entry_name(table[21]), 5));
    assert(precedes_at(entry_name(table[21]), entry_name(table[22]), 2));
    assert(precedes_at(entry_name(table[22]), entry_name(table[23]), 2));
    assert(precedes_at(entry_name(table[23]), entry_name(table[24]), 3));
}

/// The names of `ENTITIES_LOWER_G` from entry 24 up to entry 32.
proof fn lemma_names_lower_g_from_24()
    ensures
        names_in_order(ENTITIES_LOWER_G@, 'g' as u8, 24, 32),
{
    broadcast use is_ascii_spec_bytes;

    reveal(precedes);
    let table = ENTITIES_LOWER_G@;
    reveal_strlit("&ggg;");
    assert(is_ascii("&ggg;"));
    reveal_strlit("&gimel;");
    assert(is_ascii("&gimel;"));
    reveal_strlit("&gjcy;");
    assert(is_ascii("&gjcy;"));
    reveal_strlit("&gl;");
    assert(is_ascii("&gl;"));
    reveal_strlit("&glE;");
    assert(is_ascii("&glE;"));
    reveal_strlit("&gla;");
    assert(is_ascii("&gla;"));
    reveal_strlit("&glj;");
    assert(is_ascii("&glj;"));
    reveal_strlit("&gnE;");
    assert(is_ascii("&gnE;"));
    reveal_strlit("&gnap;");
    assert(is_ascii("&gnap;"));
    assert(precedes_at(entry_name(table[24]), entry_name(table[25]), 2));
    assert(precedes_at(entry_name(table[25]), entry_name(table[26]), 2));
    assert(precedes_at(entry_name(table[26]), entry_name(table[27]), 2));
    assert(precedes_at(entry_name(table[27]), entry_name(table[28]), 3));
    assert(precedes_at(entry_name(table[28]), entry_name(table[29]), 3));
    assert(precedes_at(entry_name(table[29]), entry_name(table[30]), 3));
    assert(precedes_at(entry_name(table[30]), entry_name(table[31]), 2));
    assert(precedes_at(entry_name(table[31]), entry_name(table[32]), 3));
}

/// The names of `ENTITIES_LOWER_G` from entry 32 up to entry 40.
proof fn lemma_names_lower_g_from_32()
    ensures
        names_in_order(ENTITIES_LOWER_G@, 'g' as u8, 32, 40),
{
    broadcast use is_ascii_spec_bytes;

    reveal(precedes);
    let table = ENTITIES_LOWER_G@;
    reveal_strlit("&gnap;");
    assert(is_ascii("&gnap;"));
    reveal_strlit("&gnapprox;");
    assert(is_ascii("&gnapprox;"));
    reveal_strlit("&gne;");
    assert(is_ascii("&gne;"));
    reveal_strlit("&gneq;");
    assert(is_ascii("&gneq;"));
    reveal_strlit("&gneqq;");
    assert(is_ascii("&gneqq;"));
    reveal_strlit("&gnsim;");
    assert(is_ascii("&gnsim;"));
    reveal_strlit("&gopf;");
    assert(is_ascii("&gopf;"));
    reveal_strlit("&grave;");
    assert(is_ascii("&grave;"));
    reveal_strlit("&gscr;");
    assert(is_ascii("&gscr;"));
    assert(precedes_at(entry_name(table[32]), entry_name(table[33]), 5));
    assert(precedes_at(entry_name(table[33]), entry_name(table[34]), 3));
    assert(precedes_at(entry_name(table[34]), entry_name(table[35]), 4));
    assert(precedes_at(entry_name(table[35]), entry_name(table[36]), 5));
    assert(precedes_at(entry_name(table[36]), entry_name(table[37]), 3));
    assert(precedes_at(entry_name(table[37]), entry_name(table[38]), 2));
    assert(precedes_at(entry_name(table[38]), entry_name(table[39]), 2));
    assert(precedes_at(entry_name(table[39]), entry_name(table[40]), 2));
}

/// The names of `ENTITIES_LOWER_G` from entry 40 up to entry 48.
proof fn lemma_names_lower_g_from_40()
    ensures
        names_in_order(ENTITIES_LOWER_G@, 'g' as u8, 40, 48),
{
    broadcast use is_ascii_spec_bytes;

    reveal(precedes);
    let table = ENTITIES_LOWER_G@;
    reveal_strlit("&gscr;");
    assert(is_ascii("&gscr;"));
    reveal_strlit("&gsim;");
    assert(is_ascii("&gsim;"));
    reveal_strlit("&gsime;");
    assert(is_ascii("&gsime;"));
    reveal_strlit("&gsiml;");
    assert(is_ascii("&gsiml;"));
    reveal_strlit("&gt");
    assert(is_ascii("&gt"));
    reveal_strlit("&gt;");
    assert(is_ascii("&gt;"));
    reveal_strlit("&gtcc;");
    assert(is_ascii("&gtcc;"));
    reveal_strlit("&gtcir;");
    assert(is_ascii("&gtcir;"));
    reveal_strlit("&gtdot;");
    assert(is_ascii("&gtdot;"));
    assert(precedes_at(entry_name(table[40]), entry_name(table[41]), 3));
    assert(precedes_at(entry_name(table[41]), entry_name(table[42]), 5));
    assert(precedes_at(entry_name(table[42]), entry_name(table[43]), 5));
    assert(precedes_at(entry_name(table[43]), entry_name(table[44]), 2));
    assert(precedes_at(entry_name(table[44]), entry_name(table[45]), 3));
    assert(precedes_at(entry_name(table[45]), entry_name(table[46]), 3));
    assert(precedes_at(entry_name(table[46]), entry_name(table[47]), 4));
    assert(precedes_at(entry_name(table[47]), entry_name(table[48]), 3));
}

/// The names of `ENTITIES_LOWER_G` from entry 48 up to entry 56.
proof fn lemma_names_lower_g_from_48()
    ensures
        names_in_order(ENTITIES_LOWER_G@, 'g' as u8, 48, 56),
{
    broadcast use is_ascii_spec_bytes;

    reveal(precedes);
    let table = ENTITIES_LOWER_G@;
    reveal_strlit("&gtdot;");
    assert(is_ascii("&gtdot;"));
    reveal_strlit("&gtlPar;");
    assert(is_ascii("&gtlPar;"));
    reveal_strlit("&gtquest;");
    assert(is_ascii("&gtquest;"));
    reveal_strlit("&gtrapprox;");
    assert(is_ascii("&gtrapprox;"));
    reveal_strlit("&gtrarr;");
    assert(is_ascii("&gtrarr;"));
    reveal_strlit("&gtrdot;");
    assert(is_ascii("&gtrdot;"));
    reveal_strlit("&gtreqless;");
    assert(is_ascii("&gtreqless;"));
    reveal_strlit("&gtreqqless;");
    assert(is_ascii("&gtreqqless;"));
    reveal_strlit("&gtrless;");
    assert(is_ascii("&gtrless;"));
    assert(precedes_at(entry_name(table[48]), entry_name(table[49]), 3));
    assert(precedes_at(entry_name(table[49]), entry_name(table[50]), 3));
    assert(precedes_at(entry_name(table[50]), entry_name(table[51]), 3));
    assert(precedes_at(entry_name(table[51]), entry_name(table[52]), 5));
    assert(precedes_at(entry_name(table[52]), entry_name(table[53]), 4));
    assert(precedes_at(entry_name(table[53]), entry_name(table[54]), 4));
    assert(precedes_at(entry_name(table[54]), entry_name(table[55]), 6));
    assert(precedes_at(entry_name(table[55]), entry_name(table[56]), 4));
}

/// The names of `ENTITIES_LOWER_G` from entry 56 up to entry 60.
proof fn lemma_names_lower_g_from_56()
    ensures
        names_in_order(ENTITIES_LOWER_G@, 'g' as u8, 56, 60),
{
    broadcast use is_ascii_spec_bytes;

    reveal(precedes);
    let table = ENTITIES_LOWER_G@;
    reveal_strlit("&gtrless;");
    assert(is_ascii("&gtrless;"));
    reveal_strlit("&gtrsim;");
    assert(is_ascii("&gtrsim;"));
    reveal_strlit("&gvertneqq;");
    assert(is_ascii("&gvertneqq;"));
    reveal_strlit("&gvnE;");
    assert(is_ascii("&gvnE;"));
    assert(precedes_at(entry_name(table[56]), entry_name(table[57]), 4));
    assert(precedes_at(entry_name(table[57]), entry_name(table[58]), 2));
    assert(precedes_at(entry_name(table[58]), entry_name(table[59]), 3));
}

/// Every name in `ENTITIES_LOWER_G` starts with `&g` and has 3 to 33 bytes, and
/// each name comes before the next in the order of byte strings.
pub proof fn lemma_names_lower_g()
    ensures
        names_start_with(ENTITIES_LOWER_G@, 'g' as u8),
        names_ascend(ENTITIES_LOWER_G@),
{
    lemma_names_lower_g_from_0();
    lemma_names_lower_g_from_8();
    lemma_names_lower_g_from_16();
    lemma_names_lower_g_from_24();
    lemma_names_lower_g_from_32();
    lemma_names_lower_g_from_40();
    lemma_names_lower_g_from_48();
    lemma_names_lower_g_from_56();
}

} // verus!
