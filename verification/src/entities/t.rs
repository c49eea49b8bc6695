//! The named character references that start with `T` or `t`.

use crate::entities::{names_in_order, names_start_with};
use crate::search::{entry_name, names_ascend, precedes, precedes_at, Entry};
use vstd::prelude::*;
use vstd::string::{is_ascii, is_ascii_spec_bytes};

verus! {

/// The named character references that start with `&T`, each with its
/// expansion, in the order of byte strings.
pub const ENTITIES_UPPER_T: [Entry; 23] = [
    ("&THORN", "\u{de}"),
    ("&THORN;", "\u{de}"),
    ("&TRADE;", "\u{2122}"),
    ("&TSHcy;", "\u{40b}"),
    ("&TScy;", "\u{426}"),
    ("&Tab;", "\u{9}"),
    ("&Tau;", "\u{3a4}"),
    ("&Tcaron;", "\u{164}"),
    ("&Tcedil;", "\u{162}"),
    ("&Tcy;", "\u{422}"),
    ("&Tfr;", "\u{1d517}"),
    ("&Therefore;", "\u{2234}"),
    ("&Theta;", "\u{398}"),
    ("&ThickSpace;", "\u{205f}\u{200a}"),
    ("&ThinSpace;", "\u{2009}"),
    ("&Tilde;", "\u{223c}"),
    ("&TildeEqual;", "\u{2243}"),
    ("&TildeFullEqual;", "\u{2245}"),
    ("&TildeTilde;", "\u{2248}"),
    ("&Topf;", "\u{1d54b}"),
    ("&TripleDot;", "\u{20db}"),
    ("&Tscr;", "\u{1d4af}"),
    ("&Tstrok;", "\u{166}"),
];

/// The named character references that start with `&t`, each with its
/// expansion, in the order of byte strings.
pub const ENTITIES_LOWER_T: [Entry; 58] = [
    ("&target;", "\u{2316}"),
    ("&tau;", "\u{3c4}"),
    ("&tbrk;", "\u{23b4}"),
    ("&tcaron;", "\u{165}"),
    ("&tcedil;", "\u{163}"),
    ("&tcy;", "\u{442}"),
    ("&tdot;", "\u{20db}"),
    ("&telrec;", "\u{2315}"),
    ("&tfr;", "\u{1d531}"),
    ("&there4;", "\u{2234}"),
    ("&therefore;", "\u{2234}"),
    ("&theta;", "\u{3b8}"),
    ("&thetasym;", "\u{3d1}"),
    ("&thetav;", "\u{3d1}"),
    ("&thickapprox;", "\u{2248}"),
    ("&thicksim;", "\u{223c}"),
    ("&thinsp;", "\u{2009}"),
    ("&thkap;", "\u{2248}"),
    ("&thksim;", "\u{223c}"),
    ("&thorn", "\u{fe}"),
    ("&thorn;", "\u{fe}"),
    ("&tilde;", "\u{2dc}"),
    ("&times", "\u{d7}"),
    ("&times;", "\u{d7}"),
    ("&timesb;", "\u{22a0}"),
    ("&timesbar;", "\u{2a31}"),
    ("&timesd;", "\u{2a30}"),
    ("&tint;", "\u{222d}"),
    ("&toea;", "\u{2928}"),
    ("&top;", "\u{22a4}"),
    ("&topbot;", "\u{2336}"),
    ("&topcir;", "\u{2af1}"),
    ("&topf;", "\u{1d565}"),
    ("&topfork;", "\u{2ada}"),
    ("&tosa;", "\u{2929}"),
    ("&tprime;", "\u{2034}"),
    ("&trade;", "\u{2122}"),
    ("&triangle;", "\u{25b5}"),
    ("&triangledown;", "\u{25bf}"),
    ("&triangleleft;", "\u{25c3}"),
    ("&trianglelefteq;", "\u{22b4}"),
    ("&triangleq;", "\u{225c}"),
    ("&triangleright;", "\u{25b9}"),
    ("&trianglerighteq;", "\u{22b5}"),
    ("&tridot;", "\u{25ec}"),
    ("&trie;", "\u{225c}"),
    ("&triminus;", "\u{2a3a}"),
    ("&triplus;", "\u{2a39}"),
    ("&trisb;", "\u{29cd}"),
    ("&tritime;", "\u{2a3b}"),
    ("&trpezium;", "\u{23e2}"),
    ("&tscr;", "\u{1d4c9}"),
    ("&tscy;", "\u{446}"),
    ("&tshcy;", "\u{45b}"),
    ("&tstrok;", "\u{167}"),
    ("&twixt;", "\u{226c}"),
    ("&twoheadleftarrow;", "\u{219e}"),
    ("&twoheadrightarrow;", "\u{21a0}"),
];

/// The names of `ENTITIES_UPPER_T` from entry 0 up to entry 8.
proof fn lemma_names_upper_t_from_0()
    ensures
        names_in_order(ENTITIES_UPPER_T@, 'T' as u8, 0, 8),
{
    broadcast use is_ascii_spec_bytes;

    reveal(precedes);
    let table = ENTITIES_UPPER_T@;
    reveal_strlit("&THORN");
    assert(is_ascii("&THORN"));
    reveal_strlit("&THORN;");
    assert(is_ascii("&THORN;"));
    reveal_strlit("&TRADE;");
    assert(is_ascii("&TRADE;"));
    reveal_strlit("&TSHcy;");
    assert(is_ascii("&TSHcy;"));
    reveal_strlit("&TScy;");
    assert(is_ascii("&TScy;"));
    reveal_strlit("&Tab;");
    assert(is_ascii("&Tab;"));
    reveal_strlit("&Tau;");
    assert(is_ascii("&Tau;"));
    reveal_strlit("&Tcaron;");
    assert(is_ascii("&Tcaron;"));
    reveal_strlit("&Tcedil;");
    assert(is_ascii("&Tcedil;"));
    assert(precedes_at(entry_name(table[0]), entry_name(table[1]), 6));
    assert(precedes_at(entry_name(table[1]), entry_name(table[2]), 2));
    assert(precedes_at(entry_name(table[2]), entry_name(table[3]), 2));
    assert(precedes_at(entry_name(table[3]), entry_name(table[4]), 3));
    assert(precedes_at(entry_name(table[4]), entry_name(table[5]), 2));
    assert(precedes_at(entry_name(table[5]), entry_name(table[6]), 3));
    assert(precedes_at(entry_name(table[6]), entry_name(table[7]), 2));
    assert(precedes_at(entry_name(table[7]), entry_name(table[8]), 3));
}

/// The names of `ENTITIES_UPPER_T` from entry 8 up to entry 16.
proof fn lemma_names_upper_t_from_8()
    ensures
        names_in_order(ENTITIES_UPPER_T@, 'T' as u8, 8, 16),
{
    broadcast use is_ascii_spec_bytes;

    reveal(precedes);
    let table = ENTITIES_UPPER_T@;
    reveal_strlit("&Tcedil;");
    assert(is_ascii("&Tcedil;"));
    reveal_strlit("&Tcy;");
    assert(is_ascii("&Tcy;"));
    reveal_strlit("&Tfr;");
    assert(is_ascii("&Tfr;"));
    reveal_strlit("&Therefore;");
    assert(is_ascii("&Therefore;"));
    reveal_strlit("&Theta;");
    assert(is_ascii("&Theta;"));
    reveal_strlit("&ThickSpace;");
    assert(is_ascii("&ThickSpace;"));
    reveal_strlit("&ThinSpace;");
    assert(is_ascii("&ThinSpace;"));
    reveal_strlit("&Tilde;");
    assert(is_ascii("&Tilde;"));
    reveal_strlit("&TildeEqual;");
    assert(is_ascii("&TildeEqual;"));
    assert(precedes_at(entry_name(table[8]), entry_name(table[9]), 3));
    assert(precedes_at(entry_name(table[9]), entry_name(table[10]), 2));
    assert(precedes_at(entry_name(table[10]), entry_name(table[11]), 2));
    assert(precedes_at(entry_name(table[11]), entry_name(table[12]), 4));
    assert(precedes_at(entry_name(table[12]), entry_name(table[13]), 3));
    assert(precedes_at(entry_name(table[13]), entry_name(table[14]), 4));
    assert(precedes_at(entry_name(table[14]), entry_name(table[15]), 2));
    assert(precedes_at(entry_name(table[15]), entry_name(table[16]), 6));
}

/// The names of `ENTITIES_UPPER_T` from entry 16 up to entry 23.
proof fn lemma_names_upper_t_from_16()
    ensures
        names_in_order(ENTITIES_UPPER_T@, 'T' as u8, 16, 23),
{
    broadcast use is_ascii_spec_bytes;

    reveal(precedes);
    let table = ENTITIES_UPPER_T@;
    reveal_strlit("&TildeEqual;");
    assert(is_ascii("&TildeEqual;"));
    reveal_strlit("&TildeFullEqual;");
    assert(is_ascii("&TildeFullEqual;"));
    reveal_strlit("&TildeTilde;");
    assert(is_ascii("&TildeTilde;"));
    reveal_strlit("&Topf;");
    assert(is_ascii("&Topf;"));
    reveal_strlit("&TripleDot;");
    assert(is_ascii("&TripleDot;"));
    reveal_strlit("&Tscr;");
    assert(is_ascii("&Tscr;"));
    reveal_strlit("&Tstrok;");
    assert(is_ascii("&Tstrok;"));
    assert(precedes_at(entry_name(table[16]), entry_name(table[17]), 6));
    assert(precedes_at(entry_name(table[17]), entry_name(table[18]), 6));
    assert(precedes_at(entry_name(table[18]), entry_name(table[19]), 2));
    assert(precedes_at(entry_name(table[19]), entry_name(table[20]), 2));
    assert(precedes_at(entry_name(table[20]), entry_name(table[21]), 2));
    assert(precedes_at(entry_name(table[21]), entry_name(table[22]), 3));
}

/// Every name in `ENTITIES_UPPER_T` starts with `&T` and has 3 to 33 bytes, and
/// each name comes before the next in the order of byte strings.
pub proof fn lemma_names_upper_t()
    ensures
        names_start_with(ENTITIES_UPPER_T@, 'T' as u8),
        names_ascend(ENTITIES_UPPER_T@),
{
    lemma_names_upper_t_from_0();
    lemma_names_upper_t_from_8();
    lemma_names_upper_t_from_16();
}

/// The names of `ENTITIES_LOWER_T` from entry 0 up to entry 8.
proof fn lemma_names_lower_t_from_0()
    ensures
        names_in_order(ENTITIES_LOWER_T@, 't' as u8, 0, 8),
{
    broadcast use is_ascii_spec_bytes;

    reveal(precedes);
    let table = ENTITIES_LOWER_T@;
    reveal_strlit("&target;");
    assert(is_ascii("&target;"));
    reveal_strlit("&tau;");
    assert(is_ascii("&tau;"));
    reveal_strlit("&tbrk;");
    assert(is_ascii("&tbrk;"));
    reveal_strlit("&tcaron;");
    assert(is_ascii("&tcaron;"));
    reveal_strlit("&tcedil;");
    assert(is_ascii("&tcedil;"));
    reveal_strlit("&tcy;");
    assert(is_ascii("&tcy;"));
    reveal_strlit("&tdot;");
    assert(is_ascii("&tdot;"));
    reveal_strlit("&telrec;");
    assert(is_ascii("&telrec;"));
    reveal_strlit("&tfr;");
    assert(is_ascii("&tfr;"));
    assert(precedes_at(entry_name(table[0]), entry_name(table[1]), 3));
    assert(precedes_at(entry_name(table[1]), entry_name(table[2]), 2));
    assert(precedes_at(entry_name(table[2]), entry_name(table[3]), 2));
    assert(precedes_at(entry_name(table[3]), entry_name(table[4]), 3));
    assert(precedes_at(entry_name(table[4]), entry_name(table[5]), 3));
    assert(precedes_at(entry_name(table[5]), entry_name(table[6]), 2));
    assert(precedes_at(entry_name(table[6]), entry_name(table[7]), 2));
    assert(precedes_at(entry_name(table[7]), entry_name(table[8]), 2));
}

/// The names of `ENTITIES_LOWER_T` from entry 8 up to entry 16.
proof fn lemma_names_lower_t_from_8()
    ensures
        names_in_order(ENTITIES_LOWER_T@, 't' as u8, 8, 16),
{
    broadcast use is_ascii_spec_bytes;

    reveal(precedes);
    let table = ENTITIES_LOWER_T@;
    reveal_strlit("&tfr;");
    assert(is_ascii("&tfr;"));
    reveal_strlit("&there4;");
    assert(is_ascii("&there4;"));
    reveal_strlit("&therefore;");
    assert(is_ascii("&therefore;"));
    reveal_strlit("&theta;");
    assert(is_ascii("&theta;"));
    reveal_strlit("&thetasym;");
    assert(is_ascii("&thetasym;"));
    reveal_strlit("&thetav;");
    assert(is_ascii("&thetav;"));
    reveal_strlit("&thickapprox;");
    assert(is_ascii("&thickapprox;"));
    reveal_strlit("&thicksim;");
    assert(is_ascii("&thicksim;"));
    reveal_strlit("&thinsp;");
    assert(is_ascii("&thinsp;"));
    assert(precedes_at(entry_name(table[8]), entry_name(table[9]), 2));
    assert(precedes_at(entry_name(table[9]), entry_name(table[10]), 6));
    assert(precedes_at(entry_name(table[10]), entry_name(table[11]), 4));
    assert(precedes_at(entry_name(table[11]), entry_name(table[12]), 6));
    assert(precedes_at(entry_name(table[12]), entry_name(table[13]), 6));
    assert(precedes_at(entry_name(table[13]), entry_name(table[14]), 3));
    assert(precedes_at(entry_name(table[14]), entry_name(table[15]), 6));
    assert(precedes_at(entry_name(table[15]), entry_name(table[16]), 4));
}

/// The names of `ENTITIES_LOWER_T` from entry 16 up to entry 24.
proof fn lemma_names_lower_t_from_16()
    ensures
        names_in_order(ENTITIES_LOWER_T@, 't' as u8, 16, 24),
{
    broadcast use is_ascii_spec_bytes;

    reveal(precedes);
    let table = ENTITIES_LOWER_T@;
    reveal_strlit("&thinsp;");
    assert(is_ascii("&thinsp;"));
    reveal_strlit("&thkap;");
    assert(is_ascii("&thkap;"));
    reveal_strlit("&thksim;");
    assert(is_ascii("&thksim;"));
    reveal_strlit("&thorn");
    assert(is_ascii("&thorn"));
    reveal_strlit("&thorn;");
    assert(is_ascii("&thorn;"));
    reveal_strlit("&tilde;");
    assert(is_ascii("&tilde;"));
    reveal_strlit("&times");
    assert(is_ascii("&times"));
    reveal_strlit("&times;");
    assert(is_ascii("&times;"));
    reveal_strlit("&timesb;");
    assert(is_ascii("&timesb;"));
    assert(precedes_at(entry_name(table[16]), entry_name(table[17]), 3));
    assert(precedes_at(entry_name(table[17]), entry_name(table[18]), 4));
    assert(precedes_at(entry_name(table[18]), entry_name(table[19]), 3));
    assert(precedes_at(entry_name(table[19]), entry_name(table[20]), 6));
    assert(precedes_at(entry_name(table[20]), entry_name(table[21]), 2));
    assert(precedes_at(entry_name(table[21]), entry_name(table[22]), 3));
    assert(precedes_at(entry_name(table[22]), entry_name(table[23]), 6));
    assert(precedes_at(entry_name(table[23]), entry_name(table[24]), 6));
}

/// The names of `ENTITIES_LOWER_T` from entry 24 up to entry 32.
proof fn lemma_names_lower_t_from_24()
    ensures
        names_in_order(ENTITIES_LOWER_T@, 't' as u8, 24, 32),
{
    broadcast use is_ascii_spec_bytes;

    reveal(precedes);
    let table = ENTITIES_LOWER_T@;
    reveal_strlit("&timesb;");
    assert(is_ascii("&timesb;"));
    reveal_strlit("&timesbar;");
    assert(is_ascii("&timesbar;"));
    reveal_strlit("&timesd;");
    assert(is_ascii("&timesd;"));
    reveal_strlit("&tint;");
    assert(is_ascii("&tint;"));
    reveal_strlit("&toea;");
    assert(is_ascii("&toea;"));
    reveal_strlit("&top;");
    assert(is_ascii("&top;"));
    reveal_strlit("&topbot;");
    assert(is_ascii("&topbot;"));
    reveal_strlit("&topcir;");
    assert(is_ascii("&topcir;"));
    reveal_strlit("&topf;");
    assert(is_ascii("&topf;"));
    assert(precedes_at(entry_name(table[24]), entry_name(table[25]), 7));
    assert(precedes_at(entry_name(table[25]), entry_name(table[26]), 6));
    assert(precedes_at(entry_name(table[26]), entry_name(table[27]), 3));
    assert(precedes_at(entry_name(table[27]), entry_name(table[28]), 2));
    assert(precedes_at(entry_name(table[28]), entry_name(table[29]), 3));
    assert(precedes_at(entry_name(table[29]), entry_name(table[30]), 4));
    assert(precedes_at(entry_name(table[30]), entry_name(table[31]), 4));
    assert(precedes_at(entry_name(table[31]), entry_name(table[32]), 4));
}

/// The names of `ENTITIES_LOWER_T` from entry 32 up to entry 40.
proof fn lemma_names_lower_t_from_32()
    ensures
        names_in_order(ENTITIES_LOWER_T@, 't' as u8, 32, 40),
{
    broadcast use is_ascii_spec_bytes;

    reveal(precedes);
    let table = ENTITIES_LOWER_T@;
    reveal_strlit("&topf;");
    assert(is_ascii("&topf;"));
    reveal_strlit("&topfork;");
    assert(is_ascii("&topfork;"));
    reveal_strlit("&tosa;");
    assert(is_ascii("&tosa;"));
    reveal_strlit("&tprime;");
    assert(is_ascii("&tprime;"));
    reveal_strlit("&trade;");
    assert(is_ascii("&trade;"));
    reveal_strlit("&triangle;");
    assert(is_ascii("&triangle;"));
    reveal_strlit("&triangledown;");
    assert(is_ascii("&triangledown;"));
    reveal_strlit("&triangleleft;");
    assert(is_ascii("&triangleleft;"));
    reveal_strlit("&trianglelefteq;");
    assert(is_ascii("&trianglelefteq;"));
    assert(precedes_at(entry_name(table[32]), entry_name(table[33]), 5));
    assert(precedes_at(entry_name(table[33]), entry_name(table[34]), 3));
    assert(precedes_at(entry_name(table[34]), entry_name(table[35]), 2));
    assert(precedes_at(entry_name(table[35]), entry_name(table[36]), 2));
    assert(precedes_at(entry_name(table[36]), entry_name(table[37]), 3));
    assert(precedes_at(entry_name(table[37]), entry_name(table[38]), 9));
    assert(precedes_at(entry_name(table[38]), entry_name(table[39]), 9));
    assert(precedes_at(entry_name(table[39]), entry_name(table[40]), 13));
}

/// The names of `ENTITIES_LOWER_T` from entry 40 up to entry 48.
proof fn lemma_names_lower_t_from_40()
    ensures
        names_in_order(ENTITIES_LOWER_T@, 't' as u8, 40, 48),
{
    broadcast use is_ascii_spec_bytes;

    reveal(precedes);
    let table = ENTITIES_LOWER_T@;
    reveal_strlit("&trianglelefteq;");
    assert(is_ascii("&trianglelefteq;"));
    reveal_strlit("&triangleq;");
    assert(is_ascii("&triangleq;"));
    reveal_strlit("&triangleright;");
    assert(is_ascii("&triangleright;"));
    reveal_strlit("&trianglerighteq;");
    assert(is_ascii("&trianglerighteq;"));
    reveal_strlit("&tridot;");
    assert(is_ascii("&tridot;"));
    reveal_strlit("&trie;");
    assert(is_ascii("&trie;"));
    reveal_strlit("&triminus;");
    assert(is_ascii("&triminus;"));
    reveal_strlit("&triplus;");
    assert(is_ascii("&triplus;"));
    reveal_strlit("&trisb;");
    assert(is_ascii("&trisb;"));
    assert(precedes_at(entry_name(table[40]), entry_name(table[41]), 9));
    assert(precedes_at(entry_name(table[41]), entry_name(table[42]), 9));
    assert(precedes_at(entry_name(table[42]), entry_name(table[43]), 14));
    assert(precedes_at(entry_name(table[43]), entry_name(table[44]), 4));
    assert(precedes_at(entry_name(table[44]), entry_name(table[45]), 4));
    assert(precedes_at(entry_name(table[45]), entry_name(table[46]), 4));
    assert(precedes_at(entry_name(table[46]), entry_name(table[47]), 4));
    assert(precedes_at(entry_name(table[47]), entry_name(table[48]), 4));
}

/// The names of `ENTITIES_LOWER_T` from entry 48 up to entry 56.
proof fn lemma_names_lower_t_from_48()
    ensures
        names_in_order(ENTITIES_LOWER_T@, 't' as u8, 48, 56),
{
    broadcast use is_ascii_spec_bytes;

    reveal(precedes);
    let table = ENTITIES_LOWER_T@;
    reveal_strlit("&trisb;");
    assert(is_ascii("&trisb;"));
    reveal_strlit("&tritime;");
    assert(is_ascii("&tritime;"));
    reveal_strlit("&trpezium;");
    assert(is_ascii("&trpezium;"));
    reveal_strlit("&tscr;");
    assert(is_ascii("&tscr;"));
    reveal_strlit("&tscy;");
    assert(is_ascii("&tscy;"));
    reveal_strlit("&tshcy;");
    assert(is_ascii("&tshcy;"));
    reveal_strlit("&tstrok;");
    assert(is_ascii("&tstrok;"));
    reveal_strlit("&twixt;");
    assert(is_ascii("&twixt;"));
    reveal_strlit("&twoheadleftarrow;");
    assert(is_ascii("&twoheadleftarrow;"));
    assert(precedes_at(entry_name(table[48]), entry_name(table[49]), 4));
    assert(precedes_at(entry_name(table[49]), entry_name(table[50]), 3));
    assert(precedes_at(entry_name(table[50]), entry_name(table[51]), 2));
    assert(precedes_at(entry_name(table[51]), entry_name(table[52]), 4));
    assert(precedes_at(entry_name(table[52]), entry_name(table[53]), 3));
    assert(precedes_at(entry_name(table[53]), entry_name(table[54]), 3));
    assert(precedes_at(entry_name(table[54]), entry_name(table[55]), 2));
    assert(precedes_at(entry_name(table[55]), entry_name(table[56]), 3));
}

/// The names of `ENTITIES_LOWER_T` from entry 56 up to entry 58.
proof fn lemma_names_lower_t_from_56()
    ensures
        names_in_order(ENTITIES_LOWER_T@, 't' as u8, 56, 58),
{
    broadcast use is_ascii_spec_bytes;

    reveal(precedes);
    let table = ENTITIES_LOWER_T@;
    reveal_strlit("&twoheadleftarrow;");
    assert(is_ascii("&twoheadleftarrow;"));
    reveal_strlit("&twoheadrightarrow;");
    assert(is_ascii("&twoheadrightarrow;"));
    assert(precedes_at(entry_name(table[56]), entry_name(table[57]), 8));
}

/// Every name in `ENTITIES_LOWER_T` starts with `&t` and has 3 to 33 bytes, and
/// each name comes before the next in the order of byte strings.
pub proof fn lemma_names_lower_t()
    ensures
        names_start_with(ENTITIES_LOWER_T@, 't' as u8),
        names_ascend(ENTITIES_LOWER_T@),
{
    lemma_names_lower_t_from_0();
    lemma_names_lower_t_from_8();
    lemma_names_lower_t_from_16();
    lemma_names_lower_t_from_24();
    lemma_names_lower_t_from_32();
    lemma_names_lower_t_from_40();
    lemma_names_lower_t_from_48();
    lemma_names_lower_t_from_56();
}

} // verus!
