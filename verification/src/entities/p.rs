//! The named character references that start with `P` or `p`.

use crate::entities::{names_in_order, names_start_with};
use crate::search::{entry_name, names_ascend, precedes, precedes_at, Entry};
use vstd::prelude::*;
use vstd::string::{is_ascii, is_ascii_spec_bytes};

verus! {

/// The named character references that start with `&P`, each with its
/// expansion, in the order of byte strings.
pub const ENTITIES_UPPER_P: [Entry; 19] = [
    ("&PartialD;", "\u{2202}"),
    ("&Pcy;", "\u{41f}"),
    ("&Pfr;", "\u{1d513}"),
    ("&Phi;", "\u{3a6}"),
    ("&Pi;", "\u{3a0}"),
    ("&PlusMinus;", "\u{b1}"),
    ("&Poincareplane;", "\u{210c}"),
    ("&Popf;", "\u{2119}"),
    ("&Pr;", "\u{2abb}"),
    ("&Precedes;", "\u{227a}"),
    ("&PrecedesEqual;", "\u{2aaf}"),
    ("&PrecedesSlantEqual;", "\u{227c}"),
    ("&PrecedesTilde;", "\u{227e}"),
    ("&Prime;", "\u{2033}"),
    ("&Product;", "\u{220f}"),
    ("&Proportion;", "\u{2237}"),
    ("&Proportional;", "\u{221d}"),
    ("&Pscr;", "\u{1d4ab}"),
    ("&Psi;", "\u{3a8}"),
];

/// The named character references that start with `&p`, each with its
/// expansion, in the order of byte strings.
pub const ENTITIES_LOWER_P: [Entry; 69] = [
    ("&par;", "\u{2225}"),
    ("&para", "\u{b6}"),
    ("&para;", "\u{b6}"),
    ("&parallel;", "\u{2225}"),
    ("&parsim;", "\u{2af3}"),
    ("&parsl;", "\u{2afd}"),
    ("&part;", "\u{2202}"),
    ("&pcy;", "\u{43f}"),
    ("&percnt;", "%"),
    ("&period;", "."),
    ("&permil;", "\u{2030}"),
    ("&perp;", "\u{22a5}"),
    ("&pertenk;", "\u{2031}"),
    ("&pfr;", "\u{1d52d}"),
    ("&phi;", "\u{3c6}"),
    ("&phiv;", "\u{3d5}"),
    ("&phmmat;", "\u{2133}"),
    ("&phone;", "\u{260e}"),
    ("&pi;", "\u{3c0}"),
    ("&pitchfork;", "\u{22d4}"),
    ("&piv;", "\u{3d6}"),
    ("&planck;", "\u{210f}"),
    ("&planckh;", "\u{210e}"),
    ("&plankv;", "\u{210f}"),
    ("&plus;", "+"),
    ("&plusacir;", "\u{2a23}"),
    ("&plusb;", "\u{229e}"),
    ("&pluscir;", "\u{2a22}"),
    ("&plusdo;", "\u{2214}"),
    ("&plusdu;", "\u{2a25}"),
    ("&pluse;", "\u{2a72}"),
    ("&plusmn", "\u{b1}"),
    ("&plusmn;", "\u{b1}"),
    ("&plussim;", "\u{2a26}"),
    ("&plustwo;", "\u{2a27}"),
    ("&pm;", "\u{b1}"),
    ("&pointint;", "\u{2a15}"),
    ("&popf;", "\u{1d561}"),
    ("&pound", "\u{a3}"),
    ("&pound;", "\u{a3}"),
    ("&pr;", "\u{227a}"),
    ("&prE;", "\u{2ab3}"),
    ("&prap;", "\u{2ab7}"),
    ("&prcue;", "\u{227c}"),
    ("&pre;", "\u{2aaf}"),
    ("&prec;", "\u{227a}"),
    ("&precapprox;", "\u{2ab7}"),
    ("&preccurlyeq;", "\u{227c}"),
    ("&preceq;", "\u{2aaf}"),
    ("&precnapprox;", "\u{2ab9}"),
    ("&precneqq;", "\u{2ab5}"),
    ("&precnsim;", "\u{22e8}"),
    ("&precsim;", "\u{227e}"),
    ("&prime;", "\u{2032}"),
    ("&primes;", "\u{2119}"),
    ("&prnE;", "\u{2ab5}"),
    ("&prnap;", "\u{2ab9}"),
    ("&prnsim;", "\u{22e8}"),
    ("&prod;", "\u{220f}"),
    ("&profalar;", "\u{232e}"),
    ("&profline;", "\u{2312}"),
    ("&profsurf;", "\u{2313}"),
    ("&prop;", "\u{221d}"),
    ("&propto;", "\u{221d}"),
    ("&prsim;", "\u{227e}"),
    ("&prurel;", "\u{22b0}"),
    ("&pscr;", "\u{1d4c5}"),
    ("&psi;", "\u{3c8}"),
    ("&puncsp;", "\u{2008}"),
];

/// The names of `ENTITIES_UPPER_P` from entry 0 up to entry 8.
proof fn lemma_names_upper_p_from_0()
    ensures
        names_in_order(ENTITIES_UPPER_P@, 'P' as u8, 0, 8),
{
    broadcast use is_ascii_spec_bytes;

    reveal(precedes);
    let table = ENTITIES_UPPER_P@;
    reveal_strlit("&PartialD;");
    assert(is_ascii("&PartialD;"));
    reveal_strlit("&Pcy;");
    assert(is_ascii("&Pcy;"));
    reveal_strlit("&Pfr;");
    assert(is_ascii("&Pfr;"));
    reveal_strlit("&Phi;");
    assert(is_ascii("&Phi;"));
    reveal_strlit("&Pi;");
    assert(is_ascii("&Pi;"));
    reveal_strlit("&PlusMinus;");
    assert(is_ascii("&PlusMinus;"));
    reveal_strlit("&Poincareplane;");
    assert(is_ascii("&Poincareplane;"));
    reveal_strlit("&Popf;");
    assert(is_ascii("&Popf;"));
    reveal_strlit("&Pr;");
    assert(is_ascii("&Pr;"));
    assert(precedes_at(entry_name(table[0]), entry_name(table[1]), 2));
    assert(precedes_at(entry_name(table[1]), entry_name(table[2]), 2));
    assert(precedes_at(entry_name(table[2]), entry_name(table[3]), 2));
    assert(precedes_at(entry_name(table[3]), entry_name(table[4]), 2));
    assert(precedes_at(entry_name(table[4]), entry_name(table[5]), 2));
    assert(precedes_at(entry_name(table[5]), entry_name(table[6]), 2));
    assert(precedes_at(entry_name(table[6]), entry_name(table[7]), 3));
    assert(precedes_at(entry_name(table[7]), entry_name(table[8]), 2));
}

/// The names of `ENTITIES_UPPER_P` from entry 8 up to entry 16.
proof fn lemma_names_upper_p_from_8()
    ensures
        names_in_order(ENTITIES_UPPER_P@, 'P' as u8, 8, 16),
{
    broadcast use is_ascii_spec_bytes;

    reveal(precedes);
    let table = ENTITIES_UPPER_P@;
    reveal_strlit("&Pr;");
    assert(is_ascii("&Pr;"));
    reveal_strlit("&Precedes;");
    assert(is_ascii("&Precedes;"));
    reveal_strlit("&PrecedesEqual;");
    assert(is_ascii("&PrecedesEqual;"));
    reveal_strlit("&PrecedesSlantEqual;");
    assert(is_ascii("&PrecedesSlantEqual;"));
    reveal_strlit("&PrecedesTilde;");
    assert(is_ascii("&PrecedesTilde;"));
    reveal_strlit("&Prime;");
    assert(is_ascii("&Prime;"));
    reveal_strlit("&Product;");
    assert(is_ascii("&Product;"));
    reveal_strlit("&Proportion;");
    assert(is_ascii("&Proportion;"));
    reveal_strlit("&Proportional;");
    assert(is_ascii("&Proportional;"));
    assert(precedes_at(entry_name(table[8]), entry_name(table[9]), 3));
    assert(precedes_at(entry_name(table[9]), entry_name(table[10]), 9));
    assert(precedes_at(entry_name(table[10]), entry_name(table[11]), 9));
    assert(precedes_at(entry_name(table[11]), entry_name(table[12]), 9));
    assert(precedes_at(entry_name(table[12]), entry_name(table[13]), 3));
    assert(precedes_at(entry_name(table[13]), entry_name(table[14]), 3));
    assert(precedes_at(entry_name(table[14]), entry_name(table[15]), 4));
    assert(precedes_at(entry_name(table[15]), entry_name(table[16]), 11));
}

/// The names of `ENTITIES_UPPER_P` from entry 16 up to entry 19.
proof fn lemma_names_upper_p_from_16()
    ensures
        names_in_order(ENTITIES_UPPER_P@, 'P' as u8, 16, 19),
{
    broadcast use is_ascii_spec_bytes;

    reveal(precedes);
    let table = ENTITIES_UPPER_P@;
    reveal_strlit("&Proportional;");
    assert(is_ascii("&Proportional;"));
    reveal_strlit("&Pscr;");
    assert(is_ascii("&Pscr;"));
    reveal_strlit("&Psi;");
    assert(is_ascii("&Psi;"));
    assert(precedes_at(entry_name(table[16]), entry_name(table[17]), 2));
    assert(precedes_at(entry_name(table[17]), entry_name(table[18]), 3));
}

/// Every name in `ENTITIES_UPPER_P` starts with `&P` and has 3 to 33 bytes, and
/// each name comes before the next in the order of byte strings.
pub proof fn lemma_names_upper_p()
    ensures
        names_start_with(ENTITIES_UPPER_P@, 'P' as u8),
        names_ascend(ENTITIES_UPPER_P@),
{
    lemma_names_upper_p_from_0();
    lemma_names_upper_p_from_8();
    lemma_names_upper_p_from_16();
}

/// The names of `ENTITIES_LOWER_P` from entry 0 up to entry 8.
proof fn lemma_names_lower_p_from_0()
    ensures
        names_in_order(ENTITIES_LOWER_P@, 'p' as u8, 0, 8),
{
    broadcast use is_ascii_spec_bytes;

    reveal(precedes);
    let table = ENTITIES_LOWER_P@;
    reveal_strlit("&par;");
    assert(is_ascii("&par;"));
    reveal_strlit("&para");
    assert(is_ascii("&para"));
    reveal_strlit("&para;");
    assert(is_ascii("&para;"));
    reveal_strlit("&parallel;");
    assert(is_ascii("&parallel;"));
    reveal_strlit("&parsim;");
    assert(is_ascii("&parsim;"));
    reveal_strlit("&parsl;");
    assert(is_ascii("&parsl;"));
    reveal_strlit("&part;");
    assert(is_ascii("&part;"));
    reveal_strlit("&pcy;");
    assert(is_ascii("&pcy;"));
    reveal_strlit("&percnt;");
    assert(is_ascii("&percnt;"));
    assert(precedes_at(entry_name(table[0]), entry_name(table[1]), 4));
    assert(precedes_at(entry_name(table[1]), entry_name(table[2]), 5));
    assert(precedes_at(entry_name(table[2]), entry_name(table[3]), 5));
    assert(precedes_at(entry_name(table[3]), entry_name(table[4]), 4));
    assert(precedes_at(entry_name(table[4]), entry_name(table[5]), 5));
    assert(precedes_at(entry_name(table[5]), entry_name(table[6]), 4));
    assert(precedes_at(entry_name(table[6]), entry_name(table[7]), 2));
    assert(precedes_at(entry_name(table[7]), entry_name(table[8]), 2));
}

/// The names of `ENTITIES_LOWER_P` from entry 8 up to entry 16.
proof fn lemma_names_lower_p_from_8()
    ensures
        names_in_order(ENTITIES_LOWER_P@, 'p' as u8, 8, 16),
{
    broadcast use is_ascii_spec_bytes;

    reveal(precedes);
    let table = ENTITIES_LOWER_P@;
    reveal_strlit("&percnt;");
    assert(is_ascii("&percnt;"));
    reveal_strlit("&period;");
    assert(is_ascii("&period;"));
    reveal_strlit("&permil;");
    assert(is_ascii("&permil;"));
    reveal_strlit("&perp;");
    assert(is_ascii("&perp;"));
    reveal_strlit("&pertenk;");
    assert(is_ascii("&pertenk;"));
    reveal_strlit("&pfr;");
    assert(is_ascii("&pfr;"));
    reveal_strlit("&phi;");
    assert(is_ascii("&phi;"));
    reveal_strlit("&phiv;");
    assert(is_ascii("&phiv;"));
    reveal_strlit("&phmmat;");
    assert(is_ascii("&phmmat;"));
    assert(precedes_at(entry_name(table[8]), entry_name(table[9]), 4));
    assert(precedes_at(entry_name(table[9]), entry_name(table[10]), 4));
    assert(precedes_at(entry_name(table[10]), entry_name(table[11]), 4));
    assert(precedes_at(entry_name(table[11]), entry_name(table[12]), 4));
    assert(precedes_at(entry_name(table[12]), entry_name(table[13]), 2));
    assert(precedes_at(entry_name(table[13]), entry_name(table[14]), 2));
    assert(precedes_at(entry_name(table[14]), entry_name(table[15]), 4));
    assert(precedes_at(entry_name(table[15]), entry_name(table[16]), 3));
}

/// The names of `ENTITIES_LOWER_P` from entry 16 up to entry 24.
proof fn lemma_names_lower_p_from_16()
    ensures
        names_in_order(ENTITIES_LOWER_P@, 'p' as u8, 16, 24),
{
    broadcast use is_ascii_spec_bytes;

    reveal(precedes);
    let table = ENTITIES_LOWER_P@;
    reveal_strlit("&phmmat;");
    assert(is_ascii("&phmmat;"));
    reveal_strlit("&phone;");
    assert(is_ascii("&phone;"));
    reveal_strlit("&pi;");
    assert(is_ascii("&pi;"));
    reveal_strlit("&pitchfork;");
    assert(is_ascii("&pitchfork;"));
    reveal_strlit("&piv;");
    assert(is_ascii("&piv;"));
    reveal_strlit("&planck;");
    assert(is_ascii("&planck;"));
    reveal_strlit("&planckh;");
    assert(is_ascii("&planckh;"));
    reveal_strlit("&plankv;");
    assert(is_ascii("&plankv;"));
    reveal_strlit("&plus;");
    assert(is_ascii("&plus;"));
    assert(precedes_at(entry_name(table[16]), entry_name(table[17]), 3));
    assert(precedes_at(entry_name(table[17]), entry_name(table[18]), 2));
    assert(precedes_at(entry_name(table[18]), entry_name(table[19]), 3));
    assert(precedes_at(entry_name(table[19]), entry_name(table[20]), 3));
    assert(precedes_at(entry_name(table[20]), entry_name(table[21]), 2));
    assert(precedes_at(entry_name(table[21]), entry_name(table[22]), 7));
    assert(precedes_at(entry_name(table[22]), entry_name(table[23]), 5));
    assert(precedes_at(entry_name(table[23]), entry_name(table[24]), 3));
}

/// The names of `ENTITIES_LOWER_P` from entry 24 up to entry 32.
proof fn lemma_names_lower_p_from_24()
    ensures
        names_in_order(ENTITIES_LOWER_P@, 'p' as u8, 24, 32),
{
    broadcast use is_ascii_spec_bytes;

    reveal(precedes);
    let table = ENTITIES_LOWER_P@;
    reveal_strlit("&plus;");
    assert(is_ascii("&plus;"));
    reveal_strlit("&plusacir;");
    assert(is_ascii("&plusacir;"));
    reveal_strlit("&plusb;");
    assert(is_ascii("&plusb;"));
    reveal_strlit("&pluscir;");
    assert(is_ascii("&pluscir;"));
    reveal_strlit("&plusdo;");
    assert(is_ascii("&plusdo;"));
    reveal_strlit("&plusdu;");
    assert(is_ascii("&plusdu;"));
    reveal_strlit("&pluse;");
    assert(is_ascii("&pluse;"));
    reveal_strlit("&plusmn");
    assert(is_ascii("&plusmn"));
    reveal_strlit("&plusmn;");
    assert(is_ascii("&plusmn;"));
    assert(precedes_at(entry_name(table[24]), entry_name(table[25]), 5));
    assert(precedes_at(entry_name(table[25]), entry_name(table[26]), 5));
    assert(precedes_at(entry_name(table[26]), entry_name(table[27]), 5));
    assert(precedes_at(entry_name(table[27]), entry_name(table[28]), 5));
    assert(precedes_at(entry_name(table[28]), entry_name(table[29]), 6));
    assert(precedes_at(entry_name(table[29]), entry_name(table[30]), 5));
    assert(precedes_at(entry_name(table[30]), entry_name(table[31]), 5));
    assert(precedes_at(entry_name(table[31]), entry_name(table[32]), 7));
}

/// The names of `ENTITIES_LOWER_P` from entry 32 up to entry 40.
proof fn lemma_names_lower_p_from_32()
    ensures
        names_in_order(ENTITIES_LOWER_P@, 'p' as u8, 32, 40),
{
    broadcast use is_ascii_spec_bytes;

    reveal(precedes);
    let table = ENTITIES_LOWER_P@;
    reveal_strlit("&plusmn;");
    assert(is_ascii("&plusmn;"));
    reveal_strlit("&plussim;");
    assert(is_ascii("&plussim;"));
    reveal_strlit("&plustwo;");
    assert(is_ascii("&plustwo;"));
    reveal_strlit("&pm;");
    assert(is_ascii("&pm;"));
    reveal_strlit("&pointint;");
    assert(is_ascii("&pointint;"));
    reveal_strlit("&popf;");
    assert(is_ascii("&popf;"));
    reveal_strlit("&pound");
    assert(is_ascii("&pound"));
    reveal_strlit("&pound;");
    assert(is_ascii("&pound;"));
    reveal_strlit("&pr;");
    assert(is_ascii("&pr;"));
    assert(precedes_at(entry_name(table[32]), entry_name(table[33]), 5));
    assert(precedes_at(entry_name(table[33]), entry_name(table[34]), 5));
    assert(precedes_at(entry_name(table[34]), entry_name(table[35]), 2));
    assert(precedes_at(entry_name(table[35]), entry_name(table[36]), 2));
    assert(precedes_at(entry_name(table[36]), entry_name(table[37]), 3));
    assert(precedes_at(entry_name(table[37]), entry_name(table[38]), 3));
    assert(precedes_at(entry_name(table[38]), entry_name(table[39]), 6));
    assert(precedes_at(entry_name(table[39]), entry_name(table[40]), 2));
}

/// The names of `ENTITIES_LOWER_P` from entry 40 up to entry 48.
proof fn lemma_names_lower_p_from_40()
    ensures
        names_in_order(ENTITIES_LOWER_P@, 'p' as u8, 40, 48),
{
    broadcast use is_ascii_spec_bytes;

    reveal(precedes);
    let table = ENTITIES_LOWER_P@;
    reveal_strlit("&pr;");
    assert(is_ascii("&pr;"));
    reveal_strlit("&prE;");
    assert(is_ascii("&prE;"));
    reveal_strlit("&prap;");
    assert(is_ascii("&prap;"));
    reveal_strlit("&prcue;");
    assert(is_ascii("&prcue;"));
    reveal_strlit("&pre;");
    assert(is_ascii("&pre;"));
    reveal_strlit("&prec;");
    assert(is_ascii("&prec;"));
    reveal_strlit("&precapprox;");
    assert(is_ascii("&precapprox;"));
    reveal_strlit("&preccurlyeq;");
    assert(is_ascii("&preccurlyeq;"));
    reveal_strlit("&preceq;");
    assert(is_ascii("&preceq;"));
    assert(precedes_at(entry_name(table[40]), entry_name(table[41]), 3));
    assert(precedes_at(entry_name(table[41]), entry_name(table[42]), 3));
    assert(precedes_at(entry_name(table[42]), entry_name(table[43]), 3));
    assert(precedes_at(entry_name(table[43]), entry_name(table[44]), 3));
    assert(precedes_at(entry_name(table[44]), entry_name(table[45]), 4));
    assert(precedes_at(entry_name(table[45]), entry_name(table[46]), 5));
    assert(precedes_at(entry_name(table[46]), entry_name(table[47]), 5));
    assert(precedes_at(entry_name(table[47]), entry_name(table[48]), 5));
}

/// The names of `ENTITIES_LOWER_P` from entry 48 up to entry 56.
proof fn lemma_names_lower_p_from_48()
    ensures
        names_in_order(ENTITIES_LOWER_P@, 'p' as u8, 48, 56),
{
    broadcast use is_ascii_spec_bytes;

    reveal(precedes);
    let table = ENTITIES_LOWER_P@;
    reveal_strlit("&preceq;");
    assert(is_ascii("&preceq;"));
    reveal_strlit("&precnapprox;");
    assert(is_ascii("&precnapprox;"));
    reveal_strlit("&precneqq;");
    assert(is_ascii("&precneqq;"));
    reveal_strlit("&precnsim;");
    assert(is_ascii("&precnsim;"));
    reveal_strlit("&precsim;");
    assert(is_ascii("&precsim;"));
    reveal_strlit("&prime;");
    assert(is_ascii("&prime;"));
    reveal_strlit("&primes;");
    assert(is_ascii("&primes;"));
    reveal_strlit("&prnE;");
    assert(is_ascii("&prnE;"));
    reveal_strlit("&prnap;");
    assert(is_ascii("&prnap;"));
    assert(precedes_at(entry_name(table[48]), entry_name(table[49]), 5));
    assert(precedes_at(entry_name(table[49]), entry_name(table[50]), 6));
    assert(precedes_at(entry_name(table[50]), entry_name(table[51]), 6));
    assert(precedes_at(entry_name(table[51]), entry_name(table[52]), 5));
    assert(precedes_at(entry_name(table[52]), entry_name(table[53]), 3));
    assert(precedes_at(entry_name(table[53]), entry_name(table[54]), 6));
    assert(precedes_at(entry_name(table[54]), entry_name(table[55]), 3));
    assert(precedes_at(entry_name(table[55]), entry_name(table[56]), 4));
}

/// The names of `ENTITIES_LOWER_P` from entry 56 up to entry 64.
proof fn lemma_names_lower_p_from_56()
    ensures
        names_in_order(ENTITIES_LOWER_P@, 'p' as u8, 56, 64),
{
    broadcast use is_ascii_spec_bytes;

    reveal(precedes);
    let table = ENTITIES_LOWER_P@;
    reveal_strlit("&prnap;");
    assert(is_ascii("&prnap;"));
    reveal_strlit("&prnsim;");
    assert(is_ascii("&prnsim;"));
    reveal_strlit("&prod;");
    assert(is_ascii("&prod;"));
    reveal_strlit("&profalar;");
    assert(is_ascii("&profalar;"));
    reveal_strlit("&profline;");
    assert(is_ascii("&profline;"));
    reveal_strlit("&profsurf;");
    assert(is_ascii("&profsurf;"));
    reveal_strlit("&prop;");
    assert(is_ascii("&prop;"));
    reveal_strlit("&propto;");
    assert(is_ascii("&propto;"));
    reveal_strlit("&prsim;");
    assert(is_ascii("&prsim;"));
    assert(precedes_at(entry_name(table[56]), entry_name(table[57]), 4));
    assert(precedes_at(entry_name(table[57]), entry_name(table[58]), 3));
    assert(precedes_at(entry_name(table[58]), entry_name(table[59]), 4));
    assert(precedes_at(entry_name(table[59]), entry_name(table[60]), 5));
    assert(precedes_at(entry_name(table[60]), entry_name(table[61]), 5));
    assert(precedes_at(entry_name(table[61]), entry_name(table[62]), 4));
    assert(precedes_at(entry_name(table[62]), entry_name(table[63]), 5));
    assert(precedes_at(entry_name(table[63]), entry_name(table[64]), 3));
}

/// The names of `ENTITIES_LOWER_P` from entry 64 up to entry 69.
proof fn lemma_names_lower_p_from_64()
    ensures
        names_in_order(ENTITIES_LOWER_P@, 'p' as u8, 64, 69),
{
    broadcast use is_ascii_spec_bytes;

    reveal(precedes);
    let table = ENTITIES_LOWER_P@;
    reveal_strlit("&prsim;");
    assert(is_ascii("&prsim;"));
    reveal_strlit("&prurel;");
    assert(is_ascii("&prurel;"));
    reveal_strlit("&pscr;");
    assert(is_ascii("&pscr;"));
    reveal_strlit("&psi;");
    assert(is_ascii("&psi;"));
    reveal_strlit("&puncsp;");
    assert(is_ascii("&puncsp;"));
    assert(precedes_at(entry_name(table[64]), entry_name(table[65]), 3));
    assert(precedes_at(entry_name(table[65]), entry_name(table[66]), 2));
    assert(precedes_at(entry_name(table[66]), entry_name(table[67]), 3));
    assert(precedes_at(entry_name(table[67]), entry_name(table[68]), 2));
}

/// Every name in `ENTITIES_LOWER_P` starts with `&p` and has 3 to 33 bytes, and
/// each name comes before the next in the order of byte strings.
pub proof fn lemma_names_lower_p()
    ensures
        names_start_with(ENTITIES_LOWER_P@, 'p' as u8),
        names_ascend(ENTITIES_LOWER_P@),
{
    lemma_names_lower_p_from_0();
    lemma_names_lower_p_from_8();
    lemma_names_lower_p_from_16();
    lemma_names_lower_p_from_24();
    lemma_names_lower_p_from_32();
    lemma_names_lower_p_from_40();
    lemma_names_lower_p_from_48();
    lemma_names_lower_p_from_56();
    lemma_names_lower_p_from_64();
}

} // verus!
