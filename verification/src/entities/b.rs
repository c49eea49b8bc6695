//! The named character references that start with `B` or `b`.

use crate::entities::{names_in_order, names_start_with};
use crate::search::{entry_name, names_ascend, precedes, precedes_at, Entry};
use vstd::prelude::*;
use vstd::string::{is_ascii, is_ascii_spec_bytes};

verus! {

/// The named character references that start with `&B`, each with its
/// expansion, in the order of byte strings.
pub const ENTITIES_UPPER_B: [Entry; 12] = [
    ("&Backslash;", "\u{2216}"),
    ("&Barv;", "\u{2ae7}"),
    ("&Barwed;", "\u{2306}"),
    ("&Bcy;", "\u{411}"),
    ("&Because;", "\u{2235}"),
    ("&Bernoullis;", "\u{212c}"),
    ("&Beta;", "\u{392}"),
    ("&Bfr;", "\u{1d505}"),
    ("&Bopf;", "\u{1d539}"),
    ("&Breve;", "\u{2d8}"),
    ("&Bscr;", "\u{212c}"),
    ("&Bumpeq;", "\u{224e}"),
];

/// The named character references that start with `&b`, each with its
/// expansion, in the order of byte strings.
pub const ENTITIES_LOWER_B: [Entry; 116] = [
    ("&bNot;", "\u{2aed}"),
    ("&backcong;", "\u{224c}"),
    ("&backepsilon;", "\u{3f6}"),
    ("&backprime;", "\u{2035}"),
    ("&backsim;", "\u{223d}"),
    ("&backsimeq;", "\u{22cd}"),
    ("&barvee;", "\u{22bd}"),
    ("&barwed;", "\u{2305}"),
    ("&barwedge;", "\u{2305}"),
    ("&bbrk;", "\u{23b5}"),
    ("&bbrktbrk;", "\u{23b6}"),
    ("&bcong;", "\u{224c}"),
    ("&bcy;", "\u{431}"),
    ("&bdquo;", "\u{201e}"),
    ("&becaus;", "\u{2235}"),
    ("&because;", "\u{2235}"),
    ("&bemptyv;", "\u{29b0}"),
    ("&bepsi;", "\u{3f6}"),
    ("&bernou;", "\u{212c}"),
    ("&beta;", "\u{3b2}"),
    ("&beth;", "\u{2136}"),
    ("&between;", "\u{226c}"),
    ("&bfr;", "\u{1d51f}"),
    ("&bigcap;", "\u{22c2}"),
    ("&bigcirc;", "\u{25ef}"),
    ("&bigcup;", "\u{22c3}"),
    ("&bigodot;", "\u{2a00}"),
    ("&bigoplus;", "\u{2a01}"),
    ("&bigotimes;", "\u{2a02}"),
    ("&bigsqcup;", "\u{2a06}"),
    ("&bigstar;", "\u{2605}"),
    ("&bigtriangledown;", "\u{25bd}"),
    ("&bigtriangleup;", "\u{25b3}"),
    ("&biguplus;", "\u{2a04}"),
    ("&bigvee;", "\u{22c1}"),
    ("&bigwedge;", "\u{22c0}"),
    ("&bkarow;", "\u{290d}"),
    ("&blacklozenge;", "\u{29eb}"),
    ("&blacksquare;", "\u{25aa}"),
    ("&blacktriangle;", "\u{25b4}"),
    ("&blacktriangledown;", "\u{25be}"),
    ("&blacktriangleleft;", "\u{25c2}"),
    ("&blacktriangleright;", "\u{25b8}"),
    ("&blank;", "\u{2423}"),
    ("&blk12;", "\u{2592}"),
    ("&blk14;", "\u{2591}"),
    ("&blk34;", "\u{2593}"),
    ("&block;", "\u{2588}"),
    ("&bne;", "=\u{20e5}"),
    ("&bnequiv;", "\u{2261}\u{20e5}"),
    ("&bnot;", "\u{2310}"),
    ("&bopf;", "\u{1d553}"),
    ("&bot;", "\u{22a5}"),
    ("&bottom;", "\u{22a5}"),
    ("&bowtie;", "\u{22c8}"),
    ("&boxDL;", "\u{2557}"),
    ("&boxDR;", "\u{2554}"),
    ("&boxDl;", "\u{2556}"),
    ("&boxDr;", "\u{2553}"),
    ("&boxH;", "\u{2550}"),
    ("&boxHD;", "\u{2566}"),
    ("&boxHU;", "\u{2569}"),
    ("&boxHd;", "\u{2564}"),
    ("&boxHu;", "\u{2567}"),
    ("&boxUL;", "\u{255d}"),
    ("&boxUR;", "\u{255a}"),
    ("&boxUl;", "\u{255c}"),
    ("&boxUr;", "\u{2559}"),
    ("&boxV;", "\u{2551}"),
    ("&boxVH;", "\u{256c}"),
    ("&boxVL;", "\u{2563}"),
    ("&boxVR;", "\u{2560}"),
    ("&boxVh;", "\u{256b}"),
    ("&boxVl;", "\u{2562}"),
    ("&boxVr;", "\u{255f}"),
    ("&boxbox;", "\u{29c9}"),
    ("&boxdL;", "\u{2555}"),
    ("&boxdR;", "\u{2552}"),
    ("&boxdl;", "\u{2510}"),
    ("&boxdr;", "\u{250c}"),
    ("&boxh;", "\u{2500}"),
    ("&boxhD;", "\u{2565}"),
    ("&boxhU;", "\u{2568}"),
    ("&boxhd;", "\u{252c}"),
    ("&boxhu;", "\u{2534}"),
    ("&boxminus;", "\u{229f}"),
    ("&boxplus;", "\u{229e}"),
    ("&boxtimes;", "\u{22a0}"),
    ("&boxuL;", "\u{255b}"),
    ("&boxuR;", "\u{2558}"),
    ("&boxul;", "\u{2518}"),
    ("&boxur;", "\u{2514}"),
    ("&boxv;", "\u{2502}"),
    ("&boxvH;", "\u{256a}"),
    ("&boxvL;", "\u{2561}"),
    ("&boxvR;", "\u{255e}"),
    ("&boxvh;", "\u{253c}"),
    ("&boxvl;", "\u{2524}"),
    ("&boxvr;", "\u{251c}"),
    ("&bprime;", "\u{2035}"),
    ("&breve;", "\u{2d8}"),
    ("&brvbar", "\u{a6}"),
    ("&brvbar;", "\u{a6}"),
    ("&bscr;", "\u{1d4b7}"),
    ("&bsemi;", "\u{204f}"),
    ("&bsim;", "\u{223d}"),
    ("&bsime;", "\u{22cd}"),
    ("&bsol;", "\\"),
    ("&bsolb;", "\u{29c5}"),
    ("&bsolhsub;", "\u{27c8}"),
    ("&bull;", "\u{2022}"),
    ("&bullet;", "\u{2022}"),
    ("&bump;", "\u{224e}"),
    ("&bumpE;", "\u{2aae}"),
    ("&bumpe;", "\u{224f}"),
    ("&bumpeq;", "\u{224f}"),
];

/// The names of `ENTITIES_UPPER_B` from entry 0 up to entry 8.
proof fn lemma_names_upper_b_from_0()
    ensures
        names_in_order(ENTITIES_UPPER_B@, 'B' as u8, 0, 8),
{
    broadcast use is_ascii_spec_bytes;

    reveal(precedes);
    let table = ENTITIES_UPPER_B@;
    reveal_strlit("&Backslash;");
    assert(is_ascii("&Backslash;"));
    reveal_strlit("&Barv;");
    assert(is_ascii("&Barv;"));
    reveal_strlit("&Barwed;");
    assert(is_ascii("&Barwed;"));
    reveal_strlit("&Bcy;");
    assert(is_ascii("&Bcy;"));
    reveal_strlit("&Because;");
    assert(is_ascii("&Because;"));
    reveal_strlit("&Bernoullis;");
    assert(is_ascii("&Bernoullis;"));
    reveal_strlit("&Beta;");
    assert(is_ascii("&Beta;"));
    reveal_strlit("&Bfr;");
    assert(is_ascii("&Bfr;"));
    reveal_strlit("&Bopf;");
    assert(is_ascii("&Bopf;"));
    assert(precedes_at(entry_name(table[0]), entry_name(table[1]), 3));
    assert(precedes_at(entry_name(table[1]), entry_name(table[2]), 4));
    assert(precedes_at(entry_name(table[2]), entry_name(table[3]), 2));
    assert(precedes_at(entry_name(table[3]), entry_name(table[4]), 2));
    assert(precedes_at(entry_name(table[4]), entry_name(table[5]), 3));
    assert(precedes_at(entry_name(table[5]), entry_name(table[6]), 3));
    assert(precedes_at(entry_name(table[6]), entry_name(table[7]), 2));
    assert(precedes_at(entry_name(table[7]), entry_name(table[8]), 2));
}

/// The names of `ENTITIES_UPPER_B` from entry 8 up to entry 12.
proof fn lemma_names_upper_b_from_8()
    ensures
        names_in_order(ENTITIES_UPPER_B@, 'B' as u8, 8, 12),
{
    broadcast use is_ascii_spec_bytes;

    reveal(precedes);
    let table = ENTITIES_UPPER_B@;
    reveal_strlit("&Bopf;");
    assert(is_ascii("&Bopf;"));
    reveal_strlit("&Breve;");
    assert(is_ascii("&Breve;"));
    reveal_strlit("&Bscr;");
    assert(is_ascii("&Bscr;"));
    reveal_strlit("&Bumpeq;");
    assert(is_ascii("&Bumpeq;"));
    assert(precedes_at(entry_name(table[8]), entry_name(table[9]), 2));
    assert(precedes_at(entry_name(table[9]), entry_name(table[10]), 2));
    assert(precedes_at(entry_name(table[10]), entry_name(table[11]), 2));
}

/// Every name in `ENTITIES_UPPER_B` starts with `&B` and has 3 to 33 bytes, and
/// each name comes before the next in the order of byte strings.
pub proof fn lemma_names_upper_b()
    ensures
        names_start_with(ENTITIES_UPPER_B@, 'B' as u8),
        names_ascend(ENTITIES_UPPER_B@),
{
    lemma_names_upper_b_from_0();
    lemma_names_upper_b_from_8();
}

/// The names of `ENTITIES_LOWER_B` from entry 0 up to entry 8.
proof fn lemma_names_lower_b_from_0()
    ensures
        names_in_order(ENTITIES_LOWER_B@, 'b' as u8, 0, 8),
{
    broadcast use is_ascii_spec_bytes;

    reveal(precedes);
    let table = ENTITIES_LOWER_B@;
    reveal_strlit("&bNot;");
    assert(is_ascii("&bNot;"));
    reveal_strlit("&backcong;");
    assert(is_ascii("&backcong;"));
    reveal_strlit("&backepsilon;");
    assert(is_ascii("&backepsilon;"));
    reveal_strlit("&backprime;");
    assert(is_ascii("&backprime;"));
    reveal_strlit("&backsim;");
    assert(is_ascii("&backsim;"));
    reveal_strlit("&backsimeq;");
    assert(is_ascii("&backsimeq;"));
    reveal_strlit("&barvee;");
    assert(is_ascii("&barvee;"));
    reveal_strlit("&barwed;");
    assert(is_ascii("&barwed;"));
    reveal_strlit("&barwedge;");
    assert(is_ascii("&barwedge;"));
    assert(precedes_at(entry_name(table[0]), entry_name(table[1]), 2));
    assert(precedes_at(entry_name(table[1]), entry_name(table[2]), 5));
    assert(precedes_at(entry_name(table[2]), entry_name(table[3]), 5));
    assert(precedes_at(entry_name(table[3]), entry_name(table[4]), 5));
    assert(precedes_at(entry_name(table[4]), entry_name(table[5]), 8));
    assert(precedes_at(entry_name(table[5]), entry_name(table[6]), 3));
    assert(precedes_at(entry_name(table[6]), entry_name(table[7]), 4));
    assert(precedes_at(entry_name(table[7]), entry_name(table[8]), 7));
}

/// The names of `ENTITIES_LOWER_B` from entry 8 up to entry 16.
proof fn lemma_names_lower_b_from_8()
    ensures
        names_in_order(ENTITIES_LOWER_B@, 'b' as u8, 8, 16),
{
    broadcast use is_ascii_spec_bytes;

    reveal(precedes);
    let table = ENTITIES_LOWER_B@;
    reveal_strlit("&barwedge;");
    assert(is_ascii("&barwedge;"));
    reveal_strlit("&bbrk;");
    assert(is_ascii("&bbrk;"));
    reveal_strlit("&bbrktbrk;");
    assert(is_ascii("&bbrktbrk;"));
    reveal_strlit("&bcong;");
    assert(is_ascii("&bcong;"));
    reveal_strlit("&bcy;");
    assert(is_ascii("&bcy;"));
    reveal_strlit("&bdquo;");
    assert(is_ascii("&bdquo;"));
    reveal_strlit("&becaus;");
    assert(is_ascii("&becaus;"));
    reveal_strlit("&because;");
    assert(is_ascii("&because;"));
    reveal_strlit("&bemptyv;");
    assert(is_ascii("&bemptyv;"));
    assert(precedes_at(entry_name(table[8]), entry_name(table[9]), 2));
    assert(precedes_at(entry_name(table[9]), entry_name(table[10]), 5));
    assert(precedes_at(entry_name(table[10]), entry_name(table[11]), 2));
    assert(precedes_at(entry_name(table[11]), entry_name(table[12]), 3));
    assert(precedes_at(entry_name(table[12]), entry_name(table[13]), 2));
    assert(precedes_at(entry_name(table[13]), entry_name(table[14]), 2));
    assert(precedes_at(entry_name(table[14]), entry_name(table[15]), 7));
    assert(precedes_at(entry_name(table[15]), entry_name(table[16]), 3));
}

/// The names of `ENTITIES_LOWER_B` from entry 16 up to entry 24.
proof fn lemma_names_lower_b_from_16()
    ensures
        names_in_order(ENTITIES_LOWER_B@, 'b' as u8, 16, 24),
{
    broadcast use is_ascii_spec_bytes;

    reveal(precedes);
    let table = ENTITIES_LOWER_B@;
    reveal_strlit("&bemptyv;");
    assert(is_ascii("&bemptyv;"));
    reveal_strlit("&bepsi;");
    assert(is_ascii("&bepsi;"));
    reveal_strlit("&bernou;");
    assert(is_ascii("&bernou;"));
    reveal_strlit("&beta;");
    assert(is_ascii("&beta;"));
    reveal_strlit("&beth;");
    assert(is_ascii("&beth;"));
    reveal_strlit("&between;");
    assert(is_ascii("&between;"));
    reveal_strlit("&bfr;");
    assert(is_ascii("&bfr;"));
    reveal_strlit("&bigcap;");
    assert(is_ascii("&bigcap;"));
    reveal_strlit("&bigcirc;");
    assert(is_ascii("&bigcirc;"));
    assert(precedes_at(entry_name(table[16]), entry_name(table[17]), 3));
    assert(precedes_at(entry_name(table[17]), entry_name(table[18]), 3));
    assert(precedes_at(entry_name(table[18]), entry_name(table[19]), 3));
    assert(precedes_at(entry_name(table[19]), entry_name(table[20]), 4));
    assert(precedes_at(entry_name(table[20]), entry_name(table[21]), 4));
    assert(precedes_at(entry_name(table[21]), entry_name(table[22]), 2));
    assert(precedes_at(entry_name(table[22]), entry_name(table[23]), 2));
    assert(precedes_at(entry_name(table[23]), entry_name(table[24]), 5));
}

/// The names of `ENTITIES_LOWER_B` from entry 24 up to entry 32.
proof fn lemma_names_lower_b_from_24()
    ensures
        names_in_order(ENTITIES_LOWER_B@, 'b' as u8, 24, 32),
{
    broadcast use is_ascii_spec_bytes;

    reveal(precedes);
    let table = ENTITIES_LOWER_B@;
    reveal_strlit("&bigcirc;");
    assert(is_ascii("&bigcirc;"));
    reveal_strlit("&bigcup;");
    assert(is_ascii("&bigcup;"));
    reveal_strlit("&bigodot;");
    assert(is_ascii("&bigodot;"));
    reveal_strlit("&bigoplus;");
    assert(is_ascii("&bigoplus;"));
    reveal_strlit("&bigotimes;");
    assert(is_ascii("&bigotimes;"));
    reveal_strlit("&bigsqcup;");
    assert(is_ascii("&bigsqcup;"));
    reveal_strlit("&bigstar;");
    assert(is_ascii("&bigstar;"));
    reveal_strlit("&bigtriangledown;");
    assert(is_ascii("&bigtriangledown;"));
    reveal_strlit("&bigtriangleup;");
    assert(is_ascii("&bigtriangleup;"));
    assert(precedes_at(entry_name(table[24]), entry_name(table[25]), 5));
    assert(precedes_at(entry_name(table[25]), entry_name(table[26]), 4));
    assert(precedes_at(entry_name(table[26]), entry_name(table[27]), 5));
    assert(precedes_at(entry_name(table[27]), entry_name(table[28]), 5));
    assert(precedes_at(entry_name(table[28]), entry_name(table[29]), 4));
    assert(precedes_at(entry_name(table[29]), entry_name(table[30]), 5));
    assert(precedes_at(entry_name(table[30]), entry_name(table[31]), 4));
    assert(precedes_at(entry_name(table[31]), entry_name(table[32]), 12));
}

/// The names of `ENTITIES_LOWER_B` from entry 32 up to entry 40.
proof fn lemma_names_lower_b_from_32()
    ensures
        names_in_order(ENTITIES_LOWER_B@, 'b' as u8, 32, 40),
{
    broadcast use is_ascii_spec_bytes;

    reveal(precedes);
    let table = ENTITIES_LOWER_B@;
    reveal_strlit("&bigtriangleup;");
    assert(is_ascii("&bigtriangleup;"));
    reveal_strlit("&biguplus;");
    assert(is_ascii("&biguplus;"));
    reveal_strlit("&bigvee;");
    assert(is_ascii("&bigvee;"));
    reveal_strlit("&bigwedge;");
    assert(is_ascii("&bigwedge;"));
    reveal_strlit("&bkarow;");
    assert(is_ascii("&bkarow;"));
    reveal_strlit("&blacklozenge;");
    assert(is_ascii("&blacklozenge;"));
    reveal_strlit("&blacksquare;");
    assert(is_ascii("&blacksquare;"));
    reveal_strlit("&blacktriangle;");
    assert(is_ascii("&blacktriangle;"));
    reveal_strlit("&blacktriangledown;");
    assert(is_ascii("&blacktriangledown;"));
    assert(precedes_at(entry_name(table[32]), entry_name(table[33]), 4));
    assert(precedes_at(entry_name(table[33]), entry_name(table[34]), 4));
    assert(precedes_at(entry_name(table[34]), entry_name(table[35]), 4));
    assert(precedes_at(entry_name(table[35]), entry_name(table[36]), 2));
    assert(precedes_at(entry_name(table[36]), entry_name(table[37]), 2));
    assert(precedes_at(entry_name(table[37]), entry_name(table[38]), 6));
    assert(precedes_at(entry_name(table[38]), entry_name(table[39]), 6));
    assert(precedes_at(entry_name(table[39]), entry_name(table[40]), 14));
}

/// The names of `ENTITIES_LOWER_B` from entry 40 up to entry 48.
proof fn lemma_names_lower_b_from_40()
    ensures
        names_in_order(ENTITIES_LOWER_B@, 'b' as u8, 40, 48),
{
    broadcast use is_ascii_spec_bytes;

    reveal(precedes);
    let table = ENTITIES_LOWER_B@;
    reveal_strlit("&blacktriangledown;");
    assert(is_ascii("&blacktriangledown;"));
    reveal_strlit("&blacktriangleleft;");
    assert(is_ascii("&blacktriangleleft;"));
    reveal_strlit("&blacktriangleright;");
    assert(is_ascii("&blacktriangleright;"));
    reveal_strlit("&blank;");
    assert(is_ascii("&blank;"));
    reveal_strlit("&blk12;");
    assert(is_ascii("&blk12;"));
    reveal_strlit("&blk14;");
    assert(is_ascii("&blk14;"));
    reveal_strlit("&blk34;");
    assert(is_ascii("&blk34;"));
    reveal_strlit("&block;");
    assert(is_ascii("&block;"));
    reveal_strlit("&bne;");
    assert(is_ascii("&bne;"));
    assert(precedes_at(entry_name(table[40]), entry_name(table[41]), 14));
    assert(precedes_at(entry_name(table[41]), entry_name(table[42]), 14));
    assert(precedes_at(entry_name(table[42]), entry_name(table[43]), 4));
    assert(precedes_at(entry_name(table[43]), entry_name(table[44]), 3));
    assert(precedes_at(entry_name(table[44]), entry_name(table[45]), 5));
    assert(precedes_at(entry_name(table[45]), entry_name(table[46]), 4));
    assert(precedes_at(entry_name(table[46]), entry_name(table[47]), 3));
    assert(precedes_at(entry_name(table[47]), entry_name(table[48]), 2));
}

/// The names of `ENTITIES_LOWER_B` from entry 48 up to entry 56.
proof fn lemma_names_lower_b_from_48()
    ensures
        names_in_order(ENTITIES_LOWER_B@, 'b' as u8, 48, 56),
{
    broadcast use is_ascii_spec_bytes;

    reveal(precedes);
    let table = ENTITIES_LOWER_B@;
    reveal_strlit("&bne;");
    assert(is_ascii("&bne;"));
    reveal_strlit("&bnequiv;");
    assert(is_ascii("&bnequiv;"));
    reveal_strlit("&bnot;");
    assert(is_ascii("&bnot;"));
    reveal_strlit("&bopf;");
    assert(is_ascii("&bopf;"));
    reveal_strlit("&bot;");
    assert(is_ascii("&bot;"));
    reveal_strlit("&bottom;");
    assert(is_ascii("&bottom;"));
    reveal_strlit("&bowtie;");
    assert(is_ascii("&bowtie;"));
    reveal_strlit("&boxDL;");
    assert(is_ascii("&boxDL;"));
    reveal_strlit("&boxDR;");
    assert(is_ascii("&boxDR;"));
    assert(precedes_at(entry_name(table[48]), entry_name(table[49]), 4));
    assert(precedes_at(entry_name(table[49]), entry_name(table[50]), 3));
    assert(precedes_at(entry_name(table[50]), entry_name(table[51]), 2));
    assert(precedes_at(entry_name(table[51]), entry_name(table[52]), 3));
    assert(precedes_at(entry_name(table[52]), entry_name(table[53]), 4));
    assert(precedes_at(entry_name(table[53]), entry_name(table[54]), 3));
    assert(precedes_at(entry_name(table[54]), entry_name(table[55]), 3));
    assert(precedes_at(entry_name(table[55]), entry_name(table[56]), 5));
}

/// The names of `ENTITIES_LOWER_B` from entry 56 up to entry 64.
proof fn lemma_names_lower_b_from_56()
    ensures
        names_in_order(ENTITIES_LOWER_B@, 'b' as u8, 56, 64),
{
    broadcast use is_ascii_spec_bytes;

    reveal(precedes);
    let table = ENTITIES_LOWER_B@;
    reveal_strlit("&boxDR;");
    assert(is_ascii("&boxDR;"));
    reveal_strlit("&boxDl;");
    assert(is_ascii("&boxDl;"));
    reveal_strlit("&boxDr;");
    assert(is_ascii("&boxDr;"));
    reveal_strlit("&boxH;");
    assert(is_ascii("&boxH;"));
    reveal_strlit("&boxHD;");
    assert(is_ascii("&boxHD;"));
    reveal_strlit("&boxHU;");
    assert(is_ascii("&boxHU;"));
    reveal_strlit("&boxHd;");
    assert(is_ascii("&boxHd;"));
    reveal_strlit("&boxHu;");
    assert(is_ascii("&boxHu;"));
    reveal_strlit("&boxUL;");
    assert(is_ascii("&boxUL;"));
    assert(precedes_at(entry_name(table[56]), entry_name(table[57]), 5));
    assert(precedes_at(entry_name(table[57]), entry_name(table[58]), 5));
    assert(precedes_at(entry_name(table[58]), entry_name(table[59]), 4));
    assert(precedes_at(entry_name(table[59]), entry_name(table[60]), 5));
    assert(precedes_at(entry_name(table[60]), entry_name(table[61]), 5));
    assert(precedes_at(entry_name(table[61]), entry_name(table[62]), 5));
    assert(precedes_at(entry_name(table[62]), entry_name(table[63]), 5));
    assert(precedes_at(entry_name(table[63]), entry_name(table[64]), 4));
}

/// The names of `ENTITIES_LOWER_B` from entry 64 up to entry 72.
proof fn lemma_names_lower_b_from_64()
    ensures
        names_in_order(ENTITIES_LOWER_B@, 'b' as u8, 64, 72),
{
    broadcast use is_ascii_spec_bytes;

    reveal(precedes);
    let table = ENTITIES_LOWER_B@;
    reveal_strlit("&boxUL;");
    assert(is_ascii("&boxUL;"));
    reveal_strlit("&boxUR;");
    assert(is_ascii("&boxUR;"));
    reveal_strlit("&boxUl;");
    assert(is_ascii("&boxUl;"));
    reveal_strlit("&boxUr;");
    assert(is_ascii("&boxUr;"));
    reveal_strlit("&boxV;");
    assert(is_ascii("&boxV;"));
    reveal_strlit("&boxVH;");
    assert(is_ascii("&boxVH;"));
    reveal_strlit("&boxVL;");
    assert(is_ascii("&boxVL;"));
    reveal_strlit("&boxVR;");
    assert(is_ascii("&boxVR;"));
    reveal_strlit("&boxVh;");
    assert(is_ascii("&boxVh;"));
    assert(precedes_at(entry_name(table[64]), entry_name(table[65]), 5));
    assert(precedes_at(entry_name(table[65]), entry_name(table[66]), 5));
    assert(precedes_at(entry_name(table[66]), entry_name(table[67]), 5));
    assert(precedes_at(entry_name(table[67]), entry_name(table[68]), 4));
    assert(precedes_at(entry_name(table[68]), entry_name(table[69]), 5));
    assert(precedes_at(entry_name(table[69]), entry_name(table[70]), 5));
    assert(precedes_at(entry_name(table[70]), entry_name(table[71]), 5));
    assert(precedes_at(entry_name(table[71]), entry_name(table[72]), 5));
}

/// The names of `ENTITIES_LOWER_B` from entry 72 up to entry 80.
proof fn lemma_names_lower_b_from_72()
    ensures
        names_in_order(ENTITIES_LOWER_B@, 'b' as u8, 72, 80),
{
    broadcast use is_ascii_spec_bytes;

    reveal(precedes);
    let table = ENTITIES_LOWER_B@;
    reveal_strlit("&boxVh;");
    assert(is_ascii("&boxVh;"));
    reveal_strlit("&boxVl;");
    assert(is_ascii("&boxVl;"));
    reveal_strlit("&boxVr;");
    assert(is_ascii("&boxVr;"));
    reveal_strlit("&boxbox;");
    assert(is_ascii("&boxbox;"));
    reveal_strlit("&boxdL;");
    assert(is_ascii("&boxdL;"));
    reveal_strlit("&boxdR;");
    assert(is_ascii("&boxdR;"));
    reveal_strlit("&boxdl;");
    assert(is_ascii("&boxdl;"));
    reveal_strlit("&boxdr;");
    assert(is_ascii("&boxdr;"));
    reveal_strlit("&boxh;");
    assert(is_ascii("&boxh;"));
    assert(precedes_at(entry_name(table[72]), entry_name(table[73]), 5));
    assert(precedes_at(entry_name(table[73]), entry_name(table[74]), 5));
    assert(precedes_at(entry_name(table[74]), entry_name(table[75]), 4));
    assert(precedes_at(entry_name(table[75]), entry_name(table[76]), 4));
    assert(precedes_at(entry_name(table[76]), entry_name(table[77]), 5));
    assert(precedes_at(entry_name(table[77]), entry_name(table[78]), 5));
    assert(precedes_at(entry_name(table[78]), entry_name(table[79]), 5));
    assert(precedes_at(entry_name(table[79]), entry_name(table[80]), 4));
}

/// The names of `ENTITIES_LOWER_B` from entry 80 up to entry 88.
proof fn lemma_names_lower_b_from_80()
    ensures
        names_in_order(ENTITIES_LOWER_B@, 'b' as u8, 80, 88),
{
    broadcast use is_ascii_spec_bytes;

    reveal(precedes);
    let table = ENTITIES_LOWER_B@;
    reveal_strlit("&boxh;");
    assert(is_ascii("&boxh;"));
    reveal_strlit("&boxhD;");
    assert(is_ascii("&boxhD;"));
    reveal_strlit("&boxhU;");
    assert(is_ascii("&boxhU;"));
    reveal_strlit("&boxhd;");
    assert(is_ascii("&boxhd;"));
    reveal_strlit("&boxhu;");
    assert(is_ascii("&boxhu;"));
    reveal_strlit("&boxminus;");
    assert(is_ascii("&boxminus;"));
    reveal_strlit("&boxplus;");
    assert(is_ascii("&boxplus;"));
    reveal_strlit("&boxtimes;");
    assert(is_ascii("&boxtimes;"));
    reveal_strlit("&boxuL;");
    assert(is_ascii("&boxuL;"));
    assert(precedes_at(entry_name(table[80]), entry_name(table[81]), 5));
    assert(precedes_at(entry_name(table[81]), entry_name(table[82]), 5));
    assert(precedes_at(entry_name(table[82]), entry_name(table[83]), 5));
    assert(precedes_at(entry_name(table[83]), entry_name(table[84]), 5));
    assert(precedes_at(entry_name(table[84]), entry_name(table[85]), 4));
    assert(precedes_at(entry_name(table[85]), entry_name(table[86]), 4));
    assert(precedes_at(entry_name(table[86]), entry_name(table[87]), 4));
    assert(precedes_at(entry_name(table[87]), entry_name(table[88]), 4));
}

/// The names of `ENTITIES_LOWER_B` from entry 88 up to entry 96.
proof fn lemma_names_lower_b_from_88()
    ensures
        names_in_order(ENTITIES_LOWER_B@, 'b' as u8, 88, 96),
{
    broadcast use is_ascii_spec_bytes;

    reveal(precedes);
    let table = ENTITIES_LOWER_B@;
    reveal_strlit("&boxuL;");
    assert(is_ascii("&boxuL;"));
    reveal_strlit("&boxuR;");
    assert(is_ascii("&boxuR;"));
    reveal_strlit("&boxul;");
    assert(is_ascii("&boxul;"));
    reveal_strlit("&boxur;");
    assert(is_ascii("&boxur;"));
    reveal_strlit("&boxv;");
    assert(is_ascii("&boxv;"));
    reveal_strlit("&boxvH;");
    assert(is_ascii("&boxvH;"));
    reveal_strlit("&boxvL;");
    assert(is_ascii("&boxvL;"));
    reveal_strlit("&boxvR;");
    assert(is_ascii("&boxvR;"));
    reveal_strlit("&boxvh;");
    assert(is_ascii("&boxvh;"));
    assert(precedes_at(entry_name(table[88]), entry_name(table[89]), 5));
    assert(precedes_at(entry_name(table[89]), entry_name(table[90]), 5));
    assert(precedes_at(entry_name(table[90]), entry_name(table[91]), 5));
    assert(precedes_at(entry_name(table[91]), entry_name(table[92]), 4));
    assert(precedes_at(entry_name(table[92]), entry_name(table[93]), 5));
    assert(precedes_at(entry_name(table[93]), entry_name(table[94]), 5));
    assert(precedes_at(entry_name(table[94]), entry_name(table[95]), 5));
    assert(precedes_at(entry_name(table[95]), entry_name(table[96]), 5));
}

/// The names of `ENTITIES_LOWER_B` from entry 96 up to entry 104.
proof fn lemma_names_lower_b_from_96()
    ensures
        names_in_order(ENTITIES_LOWER_B@, 'b' as u8, 96, 104),
{
    broadcast use is_ascii_spec_bytes;

    reveal(precedes);
    let table = ENTITIES_LOWER_B@;
    reveal_strlit("&boxvh;");
    assert(is_ascii("&boxvh;"));
    reveal_strlit("&boxvl;");
    assert(is_ascii("&boxvl;"));
    reveal_strlit("&boxvr;");
    assert(is_ascii("&boxvr;"));
    reveal_strlit("&bprime;");
    assert(is_ascii("&bprime;"));
    reveal_strlit("&breve;");
    assert(is_ascii("&breve;"));
    reveal_strlit("&brvbar");
    assert(is_ascii("&brvbar"));
    reveal_strlit("&brvbar;");
    assert(is_ascii("&brvbar;"));
    reveal_strlit("&bscr;");
    assert(is_ascii("&bscr;"));
    reveal_strlit("&bsemi;");
    assert(is_ascii("&bsemi;"));
    assert(precedes_at(entry_name(table[96]), entry_name(table[97]), 5));
    assert(precedes_at(entry_name(table[97]), entry_name(table[98]), 5));
    assert(precedes_at(entry_name(table[98]), entry_name(table[99]), 2));
    assert(precedes_at(entry_name(table[99]), entry_name(table[100]), 2));
    assert(precedes_at(entry_name(table[100]), entry_name(table[101]), 3));
    assert(precedes_at(entry_name(table[101]), entry_name(table[102]), 7));
    assert(precedes_at(entry_name(table[102]), entry_name(table[103]), 2));
    assert(precedes_at(entry_name(table[103]), entry_name(table[104]), 3));
}

/// The names of `ENTITIES_LOWER_B` from entry 104 up to entry 112.
proof fn lemma_names_lower_b_from_104()
    ensures
        names_in_order(ENTITIES_LOWER_B@, 'b' as u8, 104, 112),
{
    broadcast use is_ascii_spec_bytes;

    reveal(precedes);
    let table = ENTITIES_LOWER_B@;
    reveal_strlit("&bsemi;");
    assert(is_ascii("&bsemi;"));
    reveal_strlit("&bsim;");
    assert(is_ascii("&bsim;"));
    reveal_strlit("&bsime;");
    assert(is_ascii("&bsime;"));
    reveal_strlit("&bsol;");
    assert(is_ascii("&bsol;"));
    reveal_strlit("&bsolb;");
    assert(is_ascii("&bsolb;"));
    reveal_strlit("&bsolhsub;");
    assert(is_ascii("&bsolhsub;"));
    reveal_strlit("&bull;");
    assert(is_ascii("&bull;"));
    reveal_strlit("&bullet;");
    assert(is_ascii("&bullet;"));
    reveal_strlit("&bump;");
    assert(is_ascii("&bump;"));
    assert(precedes_at(entry_name(table[104]), entry_name(table[105]), 3));
    assert(precedes_at(entry_name(table[105]), entry_name(table[106]), 5));
    assert(precedes_at(entry_name(table[106]), entry_name(table[107]), 3));
    assert(precedes_at(entry_name(table[107]), entry_name(table[108]), 5));
    assert(precedes_at(entry_name(table[108]), entry_name(table[109]), 5));
    assert(precedes_at(entry_name(table[109]), entry_name(table[110]), 2));
    assert(precedes_at(entry_name(table[110]), entry_name(table[111]), 5));
    assert(precedes_at(entry_name(table[111]), entry_name(table[112]), 3));
}

/// The names of `ENTITIES_LOWER_B` from entry 112 up to entry 116.
proof fn lemma_names_lower_b_from_112()
    ensures
        names_in_order(ENTITIES_LOWER_B@, 'b' as u8, 112, 116),
{
    broadcast use is_ascii_spec_bytes;

    reveal(precedes);
    let table = ENTITIES_LOWER_B@;
    reveal_strlit("&bump;");
    assert(is_ascii("&bump;"));
    reveal_strlit("&bumpE;");
    assert(is_ascii("&bumpE;"));
    reveal_strlit("&bumpe;");
    assert(is_ascii("&bumpe;"));
    reveal_strlit("&bumpeq;");
    assert(is_ascii("&bumpeq;"));
    assert(precedes_at(entry_name(table[112]), entry_name(table[113]), 5));
    assert(precedes_at(entry_name(table[113]), entry_name(table[114]), 5));
    assert(precedes_at(entry_name(table[114]), entry_name(table[115]), 6));
}

/// Every name in `ENTITIES_LOWER_B` starts with `&b` and has 3 to 33 bytes, and
/// each name comes before the next in the order of byte strings.
pub proof fn lemma_names_lower_b()
    ensures
        names_start_with(ENTITIES_LOWER_B@, 'b' as u8),
        names_ascend(ENTITIES_LOWER_B@),
{
    lemma_names_lower_b_from_0();
    lemma_names_lower_b_from_8();
    lemma_names_lower_b_from_16();
    lemma_names_lower_b_from_24();
    lemma_names_lower_b_from_32();
    lemma_names_lower_b_from_40();
    lemma_names_lower_b_from_48();
    lemma_names_lower_b_from_56();
    lemma_names_lower_b_from_64();
    lemma_names_lower_b_from_72();
    lemma_names_lower_b_from_80();
    lemma_names_lower_b_from_88();
    lemma_names_lower_b_from_96();
    lemma_names_lower_b_from_104();
    lemma_names_lower_b_from_112();
}

} // verus!
