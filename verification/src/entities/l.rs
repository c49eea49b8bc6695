//! The named character references that start with `L` or `l`.

use crate::entities::{names_in_order, names_start_with};
use crate::search::{entry_name, names_ascend, precedes, precedes_at, Entry};
use vstd::prelude::*;
use vstd::string::{is_ascii, is_ascii_spec_bytes};

verus! {

/// The named character references that start with `&L`, each with its
/// expansion, in the order of byte strings.
pub const ENTITIES_UPPER_L: [Entry; 60] = [
    ("&LJcy;", "\u{409}"),
    ("&LT", "<"),
    ("&LT;", "<"),
    ("&Lacute;", "\u{139}"),
    ("&Lambda;", "\u{39b}"),
    ("&Lang;", "\u{27ea}"),
    ("&Laplacetrf;", "\u{2112}"),
    ("&Larr;", "\u{219e}"),
    ("&Lcaron;", "\u{13d}"),
    ("&Lcedil;", "\u{13b}"),
    ("&Lcy;", "\u{41b}"),
    ("&LeftAngleBracket;", "\u{27e8}"),
    ("&LeftArrow;", "\u{2190}"),
    ("&LeftArrowBar;", "\u{21e4}"),
    ("&LeftArrowRightArrow;", "\u{21c6}"),
    ("&LeftCeiling;", "\u{2308}"),
    ("&LeftDoubleBracket;", "\u{27e6}"),
    ("&LeftDownTeeVector;", "\u{2961}"),
    ("&LeftDownVector;", "\u{21c3}"),
    ("&LeftDownVectorBar;", "\u{2959}"),
    ("&LeftFloor;", "\u{230a}"),
    ("&LeftRightArrow;", "\u{2194}"),
    ("&LeftRightVector;", "\u{294e}"),
    ("&LeftTee;", "\u{22a3}"),
    ("&LeftTeeArrow;", "\u{21a4}"),
    ("&LeftTeeVector;", "\u{295a}"),
    ("&LeftTriangle;", "\u{22b2}"),
    ("&LeftTriangleBar;", "\u{29cf}"),
    ("&LeftTriangleEqual;", "\u{22b4}"),
    ("&LeftUpDownVector;", "\u{2951}"),
    ("&LeftUpTeeVector;", "\u{2960}"),
    ("&LeftUpVector;", "\u{21bf}"),
    ("&LeftUpVectorBar;", "\u{2958}"),
    ("&LeftVector;", "\u{21bc}"),
    ("&LeftVectorBar;", "\u{2952}"),
    ("&Leftarrow;", "\u{21d0}"),
    ("&Leftrightarrow;", "\u{21d4}"),
    ("&LessEqualGreater;", "\u{22da}"),
    ("&LessFullEqual;", "\u{2266}"),
    ("&LessGreater;", "\u{2276}"),
    ("&LessLess;", "\u{2aa1}"),
    ("&LessSlantEqual;", "\u{2a7d}"),
    ("&LessTilde;", "\u{2272}"),
    ("&Lfr;", "\u{1d50f}"),
    ("&Ll;", "\u{22d8}"),
    ("&Lleftarrow;", "\u{21da}"),
    ("&Lmidot;", "\u{13f}"),
    ("&LongLeftArrow;", "\u{27f5}"),
    ("&LongLeftRightArrow;", "\u{27f7}"),
    ("&LongRightArrow;", "\u{27f6}"),
    ("&Longleftarrow;", "\u{27f8}"),
    ("&Longleftrightarrow;", "\u{27fa}"),
    ("&Longrightarrow;", "\u{27f9}"),
    ("&Lopf;", "\u{1d543}"),
    ("&LowerLeftArrow;", "\u{2199}"),
    ("&LowerRightArrow;", "\u{2198}"),
    ("&Lscr;", "\u{2112}"),
    ("&Lsh;", "\u{21b0}"),
    ("&Lstrok;", "\u{141}"),
    ("&Lt;", "\u{226a}"),
];

/// The named character references that start with `&l`, each with its
/// expansion, in the order of byte strings.
pub const ENTITIES_LOWER_L: [Entry; 154] = [
    ("&lAarr;", "\u{21da}"),
    ("&lArr;", "\u{21d0}"),
    ("&lAtail;", "\u{291b}"),
    ("&lBarr;", "\u{290e}"),
    ("&lE;", "\u{2266}"),
    ("&lEg;", "\u{2a8b}"),
    ("&lHar;", "\u{2962}"),
    ("&lacute;", "\u{13a}"),
    ("&laemptyv;", "\u{29b4}"),
    ("&lagran;", "\u{2112}"),
    ("&lambda;", "\u{3bb}"),
    ("&lang;", "\u{27e8}"),
    ("&langd;", "\u{2991}"),
    ("&langle;", "\u{27e8}"),
    ("&lap;", "\u{2a85}"),
    ("&laquo", "\u{ab}"),
    ("&laquo;", "\u{ab}"),
    ("&larr;", "\u{2190}"),
    ("&larrb;", "\u{21e4}"),
    ("&larrbfs;", "\u{291f}"),
    ("&larrfs;", "\u{291d}"),
    ("&larrhk;", "\u{21a9}"),
    ("&larrlp;", "\u{21ab}"),
    ("&larrpl;", "\u{2939}"),
    ("&larrsim;", "\u{2973}"),
    ("&larrtl;", "\u{21a2}"),
    ("&lat;", "\u{2aab}"),
    ("&latail;", "\u{2919}"),
    ("&late;", "\u{2aad}"),
    ("&lates;", "\u{2aad}\u{fe00}"),
    ("&lbarr;", "\u{290c}"),
    ("&lbbrk;", "\u{2772}"),
    ("&lbrace;", "{"),
    ("&lbrack;", "["),
    ("&lbrke;", "\u{298b}"),
    ("&lbrksld;", "\u{298f}"),
    ("&lbrkslu;", "\u{298d}"),
    ("&lcaron;", "\u{13e}"),
    ("&lcedil;", "\u{13c}"),
    ("&lceil;", "\u{2308}"),
    ("&lcub;", "{"),
    ("&lcy;", "\u{43b}"),
    ("&ldca;", "\u{2936}"),
    ("&ldquo;", "\u{201c}"),
    ("&ldquor;", "\u{201e}"),
    ("&ldrdhar;", "\u{2967}"),
    ("&ldrushar;", "\u{294b}"),
    ("&ldsh;", "\u{21b2}"),
    ("&le;", "\u{2264}"),
    ("&leftarrow;", "\u{2190}"),
    ("&leftarrowtail;", "\u{21a2}"),
    ("&leftharpoondown;", "\u{21bd}"),
    ("&leftharpoonup;", "\u{21bc}"),
    ("&leftleftarrows;", "\u{21c7}"),
    ("&leftrightarrow;", "\u{2194}"),
    ("&leftrightarrows;", "\u{21c6}"),
    ("&leftrightharpoons;", "\u{21cb}"),
    ("&leftrightsquigarrow;", "\u{21ad}"),
    ("&leftthreetimes;", "\u{22cb}"),
    ("&leg;", "\u{22da}"),
    ("&leq;", "\u{2264}"),
    ("&leqq;", "\u{2266}"),
    ("&leqslant;", "\u{2a7d}"),
    ("&les;", "\u{2a7d}"),
    ("&lescc;", "\u{2aa8}"),
    ("&lesdot;", "\u{2a7f}"),
    ("&lesdoto;", "\u{2a81}"),
    ("&lesdotor;", "\u{2a83}"),
    ("&lesg;", "\u{22da}\u{fe00}"),
    ("&lesges;", "\u{2a93}"),
    ("&lessapprox;", "\u{2a85}"),
    ("&lessdot;", "\u{22d6}"),
    ("&lesseqgtr;", "\u{22da}"),
    ("&lesseqqgtr;", "\u{2a8b}"),
    ("&lessgtr;", "\u{2276}"),
    ("&lesssim;", "\u{2272}"),
    ("&lfisht;", "\u{297c}"),
    ("&lfloor;", "\u{230a}"),
    ("&lfr;", "\u{1d529}"),
    ("&lg;", "\u{2276}"),
    ("&lgE;", "\u{2a91}"),
    ("&lhard;", "\u{21bd}"),
    ("&lharu;", "\u{21bc}"),
    ("&lharul;", "\u{296a}"),
    ("&lhblk;", "\u{2584}"),
    ("&ljcy;", "\u{459}"),
    ("&ll;", "\u{226a}"),
    ("&llarr;", "\u{21c7}"),
    ("&llcorner;", "\u{231e}"),
    ("&llhard;", "\u{296b}"),
    ("&lltri;", "\u{25fa}"),
    ("&lmidot;", "\u{140}"),
    ("&lmoust;", "\u{23b0}"),
    ("&lmoustache;", "\u{23b0}"),
    ("&lnE;", "\u{2268}"),
    ("&lnap;", "\u{2a89}"),
    ("&lnapprox;", "\u{2a89}"),
    ("&lne;", "\u{2a87}"),
    ("&lneq;", "\u{2a87}"),
    ("&lneqq;", "\u{2268}"),
    ("&lnsim;", "\u{22e6}"),
    ("&loang;", "\u{27ec}"),
    ("&loarr;", "\u{21fd}"),
    ("&lobrk;", "\u{27e6}"),
    ("&longleftarrow;", "\u{27f5}"),
    ("&longleftrightarrow;", "\u{27f7}"),
    ("&longmapsto;", "\u{27fc}"),
    ("&longrightarrow;", "\u{27f6}"),
    ("&looparrowleft;", "\u{21ab}"),
    ("&looparrowright;", "\u{21ac}"),
    ("&lopar;", "\u{2985}"),
    ("&lopf;", "\u{1d55d}"),
    ("&loplus;", "\u{2a2d}"),
    ("&lotimes;", "\u{2a34}"),
    ("&lowast;", "\u{2217}"),
    ("&lowbar;", "_"),
    ("&loz;", "\u{25ca}"),
    ("&lozenge;", "\u{25ca}"),
    ("&lozf;", "\u{29eb}"),
    ("&lpar;", "("),
    ("&lparlt;", "\u{2993}"),
    ("&lrarr;", "\u{21c6}"),
    ("&lrcorner;", "\u{231f}"),
    ("&lrhar;", "\u{21cb}"),
    ("&lrhard;", "\u{296d}"),
    ("&lrm;", "\u{200e}"),
    ("&lrtri;", "\u{22bf}"),
    ("&lsaquo;", "\u{2039}"),
    ("&lscr;", "\u{1d4c1}"),
    ("&lsh;", "\u{21b0}"),
    ("&lsim;", "\u{2272}"),
    ("&lsime;", "\u{2a8d}"),
    ("&lsimg;", "\u{2a8f}"),
    ("&lsqb;", "["),
    ("&lsquo;", "\u{2018}"),
    ("&lsquor;", "\u{201a}"),
    ("&lstrok;", "\u{142}"),
    ("&lt", "<"),
    ("&lt;", "<"),
    ("&ltcc;", "\u{2aa6}"),
    ("&ltcir;", "\u{2a79}"),
    ("&ltdot;", "\u{22d6}"),
    ("&lthree;", "\u{22cb}"),
    ("&ltimes;", "\u{22c9}"),
    ("&ltlarr;", "\u{2976}"),
    ("&ltquest;", "\u{2a7b}"),
    ("&ltrPar;", "\u{2996}"),
    ("&ltri;", "\u{25c3}"),
    ("&ltrie;", "\u{22b4}"),
    ("&ltrif;", "\u{25c2}"),
    ("&lurdshar;", "\u{294a}"),
    ("&luruhar;", "\u{2966}"),
    ("&lvertneqq;", "\u{2268}\u{fe00}"),
    ("&lvnE;", "\u{2268}\u{fe00}"),
];

/// The names of `ENTITIES_UPPER_L` from entry 0 up to entry 8.
proof fn lemma_names_upper_l_from_0()
    ensures
        names_in_order(ENTITIES_UPPER_L@, 'L' as u8, 0, 8),
{
    broadcast use is_ascii_spec_bytes;

    reveal(precedes);
    let table = ENTITIES_UPPER_L@;
    reveal_strlit("&LJcy;");
    assert(is_ascii("&LJcy;"));
    reveal_strlit("&LT");
    assert(is_ascii("&LT"));
    reveal_strlit("&LT;");
    assert(is_ascii("&LT;"));
    reveal_strlit("&Lacute;");
    assert(is_ascii("&Lacute;"));
    reveal_strlit("&Lambda;");
    assert(is_ascii("&Lambda;"));
    reveal_strlit("&Lang;");
    assert(is_ascii("&Lang;"));
    reveal_strlit("&Laplacetrf;");
    assert(is_ascii("&Laplacetrf;"));
    reveal_strlit("&Larr;");
    assert(is_ascii("&Larr;"));
    reveal_strlit("&Lcaron;");
    assert(is_ascii("&Lcaron;"));
    assert(precedes_at(entry_name(table[0]), entry_name(table[1]), 2));
    assert(precedes_at(entry_name(table[1]), entry_name(table[2]), 3));
    assert(precedes_at(entry_name(table[2]), entry_name(table[3]), 2));
    assert(precedes_at(entry_name(table[3]), entry_name(table[4]), 3));
    assert(precedes_at(entry_name(table[4]), entry_name(table[5]), 3));
    assert(precedes_at(entry_name(table[5]), entry_name(table[6]), 3));
    assert(precedes_at(entry_name(table[6]), entry_name(table[7]), 3));
    assert(precedes_at(entry_name(table[7]), entry_name(table[8]), 2));
}

/// The names of `ENTITIES_UPPER_L` from entry 8 up to entry 16.
proof fn lemma_names_upper_l_from_8()
    ensures
        names_in_order(ENTITIES_UPPER_L@, 'L' as u8, 8, 16),
{
    broadcast use is_ascii_spec_bytes;

    reveal(precedes);
    let table = ENTITIES_UPPER_L@;
    reveal_strlit("&Lcaron;");
    assert(is_ascii("&Lcaron;"));
    reveal_strlit("&Lcedil;");
    assert(is_ascii("&Lcedil;"));
    reveal_strlit("&Lcy;");
    assert(is_ascii("&Lcy;"));
    reveal_strlit("&LeftAngleBracket;");
    assert(is_ascii("&LeftAngleBracket;"));
    reveal_strlit("&LeftArrow;");
    assert(is_ascii("&LeftArrow;"));
    reveal_strlit("&LeftArrowBar;");
    assert(is_ascii("&LeftArrowBar;"));
    reveal_strlit("&LeftArrowRightArrow;");
    assert(is_ascii("&LeftArrowRightArrow;"));
    reveal_strlit("&LeftCeiling;");
    assert(is_ascii("&LeftCeiling;"));
    reveal_strlit("&LeftDoubleBracket;");
    assert(is_ascii("&LeftDoubleBracket;"));
    assert(precedes_at(entry_name(table[8]), entry_name(table[9]), 3));
    assert(precedes_at(entry_name(table[9]), entry_name(table[10]), 3));
    assert(precedes_at(entry_name(table[10]), entry_name(table[11]), 2));
    assert(precedes_at(entry_name(table[11]), entry_name(table[12]), 6));
    assert(precedes_at(entry_name(table[12]), entry_name(table[13]), 10));
    assert(precedes_at(entry_name(table[13]), entry_name(table[14]), 10));
    assert(precedes_at(entry_name(table[14]), entry_name(table[15]), 5));
    assert(precedes_at(entry_name(table[15]), entry_name(table[16]), 5));
}

/// The names of `ENTITIES_UPPER_L` from entry 16 up to entry 24.
proof fn lemma_names_upper_l_from_16()
    ensures
        names_in_order(ENTITIES_UPPER_L@, 'L' as u8, 16, 24),
{
    broadcast use is_ascii_spec_bytes;

    reveal(precedes);
    let table = ENTITIES_UPPER_L@;
    reveal_strlit("&LeftDoubleBracket;");
    assert(is_ascii("&LeftDoubleBracket;"));
    reveal_strlit("&LeftDownTeeVector;");
    assert(is_ascii("&LeftDownTeeVector;"));
    reveal_strlit("&LeftDownVector;");
    assert(is_ascii("&LeftDownVector;"));
    reveal_strlit("&LeftDownVectorBar;");
    assert(is_ascii("&LeftDownVectorBar;"));
    reveal_strlit("&LeftFloor;");
    assert(is_ascii("&LeftFloor;"));
    reveal_strlit("&LeftRightArrow;");
    assert(is_ascii("&LeftRightArrow;"));
    reveal_strlit("&LeftRightVector;");
    assert(is_ascii("&LeftRightVector;"));
    reveal_strlit("&LeftTee;");
    assert(is_ascii("&LeftTee;"));
    reveal_strlit("&LeftTeeArrow;");
    assert(is_ascii("&LeftTeeArrow;"));
    assert(precedes_at(entry_name(table[16]), entry_name(table[17]), 7));
    assert(precedes_at(entry_name(table[17]), entry_name(table[18]), 9));
    assert(precedes_at(entry_name(table[18]), entry_name(table[19]), 15));
    assert(precedes_at(entry_name(table[19]), entry_name(table[20]), 5));
    assert(precedes_at(entry_name(table[20]), entry_name(table[21]), 5));
    assert(precedes_at(entry_name(table[21]), entry_name(table[22]), 10));
    assert(precedes_at(entry_name(table[22]), entry_name(table[23]), 5));
    assert(precedes_at(entry_name(table[23]), entry_name(table[24]), 8));
}

/// The names of `ENTITIES_UPPER_L` from entry 24 up to entry 32.
proof fn lemma_names_upper_l_from_24()
    ensures
        names_in_order(ENTITIES_UPPER_L@, 'L' as u8, 24, 32),
{
    broadcast use is_ascii_spec_bytes;

    reveal(precedes);
    let table = ENTITIES_UPPER_L@;
    reveal_strlit("&LeftTeeArrow;");
    assert(is_ascii("&LeftTeeArrow;"));
    reveal_strlit("&LeftTeeVector;");
    assert(is_ascii("&LeftTeeVector;"));
    reveal_strlit("&LeftTriangle;");
    assert(is_ascii("&LeftTriangle;"));
    reveal_strlit("&LeftTriangleBar;");
    assert(is_ascii("&LeftTriangleBar;"));
    reveal_strlit("&LeftTriangleEqual;");
    assert(is_ascii("&LeftTriangleEqual;"));
    reveal_strlit("&LeftUpDownVector;");
    assert(is_ascii("&LeftUpDownVector;"));
    reveal_strlit("&LeftUpTeeVector;");
    assert(is_ascii("&LeftUpTeeVector;"));
    reveal_strlit("&LeftUpVector;");
    assert(is_ascii("&LeftUpVector;"));
    reveal_strlit("&LeftUpVectorBar;");
    assert(is_ascii("&LeftUpVectorBar;"));
    assert(precedes_at(entry_name(table[24]), entry_name(table[25]), 8));
    assert(precedes_at(entry_name(table[25]), entry_name(table[26]), 6));
    assert(precedes_at(entry_name(table[26]), entry_name(table[27]), 13));
    assert(precedes_at(entry_name(table[27]), entry_name(table[28]), 13));
    assert(precedes_at(entry_name(table[28]), entry_name(table[29]), 5));
    assert(precedes_at(entry_name(table[29]), entry_name(table[30]), 7));
    assert(precedes_at(entry_name(table[30]), entry_name(table[31]), 7));
    assert(precedes_at(entry_name(table[31]), entry_name(table[32]), 13));
}

/// The names of `ENTITIES_UPPER_L` from entry 32 up to entry 40.
proof fn lemma_names_upper_l_from_32()
    ensures
        names_in_order(ENTITIES_UPPER_L@, 'L' as u8, 32, 40),
{
    broadcast use is_ascii_spec_bytes;

    reveal(precedes);
    let table = ENTITIES_UPPER_L@;
    reveal_strlit("&LeftUpVectorBar;");
    assert(is_ascii("&LeftUpVectorBar;"));
    reveal_strlit("&LeftVector;");
    assert(is_ascii("&LeftVector;"));
    reveal_strlit("&LeftVectorBar;");
    assert(is_ascii("&LeftVectorBar;"));
    reveal_strlit("&Leftarrow;");
    assert(is_ascii("&Leftarrow;"));
    reveal_strlit("&Leftrightarrow;");
    assert(is_ascii("&Leftrightarrow;"));
    reveal_strlit("&LessEqualGreater;");
    assert(is_ascii("&LessEqualGreater;"));
    reveal_strlit("&LessFullEqual;");
    assert(is_ascii("&LessFullEqual;"));
    reveal_strlit("&LessGreater;");
    assert(is_ascii("&LessGreater;"));
    reveal_strlit("&LessLess;");
    assert(is_ascii("&LessLess;"));
    assert(precedes_at(entry_name(table[32]), entry_name(table[33]), 5));
    assert(precedes_at(entry_name(table[33]), entry_name(table[34]), 11));
    assert(precedes_at(entry_name(table[34]), entry_name(table[35]), 5));
    assert(precedes_at(entry_name(table[35]), entry_name(table[36]), 5));
    assert(precedes_at(entry_name(table[36]), entry_name(table[37]), 3));
    assert(precedes_at(entry_name(table[37]), entry_name(table[38]), 5));
    assert(precedes_at(entry_name(table[38]), entry_name(table[39]), 5));
    assert(precedes_at(entry_name(table[39]), entry_name(table[40]), 5));
}

/// The names of `ENTITIES_UPPER_L` from entry 40 up to entry 48.
proof fn lemma_names_upper_l_from_40()
    ensures
        names_in_order(ENTITIES_UPPER_L@, 'L' as u8, 40, 48),
{
    broadcast use is_ascii_spec_bytes;

    reveal(precedes);
    let table = ENTITIES_UPPER_L@;
    reveal_strlit("&LessLess;");
    assert(is_ascii("&LessLess;"));
    reveal_strlit("&LessSlantEqual;");
    assert(is_ascii("&LessSlantEqual;"));
    reveal_strlit("&LessTilde;");
    assert(is_ascii("&LessTilde;"));
    reveal_strlit("&Lfr;");
    assert(is_ascii("&Lfr;"));
    reveal_strlit("&Ll;");
    assert(is_ascii("&Ll;"));
    reveal_strlit("&Lleftarrow;");
    assert(is_ascii("&Lleftarrow;"));
    reveal_strlit("&Lmidot;");
    assert(is_ascii("&Lmidot;"));
    reveal_strlit("&LongLeftArrow;");
    assert(is_ascii("&LongLeftArrow;"));
    reveal_strlit("&LongLeftRightArrow;");
    assert(is_ascii("&LongLeftRightArrow;"));
    assert(precedes_at(entry_name(table[40]), entry_name(table[41]), 5));
    assert(precedes_at(entry_name(table[41]), entry_name(table[42]), 5));
    assert(precedes_at(entry_name(table[42]), entry_name(table[43]), 2));
    assert(precedes_at(entry_name(table[43]), entry_name(table[44]), 2));
    assert(precedes_at(entry_name(table[44]), entry_name(table[45]), 3));
    assert(precedes_at(entry_name(table[45]), entry_name(table[46]), 2));
    assert(precedes_at(entry_name(table[46]), entry_name(table[47]), 2));
    assert(precedes_at(entry_name(table[47]), entry_name(table[48]), 9));
}

/// The names of `ENTITIES_UPPER_L` from entry 48 up to entry 56.
proof fn lemma_names_upper_l_from_48()
    ensures
        names_in_order(ENTITIES_UPPER_L@, 'L' as u8, 48, 56),
{
    broadcast use is_ascii_spec_bytes;

    reveal(precedes);
    let table = ENTITIES_UPPER_L@;
    reveal_strlit("&LongLeftRightArrow;");
    assert(is_ascii("&LongLeftRightArrow;"));
    reveal_strlit("&LongRightArrow;");
    assert(is_ascii("&LongRightArrow;"));
    reveal_strlit("&Longleftarrow;");
    assert(is_ascii("&Longleftarrow;"));
    reveal_strlit("&Longleftrightarrow;");
    assert(is_ascii("&Longleftrightarrow;"));
    reveal_strlit("&Longrightarrow;");
    assert(is_ascii("&Longrightarrow;"));
    reveal_strlit("&Lopf;");
    assert(is_ascii("&Lopf;"));
    reveal_strlit("&LowerLeftArrow;");
    assert(is_ascii("&LowerLeftArrow;"));
    reveal_strlit("&LowerRightArrow;");
    assert(is_ascii("&LowerRightArrow;"));
    reveal_strlit("&Lscr;");
    assert(is_ascii("&Lscr;"));
    assert(precedes_at(entry_name(table[48]), entry_name(table[49]), 5));
    assert(precedes_at(entry_name(table[49]), entry_name(table[50]), 5));
    assert(precedes_at(entry_name(table[50]), entry_name(table[51]), 9));
    assert(precedes_at(entry_name(table[51]), entry_name(table[52]), 5));
    assert(precedes_at(entry_name(table[52]), entry_name(table[53]), 3));
    assert(precedes_at(entry_name(table[53]), entry_name(table[54]), 3));
    assert(precedes_at(entry_name(table[54]), entry_name(table[55]), 6));
    assert(precedes_at(entry_name(table[55]), entry_name(table[56]), 2));
}

/// The names of `ENTITIES_UPPER_L` from entry 56 up to entry 60.
proof fn lemma_names_upper_l_from_56()
    ensures
        names_in_order(ENTITIES_UPPER_L@, 'L' as u8, 56, 60),
{
    broadcast use is_ascii_spec_bytes;

    reveal(precedes);
    let table = ENTITIES_UPPER_L@;
    reveal_strlit("&Lscr;");
    assert(is_ascii("&Lscr;"));
    reveal_strlit("&Lsh;");
    assert(is_ascii("&Lsh;"));
    reveal_strlit("&Lstrok;");
    assert(is_ascii("&Lstrok;"));
    reveal_strlit("&Lt;");
    assert(is_ascii("&Lt;"));
    assert(precedes_at(entry_name(table[56]), entry_name(table[57]), 3));
    assert(precedes_at(entry_name(table[57]), entry_name(table[58]), 3));
    assert(precedes_at(entry_name(table[58]), entry_name(table[59]), 2));
}

/// Every name in `ENTITIES_UPPER_L` starts with `&L` and has 3 to 33 bytes, and
/// each name comes before the next in the order of byte strings.
pub proof fn lemma_names_upper_l()
    ensures
        names_start_with(ENTITIES_UPPER_L@, 'L' as u8),
        names_ascend(ENTITIES_UPPER_L@),
{
    lemma_names_upper_l_from_0();
    lemma_names_upper_l_from_8();
    lemma_names_upper_l_from_16();
    lemma_names_upper_l_from_24();
    lemma_names_upper_l_from_32();
    lemma_names_upper_l_from_40();
    lemma_names_upper_l_from_48();
    lemma_names_upper_l_from_56();
}

/// The names of `ENTITIES_LOWER_L` from entry 0 up to entry 8.
proof fn lemma_names_lower_l_from_0()
    ensures
        names_in_order(ENTITIES_LOWER_L@, 'l' as u8, 0, 8),
{
    broadcast use is_ascii_spec_bytes;

    reveal(precedes);
    let table = ENTITIES_LOWER_L@;
    reveal_strlit("&lAarr;");
    assert(is_ascii("&lAarr;"));
    reveal_strlit("&lArr;");
    assert(is_ascii("&lArr;"));
    reveal_strlit("&lAtail;");
    assert(is_ascii("&lAtail;"));
    reveal_strlit("&lBarr;");
    assert(is_ascii("&lBarr;"));
    reveal_strlit("&lE;");
    assert(is_ascii("&lE;"));
    reveal_strlit("&lEg;");
    assert(is_ascii("&lEg;"));
    reveal_strlit("&lHar;");
    assert(is_ascii("&lHar;"));
    reveal_strlit("&lacute;");
    assert(is_ascii("&lacute;"));
    reveal_strlit("&laemptyv;");
    assert(is_ascii("&laemptyv;"));
    assert(precedes_at(entry_name(table[0]), entry_name(table[1]), 3));
    assert(precedes_at(entry_name(table[1]), entry_name(table[2]), 3));
    assert(precedes_at(entry_name(table[2]), entry_name(table[3]), 2));
    assert(precedes_at(entry_name(table[3]), entry_name(table[4]), 2));
    assert(precedes_at(entry_name(table[4]), entry_name(table[5]), 3));
    assert(precedes_at(entry_name(table[5]), entry_name(table[6]), 2));
    assert(precedes_at(entry_name(table[6]), entry_name(table[7]), 2));
    assert(precedes_at(entry_name(table[7]), entry_name(table[8]), 3));
}

/// The names of `ENTITIES_LOWER_L` from entry 8 up to entry 16.
proof fn lemma_names_lower_l_from_8()
    ensures
        names_in_order(ENTITIES_LOWER_L@, 'l' as u8, 8, 16),
{
    broadcast use is_ascii_spec_bytes;

    reveal(precedes);
    let table = ENTITIES_LOWER_L@;
    reveal_strlit("&laemptyv;");
    assert(is_ascii("&laemptyv;"));
    reveal_strlit("&lagran;");
    assert(is_ascii("&lagran;"));
    reveal_strlit("&lambda;");
    assert(is_ascii("&lambda;"));
    reveal_strlit("&lang;");
    assert(is_ascii("&lang;"));
    reveal_strlit("&langd;");
    assert(is_ascii("&langd;"));
    reveal_strlit("&langle;");
    assert(is_ascii("&langle;"));
    reveal_strlit("&lap;");
    assert(is_ascii("&lap;"));
    reveal_strlit("&laquo");
    assert(is_ascii("&laquo"));
    reveal_strlit("&laquo;");
    assert(is_ascii("&laquo;"));
    assert(precedes_at(entry_name(table[8]), entry_name(table[9]), 3));
    assert(precedes_at(entry_name(table[9]), entry_name(table[10]), 3));
    assert(precedes_at(entry_name(table[10]), entry_name(table[11]), 3));
    assert(precedes_at(entry_name(table[11]), entry_name(table[12]), 5));
    assert(precedes_at(entry_name(table[12]), entry_name(table[13]), 5));
    assert(precedes_at(entry_name(table[13]), entry_name(table[14]), 3));
    assert(precedes_at(entry_name(table[14]), entry_name(table[15]), 3));
    assert(precedes_at(entry_name(table[15]), entry_name(table[16]), 6));
}

/// The names of `ENTITIES_LOWER_L` from entry 16 up to entry 24.
proof fn lemma_names_lower_l_from_16()
    ensures
        names_in_order(ENTITIES_LOWER_L@, 'l' as u8, 16, 24),
{
    broadcast use is_ascii_spec_bytes;

    reveal(precedes);
    let table = ENTITIES_LOWER_L@;
    reveal_strlit("&laquo;");
    assert(is_ascii("&laquo;"));
    reveal_strlit("&larr;");
    assert(is_ascii("&larr;"));
    reveal_strlit("&larrb;");
    assert(is_ascii("&larrb;"));
    reveal_strlit("&larrbfs;");
    assert(is_ascii("&larrbfs;"));
    reveal_strlit("&larrfs;");
    assert(is_ascii("&larrfs;"));
    reveal_strlit("&larrhk;");
    assert(is_ascii("&larrhk;"));
    reveal_strlit("&larrlp;");
    assert(is_ascii("&larrlp;"));
    reveal_strlit("&larrpl;");
    assert(is_ascii("&larrpl;"));
    reveal_strlit("&larrsim;");
    assert(is_ascii("&larrsim;"));
    assert(precedes_at(entry_name(table[16]), entry_name(table[17]), 3));
    assert(precedes_at(entry_name(table[17]), entry_name(table[18]), 5));
    assert(precedes_at(entry_name(table[18]), entry_name(table[19]), 6));
    assert(precedes_at(entry_name(table[19]), entry_name(table[20]), 5));
    assert(precedes_at(entry_name(table[20]), entry_name(table[21]), 5));
    assert(precedes_at(entry_name(table[21]), entry_name(table[22]), 5));
    assert(precedes_at(entry_name(table[22]), entry_name(table[23]), 5));
    assert(precedes_at(entry_name(table[23]), entry_name(table[24]), 5));
}

/// The names of `ENTITIES_LOWER_L` from entry 24 up to entry 32.
proof fn lemma_names_lower_l_from_24()
    ensures
        names_in_order(ENTITIES_LOWER_L@, 'l' as u8, 24, 32),
{
    broadcast use is_ascii_spec_bytes;

    reveal(precedes);
    let table = ENTITIES_LOWER_L@;
    reveal_strlit("&larrsim;");
    assert(is_ascii("&larrsim;"));
    reveal_strlit("&larrtl;");
    assert(is_ascii("&larrtl;"));
    reveal_strlit("&lat;");
    assert(is_ascii("&lat;"));
    reveal_strlit("&latail;");
    assert(is_ascii("&latail;"));
    reveal_strlit("&late;");
    assert(is_ascii("&late;"));
    reveal_strlit("&lates;");
    assert(is_ascii("&lates;"));
    reveal_strlit("&lbarr;");
    assert(is_ascii("&lbarr;"));
    reveal_strlit("&lbbrk;");
    assert(is_ascii("&lbbrk;"));
    reveal_strlit("&lbrace;");
    assert(is_ascii("&lbrace;"));
    assert(precedes_at(entry_name(table[24]), entry_name(table[25]), 5));
    assert(precedes_at(entry_name(table[25]), entry_name(table[26]), 3));
    assert(precedes_at(entry_name(table[26]), entry_name(table[27]), 4));
    assert(precedes_at(entry_name(table[27]), entry_name(table[28]), 4));
    assert(precedes_at(entry_name(table[28]), entry_name(table[29]), 5));
    assert(precedes_at(entry_name(table[29]), entry_name(table[30]), 2));
    assert(precedes_at(entry_name(table[30]), entry_name(table[31]), 3));
    assert(precedes_at(entry_name(table[31]), entry_name(table[32]), 3));
}

/// The names of `ENTITIES_LOWER_L` from entry 32 up to entry 40.
proof fn lemma_names_lower_l_from_32()
    ensures
        names_in_order(ENTITIES_LOWER_L@, 'l' as u8, 32, 40),
{
    broadcast use is_ascii_spec_bytes;

    reveal(precedes);
    let table = ENTITIES_LOWER_L@;
    reveal_strlit("&lbrace;");
    assert(is_ascii("&lbrace;"));
    reveal_strlit("&lbrack;");
    assert(is_ascii("&lbrack;"));
    reveal_strlit("&lbrke;");
    assert(is_ascii("&lbrke;"));
    reveal_strlit("&lbrksld;");
    assert(is_ascii("&lbrksld;"));
    reveal_strlit("&lbrkslu;");
    assert(is_ascii("&lbrkslu;"));
    reveal_strlit("&lcaron;");
    assert(is_ascii("&lcaron;"));
    reveal_strlit("&lcedil;");
    assert(is_ascii("&lcedil;"));
    reveal_strlit("&lceil;");
    assert(is_ascii("&lceil;"));
    reveal_strlit("&lcub;");
    assert(is_ascii("&lcub;"));
    assert(precedes_at(entry_name(table[32]), entry_name(table[33]), 6));
    assert(precedes_at(entry_name(table[33]), entry_name(table[34]), 4));
    assert(precedes_at(entry_name(table[34]), entry_name(table[35]), 5));
    assert(precedes_at(entry_name(table[35]), entry_name(table[36]), 7));
    assert(precedes_at(entry_name(table[36]), entry_name(table[37]), 2));
    assert(precedes_at(entry_name(table[37]), entry_name(table[38]), 3));
    assert(precedes_at(entry_name(table[38]), entry_name(table[39]), 4));
    assert(precedes_at(entry_name(table[39]), entry_name(table[40]), 3));
}

/// The names of `ENTITIES_LOWER_L` from entry 40 up to entry 48.
proof fn lemma_names_lower_l_from_40()
    ensures
        names_in_order(ENTITIES_LOWER_L@, 'l' as u8, 40, 48),
{
    broadcast use is_ascii_spec_bytes;

    reveal(precedes);
    let table = ENTITIES_LOWER_L@;
    reveal_strlit("&lcub;");
    assert(is_ascii("&lcub;"));
    reveal_strlit("&lcy;");
    assert(is_ascii("&lcy;"));
    reveal_strlit("&ldca;");
    assert(is_ascii("&ldca;"));
    reveal_strlit("&ldquo;");
    assert(is_ascii("&ldquo;"));
    reveal_strlit("&ldquor;");
    assert(is_ascii("&ldquor;"));
    reveal_strlit("&ldrdhar;");
    assert(is_ascii("&ldrdhar;"));
    reveal_strlit("&ldrushar;");
    assert(is_ascii("&ldrushar;"));
    reveal_strlit("&ldsh;");
    assert(is_ascii("&ldsh;"));
    reveal_strlit("&le;");
    assert(is_ascii("&le;"));
    assert(precedes_at(entry_name(table[40]), entry_name(table[41]), 3));
    assert(precedes_at(entry_name(table[41]), entry_name(table[42]), 2));
    assert(precedes_at(entry_name(table[42]), entry_name(table[43]), 3));
    assert(precedes_at(entry_name(table[43]), entry_name(table[44]), 6));
    assert(precedes_at(entry_name(table[44]), entry_name(table[45]), 3));
    assert(precedes_at(entry_name(table[45]), entry_name(table[46]), 4));
    assert(precedes_at(entry_name(table[46]), entry_name(table[47]), 3));
    assert(precedes_at(entry_name(table[47]), entry_name(table[48]), 2));
}

/// The names of `ENTITIES_LOWER_L` from entry 48 up to entry 56.
proof fn lemma_names_lower_l_from_48()
    ensures
        names_in_order(ENTITIES_LOWER_L@, 'l' as u8, 48, 56),
{
    broadcast use is_ascii_spec_bytes;

    reveal(precedes);
    let table = ENTITIES_LOWER_L@;
    reveal_strlit("&le;");
    assert(is_ascii("&le;"));
    reveal_strlit("&leftarrow;");
    assert(is_ascii("&leftarrow;"));
    reveal_strlit("&leftarrowtail;");
    assert(is_ascii("&leftarrowtail;"));
    reveal_strlit("&leftharpoondown;");
    assert(is_ascii("&leftharpoondown;"));
    reveal_strlit("&leftharpoonup;");
    assert(is_ascii("&leftharpoonup;"));
    reveal_strlit("&leftleftarrows;");
    assert(is_ascii("&leftleftarrows;"));
    reveal_strlit("&leftrightarrow;");
    assert(is_ascii("&leftrightarrow;"));
    reveal_strlit("&leftrightarrows;");
    assert(is_ascii("&leftrightarrows;"));
    reveal_strlit("&leftrightharpoons;");
    assert(is_ascii("&leftrightharpoons;"));
    assert(precedes_at(entry_name(table[48]), entry_name(table[49]), 3));
    assert(precedes_at(entry_name(table[49]), entry_name(table[50]), 10));
    assert(precedes_at(entry_name(table[50]), entry_name(table[51]), 5));
    assert(precedes_at(entry_name(table[51]), entry_name(table[52]), 12));
    assert(precedes_at(entry_name(table[52]), entry_name(table[53]), 5));
    assert(precedes_at(entry_name(table[53]), entry_name(table[54]), 5));
    assert(precedes_at(entry_name(table[54]), entry_name(table[55]), 15));
    assert(precedes_at(entry_name(table[55]), entry_name(table[56]), 10));
}

/// The names of `ENTITIES_LOWER_L` from entry 56 up to entry 64.
proof fn lemma_names_lower_l_from_56()
    ensures
        names_in_order(ENTITIES_LOWER_L@, 'l' as u8, 56, 64),
{
    broadcast use is_ascii_spec_bytes;

    reveal(precedes);
    let table = ENTITIES_LOWER_L@;
    reveal_strlit("&leftrightharpoons;");
    assert(is_ascii("&leftrightharpoons;"));
    reveal_strlit("&leftrightsquigarrow;");
    assert(is_ascii("&leftrightsquigarrow;"));
    reveal_strlit("&leftthreetimes;");
    assert(is_ascii("&leftthreetimes;"));
    reveal_strlit("&leg;");
    assert(is_ascii("&leg;"));
    reveal_strlit("&leq;");
    assert(is_ascii("&leq;"));
    reveal_strlit("&leqq;");
    assert(is_ascii("&leqq;"));
    reveal_strlit("&leqslant;");
    assert(is_ascii("&leqslant;"));
    reveal_strlit("&les;");
    assert(is_ascii("&les;"));
    reveal_strlit("&lescc;");
    assert(is_ascii("&lescc;"));
    assert(precedes_at(entry_name(table[56]), entry_name(table[57]), 10));
    assert(precedes_at(entry_name(table[57]), entry_name(table[58]), 5));
    assert(precedes_at(entry_name(table[58]), entry_name(table[59]), 3));
    assert(precedes_at(entry_name(table[59]), entry_name(table[60]), 3));
    assert(precedes_at(entry_name(table[60]), entry_name(table[61]), 4));
    assert(precedes_at(entry_name(table[61]), entry_name(table[62]), 4));
    assert(precedes_at(entry_name(table[62]), entry_name(table[63]), 3));
    assert(precedes_at(entry_name(table[63]), entry_name(table[64]), 4));
}

/// The names of `ENTITIES_LOWER_L` from entry 64 up to entry 72.
proof fn lemma_names_lower_l_from_64()
    ensures
        names_in_order(ENTITIES_LOWER_L@, 'l' as u8, 64, 72),
{
    broadcast use is_ascii_spec_bytes;

    reveal(precedes);
    let table = ENTITIES_LOWER_L@;
    reveal_strlit("&lescc;");
    assert(is_ascii("&lescc;"));
    reveal_strlit("&lesdot;");
    assert(is_ascii("&lesdot;"));
    reveal_strlit("&lesdoto;");
    assert(is_ascii("&lesdoto;"));
    reveal_strlit("&lesdotor;");
    assert(is_ascii("&lesdotor;"));
    reveal_strlit("&lesg;");
    assert(is_ascii("&lesg;"));
    reveal_strlit("&lesges;");
    assert(is_ascii("&lesges;"));
    reveal_strlit("&lessapprox;");
    assert(is_ascii("&lessapprox;"));
    reveal_strlit("&lessdot;");
    assert(is_ascii("&lessdot;"));
    reveal_strlit("&lesseqgtr;");
    assert(is_ascii("&lesseqgtr;"));
    assert(precedes_at(entry_name(table[64]), entry_name(table[65]), 4));
    assert(precedes_at(entry_name(table[65]), entry_name(table[66]), 7));
    assert(precedes_at(entry_name(table[66]), entry_name(table[67]), 8));
    assert(precedes_at(entry_name(table[67]), entry_name(table[68]), 4));
    assert(precedes_at(entry_name(table[68]), entry_name(table[69]), 5));
    assert(precedes_at(entry_name(table[69]), entry_name(table[70]), 4));
    assert(precedes_at(entry_name(table[70]), entry_name(table[71]), 5));
    assert(precedes_at(entry_name(table[71]), entry_name(table[72]), 5));
}

/// The names of `ENTITIES_LOWER_L` from entry 72 up to entry 80.
proof fn lemma_names_lower_l_from_72()
    ensures
        names_in_order(ENTITIES_LOWER_L@, 'l' as u8, 72, 80),
{
    broadcast use is_ascii_spec_bytes;

    reveal(precedes);
    let table = ENTITIES_LOWER_L@;
    reveal_strlit("&lesseqgtr;");
    assert(is_ascii("&lesseqgtr;"));
    reveal_strlit("&lesseqqgtr;");
    assert(is_ascii("&lesseqqgtr;"));
    reveal_strlit("&lessgtr;");
    assert(is_ascii("&lessgtr;"));
    reveal_strlit("&lesssim;");
    assert(is_ascii("&lesssim;"));
    reveal_strlit("&lfisht;");
    assert(is_ascii("&lfisht;"));
    reveal_strlit("&lfloor;");
    assert(is_ascii("&lfloor;"));
    reveal_strlit("&lfr;");
    assert(is_ascii("&lfr;"));
    reveal_strlit("&lg;");
    assert(is_ascii("&lg;"));
    reveal_strlit("&lgE;");
    assert(is_ascii("&lgE;"));
    assert(precedes_at(entry_name(table[72]), entry_name(table[73]), 7));
    assert(precedes_at(entry_name(table[73]), entry_name(table[74]), 5));
    assert(precedes_at(entry_name(table[74]), entry_name(table[75]), 5));
    assert(precedes_at(entry_name(table[75]), entry_name(table[76]), 2));
    assert(precedes_at(entry_name(table[76]), entry_name(table[77]), 3));
    assert(precedes_at(entry_name(table[77]), entry_name(table[78]), 3));
    assert(precedes_at(entry_name(table[78]), entry_name(table[79]), 2));
    assert(precedes_at(entry_name(table[79]), entry_name(table[80]), 3));
}

/// The names of `ENTITIES_LOWER_L` from entry 80 up to entry 88.
proof fn lemma_names_lower_l_from_80()
    ensures
        names_in_order(ENTITIES_LOWER_L@, 'l' as u8, 80, 88),
{
    broadcast use is_ascii_spec_bytes;

    reveal(precedes);
    let table = ENTITIES_LOWER_L@;
    reveal_strlit("&lgE;");
    assert(is_ascii("&lgE;"));
    reveal_strlit("&lhard;");
    assert(is_ascii("&lhard;"));
    reveal_strlit("&lharu;");
    assert(is_ascii("&lharu;"));
    reveal_strlit("&lharul;");
    assert(is_ascii("&lharul;"));
    reveal_strlit("&lhblk;");
    assert(is_ascii("&lhblk;"));
    reveal_strlit("&ljcy;");
    assert(is_ascii("&ljcy;"));
    reveal_strlit("&ll;");
    assert(is_ascii("&ll;"));
    reveal_strlit("&llarr;");
    assert(is_ascii("&llarr;"));
    reveal_strlit("&llcorner;");
    assert(is_ascii("&llcorner;"));
    assert(precedes_at(entry_name(table[80]), entry_name(table[81]), 2));
    assert(precedes_at(entry_name(table[81]), entry_name(table[82]), 5));
    assert(precedes_at(entry_name(table[82]), entry_name(table[83]), 6));
    assert(precedes_at(entry_name(table[83]), entry_name(table[84]), 3));
    assert(precedes_at(entry_name(table[84]), entry_name(table[85]), 2));
    assert(precedes_at(entry_name(table[85]), entry_name(table[86]), 2));
    assert(precedes_at(entry_name(table[86]), entry_name(table[87]), 3));
    assert(precedes_at(entry_name(table[87]), entry_name(table[88]), 3));
}

/// The names of `ENTITIES_LOWER_L` from entry 88 up to entry 96.
proof fn lemma_names_lower_l_from_88()
    ensures
        names_in_order(ENTITIES_LOWER_L@, 'l' as u8, 88, 96),
{
    broadcast use is_ascii_spec_bytes;

    reveal(precedes);
    let table = ENTITIES_LOWER_L@;
    reveal_strlit("&llcorner;");
    assert(is_ascii("&llcorner;"));
    reveal_strlit("&llhard;");
    assert(is_ascii("&llhard;"));
    reveal_strlit("&lltri;");
    assert(is_ascii("&lltri;"));
    reveal_strlit("&lmidot;");
    assert(is_ascii("&lmidot;"));
    reveal_strlit("&lmoust;");
    assert(is_ascii("&lmoust;"));
    reveal_strlit("&lmoustache;");
    assert(is_ascii("&lmoustache;"));
    reveal_strlit("&lnE;");
    assert(is_ascii("&lnE;"));
    reveal_strlit("&lnap;");
    assert(is_ascii("&lnap;"));
    reveal_strlit("&lnapprox;");
    assert(is_ascii("&lnapprox;"));
    assert(precedes_at(entry_name(table[88]), entry_name(table[89]), 3));
    assert(precedes_at(entry_name(table[89]), entry_name(table[90]), 3));
    assert(precedes_at(entry_name(table[90]), entry_name(table[91]), 2));
    assert(precedes_at(entry_name(table[91]), entry_name(table[92]), 3));
    assert(precedes_at(entry_name(table[92]), entry_name(table[93]), 7));
    assert(precedes_at(entry_name(table[93]), entry_name(table[94]), 2));
    assert(precedes_at(entry_name(table[94]), entry_name(table[95]), 3));
    assert(precedes_at(entry_name(table[95]), entry_name(table[96]), 5));
}

/// The names of `ENTITIES_LOWER_L` from entry 96 up to entry 104.
proof fn lemma_names_lower_l_from_96()
    ensures
        names_in_order(ENTITIES_LOWER_L@, 'l' as u8, 96, 104),
{
    broadcast use is_ascii_spec_bytes;

    reveal(precedes);
    let table = ENTITIES_LOWER_L@;
    reveal_strlit("&lnapprox;");
    assert(is_ascii("&lnapprox;"));
    reveal_strlit("&lne;");
    assert(is_ascii("&lne;"));
    reveal_strlit("&lneq;");
    assert(is_ascii("&lneq;"));
    reveal_strlit("&lneqq;");
    assert(is_ascii("&lneqq;"));
    reveal_strlit("&lnsim;");
    assert(is_ascii("&lnsim;"));
    reveal_strlit("&loang;");
    assert(is_ascii("&loang;"));
    reveal_strlit("&loarr;");
    assert(is_ascii("&loarr;"));
    reveal_strlit("&lobrk;");
    assert(is_ascii("&lobrk;"));
    reveal_strlit("&longleftarrow;");
    assert(is_ascii("&longleftarrow;"));
    assert(precedes_at(entry_name(table[96]), entry_name(table[97]), 3));
    assert(precedes_at(entry_name(table[97]), entry_name(table[98]), 4));
    assert(precedes_at(entry_name(table[98]), entry_name(table[99]), 5));
    assert(precedes_at(entry_name(table[99]), entry_name(table[100]), 3));
    assert(precedes_at(entry_name(table[100]), entry_name(table[101]), 2));
    assert(precedes_at(entry_name(table[101]), entry_name(table[102]), 4));
    assert(precedes_at(entry_name(table[102]), entry_name(table[103]), 3));
    assert(precedes_at(entry_name(table[103]), entry_name(table[104]), 3));
}

/// The names of `ENTITIES_LOWER_L` from entry 104 up to entry 112.
proof fn lemma_names_lower_l_from_104()
    ensures
        names_in_order(ENTITIES_LOWER_L@, 'l' as u8, 104, 112),
{
    broadcast use is_ascii_spec_bytes;

    reveal(precedes);
    let table = ENTITIES_LOWER_L@;
    reveal_strlit("&longleftarrow;");
    assert(is_ascii("&longleftarrow;"));
    reveal_strlit("&longleftrightarrow;");
    assert(is_ascii("&longleftrightarrow;"));
    reveal_strlit("&longmapsto;");
    assert(is_ascii("&longmapsto;"));
    reveal_strlit("&longrightarrow;");
    assert(is_ascii("&longrightarrow;"));
    reveal_strlit("&looparrowleft;");
    assert(is_ascii("&looparrowleft;"));
    reveal_strlit("&looparrowright;");
    assert(is_ascii("&looparrowright;"));
    reveal_strlit("&lopar;");
    assert(is_ascii("&lopar;"));
    reveal_strlit("&lopf;");
    assert(is_ascii("&lopf;"));
    reveal_strlit("&loplus;");
    assert(is_ascii("&loplus;"));
    assert(precedes_at(entry_name(table[104]), entry_name(table[105]), 9));
    assert(precedes_at(entry_name(table[105]), entry_name(table[106]), 5));
    assert(precedes_at(entry_name(table[106]), entry_name(table[107]), 5));
    assert(precedes_at(entry_name(table[107]), entry_name(table[108]), 3));
    assert(precedes_at(entry_name(table[108]), entry_name(table[109]), 10));
    assert(precedes_at(entry_name(table[109]), entry_name(table[110]), 3));
    assert(precedes_at(entry_name(table[110]), entry_name(table[111]), 4));
    assert(precedes_at(entry_name(table[111]), entry_name(table[112]), 4));
}

/// The names of `ENTITIES_LOWER_L` from entry 112 up to entry 120.
proof fn lemma_names_lower_l_from_112()
    ensures
        names_in_order(ENTITIES_LOWER_L@, 'l' as u8, 112, 120),
{
    broadcast use is_ascii_spec_bytes;

    reveal(precedes);
    let table = ENTITIES_LOWER_L@;
    reveal_strlit("&loplus;");
    assert(is_ascii("&loplus;"));
    reveal_strlit("&lotimes;");
    assert(is_ascii("&lotimes;"));
    reveal_strlit("&lowast;");
    assert(is_ascii("&lowast;"));
    reveal_strlit("&lowbar;");
    assert(is_ascii("&lowbar;"));
    reveal_strlit("&loz;");
    assert(is_ascii("&loz;"));
    reveal_strlit("&lozenge;");
    assert(is_ascii("&lozenge;"));
    reveal_strlit("&lozf;");
    assert(is_ascii("&lozf;"));
    reveal_strlit("&lpar;");
    assert(is_ascii("&lpar;"));
    reveal_strlit("&lparlt;");
    assert(is_ascii("&lparlt;"));
    assert(precedes_at(entry_name(table[112]), entry_name(table[113]), 3));
    assert(precedes_at(entry_name(table[113]), entry_name(table[114]), 3));
    assert(precedes_at(entry_name(table[114]), entry_name(table[115]), 4));
    assert(precedes_at(entry_name(table[115]), entry_name(table[116]), 3));
    assert(precedes_at(entry_name(table[116]), entry_name(table[117]), 4));
    assert(precedes_at(entry_name(table[117]), entry_name(table[118]), 4));
    assert(precedes_at(entry_name(table[118]), entry_name(table[119]), 2));
    assert(precedes_at(entry_name(table[119]), entry_name(table[120]), 5));
}

/// The names of `ENTITIES_LOWER_L` from entry 120 up to entry 128.
proof fn lemma_names_lower_l_from_120()
    ensures
        names_in_order(ENTITIES_LOWER_L@, 'l' as u8, 120, 128),
{
    broadcast use is_ascii_spec_bytes;

    reveal(precedes);
    let table = ENTITIES_LOWER_L@;
    reveal_strlit("&lparlt;");
    assert(is_ascii("&lparlt;"));
    reveal_strlit("&lrarr;");
    assert(is_ascii("&lrarr;"));
    reveal_strlit("&lrcorner;");
    assert(is_ascii("&lrcorner;"));
    reveal_strlit("&lrhar;");
    assert(is_ascii("&lrhar;"));
    reveal_strlit("&lrhard;");
    assert(is_ascii("&lrhard;"));
    reveal_strlit("&lrm;");
    assert(is_ascii("&lrm;"));
    reveal_strlit("&lrtri;");
    assert(is_ascii("&lrtri;"));
    reveal_strlit("&lsaquo;");
    assert(is_ascii("&lsaquo;"));
    reveal_strlit("&lscr;");
    assert(is_ascii("&lscr;"));
    assert(precedes_at(entry_name(table[120]), entry_name(table[121]), 2));
    assert(precedes_at(entry_name(table[121]), entry_name(table[122]), 3));
    assert(precedes_at(entry_name(table[122]), entry_name(table[123]), 3));
    assert(precedes_at(entry_name(table[123]), entry_name(table[124]), 6));
    assert(precedes_at(entry_name(table[124]), entry_name(table[125]), 3));
    assert(precedes_at(entry_name(table[125]), entry_name(table[126]), 3));
    assert(precedes_at(entry_name(table[126]), entry_name(table[127]), 2));
    assert(precedes_at(entry_name(table[127]), entry_name(table[128]), 3));
}

/// The names of `ENTITIES_LOWER_L` from entry 128 up to entry 136.
proof fn lemma_names_lower_l_from_128()
    ensures
        names_in_order(ENTITIES_LOWER_L@, 'l' as u8, 128, 136),
{
    broadcast use is_ascii_spec_bytes;

    reveal(precedes);
    let table = ENTITIES_LOWER_L@;
    reveal_strlit("&lscr;");
    assert(is_ascii("&lscr;"));
    reveal_strlit("&lsh;");
    assert(is_ascii("&lsh;"));
    reveal_strlit("&lsim;");
    assert(is_ascii("&lsim;"));
    reveal_strlit("&lsime;");
    assert(is_ascii("&lsime;"));
    reveal_strlit("&lsimg;");
    assert(is_ascii("&lsimg;"));
    reveal_strlit("&lsqb;");
    assert(is_ascii("&lsqb;"));
    reveal_strlit("&lsquo;");
    assert(is_ascii("&lsquo;"));
    reveal_strlit("&lsquor;");
    assert(is_ascii("&lsquor;"));
    reveal_strlit("&lstrok;");
    assert(is_ascii("&lstrok;"));
    assert(precedes_at(entry_name(table[128]), entry_name(table[129]), 3));
    assert(precedes_at(entry_name(table[129]), entry_name(table[130]), 3));
    assert(precedes_at(entry_name(table[130]), entry_name(table[131]), 5));
    assert(precedes_at(entry_name(table[131]), entry_name(table[132]), 5));
    assert(precedes_at(entry_name(table[132]), entry_name(table[133]), 3));
    assert(precedes_at(entry_name(table[133]), entry_name(table[134]), 4));
    assert(precedes_at(entry_name(table[134]), entry_name(table[135]), 6));
    assert(precedes_at(entry_name(table[135]), entry_name(table[136]), 3));
}

/// The names of `ENTITIES_LOWER_L` from entry 136 up to entry 144.
proof fn lemma_names_lower_l_from_136()
    ensures
        names_in_order(ENTITIES_LOWER_L@, 'l' as u8, 136, 144),
{
    broadcast use is_ascii_spec_bytes;

    reveal(precedes);
    let table = ENTITIES_LOWER_L@;
    reveal_strlit("&lstrok;");
    assert(is_ascii("&lstrok;"));
    reveal_strlit("&lt");
    assert(is_ascii("&lt"));
    reveal_strlit("&lt;");
    assert(is_ascii("&lt;"));
    reveal_strlit("&ltcc;");
    assert(is_ascii("&ltcc;"));
    reveal_strlit("&ltcir;");
    assert(is_ascii("&ltcir;"));
    reveal_strlit("&ltdot;");
    assert(is_ascii("&ltdot;"));
    reveal_strlit("&lthree;");
    assert(is_ascii("&lthree;"));
    reveal_strlit("&ltimes;");
    assert(is_ascii("&ltimes;"));
    reveal_strlit("&ltlarr;");
    assert(is_ascii("&ltlarr;"));
    assert(precedes_at(entry_name(table[136]), entry_name(table[137]), 2));
    assert(precedes_at(entry_name(table[137]), entry_name(table[138]), 3));
    assert(precedes_at(entry_name(table[138]), entry_name(table[139]), 3));
    assert(precedes_at(entry_name(table[139]), entry_name(table[140]), 4));
    assert(precedes_at(entry_name(table[140]), entry_name(table[141]), 3));
    assert(precedes_at(entry_name(table[141]), entry_name(table[142]), 3));
    assert(precedes_at(entry_name(table[142]), entry_name(table[143]), 3));
    assert(precedes_at(entry_name(table[143]), entry_name(table[144]), 3));
}

/// The names of `ENTITIES_LOWER_L` from entry 144 up to entry 152.
proof fn lemma_names_lower_l_from_144()
    ensures
        names_in_order(ENTITIES_LOWER_L@, 'l' as u8, 144, 152),
{
    broadcast use is_ascii_spec_bytes;

    reveal(precedes);
    let table = ENTITIES_LOWER_L@;
    reveal_strlit("&ltlarr;");
    assert(is_ascii("&ltlarr;"));
    reveal_strlit("&ltquest;");
    assert(is_ascii("&ltquest;"));
    reveal_strlit("&ltrPar;");
    assert(is_ascii("&ltrPar;"));
    reveal_strlit("&ltri;");
    assert(is_ascii("&ltri;"));
    reveal_strlit("&ltrie;");
    assert(is_ascii("&ltrie;"));
    reveal_strlit("&ltrif;");
    assert(is_ascii("&ltrif;"));
    reveal_strlit("&lurdshar;");
    assert(is_ascii("&lurdshar;"));
    reveal_strlit("&luruhar;");
    assert(is_ascii("&luruhar;"));
    reveal_strlit("&lvertneqq;");
    assert(is_ascii("&lvertneqq;"));
    assert(precedes_at(entry_name(table[144]), entry_name(table[145]), 3));
    assert(precedes_at(entry_name(table[145]), entry_name(table[146]), 3));
    assert(precedes_at(entry_name(table[146]), entry_name(table[147]), 4));
    assert(precedes_at(entry_name(table[147]), entry_name(table[148]), 5));
    assert(precedes_at(entry_name(table[148]), entry_name(table[149]), 5));
    assert(precedes_at(entry_name(table[149]), entry_name(table[150]), 2));
    assert(precedes_at(entry_name(table[150]), entry_name(table[151]), 4));
    assert(precedes_at(entry_name(table[151]), entry_name(table[152]), 2));
}

/// The names of `ENTITIES_LOWER_L` from entry 152 up to entry 154.
proof fn lemma_names_lower_l_from_152()
    ensures
        names_in_order(ENTITIES_LOWER_L@, 'l' as u8, 152, 154),
{
    broadcast use is_ascii_spec_bytes;

    reveal(precedes);
    let table = ENTITIES_LOWER_L@;
    reveal_strlit("&lvertneqq;");
    assert(is_ascii("&lvertneqq;"));
    reveal_strlit("&lvnE;");
    assert(is_ascii("&lvnE;"));
    assert(precedes_at(entry_name(table[152]), entry_name(table[153]), 3));
}

/// Every name in `ENTITIES_LOWER_L` starts with `&l` and has 3 to 33 bytes, and
/// each name comes before the next in the order of byte strings.
pub proof fn lemma_names_lower_l()
    ensures
        names_start_with(ENTITIES_LOWER_L@, 'l' as u8),
        names_ascend(ENTITIES_LOWER_L@),
{
    lemma_names_lower_l_from_0();
    lemma_names_lower_l_from_8();
    lemma_names_lower_l_from_16();
    lemma_names_lower_l_from_24();
    lemma_names_lower_l_from_32();
    lemma_names_lower_l_from_40();
    lemma_names_lower_l_from_48();
    lemma_names_lower_l_from_56();
    lemma_names_lower_l_from_64();
    lemma_names_lower_l_from_72();
    lemma_names_lower_l_from_80();
    lemma_names_lower_l_from_88();
    lemma_names_lower_l_from_96();
    lemma_names_lower_l_from_104();
    lemma_names_lower_l_from_112();
    lemma_names_lower_l_from_120();
    lemma_names_lower_l_from_128();
    lemma_names_lower_l_from_136();
    lemma_names_lower_l_from_144();
    lemma_names_lower_l_from_152();
}

} // verus!
