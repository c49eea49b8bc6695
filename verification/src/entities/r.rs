//! The named character references that start with `R` or `r`.

use crate::entities::{names_in_order, names_start_with};
use crate::search::{entry_name, names_ascend, precedes, precedes_at, Entry};
use vstd::prelude::*;
use vstd::string::{is_ascii, is_ascii_spec_bytes};

verus! {

/// The named character references that start with `&R`, each with its
/// expansion, in the order of byte strings.
pub const ENTITIES_UPPER_R: [Entry; 45] = [
    ("&RBarr;", "\u{2910}"),
    ("&REG", "\u{ae}"),
    ("&REG;", "\u{ae}"),
    ("&Racute;", "\u{154}"),
    ("&Rang;", "\u{27eb}"),
    ("&Rarr;", "\u{21a0}"),
    ("&Rarrtl;", "\u{2916}"),
    ("&Rcaron;", "\u{158}"),
    ("&Rcedil;", "\u{156}"),
    ("&Rcy;", "\u{420}"),
    ("&Re;", "\u{211c}"),
    ("&ReverseElement;", "\u{220b}"),
    ("&ReverseEquilibrium;", "\u{21cb}"),
    ("&ReverseUpEquilibrium;", "\u{296f}"),
    ("&Rfr;", "\u{211c}"),
    ("&Rho;", "\u{3a1}"),
    ("&RightAngleBracket;", "\u{27e9}"),
    ("&RightArrow;", "\u{2192}"),
    ("&RightArrowBar;", "\u{21e5}"),
    ("&RightArrowLeftArrow;", "\u{21c4}"),
    ("&RightCeiling;", "\u{2309}"),
    ("&RightDoubleBracket;", "\u{27e7}"),
    ("&RightDownTeeVector;", "\u{295d}"),
    ("&RightDownVector;", "\u{21c2}"),
    ("&RightDownVectorBar;", "\u{2955}"),
    ("&RightFloor;", "\u{230b}"),
    ("&RightTee;", "\u{22a2}"),
    ("&RightTeeArrow;", "\u{21a6}"),
    ("&RightTeeVector;", "\u{295b}"),
    ("&RightTriangle;", "\u{22b3}"),
    ("&RightTriangleBar;", "\u{29d0}"),
    ("&RightTriangleEqual;", "\u{22b5}"),
    ("&RightUpDownVector;", "\u{294f}"),
    ("&RightUpTeeVector;", "\u{295c}"),
    ("&RightUpVector;", "\u{21be}"),
    ("&RightUpVectorBar;", "\u{2954}"),
    ("&RightVector;", "\u{21c0}"),
    ("&RightVectorBar;", "\u{2953}"),
    ("&Rightarrow;", "\u{21d2}"),
    ("&Ropf;", "\u{211d}"),
    ("&RoundImplies;", "\u{2970}"),
    ("&Rrightarrow;", "\u{21db}"),
    ("&Rscr;", "\u{211b}"),
    ("&Rsh;", "\u{21b1}"),
    ("&RuleDelayed;", "\u{29f4}"),
];

/// The named character references that start with `&r`, each with its
/// expansion, in the order of byte strings.
pub const ENTITIES_LOWER_R: [Entry; 104] = [
    ("&rAarr;", "\u{21db}"),
    ("&rArr;", "\u{21d2}"),
    ("&rAtail;", "\u{291c}"),
    ("&rBarr;", "\u{290f}"),
    ("&rHar;", "\u{2964}"),
    ("&race;", "\u{223d}\u{331}"),
    ("&racute;", "\u{155}"),
    ("&radic;", "\u{221a}"),
    ("&raemptyv;", "\u{29b3}"),
    ("&rang;", "\u{27e9}"),
    ("&rangd;", "\u{2992}"),
    ("&range;", "\u{29a5}"),
    ("&rangle;", "\u{27e9}"),
    ("&raquo", "\u{bb}"),
    ("&raquo;", "\u{bb}"),
    ("&rarr;", "\u{2192}"),
    ("&rarrap;", "\u{2975}"),
    ("&rarrb;", "\u{21e5}"),
    ("&rarrbfs;", "\u{2920}"),
    ("&rarrc;", "\u{2933}"),
    ("&rarrfs;", "\u{291e}"),
    ("&rarrhk;", "\u{21aa}"),
    ("&rarrlp;", "\u{21ac}"),
    ("&rarrpl;", "\u{2945}"),
    ("&rarrsim;", "\u{2974}"),
    ("&rarrtl;", "\u{21a3}"),
    ("&rarrw;", "\u{219d}"),
    ("&ratail;", "\u{291a}"),
    ("&ratio;", "\u{2236}"),
    ("&rationals;", "\u{211a}"),
    ("&rbarr;", "\u{290d}"),
    ("&rbbrk;", "\u{2773}"),
    ("&rbrace;", "}"),
    ("&rbrack;", "]"),
    ("&rbrke;", "\u{298c}"),
    ("&rbrksld;", "\u{298e}"),
    ("&rbrkslu;", "\u{2990}"),
    ("&rcaron;", "\u{159}"),
    ("&rcedil;", "\u{157}"),
    ("&rceil;", "\u{2309}"),
    ("&rcub;", "}"),
    ("&rcy;", "\u{440}"),
    ("&rdca;", "\u{2937}"),
    ("&rdldhar;", "\u{2969}"),
    ("&rdquo;", "\u{201d}"),
    ("&rdquor;", "\u{201d}"),
    ("&rdsh;", "\u{21b3}"),
    ("&real;", "\u{211c}"),
    ("&realine;", "\u{211b}"),
    ("&realpart;", "\u{211c}"),
    ("&reals;", "\u{211d}"),
    ("&rect;", "\u{25ad}"),
    ("&reg", "\u{ae}"),
    ("&reg;", "\u{ae}"),
    ("&rfisht;", "\u{297d}"),
    ("&rfloor;", "\u{230b}"),
    ("&rfr;", "\u{1d52f}"),
    ("&rhard;", "\u{21c1}"),
    ("&rharu;", "\u{21c0}"),
    ("&rharul;", "\u{296c}"),
    ("&rho;", "\u{3c1}"),
    ("&rhov;", "\u{3f1}"),
    ("&rightarrow;", "\u{2192}"),
    ("&rightarrowtail;", "\u{21a3}"),
    ("&rightharpoondown;", "\u{21c1}"),
    ("&rightharpoonup;", "\u{21c0}"),
    ("&rightleftarrows;", "\u{21c4}"),
    ("&rightleftharpoons;", "\u{21cc}"),
    ("&rightrightarrows;", "\u{21c9}"),
    ("&rightsquigarrow;", "\u{219d}"),
    ("&rightthreetimes;", "\u{22cc}"),
    ("&ring;", "\u{2da}"),
    ("&risingdotseq;", "\u{2253}"),
    ("&rlarr;", "\u{21c4}"),
    ("&rlhar;", "\u{21cc}"),
    ("&rlm;", "\u{200f}"),
    ("&rmoust;", "\u{23b1}"),
    ("&rmoustache;", "\u{23b1}"),
    ("&rnmid;", "\u{2aee}"),
    ("&roang;", "\u{27ed}"),
    ("&roarr;", "\u{21fe}"),
    ("&robrk;", "\u{27e7}"),
    ("&ropar;", "\u{2986}"),
    ("&ropf;", "\u{1d563}"),
    ("&roplus;", "\u{2a2e}"),
    ("&rotimes;", "\u{2a35}"),
    ("&rpar;", ")"),
    ("&rpargt;", "\u{2994}"),
    ("&rppolint;", "\u{2a12}"),
    ("&rrarr;", "\u{21c9}"),
    ("&rsaquo;", "\u{203a}"),
    ("&rscr;", "\u{1d4c7}"),
    ("&rsh;", "\u{21b1}"),
    ("&rsqb;", "]"),
    ("&rsquo;", "\u{2019}"),
    ("&rsquor;", "\u{2019}"),
    ("&rthree;", "\u{22cc}"),
    ("&rtimes;", "\u{22ca}"),
    ("&rtri;", "\u{25b9}"),
    ("&rtrie;", "\u{22b5}"),
    ("&rtrif;", "\u{25b8}"),
    ("&rtriltri;", "\u{29ce}"),
    ("&ruluhar;", "\u{2968}"),
    ("&rx;", "\u{211e}"),
];

/// The names of `ENTITIES_UPPER_R` from entry 0 up to entry 8.
proof fn lemma_names_upper_r_from_0()
    ensures
        names_in_order(ENTITIES_UPPER_R@, 'R' as u8, 0, 8),
{
    broadcast use is_ascii_spec_bytes;

    reveal(precedes);
    let table = ENTITIES_UPPER_R@;
    reveal_strlit("&RBarr;");
    assert(is_ascii("&RBarr;"));
    reveal_strlit("&REG");
    assert(is_ascii("&REG"));
    reveal_strlit("&REG;");
    assert(is_ascii("&REG;"));
    reveal_strlit("&Racute;");
    assert(is_ascii("&Racute;"));
    reveal_strlit("&Rang;");
    assert(is_ascii("&Rang;"));
    reveal_strlit("&Rarr;");
    assert(is_ascii("&Rarr;"));
    reveal_strlit("&Rarrtl;");
    assert(is_ascii("&Rarrtl;"));
    reveal_strlit("&Rcaron;");
    assert(is_ascii("&Rcaron;"));
    reveal_strlit("&Rcedil;");
    assert(is_ascii("&Rcedil;"));
    assert(precedes_at(entry_name(table[0]), entry_name(table[1]), 2));
    assert(precedes_at(entry_name(table[1]), entry_name(table[2]), 4));
    assert(precedes_at(entry_name(table[2]), entry_name(table[3]), 2));
    assert(precedes_at(entry_name(table[3]), entry_name(table[4]), 3));
    assert(precedes_at(entry_name(table[4]), entry_name(table[5]), 3));
    assert(precedes_at(entry_name(table[5]), entry_name(table[6]), 5));
    assert(precedes_at(entry_name(table[6]), entry_name(table[7]), 2));
    assert(precedes_at(entry_name(table[7]), entry_name(table[8]), 3));
}

/// The names of `ENTITIES_UPPER_R` from entry 8 up to entry 16.
proof fn lemma_names_upper_r_from_8()
    ensures
        names_in_order(ENTITIES_UPPER_R@, 'R' as u8, 8, 16),
{
    broadcast use is_ascii_spec_bytes;

    reveal(precedes);
    let table = ENTITIES_UPPER_R@;
    reveal_strlit("&Rcedil;");
    assert(is_ascii("&Rcedil;"));
    reveal_strlit("&Rcy;");
    assert(is_ascii("&Rcy;"));
    reveal_strlit("&Re;");
    assert(is_ascii("&Re;"));
    reveal_strlit("&ReverseElement;");
    assert(is_ascii("&ReverseElement;"));
    reveal_strlit("&ReverseEquilibrium;");
    assert(is_ascii("&ReverseEquilibrium;"));
    reveal_strlit("&ReverseUpEquilibrium;");
    assert(is_ascii("&ReverseUpEquilibrium;"));
    reveal_strlit("&Rfr;");
    assert(is_ascii("&Rfr;"));
    reveal_strlit("&Rho;");
    assert(is_ascii("&Rho;"));
    reveal_strlit("&RightAngleBracket;");
    assert(is_ascii("&RightAngleBracket;"));
    assert(precedes_at(entry_name(table[8]), entry_name(table[9]), 3));
    assert(precedes_at(entry_name(table[9]), entry_name(table[10]), 2));
    assert(precedes_at(entry_name(table[10]), entry_name(table[11]), 3));
    assert(precedes_at(entry_name(table[11]), entry_name(table[12]), 9));
    assert(precedes_at(entry_name(table[12]), entry_name(table[13]), 8));
    assert(precedes_at(entry_name(table[13]), entry_name(table[14]), 2));
    assert(precedes_at(entry_name(table[14]), entry_name(table[15]), 2));
    assert(precedes_at(entry_name(table[15]), entry_name(table[16]), 2));
}

/// The names of `ENTITIES_UPPER_R` from entry 16 up to entry 24.
proof fn lemma_names_upper_r_from_16()
    ensures
        names_in_order(ENTITIES_UPPER_R@, 'R' as u8, 16, 24),
{
    broadcast use is_ascii_spec_bytes;

    reveal(precedes);
    let table = ENTITIES_UPPER_R@;
    reveal_strlit("&RightAngleBracket;");
    assert(is_ascii("&RightAngleBracket;"));
    reveal_strlit("&RightArrow;");
    assert(is_ascii("&RightArrow;"));
    reveal_strlit("&RightArrowBar;");
    assert(is_ascii("&RightArrowBar;"));
    reveal_strlit("&RightArrowLeftArrow;");
    assert(is_ascii("&RightArrowLeftArrow;"));
    reveal_strlit("&RightCeiling;");
    assert(is_ascii("&RightCeiling;"));
    reveal_strlit("&RightDoubleBracket;");
    assert(is_ascii("&RightDoubleBracket;"));
    reveal_strlit("&RightDownTeeVector;");
    assert(is_ascii("&RightDownTeeVector;"));
    reveal_strlit("&RightDownVector;");
    assert(is_ascii("&RightDownVector;"));
    reveal_strlit("&RightDownVectorBar;");
    assert(is_ascii("&RightDownVectorBar;"));
    assert(precedes_at(entry_name(table[16]), entry_name(table[17]), 7));
    assert(precedes_at(entry_name(table[17]), entry_name(table[18]), 11));
    assert(precedes_at(entry_name(table[18]), entry_name(table[19]), 11));
    assert(precedes_at(entry_name(table[19]), entry_name(table[20]), 6));
    assert(precedes_at(entry_name(table[20]), entry_name(table[21]), 6));
    assert(precedes_at(entry_name(table[21]), entry_name(table[22]), 8));
    assert(precedes_at(entry_name(table[22]), entry_name(table[23]), 10));
    assert(precedes_at(entry_name(table[23]), entry_name(table[24]), 16));
}

/// The names of `ENTITIES_UPPER_R` from entry 24 up to entry 32.
proof fn lemma_names_upper_r_from_24()
    ensures
        names_in_order(ENTITIES_UPPER_R@, 'R' as u8, 24, 32),
{
    broadcast use is_ascii_spec_bytes;

    reveal(precedes);
    let table = ENTITIES_UPPER_R@;
    reveal_strlit("&RightDownVectorBar;");
    assert(is_ascii("&RightDownVectorBar;"));
    reveal_strlit("&RightFloor;");
    assert(is_ascii("&RightFloor;"));
    reveal_strlit("&RightTee;");
    assert(is_ascii("&RightTee;"));
    reveal_strlit("&RightTeeArrow;");
    assert(is_ascii("&RightTeeArrow;"));
    reveal_strlit("&RightTeeVector;");
    assert(is_ascii("&RightTeeVector;"));
    reveal_strlit("&RightTriangle;");
    assert(is_ascii("&RightTriangle;"));
    reveal_strlit("&RightTriangleBar;");
    assert(is_ascii("&RightTriangleBar;"));
    reveal_strlit("&RightTriangleEqual;");
    assert(is_ascii("&RightTriangleEqual;"));
    reveal_strlit("&RightUpDownVector;");
    assert(is_ascii("&RightUpDownVector;"));
    assert(precedes_at(entry_name(table[24]), entry_name(table[25]), 6));
    assert(precedes_at(entry_name(table[25]), entry_name(table[26]), 6));
    assert(precedes_at(entry_name(table[26]), entry_name(table[27]), 9));
    assert(precedes_at(entry_name(table[27]), entry_name(table[28]), 9));
    assert(precedes_at(entry_name(table[28]), entry_name(table[29]), 7));
    assert(precedes_at(entry_name(table[29]), entry_name(table[30]), 14));
    assert(precedes_at(entry_name(table[30]), entry_name(table[31]), 14));
    assert(precedes_at(entry_name(table[31]), entry_name(table[32]), 6));
}

/// The names of `ENTITIES_UPPER_R` from entry 32 up to entry 40.
proof fn lemma_names_upper_r_from_32()
    ensures
        names_in_order(ENTITIES_UPPER_R@, 'R' as u8, 32, 40),
{
    broadcast use is_ascii_spec_bytes;

    reveal(precedes);
    let table = ENTITIES_UPPER_R@;
    reveal_strlit("&RightUpDownVector;");
    assert(is_ascii("&RightUpDownVector;"));
    reveal_strlit("&RightUpTeeVector;");
    assert(is_ascii("&RightUpTeeVector;"));
    reveal_strlit("&RightUpVector;");
    assert(is_ascii("&RightUpVector;"));
    reveal_strlit("&RightUpVectorBar;");
    assert(is_ascii("&RightUpVectorBar;"));
    reveal_strlit("&RightVector;");
    assert(is_ascii("&RightVector;"));
    reveal_strlit("&RightVectorBar;");
    assert(is_ascii("&RightVectorBar;"));
    reveal_strlit("&Rightarrow;");
    assert(is_ascii("&Rightarrow;"));
    reveal_strlit("&Ropf;");
    assert(is_ascii("&Ropf;"));
    reveal_strlit("&RoundImplies;");
    assert(is_ascii("&RoundImplies;"));
    assert(precedes_at(entry_name(table[32]), entry_name(table[33]), 8));
    assert(precedes_at(entry_name(table[33]), entry_name(table[34]), 8));
    assert(precedes_at(entry_name(table[34]), entry_name(table[35]), 14));
    assert(precedes_at(entry_name(table[35]), entry_name(table[36]), 6));
    assert(precedes_at(entry_name(table[36]), entry_name(table[37]), 12));
    assert(precedes_at(entry_name(table[37]), entry_name(table[38]), 6));
    assert(precedes_at(entry_name(table[38]), entry_name(table[39]), 2));
    assert(precedes_at(entry_name(table[39]), entry_name(table[40]), 3));
}

/// The names of `ENTITIES_UPPER_R` from entry 40 up to entry 45.
proof fn lemma_names_upper_r_from_40()
    ensures
        names_in_order(ENTITIES_UPPER_R@, 'R' as u8, 40, 45),
{
    broadcast use is_ascii_spec_bytes;

    reveal(precedes);
    let table = ENTITIES_UPPER_R@;
    reveal_strlit("&RoundImplies;");
    assert(is_ascii("&RoundImplies;"));
    reveal_strlit("&Rrightarrow;");
    assert(is_ascii("&Rrightarrow;"));
    reveal_strlit("&Rscr;");
    assert(is_ascii("&Rscr;"));
    reveal_strlit("&Rsh;");
    assert(is_ascii("&Rsh;"));
    reveal_strlit("&RuleDelayed;");
    assert(is_ascii("&RuleDelayed;"));
    assert(precedes_at(entry_name(table[40]), entry_name(table[41]), 2));
    assert(precedes_at(entry_name(table[41]), entry_name(table[42]), 2));
    assert(precedes_at(entry_name(table[42]), entry_name(table[43]), 3));
    assert(precedes_at(entry_name(table[43]), entry_name(table[44]), 2));
}

/// Every name in `ENTITIES_UPPER_R` starts with `&R` and has 3 to 33 bytes, and
/// each name comes before the next in the order of byte strings.
pub proof fn lemma_names_upper_r()
    ensures
        names_start_with(ENTITIES_UPPER_R@, 'R' as u8),
        names_ascend(ENTITIES_UPPER_R@),
{
    lemma_names_upper_r_from_0();
    lemma_names_upper_r_from_8();
    lemma_names_upper_r_from_16();
    lemma_names_upper_r_from_24();
    lemma_names_upper_r_from_32();
    lemma_names_upper_r_from_40();
}

/// The names of `ENTITIES_LOWER_R` from entry 0 up to entry 8.
proof fn lemma_names_lower_r_from_0()
    ensures
        names_in_order(ENTITIES_LOWER_R@, 'r' as u8, 0, 8),
{
    broadcast use is_ascii_spec_bytes;

    reveal(precedes);
    let table = ENTITIES_LOWER_R@;
    reveal_strlit("&rAarr;");
    assert(is_ascii("&rAarr;"));
    reveal_strlit("&rArr;");
    assert(is_ascii("&rArr;"));
    reveal_strlit("&rAtail;");
    assert(is_ascii("&rAtail;"));
    reveal_strlit("&rBarr;");
    assert(is_ascii("&rBarr;"));
    reveal_strlit("&rHar;");
    assert(is_ascii("&rHar;"));
    reveal_strlit("&race;");
    assert(is_ascii("&race;"));
    reveal_strlit("&racute;");
    assert(is_ascii("&racute;"));
    reveal_strlit("&radic;");
    assert(is_ascii("&radic;"));
    reveal_strlit("&raemptyv;");
    assert(is_ascii("&raemptyv;"));
    assert(precedes_at(entry_name(table[0]), entry_name(table[1]), 3));
    assert(precedes_at(entry_name(table[1]), entry_name(table[2]), 3));
    assert(precedes_at(entry_name(table[2]), entry_name(table[3]), 2));
    assert(precedes_at(entry_name(table[3]), entry_name(table[4]), 2));
    assert(precedes_at(entry_name(table[4]), entry_name(table[5]), 2));
    assert(precedes_at(entry_name(table[5]), entry_name(table[6]), 4));
    assert(precedes_at(entry_name(table[6]), entry_name(table[7]), 3));
    assert(precedes_at(entry_name(table[7]), entry_name(table[8]), 3));
}

/// The names of `ENTITIES_LOWER_R` from entry 8 up to entry 16.
proof fn lemma_names_lower_r_from_8()
    ensures
        names_in_order(ENTITIES_LOWER_R@, 'r' as u8, 8, 16),
{
    broadcast use is_ascii_spec_bytes;

    reveal(precedes);
    let table = ENTITIES_LOWER_R@;
    reveal_strlit("&raemptyv;");
    assert(is_ascii("&raemptyv;"));
    reveal_strlit("&rang;");
    assert(is_ascii("&rang;"));
    reveal_strlit("&rangd;");
    assert(is_ascii("&rangd;"));
    reveal_strlit("&range;");
    assert(is_ascii("&range;"));
    reveal_strlit("&rangle;");
    assert(is_ascii("&rangle;"));
    reveal_strlit("&raquo");
    assert(is_ascii("&raquo"));
    reveal_strlit("&raquo;");
    assert(is_ascii("&raquo;"));
    reveal_strlit("&rarr;");
    assert(is_ascii("&rarr;"));
    reveal_strlit("&rarrap;");
    assert(is_ascii("&rarrap;"));
    assert(precedes_at(entry_name(table[8]), entry_name(table[9]), 3));
    assert(precedes_at(entry_name(table[9]), entry_name(table[10]), 5));
    assert(precedes_at(entry_name(table[10]), entry_name(table[11]), 5));
    assert(precedes_at(entry_name(table[11]), entry_name(table[12]), 5));
    assert(precedes_at(entry_name(table[12]), entry_name(table[13]), 3));
    assert(precedes_at(entry_name(table[13]), entry_name(table[14]), 6));
    assert(precedes_at(entry_name(table[14]), entry_name(table[15]), 3));
    assert(precedes_at(entry_name(table[15]), entry_name(table[16]), 5));
}

/// The names of `ENTITIES_LOWER_R` from entry 16 up to entry 24.
proof fn lemma_names_lower_r_from_16()
    ensures
        names_in_order(ENTITIES_LOWER_R@, 'r' as u8, 16, 24),
{
    broadcast use is_ascii_spec_bytes;

    reveal(precedes);
    let table = ENTITIES_LOWER_R@;
    reveal_strlit("&rarrap;");
    assert(is_ascii("&rarrap;"));
    reveal_strlit("&rarrb;");
    assert(is_ascii("&rarrb;"));
    reveal_strlit("&rarrbfs;");
    assert(is_ascii("&rarrbfs;"));
    reveal_strlit("&rarrc;");
    assert(is_ascii("&rarrc;"));
    reveal_strlit("&rarrfs;");
    assert(is_ascii("&rarrfs;"));
    reveal_strlit("&rarrhk;");
    assert(is_ascii("&rarrhk;"));
    reveal_strlit("&rarrlp;");
    assert(is_ascii("&rarrlp;"));
    reveal_strlit("&rarrpl;");
    assert(is_ascii("&rarrpl;"));
    reveal_strlit("&rarrsim;");
    assert(is_ascii("&rarrsim;"));
    assert(precedes_at(entry_name(table[16]), entry_name(table[17]), 5));
    assert(precedes_at(entry_name(table[17]), entry_name(table[18]), 6));
    assert(precedes_at(entry_name(table[18]), entry_name(table[19]), 5));
    assert(precedes_at(entry_name(table[19]), entry_name(table[20]), 5));
    assert(precedes_at(entry_name(table[20]), entry_name(table[21]), 5));
    assert(precedes_at(entry_name(table[21]), entry_name(table[22]), 5));
    assert(precedes_at(entry_name(table[22]), entry_name(table[23]), 5));
    assert(precedes_at(entry_name(table[23]), entry_name(table[24]), 5));
}

/// The names of `ENTITIES_LOWER_R` from entry 24 up to entry 32.
proof fn lemma_names_lower_r_from_24()
    ensures
        names_in_order(ENTITIES_LOWER_R@, 'r' as u8, 24, 32),
{
    broadcast use is_ascii_spec_bytes;

    reveal(precedes);
    let table = ENTITIES_LOWER_R@;
    reveal_strlit("&rarrsim;");
    assert(is_ascii("&rarrsim;"));
    reveal_strlit("&rarrtl;");
    assert(is_ascii("&rarrtl;"));
    reveal_strlit("&rarrw;");
    assert(is_ascii("&rarrw;"));
    reveal_strlit("&ratail;");
    assert(is_ascii("&ratail;"));
    reveal_strlit("&ratio;");
    assert(is_ascii("&ratio;"));
    reveal_strlit("&rationals;");
    assert(is_ascii("&rationals;"));
    reveal_strlit("&rbarr;");
    assert(is_ascii("&rbarr;"));
    reveal_strlit("&rbbrk;");
    assert(is_ascii("&rbbrk;"));
    reveal_strlit("&rbrace;");
    assert(is_ascii("&rbrace;"));
    assert(precedes_at(entry_name(table[24]), entry_name(table[25]), 5));
    assert(precedes_at(entry_name(table[25]), entry_name(table[26]), 5));
    assert(precedes_at(entry_name(table[26]), entry_name(table[27]), 3));
    assert(precedes_at(entry_name(table[27]), entry_name(table[28]), 4));
    assert(precedes_at(entry_name(table[28]), entry_name(table[29]), 6));
    assert(precedes_at(entry_name(table[29]), entry_name(table[30]), 2));
    assert(precedes_at(entry_name(table[30]), entry_name(table[31]), 3));
    assert(precedes_at(entry_name(table[31]), entry_name(table[32]), 3));
}

/// The names of `ENTITIES_LOWER_R` from entry 32 up to entry 40.
proof fn lemma_names_lower_r_from_32()
    ensures
        names_in_order(ENTITIES_LOWER_R@, 'r' as u8, 32, 40),
{
    broadcast use is_ascii_spec_bytes;

    reveal(precedes);
    let table = ENTITIES_LOWER_R@;
    reveal_strlit("&rbrace;");
    assert(is_ascii("&rbrace;"));
    reveal_strlit("&rbrack;");
    assert(is_ascii("&rbrack;"));
    reveal_strlit("&rbrke;");
    assert(is_ascii("&rbrke;"));
    reveal_strlit("&rbrksld;");
    assert(is_ascii("&rbrksld;"));
    reveal_strlit("&rbrkslu;");
    assert(is_ascii("&rbrkslu;"));
    reveal_strlit("&rcaron;");
    assert(is_ascii("&rcaron;"));
    reveal_strlit("&rcedil;");
    assert(is_ascii("&rcedil;"));
    reveal_strlit("&rceil;");
    assert(is_ascii("&rceil;"));
    reveal_strlit("&rcub;");
    assert(is_ascii("&rcub;"));
    assert(precedes_at(entry_name(table[32]), entry_name(table[33]), 6));
    assert(precedes_at(entry_name(table[33]), entry_name(table[34]), 4));
    assert(precedes_at(entry_name(table[34]), entry_name(table[35]), 5));
    assert(precedes_at(entry_name(table[35]), entry_name(table[36]), 7));
    assert(precedes_at(entry_name(table[36]), entry_name(table[37]), 2));
    assert(precedes_at(entry_name(table[37]), entry_name(table[38]), 3));
    assert(precedes_at(entry_name(table[38]), entry_name(table[39]), 4));
    assert(precedes_at(entry_name(table[39]), entry_name(table[40]), 3));
}

/// The names of `ENTITIES_LOWER_R` from entry 40 up to entry 48.
proof fn lemma_names_lower_r_from_40()
    ensures
        names_in_order(ENTITIES_LOWER_R@, 'r' as u8, 40, 48),
{
    broadcast use is_ascii_spec_bytes;

    reveal(precedes);
    let table = ENTITIES_LOWER_R@;
    reveal_strlit("&rcub;");
    assert(is_ascii("&rcub;"));
    reveal_strlit("&rcy;");
    assert(is_ascii("&rcy;"));
    reveal_strlit("&rdca;");
    assert(is_ascii("&rdca;"));
    reveal_strlit("&rdldhar;");
    assert(is_ascii("&rdldhar;"));
    reveal_strlit("&rdquo;");
    assert(is_ascii("&rdquo;"));
    reveal_strlit("&rdquor;");
    assert(is_ascii("&rdquor;"));
    reveal_strlit("&rdsh;");
    assert(is_ascii("&rdsh;"));
    reveal_strlit("&real;");
    assert(is_ascii("&real;"));
    reveal_strlit("&realine;");
    assert(is_ascii("&realine;"));
    assert(precedes_at(entry_name(table[40]), entry_name(table[41]), 3));
    assert(precedes_at(entry_name(table[41]), entry_name(table[42]), 2));
    assert(precedes_at(entry_name(table[42]), entry_name(table[43]), 3));
    assert(precedes_at(entry_name(table[43]), entry_name(table[44]), 3));
    assert(precedes_at(entry_name(table[44]), entry_name(table[45]), 6));
    assert(precedes_at(entry_name(table[45]), entry_name(table[46]), 3));
    assert(precedes_at(entry_name(table[46]), entry_name(table[47]), 2));
    assert(precedes_at(entry_name(table[47]), entry_name(table[48]), 5));
}

/// The names of `ENTITIES_LOWER_R` from entry 48 up to entry 56.
proof fn lemma_names_lower_r_from_48()
    ensures
        names_in_order(ENTITIES_LOWER_R@, 'r' as u8, 48, 56),
{
    broadcast use is_ascii_spec_bytes;

    reveal(precedes);
    let table = ENTITIES_LOWER_R@;
    reveal_strlit("&realine;");
    assert(is_ascii("&realine;"));
    reveal_strlit("&realpart;");
    assert(is_ascii("&realpart;"));
    reveal_strlit("&reals;");
    assert(is_ascii("&reals;"));
    reveal_strlit("&rect;");
    assert(is_ascii("&rect;"));
    reveal_strlit("&reg");
    assert(is_ascii("&reg"));
    reveal_strlit("&reg;");
    assert(is_ascii("&reg;"));
    reveal_strlit("&rfisht;");
    assert(is_ascii("&rfisht;"));
    reveal_strlit("&rfloor;");
    assert(is_ascii("&rfloor;"));
    reveal_strlit("&rfr;");
    assert(is_ascii("&rfr;"));
    assert(precedes_at(entry_name(table[48]), entry_name(table[49]), 5));
    assert(precedes_at(entry_name(table[49]), entry_name(table[50]), 5));
    assert(precedes_at(entry_name(table[50]), entry_name(table[51]), 3));
    assert(precedes_at(entry_name(table[51]), entry_name(table[52]), 3));
    assert(precedes_at(entry_name(table[52]), entry_name(table[53]), 4));
    assert(precedes_at(entry_name(table[53]), entry_name(table[54]), 2));
    assert(precedes_at(entry_name(table[54]), entry_name(table[55]), 3));
    assert(precedes_at(entry_name(table[55]), entry_name(table[56]), 3));
}

/// The names of `ENTITIES_LOWER_R` from entry 56 up to entry 64.
proof fn lemma_names_lower_r_from_56()
    ensures
        names_in_order(ENTITIES_LOWER_R@, 'r' as u8, 56, 64),
{
    broadcast use is_ascii_spec_bytes;

    reveal(precedes);
    let table = ENTITIES_LOWER_R@;
    reveal_strlit("&rfr;");
    assert(is_ascii("&rfr;"));
    reveal_strlit("&rhard;");
    assert(is_ascii("&rhard;"));
    reveal_strlit("&rharu;");
    assert(is_ascii("&rharu;"));
    reveal_strlit("&rharul;");
    assert(is_ascii("&rharul;"));
    reveal_strlit("&rho;");
    assert(is_ascii("&rho;"));
    reveal_strlit("&rhov;");
    assert(is_ascii("&rhov;"));
    reveal_strlit("&rightarrow;");
    assert(is_ascii("&rightarrow;"));
    reveal_strlit("&rightarrowtail;");
    assert(is_ascii("&rightarrowtail;"));
    reveal_strlit("&rightharpoondown;");
    assert(is_ascii("&rightharpoondown;"));
    assert(precedes_at(entry_name(table[56]), entry_name(table[57]), 2));
    assert(precedes_at(entry_name(table[57]), entry_name(table[58]), 5));
    assert(precedes_at(entry_name(table[58]), entry_name(table[59]), 6));
    assert(precedes_at(entry_name(table[59]), entry_name(table[60]), 3));
    assert(precedes_at(entry_name(table[60]), entry_name(table[61]), 4));
    assert(precedes_at(entry_name(table[61]), entry_name(table[62]), 2));
    assert(precedes_at(entry_name(table[62]), entry_name(table[63]), 11));
    assert(precedes_at(entry_name(table[63]), entry_name(table[64]), 6));
}

/// The names of `ENTITIES_LOWER_R` from entry 64 up to entry 72.
proof fn lemma_names_lower_r_from_64()
    ensures
        names_in_order(ENTITIES_LOWER_R@, 'r' as u8, 64, 72),
{
    broadcast use is_ascii_spec_bytes;

    reveal(precedes);
    let table = ENTITIES_LOWER_R@;
    reveal_strlit("&rightharpoondown;");
    assert(is_ascii("&rightharpoondown;"));
    reveal_strlit("&rightharpoonup;");
    assert(is_ascii("&rightharpoonup;"));
    reveal_strlit("&rightleftarrows;");
    assert(is_ascii("&rightleftarrows;"));
    reveal_strlit("&rightleftharpoons;");
    assert(is_ascii("&rightleftharpoons;"));
    reveal_strlit("&rightrightarrows;");
    assert(is_ascii("&rightrightarrows;"));
    reveal_strlit("&rightsquigarrow;");
    assert(is_ascii("&rightsquigarrow;"));
    reveal_strlit("&rightthreetimes;");
    assert(is_ascii("&rightthreetimes;"));
    reveal_strlit("&ring;");
    assert(is_ascii("&ring;"));
    reveal_strlit("&risingdotseq;");
    assert(is_ascii("&risingdotseq;"));
    assert(precedes_at(entry_name(table[64]), entry_name(table[65]), 13));
    assert(precedes_at(entry_name(table[65]), entry_name(table[66]), 6));
    assert(precedes_at(entry_name(table[66]), entry_name(table[67]), 10));
    assert(precedes_at(entry_name(table[67]), entry_name(table[68]), 6));
    assert(precedes_at(entry_name(table[68]), entry_name(table[69]), 6));
    assert(precedes_at(entry_name(table[69]), entry_name(table[70]), 6));
    assert(precedes_at(entry_name(table[70]), entry_name(table[71]), 3));
    assert(precedes_at(entry_name(table[71]), entry_name(table[72]), 3));
}

/// The names of `ENTITIES_LOWER_R` from entry 72 up to entry 80.
proof fn lemma_names_lower_r_from_72()
    ensures
        names_in_order(ENTITIES_LOWER_R@, 'r' as u8, 72, 80),
{
    broadcast use is_ascii_spec_bytes;

    reveal(precedes);
    let table = ENTITIES_LOWER_R@;
    reveal_strlit("&risingdotseq;");
    assert(is_ascii("&risingdotseq;"));
    reveal_strlit("&rlarr;");
    assert(is_ascii("&rlarr;"));
    reveal_strlit("&rlhar;");
    assert(is_ascii("&rlhar;"));
    reveal_strlit("&rlm;");
    assert(is_ascii("&rlm;"));
    reveal_strlit("&rmoust;");
    assert(is_ascii("&rmoust;"));
    reveal_strlit("&rmoustache;");
    assert(is_ascii("&rmoustache;"));
    reveal_strlit("&rnmid;");
    assert(is_ascii("&rnmid;"));
    reveal_strlit("&roang;");
    assert(is_ascii("&roang;"));
    reveal_strlit("&roarr;");
    assert(is_ascii("&roarr;"));
    assert(precedes_at(entry_name(table[72]), entry_name(table[73]), 2));
    assert(precedes_at(entry_name(table[73]), entry_name(table[74]), 3));
    assert(precedes_at(entry_name(table[74]), entry_name(table[75]), 3));
    assert(precedes_at(entry_name(table[75]), entry_name(table[76]), 2));
    assert(precedes_at(entry_name(table[76]), entry_name(table[77]), 7));
    assert(precedes_at(entry_name(table[77]), entry_name(table[78]), 2));
    assert(precedes_at(entry_name(table[78]), entry_name(table[79]), 2));
    assert(precedes_at(entry_name(table[79]), entry_name(table[80]), 4));
}

/// The names of `ENTITIES_LOWER_R` from entry 80 up to entry 88.
proof fn lemma_names_lower_r_from_80()
    ensures
        names_in_order(ENTITIES_LOWER_R@, 'r' as u8, 80, 88),
{
    broadcast use is_ascii_spec_bytes;

    reveal(precedes);
    let table = ENTITIES_LOWER_R@;
    reveal_strlit("&roarr;");
    assert(is_ascii("&roarr;"));
    reveal_strlit("&robrk;");
    assert(is_ascii("&robrk;"));
    reveal_strlit("&ropar;");
    assert(is_ascii("&ropar;"));
    reveal_strlit("&ropf;");
    assert(is_ascii("&ropf;"));
    reveal_strlit("&roplus;");
    assert(is_ascii("&roplus;"));
    reveal_strlit("&rotimes;");
    assert(is_ascii("&rotimes;"));
    reveal_strlit("&rpar;");
    assert(is_ascii("&rpar;"));
    reveal_strlit("&rpargt;");
    assert(is_ascii("&rpargt;"));
    reveal_strlit("&rppolint;");
    assert(is_ascii("&rppolint;"));
    assert(precedes_at(entry_name(table[80]), entry_name(table[81]), 3));
    assert(precedes_at(entry_name(table[81]), entry_name(table[82]), 3));
    assert(precedes_at(entry_name(table[82]), entry_name(table[83]), 4));
    assert(precedes_at(entry_name(table[83]), entry_name(table[84]), 4));
    assert(precedes_at(entry_name(table[84]), entry_name(table[85]), 3));
    assert(precedes_at(entry_name(table[85]), entry_name(table[86]), 2));
    assert(precedes_at(entry_name(table[86]), entry_name(table[87]), 5));
    assert(precedes_at(entry_name(table[87]), entry_name(table[88]), 3));
}

/// The names of `ENTITIES_LOWER_R` from entry 88 up to entry 96.
proof fn lemma_names_lower_r_from_88()
    ensures
        names_in_order(ENTITIES_LOWER_R@, 'r' as u8, 88, 96),
{
    broadcast use is_ascii_spec_bytes;

    reveal(precedes);
    let table = ENTITIES_LOWER_R@;
    reveal_strlit("&rppolint;");
    assert(is_ascii("&rppolint;"));
    reveal_strlit("&rrarr;");
    assert(is_ascii("&rrarr;"));
    reveal_strlit("&rsaquo;");
    assert(is_ascii("&rsaquo;"));
    reveal_strlit("&rscr;");
    assert(is_ascii("&rscr;"));
    reveal_strlit("&rsh;");
    assert(is_ascii("&rsh;"));
    reveal_strlit("&rsqb;");
    assert(is_ascii("&rsqb;"));
    reveal_strlit("&rsquo;");
    assert(is_ascii("&rsquo;"));
    reveal_strlit("&rsquor;");
    assert(is_ascii("&rsquor;"));
    reveal_strlit("&rthree;");
    assert(is_ascii("&rthree;"));
    assert(precedes_at(entry_name(table[88]), entry_name(table[89]), 2));
    assert(precedes_at(entry_name(table[89]), entry_name(table[90]), 2));
    assert(precedes_at(entry_name(table[90]), entry_name(table[91]), 3));
    assert(precedes_at(entry_name(table[91]), entry_name(table[92]), 3));
    assert(precedes_at(entry_name(table[92]), entry_name(table[93]), 3));
    assert(precedes_at(entry_name(table[93]), entry_name(table[94]), 4));
    assert(precedes_at(entry_name(table[94]), entry_name(table[95]), 6));
    assert(precedes_at(entry_name(table[95]), entry_name(table[96]), 2));
}

/// The names of `ENTITIES_LOWER_R` from entry 96 up to entry 104.
proof fn lemma_names_lower_r_from_96()
    ensures
        names_in_order(ENTITIES_LOWER_R@, 'r' as u8, 96, 104),
{
    broadcast use is_ascii_spec_bytes;

    reveal(precedes);
    let table = ENTITIES_LOWER_R@;
    reveal_strlit("&rthree;");
    assert(is_ascii("&rthree;"));
    reveal_strlit("&rtimes;");
    assert(is_ascii("&rtimes;"));
    reveal_strlit("&rtri;");
    assert(is_ascii("&rtri;"));
    reveal_strlit("&rtrie;");
    assert(is_ascii("&rtrie;"));
    reveal_strlit("&rtrif;");
    assert(is_ascii("&rtrif;"));
    reveal_strlit("&rtriltri;");
    assert(is_ascii("&rtriltri;"));
    reveal_strlit("&ruluhar;");
    assert(is_ascii("&ruluhar;"));
    reveal_strlit("&rx;");
    assert(is_ascii("&rx;"));
    assert(precedes_at(entry_name(table[96]), entry_name(table[97]), 3));
    assert(precedes_at(entry_name(table[97]), entry_name(table[98]), 3));
    assert(precedes_at(entry_name(table[98]), entry_name(table[99]), 5));
    assert(precedes_at(entry_name(table[99]), entry_name(table[100]), 5));
    assert(precedes_at(entry_name(table[100]), entry_name(table[101]), 5));
    assert(precedes_at(entry_name(table[101]), entry_name(table[102]), 2));
    assert(precedes_at(entry_name(table[102]), entry_name(table[103]), 2));
}

/// Every name in `ENTITIES_LOWER_R` starts with `&r` and has 3 to 33 bytes, and
/// each name comes before the next in the order of byte strings.
pub proof fn lemma_names_lower_r()
    ensures
        names_start_with(ENTITIES_LOWER_R@, 'r' as u8),
        names_ascend(ENTITIES_LOWER_R@),
{
    lemma_names_lower_r_from_0();
    lemma_names_lower_r_from_8();
    lemma_names_lower_r_from_16();
    lemma_names_lower_r_from_24();
    lemma_names_lower_r_from_32();
    lemma_names_lower_r_from_40();
    lemma_names_lower_r_from_48();
    lemma_names_lower_r_from_56();
    lemma_names_lower_r_from_64();
    lemma_names_lower_r_from_72();
    lemma_names_lower_r_from_80();
    lemma_names_lower_r_from_88();
    lemma_names_lower_r_from_96();
}

} // verus!
