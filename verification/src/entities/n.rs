//! The named character references that start with `N` or `n`.

use crate::entities::{names_in_order, names_start_with};
use crate::search::{entry_name, names_ascend, precedes, precedes_at, Entry};
use vstd::prelude::*;
use vstd::string::{is_ascii, is_ascii_spec_bytes};

verus! {

/// The named character references that start with `&N`, each with its
/// expansion, in the order of byte strings.
pub const ENTITIES_UPPER_N: [Entry; 72] = [
    ("&NJcy;", "\u{40a}"),
    ("&Nacute;", "\u{143}"),
    ("&Ncaron;", "\u{147}"),
    ("&Ncedil;", "\u{145}"),
    ("&Ncy;", "\u{41d}"),
    ("&NegativeMediumSpace;", "\u{200b}"),
    ("&NegativeThickSpace;", "\u{200b}"),
    ("&NegativeThinSpace;", "\u{200b}"),
    ("&NegativeVeryThinSpace;", "\u{200b}"),
    ("&NestedGreaterGreater;", "\u{226b}"),
    ("&NestedLessLess;", "\u{226a}"),
    ("&NewLine;", "\u{a}"),
    ("&Nfr;", "\u{1d511}"),
    ("&NoBreak;", "\u{2060}"),
    ("&NonBreakingSpace;", "\u{a0}"),
    ("&Nopf;", "\u{2115}"),
    ("&Not;", "\u{2aec}"),
    ("&NotCongruent;", "\u{2262}"),
    ("&NotCupCap;", "\u{226d}"),
    ("&NotDoubleVerticalBar;", "\u{2226}"),
    ("&NotElement;", "\u{2209}"),
    ("&NotEqual;", "\u{2260}"),
    ("&NotEqualTilde;", "\u{2242}\u{338}"),
    ("&NotExists;", "\u{2204}"),
    ("&NotGreater;", "\u{226f}"),
    ("&NotGreaterEqual;", "\u{2271}"),
    ("&NotGreaterFullEqual;", "\u{2267}\u{338}"),
    ("&NotGreaterGreater;", "\u{226b}\u{338}"),
    ("&NotGreaterLess;", "\u{2279}"),
    ("&NotGreaterSlantEqual;", "\u{2a7e}\u{338}"),
    ("&NotGreaterTilde;", "\u{2275}"),
    ("&NotHumpDownHump;", "\u{224e}\u{338}"),
    ("&NotHumpEqual;", "\u{224f}\u{338}"),
    ("&NotLeftTriangle;", "\u{22ea}"),
    ("&NotLeftTriangleBar;", "\u{29cf}\u{338}"),
    ("&NotLeftTriangleEqual;", "\u{22ec}"),
    ("&NotLess;", "\u{226e}"),
    ("&NotLessEqual;", "\u{2270}"),
    ("&NotLessGreater;", "\u{2278}"),
    ("&NotLessLess;", "\u{226a}\u{338}"),
    ("&NotLessSlantEqual;", "\u{2a7d}\u{338}"),
    ("&NotLessTilde;", "\u{2274}"),
    ("&NotNestedGreaterGreater;", "\u{2aa2}\u{338}"),
    ("&NotNestedLessLess;", "\u{2aa1}\u{338}"),
    ("&NotPrecedes;", "\u{2280}"),
    ("&NotPrecedesEqual;", "\u{2aaf}\u{338}"),
    ("&NotPrecedesSlantEqual;", "\u{22e0}"),
    ("&NotReverseElement;", "\u{220c}"),
    ("&NotRightTriangle;", "\u{22eb}"),
    ("&NotRightTriangleBar;", "\u{29d0}\u{338}"),
    ("&NotRightTriangleEqual;", "\u{22ed}"),
    ("&NotSquareSubset;", "\u{228f}\u{338}"),
    ("&NotSquareSubsetEqual;", "\u{22e2}"),
    ("&NotSquareSuperset;", "\u{2290}\u{338}"),
    ("&NotSquareSupersetEqual;", "\u{22e3}"),
    ("&NotSubset;", "\u{2282}\u{20d2}"),
    ("&NotSubsetEqual;", "\u{2288}"),
    ("&NotSucceeds;", "\u{2281}"),
    ("&NotSucceedsEqual;", "\u{2ab0}\u{338}"),
    ("&NotSucceedsSlantEqual;", "\u{22e1}"),
    ("&NotSucceedsTilde;", "\u{227f}\u{338}"),
    ("&NotSuperset;", "\u{2283}\u{20d2}"),
    ("&NotSupersetEqual;", "\u{2289}"),
    ("&NotTilde;", "\u{2241}"),
    ("&NotTildeEqual;", "\u{2244}"),
    ("&NotTildeFullEqual;", "\u{2247}"),
    ("&NotTildeTilde;", "\u{2249}"),
    ("&NotVerticalBar;", "\u{2224}"),
    ("&Nscr;", "\u{1d4a9}"),
    ("&Ntilde", "\u{d1}"),
    ("&Ntilde;", "\u{d1}"),
    ("&Nu;", "\u{39d}"),
];

/// The named character references that start with `&n`, each with its
/// expansion, in the order of byte strings.
pub const ENTITIES_LOWER_N: [Entry; 168] = [
    ("&nGg;", "\u{22d9}\u{338}"),
    ("&nGt;", "\u{226b}\u{20d2}"),
    ("&nGtv;", "\u{226b}\u{338}"),
    ("&nLeftarrow;", "\u{21cd}"),
    ("&nLeftrightarrow;", "\u{21ce}"),
    ("&nLl;", "\u{22d8}\u{338}"),
    ("&nLt;", "\u{226a}\u{20d2}"),
    ("&nLtv;", "\u{226a}\u{338}"),
    ("&nRightarrow;", "\u{21cf}"),
    ("&nVDash;", "\u{22af}"),
    ("&nVdash;", "\u{22ae}"),
    ("&nabla;", "\u{2207}"),
    ("&nacute;", "\u{144}"),
    ("&nang;", "\u{2220}\u{20d2}"),
    ("&nap;", "\u{2249}"),
    ("&napE;", "\u{2a70}\u{338}"),
    ("&napid;", "\u{224b}\u{338}"),
    ("&napos;", "\u{149}"),
    ("&napprox;", "\u{2249}"),
    ("&natur;", "\u{266e}"),
    ("&natural;", "\u{266e}"),
    ("&naturals;", "\u{2115}"),
    ("&nbsp", "\u{a0}"),
    ("&nbsp;", "\u{a0}"),
    ("&nbump;", "\u{224e}\u{338}"),
    ("&nbumpe;", "\u{224f}\u{338}"),
    ("&ncap;", "\u{2a43}"),
    ("&ncaron;", "\u{148}"),
    ("&ncedil;", "\u{146}"),
    ("&ncong;", "\u{2247}"),
    ("&ncongdot;", "\u{2a6d}\u{338}"),
    ("&ncup;", "\u{2a42}"),
    ("&ncy;", "\u{43d}"),
    ("&ndash;", "\u{2013}"),
    ("&ne;", "\u{2260}"),
    ("&neArr;", "\u{21d7}"),
    ("&nearhk;", "\u{2924}"),
    ("&nearr;", "\u{2197}"),
    ("&nearrow;", "\u{2197}"),
    ("&nedot;", "\u{2250}\u{338}"),
    ("&nequiv;", "\u{2262}"),
    ("&nesear;", "\u{2928}"),
    ("&nesim;", "\u{2242}\u{338}"),
    ("&nexist;", "\u{2204}"),
    ("&nexists;", "\u{2204}"),
    ("&nfr;", "\u{1d52b}"),
    ("&ngE;", "\u{2267}\u{338}"),
    ("&nge;", "\u{2271}"),
    ("&ngeq;", "\u{2271}"),
    ("&ngeqq;", "\u{2267}\u{338}"),
    ("&ngeqslant;", "\u{2a7e}\u{338}"),
    ("&nges;", "\u{2a7e}\u{338}"),
    ("&ngsim;", "\u{2275}"),
    ("&ngt;", "\u{226f}"),
    ("&ngtr;", "\u{226f}"),
    ("&nhArr;", "\u{21ce}"),
    ("&nharr;", "\u{21ae}"),
    ("&nhpar;", "\u{2af2}"),
    ("&ni;", "\u{220b}"),
    ("&nis;", "\u{22fc}"),
    ("&nisd;", "\u{22fa}"),
    ("&niv;", "\u{220b}"),
    ("&njcy;", "\u{45a}"),
    ("&nlArr;", "\u{21cd}"),
    ("&nlE;", "\u{2266}\u{338}"),
    ("&nlarr;", "\u{219a}"),
    ("&nldr;", "\u{2025}"),
    ("&nle;", "\u{2270}"),
    ("&nleftarrow;", "\u{219a}"),
    ("&nleftrightarrow;", "\u{21ae}"),
    ("&nleq;", "\u{2270}"),
    ("&nleqq;", "\u{2266}\u{338}"),
    ("&nleqslant;", "\u{2a7d}\u{338}"),
    ("&nles;", "\u{2a7d}\u{338}"),
    ("&nless;", "\u{226e}"),
    ("&nlsim;", "\u{2274}"),
    ("&nlt;", "\u{226e}"),
    ("&nltri;", "\u{22ea}"),
    ("&nltrie;", "\u{22ec}"),
    ("&nmid;", "\u{2224}"),
    ("&nopf;", "\u{1d55f}"),
    ("&not", "\u{ac}"),
    ("&not;", "\u{ac}"),
    ("&notin;", "\u{2209}"),
    ("&notinE;", "\u{22f9}\u{338}"),
    ("&notindot;", "\u{22f5}\u{338}"),
    ("&notinva;", "\u{2209}"),
    ("&notinvb;", "\u{22f7}"),
    ("&notinvc;", "\u{22f6}"),
    ("&notni;", "\u{220c}"),
    ("&notniva;", "\u{220c}"),
    ("&notnivb;", "\u{22fe}"),
    ("&notnivc;", "\u{22fd}"),
    ("&npar;", "\u{2226}"),
    ("&nparallel;", "\u{2226}"),
    ("&nparsl;", "\u{2afd}\u{20e5}"),
    ("&npart;", "\u{2202}\u{338}"),
    ("&npolint;", "\u{2a14}"),
    ("&npr;", "\u{2280}"),
    ("&nprcue;", "\u{22e0}"),
    ("&npre;", "\u{2aaf}\u{338}"),
    ("&nprec;", "\u{2280}"),
    ("&npreceq;", "\u{2aaf}\u{338}"),
    ("&nrArr;", "\u{21cf}"),
    ("&nrarr;", "\u{219b}"),
    ("&nrarrc;", "\u{2933}\u{338}"),
    ("&nrarrw;", "\u{219d}\u{338}"),
    ("&nrightarrow;", "\u{219b}"),
    ("&nrtri;", "\u{22eb}"),
    ("&nrtrie;", "\u{22ed}"),
    ("&nsc;", "\u{2281}"),
    ("&nsccue;", "\u{22e1}"),
    ("&nsce;", "\u{2ab0}\u{338}"),
    ("&nscr;", "\u{1d4c3}"),
    ("&nshortmid;", "\u{2224}"),
    ("&nshortparallel;", "\u{2226}"),
    ("&nsim;", "\u{2241}"),
    ("&nsime;", "\u{2244}"),
    ("&nsimeq;", "\u{2244}"),
    ("&nsmid;", "\u{2224}"),
    ("&nspar;", "\u{2226}"),
    ("&nsqsube;", "\u{22e2}"),
    ("&nsqsupe;", "\u{22e3}"),
    ("&nsub;", "\u{2284}"),
    ("&nsubE;", "\u{2ac5}\u{338}"),
    ("&nsube;", "\u{2288}"),
    ("&nsubset;", "\u{2282}\u{20d2}"),
    ("&nsubseteq;", "\u{2288}"),
    ("&nsubseteqq;", "\u{2ac5}\u{338}"),
    ("&nsucc;", "\u{2281}"),
    ("&nsucceq;", "\u{2ab0}\u{338}"),
    ("&nsup;", "\u{2285}"),
    ("&nsupE;", "\u{2ac6}\u{338}"),
    ("&nsupe;", "\u{2289}"),
    ("&nsupset;", "\u{2283}\u{20d2}"),
    ("&nsupseteq;", "\u{2289}"),
    ("&nsupseteqq;", "\u{2ac6}\u{338}"),
    ("&ntgl;", "\u{2279}"),
    ("&ntilde", "\u{f1}"),
    ("&ntilde;", "\u{f1}"),
    ("&ntlg;", "\u{2278}"),
    ("&ntriangleleft;", "\u{22ea}"),
    ("&ntrianglelefteq;", "\u{22ec}"),
    ("&ntriangleright;", "\u{22eb}"),
    ("&ntrianglerighteq;", "\u{22ed}"),
    ("&nu;", "\u{3bd}"),
    ("&num;", "#"),
    ("&numero;", "\u{2116}"),
    ("&numsp;", "\u{2007}"),
    ("&nvDash;", "\u{22ad}"),
    ("&nvHarr;", "\u{2904}"),
    ("&nvap;", "\u{224d}\u{20d2}"),
    ("&nvdash;", "\u{22ac}"),
    ("&nvge;", "\u{2265}\u{20d2}"),
    ("&nvgt;", ">\u{20d2}"),
    ("&nvinfin;", "\u{29de}"),
    ("&nvlArr;", "\u{2902}"),
    ("&nvle;", "\u{2264}\u{20d2}"),
    ("&nvlt;", "<\u{20d2}"),
    ("&nvltrie;", "\u{22b4}\u{20d2}"),
    ("&nvrArr;", "\u{2903}"),
    ("&nvrtrie;", "\u{22b5}\u{20d2}"),
    ("&nvsim;", "\u{223c}\u{20d2}"),
    ("&nwArr;", "\u{21d6}"),
    ("&nwarhk;", "\u{2923}"),
    ("&nwarr;", "\u{2196}"),
    ("&nwarrow;", "\u{2196}"),
    ("&nwnear;", "\u{2927}"),
];

/// The names of `ENTITIES_UPPER_N` from entry 0 up to entry 8.
proof fn lemma_names_upper_n_from_0()
    ensures
        names_in_order(ENTITIES_UPPER_N@, 'N' as u8, 0, 8),
{
    broadcast use is_ascii_spec_bytes;

    reveal(precedes);
    let table = ENTITIES_UPPER_N@;
    reveal_strlit("&NJcy;");
    assert(is_ascii("&NJcy;"));
    reveal_strlit("&Nacute;");
    assert(is_ascii("&Nacute;"));
    reveal_strlit("&Ncaron;");
    assert(is_ascii("&Ncaron;"));
    reveal_strlit("&Ncedil;");
    assert(is_ascii("&Ncedil;"));
    reveal_strlit("&Ncy;");
    assert(is_ascii("&Ncy;"));
    reveal_strlit("&NegativeMediumSpace;");
    assert(is_ascii("&NegativeMediumSpace;"));
    reveal_strlit("&NegativeThickSpace;");
    assert(is_ascii("&NegativeThickSpace;"));
    reveal_strlit("&NegativeThinSpace;");
    assert(is_ascii("&NegativeThinSpace;"));
    reveal_strlit("&NegativeVeryThinSpace;");
    assert(is_ascii("&NegativeVeryThinSpace;"));
    assert(precedes_at(entry_name(table[0]), entry_name(table[1]), 2));
    assert(precedes_at(entry_name(table[1]), entry_name(table[2]), 2));
    assert(precedes_at(entry_name(table[2]), entry_name(table[3]), 3));
    assert(precedes_at(entry_name(table[3]), entry_name(table[4]), 3));
    assert(precedes_at(entry_name(table[4]), entry_name(table[5]), 2));
    assert(precedes_at(entry_name(table[5]), entry_name(table[6]), 9));
    assert(precedes_at(entry_name(table[6]), entry_name(table[7]), 12));
    assert(precedes_at(entry_name(table[7]), entry_name(table[8]), 9));
}

/// The names of `ENTITIES_UPPER_N` from entry 8 up to entry 16.
proof fn lemma_names_upper_n_from_8()
    ensures
        names_in_order(ENTITIES_UPPER_N@, 'N' as u8, 8, 16),
{
    broadcast use is_ascii_spec_bytes;

    reveal(precedes);
    let table = ENTITIES_UPPER_N@;
    reveal_strlit("&NegativeVeryThinSpace;");
    assert(is_ascii("&NegativeVeryThinSpace;"));
    reveal_strlit("&NestedGreaterGreater;");
    assert(is_ascii("&NestedGreaterGreater;"));
    reveal_strlit("&NestedLessLess;");
    assert(is_ascii("&NestedLessLess;"));
    reveal_strlit("&NewLine;");
    assert(is_ascii("&NewLine;"));
    reveal_strlit("&Nfr;");
    assert(is_ascii("&Nfr;"));
    reveal_strlit("&NoBreak;");
    assert(is_ascii("&NoBreak;"));
    reveal_strlit("&NonBreakingSpace;");
    assert(is_ascii("&NonBreakingSpace;"));
    reveal_strlit("&Nopf;");
    assert(is_ascii("&Nopf;"));
    reveal_strlit("&Not;");
    assert(is_ascii("&Not;"));
    assert(precedes_at(entry_name(table[8]), entry_name(table[9]), 3));
    assert(precedes_at(entry_name(table[9]), entry_name(table[10]), 7));
    assert(precedes_at(entry_name(table[10]), entry_name(table[11]), 3));
    assert(precedes_at(entry_name(table[11]), entry_name(table[12]), 2));
    assert(precedes_at(entry_name(table[12]), entry_name(table[13]), 2));
    assert(precedes_at(entry_name(table[13]), entry_name(table[14]), 3));
    assert(precedes_at(entry_name(table[14]), entry_name(table[15]), 3));
    assert(precedes_at(entry_name(table[15]), entry_name(table[16]), 3));
}

/// The names of `ENTITIES_UPPER_N` from entry 16 up to entry 24.
proof fn lemma_names_upper_n_from_16()
    ensures
        names_in_order(ENTITIES_UPPER_N@, 'N' as u8, 16, 24),
{
    broadcast use is_ascii_spec_bytes;

    reveal(precedes);
    let table = ENTITIES_UPPER_N@;
    reveal_strlit("&Not;");
    assert(is_ascii("&Not;"));
    reveal_strlit("&NotCongruent;");
    assert(is_ascii("&NotCongruent;"));
    reveal_strlit("&NotCupCap;");
    assert(is_ascii("&NotCupCap;"));
    reveal_strlit("&NotDoubleVerticalBar;");
    assert(is_ascii("&NotDoubleVerticalBar;"));
    reveal_strlit("&NotElement;");
    assert(is_ascii("&NotElement;"));
    reveal_strlit("&NotEqual;");
    assert(is_ascii("&NotEqual;"));
    reveal_strlit("&NotEqualTilde;");
    assert(is_ascii("&NotEqualTilde;"));
    reveal_strlit("&NotExists;");
    assert(is_ascii("&NotExists;"));
    reveal_strlit("&NotGreater;");
    assert(is_ascii("&NotGreater;"));
    assert(precedes_at(entry_name(table[16]), entry_name(table[17]), 4));
    assert(precedes_at(entry_name(table[17]), entry_name(table[18]), 5));
    assert(precedes_at(entry_name(table[18]), entry_name(table[19]), 4));
    assert(precedes_at(entry_name(table[19]), entry_name(table[20]), 4));
    assert(precedes_at(entry_name(table[20]), entry_name(table[21]), 5));
    assert(precedes_at(entry_name(table[21]), entry_name(table[22]), 9));
    assert(precedes_at(entry_name(table[22]), entry_name(table[23]), 5));
    assert(precedes_at(entry_name(table[23]), entry_name(table[24]), 4));
}

/// The names of `ENTITIES_UPPER_N` from entry 24 up to entry 32.
proof fn lemma_names_upper_n_from_24()
    ensures
        names_in_order(ENTITIES_UPPER_N@, 'N' as u8, 24, 32),
{
    broadcast use is_ascii_spec_bytes;

    reveal(precedes);
    let table = ENTITIES_UPPER_N@;
    reveal_strlit("&NotGreater;");
    assert(is_ascii("&NotGreater;"));
    reveal_strlit("&NotGreaterEqual;");
    assert(is_ascii("&NotGreaterEqual;"));
    reveal_strlit("&NotGreaterFullEqual;");
    assert(is_ascii("&NotGreaterFullEqual;"));
    reveal_strlit("&NotGreaterGreater;");
    assert(is_ascii("&NotGreaterGreater;"));
    reveal_strlit("&NotGreaterLess;");
    assert(is_ascii("&NotGreaterLess;"));
    reveal_strlit("&NotGreaterSlantEqual;");
    assert(is_ascii("&NotGreaterSlantEqual;"));
    reveal_strlit("&NotGreaterTilde;");
    assert(is_ascii("&NotGreaterTilde;"));
    reveal_strlit("&NotHumpDownHump;");
    assert(is_ascii("&NotHumpDownHump;"));
    reveal_strlit("&NotHumpEqual;");
    assert(is_ascii("&NotHumpEqual;"));
    assert(precedes_at(entry_name(table[24]), entry_name(table[25]), 11));
    assert(precedes_at(entry_name(table[25]), entry_name(table[26]), 11));
    assert(precedes_at(entry_name(table[26]), entry_name(table[27]), 11));
    assert(precedes_at(entry_name(table[27]), entry_name(table[28]), 11));
    assert(precedes_at(entry_name(table[28]), entry_name(table[29]), 11));
    assert(precedes_at(entry_name(table[29]), entry_name(table[30]), 11));
    assert(precedes_at(entry_name(table[30]), entry_name(table[31]), 4));
    assert(precedes_at(entry_name(table[31]), entry_name(table[32]), 8));
}

/// The names of `ENTITIES_UPPER_N` from entry 32 up to entry 40.
proof fn lemma_names_upper_n_from_32()
    ensures
        names_in_order(ENTITIES_UPPER_N@, 'N' as u8, 32, 40),
{
    broadcast use is_ascii_spec_bytes;

    reveal(precedes);
    let table = ENTITIES_UPPER_N@;
    reveal_strlit("&NotHumpEqual;");
    assert(is_ascii("&NotHumpEqual;"));
    reveal_strlit("&NotLeftTriangle;");
    assert(is_ascii("&NotLeftTriangle;"));
    reveal_strlit("&NotLeftTriangleBar;");
    assert(is_ascii("&NotLeftTriangleBar;"));
    reveal_strlit("&NotLeftTriangleEqual;");
    assert(is_ascii("&NotLeftTriangleEqual;"));
    reveal_strlit("&NotLess;");
    assert(is_ascii("&NotLess;"));
    reveal_strlit("&NotLessEqual;");
    assert(is_ascii("&NotLessEqual;"));
    reveal_strlit("&NotLessGreater;");
    assert(is_ascii("&NotLessGreater;"));
    reveal_strlit("&NotLessLess;");
    assert(is_ascii("&NotLessLess;"));
    reveal_strlit("&NotLessSlantEqual;");
    assert(is_ascii("&NotLessSlantEqual;"));
    assert(precedes_at(entry_name(table[32]), entry_name(table[33]), 4));
    assert(precedes_at(entry_name(table[33]), entry_name(table[34]), 16));
    assert(precedes_at(entry_name(table[34]), entry_name(table[35]), 16));
    assert(precedes_at(entry_name(table[35]), entry_name(table[36]), 6));
    assert(precedes_at(entry_name(table[36]), entry_name(table[37]), 8));
    assert(precedes_at(entry_name(table[37]), entry_name(table[38]), 8));
    assert(precedes_at(entry_name(table[38]), entry_name(table[39]), 8));
    assert(precedes_at(entry_name(table[39]), entry_name(table[40]), 8));
}

/// The names of `ENTITIES_UPPER_N` from entry 40 up to entry 48.
proof fn lemma_names_upper_n_from_40()
    ensures
        names_in_order(ENTITIES_UPPER_N@, 'N' as u8, 40, 48),
{
    broadcast use is_ascii_spec_bytes;

    reveal(precedes);
    let table = ENTITIES_UPPER_N@;
    reveal_strlit("&NotLessSlantEqual;");
    assert(is_ascii("&NotLessSlantEqual;"));
    reveal_strlit("&NotLessTilde;");
    assert(is_ascii("&NotLessTilde;"));
    reveal_strlit("&NotNestedGreaterGreater;");
    assert(is_ascii("&NotNestedGreaterGreater;"));
    reveal_strlit("&NotNestedLessLess;");
    assert(is_ascii("&NotNestedLessLess;"));
    reveal_strlit("&NotPrecedes;");
    assert(is_ascii("&NotPrecedes;"));
    reveal_strlit("&NotPrecedesEqual;");
    assert(is_ascii("&NotPrecedesEqual;"));
    reveal_strlit("&NotPrecedesSlantEqual;");
    assert(is_ascii("&NotPrecedesSlantEqual;"));
    reveal_strlit("&NotReverseElement;");
    assert(is_ascii("&NotReverseElement;"));
    reveal_strlit("&NotRightTriangle;");
    assert(is_ascii("&NotRightTriangle;"));
    assert(precedes_at(entry_name(table[40]), entry_name(table[41]), 8));
    assert(precedes_at(entry_name(table[41]), entry_name(table[42]), 4));
    assert(precedes_at(entry_name(table[42]), entry_name(table[43]), 10));
    assert(precedes_at(entry_name(table[43]), entry_name(table[44]), 4));
    assert(precedes_at(entry_name(table[44]), entry_name(table[45]), 12));
    assert(precedes_at(entry_name(table[45]), entry_name(table[46]), 12));
    assert(precedes_at(entry_name(table[46]), entry_name(table[47]), 4));
    assert(precedes_at(entry_name(table[47]), entry_name(table[48]), 5));
}

/// The names of `ENTITIES_UPPER_N` from entry 48 up to entry 56.
proof fn lemma_names_upper_n_from_48()
    ensures
        names_in_order(ENTITIES_UPPER_N@, 'N' as u8, 48, 56),
{
    broadcast use is_ascii_spec_bytes;

    reveal(precedes);
    let table = ENTITIES_UPPER_N@;
    reveal_strlit("&NotRightTriangle;");
    assert(is_ascii("&NotRightTriangle;"));
    reveal_strlit("&NotRightTriangleBar;");
    assert(is_ascii("&NotRightTriangleBar;"));
    reveal_strlit("&NotRightTriangleEqual;");
    assert(is_ascii("&NotRightTriangleEqual;"));
    reveal_strlit("&NotSquareSubset;");
    assert(is_ascii("&NotSquareSubset;"));
    reveal_strlit("&NotSquareSubsetEqual;");
    assert(is_ascii("&NotSquareSubsetEqual;"));
    reveal_strlit("&NotSquareSuperset;");
    assert(is_ascii("&NotSquareSuperset;"));
    reveal_strlit("&NotSquareSupersetEqual;");
    assert(is_ascii("&NotSquareSupersetEqual;"));
    reveal_strlit("&NotSubset;");
    assert(is_ascii("&NotSubset;"));
    reveal_strlit("&NotSubsetEqual;");
    assert(is_ascii("&NotSubsetEqual;"));
    assert(precedes_at(entry_name(table[48]), entry_name(table[49]), 17));
    assert(precedes_at(entry_name(table[49]), entry_name(table[50]), 17));
    assert(precedes_at(entry_name(table[50]), entry_name(table[51]), 4));
    assert(precedes_at(entry_name(table[51]), entry_name(table[52]), 16));
    assert(precedes_at(entry_name(table[52]), entry_name(table[53]), 12));
    assert(precedes_at(entry_name(table[53]), entry_name(table[54]), 18));
    assert(precedes_at(entry_name(table[54]), entry_name(table[55]), 5));
    assert(precedes_at(entry_name(table[55]), entry_name(table[56]), 10));
}

/// The names of `ENTITIES_UPPER_N` from entry 56 up to entry 64.
proof fn lemma_names_upper_n_from_56()
    ensures
        names_in_order(ENTITIES_UPPER_N@, 'N' as u8, 56, 64),
{
    broadcast use is_ascii_spec_bytes;

    reveal(precedes);
    let table = ENTITIES_UPPER_N@;
    reveal_strlit("&NotSubsetEqual;");
    assert(is_ascii("&NotSubsetEqual;"));
    reveal_strlit("&NotSucceeds;");
    assert(is_ascii("&NotSucceeds;"));
    reveal_strlit("&NotSucceedsEqual;");
    assert(is_ascii("&NotSucceedsEqual;"));
    reveal_strlit("&NotSucceedsSlantEqual;");
    assert(is_ascii("&NotSucceedsSlantEqual;"));
    reveal_strlit("&NotSucceedsTilde;");
    assert(is_ascii("&NotSucceedsTilde;"));
    reveal_strlit("&NotSuperset;");
    assert(is_ascii("&NotSuperset;"));
    reveal_strlit("&NotSupersetEqual;");
    assert(is_ascii("&NotSupersetEqual;"));
    reveal_strlit("&NotTilde;");
    assert(is_ascii("&NotTilde;"));
    reveal_strlit("&NotTildeEqual;");
    assert(is_ascii("&NotTildeEqual;"));
    assert(precedes_at(entry_name(table[56]), entry_name(table[57]), 6));
    assert(precedes_at(entry_name(table[57]), entry_name(table[58]), 12));
    assert(precedes_at(entry_name(table[58]), entry_name(table[59]), 12));
    assert(precedes_at(entry_name(table[59]), entry_name(table[60]), 12));
    assert(precedes_at(entry_name(table[60]), entry_name(table[61]), 6));
    assert(precedes_at(entry_name(table[61]), entry_name(table[62]), 12));
    assert(precedes_at(entry_name(table[62]), entry_name(table[63]), 4));
    assert(precedes_at(entry_name(table[63]), entry_name(table[64]), 9));
}

/// The names of `ENTITIES_UPPER_N` from entry 64 up to entry 72.
proof fn lemma_names_upper_n_from_64()
    ensures
        names_in_order(ENTITIES_UPPER_N@, 'N' as u8, 64, 72),
{
    broadcast use is_ascii_spec_bytes;

    reveal(precedes);
    let table = ENTITIES_UPPER_N@;
    reveal_strlit("&NotTildeEqual;");
    assert(is_ascii("&NotTildeEqual;"));
    reveal_strlit("&NotTildeFullEqual;");
    assert(is_ascii("&NotTildeFullEqual;"));
    reveal_strlit("&NotTildeTilde;");
    assert(is_ascii("&NotTildeTilde;"));
    reveal_strlit("&NotVerticalBar;");
    assert(is_ascii("&NotVerticalBar;"));
    reveal_strlit("&Nscr;");
    assert(is_ascii("&Nscr;"));
    reveal_strlit("&Ntilde");
    assert(is_ascii("&Ntilde"));
    reveal_strlit("&Ntilde;");
    assert(is_ascii("&Ntilde;"));
    reveal_strlit("&Nu;");
    assert(is_ascii("&Nu;"));
    assert(precedes_at(entry_name(table[64]), entry_name(table[65]), 9));
    assert(precedes_at(entry_name(table[65]), entry_name(table[66]), 9));
    assert(precedes_at(entry_name(table[66]), entry_name(table[67]), 4));
    assert(precedes_at(entry_name(table[67]), entry_name(table[68]), 2));
    assert(precedes_at(entry_name(table[68]), entry_name(table[69]), 2));
    assert(precedes_at(entry_name(table[69]), entry_name(table[70]), 7));
    assert(precedes_at(entry_name(table[70]), entry_name(table[71]), 2));
}

/// Every name in `ENTITIES_UPPER_N` starts with `&N` and has 3 to 33 bytes, and
/// each name comes before the next in the order of byte strings.
pub proof fn lemma_names_upper_n()
    ensures
        names_start_with(ENTITIES_UPPER_N@, 'N' as u8),
        names_ascend(ENTITIES_UPPER_N@),
{
    lemma_names_upper_n_from_0();
    lemma_names_upper_n_from_8();
    lemma_names_upper_n_from_16();
    lemma_names_upper_n_from_24();
    lemma_names_upper_n_from_32();
    lemma_names_upper_n_from_40();
    lemma_names_upper_n_from_48();
    lemma_names_upper_n_from_56();
    lemma_names_upper_n_from_64();
}

/// The names of `ENTITIES_LOWER_N` from entry 0 up to entry 8.
proof fn lemma_names_lower_n_from_0()
    ensures
        names_in_order(ENTITIES_LOWER_N@, 'n' as u8, 0, 8),
{
    broadcast use is_ascii_spec_bytes;

    reveal(precedes);
    let table = ENTITIES_LOWER_N@;
    reveal_strlit("&nGg;");
    assert(is_ascii("&nGg;"));
    reveal_strlit("&nGt;");
    assert(is_ascii("&nGt;"));
    reveal_strlit("&nGtv;");
    assert(is_ascii("&nGtv;"));
    reveal_strlit("&nLeftarrow;");
    assert(is_ascii("&nLeftarrow;"));
    reveal_strlit("&nLeftrightarrow;");
    assert(is_ascii("&nLeftrightarrow;"));
    reveal_strlit("&nLl;");
    assert(is_ascii("&nLl;"));
    reveal_strlit("&nLt;");
    assert(is_ascii("&nLt;"));
    reveal_strlit("&nLtv;");
    assert(is_ascii("&nLtv;"));
    reveal_strlit("&nRightarrow;");
    assert(is_ascii("&nRightarrow;"));
    assert(precedes_at(entry_name(table[0]), entry_name(table[1]), 3));
    assert(precedes_at(entry_name(table[1]), entry_name(table[2]), 4));
    assert(precedes_at(entry_name(table[2]), entry_name(table[3]), 2));
    assert(precedes_at(entry_name(table[3]), entry_name(table[4]), 6));
    assert(precedes_at(entry_name(table[4]), entry_name(table[5]), 3));
    assert(precedes_at(entry_name(table[5]), entry_name(table[6]), 3));
    assert(precedes_at(entry_name(table[6]), entry_name(table[7]), 4));
    assert(precedes_at(entry_name(table[7]), entry_name(table[8]), 2));
}

/// The names of `ENTITIES_LOWER_N` from entry 8 up to entry 16.
proof fn lemma_names_lower_n_from_8()
    ensures
        names_in_order(ENTITIES_LOWER_N@, 'n' as u8, 8, 16),
{
    broadcast use is_ascii_spec_bytes;

    reveal(precedes);
    let table = ENTITIES_LOWER_N@;
    reveal_strlit("&nRightarrow;");
    assert(is_ascii("&nRightarrow;"));
    reveal_strlit("&nVDash;");
    assert(is_ascii("&nVDash;"));
    reveal_strlit("&nVdash;");
    assert(is_ascii("&nVdash;"));
    reveal_strlit("&nabla;");
    assert(is_ascii("&nabla;"));
    reveal_strlit("&nacute;");
    assert(is_ascii("&nacute;"));
    reveal_strlit("&nang;");
    assert(is_ascii("&nang;"));
    reveal_strlit("&nap;");
    assert(is_ascii("&nap;"));
    reveal_strlit("&napE;");
    assert(is_ascii("&napE;"));
    reveal_strlit("&napid;");
    assert(is_ascii("&napid;"));
    assert(precedes_at(entry_name(table[8]), entry_name(table[9]), 2));
    assert(precedes_at(entry_name(table[9]), entry_name(table[10]), 3));
    assert(precedes_at(entry_name(table[10]), entry_name(table[11]), 2));
    assert(precedes_at(entry_name(table[11]), entry_name(table[12]), 3));
    assert(precedes_at(entry_name(table[12]), entry_name(table[13]), 3));
    assert(precedes_at(entry_name(table[13]), entry_name(table[14]), 3));
    assert(precedes_at(entry_name(table[14]), entry_name(table[15]), 4));
    assert(precedes_at(entry_name(table[15]), entry_name(table[16]), 4));
}

/// The names of `ENTITIES_LOWER_N` from entry 16 up to entry 24.
proof fn lemma_names_lower_n_from_16()
    ensures
        names_in_order(ENTITIES_LOWER_N@, 'n' as u8, 16, 24),
{
    broadcast use is_ascii_spec_bytes;

    reveal(precedes);
    let table = ENTITIES_LOWER_N@;
    reveal_strlit("&napid;");
    assert(is_ascii("&napid;"));
    reveal_strlit("&napos;");
    assert(is_ascii("&napos;"));
    reveal_strlit("&napprox;");
    assert(is_ascii("&napprox;"));
    reveal_strlit("&natur;");
    assert(is_ascii("&natur;"));
    reveal_strlit("&natural;");
    assert(is_ascii("&natural;"));
    reveal_strlit("&naturals;");
    assert(is_ascii("&naturals;"));
    reveal_strlit("&nbsp");
    assert(is_ascii("&nbsp"));
    reveal_strlit("&nbsp;");
    assert(is_ascii("&nbsp;"));
    reveal_strlit("&nbump;");
    assert(is_ascii("&nbump;"));
    assert(precedes_at(entry_name(table[16]), entry_name(table[17]), 4));
    assert(precedes_at(entry_name(table[17]), entry_name(table[18]), 4));
    assert(precedes_at(entry_name(table[18]), entry_name(table[19]), 3));
    assert(precedes_at(entry_name(table[19]), entry_name(table[20]), 6));
    assert(precedes_at(entry_name(table[20]), entry_name(table[21]), 8));
    assert(precedes_at(entry_name(table[21]), entry_name(table[22]), 2));
    assert(precedes_at(entry_name(table[22]), entry_name(table[23]), 5));
    assert(precedes_at(entry_name(table[23]), entry_name(table[24]), 3));
}

/// The names of `ENTITIES_LOWER_N` from entry 24 up to entry 32.
proof fn lemma_names_lower_n_from_24()
    ensures
        names_in_order(ENTITIES_LOWER_N@, 'n' as u8, 24, 32),
{
    broadcast use is_ascii_spec_bytes;

    reveal(precedes);
    let table = ENTITIES_LOWER_N@;
    reveal_strlit("&nbump;");
    assert(is_ascii("&nbump;"));
    reveal_strlit("&nbumpe;");
    assert(is_ascii("&nbumpe;"));
    reveal_strlit("&ncap;");
    assert(is_ascii("&ncap;"));
    reveal_strlit("&ncaron;");
    assert(is_ascii("&ncaron;"));
    reveal_strlit("&ncedil;");
    assert(is_ascii("&ncedil;"));
    reveal_strlit("&ncong;");
    assert(is_ascii("&ncong;"));
    reveal_strlit("&ncongdot;");
    assert(is_ascii("&ncongdot;"));
    reveal_strlit("&ncup;");
    assert(is_ascii("&ncup;"));
    reveal_strlit("&ncy;");
    assert(is_ascii("&ncy;"));
    assert(precedes_at(entry_name(table[24]), entry_name(table[25]), 6));
    assert(precedes_at(entry_name(table[25]), entry_name(table[26]), 2));
    assert(precedes_at(entry_name(table[26]), entry_name(table[27]), 4));
    assert(precedes_at(entry_name(table[27]), entry_name(table[28]), 3));
    assert(precedes_at(entry_name(table[28]), entry_name(table[29]), 3));
    assert(precedes_at(entry_name(table[29]), entry_name(table[30]), 6));
    assert(precedes_at(entry_name(table[30]), entry_name(table[31]), 3));
    assert(precedes_at(entry_name(table[31]), entry_name(table[32]), 3));
}

/// The names of `ENTITIES_LOWER_N` from entry 32 up to entry 40.
proof fn lemma_names_lower_n_from_32()
    ensures
        names_in_order(ENTITIES_LOWER_N@, 'n' as u8, 32, 40),
{
    broadcast use is_ascii_spec_bytes;

    reveal(precedes);
    let table = ENTITIES_LOWER_N@;
    reveal_strlit("&ncy;");
    assert(is_ascii("&ncy;"));
    reveal_strlit("&ndash;");
    assert(is_ascii("&ndash;"));
    reveal_strlit("&ne;");
    assert(is_ascii("&ne;"));
    reveal_strlit("&neArr;");
    assert(is_ascii("&neArr;"));
    reveal_strlit("&nearhk;");
    assert(is_ascii("&nearhk;"));
    reveal_strlit("&nearr;");
    assert(is_ascii("&nearr;"));
    reveal_strlit("&nearrow;");
    assert(is_ascii("&nearrow;"));
    reveal_strlit("&nedot;");
    assert(is_ascii("&nedot;"));
    reveal_strlit("&nequiv;");
    assert(is_ascii("&nequiv;"));
    assert(precedes_at(entry_name(table[32]), entry_name(table[33]), 2));
    assert(precedes_at(entry_name(table[33]), entry_name(table[34]), 2));
    assert(precedes_at(entry_name(table[34]), entry_name(table[35]), 3));
    assert(precedes_at(entry_name(table[35]), entry_name(table[36]), 3));
    assert(precedes_at(entry_name(table[36]), entry_name(table[37]), 5));
    assert(precedes_at(entry_name(table[37]), entry_name(table[38]), 6));
    assert(precedes_at(entry_name(table[38]), entry_name(table[39]), 3));
    assert(precedes_at(entry_name(table[39]), entry_name(table[40]), 3));
}

/// The names of `ENTITIES_LOWER_N` from entry 40 up to entry 48.
proof fn lemma_names_lower_n_from_40()
    ensures
        names_in_order(ENTITIES_LOWER_N@, 'n' as u8, 40, 48),
{
    broadcast use is_ascii_spec_bytes;

    reveal(precedes);
    let table = ENTITIES_LOWER_N@;
    reveal_strlit("&nequiv;");
    assert(is_ascii("&nequiv;"));
    reveal_strlit("&nesear;");
    assert(is_ascii("&nesear;"));
    reveal_strlit("&nesim;");
    assert(is_ascii("&nesim;"));
    reveal_strlit("&nexist;");
    assert(is_ascii("&nexist;"));
    reveal_strlit("&nexists;");
    assert(is_ascii("&nexists;"));
    reveal_strlit("&nfr;");
    assert(is_ascii("&nfr;"));
    reveal_strlit("&ngE;");
    assert(is_ascii("&ngE;"));
    reveal_strlit("&nge;");
    assert(is_ascii("&nge;"));
    reveal_strlit("&ngeq;");
    assert(is_ascii("&ngeq;"));
    assert(precedes_at(entry_name(table[40]), entry_name(table[41]), 3));
    assert(precedes_at(entry_name(table[41]), entry_name(table[42]), 4));
    assert(precedes_at(entry_name(table[42]), entry_name(table[43]), 3));
    assert(precedes_at(entry_name(table[43]), entry_name(table[44]), 7));
    assert(precedes_at(entry_name(table[44]), entry_name(table[45]), 2));
    assert(precedes_at(entry_name(table[45]), entry_name(table[46]), 2));
    assert(precedes_at(entry_name(table[46]), entry_name(table[47]), 3));
    assert(precedes_at(entry_name(table[47]), entry_name(table[48]), 4));
}

/// The names of `ENTITIES_LOWER_N` from entry 48 up to entry 56.
proof fn lemma_names_lower_n_from_48()
    ensures
        names_in_order(ENTITIES_LOWER_N@, 'n' as u8, 48, 56),
{
    broadcast use is_ascii_spec_bytes;

    reveal(precedes);
    let table = ENTITIES_LOWER_N@;
    reveal_strlit("&ngeq;");
    assert(is_ascii("&ngeq;"));
    reveal_strlit("&ngeqq;");
    assert(is_ascii("&ngeqq;"));
    reveal_strlit("&ngeqslant;");
    assert(is_ascii("&ngeqslant;"));
    reveal_strlit("&nges;");
    assert(is_ascii("&nges;"));
    reveal_strlit("&ngsim;");
    assert(is_ascii("&ngsim;"));
    reveal_strlit("&ngt;");
    assert(is_ascii("&ngt;"));
    reveal_strlit("&ngtr;");
    assert(is_ascii("&ngtr;"));
    reveal_strlit("&nhArr;");
    assert(is_ascii("&nhArr;"));
    reveal_strlit("&nharr;");
    assert(is_ascii("&nharr;"));
    assert(precedes_at(entry_name(table[48]), entry_name(table[49]), 5));
    assert(precedes_at(entry_name(table[49]), entry_name(table[50]), 5));
    assert(precedes_at(entry_name(table[50]), entry_name(table[51]), 4));
    assert(precedes_at(entry_name(table[51]), entry_name(table[52]), 3));
    assert(precedes_at(entry_name(table[52]), entry_name(table[53]), 3));
    assert(precedes_at(entry_name(table[53]), entry_name(table[54]), 4));
    assert(precedes_at(entry_name(table[54]), entry_name(table[55]), 2));
    assert(precedes_at(entry_name(table[55]), entry_name(table[56]), 3));
}

/// The names of `ENTITIES_LOWER_N` from entry 56 up to entry 64.
proof fn lemma_names_lower_n_from_56()
    ensures
        names_in_order(ENTITIES_LOWER_N@, 'n' as u8, 56, 64),
{
    broadcast use is_ascii_spec_bytes;

    reveal(precedes);
    let table = ENTITIES_LOWER_N@;
    reveal_strlit("&nharr;");
    assert(is_ascii("&nharr;"));
    reveal_strlit("&nhpar;");
    assert(is_ascii("&nhpar;"));
    reveal_strlit("&ni;");
    assert(is_ascii("&ni;"));
    reveal_strlit("&nis;");
    assert(is_ascii("&nis;"));
    reveal_strlit("&nisd;");
    assert(is_ascii("&nisd;"));
    reveal_strlit("&niv;");
    assert(is_ascii("&niv;"));
    reveal_strlit("&njcy;");
    assert(is_ascii("&njcy;"));
    reveal_strlit("&nlArr;");
    assert(is_ascii("&nlArr;"));
    reveal_strlit("&nlE;");
    assert(is_ascii("&nlE;"));
    assert(precedes_at(entry_name(table[56]), entry_name(table[57]), 3));
    assert(precedes_at(entry_name(table[57]), entry_name(table[58]), 2));
    assert(precedes_at(entry_name(table[58]), entry_name(table[59]), 3));
    assert(precedes_at(entry_name(table[59]), entry_name(table[60]), 4));
    assert(precedes_at(entry_name(table[60]), entry_name(table[61]), 3));
    assert(precedes_at(entry_name(table[61]), entry_name(table[62]), 2));
    assert(precedes_at(entry_name(table[62]), entry_name(table[63]), 2));
    assert(precedes_at(entry_name(table[63]), entry_name(table[64]), 3));
}

/// The names of `ENTITIES_LOWER_N` from entry 64 up to entry 72.
proof fn lemma_names_lower_n_from_64()
    ensures
        names_in_order(ENTITIES_LOWER_N@, 'n' as u8, 64, 72),
{
    broadcast use is_ascii_spec_bytes;

    reveal(precedes);
    let table = ENTITIES_LOWER_N@;
    reveal_strlit("&nlE;");
    assert(is_ascii("&nlE;"));
    reveal_strlit("&nlarr;");
    assert(is_ascii("&nlarr;"));
    reveal_strlit("&nldr;");
    assert(is_ascii("&nldr;"));
    reveal_strlit("&nle;");
    assert(is_ascii("&nle;"));
    reveal_strlit("&nleftarrow;");
    assert(is_ascii("&nleftarrow;"));
    reveal_strlit("&nleftrightarrow;");
    assert(is_ascii("&nleftrightarrow;"));
    reveal_strlit("&nleq;");
    assert(is_ascii("&nleq;"));
    reveal_strlit("&nleqq;");
    assert(is_ascii("&nleqq;"));
    reveal_strlit("&nleqslant;");
    assert(is_ascii("&nleqslant;"));
    assert(precedes_at(entry_name(table[64]), entry_name(table[65]), 3));
    assert(precedes_at(entry_name(table[65]), entry_name(table[66]), 3));
    assert(precedes_at(entry_name(table[66]), entry_name(table[67]), 3));
    assert(precedes_at(entry_name(table[67]), entry_name(table[68]), 4));
    assert(precedes_at(entry_name(table[68]), entry_name(table[69]), 6));
    assert(precedes_at(entry_name(table[69]), entry_name(table[70]), 4));
    assert(precedes_at(entry_name(table[70]), entry_name(table[71]), 5));
    assert(precedes_at(entry_name(table[71]), entry_name(table[72]), 5));
}

/// The names of `ENTITIES_LOWER_N` from entry 72 up to entry 80.
proof fn lemma_names_lower_n_from_72()
    ensures
        names_in_order(ENTITIES_LOWER_N@, 'n' as u8, 72, 80),
{
    broadcast use is_ascii_spec_bytes;

    reveal(precedes);
    let table = ENTITIES_LOWER_N@;
    reveal_strlit("&nleqslant;");
    assert(is_ascii("&nleqslant;"));
    reveal_strlit("&nles;");
    assert(is_ascii("&nles;"));
    reveal_strlit("&nless;");
    assert(is_ascii("&nless;"));
    reveal_strlit("&nlsim;");
    assert(is_ascii("&nlsim;"));
    reveal_strlit("&nlt;");
    assert(is_ascii("&nlt;"));
    reveal_strlit("&nltri;");
    assert(is_ascii("&nltri;"));
    reveal_strlit("&nltrie;");
    assert(is_ascii("&nltrie;"));
    reveal_strlit("&nmid;");
    assert(is_ascii("&nmid;"));
    reveal_strlit("&nopf;");
    assert(is_ascii("&nopf;"));
    assert(precedes_at(entry_name(table[72]), entry_name(table[73]), 4));
    assert(precedes_at(entry_name(table[73]), entry_name(table[74]), 5));
    assert(precedes_at(entry_name(table[74]), entry_name(table[75]), 3));
    assert(precedes_at(entry_name(table[75]), entry_name(table[76]), 3));
    assert(precedes_at(entry_name(table[76]), entry_name(table[77]), 4));
    assert(precedes_at(entry_name(table[77]), entry_name(table[78]), 6));
    assert(precedes_at(entry_name(table[78]), entry_name(table[79]), 2));
    assert(precedes_at(entry_name(table[79]), entry_name(table[80]), 2));
}

/// The names of `ENTITIES_LOWER_N` from entry 80 up to entry 88.
proof fn lemma_names_lower_n_from_80()
    ensures
        names_in_order(ENTITIES_LOWER_N@, 'n' as u8, 80, 88),
{
    broadcast use is_ascii_spec_bytes;

    reveal(precedes);
    let table = ENTITIES_LOWER_N@;
    reveal_strlit("&nopf;");
    assert(is_ascii("&nopf;"));
    reveal_strlit("&not");
    assert(is_ascii("&not"));
    reveal_strlit("&not;");
    assert(is_ascii("&not;"));
    reveal_strlit("&notin;");
    assert(is_ascii("&notin;"));
    reveal_strlit("&notinE;");
    assert(is_ascii("&notinE;"));
    reveal_strlit("&notindot;");
    assert(is_ascii("&notindot;"));
    reveal_strlit("&notinva;");
    assert(is_ascii("&notinva;"));
    reveal_strlit("&notinvb;");
    assert(is_ascii("&notinvb;"));
    reveal_strlit("&notinvc;");
    assert(is_ascii("&notinvc;"));
    assert(precedes_at(entry_name(table[80]), entry_name(table[81]), 3));
    assert(precedes_at(entry_name(table[81]), entry_name(table[82]), 4));
    assert(precedes_at(entry_name(table[82]), entry_name(table[83]), 4));
    assert(precedes_at(entry_name(table[83]), entry_name(table[84]), 6));
    assert(precedes_at(entry_name(table[84]), entry_name(table[85]), 6));
    assert(precedes_at(entry_name(table[85]), entry_name(table[86]), 6));
    assert(precedes_at(entry_name(table[86]), entry_name(table[87]), 7));
    assert(precedes_at(entry_name(table[87]), entry_name(table[88]), 7));
}

/// The names of `ENTITIES_LOWER_N` from entry 88 up to entry 96.
proof fn lemma_names_lower_n_from_88()
    ensures
        names_in_order(ENTITIES_LOWER_N@, 'n' as u8, 88, 96),
{
    broadcast use is_ascii_spec_bytes;

    reveal(precedes);
    let table = ENTITIES_LOWER_N@;
    reveal_strlit("&notinvc;");
    assert(is_ascii("&notinvc;"));
    reveal_strlit("&notni;");
    assert(is_ascii("&notni;"));
    reveal_strlit("&notniva;");
    assert(is_ascii("&notniva;"));
    reveal_strlit("&notnivb;");
    assert(is_ascii("&notnivb;"));
    reveal_strlit("&notnivc;");
    assert(is_ascii("&notnivc;"));
    reveal_strlit("&npar;");
    assert(is_ascii("&npar;"));
    reveal_strlit("&nparallel;");
    assert(is_ascii("&nparallel;"));
    reveal_strlit("&nparsl;");
    assert(is_ascii("&nparsl;"));
    reveal_strlit("&npart;");
    assert(is_ascii("&npart;"));
    assert(precedes_at(entry_name(table[88]), entry_name(table[89]), 4));
    assert(precedes_at(entry_name(table[89]), entry_name(table[90]), 6));
    assert(precedes_at(entry_name(table[90]), entry_name(table[91]), 7));
    assert(precedes_at(entry_name(table[91]), entry_name(table[92]), 7));
    assert(precedes_at(entry_name(table[92]), entry_name(table[93]), 2));
    assert(precedes_at(entry_name(table[93]), entry_name(table[94]), 5));
    assert(precedes_at(entry_name(table[94]), entry_name(table[95]), 5));
    assert(precedes_at(entry_name(table[95]), entry_name(table[96]), 5));
}

/// The names of `ENTITIES_LOWER_N` from entry 96 up to entry 104.
proof fn lemma_names_lower_n_from_96()
    ensures
        names_in_order(ENTITIES_LOWER_N@, 'n' as u8, 96, 104),
{
    broadcast use is_ascii_spec_bytes;

    reveal(precedes);
    let table = ENTITIES_LOWER_N@;
    reveal_strlit("&npart;");
    assert(is_ascii("&npart;"));
    reveal_strlit("&npolint;");
    assert(is_ascii("&npolint;"));
    reveal_strlit("&npr;");
    assert(is_ascii("&npr;"));
    reveal_strlit("&nprcue;");
    assert(is_ascii("&nprcue;"));
    reveal_strlit("&npre;");
    assert(is_ascii("&npre;"));
    reveal_strlit("&nprec;");
    assert(is_ascii("&nprec;"));
    reveal_strlit("&npreceq;");
    assert(is_ascii("&npreceq;"));
    reveal_strlit("&nrArr;");
    assert(is_ascii("&nrArr;"));
    reveal_strlit("&nrarr;");
    assert(is_ascii("&nrarr;"));
    assert(precedes_at(entry_name(table[96]), entry_name(table[97]), 3));
    assert(precedes_at(entry_name(table[97]), entry_name(table[98]), 3));
    assert(precedes_at(entry_name(table[98]), entry_name(table[99]), 4));
    assert(precedes_at(entry_name(table[99]), entry_name(table[100]), 4));
    assert(precedes_at(entry_name(table[100]), entry_name(table[101]), 5));
    assert(precedes_at(entry_name(table[101]), entry_name(table[102]), 6));
    assert(precedes_at(entry_name(table[102]), entry_name(table[103]), 2));
    assert(precedes_at(entry_name(table[103]), entry_name(table[104]), 3));
}

/// The names of `ENTITIES_LOWER_N` from entry 104 up to entry 112.
proof fn lemma_names_lower_n_from_104()
    ensures
        names_in_order(ENTITIES_LOWER_N@, 'n' as u8, 104, 112),
{
    broadcast use is_ascii_spec_bytes;

    reveal(precedes);
    let table = ENTITIES_LOWER_N@;
    reveal_strlit("&nrarr;");
    assert(is_ascii("&nrarr;"));
    reveal_strlit("&nrarrc;");
    assert(is_ascii("&nrarrc;"));
    reveal_strlit("&nrarrw;");
    assert(is_ascii("&nrarrw;"));
    reveal_strlit("&nrightarrow;");
    assert(is_ascii("&nrightarrow;"));
    reveal_strlit("&nrtri;");
    assert(is_ascii("&nrtri;"));
    reveal_strlit("&nrtrie;");
    assert(is_ascii("&nrtrie;"));
    reveal_strlit("&nsc;");
    assert(is_ascii("&nsc;"));
    reveal_strlit("&nsccue;");
    assert(is_ascii("&nsccue;"));
    reveal_strlit("&nsce;");
    assert(is_ascii("&nsce;"));
    assert(precedes_at(entry_name(table[104]), entry_name(table[105]), 6));
    assert(precedes_at(entry_name(table[105]), entry_name(table[106]), 6));
    assert(precedes_at(entry_name(table[106]), entry_name(table[107]), 3));
    assert(precedes_at(entry_name(table[107]), entry_name(table[108]), 3));
    assert(precedes_at(entry_name(table[108]), entry_name(table[109]), 6));
    assert(precedes_at(entry_name(table[109]), entry_name(table[110]), 2));
    assert(precedes_at(entry_name(table[110]), entry_name(table[111]), 4));
    assert(precedes_at(entry_name(table[111]), entry_name(table[112]), 4));
}

/// The names of `ENTITIES_LOWER_N` from entry 112 up to entry 120.
proof fn lemma_names_lower_n_from_112()
    ensures
        names_in_order(ENTITIES_LOWER_N@, 'n' as u8, 112, 120),
{
    broadcast use is_ascii_spec_bytes;

    reveal(precedes);
    let table = ENTITIES_LOWER_N@;
    reveal_strlit("&nsce;");
    assert(is_ascii("&nsce;"));
    reveal_strlit("&nscr;");
    assert(is_ascii("&nscr;"));
    reveal_strlit("&nshortmid;");
    assert(is_ascii("&nshortmid;"));
    reveal_strlit("&nshortparallel;");
    assert(is_ascii("&nshortparallel;"));
    reveal_strlit("&nsim;");
    assert(is_ascii("&nsim;"));
    reveal_strlit("&nsime;");
    assert(is_ascii("&nsime;"));
    reveal_strlit("&nsimeq;");
    assert(is_ascii("&nsimeq;"));
    reveal_strlit("&nsmid;");
    assert(is_ascii("&nsmid;"));
    reveal_strlit("&nspar;");
    assert(is_ascii("&nspar;"));
    assert(precedes_at(entry_name(table[112]), entry_name(table[113]), 4));
    assert(precedes_at(entry_name(table[113]), entry_name(table[114]), 3));
    assert(precedes_at(entry_name(table[114]), entry_name(table[115]), 7));
    assert(precedes_at(entry_name(table[115]), entry_name(table[116]), 3));
    assert(precedes_at(entry_name(table[116]), entry_name(table[117]), 5));
    assert(precedes_at(entry_name(table[117]), entry_name(table[118]), 6));
    assert(precedes_at(entry_name(table[118]), entry_name(table[119]), 3));
    assert(precedes_at(entry_name(table[119]), entry_name(table[120]), 3));
}

/// The names of `ENTITIES_LOWER_N` from entry 120 up to entry 128.
proof fn lemma_names_lower_n_from_120()
    ensures
        names_in_order(ENTITIES_LOWER_N@, 'n' as u8, 120, 128),
{
    broadcast use is_ascii_spec_bytes;

    reveal(precedes);
    let table = ENTITIES_LOWER_N@;
    reveal_strlit("&nspar;");
    assert(is_ascii("&nspar;"));
    reveal_strlit("&nsqsube;");
    assert(is_ascii("&nsqsube;"));
    reveal_strlit("&nsqsupe;");
    assert(is_ascii("&nsqsupe;"));
    reveal_strlit("&nsub;");
    assert(is_ascii("&nsub;"));
    reveal_strlit("&nsubE;");
    assert(is_ascii("&nsubE;"));
    reveal_strlit("&nsube;");
    assert(is_ascii("&nsube;"));
    reveal_strlit("&nsubset;");
    assert(is_ascii("&nsubset;"));
    reveal_strlit("&nsubseteq;");
    assert(is_ascii("&nsubseteq;"));
    reveal_strlit("&nsubseteqq;");
    assert(is_ascii("&nsubseteqq;"));
    assert(precedes_at(entry_name(table[120]), entry_name(table[121]), 3));
    assert(precedes_at(entry_name(table[121]), entry_name(table[122]), 6));
    assert(precedes_at(entry_name(table[122]), entry_name(table[123]), 3));
    assert(precedes_at(entry_name(table[123]), entry_name(table[124]), 5));
    assert(precedes_at(entry_name(table[124]), entry_name(table[125]), 5));
    assert(precedes_at(entry_name(table[125]), entry_name(table[126]), 5));
    assert(precedes_at(entry_name(table[126]), entry_name(table[127]), 8));
    assert(precedes_at(entry_name(table[127]), entry_name(table[128]), 10));
}

/// The names of `ENTITIES_LOWER_N` from entry 128 up to entry 136.
proof fn lemma_names_lower_n_from_128()
    ensures
        names_in_order(ENTITIES_LOWER_N@, 'n' as u8, 128, 136),
{
    broadcast use is_ascii_spec_bytes;

    reveal(precedes);
    let table = ENTITIES_LOWER_N@;
    reveal_strlit("&nsubseteqq;");
    assert(is_ascii("&nsubseteqq;"));
    reveal_strlit("&nsucc;");
    assert(is_ascii("&nsucc;"));
    reveal_strlit("&nsucceq;");
    assert(is_ascii("&nsucceq;"));
    reveal_strlit("&nsup;");
    assert(is_ascii("&nsup;"));
    reveal_strlit("&nsupE;");
    assert(is_ascii("&nsupE;"));
    reveal_strlit("&nsupe;");
    assert(is_ascii("&nsupe;"));
    reveal_strlit("&nsupset;");
    assert(is_ascii("&nsupset;"));
    reveal_strlit("&nsupseteq;");
    assert(is_ascii("&nsupseteq;"));
    reveal_strlit("&nsupseteqq;");
    assert(is_ascii("&nsupseteqq;"));
    assert(precedes_at(entry_name(table[128]), entry_name(table[129]), 4));
    assert(precedes_at(entry_name(table[129]), entry_name(table[130]), 6));
    assert(precedes_at(entry_name(table[130]), entry_name(table[131]), 4));
    assert(precedes_at(entry_name(table[131]), entry_name(table[132]), 5));
    assert(precedes_at(entry_name(table[132]), entry_name(table[133]), 5));
    assert(precedes_at(entry_name(table[133]), entry_name(table[134]), 5));
    assert(precedes_at(entry_name(table[134]), entry_name(table[135]), 8));
    assert(precedes_at(entry_name(table[135]), entry_name(table[136]), 10));
}

/// The names of `ENTITIES_LOWER_N` from entry 136 up to entry 144.
proof fn lemma_names_lower_n_from_136()
    ensures
        names_in_order(ENTITIES_LOWER_N@, 'n' as u8, 136, 144),
{
    broadcast use is_ascii_spec_bytes;

    reveal(precedes);
    let table = ENTITIES_LOWER_N@;
    reveal_strlit("&nsupseteqq;");
    assert(is_ascii("&nsupseteqq;"));
    reveal_strlit("&ntgl;");
    assert(is_ascii("&ntgl;"));
    reveal_strlit("&ntilde");
    assert(is_ascii("&ntilde"));
    reveal_strlit("&ntilde;");
    assert(is_ascii("&ntilde;"));
    reveal_strlit("&ntlg;");
    assert(is_ascii("&ntlg;"));
    reveal_strlit("&ntriangleleft;");
    assert(is_ascii("&ntriangleleft;"));
    reveal_strlit("&ntrianglelefteq;");
    assert(is_ascii("&ntrianglelefteq;"));
    reveal_strlit("&ntriangleright;");
    assert(is_ascii("&ntriangleright;"));
    reveal_strlit("&ntrianglerighteq;");
    assert(is_ascii("&ntrianglerighteq;"));
    assert(precedes_at(entry_name(table[136]), entry_name(table[137]), 2));
    assert(precedes_at(entry_name(table[137]), entry_name(table[138]), 3));
    assert(precedes_at(entry_name(table[138]), entry_name(table[139]), 7));
    assert(precedes_at(entry_name(table[139]), entry_name(table[140]), 3));
    assert(precedes_at(entry_name(table[140]), entry_name(table[141]), 3));
    assert(precedes_at(entry_name(table[141]), entry_name(table[142]), 14));
    assert(precedes_at(entry_name(table[142]), entry_name(table[143]), 10));
    assert(precedes_at(entry_name(table[143]), entry_name(table[144]), 15));
}

/// The names of `ENTITIES_LOWER_N` from entry 144 up to entry 152.
proof fn lemma_names_lower_n_from_144()
    ensures
        names_in_order(ENTITIES_LOWER_N@, 'n' as u8, 144, 152),
{
    broadcast use is_ascii_spec_bytes;

    reveal(precedes);
    let table = ENTITIES_LOWER_N@;
    reveal_strlit("&ntrianglerighteq;");
    assert(is_ascii("&ntrianglerighteq;"));
    reveal_strlit("&nu;");
    assert(is_ascii("&nu;"));
    reveal_strlit("&num;");
    assert(is_ascii("&num;"));
    reveal_strlit("&numero;");
    assert(is_ascii("&numero;"));
    reveal_strlit("&numsp;");
    assert(is_ascii("&numsp;"));
    reveal_strlit("&nvDash;");
    assert(is_ascii("&nvDash;"));
    reveal_strlit("&nvHarr;");
    assert(is_ascii("&nvHarr;"));
    reveal_strlit("&nvap;");
    assert(is_ascii("&nvap;"));
    reveal_strlit("&nvdash;");
    assert(is_ascii("&nvdash;"));
    assert(precedes_at(entry_name(table[144]), entry_name(table[145]), 2));
    assert(precedes_at(entry_name(table[145]), entry_name(table[146]), 3));
    assert(precedes_at(entry_name(table[146]), entry_name(table[147]), 4));
    assert(precedes_at(entry_name(table[147]), entry_name(table[148]), 4));
    assert(precedes_at(entry_name(table[148]), entry_name(table[149]), 2));
    assert(precedes_at(entry_name(table[149]), entry_name(table[150]), 3));
    assert(precedes_at(entry_name(table[150]), entry_name(table[151]), 3));
    assert(precedes_at(entry_name(table[151]), entry_name(table[152]), 3));
}

/// The names of `ENTITIES_LOWER_N` from entry 152 up to entry 160.
proof fn lemma_names_lower_n_from_152()
    ensures
        names_in_order(ENTITIES_LOWER_N@, 'n' as u8, 152, 160),
{
    broadcast use is_ascii_spec_bytes;

    reveal(precedes);
    let table = ENTITIES_LOWER_N@;
    reveal_strlit("&nvdash;");
    assert(is_ascii("&nvdash;"));
    reveal_strlit("&nvge;");
    assert(is_ascii("&nvge;"));
    reveal_strlit("&nvgt;");
    assert(is_ascii("&nvgt;"));
    reveal_strlit("&nvinfin;");
    assert(is_ascii("&nvinfin;"));
    reveal_strlit("&nvlArr;");
    assert(is_ascii("&nvlArr;"));
    reveal_strlit("&nvle;");
    assert(is_ascii("&nvle;"));
    reveal_strlit("&nvlt;");
    assert(is_ascii("&nvlt;"));
    reveal_strlit("&nvltrie;");
    assert(is_ascii("&nvltrie;"));
    reveal_strlit("&nvrArr;");
    assert(is_ascii("&nvrArr;"));
    assert(precedes_at(entry_name(table[152]), entry_name(table[153]), 3));
    assert(precedes_at(entry_name(table[153]), entry_name(table[154]), 4));
    assert(precedes_at(entry_name(table[154]), entry_name(table[155]), 3));
    assert(precedes_at(entry_name(table[155]), entry_name(table[156]), 3));
    assert(precedes_at(entry_name(table[156]), entry_name(table[157]), 4));
    assert(precedes_at(entry_name(table[157]), entry_name(table[158]), 4));
    assert(precedes_at(entry_name(table[158]), entry_name(table[159]), 5));
    assert(precedes_at(entry_name(table[159]), entry_name(table[160]), 3));
}

/// The names of `ENTITIES_LOWER_N` from entry 160 up to entry 168.
proof fn lemma_names_lower_n_from_160()
    ensures
        names_in_order(ENTITIES_LOWER_N@, 'n' as u8, 160, 168),
{
    broadcast use is_ascii_spec_bytes;

    reveal(precedes);
    let table = ENTITIES_LOWER_N@;
    reveal_strlit("&nvrArr;");
    assert(is_ascii("&nvrArr;"));
    reveal_strlit("&nvrtrie;");
    assert(is_ascii("&nvrtrie;"));
    reveal_strlit("&nvsim;");
    assert(is_ascii("&nvsim;"));
    reveal_strlit("&nwArr;");
    assert(is_ascii("&nwArr;"));
    reveal_strlit("&nwarhk;");
    assert(is_ascii("&nwarhk;"));
    reveal_strlit("&nwarr;");
    assert(is_ascii("&nwarr;"));
    reveal_strlit("&nwarrow;");
    assert(is_ascii("&nwarrow;"));
    reveal_strlit("&nwnear;");
    assert(is_ascii("&nwnear;"));
    assert(precedes_at(entry_name(table[160]), entry_name(table[161]), 4));
    assert(precedes_at(entry_name(table[161]), entry_name(table[162]), 3));
    assert(precedes_at(entry_name(table[162]), entry_name(table[163]), 2));
    assert(precedes_at(entry_name(table[163]), entry_name(table[164]), 3));
    assert(precedes_at(entry_name(table[164]), entry_name(table[165]), 5));
    assert(precedes_at(entry_name(table[165]), entry_name(table[166]), 6));
    assert(precedes_at(entry_name(table[166]), entry_name(table[167]), 3));
}

/// Every name in `ENTITIES_LOWER_N` starts with `&n` and has 3 to 33 bytes, and
/// each name comes before the next in the order of byte strings.
pub proof fn lemma_names_lower_n()
    ensures
        names_start_with(ENTITIES_LOWER_N@, 'n' as u8),
        names_ascend(ENTITIES_LOWER_N@),
{
    lemma_names_lower_n_from_0();
    lemma_names_lower_n_from_8();
    lemma_names_lower_n_from_16();
    lemma_names_lower_n_from_24();
    lemma_names_lower_n_from_32();
    lemma_names_lower_n_from_40();
    lemma_names_lower_n_from_48();
    lemma_names_lower_n_from_56();
    lemma_names_lower_n_from_64();
    lemma_names_lower_n_from_72();
    lemma_names_lower_n_from_80();
    lemma_names_lower_n_from_88();
    lemma_names_lower_n_from_96();
    lemma_names_lower_n_from_104();
    lemma_names_lower_n_from_112();
    lemma_names_lower_n_from_120();
    lemma_names_lower_n_from_128();
    lemma_names_lower_n_from_136();
    lemma_names_lower_n_from_144();
    lemma_names_lower_n_from_152();
    lemma_names_lower_n_from_160();
}

} // verus!
