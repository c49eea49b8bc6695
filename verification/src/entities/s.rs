//! The named character references that start with `S` or `s`.

use crate::entities::{names_in_order, names_start_with};
use crate::search::{entry_name, names_ascend, precedes, precedes_at, Entry};
use vstd::prelude::*;
use vstd::string::{is_ascii, is_ascii_spec_bytes};

verus! {

/// The named character references that start with `&S`, each with its
/// expansion, in the order of byte strings.
pub const ENTITIES_UPPER_S: [Entry; 40] = [
    ("&SHCHcy;", "\u{429}"),
    ("&SHcy;", "\u{428}"),
    ("&SOFTcy;", "\u{42c}"),
    ("&Sacute;", "\u{15a}"),
    ("&Sc;", "\u{2abc}"),
    ("&Scaron;", "\u{160}"),
    ("&Scedil;", "\u{15e}"),
    ("&Scirc;", "\u{15c}"),
    ("&Scy;", "\u{421}"),
    ("&Sfr;", "\u{1d516}"),
    ("&ShortDownArrow;", "\u{2193}"),
    ("&ShortLeftArrow;", "\u{2190}"),
    ("&ShortRightArrow;", "\u{2192}"),
    ("&ShortUpArrow;", "\u{2191}"),
    ("&Sigma;", "\u{3a3}"),
    ("&SmallCircle;", "\u{2218}"),
    ("&Sopf;", "\u{1d54a}"),
    ("&Sqrt;", "\u{221a}"),
    ("&Square;", "\u{25a1}"),
    ("&SquareIntersection;", "\u{2293}"),
    ("&SquareSubset;", "\u{228f}"),
    ("&SquareSubsetEqual;", "\u{2291}"),
    ("&SquareSuperset;", "\u{2290}"),
    ("&SquareSupersetEqual;", "\u{2292}"),
    ("&SquareUnion;", "\u{2294}"),
    ("&Sscr;", "\u{1d4ae}"),
    ("&Star;", "\u{22c6}"),
    ("&Sub;", "\u{22d0}"),
    ("&Subset;", "\u{22d0}"),
    ("&SubsetEqual;", "\u{2286}"),
    ("&Succeeds;", "\u{227b}"),
    ("&SucceedsEqual;", "\u{2ab0}"),
    ("&SucceedsSlantEqual;", "\u{227d}"),
    ("&SucceedsTilde;", "\u{227f}"),
    ("&SuchThat;", "\u{220b}"),
    ("&Sum;", "\u{2211}"),
    ("&Sup;", "\u{22d1}"),
    ("&Superset;", "\u{2283}"),
    ("&SupersetEqual;", "\u{2287}"),
    ("&Supset;", "\u{22d1}"),
];

/// The named character references that start with `&s`, each with its
/// expansion, in the order of byte strings.
pub const ENTITIES_LOWER_S: [Entry; 158] = [
    ("&sacute;", "\u{15b}"),
    ("&sbquo;", "\u{201a}"),
    ("&sc;", "\u{227b}"),
    ("&scE;", "\u{2ab4}"),
    ("&scap;", "\u{2ab8}"),
    ("&scaron;", "\u{161}"),
    ("&sccue;", "\u{227d}"),
    ("&sce;", "\u{2ab0}"),
    ("&scedil;", "\u{15f}"),
    ("&scirc;", "\u{15d}"),
    ("&scnE;", "\u{2ab6}"),
    ("&scnap;", "\u{2aba}"),
    ("&scnsim;", "\u{22e9}"),
    ("&scpolint;", "\u{2a13}"),
    ("&scsim;", "\u{227f}"),
    ("&scy;", "\u{441}"),
    ("&sdot;", "\u{22c5}"),
    ("&sdotb;", "\u{22a1}"),
    ("&sdote;", "\u{2a66}"),
    ("&seArr;", "\u{21d8}"),
    ("&searhk;", "\u{2925}"),
    ("&searr;", "\u{2198}"),
    ("&searrow;", "\u{2198}"),
    ("&sect", "\u{a7}"),
    ("&sect;", "\u{a7}"),
    ("&semi;", ";"),
    ("&seswar;", "\u{2929}"),
    ("&setminus;", "\u{2216}"),
    ("&setmn;", "\u{2216}"),
    ("&sext;", "\u{2736}"),
    ("&sfr;", "\u{1d530}"),
    ("&sfrown;", "\u{2322}"),
    ("&sharp;", "\u{266f}"),
    ("&shchcy;", "\u{449}"),
    ("&shcy;", "\u{448}"),
    ("&shortmid;", "\u{2223}"),
    ("&shortparallel;", "\u{2225}"),
    ("&shy", "\u{ad}"),
    ("&shy;", "\u{ad}"),
    ("&sigma;", "\u{3c3}"),
    ("&sigmaf;", "\u{3c2}"),
    ("&sigmav;", "\u{3c2}"),
    ("&sim;", "\u{223c}"),
    ("&simdot;", "\u{2a6a}"),
    ("&sime;", "\u{2243}"),
    ("&simeq;", "\u{2243}"),
    ("&simg;", "\u{2a9e}"),
    ("&simgE;", "\u{2aa0}"),
    ("&siml;", "\u{2a9d}"),
    ("&simlE;", "\u{2a9f}"),
    ("&simne;", "\u{2246}"),
    ("&simplus;", "\u{2a24}"),
    ("&simrarr;", "\u{2972}"),
    ("&slarr;", "\u{2190}"),
    ("&smallsetminus;", "\u{2216}"),
    ("&smashp;", "\u{2a33}"),
    ("&smeparsl;", "\u{29e4}"),
    ("&smid;", "\u{2223}"),
    ("&smile;", "\u{2323}"),
    ("&smt;", "\u{2aaa}"),
    ("&smte;", "\u{2aac}"),
    ("&smtes;", "\u{2aac}\u{fe00}"),
    ("&softcy;", "\u{44c}"),
    ("&sol;", "/"),
    ("&solb;", "\u{29c4}"),
    ("&solbar;", "\u{233f}"),
    ("&sopf;", "\u{1d564}"),
    ("&spades;", "\u{2660}"),
    ("&spadesuit;", "\u{2660}"),
    ("&spar;", "\u{2225}"),
    ("&sqcap;", "\u{2293}"),
    ("&sqcaps;", "\u{2293}\u{fe00}"),
    ("&sqcup;", "\u{2294}"),
    ("&sqcups;", "\u{2294}\u{fe00}"),
    ("&sqsub;", "\u{228f}"),
    ("&sqsube;", "\u{2291}"),
    ("&sqsubset;", "\u{228f}"),
    ("&sqsubseteq;", "\u{2291}"),
    ("&sqsup;", "\u{2290}"),
    ("&sqsupe;", "\u{2292}"),
    ("&sqsupset;", "\u{2290}"),
    ("&sqsupseteq;", "\u{2292}"),
    ("&squ;", "\u{25a1}"),
    ("&square;", "\u{25a1}"),
    ("&squarf;", "\u{25aa}"),
    ("&squf;", "\u{25aa}"),
    ("&srarr;", "\u{2192}"),
    ("&sscr;", "\u{1d4c8}"),
    ("&ssetmn;", "\u{2216}"),
    ("&ssmile;", "\u{2323}"),
    ("&sstarf;", "\u{22c6}"),
    ("&star;", "\u{2606}"),
    ("&starf;", "\u{2605}"),
    ("&straightepsilon;", "\u{3f5}"),
    ("&straightphi;", "\u{3d5}"),
    ("&strns;", "\u{af}"),
    ("&sub;", "\u{2282}"),
    ("&subE;", "\u{2ac5}"),
    ("&subdot;", "\u{2abd}"),
    ("&sube;", "\u{2286}"),
    ("&subedot;", "\u{2ac3}"),
    ("&submult;", "\u{2ac1}"),
    ("&subnE;", "\u{2acb}"),
    ("&subne;", "\u{228a}"),
    ("&subplus;", "\u{2abf}"),
    ("&subrarr;", "\u{2979}"),
    ("&subset;", "\u{2282}"),
    ("&subseteq;", "\u{2286}"),
    ("&subseteqq;", "\u{2ac5}"),
    ("&subsetneq;", "\u{228a}"),
    ("&subsetneqq;", "\u{2acb}"),
    ("&subsim;", "\u{2ac7}"),
    ("&subsub;", "\u{2ad5}"),
    ("&subsup;", "\u{2ad3}"),
    ("&succ;", "\u{227b}"),
    ("&succapprox;", "\u{2ab8}"),
    ("&succcurlyeq;", "\u{227d}"),
    ("&succeq;", "\u{2ab0}"),
    ("&succnapprox;", "\u{2aba}"),
    ("&succneqq;", "\u{2ab6}"),
    ("&succnsim;", "\u{22e9}"),
    ("&succsim;", "\u{227f}"),
    ("&sum;", "\u{2211}"),
    ("&sung;", "\u{266a}"),
    ("&sup1", "\u{b9}"),
    ("&sup1;", "\u{b9}"),
    ("&sup2", "\u{b2}"),
    ("&sup2;", "\u{b2}"),
    ("&sup3", "\u{b3}"),
    ("&sup3;", "\u{b3}"),
    ("&sup;", "\u{2283}"),
    ("&supE;", "\u{2ac6}"),
    ("&supdot;", "\u{2abe}"),
    ("&supdsub;", "\u{2ad8}"),
    ("&supe;", "\u{2287}"),
    ("&supedot;", "\u{2ac4}"),
    ("&suphsol;", "\u{27c9}"),
    ("&suphsub;", "\u{2ad7}"),
    ("&suplarr;", "\u{297b}"),
    ("&supmult;", "\u{2ac2}"),
    ("&supnE;", "\u{2acc}"),
    ("&supne;", "\u{228b}"),
    ("&supplus;", "\u{2ac0}"),
    ("&supset;", "\u{2283}"),
    ("&supseteq;", "\u{2287}"),
    ("&supseteqq;", "\u{2ac6}"),
    ("&supsetneq;", "\u{228b}"),
    ("&supsetneqq;", "\u{2acc}"),
    ("&supsim;", "\u{2ac8}"),
    ("&supsub;", "\u{2ad4}"),
    ("&supsup;", "\u{2ad6}"),
    ("&swArr;", "\u{21d9}"),
    ("&swarhk;", "\u{2926}"),
    ("&swarr;", "\u{2199}"),
    ("&swarrow;", "\u{2199}"),
    ("&swnwar;", "\u{292a}"),
    ("&szlig", "\u{df}"),
    ("&szlig;", "\u{df}"),
];

/// The names of `ENTITIES_UPPER_S` from entry 0 up to entry 8.
proof fn lemma_names_upper_s_from_0()
    ensures
        names_in_order(ENTITIES_UPPER_S@, 'S' as u8, 0, 8),
{
    broadcast use is_ascii_spec_bytes;

    reveal(precedes);
    let table = ENTITIES_UPPER_S@;
    reveal_strlit("&SHCHcy;");
    assert(is_ascii("&SHCHcy;"));
    reveal_strlit("&SHcy;");
    assert(is_ascii("&SHcy;"));
    reveal_strlit("&SOFTcy;");
    assert(is_ascii("&SOFTcy;"));
    reveal_strlit("&Sacute;");
    assert(is_ascii("&Sacute;"));
    reveal_strlit("&Sc;");
    assert(is_ascii("&Sc;"));
    reveal_strlit("&Scaron;");
    assert(is_ascii("&Scaron;"));
    reveal_strlit("&Scedil;");
    assert(is_ascii("&Scedil;"));
    reveal_strlit("&Scirc;");
    assert(is_ascii("&Scirc;"));
    reveal_strlit("&Scy;");
    assert(is_ascii("&Scy;"));
    assert(precedes_at(entry_name(table[0]), entry_name(table[1]), 3));
    assert(precedes_at(entry_name(table[1]), entry_name(table[2]), 2));
    assert(precedes_at(entry_name(table[2]), entry_name(table[3]), 2));
    assert(precedes_at(entry_name(table[3]), entry_name(table[4]), 2));
    assert(precedes_at(entry_name(table[4]), entry_name(table[5]), 3));
    assert(precedes_at(entry_name(table[5]), entry_name(table[6]), 3));
    assert(precedes_at(entry_name(table[6]), entry_name(table[7]), 3));
    assert(precedes_at(entry_name(table[7]), entry_name(table[8]), 3));
}

/// The names of `ENTITIES_UPPER_S` from entry 8 up to entry 16.
proof fn lemma_names_upper_s_from_8()
    ensures
        names_in_order(ENTITIES_UPPER_S@, 'S' as u8, 8, 16),
{
    broadcast use is_ascii_spec_bytes;

    reveal(precedes);
    let table = ENTITIES_UPPER_S@;
    reveal_strlit("&Scy;");
    assert(is_ascii("&Scy;"));
    reveal_strlit("&Sfr;");
    assert(is_ascii("&Sfr;"));
    reveal_strlit("&ShortDownArrow;");
    assert(is_ascii("&ShortDownArrow;"));
    reveal_strlit("&ShortLeftArrow;");
    assert(is_ascii("&ShortLeftArrow;"));
    reveal_strlit("&ShortRightArrow;");
    assert(is_ascii("&ShortRightArrow;"));
    reveal_strlit("&ShortUpArrow;");
    assert(is_ascii("&ShortUpArrow;"));
    reveal_strlit("&Sigma;");
    assert(is_ascii("&Sigma;"));
    reveal_strlit("&SmallCircle;");
    assert(is_ascii("&SmallCircle;"));
    reveal_strlit("&Sopf;");
    assert(is_ascii("&Sopf;"));
    assert(precedes_at(entry_name(table[8]), entry_name(table[9]), 2));
    assert(precedes_at(entry_name(table[9]), entry_name(table[10]), 2));
    assert(precedes_at(entry_name(table[10]), entry_name(table[11]), 6));
    assert(precedes_at(entry_name(table[11]), entry_name(table[12]), 6));
    assert(precedes_at(entry_name(table[12]), entry_name(table[13]), 6));
    assert(precedes_at(entry_name(table[13]), entry_name(table[14]), 2));
    assert(precedes_at(entry_name(table[14]), entry_name(table[15]), 2));
    assert(precedes_at(entry_name(table[15]), entry_name(table[16]), 2));
}

/// The names of `ENTITIES_UPPER_S` from entry 16 up to entry 24.
proof fn lemma_names_upper_s_from_16()
    ensures
        names_in_order(ENTITIES_UPPER_S@, 'S' as u8, 16, 24),
{
    broadcast use is_ascii_spec_bytes;

    reveal(precedes);
    let table = ENTITIES_UPPER_S@;
    reveal_strlit("&Sopf;");
    assert(is_ascii("&Sopf;"));
    reveal_strlit("&Sqrt;");
    assert(is_ascii("&Sqrt;"));
    reveal_strlit("&Square;");
    assert(is_ascii("&Square;"));
    reveal_strlit("&SquareIntersection;");
    assert(is_ascii("&SquareIntersection;"));
    reveal_strlit("&SquareSubset;");
    assert(is_ascii("&SquareSubset;"));
    reveal_strlit("&SquareSubsetEqual;");
    assert(is_ascii("&SquareSubsetEqual;"));
    reveal_strlit("&SquareSuperset;");
    assert(is_ascii("&SquareSuperset;"));
    reveal_strlit("&SquareSupersetEqual;");
    assert(is_ascii("&SquareSupersetEqual;"));
    reveal_strlit("&SquareUnion;");
    assert(is_ascii("&SquareUnion;"));
    assert(precedes_at(entry_name(table[16]), entry_name(table[17]), 2));
    assert(precedes_at(entry_name(table[17]), entry_name(table[18]), 3));
    assert(precedes_at(entry_name(table[18]), entry_name(table[19]), 7));
    assert(precedes_at(entry_name(table[19]), entry_name(table[20]), 7));
    assert(precedes_at(entry_name(table[20]), entry_name(table[21]), 13));
    assert(precedes_at(entry_name(table[21]), entry_name(table[22]), 9));
    assert(precedes_at(entry_name(table[22]), entry_name(table[23]), 15));
    assert(precedes_at(entry_name(table[23]), entry_name(table[24]), 7));
}

/// The names of `ENTITIES_UPPER_S` from entry 24 up to entry 32.
proof fn lemma_names_upper_s_from_24()
    ensures
        names_in_order(ENTITIES_UPPER_S@, 'S' as u8, 24, 32),
{
    broadcast use is_ascii_spec_bytes;

    reveal(precedes);
    let table = ENTITIES_UPPER_S@;
    reveal_strlit("&SquareUnion;");
    assert(is_ascii("&SquareUnion;"));
    reveal_strlit("&Sscr;");
    assert(is_ascii("&Sscr;"));
    reveal_strlit("&Star;");
    assert(is_ascii("&Star;"));
    reveal_strlit("&Sub;");
    assert(is_ascii("&Sub;"));
    reveal_strlit("&Subset;");
    assert(is_ascii("&Subset;"));
    reveal_strlit("&SubsetEqual;");
    assert(is_ascii("&SubsetEqual;"));
    reveal_strlit("&Succeeds;");
    assert(is_ascii("&Succeeds;"));
    reveal_strlit("&SucceedsEqual;");
    assert(is_ascii("&SucceedsEqual;"));
    reveal_strlit("&SucceedsSlantEqual;");
    assert(is_ascii("&SucceedsSlantEqual;"));
    assert(precedes_at(entry_name(table[24]), entry_name(table[25]), 2));
    assert(precedes_at(entry_name(table[25]), entry_name(table[26]), 2));
    assert(precedes_at(entry_name(table[26]), entry_name(table[27]), 2));
    assert(precedes_at(entry_name(table[27]), entry_name(table[28]), 4));
    assert(precedes_at(entry_name(table[28]), entry_name(table[29]), 7));
    assert(precedes_at(entry_name(table[29]), entry_name(table[30]), 3));
    assert(precedes_at(entry_name(table[30]), entry_name(table[31]), 9));
    assert(precedes_at(entry_name(table[31]), entry_name(table[32]), 9));
}

/// The names of `ENTITIES_UPPER_S` from entry 32 up to entry 40.
proof fn lemma_names_upper_s_from_32()
    ensures
        names_in_order(ENTITIES_UPPER_S@, 'S' as u8, 32, 40),
{
    broadcast use is_ascii_spec_bytes;

    reveal(precedes);
    let table = ENTITIES_UPPER_S@;
    reveal_strlit("&SucceedsSlantEqual;");
    assert(is_ascii("&SucceedsSlantEqual;"));
    reveal_strlit("&SucceedsTilde;");
    assert(is_ascii("&SucceedsTilde;"));
    reveal_strlit("&SuchThat;");
    assert(is_ascii("&SuchThat;"));
    reveal_strlit("&Sum;");
    assert(is_ascii("&Sum;"));
    reveal_strlit("&Sup;");
    assert(is_ascii("&Sup;"));
    reveal_strlit("&Superset;");
    assert(is_ascii("&Superset;"));
    reveal_strlit("&SupersetEqual;");
    assert(is_ascii("&SupersetEqual;"));
    reveal_strlit("&Supset;");
    assert(is_ascii("&Supset;"));
    assert(precedes_at(entry_name(table[32]), entry_name(table[33]), 9));
    assert(precedes_at(entry_name(table[33]), entry_name(table[34]), 4));
    assert(precedes_at(entry_name(table[34]), entry_name(table[35]), 3));
    assert(precedes_at(entry_name(table[35]), entry_name(table[36]), 3));
    assert(precedes_at(entry_name(table[36]), entry_name(table[37]), 4));
    assert(precedes_at(entry_name(table[37]), entry_name(table[38]), 9));
    assert(precedes_at(entry_name(table[38]), entry_name(table[39]), 4));
}

/// Every name in `ENTITIES_UPPER_S` starts with `&S` and has 3 to 33 bytes, and
/// each name comes before the next in the order of byte strings.
pub proof fn lemma_names_upper_s()
    ensures
        names_start_with(ENTITIES_UPPER_S@, 'S' as u8),
        names_ascend(ENTITIES_UPPER_S@),
{
    lemma_names_upper_s_from_0();
    lemma_names_upper_s_from_8();
    lemma_names_upper_s_from_16();
    lemma_names_upper_s_from_24();
    lemma_names_upper_s_from_32();
}

/// The names of `ENTITIES_LOWER_S` from entry 0 up to entry 8.
proof fn lemma_names_lower_s_from_0()
    ensures
        names_in_order(ENTITIES_LOWER_S@, 's' as u8, 0, 8),
{
    broadcast use is_ascii_spec_bytes;

    reveal(precedes);
    let table = ENTITIES_LOWER_S@;
    reveal_strlit("&sacute;");
    assert(is_ascii("&sacute;"));
    reveal_strlit("&sbquo;");
    assert(is_ascii("&sbquo;"));
    reveal_strlit("&sc;");
    assert(is_ascii("&sc;"));
    reveal_strlit("&scE;");
    assert(is_ascii("&scE;"));
    reveal_strlit("&scap;");
    assert(is_ascii("&scap;"));
    reveal_strlit("&scaron;");
    assert(is_ascii("&scaron;"));
    reveal_strlit("&sccue;");
    assert(is_ascii("&sccue;"));
    reveal_strlit("&sce;");
    assert(is_ascii("&sce;"));
    reveal_strlit("&scedil;");
    assert(is_ascii("&scedil;"));
    assert(precedes_at(entry_name(table[0]), entry_name(table[1]), 2));
    assert(precedes_at(entry_name(table[1]), entry_name(table[2]), 2));
    assert(precedes_at(entry_name(table[2]), entry_name(table[3]), 3));
    assert(precedes_at(entry_name(table[3]), entry_name(table[4]), 3));
    assert(precedes_at(entry_name(table[4]), entry_name(table[5]), 4));
    assert(precedes_at(entry_name(table[5]), entry_name(table[6]), 3));
    assert(precedes_at(entry_name(table[6]), entry_name(table[7]), 3));
    assert(precedes_at(entry_name(table[7]), entry_name(table[8]), 4));
}

/// The names of `ENTITIES_LOWER_S` from entry 8 up to entry 16.
proof fn lemma_names_lower_s_from_8()
    ensures
        names_in_order(ENTITIES_LOWER_S@, 's' as u8, 8, 16),
{
    broadcast use is_ascii_spec_bytes;

    reveal(precedes);
    let table = ENTITIES_LOWER_S@;
    reveal_strlit("&scedil;");
    assert(is_ascii("&scedil;"));
    reveal_strlit("&scirc;");
    assert(is_ascii("&scirc;"));
    reveal_strlit("&scnE;");
    assert(is_ascii("&scnE;"));
    reveal_strlit("&scnap;");
    assert(is_ascii("&scnap;"));
    reveal_strlit("&scnsim;");
    assert(is_ascii("&scnsim;"));
    reveal_strlit("&scpolint;");
    assert(is_ascii("&scpolint;"));
    reveal_strlit("&scsim;");
    assert(is_ascii("&scsim;"));
    reveal_strlit("&scy;");
    assert(is_ascii("&scy;"));
    reveal_strlit("&sdot;");
    assert(is_ascii("&sdot;"));
    assert(precedes_at(entry_name(table[8]), entry_name(table[9]), 3));
    assert(precedes_at(entry_name(table[9]), entry_name(table[10]), 3));
    assert(precedes_at(entry_name(table[10]), entry_name(table[11]), 4));
    assert(precedes_at(entry_name(table[11]), entry_name(table[12]), 4));
    assert(precedes_at(entry_name(table[12]), entry_name(table[13]), 3));
    assert(precedes_at(entry_name(table[13]), entry_name(table[14]), 3));
    assert(precedes_at(entry_name(table[14]), entry_name(table[15]), 3));
    assert(precedes_at(entry_name(table[15]), entry_name(table[16]), 2));
}

/// The names of `ENTITIES_LOWER_S` from entry 16 up to entry 24.
proof fn lemma_names_lower_s_from_16()
    ensures
        names_in_order(ENTITIES_LOWER_S@, 's' as u8, 16, 24),
{
    broadcast use is_ascii_spec_bytes;

    reveal(precedes);
    let table = ENTITIES_LOWER_S@;
    reveal_strlit("&sdot;");
    assert(is_ascii("&sdot;"));
    reveal_strlit("&sdotb;");
    assert(is_ascii("&sdotb;"));
    reveal_strlit("&sdote;");
    assert(is_ascii("&sdote;"));
    reveal_strlit("&seArr;");
    assert(is_ascii("&seArr;"));
    reveal_strlit("&searhk;");
    assert(is_ascii("&searhk;"));
    reveal_strlit("&searr;");
    assert(is_ascii("&searr;"));
    reveal_strlit("&searrow;");
    assert(is_ascii("&searrow;"));
    reveal_strlit("&sect");
    assert(is_ascii("&sect"));
    reveal_strlit("&sect;");
    assert(is_ascii("&sect;"));
    assert(precedes_at(entry_name(table[16]), entry_name(table[17]), 5));
    assert(precedes_at(entry_name(table[17]), entry_name(table[18]), 5));
    assert(precedes_at(entry_name(table[18]), entry_name(table[19]), 2));
    assert(precedes_at(entry_name(table[19]), entry_name(table[20]), 3));
    assert(precedes_at(entry_name(table[20]), entry_name(table[21]), 5));
    assert(precedes_at(entry_name(table[21]), entry_name(table[22]), 6));
    assert(precedes_at(entry_name(table[22]), entry_name(table[23]), 3));
    assert(precedes_at(entry_name(table[23]), entry_name(table[24]), 5));
}

/// The names of `ENTITIES_LOWER_S` from entry 24 up to entry 32.
proof fn lemma_names_lower_s_from_24()
    ensures
        names_in_order(ENTITIES_LOWER_S@, 's' as u8, 24, 32),
{
    broadcast use is_ascii_spec_bytes;

    reveal(precedes);
    let table = ENTITIES_LOWER_S@;
    reveal_strlit("&sect;");
    assert(is_ascii("&sect;"));
    reveal_strlit("&semi;");
    assert(is_ascii("&semi;"));
    reveal_strlit("&seswar;");
    assert(is_ascii("&seswar;"));
    reveal_strlit("&setminus;");
    assert(is_ascii("&setminus;"));
    reveal_strlit("&setmn;");
    assert(is_ascii("&setmn;"));
    reveal_strlit("&sext;");
    assert(is_ascii("&sext;"));
    reveal_strlit("&sfr;");
    assert(is_ascii("&sfr;"));
    reveal_strlit("&sfrown;");
    assert(is_ascii("&sfrown;"));
    reveal_strlit("&sharp;");
    assert(is_ascii("&sharp;"));
    assert(precedes_at(entry_name(table[24]), entry_name(table[25]), 3));
    assert(precedes_at(entry_name(table[25]), entry_name(table[26]), 3));
    assert(precedes_at(entry_name(table[26]), entry_name(table[27]), 3));
    assert(precedes_at(entry_name(table[27]), entry_name(table[28]), 5));
    assert(precedes_at(entry_name(table[28]), entry_name(table[29]), 3));
    assert(precedes_at(entry_name(table[29]), entry_name(table[30]), 2));
    assert(precedes_at(entry_name(table[30]), entry_name(table[31]), 4));
    assert(precedes_at(entry_name(table[31]), entry_name(table[32]), 2));
}

/// The names of `ENTITIES_LOWER_S` from entry 32 up to entry 40.
proof fn lemma_names_lower_s_from_32()
    ensures
        names_in_order(ENTITIES_LOWER_S@, 's' as u8, 32, 40),
{
    broadcast use is_ascii_spec_bytes;

    reveal(precedes);
    let table = ENTITIES_LOWER_S@;
    reveal_strlit("&sharp;");
    assert(is_ascii("&sharp;"));
    reveal_strlit("&shchcy;");
    assert(is_ascii("&shchcy;"));
    reveal_strlit("&shcy;");
    assert(is_ascii("&shcy;"));
    reveal_strlit("&shortmid;");
    assert(is_ascii("&shortmid;"));
    reveal_strlit("&shortparallel;");
    assert(is_ascii("&shortparallel;"));
    reveal_strlit("&shy");
    assert(is_ascii("&shy"));
    reveal_strlit("&shy;");
    assert(is_ascii("&shy;"));
    reveal_strlit("&sigma;");
    assert(is_ascii("&sigma;"));
    reveal_strlit("&sigmaf;");
    assert(is_ascii("&sigmaf;"));
    assert(precedes_at(entry_name(table[32]), entry_name(table[33]), 3));
    assert(precedes_at(entry_name(table[33]), entry_name(table[34]), 4));
    assert(precedes_at(entry_name(table[34]), entry_name(table[35]), 3));
    assert(precedes_at(entry_name(table[35]), entry_name(table[36]), 6));
    assert(precedes_at(entry_name(table[36]), entry_name(table[37]), 3));
    assert(precedes_at(entry_name(table[37]), entry_name(table[38]), 4));
    assert(precedes_at(entry_name(table[38]), entry_name(table[39]), 2));
    assert(precedes_at(entry_name(table[39]), entry_name(table[40]), 6));
}

/// The names of `ENTITIES_LOWER_S` from entry 40 up to entry 48.
proof fn lemma_names_lower_s_from_40()
    ensures
        names_in_order(ENTITIES_LOWER_S@, 's' as u8, 40, 48),
{
    broadcast use is_ascii_spec_bytes;

    reveal(precedes);
    let table = ENTITIES_LOWER_S@;
    reveal_strlit("&sigmaf;");
    assert(is_ascii("&sigmaf;"));
    reveal_strlit("&sigmav;");
    assert(is_ascii("&sigmav;"));
    reveal_strlit("&sim;");
    assert(is_ascii("&sim;"));
    reveal_strlit("&simdot;");
    assert(is_ascii("&simdot;"));
    reveal_strlit("&sime;");
    assert(is_ascii("&sime;"));
    reveal_strlit("&simeq;");
    assert(is_ascii("&simeq;"));
    reveal_strlit("&simg;");
    assert(is_ascii("&simg;"));
    reveal_strlit("&simgE;");
    assert(is_ascii("&simgE;"));
    reveal_strlit("&siml;");
    assert(is_ascii("&siml;"));
    assert(precedes_at(entry_name(table[40]), entry_name(table[41]), 6));
    assert(precedes_at(entry_name(table[41]), entry_name(table[42]), 3));
    assert(precedes_at(entry_name(table[42]), entry_name(table[43]), 4));
    assert(precedes_at(entry_name(table[43]), entry_name(table[44]), 4));
    assert(precedes_at(entry_name(table[44]), entry_name(table[45]), 5));
    assert(precedes_at(entry_name(table[45]), entry_name(table[46]), 4));
    assert(precedes_at(entry_name(table[46]), entry_name(table[47]), 5));
    assert(precedes_at(entry_name(table[47]), entry_name(table[48]), 4));
}

/// The names of `ENTITIES_LOWER_S` from entry 48 up to entry 56.
proof fn lemma_names_lower_s_from_48()
    ensures
        names_in_order(ENTITIES_LOWER_S@, 's' as u8, 48, 56),
{
    broadcast use is_ascii_spec_bytes;

    reveal(precedes);
    let table = ENTITIES_LOWER_S@;
    reveal_strlit("&siml;");
    assert(is_ascii("&siml;"));
    reveal_strlit("&simlE;");
    assert(is_ascii("&simlE;"));
    reveal_strlit("&simne;");
    assert(is_ascii("&simne;"));
    reveal_strlit("&simplus;");
    assert(is_ascii("&simplus;"));
    reveal_strlit("&simrarr;");
    assert(is_ascii("&simrarr;"));
    reveal_strlit("&slarr;");
    assert(is_ascii("&slarr;"));
    reveal_strlit("&smallsetminus;");
    assert(is_ascii("&smallsetminus;"));
    reveal_strlit("&smashp;");
    assert(is_ascii("&smashp;"));
    reveal_strlit("&smeparsl;");
    assert(is_ascii("&smeparsl;"));
    assert(precedes_at(entry_name(table[48]), entry_name(table[49]), 5));
    assert(precedes_at(entry_name(table[49]), entry_name(table[50]), 4));
    assert(precedes_at(entry_name(table[50]), entry_name(table[51]), 4));
    assert(precedes_at(entry_name(table[51]), entry_name(table[52]), 4));
    assert(precedes_at(entry_name(table[52]), entry_name(table[53]), 2));
    assert(precedes_at(entry_name(table[53]), entry_name(table[54]), 2));
    assert(precedes_at(entry_name(table[54]), entry_name(table[55]), 4));
    assert(precedes_at(entry_name(table[55]), entry_name(table[56]), 3));
}

/// The names of `ENTITIES_LOWER_S` from entry 56 up to entry 64.
proof fn lemma_names_lower_s_from_56()
    ensures
        names_in_order(ENTITIES_LOWER_S@, 's' as u8, 56, 64),
{
    broadcast use is_ascii_spec_bytes;

    reveal(precedes);
    let table = ENTITIES_LOWER_S@;
    reveal_strlit("&smeparsl;");
    assert(is_ascii("&smeparsl;"));
    reveal_strlit("&smid;");
    assert(is_ascii("&smid;"));
    reveal_strlit("&smile;");
    assert(is_ascii("&smile;"));
    reveal_strlit("&smt;");
    assert(is_ascii("&smt;"));
    reveal_strlit("&smte;");
    assert(is_ascii("&smte;"));
    reveal_strlit("&smtes;");
    assert(is_ascii("&smtes;"));
    reveal_strlit("&softcy;");
    assert(is_ascii("&softcy;"));
    reveal_strlit("&sol;");
    assert(is_ascii("&sol;"));
    reveal_strlit("&solb;");
    assert(is_ascii("&solb;"));
    assert(precedes_at(entry_name(table[56]), entry_name(table[57]), 3));
    assert(precedes_at(entry_name(table[57]), entry_name(table[58]), 4));
    assert(precedes_at(entry_name(table[58]), entry_name(table[59]), 3));
    assert(precedes_at(entry_name(table[59]), entry_name(table[60]), 4));
    assert(precedes_at(entry_name(table[60]), entry_name(table[61]), 5));
    assert(precedes_at(entry_name(table[61]), entry_name(table[62]), 2));
    assert(precedes_at(entry_name(table[62]), entry_name(table[63]), 3));
    assert(precedes_at(entry_name(table[63]), entry_name(table[64]), 4));
}

/// The names of `ENTITIES_LOWER_S` from entry 64 up to entry 72.
proof fn lemma_names_lower_s_from_64()
    ensures
        names_in_order(ENTITIES_LOWER_S@, 's' as u8, 64, 72),
{
    broadcast use is_ascii_spec_bytes;

    reveal(precedes);
    let table = ENTITIES_LOWER_S@;
    reveal_strlit("&solb;");
    assert(is_ascii("&solb;"));
    reveal_strlit("&solbar;");
    assert(is_ascii("&solbar;"));
    reveal_strlit("&sopf;");
    assert(is_ascii("&sopf;"));
    reveal_strlit("&spades;");
    assert(is_ascii("&spades;"));
    reveal_strlit("&spadesuit;");
    assert(is_ascii("&spadesuit;"));
    reveal_strlit("&spar;");
    assert(is_ascii("&spar;"));
    reveal_strlit("&sqcap;");
    assert(is_ascii("&sqcap;"));
    reveal_strlit("&sqcaps;");
    assert(is_ascii("&sqcaps;"));
    reveal_strlit("&sqcup;");
    assert(is_ascii("&sqcup;"));
    assert(precedes_at(entry_name(table[64]), entry_name(table[65]), 5));
    assert(precedes_at(entry_name(table[65]), entry_name(table[66]), 3));
    assert(precedes_at(entry_name(table[66]), entry_name(table[67]), 2));
    assert(precedes_at(entry_name(table[67]), entry_name(table[68]), 7));
    assert(precedes_at(entry_name(table[68]), entry_name(table[69]), 4));
    assert(precedes_at(entry_name(table[69]), entry_name(table[70]), 2));
    assert(precedes_at(entry_name(table[70]), entry_name(table[71]), 6));
    assert(precedes_at(entry_name(table[71]), entry_name(table[72]), 4));
}

/// The names of `ENTITIES_LOWER_S` from entry 72 up to entry 80.
proof fn lemma_names_lower_s_from_72()
    ensures
        names_in_order(ENTITIES_LOWER_S@, 's' as u8, 72, 80),
{
    broadcast use is_ascii_spec_bytes;

    reveal(precedes);
    let table = ENTITIES_LOWER_S@;
    reveal_strlit("&sqcup;");
    assert(is_ascii("&sqcup;"));
    reveal_strlit("&sqcups;");
    assert(is_ascii("&sqcups;"));
    reveal_strlit("&sqsub;");
    assert(is_ascii("&sqsub;"));
    reveal_strlit("&sqsube;");
    assert(is_ascii("&sqsube;"));
    reveal_strlit("&sqsubset;");
    assert(is_ascii("&sqsubset;"));
    reveal_strlit("&sqsubseteq;");
    assert(is_ascii("&sqsubseteq;"));
    reveal_strlit("&sqsup;");
    assert(is_ascii("&sqsup;"));
    reveal_strlit("&sqsupe;");
    assert(is_ascii("&sqsupe;"));
    reveal_strlit("&sqsupset;");
    assert(is_ascii("&sqsupset;"));
    assert(precedes_at(entry_name(table[72]), entry_name(table[73]), 6));
    assert(precedes_at(entry_name(table[73]), entry_name(table[74]), 3));
    assert(precedes_at(entry_name(table[74]), entry_name(table[75]), 6));
    assert(precedes_at(entry_name(table[75]), entry_name(table[76]), 6));
    assert(precedes_at(entry_name(table[76]), entry_name(table[77]), 9));
    assert(precedes_at(entry_name(table[77]), entry_name(table[78]), 5));
    assert(precedes_at(entry_name(table[78]), entry_name(table[79]), 6));
    assert(precedes_at(entry_name(table[79]), entry_name(table[80]), 6));
}

/// The names of `ENTITIES_LOWER_S` from entry 80 up to entry 88.
proof fn lemma_names_lower_s_from_80()
    ensures
        names_in_order(ENTITIES_LOWER_S@, 's' as u8, 80, 88),
{
    broadcast use is_ascii_spec_bytes;

    reveal(precedes);
    let table = ENTITIES_LOWER_S@;
    reveal_strlit("&sqsupset;");
    assert(is_ascii("&sqsupset;"));
    reveal_strlit("&sqsupseteq;");
    assert(is_ascii("&sqsupseteq;"));
    reveal_strlit("&squ;");
    assert(is_ascii("&squ;"));
    reveal_strlit("&square;");
    assert(is_ascii("&square;"));
    reveal_strlit("&squarf;");
    assert(is_ascii("&squarf;"));
    reveal_strlit("&squf;");
    assert(is_ascii("&squf;"));
    reveal_strlit("&srarr;");
    assert(is_ascii("&srarr;"));
    reveal_strlit("&sscr;");
    assert(is_ascii("&sscr;"));
    reveal_strlit("&ssetmn;");
    assert(is_ascii("&ssetmn;"));
    assert(precedes_at(entry_name(table[80]), entry_name(table[81]), 9));
    assert(precedes_at(entry_name(table[81]), entry_name(table[82]), 3));
    assert(precedes_at(entry_name(table[82]), entry_name(table[83]), 4));
    assert(precedes_at(entry_name(table[83]), entry_name(table[84]), 6));
    assert(precedes_at(entry_name(table[84]), entry_name(table[85]), 4));
    assert(precedes_at(entry_name(table[85]), entry_name(table[86]), 2));
    assert(precedes_at(entry_name(table[86]), entry_name(table[87]), 2));
    assert(precedes_at(entry_name(table[87]), entry_name(table[88]), 3));
}

/// The names of `ENTITIES_LOWER_S` from entry 88 up to entry 96.
proof fn lemma_names_lower_s_from_88()
    ensures
        names_in_order(ENTITIES_LOWER_S@, 's' as u8, 88, 96),
{
    broadcast use is_ascii_spec_bytes;

    reveal(precedes);
    let table = ENTITIES_LOWER_S@;
    reveal_strlit("&ssetmn;");
    assert(is_ascii("&ssetmn;"));
    reveal_strlit("&ssmile;");
    assert(is_ascii("&ssmile;"));
    reveal_strlit("&sstarf;");
    assert(is_ascii("&sstarf;"));
    reveal_strlit("&star;");
    assert(is_ascii("&star;"));
    reveal_strlit("&starf;");
    assert(is_ascii("&starf;"));
    reveal_strlit("&straightepsilon;");
    assert(is_ascii("&straightepsilon;"));
    reveal_strlit("&straightphi;");
    assert(is_ascii("&straightphi;"));
    reveal_strlit("&strns;");
    assert(is_ascii("&strns;"));
    reveal_strlit("&sub;");
    assert(is_ascii("&sub;"));
    assert(precedes_at(entry_name(table[88]), entry_name(table[89]), 3));
    assert(precedes_at(entry_name(table[89]), entry_name(table[90]), 3));
    assert(precedes_at(entry_name(table[90]), entry_name(table[91]), 2));
    assert(precedes_at(entry_name(table[91]), entry_name(table[92]), 5));
    assert(precedes_at(entry_name(table[92]), entry_name(table[93]), 3));
    assert(precedes_at(entry_name(table[93]), entry_name(table[94]), 9));
    assert(precedes_at(entry_name(table[94]), entry_name(table[95]), 4));
    assert(precedes_at(entry_name(table[95]), entry_name(table[96]), 2));
}

/// The names of `ENTITIES_LOWER_S` from entry 96 up to entry 104.
proof fn lemma_names_lower_s_from_96()
    ensures
        names_in_order(ENTITIES_LOWER_S@, 's' as u8, 96, 104),
{
    broadcast use is_ascii_spec_bytes;

    reveal(precedes);
    let table = ENTITIES_LOWER_S@;
    reveal_strlit("&sub;");
    assert(is_ascii("&sub;"));
    reveal_strlit("&subE;");
    assert(is_ascii("&subE;"));
    reveal_strlit("&subdot;");
    assert(is_ascii("&subdot;"));
    reveal_strlit("&sube;");
    assert(is_ascii("&sube;"));
    reveal_strlit("&subedot;");
    assert(is_ascii("&subedot;"));
    reveal_strlit("&submult;");
    assert(is_ascii("&submult;"));
    reveal_strlit("&subnE;");
    assert(is_ascii("&subnE;"));
    reveal_strlit("&subne;");
    assert(is_ascii("&subne;"));
    reveal_strlit("&subplus;");
    assert(is_ascii("&subplus;"));
    assert(precedes_at(entry_name(table[96]), entry_name(table[97]), 4));
    assert(precedes_at(entry_name(table[97]), entry_name(table[98]), 4));
    assert(precedes_at(entry_name(table[98]), entry_name(table[99]), 4));
    assert(precedes_at(entry_name(table[99]), entry_name(table[100]), 5));
    assert(precedes_at(entry_name(table[100]), entry_name(table[101]), 4));
    assert(precedes_at(entry_name(table[101]), entry_name(table[102]), 4));
    assert(precedes_at(entry_name(table[102]), entry_name(table[103]), 5));
    assert(precedes_at(entry_name(table[103]), entry_name(table[104]), 4));
}

/// The names of `ENTITIES_LOWER_S` from entry 104 up to entry 112.
proof fn lemma_names_lower_s_from_104()
    ensures
        names_in_order(ENTITIES_LOWER_S@, 's' as u8, 104, 112),
{
    broadcast use is_ascii_spec_bytes;

    reveal(precedes);
    let table = ENTITIES_LOWER_S@;
    reveal_strlit("&subplus;");
    assert(is_ascii("&subplus;"));
    reveal_strlit("&subrarr;");
    assert(is_ascii("&subrarr;"));
    reveal_strlit("&subset;");
    assert(is_ascii("&subset;"));
    reveal_strlit("&subseteq;");
    assert(is_ascii("&subseteq;"));
    reveal_strlit("&subseteqq;");
    assert(is_ascii("&subseteqq;"));
    reveal_strlit("&subsetneq;");
    assert(is_ascii("&subsetneq;"));
    reveal_strlit("&subsetneqq;");
    assert(is_ascii("&subsetneqq;"));
    reveal_strlit("&subsim;");
    assert(is_ascii("&subsim;"));
    reveal_strlit("&subsub;");
    assert(is_ascii("&subsub;"));
    assert(precedes_at(entry_name(table[104]), entry_name(table[105]), 4));
    assert(precedes_at(entry_name(table[105]), entry_name(table[106]), 4));
    assert(precedes_at(entry_name(table[106]), entry_name(table[107]), 7));
    assert(precedes_at(entry_name(table[107]), entry_name(table[108]), 9));
    assert(precedes_at(entry_name(table[108]), entry_name(table[109]), 7));
    assert(precedes_at(entry_name(table[109]), entry_name(table[110]), 10));
    assert(precedes_at(entry_name(table[110]), entry_name(table[111]), 5));
    assert(precedes_at(entry_name(table[111]), entry_name(table[112]), 5));
}

/// The names of `ENTITIES_LOWER_S` from entry 112 up to entry 120.
proof fn lemma_names_lower_s_from_112()
    ensures
        names_in_order(ENTITIES_LOWER_S@, 's' as u8, 112, 120),
{
    broadcast use is_ascii_spec_bytes;

    reveal(precedes);
    let table = ENTITIES_LOWER_S@;
    reveal_strlit("&subsub;");
    assert(is_ascii("&subsub;"));
    reveal_strlit("&subsup;");
    assert(is_ascii("&subsup;"));
    reveal_strlit("&succ;");
    assert(is_ascii("&succ;"));
    reveal_strlit("&succapprox;");
    assert(is_ascii("&succapprox;"));
    reveal_strlit("&succcurlyeq;");
    assert(is_ascii("&succcurlyeq;"));
    reveal_strlit("&succeq;");
    assert(is_ascii("&succeq;"));
    reveal_strlit("&succnapprox;");
    assert(is_ascii("&succnapprox;"));
    reveal_strlit("&succneqq;");
    assert(is_ascii("&succneqq;"));
    reveal_strlit("&succnsim;");
    assert(is_ascii("&succnsim;"));
    assert(precedes_at(entry_name(table[112]), entry_name(table[113]), 6));
    assert(precedes_at(entry_name(table[113]), entry_name(table[114]), 3));
    assert(precedes_at(entry_name(table[114]), entry_name(table[115]), 5));
    assert(precedes_at(entry_name(table[115]), entry_name(table[116]), 5));
    assert(precedes_at(entry_name(table[116]), entry_name(table[117]), 5));
    assert(precedes_at(entry_name(table[117]), entry_name(table[118]), 5));
    assert(precedes_at(entry_name(table[118]), entry_name(table[119]), 6));
    assert(precedes_at(entry_name(table[119]), entry_name(table[120]), 6));
}

/// The names of `ENTITIES_LOWER_S` from entry 120 up to entry 128.
proof fn lemma_names_lower_s_from_120()
    ensures
        names_in_order(ENTITIES_LOWER_S@, 's' as u8, 120, 128),
{
    broadcast use is_ascii_spec_bytes;

    reveal(precedes);
    let table = ENTITIES_LOWER_S@;
    reveal_strlit("&succnsim;");
    assert(is_ascii("&succnsim;"));
    reveal_strlit("&succsim;");
    assert(is_ascii("&succsim;"));
    reveal_strlit("&sum;");
    assert(is_ascii("&sum;"));
    reveal_strlit("&sung;");
    assert(is_ascii("&sung;"));
    reveal_strlit("&sup1");
    assert(is_ascii("&sup1"));
    reveal_strlit("&sup1;");
    assert(is_ascii("&sup1;"));
    reveal_strlit("&sup2");
    assert(is_ascii("&sup2"));
    reveal_strlit("&sup2;");
    assert(is_ascii("&sup2;"));
    reveal_strlit("&sup3");
    assert(is_ascii("&sup3"));
    assert(precedes_at(entry_name(table[120]), entry_name(table[121]), 5));
    assert(precedes_at(entry_name(table[121]), entry_name(table[122]), 3));
    assert(precedes_at(entry_name(table[122]), entry_name(table[123]), 3));
    assert(precedes_at(entry_name(table[123]), entry_name(table[124]), 3));
    assert(precedes_at(entry_name(table[124]), entry_name(table[125]), 5));
    assert(precedes_at(entry_name(table[125]), entry_name(table[126]), 4));
    assert(precedes_at(entry_name(table[126]), entry_name(table[127]), 5));
    assert(precedes_at(entry_name(table[127]), entry_name(table[128]), 4));
}

/// The names of `ENTITIES_LOWER_S` from entry 128 up to entry 136.
proof fn lemma_names_lower_s_from_128()
    ensures
        names_in_order(ENTITIES_LOWER_S@, 's' as u8, 128, 136),
{
    broadcast use is_ascii_spec_bytes;

    reveal(precedes);
    let table = ENTITIES_LOWER_S@;
    reveal_strlit("&sup3");
    assert(is_ascii("&sup3"));
    reveal_strlit("&sup3;");
    assert(is_ascii("&sup3;"));
    reveal_strlit("&sup;");
    assert(is_ascii("&sup;"));
    reveal_strlit("&supE;");
    assert(is_ascii("&supE;"));
    reveal_strlit("&supdot;");
    assert(is_ascii("&supdot;"));
    reveal_strlit("&supdsub;");
    assert(is_ascii("&supdsub;"));
    reveal_strlit("&supe;");
    assert(is_ascii("&supe;"));
    reveal_strlit("&supedot;");
    assert(is_ascii("&supedot;"));
    reveal_strlit("&suphsol;");
    assert(is_ascii("&suphsol;"));
    assert(precedes_at(entry_name(table[128]), entry_name(table[129]), 5));
    assert(precedes_at(entry_name(table[129]), entry_name(table[130]), 4));
    assert(precedes_at(entry_name(table[130]), entry_name(table[131]), 4));
    assert(precedes_at(entry_name(table[131]), entry_name(table[132]), 4));
    assert(precedes_at(entry_name(table[132]), entry_name(table[133]), 5));
    assert(precedes_at(entry_name(table[133]), entry_name(table[134]), 4));
    assert(precedes_at(entry_name(table[134]), entry_name(table[135]), 5));
    assert(precedes_at(entry_name(table[135]), entry_name(table[136]), 4));
}

/// The names of `ENTITIES_LOWER_S` from entry 136 up to entry 144.
proof fn lemma_names_lower_s_from_136()
    ensures
        names_in_order(ENTITIES_LOWER_S@, 's' as u8, 136, 144),
{
    broadcast use is_ascii_spec_bytes;

    reveal(precedes);
    let table = ENTITIES_LOWER_S@;
    reveal_strlit("&suphsol;");
    assert(is_ascii("&suphsol;"));
    reveal_strlit("&suphsub;");
    assert(is_ascii("&suphsub;"));
    reveal_strlit("&suplarr;");
    assert(is_ascii("&suplarr;"));
    reveal_strlit("&supmult;");
    assert(is_ascii("&supmult;"));
    reveal_strlit("&supnE;");
    assert(is_ascii("&supnE;"));
    reveal_strlit("&supne;");
    assert(is_ascii("&supne;"));
    reveal_strlit("&supplus;");
    assert(is_ascii("&supplus;"));
    reveal_strlit("&supset;");
    assert(is_ascii("&supset;"));
    reveal_strlit("&supseteq;");
    assert(is_ascii("&supseteq;"));
    assert(precedes_at(entry_name(table[136]), entry_name(table[137]), 6));
    assert(precedes_at(entry_name(table[137]), entry_name(table[138]), 4));
    assert(precedes_at(entry_name(table[138]), entry_name(table[139]), 4));
    assert(precedes_at(entry_name(table[139]), entry_name(table[140]), 4));
    assert(precedes_at(entry_name(table[140]), entry_name(table[141]), 5));
    assert(precedes_at(entry_name(table[141]), entry_name(table[142]), 4));
    assert(precedes_at(entry_name(table[142]), entry_name(table[143]), 4));
    assert(precedes_at(entry_name(table[143]), entry_name(table[144]), 7));
}

/// The names of `ENTITIES_LOWER_S` from entry 144 up to entry 152.
proof fn lemma_names_lower_s_from_144()
    ensures
        names_in_order(ENTITIES_LOWER_S@, 's' as u8, 144, 152),
{
    broadcast use is_ascii_spec_bytes;

    reveal(precedes);
    let table = ENTITIES_LOWER_S@;
    reveal_strlit("&supseteq;");
    assert(is_ascii("&supseteq;"));
    reveal_strlit("&supseteqq;");
    assert(is_ascii("&supseteqq;"));
    reveal_strlit("&supsetneq;");
    assert(is_ascii("&supsetneq;"));
    reveal_strlit("&supsetneqq;");
    assert(is_ascii("&supsetneqq;"));
    reveal_strlit("&supsim;");
    assert(is_ascii("&supsim;"));
    reveal_strlit("&supsub;");
    assert(is_ascii("&supsub;"));
    reveal_strlit("&supsup;");
    assert(is_ascii("&supsup;"));
    reveal_strlit("&swArr;");
    assert(is_ascii("&swArr;"));
    reveal_strlit("&swarhk;");
    assert(is_ascii("&swarhk;"));
    assert(precedes_at(entry_name(table[144]), entry_name(table[145]), 9));
    assert(precedes_at(entry_name(table[145]), entry_name(table[146]), 7));
    assert(precedes_at(entry_name(table[146]), entry_name(table[147]), 10));
    assert(precedes_at(entry_name(table[147]), entry_name(table[148]), 5));
    assert(precedes_at(entry_name(table[148]), entry_name(table[149]), 5));
    assert(precedes_at(entry_name(table[149]), entry_name(table[150]), 6));
    assert(precedes_at(entry_name(table[150]), entry_name(table[151]), 2));
    assert(precedes_at(entry_name(table[151]), entry_name(table[152]), 3));
}

/// The names of `ENTITIES_LOWER_S` from entry 152 up to entry 158.
proof fn lemma_names_lower_s_from_152()
    ensures
        names_in_order(ENTITIES_LOWER_S@, 's' as u8, 152, 158),
{
    broadcast use is_ascii_spec_bytes;

    reveal(precedes);
    let table = ENTITIES_LOWER_S@;
    reveal_strlit("&swarhk;");
    assert(is_ascii("&swarhk;"));
    reveal_strlit("&swarr;");
    assert(is_ascii("&swarr;"));
    reveal_strlit("&swarrow;");
    assert(is_ascii("&swarrow;"));
    reveal_strlit("&swnwar;");
    assert(is_ascii("&swnwar;"));
    reveal_strlit("&szlig");
    assert(is_ascii("&szlig"));
    reveal_strlit("&szlig;");
    assert(is_ascii("&szlig;"));
    assert(precedes_at(entry_name(table[152]), entry_name(table[153]), 5));
    assert(precedes_at(entry_name(table[153]), entry_name(table[154]), 6));
    assert(precedes_at(entry_name(table[154]), entry_name(table[155]), 3));
    assert(precedes_at(entry_name(table[155]), entry_name(table[156]), 2));
    assert(precedes_at(entry_name(table[156]), entry_name(table[157]), 6));
}

/// Every name in `ENTITIES_LOWER_S` starts with `&s` and has 3 to 33 bytes, and
/// each name comes before the next in the order of byte strings.
pub proof fn lemma_names_lower_s()
    ensures
        names_start_with(ENTITIES_LOWER_S@, 's' as u8),
        names_ascend(ENTITIES_LOWER_S@),
{
    lemma_names_lower_s_from_0();
    lemma_names_lower_s_from_8();
    lemma_names_lower_s_from_16();
    lemma_names_lower_s_from_24();
    lemma_names_lower_s_from_32();
    lemma_names_lower_s_from_40();
    lemma_names_lower_s_from_48();
    lemma_names_lower_s_from_56();
    lemma_names_lower_s_from_64();
    lemma_names_lower_s_from_72();
    lemma_names_lower_s_from_80();
    lemma_names_lower_s_from_88();
    lemma_names_lower_s_from_96();
    lemma_names_lower_s_from_104();
    lemma_names_lower_s_from_112();
    lemma_names_lower_s_from_120();
    lemma_names_lower_s_from_128();
    lemma_names_lower_s_from_136();
    lemma_names_lower_s_from_144();
    lemma_names_lower_s_from_152();
}

} // verus!
