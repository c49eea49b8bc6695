//! The named character references that start with `C` or `c`.

use crate::entities::{names_in_order, names_start_with};
use crate::search::{entry_name, names_ascend, precedes, precedes_at, Entry};
use vstd::prelude::*;
use vstd::string::{is_ascii, is_ascii_spec_bytes};

verus! {

/// The named character references that start with `&C`, each with its
/// expansion, in the order of byte strings.
pub const ENTITIES_UPPER_C: [Entry; 36] = [
    ("&CHcy;", "\u{427}"),
    ("&COPY", "\u{a9}"),
    ("&COPY;", "\u{a9}"),
    ("&Cacute;", "\u{106}"),
    ("&Cap;", "\u{22d2}"),
    ("&CapitalDifferentialD;", "\u{2145}"),
    ("&Cayleys;", "\u{212d}"),
    ("&Ccaron;", "\u{10c}"),
    ("&Ccedil", "\u{c7}"),
    ("&Ccedil;", "\u{c7}"),
    ("&Ccirc;", "\u{108}"),
    ("&Cconint;", "\u{2230}"),
    ("&Cdot;", "\u{10a}"),
    ("&Cedilla;", "\u{b8}"),
    ("&CenterDot;", "\u{b7}"),
    ("&Cfr;", "\u{212d}"),
    ("&Chi;", "\u{3a7}"),
    ("&CircleDot;", "\u{2299}"),
    ("&CircleMinus;", "\u{2296}"),
    ("&CirclePlus;", "\u{2295}"),
    ("&CircleTimes;", "\u{2297}"),
    ("&ClockwiseContourIntegral;", "\u{2232}"),
    ("&CloseCurlyDoubleQuote;", "\u{201d}"),
    ("&CloseCurlyQuote;", "\u{2019}"),
    ("&Colon;", "\u{2237}"),
    ("&Colone;", "\u{2a74}"),
    ("&Congruent;", "\u{2261}"),
    ("&Conint;", "\u{222f}"),
    ("&ContourIntegral;", "\u{222e}"),
    ("&Copf;", "\u{2102}"),
    ("&Coproduct;", "\u{2210}"),
    ("&CounterClockwiseContourIntegral;", "\u{2233}"),
    ("&Cross;", "\u{2a2f}"),
    ("&Cscr;", "\u{1d49e}"),
    ("&Cup;", "\u{22d3}"),
    ("&CupCap;", "\u{224d}"),
];

/// The named character references that start with `&c`, each with its
/// expansion, in the order of byte strings.
pub const ENTITIES_LOWER_C: [Entry; 99] = [
    ("&cacute;", "\u{107}"),
    ("&cap;", "\u{2229}"),
    ("&capand;", "\u{2a44}"),
    ("&capbrcup;", "\u{2a49}"),
    ("&capcap;", "\u{2a4b}"),
    ("&capcup;", "\u{2a47}"),
    ("&capdot;", "\u{2a40}"),
    ("&caps;", "\u{2229}\u{fe00}"),
    ("&caret;", "\u{2041}"),
    ("&caron;", "\u{2c7}"),
    ("&ccaps;", "\u{2a4d}"),
    ("&ccaron;", "\u{10d}"),
    ("&ccedil", "\u{e7}"),
    ("&ccedil;", "\u{e7}"),
    ("&ccirc;", "\u{109}"),
    ("&ccups;", "\u{2a4c}"),
    ("&ccupssm;", "\u{2a50}"),
    ("&cdot;", "\u{10b}"),
    ("&cedil", "\u{b8}"),
    ("&cedil;", "\u{b8}"),
    ("&cemptyv;", "\u{29b2}"),
    ("&cent", "\u{a2}"),
    ("&cent;", "\u{a2}"),
    ("&centerdot;", "\u{b7}"),
    ("&cfr;", "\u{1d520}"),
    ("&chcy;", "\u{447}"),
    ("&check;", "\u{2713}"),
    ("&checkmark;", "\u{2713}"),
    ("&chi;", "\u{3c7}"),
    ("&cir;", "\u{25cb}"),
    ("&cirE;", "\u{29c3}"),
    ("&circ;", "\u{2c6}"),
    ("&circeq;", "\u{2257}"),
    ("&circlearrowleft;", "\u{21ba}"),
    ("&circlearrowright;", "\u{21bb}"),
    ("&circledR;", "\u{ae}"),
    ("&circledS;", "\u{24c8}"),
    ("&circledast;", "\u{229b}"),
    ("&circledcirc;", "\u{229a}"),
    ("&circleddash;", "\u{229d}"),
    ("&cire;", "\u{2257}"),
    ("&cirfnint;", "\u{2a10}"),
    ("&cirmid;", "\u{2aef}"),
    ("&cirscir;", "\u{29c2}"),
    ("&clubs;", "\u{2663}"),
    ("&clubsuit;", "\u{2663}"),
    ("&colon;", ":"),
    ("&colone;", "\u{2254}"),
    ("&coloneq;", "\u{2254}"),
    ("&comma;", ","),
    ("&commat;", "@"),
    ("&comp;", "\u{2201}"),
    ("&compfn;", "\u{2218}"),
    ("&complement;", "\u{2201}"),
    ("&complexes;", "\u{2102}"),
    ("&cong;", "\u{2245}"),
    ("&congdot;", "\u{2a6d}"),
    ("&conint;", "\u{222e}"),
    ("&copf;", "\u{1d554}"),
    ("&coprod;", "\u{2210}"),
    ("&copy", "\u{a9}"),
    ("&copy;", "\u{a9}"),
    ("&copysr;", "\u{2117}"),
    ("&crarr;", "\u{21b5}"),
    ("&cross;", "\u{2717}"),
    ("&cscr;", "\u{1d4b8}"),
    ("&csub;", "\u{2acf}"),
    ("&csube;", "\u{2ad1}"),
    ("&csup;", "\u{2ad0}"),
    ("&csupe;", "\u{2ad2}"),
    ("&ctdot;", "\u{22ef}"),
    ("&cudarrl;", "\u{2938}"),
    ("&cudarrr;", "\u{2935}"),
    ("&cuepr;", "\u{22de}"),
    ("&cuesc;", "\u{22df}"),
    ("&cularr;", "\u{21b6}"),
    ("&cularrp;", "\u{293d}"),
    ("&cup;", "\u{222a}"),
    ("&cupbrcap;", "\u{2a48}"),
    ("&cupcap;", "\u{2a46}"),
    ("&cupcup;", "\u{2a4a}"),
    ("&cupdot;", "\u{228d}"),
    ("&cupor;", "\u{2a45}"),
    ("&cups;", "\u{222a}\u{fe00}"),
    ("&curarr;", "\u{21b7}"),
    ("&curarrm;", "\u{293c}"),
    ("&curlyeqprec;", "\u{22de}"),
    ("&curlyeqsucc;", "\u{22df}"),
    ("&curlyvee;", "\u{22ce}"),
    ("&curlywedge;", "\u{22cf}"),
    ("&curren", "\u{a4}"),
    ("&curren;", "\u{a4}"),
    ("&curvearrowleft;", "\u{21b6}"),
    ("&curvearrowright;", "\u{21b7}"),
    ("&cuvee;", "\u{22ce}"),
    ("&cuwed;", "\u{22cf}"),
    ("&cwconint;", "\u{2232}"),
    ("&cwint;", "\u{2231}"),
    ("&cylcty;", "\u{232d}"),
];

/// The names of `ENTITIES_UPPER_C` from entry 0 up to entry 8.
proof fn lemma_names_upper_c_from_0()
    ensures
        names_in_order(ENTITIES_UPPER_C@, 'C' as u8, 0, 8),
{
    broadcast use is_ascii_spec_bytes;

    reveal(precedes);
    let table = ENTITIES_UPPER_C@;
    reveal_strlit("&CHcy;");
    assert(is_ascii("&CHcy;"));
    reveal_strlit("&COPY");
    assert(is_ascii("&COPY"));
    reveal_strlit("&COPY;");
    assert(is_ascii("&COPY;"));
    reveal_strlit("&Cacute;");
    assert(is_ascii("&Cacute;"));
    reveal_strlit("&Cap;");
    assert(is_ascii("&Cap;"));
    reveal_strlit("&CapitalDifferentialD;");
    assert(is_ascii("&CapitalDifferentialD;"));
    reveal_strlit("&Cayleys;");
    assert(is_ascii("&Cayleys;"));
    reveal_strlit("&Ccaron;");
    assert(is_ascii("&Ccaron;"));
    reveal_strlit("&Ccedil");
    assert(is_ascii("&Ccedil"));
    assert(precedes_at(entry_name(table[0]), entry_name(table[1]), 2));
    assert(precedes_at(entry_name(table[1]), entry_name(table[2]), 5));
    assert(precedes_at(entry_name(table[2]), entry_name(table[3]), 2));
    assert(precedes_at(entry_name(table[3]), entry_name(table[4]), 3));
    assert(precedes_at(entry_name(table[4]), entry_name(table[5]), 4));
    assert(precedes_at(entry_name(table[5]), entry_name(table[6]), 3));
    assert(precedes_at(entry_name(table[6]), entry_name(table[7]), 2));
    assert(precedes_at(entry_name(table[7]), entry_name(table[8]), 3));
}

/// The names of `ENTITIES_UPPER_C` from entry 8 up to entry 16.
proof fn lemma_names_upper_c_from_8()
    ensures
        names_in_order(ENTITIES_UPPER_C@, 'C' as u8, 8, 16),
{
    broadcast use is_ascii_spec_bytes;

    reveal(precedes);
    let table = ENTITIES_UPPER_C@;
    reveal_strlit("&Ccedil");
    assert(is_ascii("&Ccedil"));
    reveal_strlit("&Ccedil;");
    assert(is_ascii("&Ccedil;"));
    reveal_strlit("&Ccirc;");
    assert(is_ascii("&Ccirc;"));
    reveal_strlit("&Cconint;");
    assert(is_ascii("&Cconint;"));
    reveal_strlit("&Cdot;");
    assert(is_ascii("&Cdot;"));
    reveal_strlit("&Cedilla;");
    assert(is_ascii("&Cedilla;"));
    reveal_strlit("&CenterDot;");
    assert(is_ascii("&CenterDot;"));
    reveal_strlit("&Cfr;");
    assert(is_ascii("&Cfr;"));
    reveal_strlit("&Chi;");
    assert(is_ascii("&Chi;"));
    assert(precedes_at(entry_name(table[8]), entry_name(table[9]), 7));
    assert(precedes_at(entry_name(table[9]), entry_name(table[10]), 3));
    assert(precedes_at(entry_name(table[10]), entry_name(table[11]), 3));
    assert(precedes_at(entry_name(table[11]), entry_name(table[12]), 2));
    assert(precedes_at(entry_name(table[12]), entry_name(table[13]), 2));
    assert(precedes_at(entry_name(table[13]), entry_name(table[14]), 3));
    assert(precedes_at(entry_name(table[14]), entry_name(table[15]), 2));
    assert(precedes_at(entry_name(table[15]), entry_name(table[16]), 2));
}

/// The names of `ENTITIES_UPPER_C` from entry 16 up to entry 24.
proof fn lemma_names_upper_c_from_16()
    ensures
        names_in_order(ENTITIES_UPPER_C@, 'C' as u8, 16, 24),
{
    broadcast use is_ascii_spec_bytes;

    reveal(precedes);
    let table = ENTITIES_UPPER_C@;
    reveal_strlit("&Chi;");
    assert(is_ascii("&Chi;"));
    reveal_strlit("&CircleDot;");
    assert(is_ascii("&CircleDot;"));
    reveal_strlit("&CircleMinus;");
    assert(is_ascii("&CircleMinus;"));
    reveal_strlit("&CirclePlus;");
    assert(is_ascii("&CirclePlus;"));
    reveal_strlit("&CircleTimes;");
    assert(is_ascii("&CircleTimes;"));
    reveal_strlit("&ClockwiseContourIntegral;");
    assert(is_ascii("&ClockwiseContourIntegral;"));
    reveal_strlit("&CloseCurlyDoubleQuote;");
    assert(is_ascii("&CloseCurlyDoubleQuote;"));
    reveal_strlit("&CloseCurlyQuote;");
    assert(is_ascii("&CloseCurlyQuote;"));
    reveal_strlit("&Colon;");
    assert(is_ascii("&Colon;"));
    assert(precedes_at(entry_name(table[16]), entry_name(table[17]), 2));
    assert(precedes_at(entry_name(table[17]), entry_name(table[18]), 7));
    assert(precedes_at(entry_name(table[18]), entry_name(table[19]), 7));
    assert(precedes_at(entry_name(table[19]), entry_name(table[20]), 7));
    assert(precedes_at(entry_name(table[20]), entry_name(table[21]), 2));
    assert(precedes_at(entry_name(table[21]), entry_name(table[22]), 4));
    assert(precedes_at(entry_name(table[22]), entry_name(table[23]), 11));
    assert(precedes_at(entry_name(table[23]), entry_name(table[24]), 2));
}

/// The names of `ENTITIES_UPPER_C` from entry 24 up to entry 32.
proof fn lemma_names_upper_c_from_24()
    ensures
        names_in_order(ENTITIES_UPPER_C@, 'C' as u8, 24, 32),
{
    broadcast use is_ascii_spec_bytes;

    reveal(precedes);
    let table = ENTITIES_UPPER_C@;
    reveal_strlit("&Colon;");
    assert(is_ascii("&Colon;"));
    reveal_strlit("&Colone;");
    assert(is_ascii("&Colone;"));
    reveal_strlit("&Congruent;");
    assert(is_ascii("&Congruent;"));
    reveal_strlit("&Conint;");
    assert(is_ascii("&Conint;"));
    reveal_strlit("&ContourIntegral;");
    assert(is_ascii("&ContourIntegral;"));
    reveal_strlit("&Copf;");
    assert(is_ascii("&Copf;"));
    reveal_strlit("&Coproduct;");
    assert(is_ascii("&Coproduct;"));
    reveal_strlit("&CounterClockwiseContourIntegral;");
    assert(is_ascii("&CounterClockwiseContourIntegral;"));
    reveal_strlit("&Cross;");
    assert(is_ascii("&Cross;"));
    assert(precedes_at(entry_name(table[24]), entry_name(table[25]), 6));
    assert(precedes_at(entry_name(table[25]), entry_name(table[26]), 3));
    assert(precedes_at(entry_name(table[26]), entry_name(table[27]), 4));
    assert(precedes_at(entry_name(table[27]), entry_name(table[28]), 4));
    assert(precedes_at(entry_name(table[28]), entry_name(table[29]), 3));
    assert(precedes_at(entry_name(table[29]), entry_name(table[30]), 4));
    assert(precedes_at(entry_name(table[30]), entry_name(table[31]), 3));
    assert(precedes_at(entry_name(table[31]), entry_name(table[32]), 2));
}

/// The names of `ENTITIES_UPPER_C` from entry 32 up to entry 36.
proof fn lemma_names_upper_c_from_32()
    ensures
        names_in_order(ENTITIES_UPPER_C@, 'C' as u8, 32, 36),
{
    broadcast use is_ascii_spec_bytes;

    reveal(precedes);
    let table = ENTITIES_UPPER_C@;
    reveal_strlit("&Cross;");
    assert(is_ascii("&Cross;"));
    reveal_strlit("&Cscr;");
    assert(is_ascii("&Cscr;"));
    reveal_strlit("&Cup;");
    assert(is_ascii("&Cup;"));
    reveal_strlit("&CupCap;");
    assert(is_ascii("&CupCap;"));
    assert(precedes_at(entry_name(table[32]), entry_name(table[33]), 2));
    assert(precedes_at(entry_name(table[33]), entry_name(table[34]), 2));
    assert(precedes_at(entry_name(table[34]), entry_name(table[35]), 4));
}

/// Every name in `ENTITIES_UPPER_C` starts with `&C` and has 3 to 33 bytes, and
/// each name comes before the next in the order of byte strings.
pub proof fn lemma_names_upper_c()
    ensures
        names_start_with(ENTITIES_UPPER_C@, 'C' as u8),
        names_ascend(ENTITIES_UPPER_C@),
{
    lemma_names_upper_c_from_0();
    lemma_names_upper_c_from_8();
    lemma_names_upper_c_from_16();
    lemma_names_upper_c_from_24();
    lemma_names_upper_c_from_32();
}

/// The names of `ENTITIES_LOWER_C` from entry 0 up to entry 8.
proof fn lemma_names_lower_c_from_0()
    ensures
        names_in_order(ENTITIES_LOWER_C@, 'c' as u8, 0, 8),
{
    broadcast use is_ascii_spec_bytes;

    reveal(precedes);
    let table = ENTITIES_LOWER_C@;
    reveal_strlit("&cacute;");
    assert(is_ascii("&cacute;"));
    reveal_strlit("&cap;");
    assert(is_ascii("&cap;"));
    reveal_strlit("&capand;");
    assert(is_ascii("&capand;"));
    reveal_strlit("&capbrcup;");
    assert(is_ascii("&capbrcup;"));
    reveal_strlit("&capcap;");
    assert(is_ascii("&capcap;"));
    reveal_strlit("&capcup;");
    assert(is_ascii("&capcup;"));
    reveal_strlit("&capdot;");
    assert(is_ascii("&capdot;"));
    reveal_strlit("&caps;");
    assert(is_ascii("&caps;"));
    reveal_strlit("&caret;");
    assert(is_ascii("&caret;"));
    assert(precedes_at(entry_name(table[0]), entry_name(table[1]), 3));
    assert(precedes_at(entry_name(table[1]), entry_name(table[2]), 4));
    assert(precedes_at(entry_name(table[2]), entry_name(table[3]), 4));
    assert(precedes_at(entry_name(table[3]), entry_name(table[4]), 4));
    assert(precedes_at(entry_name(table[4]), entry_name(table[5]), 5));
    assert(precedes_at(entry_name(table[5]), entry_name(table[6]), 4));
    assert(precedes_at(entry_name(table[6]), entry_name(table[7]), 4));
    assert(precedes_at(entry_name(table[7]), entry_name(table[8]), 3));
}

/// The names of `ENTITIES_LOWER_C` from entry 8 up to entry 16.
proof fn lemma_names_lower_c_from_8()
    ensures
        names_in_order(ENTITIES_LOWER_C@, 'c' as u8, 8, 16),
{
    broadcast use is_ascii_spec_bytes;

    reveal(precedes);
    let table = ENTITIES_LOWER_C@;
    reveal_strlit("&caret;");
    assert(is_ascii("&caret;"));
    reveal_strlit("&caron;");
    assert(is_ascii("&caron;"));
    reveal_strlit("&ccaps;");
    assert(is_ascii("&ccaps;"));
    reveal_strlit("&ccaron;");
    assert(is_ascii("&ccaron;"));
    reveal_strlit("&ccedil");
    assert(is_ascii("&ccedil"));
    reveal_strlit("&ccedil;");
    assert(is_ascii("&ccedil;"));
    reveal_strlit("&ccirc;");
    assert(is_ascii("&ccirc;"));
    reveal_strlit("&ccups;");
    assert(is_ascii("&ccups;"));
    reveal_strlit("&ccupssm;");
    assert(is_ascii("&ccupssm;"));
    assert(precedes_at(entry_name(table[8]), entry_name(table[9]), 4));
    assert(precedes_at(entry_name(table[9]), entry_name(table[10]), 2));
    assert(precedes_at(entry_name(table[10]), entry_name(table[11]), 4));
    assert(precedes_at(entry_name(table[11]), entry_name(table[12]), 3));
    assert(precedes_at(entry_name(table[12]), entry_name(table[13]), 7));
    assert(precedes_at(entry_name(table[13]), entry_name(table[14]), 3));
    assert(precedes_at(entry_name(table[14]), entry_name(table[15]), 3));
    assert(precedes_at(entry_name(table[15]), entry_name(table[16]), 6));
}

/// The names of `ENTITIES_LOWER_C` from entry 16 up to entry 24.
proof fn lemma_names_lower_c_from_16()
    ensures
        names_in_order(ENTITIES_LOWER_C@, 'c' as u8, 16, 24),
{
    broadcast use is_ascii_spec_bytes;

    reveal(precedes);
    let table = ENTITIES_LOWER_C@;
    reveal_strlit("&ccupssm;");
    assert(is_ascii("&ccupssm;"));
    reveal_strlit("&cdot;");
    assert(is_ascii("&cdot;"));
    reveal_strlit("&cedil");
    assert(is_ascii("&cedil"));
    reveal_strlit("&cedil;");
    assert(is_ascii("&cedil;"));
    reveal_strlit("&cemptyv;");
    assert(is_ascii("&cemptyv;"));
    reveal_strlit("&cent");
    assert(is_ascii("&cent"));
    reveal_strlit("&cent;");
    assert(is_ascii("&cent;"));
    reveal_strlit("&centerdot;");
    assert(is_ascii("&centerdot;"));
    reveal_strlit("&cfr;");
    assert(is_ascii("&cfr;"));
    assert(precedes_at(entry_name(table[16]), entry_name(table[17]), 2));
    assert(precedes_at(entry_name(table[17]), entry_name(table[18]), 2));
    assert(precedes_at(entry_name(table[18]), entry_name(table[19]), 6));
    assert(precedes_at(entry_name(table[19]), entry_name(table[20]), 3));
    assert(precedes_at(entry_name(table[20]), entry_name(table[21]), 3));
    assert(precedes_at(entry_name(table[21]), entry_name(table[22]), 5));
    assert(precedes_at(entry_name(table[22]), entry_name(table[23]), 5));
    assert(precedes_at(entry_name(table[23]), entry_name(table[24]), 2));
}

/// The names of `ENTITIES_LOWER_C` from entry 24 up to entry 32.
proof fn lemma_names_lower_c_from_24()
    ensures
        names_in_order(ENTITIES_LOWER_C@, 'c' as u8, 24, 32),
{
    broadcast use is_ascii_spec_bytes;

    reveal(precedes);
    let table = ENTITIES_LOWER_C@;
    reveal_strlit("&cfr;");
    assert(is_ascii("&cfr;"));
    reveal_strlit("&chcy;");
    assert(is_ascii("&chcy;"));
    reveal_strlit("&check;");
    assert(is_ascii("&check;"));
    reveal_strlit("&checkmark;");
    assert(is_ascii("&checkmark;"));
    reveal_strlit("&chi;");
    assert(is_ascii("&chi;"));
    reveal_strlit("&cir;");
    assert(is_ascii("&cir;"));
    reveal_strlit("&cirE;");
    assert(is_ascii("&cirE;"));
    reveal_strlit("&circ;");
    assert(is_ascii("&circ;"));
    reveal_strlit("&circeq;");
    assert(is_ascii("&circeq;"));
    assert(precedes_at(entry_name(table[24]), entry_name(table[25]), 2));
    assert(precedes_at(entry_name(table[25]), entry_name(table[26]), 3));
    assert(precedes_at(entry_name(table[26]), entry_name(table[27]), 6));
    assert(precedes_at(entry_name(table[27]), entry_name(table[28]), 3));
    assert(precedes_at(entry_name(table[28]), entry_name(table[29]), 2));
    assert(precedes_at(entry_name(table[29]), entry_name(table[30]), 4));
    assert(precedes_at(entry_name(table[30]), entry_name(table[31]), 4));
    assert(precedes_at(entry_name(table[31]), entry_name(table[32]), 5));
}

/// The names of `ENTITIES_LOWER_C` from entry 32 up to entry 40.
proof fn lemma_names_lower_c_from_32()
    ensures
        names_in_order(ENTITIES_LOWER_C@, 'c' as u8, 32, 40),
{
    broadcast use is_ascii_spec_bytes;

    reveal(precedes);
    let table = ENTITIES_LOWER_C@;
    reveal_strlit("&circeq;");
    assert(is_ascii("&circeq;"));
    reveal_strlit("&circlearrowleft;");
    assert(is_ascii("&circlearrowleft;"));
    reveal_strlit("&circlearrowright;");
    assert(is_ascii("&circlearrowright;"));
    reveal_strlit("&circledR;");
    assert(is_ascii("&circledR;"));
    reveal_strlit("&circledS;");
    assert(is_ascii("&circledS;"));
    reveal_strlit("&circledast;");
    assert(is_ascii("&circledast;"));
    reveal_strlit("&circledcirc;");
    assert(is_ascii("&circledcirc;"));
    reveal_strlit("&circleddash;");
    assert(is_ascii("&circleddash;"));
    reveal_strlit("&cire;");
    assert(is_ascii("&cire;"));
    assert(precedes_at(entry_name(table[32]), entry_name(table[33]), 5));
    assert(precedes_at(entry_name(table[33]), entry_name(table[34]), 12));
    assert(precedes_at(entry_name(table[34]), entry_name(table[35]), 7));
    assert(precedes_at(entry_name(table[35]), entry_name(table[36]), 8));
    assert(precedes_at(entry_name(table[36]), entry_name(table[37]), 8));
    assert(precedes_at(entry_name(table[37]), entry_name(table[38]), 8));
    assert(precedes_at(entry_name(table[38]), entry_name(table[39]), 8));
    assert(precedes_at(entry_name(table[39]), entry_name(table[40]), 4));
}

/// The names of `ENTITIES_LOWER_C` from entry 40 up to entry 48.
proof fn lemma_names_lower_c_from_40()
    ensures
        names_in_order(ENTITIES_LOWER_C@, 'c' as u8, 40, 48),
{
    broadcast use is_ascii_spec_bytes;

    reveal(precedes);
    let table = ENTITIES_LOWER_C@;
    reveal_strlit("&cire;");
    assert(is_ascii("&cire;"));
    reveal_strlit("&cirfnint;");
    assert(is_ascii("&cirfnint;"));
    reveal_strlit("&cirmid;");
    assert(is_ascii("&cirmid;"));
    reveal_strlit("&cirscir;");
    assert(is_ascii("&cirscir;"));
    reveal_strlit("&clubs;");
    assert(is_ascii("&clubs;"));
    reveal_strlit("&clubsuit;");
    assert(is_ascii("&clubsuit;"));
    reveal_strlit("&colon;");
    assert(is_ascii("&colon;"));
    reveal_strlit("&colone;");
    assert(is_ascii("&colone;"));
    reveal_strlit("&coloneq;");
    assert(is_ascii("&coloneq;"));
    assert(precedes_at(entry_name(table[40]), entry_name(table[41]), 4));
    assert(precedes_at(entry_name(table[41]), entry_name(table[42]), 4));
    assert(precedes_at(entry_name(table[42]), entry_name(table[43]), 4));
    assert(precedes_at(entry_name(table[43]), entry_name(table[44]), 2));
    assert(precedes_at(entry_name(table[44]), entry_name(table[45]), 6));
    assert(precedes_at(entry_name(table[45]), entry_name(table[46]), 2));
    assert(precedes_at(entry_name(table[46]), entry_name(table[47]), 6));
    assert(precedes_at(entry_name(table[47]), entry_name(table[48]), 7));
}

/// The names of `ENTITIES_LOWER_C` from entry 48 up to entry 56.
proof fn lemma_names_lower_c_from_48()
    ensures
        names_in_order(ENTITIES_LOWER_C@, 'c' as u8, 48, 56),
{
    broadcast use is_ascii_spec_bytes;

    reveal(precedes);
    let table = ENTITIES_LOWER_C@;
    reveal_strlit("&coloneq;");
    assert(is_ascii("&coloneq;"));
    reveal_strlit("&comma;");
    assert(is_ascii("&comma;"));
    reveal_strlit("&commat;");
    assert(is_ascii("&commat;"));
    reveal_strlit("&comp;");
    assert(is_ascii("&comp;"));
    reveal_strlit("&compfn;");
    assert(is_ascii("&compfn;"));
    reveal_strlit("&complement;");
    assert(is_ascii("&complement;"));
    reveal_strlit("&complexes;");
    assert(is_ascii("&complexes;"));
    reveal_strlit("&cong;");
    assert(is_ascii("&cong;"));
    reveal_strlit("&congdot;");
    assert(is_ascii("&congdot;"));
    assert(precedes_at(entry_name(table[48]), entry_name(table[49]), 3));
    assert(precedes_at(entry_name(table[49]), entry_name(table[50]), 6));
    assert(precedes_at(entry_name(table[50]), entry_name(table[51]), 4));
    assert(precedes_at(entry_name(table[51]), entry_name(table[52]), 5));
    assert(precedes_at(entry_name(table[52]), entry_name(table[53]), 5));
    assert(precedes_at(entry_name(table[53]), entry_name(table[54]), 7));
    assert(precedes_at(entry_name(table[54]), entry_name(table[55]), 3));
    assert(precedes_at(entry_name(table[55]), entry_name(table[56]), 5));
}

/// The names of `ENTITIES_LOWER_C` from entry 56 up to entry 64.
proof fn lemma_names_lower_c_from_56()
    ensures
        names_in_order(ENTITIES_LOWER_C@, 'c' as u8, 56, 64),
{
    broadcast use is_ascii_spec_bytes;

    reveal(precedes);
    let table = ENTITIES_LOWER_C@;
    reveal_strlit("&congdot;");
    assert(is_ascii("&congdot;"));
    reveal_strlit("&conint;");
    assert(is_ascii("&conint;"));
    reveal_strlit("&copf;");
    assert(is_ascii("&copf;"));
    reveal_strlit("&coprod;");
    assert(is_ascii("&coprod;"));
    reveal_strlit("&copy");
    assert(is_ascii("&copy"));
    reveal_strlit("&copy;");
    assert(is_ascii("&copy;"));
    reveal_strlit("&copysr;");
    assert(is_ascii("&copysr;"));
    reveal_strlit("&crarr;");
    assert(is_ascii("&crarr;"));
    reveal_strlit("&cross;");
    assert(is_ascii("&cross;"));
    assert(precedes_at(entry_name(table[56]), entry_name(table[57]), 4));
    assert(precedes_at(entry_name(table[57]), entry_name(table[58]), 3));
    assert(precedes_at(entry_name(table[58]), entry_name(table[59]), 4));
    assert(precedes_at(entry_name(table[59]), entry_name(table[60]), 4));
    assert(precedes_at(entry_name(table[60]), entry_name(table[61]), 5));
    assert(precedes_at(entry_name(table[61]), entry_name(table[62]), 5));
    assert(precedes_at(entry_name(table[62]), entry_name(table[63]), 2));
    assert(precedes_at(entry_name(table[63]), entry_name(table[64]), 3));
}

/// The names of `ENTITIES_LOWER_C` from entry 64 up to entry 72.
proof fn lemma_names_lower_c_from_64()
    ensures
        names_in_order(ENTITIES_LOWER_C@, 'c' as u8, 64, 72),
{
    broadcast use is_ascii_spec_bytes;

    reveal(precedes);
    let table = ENTITIES_LOWER_C@;
    reveal_strlit("&cross;");
    assert(is_ascii("&cross;"));
    reveal_strlit("&cscr;");
    assert(is_ascii("&cscr;"));
    reveal_strlit("&csub;");
    assert(is_ascii("&csub;"));
    reveal_strlit("&csube;");
    assert(is_ascii("&csube;"));
    reveal_strlit("&csup;");
    assert(is_ascii("&csup;"));
    reveal_strlit("&csupe;");
    assert(is_ascii("&csupe;"));
    reveal_strlit("&ctdot;");
    assert(is_ascii("&ctdot;"));
    reveal_strlit("&cudarrl;");
    assert(is_ascii("&cudarrl;"));
    reveal_strlit("&cudarrr;");
    assert(is_ascii("&cudarrr;"));
    assert(precedes_at(entry_name(table[64]), entry_name(table[65]), 2));
    assert(precedes_at(entry_name(table[65]), entry_name(table[66]), 3));
    assert(precedes_at(entry_name(table[66]), entry_name(table[67]), 5));
    assert(precedes_at(entry_name(table[67]), entry_name(table[68]), 4));
    assert(precedes_at(entry_name(table[68]), entry_name(table[69]), 5));
    assert(precedes_at(entry_name(table[69]), entry_name(table[70]), 2));
    assert(precedes_at(entry_name(table[70]), entry_name(table[71]), 2));
    assert(precedes_at(entry_name(table[71]), entry_name(table[72]), 7));
}

/// The names of `ENTITIES_LOWER_C` from entry 72 up to entry 80.
proof fn lemma_names_lower_c_from_72()
    ensures
        names_in_order(ENTITIES_LOWER_C@, 'c' as u8, 72, 80),
{
    broadcast use is_ascii_spec_bytes;

    reveal(precedes);
    let table = ENTITIES_LOWER_C@;
    reveal_strlit("&cudarrr;");
    assert(is_ascii("&cudarrr;"));
    reveal_strlit("&cuepr;");
    assert(is_ascii("&cuepr;"));
    reveal_strlit("&cuesc;");
    assert(is_ascii("&cuesc;"));
    reveal_strlit("&cularr;");
    assert(is_ascii("&cularr;"));
    reveal_strlit("&cularrp;");
    assert(is_ascii("&cularrp;"));
    reveal_strlit("&cup;");
    assert(is_ascii("&cup;"));
    reveal_strlit("&cupbrcap;");
    assert(is_ascii("&cupbrcap;"));
    reveal_strlit("&cupcap;");
    assert(is_ascii("&cupcap;"));
    reveal_strlit("&cupcup;");
    assert(is_ascii("&cupcup;"));
    assert(precedes_at(entry_name(table[72]), entry_name(table[73]), 3));
    assert(precedes_at(entry_name(table[73]), entry_name(table[74]), 4));
    assert(precedes_at(entry_name(table[74]), entry_name(table[75]), 3));
    assert(precedes_at(entry_name(table[75]), entry_name(table[76]), 7));
    assert(precedes_at(entry_name(table[76]), entry_name(table[77]), 3));
    assert(precedes_at(entry_name(table[77]), entry_name(table[78]), 4));
    assert(precedes_at(entry_name(table[78]), entry_name(table[79]), 4));
    assert(precedes_at(entry_name(table[79]), entry_name(table[80]), 5));
}

/// The names of `ENTITIES_LOWER_C` from entry 80 up to entry 88.
proof fn lemma_names_lower_c_from_80()
    ensures
        names_in_order(ENTITIES_LOWER_C@, 'c' as u8, 80, 88),
{
    broadcast use is_ascii_spec_bytes;

    reveal(precedes);
    let table = ENTITIES_LOWER_C@;
    reveal_strlit("&cupcup;");
    assert(is_ascii("&cupcup;"));
    reveal_strlit("&cupdot;");
    assert(is_ascii("&cupdot;"));
    reveal_strlit("&cupor;");
    assert(is_ascii("&cupor;"));
    reveal_strlit("&cups;");
    assert(is_ascii("&cups;"));
    reveal_strlit("&curarr;");
    assert(is_ascii("&curarr;"));
    reveal_strlit("&curarrm;");
    assert(is_ascii("&curarrm;"));
    reveal_strlit("&curlyeqprec;");
    assert(is_ascii("&curlyeqprec;"));
    reveal_strlit("&curlyeqsucc;");
    assert(is_ascii("&curlyeqsucc;"));
    reveal_strlit("&curlyvee;");
    assert(is_ascii("&curlyvee;"));
    assert(precedes_at(entry_name(table[80]), entry_name(table[81]), 4));
    assert(precedes_at(entry_name(table[81]), entry_name(table[82]), 4));
    assert(precedes_at(entry_name(table[82]), entry_name(table[83]), 4));
    assert(precedes_at(entry_name(table[83]), entry_name(table[84]), 3));
    assert(precedes_at(entry_name(table[84]), entry_name(table[85]), 7));
    assert(precedes_at(entry_name(table[85]), entry_name(table[86]), 4));
    assert(precedes_at(entry_name(table[86]), entry_name(table[87]), 8));
    assert(precedes_at(entry_name(table[87]), entry_name(table[88]), 6));
}

/// The names of `ENTITIES_LOWER_C` from entry 88 up to entry 96.
proof fn lemma_names_lower_c_from_88()
    ensures
        names_in_order(ENTITIES_LOWER_C@, 'c' as u8, 88, 96),
{
    broadcast use is_ascii_spec_bytes;

    reveal(precedes);
    let table = ENTITIES_LOWER_C@;
    reveal_strlit("&curlyvee;");
    assert(is_ascii("&curlyvee;"));
    reveal_strlit("&curlywedge;");
    assert(is_ascii("&curlywedge;"));
    reveal_strlit("&curren");
    assert(is_ascii("&curren"));
    reveal_strlit("&curren;");
    assert(is_ascii("&curren;"));
    reveal_strlit("&curvearrowleft;");
    assert(is_ascii("&curvearrowleft;"));
    reveal_strlit("&curvearrowright;");
    assert(is_ascii("&curvearrowright;"));
    reveal_strlit("&cuvee;");
    assert(is_ascii("&cuvee;"));
    reveal_strlit("&cuwed;");
    assert(is_ascii("&cuwed;"));
    reveal_strlit("&cwconint;");
    assert(is_ascii("&cwconint;"));
    assert(precedes_at(entry_name(table[88]), entry_name(table[89]), 6));
    assert(precedes_at(entry_name(table[89]), entry_name(table[90]), 4));
    assert(precedes_at(entry_name(table[90]), entry_name(table[91]), 7));
    assert(precedes_at(entry_name(table[91]), entry_name(table[92]), 4));
    assert(precedes_at(entry_name(table[92]), entry_name(table[93]), 11));
    assert(precedes_at(entry_name(table[93]), entry_name(table[94]), 3));
    assert(precedes_at(entry_name(table[94]), entry_name(table[95]), 3));
    assert(precedes_at(entry_name(table[95]), entry_name(table[96]), 2));
}

/// The names of `ENTITIES_LOWER_C` from entry 96 up to entry 99.
proof fn lemma_names_lower_c_from_96()
    ensures
        names_in_order(ENTITIES_LOWER_C@, 'c' as u8, 96, 99),
{
    broadcast use is_ascii_spec_bytes;

    reveal(precedes);
    let table = ENTITIES_LOWER_C@;
    reveal_strlit("&cwconint;");
    assert(is_ascii("&cwconint;"));
    reveal_strlit("&cwint;");
    assert(is_ascii("&cwint;"));
    reveal_strlit("&cylcty;");
    assert(is_ascii("&cylcty;"));
    assert(precedes_at(entry_name(table[96]), entry_name(table[97]), 3));
    assert(precedes_at(entry_name(table[97]), entry_name(table[98]), 2));
}

/// Every name in `ENTITIES_LOWER_C` starts with `&c` and has 3 to 33 bytes, and
/// each name comes before the next in the order of byte strings.
pub proof fn lemma_names_lower_c()
    ensures
        names_start_with(ENTITIES_LOWER_C@, 'c' as u8),
        names_ascend(ENTITIES_LOWER_C@),
{
    lemma_names_lower_c_from_0();
    lemma_names_lower_c_from_8();
    lemma_names_lower_c_from_16();
    lemma_names_lower_c_from_24();
    lemma_names_lower_c_from_32();
    lemma_names_lower_c_from_40();
    lemma_names_lower_c_from_48();
    lemma_names_lower_c_from_56();
    lemma_names_lower_c_from_64();
    lemma_names_lower_c_from_72();
    lemma_names_lower_c_from_80();
    lemma_names_lower_c_from_88();
    lemma_names_lower_c_from_96();
}

} // verus!
