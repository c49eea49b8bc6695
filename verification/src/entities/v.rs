//! The named character references that start with `V` or `v`.

use crate::entities::{names_in_order, names_start_with};
use crate::search::{entry_name, names_ascend, precedes, precedes_at, Entry};
use vstd::prelude::*;
use vstd::string::{is_ascii, is_ascii_spec_bytes};

verus! {

/// The named character references that start with `&V`, each with its
/// expansion, in the order of byte strings.
pub const ENTITIES_UPPER_V: [Entry; 17] = [
    ("&VDash;", "\u{22ab}"),
    ("&Vbar;", "\u{2aeb}"),
    ("&Vcy;", "\u{412}"),
    ("&Vdash;", "\u{22a9}"),
    ("&Vdashl;", "\u{2ae6}"),
    ("&Vee;", "\u{22c1}"),
    ("&Verbar;", "\u{2016}"),
    ("&Vert;", "\u{2016}"),
    ("&VerticalBar;", "\u{2223}"),
    ("&VerticalLine;", "|"),
    ("&VerticalSeparator;", "\u{2758}"),
    ("&VerticalTilde;", "\u{2240}"),
    ("&VeryThinSpace;", "\u{200a}"),
    ("&Vfr;", "\u{1d519}"),
    ("&Vopf;", "\u{1d54d}"),
    ("&Vscr;", "\u{1d4b1}"),
    ("&Vvdash;", "\u{22aa}"),
];

/// The named character references that start with `&v`, each with its
/// expansion, in the order of byte strings.
pub const ENTITIES_LOWER_V: [Entry; 42] = [
    ("&vArr;", "\u{21d5}"),
    ("&vBar;", "\u{2ae8}"),
    ("&vBarv;", "\u{2ae9}"),
    ("&vDash;", "\u{22a8}"),
    ("&vangrt;", "\u{299c}"),
    ("&varepsilon;", "\u{3f5}"),
    ("&varkappa;", "\u{3f0}"),
    ("&varnothing;", "\u{2205}"),
    ("&varphi;", "\u{3d5}"),
    ("&varpi;", "\u{3d6}"),
    ("&varpropto;", "\u{221d}"),
    ("&varr;", "\u{2195}"),
    ("&varrho;", "\u{3f1}"),
    ("&varsigma;", "\u{3c2}"),
    ("&varsubsetneq;", "\u{228a}\u{fe00}"),
    ("&varsubsetneqq;", "\u{2acb}\u{fe00}"),
    ("&varsupsetneq;", "\u{228b}\u{fe00}"),
    ("&varsupsetneqq;", "\u{2acc}\u{fe00}"),
    ("&vartheta;", "\u{3d1}"),
    ("&vartriangleleft;", "\u{22b2}"),
    ("&vartriangleright;", "\u{22b3}"),
    ("&vcy;", "\u{432}"),
    ("&vdash;", "\u{22a2}"),
    ("&vee;", "\u{2228}"),
    ("&veebar;", "\u{22bb}"),
    ("&veeeq;", "\u{225a}"),
    ("&vellip;", "\u{22ee}"),
    ("&verbar;", "|"),
    ("&vert;", "|"),
    ("&vfr;", "\u{1d533}"),
    ("&vltri;", "\u{22b2}"),
    ("&vnsub;", "\u{2282}\u{20d2}"),
    ("&vnsup;", "\u{2283}\u{20d2}"),
    ("&vopf;", "\u{1d567}"),
    ("&vprop;", "\u{221d}"),
    ("&vrtri;", "\u{22b3}"),
    ("&vscr;", "\u{1d4cb}"),
    ("&vsubnE;", "\u{2acb}\u{fe00}"),
    ("&vsubne;", "\u{228a}\u{fe00}"),
    ("&vsupnE;", "\u{2acc}\u{fe00}"),
    ("&vsupne;", "\u{228b}\u{fe00}"),
    ("&vzigzag;", "\u{299a}"),
];

/// The names of `ENTITIES_UPPER_V` from entry 0 up to entry 8.
proof fn lemma_names_upper_v_from_0()
    ensures
        names_in_order(ENTITIES_UPPER_V@, 'V' as u8, 0, 8),
{
    broadcast use is_ascii_spec_bytes;

    reveal(precedes);
    let table = ENTITIES_UPPER_V@;
    reveal_strlit("&VDash;");
    assert(is_ascii("&VDash;"));
    reveal_strlit("&Vbar;");
    assert(is_ascii("&Vbar;"));
    reveal_strlit("&Vcy;");
    assert(is_ascii("&Vcy;"));
    reveal_strlit("&Vdash;");
    assert(is_ascii("&Vdash;"));
    reveal_strlit("&Vdashl;");
    assert(is_ascii("&Vdashl;"));
    reveal_strlit("&Vee;");
    assert(is_ascii("&Vee;"));
    reveal_strlit("&Verbar;");
    assert(is_ascii("&Verbar;"));
    reveal_strlit("&Vert;");
    assert(is_ascii("&Vert;"));
    reveal_strlit("&VerticalBar;");
    assert(is_ascii("&VerticalBar;"));
    assert(precedes_at(entry_name(table[0]), entry_name(table[1]), 2));
    assert(precedes_at(entry_name(table[1]), entry_name(table[2]), 2));
    assert(precedes_at(entry_name(table[2]), entry_name(table[3]), 2));
    assert(precedes_at(entry_name(table[3]), entry_name(table[4]), 6));
    assert(precedes_at(entry_name(table[4]), entry_name(table[5]), 2));
    assert(precedes_at(entry_name(table[5]), entry_name(table[6]), 3));
    assert(precedes_at(entry_name(table[6]), entry_name(table[7]), 4));
    assert(precedes_at(entry_name(table[7]), entry_name(table[8]), 5));
}

/// The names of `ENTITIES_UPPER_V` from entry 8 up to entry 16.
proof fn lemma_names_upper_v_from_8()
    ensures
        names_in_order(ENTITIES_UPPER_V@, 'V' as u8, 8, 16),
{
    broadcast use is_ascii_spec_bytes;

    reveal(precedes);
    let table = ENTITIES_UPPER_V@;
    reveal_strlit("&VerticalBar;");
    assert(is_ascii("&VerticalBar;"));
    reveal_strlit("&VerticalLine;");
    assert(is_ascii("&VerticalLine;"));
    reveal_strlit("&VerticalSeparator;");
    assert(is_ascii("&VerticalSeparator;"));
    reveal_strlit("&VerticalTilde;");
    assert(is_ascii("&VerticalTilde;"));
    reveal_strlit("&VeryThinSpace;");
    assert(is_ascii("&VeryThinSpace;"));
    reveal_strlit("&Vfr;");
    assert(is_ascii("&Vfr;"));
    reveal_strlit("&Vopf;");
    assert(is_ascii("&Vopf;"));
    reveal_strlit("&Vscr;");
    assert(is_ascii("&Vscr;"));
    reveal_strlit("&Vvdash;");
    assert(is_ascii("&Vvdash;"));
    assert(precedes_at(entry_name(table[8]), entry_name(table[9]), 9));
    assert(precedes_at(entry_name(table[9]), entry_name(table[10]), 9));
    assert(precedes_at(entry_name(table[10]), entry_name(table[11]), 9));
    assert(precedes_at(entry_name(table[11]), entry_name(table[12]), 4));
    assert(precedes_at(entry_name(table[12]), entry_name(table[13]), 2));
    assert(precedes_at(entry_name(table[13]), entry_name(table[14]), 2));
    assert(precedes_at(entry_name(table[14]), entry_name(table[15]), 2));
    assert(precedes_at(entry_name(table[15]), entry_name(table[16]), 2));
}

/// The names of `ENTITIES_UPPER_V` from entry 16 up to entry 17.
proof fn lemma_names_upper_v_from_16()
    ensures
        names_in_order(ENTITIES_UPPER_V@, 'V' as u8, 16, 17),
{
    broadcast use is_ascii_spec_bytes;

    reveal(precedes);
    let table = ENTITIES_UPPER_V@;
    reveal_strlit("&Vvdash;");
    assert(is_ascii("&Vvdash;"));
}

/// Every name in `ENTITIES_UPPER_V` starts with `&V` and has 3 to 33 bytes, and
/// each name comes before the next in the order of byte strings.
pub proof fn lemma_names_upper_v()
    ensures
        names_start_with(ENTITIES_UPPER_V@, 'V' as u8),
        names_ascend(ENTITIES_UPPER_V@),
{
    lemma_names_upper_v_from_0();
    lemma_names_upper_v_from_8();
    lemma_names_upper_v_from_16();
}

/// The names of `ENTITIES_LOWER_V` from entry 0 up to entry 8.
proof fn lemma_names_lower_v_from_0()
    ensures
        names_in_order(ENTITIES_LOWER_V@, 'v' as u8, 0, 8),
{
    broadcast use is_ascii_spec_bytes;

    reveal(precedes);
    let table = ENTITIES_LOWER_V@;
    reveal_strlit("&vArr;");
    assert(is_ascii("&vArr;"));
    reveal_strlit("&vBar;");
    assert(is_ascii("&vBar;"));
    reveal_strlit("&vBarv;");
    assert(is_ascii("&vBarv;"));
    reveal_strlit("&vDash;");
    assert(is_ascii("&vDash;"));
    reveal_strlit("&vangrt;");
    assert(is_ascii("&vangrt;"));
    reveal_strlit("&varepsilon;");
    assert(is_ascii("&varepsilon;"));
    reveal_strlit("&varkappa;");
    assert(is_ascii("&varkappa;"));
    reveal_strlit("&varnothing;");
    assert(is_ascii("&varnothing;"));
    reveal_strlit("&varphi;");
    assert(is_ascii("&varphi;"));
    assert(precedes_at(entry_name(table[0]), entry_name(table[1]), 2));
    assert(precedes_at(entry_name(table[1]), entry_name(table[2]), 5));
    assert(precedes_at(entry_name(table[2]), entry_name(table[3]), 2));
    assert(precedes_at(entry_name(table[3]), entry_name(table[4]), 2));
    assert(precedes_at(entry_name(table[4]), entry_name(table[5]), 3));
    assert(precedes_at(entry_name(table[5]), entry_name(table[6]), 4));
    assert(precedes_at(entry_name(table[6]), entry_name(table[7]), 4));
    assert(precedes_at(entry_name(table[7]), entry_name(table[8]), 4));
}

/// The names of `ENTITIES_LOWER_V` from entry 8 up to entry 16.
proof fn lemma_names_lower_v_from_8()
    ensures
        names_in_order(ENTITIES_LOWER_V@, 'v' as u8, 8, 16),
{
    broadcast use is_ascii_spec_bytes;

    reveal(precedes);
    let table = ENTITIES_LOWER_V@;
    reveal_strlit("&varphi;");
    assert(is_ascii("&varphi;"));
    reveal_strlit("&varpi;");
    assert(is_ascii("&varpi;"));
    reveal_strlit("&varpropto;");
    assert(is_ascii("&varpropto;"));
    reveal_strlit("&varr;");
    assert(is_ascii("&varr;"));
    reveal_strlit("&varrho;");
    assert(is_ascii("&varrho;"));
    reveal_strlit("&varsigma;");
    assert(is_ascii("&varsigma;"));
    reveal_strlit("&varsubsetneq;");
    assert(is_ascii("&varsubsetneq;"));
    reveal_strlit("&varsubsetneqq;");
    assert(is_ascii("&varsubsetneqq;"));
    reveal_strlit("&varsupsetneq;");
    assert(is_ascii("&varsupsetneq;"));
    assert(precedes_at(entry_name(table[8]), entry_name(table[9]), 5));
    assert(precedes_at(entry_name(table[9]), entry_name(table[10]), 5));
    assert(precedes_at(entry_name(table[10]), entry_name(table[11]), 4));
    assert(precedes_at(entry_name(table[11]), entry_name(table[12]), 5));
    assert(precedes_at(entry_name(table[12]), entry_name(table[13]), 4));
    assert(precedes_at(entry_name(table[13]), entry_name(table[14]), 5));
    assert(precedes_at(entry_name(table[14]), entry_name(table[15]), 13));
    assert(precedes_at(entry_name(table[15]), entry_name(table[16]), 6));
}

/// The names of `ENTITIES_LOWER_V` from entry 16 up to entry 24.
proof fn lemma_names_lower_v_from_16()
    ensures
        names_in_order(ENTITIES_LOWER_V@, 'v' as u8, 16, 24),
{
    broadcast use is_ascii_spec_bytes;

    reveal(precedes);
    let table = ENTITIES_LOWER_V@;
    reveal_strlit("&varsupsetneq;");
    assert(is_ascii("&varsupsetneq;"));
    reveal_strlit("&varsupsetneqq;");
    assert(is_ascii("&varsupsetneqq;"));
    reveal_strlit("&vartheta;");
    assert(is_ascii("&vartheta;"));
    reveal_strlit("&vartriangleleft;");
    assert(is_ascii("&vartriangleleft;"));
    reveal_strlit("&vartriangleright;");
    assert(is_ascii("&vartriangleright;"));
    reveal_strlit("&vcy;");
    assert(is_ascii("&vcy;"));
    reveal_strlit("&vdash;");
    assert(is_ascii("&vdash;"));
    reveal_strlit("&vee;");
    assert(is_ascii("&vee;"));
    reveal_strlit("&veebar;");
    assert(is_ascii("&veebar;"));
    assert(precedes_at(entry_name(table[16]), entry_name(table[17]), 13));
    assert(precedes_at(entry_name(table[17]), entry_name(table[18]), 4));
    assert(precedes_at(entry_name(table[18]), entry_name(table[19]), 5));
    assert(precedes_at(entry_name(table[19]), entry_name(table[20]), 12));
    assert(precedes_at(entry_name(table[20]), entry_name(table[21]), 2));
    assert(precedes_at(entry_name(table[21]), entry_name(table[22]), 2));
    assert(precedes_at(entry_name(table[22]), entry_name(table[23]), 2));
    assert(precedes_at(entry_name(table[23]), entry_name(table[24]), 4));
}

/// The names of `ENTITIES_LOWER_V` from entry 24 up to entry 32.
proof fn lemma_names_lower_v_from_24()
    ensures
        names_in_order(ENTITIES_LOWER_V@, 'v' as u8, 24, 32),
{
    broadcast use is_ascii_spec_bytes;

    reveal(precedes);
    let table = ENTITIES_LOWER_V@;
    reveal_strlit("&veebar;");
    assert(is_ascii("&veebar;"));
    reveal_strlit("&veeeq;");
    assert(is_ascii("&veeeq;"));
    reveal_strlit("&vellip;");
    assert(is_ascii("&vellip;"));
    reveal_strlit("&verbar;");
    assert(is_ascii("&verbar;"));
    reveal_strlit("&vert;");
    assert(is_ascii("&vert;"));
    reveal_strlit("&vfr;");
    assert(is_ascii("&vfr;"));
    reveal_strlit("&vltri;");
    assert(is_ascii("&vltri;"));
    reveal_strlit("&vnsub;");
    assert(is_ascii("&vnsub;"));
    reveal_strlit("&vnsup;");
    assert(is_ascii("&vnsup;"));
    assert(precedes_at(entry_name(table[24]), entry_name(table[25]), 4));
    assert(precedes_at(entry_name(table[25]), entry_name(table[26]), 3));
    assert(precedes_at(entry_name(table[26]), entry_name(table[27]), 3));
    assert(precedes_at(entry_name(table[27]), entry_name(table[28]), 4));
    assert(precedes_at(entry_name(table[28]), entry_name(table[29]), 2));
    assert(precedes_at(entry_name(table[29]), entry_name(table[30]), 2));
    assert(precedes_at(entry_name(table[30]), entry_name(table[31]), 2));
    assert(precedes_at(entry_name(table[31]), entry_name(table[32]), 5));
}

/// The names of `ENTITIES_LOWER_V` from entry 32 up to entry 40.
proof fn lemma_names_lower_v_from_32()
    ensures
        names_in_order(ENTITIES_LOWER_V@, 'v' as u8, 32, 40),
{
    broadcast use is_ascii_spec_bytes;

    reveal(precedes);
    let table = ENTITIES_LOWER_V@;
    reveal_strlit("&vnsup;");
    assert(is_ascii("&vnsup;"));
    reveal_strlit("&vopf;");
    assert(is_ascii("&vopf;"));
    reveal_strlit("&vprop;");
    assert(is_ascii("&vprop;"));
    reveal_strlit("&vrtri;");
    assert(is_ascii("&vrtri;"));
    reveal_strlit("&vscr;");
    assert(is_ascii("&vscr;"));
    reveal_strlit("&vsubnE;");
    assert(is_ascii("&vsubnE;"));
    reveal_strlit("&vsubne;");
    assert(is_ascii("&vsubne;"));
    reveal_strlit("&vsupnE;");
    assert(is_ascii("&vsupnE;"));
    reveal_strlit("&vsupne;");
    assert(is_ascii("&vsupne;"));
    assert(precedes_at(entry_name(table[32]), entry_name(table[33]), 2));
    assert(precedes_at(entry_name(table[33]), entry_name(table[34]), 2));
    assert(precedes_at(entry_name(table[34]), entry_name(table[35]), 2));
    assert(precedes_at(entry_name(table[35]), entry_name(table[36]), 2));
    assert(precedes_at(entry_name(table[36]), entry_name(table[37]), 3));
    assert(precedes_at(entry_name(table[37]), entry_name(table[38]), 6));
    assert(precedes_at(entry_name(table[38]), entry_name(table[39]), 4));
    assert(precedes_at(entry_name(table[39]), entry_name(table[40]), 6));
}

/// The names of `ENTITIES_LOWER_V` from entry 40 up to entry 42.
proof fn lemma_names_lower_v_from_40()
    ensures
        names_in_order(ENTITIES_LOWER_V@, 'v' as u8, 40, 42),
{
    broadcast use is_ascii_spec_bytes;

    reveal(precedes);
    let table = ENTITIES_LOWER_V@;
    reveal_strlit("&vsupne;");
    assert(is_ascii("&vsupne;"));
    reveal_strlit("&vzigzag;");
    assert(is_ascii("&vzigzag;"));
    assert(precedes_at(entry_name(table[40]), entry_name(table[41]), 2));
}

/// Every name in `ENTITIES_LOWER_V` starts with `&v` and has 3 to 33 bytes, and
/// each name comes before the next in the order of byte strings.
pub proof fn lemma_names_lower_v()
    ensures
        names_start_with(ENTITIES_LOWER_V@, 'v' as u8),
        names_ascend(ENTITIES_LOWER_V@),
{
    lemma_names_lower_v_from_0();
    lemma_names_lower_v_from_8();
    lemma_names_lower_v_from_16();
    lemma_names_lower_v_from_24();
    lemma_names_lower_v_from_32();
    lemma_names_lower_v_from_40();
}

} // verus!
