//! The named character references that start with `M` or `m`.

use crate::entities::{names_in_order, names_start_with};
use crate::search::{entry_name, names_ascend, precedes, precedes_at, Entry};
use vstd::prelude::*;
use vstd::string::{is_ascii, is_ascii_spec_bytes};

verus! {

/// The named character references that start with `&M`, each with its
/// expansion, in the order of byte strings.
pub const ENTITIES_UPPER_M: [Entry; 9] = [
    ("&Map;", "\u{2905}"),
    ("&Mcy;", "\u{41c}"),
    ("&MediumSpace;", "\u{205f}"),
    ("&Mellintrf;", "\u{2133}"),
    ("&Mfr;", "\u{1d510}"),
    ("&MinusPlus;", "\u{2213}"),
    ("&Mopf;", "\u{1d544}"),
    ("&Mscr;", "\u{2133}"),
    ("&Mu;", "\u{39c}"),
];

/// The named character references that start with `&m`, each with its
/// expansion, in the order of byte strings.
pub const ENTITIES_LOWER_M: [Entry; 40] = [
    ("&mDDot;", "\u{223a}"),
    ("&macr", "\u{af}"),
    ("&macr;", "\u{af}"),
    ("&male;", "\u{2642}"),
    ("&malt;", "\u{2720}"),
    ("&maltese;", "\u{2720}"),
    ("&map;", "\u{21a6}"),
    ("&mapsto;", "\u{21a6}"),
    ("&mapstodown;", "\u{21a7}"),
    ("&mapstoleft;", "\u{21a4}"),
    ("&mapstoup;", "\u{21a5}"),
    ("&marker;", "\u{25ae}"),
    ("&mcomma;", "\u{2a29}"),
    ("&mcy;", "\u{43c}"),
    ("&mdash;", "\u{2014}"),
    ("&measuredangle;", "\u{2221}"),
    ("&mfr;", "\u{1d52a}"),
    ("&mho;", "\u{2127}"),
    ("&micro", "\u{b5}"),
    ("&micro;", "\u{b5}"),
    ("&mid;", "\u{2223}"),
    ("&midast;", "*"),
    ("&midcir;", "\u{2af0}"),
    ("&middot", "\u{b7}"),
    ("&middot;", "\u{b7}"),
    ("&minus;", "\u{2212}"),
    ("&minusb;", "\u{229f}"),
    ("&minusd;", "\u{2238}"),
    ("&minusdu;", "\u{2a2a}"),
    ("&mlcp;", "\u{2adb}"),
    ("&mldr;", "\u{2026}"),
    ("&mnplus;", "\u{2213}"),
    ("&models;", "\u{22a7}"),
    ("&mopf;", "\u{1d55e}"),
    ("&mp;", "\u{2213}"),
    ("&mscr;", "\u{1d4c2}"),
    ("&mstpos;", "\u{223e}"),
    ("&mu;", "\u{3bc}"),
    ("&multimap;", "\u{22b8}"),
    ("&mumap;", "\u{22b8}"),
];

/// The names of `ENTITIES_UPPER_M` from entry 0 up to entry 8.
proof fn lemma_names_upper_m_from_0()
    ensures
        names_in_order(ENTITIES_UPPER_M@, 'M' as u8, 0, 8),
{
    broadcast use is_ascii_spec_bytes;

    reveal(precedes);
    let table = ENTITIES_UPPER_M@;
    reveal_strlit("&Map;");
    assert(is_ascii("&Map;"));
    reveal_strlit("&Mcy;");
    assert(is_ascii("&Mcy;"));
    reveal_strlit("&MediumSpace;");
    assert(is_ascii("&MediumSpace;"));
    reveal_strlit("&Mellintrf;");
    assert(is_ascii("&Mellintrf;"));
    reveal_strlit("&Mfr;");
    assert(is_ascii("&Mfr;"));
    reveal_strlit("&MinusPlus;");
    assert(is_ascii("&MinusPlus;"));
    reveal_strlit("&Mopf;");
    assert(is_ascii("&Mopf;"));
    reveal_strlit("&Mscr;");
    assert(is_ascii("&Mscr;"));
    reveal_strlit("&Mu;");
    assert(is_ascii("&Mu;"));
    assert(precedes_at(entry_name(table[0]), entry_name(table[1]), 2));
    assert(precedes_at(entry_name(table[1]), entry_name(table[2]), 2));
    assert(precedes_at(entry_name(table[2]), entry_name(table[3]), 3));
    assert(precedes_at(entry_name(table[3]), entry_name(table[4]), 2));
    assert(precedes_at(entry_name(table[4]), entry_name(table[5]), 2));
    assert(precedes_at(entry_name(table[5]), entry_name(table[6]), 2));
    assert(precedes_at(entry_name(table[6]), entry_name(table[7]), 2));
    assert(precedes_at(entry_name(table[7]), entry_name(table[8]), 2));
}

/// The names of `ENTITIES_UPPER_M` from entry 8 up to entry 9.
proof fn lemma_names_upper_m_from_8()
    ensures
        names_in_order(ENTITIES_UPPER_M@, 'M' as u8, 8, 9),
{
    broadcast use is_ascii_spec_bytes;

    reveal(precedes);
    let table = ENTITIES_UPPER_M@;
    reveal_strlit("&Mu;");
    assert(is_ascii("&Mu;"));
}

/// Every name in `ENTITIES_UPPER_M` starts with `&M` and has 3 to 33 bytes, and
/// each name comes before the next in the order of byte strings.
pub proof fn lemma_names_upper_m()
    ensures
        names_start_with(ENTITIES_UPPER_M@, 'M' as u8),
        names_ascend(ENTITIES_UPPER_M@),
{
    lemma_names_upper_m_from_0();
    lemma_names_upper_m_from_8();
}

/// The names of `ENTITIES_LOWER_M` from entry 0 up to entry 8.
proof fn lemma_names_lower_m_from_0()
    ensures
        names_in_order(ENTITIES_LOWER_M@, 'm' as u8, 0, 8),
{
    broadcast use is_ascii_spec_bytes;

    reveal(precedes);
    let table = ENTITIES_LOWER_M@;
    reveal_strlit("&mDDot;");
    assert(is_ascii("&mDDot;"));
    reveal_strlit("&macr");
    assert(is_ascii("&macr"));
    reveal_strlit("&macr;");
    assert(is_ascii("&macr;"));
    reveal_strlit("&male;");
    assert(is_ascii("&male;"));
    reveal_strlit("&malt;");
    assert(is_ascii("&malt;"));
    reveal_strlit("&maltese;");
    assert(is_ascii("&maltese;"));
    reveal_strlit("&map;");
    assert(is_ascii("&map;"));
    reveal_strlit("&mapsto;");
    assert(is_ascii("&mapsto;"));
    reveal_strlit("&mapstodown;");
    assert(is_ascii("&mapstodown;"));
    assert(precedes_at(entry_name(table[0]), entry_name(table[1]), 2));
    assert(precedes_at(entry_name(table[1]), entry_name(table[2]), 5));
    assert(precedes_at(entry_name(table[2]), entry_name(table[3]), 3));
    assert(precedes_at(entry_name(table[3]), entry_name(table[4]), 4));
    assert(precedes_at(entry_name(table[4]), entry_name(table[5]), 5));
    assert(precedes_at(entry_name(table[5]), entry_name(table[6]), 3));
    assert(precedes_at(entry_name(table[6]), entry_name(table[7]), 4));
    assert(precedes_at(entry_name(table[7]), entry_name(table[8]), 7));
}

/// The names of `ENTITIES_LOWER_M` from entry 8 up to entry 16.
proof fn lemma_names_lower_m_from_8()
    ensures
        names_in_order(ENTITIES_LOWER_M@, 'm' as u8, 8, 16),
{
    broadcast use is_ascii_spec_bytes;

    reveal(precedes);
    let table = ENTITIES_LOWER_M@;
    reveal_strlit("&mapstodown;");
    assert(is_ascii("&mapstodown;"));
    reveal_strlit("&mapstoleft;");
    assert(is_ascii("&mapstoleft;"));
    reveal_strlit("&mapstoup;");
    assert(is_ascii("&mapstoup;"));
    reveal_strlit("&marker;");
    assert(is_ascii("&marker;"));
    reveal_strlit("&mcomma;");
    assert(is_ascii("&mcomma;"));
    reveal_strlit("&mcy;");
    assert(is_ascii("&mcy;"));
    reveal_strlit("&mdash;");
    assert(is_ascii("&mdash;"));
    reveal_strlit("&measuredangle;");
    assert(is_ascii("&measuredangle;"));
    reveal_strlit("&mfr;");
    assert(is_ascii("&mfr;"));
    assert(precedes_at(entry_name(table[8]), entry_name(table[9]), 7));
    assert(precedes_at(entry_name(table[9]), entry_name(table[10]), 7));
    assert(precedes_at(entry_name(table[10]), entry_name(table[11]), 3));
    assert(precedes_at(entry_name(table[11]), entry_name(table[12]), 2));
    assert(precedes_at(entry_name(table[12]), entry_name(table[13]), 3));
    assert(precedes_at(entry_name(table[13]), entry_name(table[14]), 2));
    assert(precedes_at(entry_name(table[14]), entry_name(table[15]), 2));
    assert(precedes_at(entry_name(table[15]), entry_name(table[16]), 2));
}

/// The names of `ENTITIES_LOWER_M` from entry 16 up to entry 24.
proof fn lemma_names_lower_m_from_16()
    ensures
        names_in_order(ENTITIES_LOWER_M@, 'm' as u8, 16, 24),
{
    broadcast use is_ascii_spec_bytes;

    reveal(precedes);
    let table = ENTITIES_LOWER_M@;
    reveal_strlit("&mfr;");
    assert(is_ascii("&mfr;"));
    reveal_strlit("&mho;");
    assert(is_ascii("&mho;"));
    reveal_strlit("&micro");
    assert(is_ascii("&micro"));
    reveal_strlit("&micro;");
    assert(is_ascii("&micro;"));
    reveal_strlit("&mid;");
    assert(is_ascii("&mid;"));
    reveal_strlit("&midast;");
    assert(is_ascii("&midast;"));
    reveal_strlit("&midcir;");
    assert(is_ascii("&midcir;"));
    reveal_strlit("&middot");
    assert(is_ascii("&middot"));
    reveal_strlit("&middot;");
    assert(is_ascii("&middot;"));
    assert(precedes_at(entry_name(table[16]), entry_name(table[17]), 2));
    assert(precedes_at(entry_name(table[17]), entry_name(table[18]), 2));
    assert(precedes_at(entry_name(table[18]), entry_name(table[19]), 6));
    assert(precedes_at(entry_name(table[19]), entry_name(table[20]), 3));
    assert(precedes_at(entry_name(table[20]), entry_name(table[21]), 4));
    assert(precedes_at(entry_name(table[21]), entry_name(table[22]), 4));
    assert(precedes_at(entry_name(table[22]), entry_name(table[23]), 4));
    assert(precedes_at(entry_name(table[23]), entry_name(table[24]), 7));
}

/// The names of `ENTITIES_LOWER_M` from entry 24 up to entry 32.
proof fn lemma_names_lower_m_from_24()
    ensures
        names_in_order(ENTITIES_LOWER_M@, 'm' as u8, 24, 32),
{
    broadcast use is_ascii_spec_bytes;

    reveal(precedes);
    let table = ENTITIES_LOWER_M@;
    reveal_strlit("&middot;");
    assert(is_ascii("&middot;"));
    reveal_strlit("&minus;");
    assert(is_ascii("&minus;"));
    reveal_strlit("&minusb;");
    assert(is_ascii("&minusb;"));
    reveal_strlit("&minusd;");
    assert(is_ascii("&minusd;"));
    reveal_strlit("&minusdu;");
    assert(is_ascii("&minusdu;"));
    reveal_strlit("&mlcp;");
    assert(is_ascii("&mlcp;"));
    reveal_strlit("&mldr;");
    assert(is_ascii("&mldr;"));
    reveal_strlit("&mnplus;");
    assert(is_ascii("&mnplus;"));
    reveal_strlit("&models;");
    assert(is_ascii("&models;"));
    assert(precedes_at(entry_name(table[24]), entry_name(table[25]), 3));
    assert(precedes_at(entry_name(table[25]), entry_name(table[26]), 6));
    assert(precedes_at(entry_name(table[26]), entry_name(table[27]), 6));
    assert(precedes_at(entry_name(table[27]), entry_name(table[28]), 7));
    assert(precedes_at(entry_name(table[28]), entry_name(table[29]), 2));
    assert(precedes_at(entry_name(table[29]), entry_name(table[30]), 3));
    assert(precedes_at(entry_name(table[30]), entry_name(table[31]), 2));
    assert(precedes_at(entry_name(table[31]), entry_name(table[32]), 2));
}

/// The names of `ENTITIES_LOWER_M` from entry 32 up to entry 40.
proof fn lemma_names_lower_m_from_32()
    ensures
        names_in_order(ENTITIES_LOWER_M@, 'm' as u8, 32, 40),
{
    broadcast use is_ascii_spec_bytes;

    reveal(precedes);
    let table = ENTITIES_LOWER_M@;
    reveal_strlit("&models;");
    assert(is_ascii("&models;"));
    reveal_strlit("&mopf;");
    assert(is_ascii("&mopf;"));
    reveal_strlit("&mp;");
    assert(is_ascii("&mp;"));
    reveal_strlit("&mscr;");
    assert(is_ascii("&mscr;"));
    reveal_strlit("&mstpos;");
    assert(is_ascii("&mstpos;"));
    reveal_strlit("&mu;");
    assert(is_ascii("&mu;"));
    reveal_strlit("&multimap;");
    assert(is_ascii("&multimap;"));
    reveal_strlit("&mumap;");
    assert(is_ascii("&mumap;"));
    assert(precedes_at(entry_name(table[32]), entry_name(table[33]), 3));
    assert(precedes_at(entry_name(table[33]), entry_name(table[34]), 2));
    assert(precedes_at(entry_name(table[34]), entry_name(table[35]), 2));
    assert(precedes_at(entry_name(table[35]), entry_name(table[36]), 3));
    assert(precedes_at(entry_name(table[36]), entry_name(table[37]), 2));
    assert(precedes_at(entry_name(table[37]), entry_name(table[38]), 3));
    assert(precedes_at(entry_name(table[38]), entry_name(table[39]), 3));
}

/// Every name in `ENTITIES_LOWER_M` starts with `&m` and has 3 to 33 bytes, and
/// each name comes before the next in the order of byte strings.
pub proof fn lemma_names_lower_m()
    ensures
        names_start_with(ENTITIES_LOWER_M@, 'm' as u8),
        names_ascend(ENTITIES_LOWER_M@),
{
    lemma_names_lower_m_from_0();
    lemma_names_lower_m_from_8();
    lemma_names_lower_m_from_16();
    lemma_names_lower_m_from_24();
    lemma_names_lower_m_from_32();
}

} // verus!
