//! The named character references that start with `K` or `k`.

use crate::entities::{names_in_order, names_start_with};
use crate::search::{entry_name, names_ascend, precedes, precedes_at, Entry};
use vstd::prelude::*;
use vstd::string::{is_ascii, is_ascii_spec_bytes};

verus! {

/// The named character references that start with `&K`, each with its
/// expansion, in the order of byte strings.
pub const ENTITIES_UPPER_K: [Entry; 8] = [
    ("&KHcy;", "\u{425}"),
    ("&KJcy;", "\u{40c}"),
    ("&Kappa;", "\u{39a}"),
    ("&Kcedil;", "\u{136}"),
    ("&Kcy;", "\u{41a}"),
    ("&Kfr;", "\u{1d50e}"),
    ("&Kopf;", "\u{1d542}"),
    ("&Kscr;", "\u{1d4a6}"),
];

/// The named character references that start with `&k`, each with its
/// expansion, in the order of byte strings.
pub const ENTITIES_LOWER_K: [Entry; 10] = [
    ("&kappa;", "\u{3ba}"),
    ("&kappav;", "\u{3f0}"),
    ("&kcedil;", "\u{137}"),
    ("&kcy;", "\u{43a}"),
    ("&kfr;", "\u{1d528}"),
    ("&kgreen;", "\u{138}"),
    ("&khcy;", "\u{445}"),
    ("&kjcy;", "\u{45c}"),
    ("&kopf;", "\u{1d55c}"),
    ("&kscr;", "\u{1d4c0}"),
];

/// The names of `ENTITIES_UPPER_K` from entry 0 up to entry 8.
proof fn lemma_names_upper_k_from_0()
    ensures
        names_in_order(ENTITIES_UPPER_K@, 'K' as u8, 0, 8),
{
    broadcast use is_ascii_spec_bytes;

    reveal(precedes);
    let table = ENTITIES_UPPER_K@;
    reveal_strlit("&KHcy;");
    assert(is_ascii("&KHcy;"));
    reveal_strlit("&KJcy;");
    assert(is_ascii("&KJcy;"));
    reveal_strlit("&Kappa;");
    assert(is_ascii("&Kappa;"));
    reveal_strlit("&Kcedil;");
    assert(is_ascii("&Kcedil;"));
    reveal_strlit("&Kcy;");
    assert(is_ascii("&Kcy;"));
    reveal_strlit("&Kfr;");
    assert(is_ascii("&Kfr;"));
    reveal_strlit("&Kopf;");
    assert(is_ascii("&Kopf;"));
    reveal_strlit("&Kscr;");
    assert(is_ascii("&Kscr;"));
    assert(precedes_at(entry_name(table[0]), entry_name(table[1]), 2));
    assert(precedes_at(entry_name(table[1]), entry_name(table[2]), 2));
    assert(precedes_at(entry_name(table[2]), entry_name(table[3]), 2));
    assert(precedes_at(entry_name(table[3]), entry_name(table[4]), 3));
    assert(precedes_at(entry_name(table[4]), entry_name(table[5]), 2));
    assert(precedes_at(entry_name(table[5]), entry_name(table[6]), 2));
    assert(precedes_at(entry_name(table[6]), entry_name(table[7]), 2));
}

/// Every name in `ENTITIES_UPPER_K` starts with `&K` and has 3 to 33 bytes, and
/// each name comes before the next in the order of byte strings.
pub proof fn lemma_names_upper_k()
    ensures
        names_start_with(ENTITIES_UPPER_K@, 'K' as u8),
        names_ascend(ENTITIES_UPPER_K@),
{
    lemma_names_upper_k_from_0();
}

/// The names of `ENTITIES_LOWER_K` from entry 0 up to entry 8.
proof fn lemma_names_lower_k_from_0()
    ensures
        names_in_order(ENTITIES_LOWER_K@, 'k' as u8, 0, 8),
{
    broadcast use is_ascii_spec_bytes;

    reveal(precedes);
    let table = ENTITIES_LOWER_K@;
    reveal_strlit("&kappa;");
    assert(is_ascii("&kappa;"));
    reveal_strlit("&kappav;");
    assert(is_ascii("&kappav;"));
    reveal_strlit("&kcedil;");
    assert(is_ascii("&kcedil;"));
    reveal_strlit("&kcy;");
    assert(is_ascii("&kcy;"));
    reveal_strlit("&kfr;");
    assert(is_ascii("&kfr;"));
    reveal_strlit("&kgreen;");
    assert(is_ascii("&kgreen;"));
    reveal_strlit("&khcy;");
    assert(is_ascii("&khcy;"));
    reveal_strlit("&kjcy;");
    assert(is_ascii("&kjcy;"));
    reveal_strlit("&kopf;");
    assert(is_ascii("&kopf;"));
    assert(precedes_at(entry_name(table[0]), entry_name(table[1]), 6));
    assert(precedes_at(entry_name(table[1]), entry_name(table[2]), 2));
    assert(precedes_at(entry_name(table[2]), entry_name(table[3]), 3));
    assert(precedes_at(entry_name(table[3]), entry_name(table[4]), 2));
    assert(precedes_at(entry_name(table[4]), entry_name(table[5]), 2));
    assert(precedes_at(entry_name(table[5]), entry_name(table[6]), 2));
    assert(precedes_at(entry_name(table[6]), entry_name(table[7]), 2));
    assert(precedes_at(entry_name(table[7]), entry_name(table[8]), 2));
}

/// The names of `ENTITIES_LOWER_K` from entry 8 up to entry 10.
proof fn lemma_names_lower_k_from_8()
    ensures
        names_in_order(ENTITIES_LOWER_K@, 'k' as u8, 8, 10),
{
    broadcast use is_ascii_spec_bytes;

    reveal(precedes);
    let table = ENTITIES_LOWER_K@;
    reveal_strlit("&kopf;");
    assert(is_ascii("&kopf;"));
    reveal_strlit("&kscr;");
    assert(is_ascii("&kscr;"));
    assert(precedes_at(entry_name(table[8]), entry_name(table[9]), 2));
}

/// Every name in `ENTITIES_LOWER_K` starts with `&k` and has 3 to 33 bytes, and
/// each name comes before the next in the order of byte strings.
pub proof fn lemma_names_lower_k()
    ensures
        names_start_with(ENTITIES_LOWER_K@, 'k' as u8),
        names_ascend(ENTITIES_LOWER_K@),
{
    lemma_names_lower_k_from_0();
    lemma_names_lower_k_from_8();
}

} // verus!
