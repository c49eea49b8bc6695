//! The named character references that start with `J` or `j`.

use crate::entities::{names_in_order, names_start_with};
use crate::search::{entry_name, names_ascend, precedes, precedes_at, Entry};
use vstd::prelude::*;
use vstd::string::{is_ascii, is_ascii_spec_bytes};

verus! {

/// The named character references that start with `&J`, each with its
/// expansion, in the order of byte strings.
pub const ENTITIES_UPPER_J: [Entry; 7] = [
    ("&Jcirc;", "\u{134}"),
    ("&Jcy;", "\u{419}"),
    ("&Jfr;", "\u{1d50d}"),
    ("&Jopf;", "\u{1d541}"),
    ("&Jscr;", "\u{1d4a5}"),
    ("&Jsercy;", "\u{408}"),
    ("&Jukcy;", "\u{404}"),
];

/// The named character references that start with `&j`, each with its
/// expansion, in the order of byte strings.
pub const ENTITIES_LOWER_J: [Entry; 8] = [
    ("&jcirc;", "\u{135}"),
    ("&jcy;", "\u{439}"),
    ("&jfr;", "\u{1d527}"),
    ("&jmath;", "\u{237}"),
    ("&jopf;", "\u{1d55b}"),
    ("&jscr;", "\u{1d4bf}"),
    ("&jsercy;", "\u{458}"),
    ("&jukcy;", "\u{454}"),
];

/// The names of `ENTITIES_UPPER_J` from entry 0 up to entry 7.
proof fn lemma_names_upper_j_from_0()
    ensures
        names_in_order(ENTITIES_UPPER_J@, 'J' as u8, 0, 7),
{
    broadcast use is_ascii_spec_bytes;

    reveal(precedes);
    let table = ENTITIES_UPPER_J@;
    reveal_strlit("&Jcirc;");
    assert(is_ascii("&Jcirc;"));
    reveal_strlit("&Jcy;");
    assert(is_ascii("&Jcy;"));
    reveal_strlit("&Jfr;");
    assert(is_ascii("&Jfr;"));
    reveal_strlit("&Jopf;");
    assert(is_ascii("&Jopf;"));
    reveal_strlit("&Jscr;");
    assert(is_ascii("&Jscr;"));
    reveal_strlit("&Jsercy;");
    assert(is_ascii("&Jsercy;"));
    reveal_strlit("&Jukcy;");
    assert(is_ascii("&Jukcy;"));
    assert(precedes_at(entry_name(table[0]), entry_name(table[1]), 3));
    assert(precedes_at(entry_name(table[1]), entry_name(table[2]), 2));
    assert(precedes_at(entry_name(table[2]), entry_name(table[3]), 2));
    assert(precedes_at(entry_name(table[3]), entry_name(table[4]), 2));
    assert(precedes_at(entry_name(table[4]), entry_name(table[5]), 3));
    assert(precedes_at(entry_name(table[5]), entry_name(table[6]), 2));
}

/// Every name in `ENTITIES_UPPER_J` starts with `&J` and has 3 to 33 bytes, and
/// each name comes before the next in the order of byte strings.
pub proof fn lemma_names_upper_j()
    ensures
        names_start_with(ENTITIES_UPPER_J@, 'J' as u8),
        names_ascend(ENTITIES_UPPER_J@),
{
    lemma_names_upper_j_from_0();
}

/// The names of `ENTITIES_LOWER_J` from entry 0 up to entry 8.
proof fn lemma_names_lower_j_from_0()
    ensures
        names_in_order(ENTITIES_LOWER_J@, 'j' as u8, 0, 8),
{
    broadcast use is_ascii_spec_bytes;

    reveal(precedes);
    let table = ENTITIES_LOWER_J@;
    reveal_strlit("&jcirc;");
    assert(is_ascii("&jcirc;"));
    reveal_strlit("&jcy;");
    assert(is_ascii("&jcy;"));
    reveal_strlit("&jfr;");
    assert(is_ascii("&jfr;"));
    reveal_strlit("&jmath;");
    assert(is_ascii("&jmath;"));
    reveal_strlit("&jopf;");
    assert(is_ascii("&jopf;"));
    reveal_strlit("&jscr;");
    assert(is_ascii("&jscr;"));
    reveal_strlit("&jsercy;");
    assert(is_ascii("&jsercy;"));
    reveal_strlit("&jukcy;");
    assert(is_ascii("&jukcy;"));
    assert(precedes_at(entry_name(table[0]), entry_name(table[1]), 3));
    assert(precedes_at(entry_name(table[1]), entry_name(table[2]), 2));
    assert(precedes_at(entry_name(table[2]), entry_name(table[3]), 2));
    assert(precedes_at(entry_name(table[3]), entry_name(table[4]), 2));
    assert(precedes_at(entry_name(table[4]), entry_name(table[5]), 2));
    assert(precedes_at(entry_name(table[5]), entry_name(table[6]), 3));
    assert(precedes_at(entry_name(table[6]), entry_name(table[7]), 2));
}

/// Every name in `ENTITIES_LOWER_J` starts with `&j` and has 3 to 33 bytes, and
/// each name comes before the next in the order of byte strings.
pub proof fn lemma_names_lower_j()
    ensures
        names_start_with(ENTITIES_LOWER_J@, 'j' as u8),
        names_ascend(ENTITIES_LOWER_J@),
{
    lemma_names_lower_j_from_0();
}

} // verus!
