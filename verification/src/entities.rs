//! The table of named character references, and the search in it.

pub mod a;
pub mod b;
pub mod c;
pub mod d;
pub mod e;
pub mod f;
pub mod g;
pub mod h;
pub mod i;
pub mod j;
pub mod k;
pub mod l;
pub mod m;
pub mod n;
pub mod o;
pub mod p;
pub mod q;
pub mod r;
pub mod s;
pub mod t;
pub mod u;
pub mod v;
pub mod w;
pub mod x;
pub mod y;
pub mod z;

use crate::entities::a::{
    lemma_names_lower_a, lemma_names_upper_a, ENTITIES_LOWER_A, ENTITIES_UPPER_A,
};
use crate::entities::b::{
    lemma_names_lower_b, lemma_names_upper_b, ENTITIES_LOWER_B, ENTITIES_UPPER_B,
};
use crate::entities::c::{
    lemma_names_lower_c, lemma_names_upper_c, ENTITIES_LOWER_C, ENTITIES_UPPER_C,
};
use crate::entities::d::{
    lemma_names_lower_d, lemma_names_upper_d, ENTITIES_LOWER_D, ENTITIES_UPPER_D,
};
use crate::entities::e::{
    lemma_names_lower_e, lemma_names_upper_e, ENTITIES_LOWER_E, ENTITIES_UPPER_E,
};
use crate::entities::f::{
    lemma_names_lower_f, lemma_names_upper_f, ENTITIES_LOWER_F, ENTITIES_UPPER_F,
};
use crate::entities::g::{
    lemma_names_lower_g, lemma_names_upper_g, ENTITIES_LOWER_G, ENTITIES_UPPER_G,
};
use crate::entities::h::{
    lemma_names_lower_h, lemma_names_upper_h, ENTITIES_LOWER_H, ENTITIES_UPPER_H,
};
use crate::entities::i::{
    lemma_names_lower_i, lemma_names_upper_i, ENTITIES_LOWER_I, ENTITIES_UPPER_I,
};
use crate::entities::j::{
    lemma_names_lower_j, lemma_names_upper_j, ENTITIES_LOWER_J, ENTITIES_UPPER_J,
};
use crate::entities::k::{
    lemma_names_lower_k, lemma_names_upper_k, ENTITIES_LOWER_K, ENTITIES_UPPER_K,
};
use crate::entities::l::{
    lemma_names_lower_l, lemma_names_upper_l, ENTITIES_LOWER_L, ENTITIES_UPPER_L,
};
use crate::entities::m::{
    lemma_names_lower_m, lemma_names_upper_m, ENTITIES_LOWER_M, ENTITIES_UPPER_M,
};
use crate::entities::n::{
    lemma_names_lower_n, lemma_names_upper_n, ENTITIES_LOWER_N, ENTITIES_UPPER_N,
};
use crate::entities::o::{
    lemma_names_lower_o, lemma_names_upper_o, ENTITIES_LOWER_O, ENTITIES_UPPER_O,
};
use crate::entities::p::{
    lemma_names_lower_p, lemma_names_upper_p, ENTITIES_LOWER_P, ENTITIES_UPPER_P,
};
use crate::entities::q::{
    lemma_names_lower_q, lemma_names_upper_q, ENTITIES_LOWER_Q, ENTITIES_UPPER_Q,
};
use crate::entities::r::{
    lemma_names_lower_r, lemma_names_upper_r, ENTITIES_LOWER_R, ENTITIES_UPPER_R,
};
use crate::entities::s::{
    lemma_names_lower_s, lemma_names_upper_s, ENTITIES_LOWER_S, ENTITIES_UPPER_S,
};
use crate::entities::t::{
    lemma_names_lower_t, lemma_names_upper_t, ENTITIES_LOWER_T, ENTITIES_UPPER_T,
};
use crate::entities::u::{
    lemma_names_lower_u, lemma_names_upper_u, ENTITIES_LOWER_U, ENTITIES_UPPER_U,
};
use crate::entities::v::{
    lemma_names_lower_v, lemma_names_upper_v, ENTITIES_LOWER_V, ENTITIES_UPPER_V,
};
use crate::entities::w::{
    lemma_names_lower_w, lemma_names_upper_w, ENTITIES_LOWER_W, ENTITIES_UPPER_W,
};
use crate::entities::x::{
    lemma_names_lower_x, lemma_names_upper_x, ENTITIES_LOWER_X, ENTITIES_UPPER_X,
};
use crate::entities::y::{
    lemma_names_lower_y, lemma_names_upper_y, ENTITIES_LOWER_Y, ENTITIES_UPPER_Y,
};
use crate::entities::z::{
    lemma_names_lower_z, lemma_names_upper_z, ENTITIES_LOWER_Z, ENTITIES_UPPER_Z,
};
use crate::scan::AMPERSAND;
use crate::search::{
    entry_expansion, entry_name, expansion_in, find_in, lemma_expansion_in_concat,
    lemma_expansion_in_found, lemma_names_differ, names_ascend, precedes, Entry,
};
use vstd::prelude::*;
use vstd::string::{is_ascii, is_ascii_spec_bytes, StringSliceAdditionalSpecFns};

verus! {

/// The length of the shortest name in the table, `&` and `;` counted.
pub const ENTITY_MIN_LENGTH: usize = 3;

/// The length of the longest name in the table, `&` and `;` counted.
pub const ENTITY_MAX_LENGTH: usize = 33;

/// The section of a byte that no name starts with.
pub const NO_ENTITIES: [Entry; 0] = [];

/// Whether `name` is `&`, then `letter`, then more, 3 to 33 bytes in all.
pub open spec fn name_starts_with(name: Seq<u8>, letter: u8) -> bool {
    &&& ENTITY_MIN_LENGTH <= name.len() <= ENTITY_MAX_LENGTH
    &&& name[0] == AMPERSAND
    &&& name[1] == letter
}

/// Whether every name in `table` starts with `&` and `letter`.
pub open spec fn names_start_with(table: Seq<Entry>, letter: u8) -> bool {
    forall|i: int|
        0 <= i < table.len() ==> name_starts_with(#[trigger] entry_name(table[i]), letter)
}

/// Whether the names of `table` from `from` up to `to` start with `&` and
/// `letter`, and each of them comes before the next name of the table.
pub open spec fn names_in_order(table: Seq<Entry>, letter: u8, from: int, to: int) -> bool {
    &&& forall|i: int|
        from <= i < to ==> name_starts_with(#[trigger] entry_name(table[i]), letter)
    &&& forall|i: int, j: int|
        from <= i < to && j == i + 1 && j < table.len() ==> precedes(
            #[trigger] entry_name(table[i]),
            #[trigger] entry_name(table[j]),
        )
}

/// The section of the table that holds the names whose first byte after
/// `&` is `letter`.
#[verifier::opaque]
pub open spec fn section_of(letter: u8) -> Seq<Entry> {
    if letter == 'A' as u8 {
        ENTITIES_UPPER_A@
    } else if letter == 'B' as u8 {
        ENTITIES_UPPER_B@
    } else if letter == 'C' as u8 {
        ENTITIES_UPPER_C@
    } else if letter == 'D' as u8 {
        ENTITIES_UPPER_D@
    } else if letter == 'E' as u8 {
        ENTITIES_UPPER_E@
    } else if letter == 'F' as u8 {
        ENTITIES_UPPER_F@
    } else if letter == 'G' as u8 {
        ENTITIES_UPPER_G@
    } else if letter == 'H' as u8 {
        ENTITIES_UPPER_H@
    } else if letter == 'I' as u8 {
        ENTITIES_UPPER_I@
    } else if letter == 'J' as u8 {
        ENTITIES_UPPER_J@
    } else if letter == 'K' as u8 {
        ENTITIES_UPPER_K@
    } else if letter == 'L' as u8 {
        ENTITIES_UPPER_L@
    } else if letter == 'M' as u8 {
        ENTITIES_UPPER_M@
    } else if letter == 'N' as u8 {
        ENTITIES_UPPER_N@
    } else if letter == 'O' as u8 {
        ENTITIES_UPPER_O@
    } else if letter == 'P' as u8 {
        ENTITIES_UPPER_P@
    } else if letter == 'Q' as u8 {
        ENTITIES_UPPER_Q@
    } else if letter == 'R' as u8 {
        ENTITIES_UPPER_R@
    } else if letter == 'S' as u8 {
        ENTITIES_UPPER_S@
    } else if letter == 'T' as u8 {
        ENTITIES_UPPER_T@
    } else if letter == 'U' as u8 {
        ENTITIES_UPPER_U@
    } else if letter == 'V' as u8 {
        ENTITIES_UPPER_V@
    } else if letter == 'W' as u8 {
        ENTITIES_UPPER_W@
    } else if letter == 'X' as u8 {
        ENTITIES_UPPER_X@
    } else if letter == 'Y' as u8 {
        ENTITIES_UPPER_Y@
    } else if letter == 'Z' as u8 {
        ENTITIES_UPPER_Z@
    } else if letter == 'a' as u8 {
        ENTITIES_LOWER_A@
    } else if letter == 'b' as u8 {
        ENTITIES_LOWER_B@
    } else if letter == 'c' as u8 {
        ENTITIES_LOWER_C@
    } else if letter == 'd' as u8 {
        ENTITIES_LOWER_D@
    } else if letter == 'e' as u8 {
        ENTITIES_LOWER_E@
    } else if letter == 'f' as u8 {
        ENTITIES_LOWER_F@
    } else if letter == 'g' as u8 {
        ENTITIES_LOWER_G@
    } else if letter == 'h' as u8 {
        ENTITIES_LOWER_H@
    } else if letter == 'i' as u8 {
        ENTITIES_LOWER_I@
    } else if letter == 'j' as u8 {
        ENTITIES_LOWER_J@
    } else if letter == 'k' as u8 {
        ENTITIES_LOWER_K@
    } else if letter == 'l' as u8 {
        ENTITIES_LOWER_L@
    } else if letter == 'm' as u8 {
        ENTITIES_LOWER_M@
    } else if letter == 'n' as u8 {
        ENTITIES_LOWER_N@
    } else if letter == 'o' as u8 {
        ENTITIES_LOWER_O@
    } else if letter == 'p' as u8 {
        ENTITIES_LOWER_P@
    } else if letter == 'q' as u8 {
        ENTITIES_LOWER_Q@
    } else if letter == 'r' as u8 {
        ENTITIES_LOWER_R@
    } else if letter == 's' as u8 {
        ENTITIES_LOWER_S@
    } else if letter == 't' as u8 {
        ENTITIES_LOWER_T@
    } else if letter == 'u' as u8 {
        ENTITIES_LOWER_U@
    } else if letter == 'v' as u8 {
        ENTITIES_LOWER_V@
    } else if letter == 'w' as u8 {
        ENTITIES_LOWER_W@
    } else if letter == 'x' as u8 {
        ENTITIES_LOWER_X@
    } else if letter == 'y' as u8 {
        ENTITIES_LOWER_Y@
    } else if letter == 'z' as u8 {
        ENTITIES_LOWER_Z@
    } else {
        Seq::empty()
    }
}

/// The sections of the bytes below `bound`, one after the other.
pub open spec fn entities_before(bound: int) -> Seq<Entry>
    decreases bound,
{
    if bound <= 0 {
        Seq::empty()
    } else {
        entities_before(bound - 1) + section_of((bound - 1) as u8)
    }
}

/// The whole table: all sections, in the order of their first letters.
pub open spec fn all_entities() -> Seq<Entry> {
    entities_before(256)
}

/// What the reference named `name` expands to, if the table holds it.
/// `name` starts with `&` and ends with `;` where the reference has one.
pub open spec fn named_expansion(name: Seq<u8>) -> Option<Seq<u8>> {
    expansion_in(all_entities(), name)
}

/// The names of a section start with `&` and the section's letter, have
/// 3 to 33 bytes, and ascend in the order of byte strings.
pub proof fn lemma_section_names(letter: u8)
    ensures
        names_start_with(section_of(letter), letter),
        names_ascend(section_of(letter)),
{
    reveal(section_of);
    if letter == 'A' as u8 {
        lemma_names_upper_a();
    } else if letter == 'B' as u8 {
        lemma_names_upper_b();
    } else if letter == 'C' as u8 {
        lemma_names_upper_c();
    } else if letter == 'D' as u8 {
        lemma_names_upper_d();
    } else if letter == 'E' as u8 {
        lemma_names_upper_e();
    } else if letter == 'F' as u8 {
        lemma_names_upper_f();
    } else if letter == 'G' as u8 {
        lemma_names_upper_g();
    } else if letter == 'H' as u8 {
        lemma_names_upper_h();
    } else if letter == 'I' as u8 {
        lemma_names_upper_i();
    } else if letter == 'J' as u8 {
        lemma_names_upper_j();
    } else if letter == 'K' as u8 {
        lemma_names_upper_k();
    } else if letter == 'L' as u8 {
        lemma_names_upper_l();
    } else if letter == 'M' as u8 {
        lemma_names_upper_m();
    } else if letter == 'N' as u8 {
        lemma_names_upper_n();
    } else if letter == 'O' as u8 {
        lemma_names_upper_o();
    } else if letter == 'P' as u8 {
        lemma_names_upper_p();
    } else if letter == 'Q' as u8 {
        lemma_names_upper_q();
    } else if letter == 'R' as u8 {
        lemma_names_upper_r();
    } else if letter == 'S' as u8 {
        lemma_names_upper_s();
    } else if letter == 'T' as u8 {
        lemma_names_upper_t();
    } else if letter == 'U' as u8 {
        lemma_names_upper_u();
    } else if letter == 'V' as u8 {
        lemma_names_upper_v();
    } else if letter == 'W' as u8 {
        lemma_names_upper_w();
    } else if letter == 'X' as u8 {
        lemma_names_upper_x();
    } else if letter == 'Y' as u8 {
        lemma_names_upper_y();
    } else if letter == 'Z' as u8 {
        lemma_names_upper_z();
    } else if letter == 'a' as u8 {
        lemma_names_lower_a();
    } else if letter == 'b' as u8 {
        lemma_names_lower_b();
    } else if letter == 'c' as u8 {
        lemma_names_lower_c();
    } else if letter == 'd' as u8 {
        lemma_names_lower_d();
    } else if letter == 'e' as u8 {
        lemma_names_lower_e();
    } else if letter == 'f' as u8 {
        lemma_names_lower_f();
    } else if letter == 'g' as u8 {
        lemma_names_lower_g();
    } else if letter == 'h' as u8 {
        lemma_names_lower_h();
    } else if letter == 'i' as u8 {
        lemma_names_lower_i();
    } else if letter == 'j' as u8 {
        lemma_names_lower_j();
    } else if letter == 'k' as u8 {
        lemma_names_lower_k();
    } else if letter == 'l' as u8 {
        lemma_names_lower_l();
    } else if letter == 'm' as u8 {
        lemma_names_lower_m();
    } else if letter == 'n' as u8 {
        lemma_names_lower_n();
    } else if letter == 'o' as u8 {
        lemma_names_lower_o();
    } else if letter == 'p' as u8 {
        lemma_names_lower_p();
    } else if letter == 'q' as u8 {
        lemma_names_lower_q();
    } else if letter == 'r' as u8 {
        lemma_names_lower_r();
    } else if letter == 's' as u8 {
        lemma_names_lower_s();
    } else if letter == 't' as u8 {
        lemma_names_lower_t();
    } else if letter == 'u' as u8 {
        lemma_names_lower_u();
    } else if letter == 'v' as u8 {
        lemma_names_lower_v();
    } else if letter == 'w' as u8 {
        lemma_names_lower_w();
    } else if letter == 'x' as u8 {
        lemma_names_lower_x();
    } else if letter == 'y' as u8 {
        lemma_names_lower_y();
    } else if letter == 'z' as u8 {
        lemma_names_lower_z();
    }
}

/// The section of `letter`.
pub fn section(letter: u8) -> (table: &'static [Entry])
    ensures
        table@ == section_of(letter),
{
    proof {
        reveal(section_of);
    }
    if letter == 'A' as u8 {
        &ENTITIES_UPPER_A
    } else if letter == 'B' as u8 {
        &ENTITIES_UPPER_B
    } else if letter == 'C' as u8 {
        &ENTITIES_UPPER_C
    } else if letter == 'D' as u8 {
        &ENTITIES_UPPER_D
    } else if letter == 'E' as u8 {
        &ENTITIES_UPPER_E
    } else if letter == 'F' as u8 {
        &ENTITIES_UPPER_F
    } else if letter == 'G' as u8 {
        &ENTITIES_UPPER_G
    } else if letter == 'H' as u8 {
        &ENTITIES_UPPER_H
    } else if letter == 'I' as u8 {
        &ENTITIES_UPPER_I
    } else if letter == 'J' as u8 {
        &ENTITIES_UPPER_J
    } else if letter == 'K' as u8 {
        &ENTITIES_UPPER_K
    } else if letter == 'L' as u8 {
        &ENTITIES_UPPER_L
    } else if letter == 'M' as u8 {
        &ENTITIES_UPPER_M
    } else if letter == 'N' as u8 {
        &ENTITIES_UPPER_N
    } else if letter == 'O' as u8 {
        &ENTITIES_UPPER_O
    } else if letter == 'P' as u8 {
        &ENTITIES_UPPER_P
    } else if letter == 'Q' as u8 {
        &ENTITIES_UPPER_Q
    } else if letter == 'R' as u8 {
        &ENTITIES_UPPER_R
    } else if letter == 'S' as u8 {
        &ENTITIES_UPPER_S
    } else if letter == 'T' as u8 {
        &ENTITIES_UPPER_T
    } else if letter == 'U' as u8 {
        &ENTITIES_UPPER_U
    } else if letter == 'V' as u8 {
        &ENTITIES_UPPER_V
    } else if letter == 'W' as u8 {
        &ENTITIES_UPPER_W
    } else if letter == 'X' as u8 {
        &ENTITIES_UPPER_X
    } else if letter == 'Y' as u8 {
        &ENTITIES_UPPER_Y
    } else if letter == 'Z' as u8 {
        &ENTITIES_UPPER_Z
    } else if letter == 'a' as u8 {
        &ENTITIES_LOWER_A
    } else if letter == 'b' as u8 {
        &ENTITIES_LOWER_B
    } else if letter == 'c' as u8 {
        &ENTITIES_LOWER_C
    } else if letter == 'd' as u8 {
        &ENTITIES_LOWER_D
    } else if letter == 'e' as u8 {
        &ENTITIES_LOWER_E
    } else if letter == 'f' as u8 {
        &ENTITIES_LOWER_F
    } else if letter == 'g' as u8 {
        &ENTITIES_LOWER_G
    } else if letter == 'h' as u8 {
        &ENTITIES_LOWER_H
    } else if letter == 'i' as u8 {
        &ENTITIES_LOWER_I
    } else if letter == 'j' as u8 {
        &ENTITIES_LOWER_J
    } else if letter == 'k' as u8 {
        &ENTITIES_LOWER_K
    } else if letter == 'l' as u8 {
        &ENTITIES_LOWER_L
    } else if letter == 'm' as u8 {
        &ENTITIES_LOWER_M
    } else if letter == 'n' as u8 {
        &ENTITIES_LOWER_N
    } else if letter == 'o' as u8 {
        &ENTITIES_LOWER_O
    } else if letter == 'p' as u8 {
        &ENTITIES_LOWER_P
    } else if letter == 'q' as u8 {
        &ENTITIES_LOWER_Q
    } else if letter == 'r' as u8 {
        &ENTITIES_LOWER_R
    } else if letter == 's' as u8 {
        &ENTITIES_LOWER_S
    } else if letter == 't' as u8 {
        &ENTITIES_LOWER_T
    } else if letter == 'u' as u8 {
        &ENTITIES_LOWER_U
    } else if letter == 'v' as u8 {
        &ENTITIES_LOWER_V
    } else if letter == 'w' as u8 {
        &ENTITIES_LOWER_W
    } else if letter == 'x' as u8 {
        &ENTITIES_LOWER_X
    } else if letter == 'y' as u8 {
        &ENTITIES_LOWER_Y
    } else if letter == 'z' as u8 {
        &ENTITIES_LOWER_Z
    } else {
        &NO_ENTITIES
    }
}

/// No entry of a section has a name with another byte after `&`.
pub proof fn lemma_not_in_section(table: Seq<Entry>, letter: u8, name: Seq<u8>)
    requires
        names_start_with(table, letter),
        !name_starts_with(name, letter),
    ensures
        expansion_in(table, name) is None,
    decreases table.len(),
{
    if table.len() > 0 {
        assert(name_starts_with(entry_name(table[0]), letter));
        assert forall|i: int| 0 <= i < table.drop_first().len() implies name_starts_with(
            #[trigger] entry_name(table.drop_first()[i]),
            letter,
        ) by {
            assert(table.drop_first()[i] == table[i + 1]);
        }
        lemma_not_in_section(table.drop_first(), letter, name);
    }
}

/// A search in the sections below `bound` is a search in the section of
/// the byte that follows `&` in the name, if that section is among them.
pub proof fn lemma_entities_before(bound: int, name: Seq<u8>)
    requires
        0 <= bound <= 256,
    ensures
        expansion_in(entities_before(bound), name) == (if name.len() >= 2 && name[1] < bound {
            expansion_in(section_of(name[1]), name)
        } else {
            None
        }),
    decreases bound,
{
    if bound > 0 {
        let letter = (bound - 1) as u8;
        lemma_entities_before(bound - 1, name);
        lemma_expansion_in_concat(entities_before(bound - 1), section_of(letter), name);
        lemma_section_names(letter);
        if name.len() < 2 || name[1] != letter {
            lemma_not_in_section(section_of(letter), letter, name);
        }
    }
}

/// A name is in the table if and only if it is in the section of the
/// byte that follows its `&`.
pub proof fn lemma_named_expansion(name: Seq<u8>)
    ensures
        named_expansion(name) == (if name.len() >= 2 {
            expansion_in(section_of(name[1]), name)
        } else {
            None
        }),
{
    lemma_entities_before(256, name);
}

/// Every name in the table starts with `&` and has 3 to 33 bytes.
pub proof fn lemma_named_expansion_bounds(name: Seq<u8>)
    requires
        named_expansion(name) is Some,
    ensures
        ENTITY_MIN_LENGTH <= name.len() <= ENTITY_MAX_LENGTH,
        name[0] == AMPERSAND,
{
    lemma_named_expansion(name);
    lemma_section_names(name[1]);
    if !name_starts_with(name, name[1]) {
        lemma_not_in_section(section_of(name[1]), name[1], name);
    }
}

/// Among the sections below `bound`, every name has a byte below `bound`
/// after its `&`.
proof fn lemma_entities_before_letter(bound: int, i: int)
    requires
        0 <= bound <= 256,
        0 <= i < entities_before(bound).len(),
    ensures
        entry_name(entities_before(bound)[i]).len() >= 2,
        entry_name(entities_before(bound)[i])[1] < bound,
    decreases bound,
{
    let before = entities_before(bound - 1);
    let letter = (bound - 1) as u8;
    if i < before.len() {
        lemma_entities_before_letter(bound - 1, i);
    } else {
        lemma_section_names(letter);
        let name = entry_name(section_of(letter)[i - before.len()]);
        assert(name_starts_with(name, letter));
    }
}

/// Among the sections below `bound`, no two entries have the same name.
proof fn lemma_entities_before_differ(bound: int, i: int, j: int)
    requires
        0 <= bound <= 256,
        0 <= i < j < entities_before(bound).len(),
    ensures
        entry_name(entities_before(bound)[i]) != entry_name(entities_before(bound)[j]),
    decreases bound,
{
    let before = entities_before(bound - 1);
    let letter = (bound - 1) as u8;
    if j < before.len() {
        lemma_entities_before_differ(bound - 1, i, j);
    } else {
        lemma_section_names(letter);
        if i >= before.len() {
            lemma_names_differ(section_of(letter), i - before.len(), j - before.len());
        } else {
            lemma_entities_before_letter(bound - 1, i);
            let name = entry_name(section_of(letter)[j - before.len()]);
            assert(name_starts_with(name, letter));
        }
    }
}

/// No two entries of the table have the same name.
pub proof fn lemma_names_unique(i: int, j: int)
    requires
        0 <= i < all_entities().len(),
        0 <= j < all_entities().len(),
        i != j,
    ensures
        entry_name(all_entities()[i]) != entry_name(all_entities()[j]),
{
    if i < j {
        lemma_entities_before_differ(256, i, j);
    } else {
        lemma_entities_before_differ(256, j, i);
    }
}

/// An entry of a section is found in the table under its name.
proof fn lemma_entry_is_found(letter: u8, at: int)
    requires
        0 <= at < section_of(letter).len(),
    ensures
        named_expansion(entry_name(section_of(letter)[at])) == Some(
            entry_expansion(section_of(letter)[at]),
        ),
{
    let table = section_of(letter);
    let name = entry_name(table[at]);
    lemma_section_names(letter);
    assert(name_starts_with(name, letter));
    lemma_named_expansion(name);
    assert forall|i: int| 0 <= i < at implies entry_name(#[trigger] table[i]) != name by {
        lemma_names_differ(table, i, at);
    }
    lemma_expansion_in_found(table, name, at);
}

/// The table holds a name of 3 bytes and a name of 33 bytes.
pub proof fn lemma_length_bounds_are_met()
    ensures
        exists|name: Seq<u8>|
            name.len() == ENTITY_MIN_LENGTH && (#[trigger] named_expansion(name)) is Some,
        exists|name: Seq<u8>|
            name.len() == ENTITY_MAX_LENGTH && (#[trigger] named_expansion(name)) is Some,
{
    broadcast use is_ascii_spec_bytes;

    reveal(section_of);
    reveal_strlit("&GT");
    assert(is_ascii("&GT"));
    let shortest = entry_name(ENTITIES_UPPER_G@[1]);
    lemma_entry_is_found('G' as u8, 1);
    assert(shortest.len() == ENTITY_MIN_LENGTH && named_expansion(shortest) is Some);
    reveal_strlit("&CounterClockwiseContourIntegral;");
    assert(is_ascii("&CounterClockwiseContourIntegral;"));
    let longest = entry_name(ENTITIES_UPPER_C@[31]);
    lemma_entry_is_found('C' as u8, 31);
    assert(longest.len() == ENTITY_MAX_LENGTH && named_expansion(longest) is Some);
}

/// Looks `name` up in the table of named character references.
pub fn lookup(name: &[u8]) -> (expansion: Option<&'static str>)
    ensures
        match expansion {
            Some(text) => named_expansion(name@) == Some(text.spec_bytes()),
            None => named_expansion(name@) is None,
        },
{
    proof {
        lemma_named_expansion(name@);
    }
    if name.len() < 2 {
        None
    } else {
        proof {
            lemma_section_names(name[1]);
        }
        find_in(section(name[1]), name)
    }
}

} // verus!
