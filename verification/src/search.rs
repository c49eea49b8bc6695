//! Tables of named character references whose names ascend, and the
//! search in them.

use vstd::prelude::*;
use vstd::string::StringSliceAdditionalSpecFns;
use vstd::utf8::{encode_utf8_valid_utf8, valid_utf8};

verus! {

/// A named character reference: its name, from `&` on and with `;` where
/// the name has one, and the text that it expands to.
pub type Entry = (&'static str, &'static str);

/// The bytes of the name of `entry`.
pub open spec fn entry_name(entry: Entry) -> Seq<u8> {
    entry.0.spec_bytes()
}

/// The bytes of the expansion of `entry`.
pub open spec fn entry_expansion(entry: Entry) -> Seq<u8> {
    entry.1.spec_bytes()
}

/// Whether `a` and `b` agree on their first `k` bytes and then `a` ends
/// while `b` goes on, or `a` has the smaller byte.
pub open spec fn precedes_at(a: Seq<u8>, b: Seq<u8>, k: int) -> bool {
    &&& 0 <= k <= a.len()
    &&& k < b.len()
    &&& forall|j: int| 0 <= j < k ==> a[j] == b[j]
    &&& k < a.len() ==> a[k] < b[k]
}

/// Whether `a` comes before `b` in the order of byte strings.
#[verifier::opaque]
pub open spec fn precedes(a: Seq<u8>, b: Seq<u8>) -> bool {
    exists|k: int| precedes_at(a, b, k)
}

/// Whether each name in `table` comes before the next.
pub open spec fn names_ascend(table: Seq<Entry>) -> bool {
    forall|i: int, j: int|
        0 <= i && j == i + 1 && j < table.len() ==> precedes(
            #[trigger] entry_name(table[i]),
            #[trigger] entry_name(table[j]),
        )
}

/// The expansion of the first entry of `table` whose name is `name`.
pub open spec fn expansion_in(table: Seq<Entry>, name: Seq<u8>) -> Option<Seq<u8>>
    decreases table.len(),
{
    if table.len() == 0 {
        None
    } else if entry_name(table[0]) == name {
        Some(entry_expansion(table[0]))
    } else {
        expansion_in(table.drop_first(), name)
    }
}

/// No byte string comes before itself.
pub proof fn lemma_precedes_irreflexive(a: Seq<u8>)
    ensures
        !precedes(a, a),
{
    reveal(precedes);
}

/// The order of byte strings is transitive.
pub proof fn lemma_precedes_transitive(a: Seq<u8>, b: Seq<u8>, c: Seq<u8>)
    requires
        precedes(a, b),
        precedes(b, c),
    ensures
        precedes(a, c),
{
    reveal(precedes);
    let k1 = choose|k: int| precedes_at(a, b, k);
    let k2 = choose|k: int| precedes_at(b, c, k);
    let k = if k1 <= k2 {
        k1
    } else {
        k2
    };
    assert(precedes_at(a, c, k));
}

/// In a table whose names ascend, an earlier name comes before a later
/// one.
pub proof fn lemma_names_ascend(table: Seq<Entry>, i: int, j: int)
    requires
        names_ascend(table),
        0 <= i < j < table.len(),
    ensures
        precedes(entry_name(table[i]), entry_name(table[j])),
    decreases j - i,
{
    assert(precedes(entry_name(table[j - 1]), entry_name(table[j])));
    if i < j - 1 {
        lemma_names_ascend(table, i, j - 1);
        lemma_precedes_transitive(
            entry_name(table[i]),
            entry_name(table[j - 1]),
            entry_name(table[j]),
        );
    }
}

/// In a table whose names ascend, no two entries have the same name.
pub proof fn lemma_names_differ(table: Seq<Entry>, i: int, j: int)
    requires
        names_ascend(table),
        0 <= i < table.len(),
        0 <= j < table.len(),
        i != j,
    ensures
        entry_name(table[i]) != entry_name(table[j]),
{
    if i < j {
        lemma_names_ascend(table, i, j);
    } else {
        lemma_names_ascend(table, j, i);
    }
    lemma_precedes_irreflexive(entry_name(table[i]));
}

/// A search finds the entry at `at` if that is the first with the name.
pub proof fn lemma_expansion_in_found(table: Seq<Entry>, name: Seq<u8>, at: int)
    requires
        0 <= at < table.len(),
        entry_name(table[at]) == name,
        forall|i: int| 0 <= i < at ==> entry_name(#[trigger] table[i]) != name,
    ensures
        expansion_in(table, name) == Some(entry_expansion(table[at])),
    decreases at,
{
    if at > 0 {
        assert(entry_name(table[0]) != name);
        let rest = table.drop_first();
        assert(rest[at - 1] == table[at]);
        assert forall|i: int| 0 <= i < at - 1 implies entry_name(#[trigger] rest[i]) != name by {
            assert(rest[i] == table[i + 1]);
        }
        lemma_expansion_in_found(rest, name, at - 1);
    }
}

/// A search finds nothing where no entry has the name.
pub proof fn lemma_expansion_in_absent(table: Seq<Entry>, name: Seq<u8>)
    requires
        forall|i: int| 0 <= i < table.len() ==> entry_name(#[trigger] table[i]) != name,
    ensures
        expansion_in(table, name) is None,
    decreases table.len(),
{
    if table.len() > 0 {
        assert(entry_name(table[0]) != name);
        let rest = table.drop_first();
        assert forall|i: int| 0 <= i < rest.len() implies entry_name(#[trigger] rest[i])
            != name by {
            assert(rest[i] == table[i + 1]);
        }
        lemma_expansion_in_absent(rest, name);
    }
}

/// A search in two tables, one after the other, is a search in the first
/// and, where that finds nothing, in the second.
pub proof fn lemma_expansion_in_concat(first: Seq<Entry>, second: Seq<Entry>, name: Seq<u8>)
    ensures
        expansion_in(first + second, name) == (if expansion_in(first, name) is Some {
            expansion_in(first, name)
        } else {
            expansion_in(second, name)
        }),
    decreases first.len(),
{
    if first.len() == 0 {
        assert(first + second =~= second);
    } else {
        assert((first + second)[0] == first[0]);
        assert((first + second).drop_first() =~= first.drop_first() + second);
        lemma_expansion_in_concat(first.drop_first(), second, name);
    }
}

/// Every expansion in a table is well-formed UTF-8.
pub proof fn lemma_expansion_in_valid(table: Seq<Entry>, name: Seq<u8>)
    ensures
        expansion_in(table, name) matches Some(expansion) ==> valid_utf8(expansion),
    decreases table.len(),
{
    if table.len() > 0 {
        if entry_name(table[0]) == name {
            encode_utf8_valid_utf8(table[0].1@);
        } else {
            lemma_expansion_in_valid(table.drop_first(), name);
        }
    }
}

/// How one byte string stands to another in the order of byte strings.
#[derive(Clone, Copy, Debug, PartialEq, Eq, Structural)]
pub enum Place {
    Before,
    Same,
    After,
}

/// Finds how `a` stands to `b` in the order of byte strings.
pub fn compare_bytes(a: &[u8], b: &[u8]) -> (place: Place)
    ensures
        match place {
            Place::Before => precedes(a@, b@),
            Place::Same => a@ == b@,
            Place::After => precedes(b@, a@),
        },
{
    let mut i: usize = 0;
    while i < a.len() && i < b.len()
        invariant
            i <= a.len(),
            i <= b.len(),
            forall|j: int| 0 <= j < i ==> a@[j] == b@[j],
        decreases a.len() - i,
    {
        if a[i] < b[i] {
            proof {
                reveal(precedes);
                assert(precedes_at(a@, b@, i as int));
            }
            return Place::Before;
        }
        if a[i] > b[i] {
            proof {
                reveal(precedes);
                assert(precedes_at(b@, a@, i as int));
            }
            return Place::After;
        }
        i += 1;
    }
    proof {
        reveal(precedes);
    }
    if i < b.len() {
        assert(precedes_at(a@, b@, i as int));
        Place::Before
    } else if i < a.len() {
        assert(precedes_at(b@, a@, i as int));
        Place::After
    } else {
        assert(a@ =~= b@);
        Place::Same
    }
}

/// Searches `table`, whose names ascend, for the entry named `name`, and
/// returns its expansion.
pub(crate) fn find_in(table: &'static [Entry], name: &[u8]) -> (expansion: Option<&'static str>)
    requires
        names_ascend(table@),
    ensures
        match expansion {
            Some(text) => expansion_in(table@, name@) == Some(text.spec_bytes()),
            None => expansion_in(table@, name@) is None,
        },
{
    let mut low: usize = 0;
    let mut high: usize = table.len();
    while low < high
        invariant
            low <= high <= table.len(),
            names_ascend(table@),
            forall|i: int| 0 <= i < low ==> precedes(entry_name(#[trigger] table@[i]), name@),
            forall|i: int|
                high <= i < table.len() ==> precedes(name@, entry_name(#[trigger] table@[i])),
        decreases high - low,
    {
        let mid = low + (high - low) / 2;
        let ghost middle = entry_name(table@[mid as int]);
        match compare_bytes(table[mid].0.as_bytes(), name) {
            Place::Same => {
                proof {
                    assert forall|i: int| 0 <= i < mid implies entry_name(#[trigger] table@[i])
                        != name@ by {
                        lemma_names_differ(table@, i, mid as int);
                    }
                    lemma_expansion_in_found(table@, name@, mid as int);
                }
                return Some(table[mid].1);
            },
            Place::Before => {
                proof {
                    assert forall|i: int| 0 <= i < mid + 1 implies precedes(
                        entry_name(#[trigger] table@[i]),
                        name@,
                    ) by {
                        if i < mid {
                            lemma_names_ascend(table@, i, mid as int);
                            lemma_precedes_transitive(entry_name(table@[i]), middle, name@);
                        }
                    }
                }
                low = mid + 1;
            },
            Place::After => {
                proof {
                    assert forall|i: int| mid <= i < table.len() implies precedes(
                        name@,
                        entry_name(#[trigger] table@[i]),
                    ) by {
                        if mid < i {
                            lemma_names_ascend(table@, mid as int, i);
                            lemma_precedes_transitive(name@, middle, entry_name(table@[i]));
                        }
                    }
                }
                high = mid;
            },
        }
    }
    proof {
        assert forall|i: int| 0 <= i < table.len() implies entry_name(#[trigger] table@[i])
            != name@ by {
            lemma_precedes_irreflexive(name@);
        }
        lemma_expansion_in_absent(table@, name@);
    }
    None
}

} // verus!
