//! Named character references, and the choice between them and the
//! numeric ones.

use crate::context::Context;
use crate::entities::{
    all_entities, lemma_named_expansion_bounds, lookup, named_expansion, ENTITY_MAX_LENGTH,
    ENTITY_MIN_LENGTH,
};
use crate::numeric::{
    lemma_numeric_end, lemma_numeric_expansion_valid, lemma_numeric_reference_is_ascii,
    match_numeric_entity, numeric_end, numeric_expansion,
};
use crate::scan::{
    consume_alphanumeric, extend_from_range, lemma_run_len, run_len, ByteClass, AMPERSAND,
    EQUALS_SIGN, NUMBER_SIGN, SEMICOLON,
};
use crate::search::lemma_expansion_in_valid;
use crate::text::{is_ascii_bytes, lemma_ascii_valid};
use vstd::prelude::*;
use vstd::slice::slice_subrange;
use vstd::string::StringSliceAdditionalSpecFns;
use vstd::utf8::{valid_utf8, valid_utf8_concat};

verus! {

/// Whether the `&` at `amp` is followed by `#`.
pub open spec fn is_numeric_reference(s: Seq<u8>, amp: int) -> bool {
    amp + 1 < s.len() && s[amp + 1] == NUMBER_SIGN
}

/// Where the letters and digits that follow the `&` at `amp` end.
pub open spec fn name_end(s: Seq<u8>, amp: int) -> int {
    amp + 1 + run_len(s, amp + 1, ByteClass::Alphanumeric)
}

/// Where the candidate that starts with the `&` at `amp` ends: after the
/// letters and digits, and after the `;` that follows them if there is one.
pub open spec fn candidate_end(s: Seq<u8>, amp: int) -> int {
    let end = name_end(s, amp);
    if 0 <= end < s.len() && s[end] == SEMICOLON {
        end + 1
    } else {
        end
    }
}

/// The candidate that starts with the `&` at `amp`.
pub open spec fn candidate_at(s: Seq<u8>, amp: int) -> Seq<u8> {
    s.subrange(amp, candidate_end(s, amp))
}

/// Whether the name after the `&` at `amp` is followed by `=`.
pub open spec fn is_assignment(s: Seq<u8>, amp: int) -> bool {
    let end = name_end(s, amp);
    0 <= end < s.len() && s[end] == EQUALS_SIGN
}

/// The length of the longest prefix of `candidate`, of at most `limit`
/// bytes, that is a name in the table; 0 if no such prefix is one.
pub open spec fn longest_entity_prefix(candidate: Seq<u8>, limit: nat) -> nat
    decreases limit,
{
    if limit == 0 {
        0
    } else if named_expansion(candidate.take(limit as int)) is Some {
        limit
    } else {
        longest_entity_prefix(candidate, (limit - 1) as nat)
    }
}

/// What `candidate` expands to in `context`. In an attribute, the
/// expansion of the candidate as a whole, if it is a name in the table.
/// Elsewhere, the expansion of its longest prefix that is a name in the
/// table, and the rest of the candidate after it. The candidate itself, if
/// the table has no such name.
pub open spec fn candidate_expansion(candidate: Seq<u8>, context: Context) -> Seq<u8> {
    match context {
        Context::Attribute => match named_expansion(candidate) {
            Some(expansion) => expansion,
            None => candidate,
        },
        Context::General => {
            let n = longest_entity_prefix(candidate, candidate.len());
            if n == 0 {
                candidate
            } else {
                named_expansion(candidate.take(n as int)).unwrap() + candidate.skip(n as int)
            }
        },
    }
}

/// What the named reference that starts with the `&` at `amp` expands to.
/// In an attribute, a name that is followed by `=` is left as it is.
pub open spec fn named_reference_expansion(s: Seq<u8>, amp: int, context: Context) -> Seq<u8> {
    if context == Context::Attribute && is_assignment(s, amp) {
        candidate_at(s, amp)
    } else {
        candidate_expansion(candidate_at(s, amp), context)
    }
}

/// Where the reference that starts with the `&` at `amp` ends.
pub open spec fn reference_end(s: Seq<u8>, amp: int) -> int {
    if is_numeric_reference(s, amp) {
        numeric_end(s, amp + 1)
    } else {
        candidate_end(s, amp)
    }
}

/// What the reference that starts with the `&` at `amp` expands to.
pub open spec fn reference_expansion(s: Seq<u8>, amp: int, context: Context) -> Seq<u8> {
    if is_numeric_reference(s, amp) {
        numeric_expansion(s, amp + 1)
    } else {
        named_reference_expansion(s, amp, context)
    }
}

/// A reference lies inside its input, and holds its `&`.
pub proof fn lemma_reference_end(s: Seq<u8>, amp: int)
    requires
        0 <= amp < s.len(),
    ensures
        amp < reference_end(s, amp) <= s.len(),
{
    if is_numeric_reference(s, amp) {
        lemma_numeric_end(s, amp + 1);
    } else {
        lemma_run_len(s, amp + 1, ByteClass::Alphanumeric);
    }
}

/// The bytes of a reference are ASCII.
pub proof fn lemma_reference_is_ascii(s: Seq<u8>, amp: int)
    requires
        0 <= amp < s.len(),
        s[amp] == AMPERSAND,
    ensures
        is_ascii_bytes(s.subrange(amp, reference_end(s, amp))),
{
    lemma_reference_end(s, amp);
    let bytes = s.subrange(amp, reference_end(s, amp));
    if is_numeric_reference(s, amp) {
        lemma_numeric_reference_is_ascii(s, amp + 1);
        let tail = s.subrange(amp + 1, numeric_end(s, amp + 1));
        assert forall|i: int| 0 <= i < bytes.len() implies #[trigger] bytes[i] <= 0x7f by {
            if i > 0 {
                assert(bytes[i] == tail[i - 1]);
            }
        }
    } else {
        lemma_run_len(s, amp + 1, ByteClass::Alphanumeric);
    }
}

/// The expansion of a reference is well-formed UTF-8.
pub proof fn lemma_reference_expansion_valid(s: Seq<u8>, amp: int, context: Context)
    requires
        0 <= amp < s.len(),
        s[amp] == AMPERSAND,
    ensures
        valid_utf8(reference_expansion(s, amp, context)),
{
    lemma_reference_end(s, amp);
    if is_numeric_reference(s, amp) {
        lemma_numeric_expansion_valid(s, amp + 1);
    } else {
        lemma_reference_is_ascii(s, amp);
        let candidate = candidate_at(s, amp);
        lemma_ascii_valid(candidate);
        if context == Context::Attribute {
            lemma_expansion_in_valid(all_entities(), candidate);
        } else {
            let n = longest_entity_prefix(candidate, candidate.len());
            if n > 0 {
                lemma_longest_entity_prefix(candidate, candidate.len());
                lemma_expansion_in_valid(all_entities(), candidate.take(n as int));
                lemma_ascii_valid(candidate.skip(n as int));
                valid_utf8_concat(
                    named_expansion(candidate.take(n as int)).unwrap(),
                    candidate.skip(n as int),
                );
            }
        }
    }
}

/// The longest prefix that is a name, where there is one, is a name, has
/// at most `limit` bytes, and no longer prefix within the limit is a name.
pub proof fn lemma_longest_entity_prefix(candidate: Seq<u8>, limit: nat)
    ensures
        longest_entity_prefix(candidate, limit) <= limit,
        longest_entity_prefix(candidate, limit) > 0 ==> named_expansion(
            candidate.take(longest_entity_prefix(candidate, limit) as int),
        ) is Some,
        forall|n: int|
            longest_entity_prefix(candidate, limit) < n <= limit ==> named_expansion(
                #[trigger] candidate.take(n),
            ) is None,
    decreases limit,
{
    if limit > 0 && named_expansion(candidate.take(limit as int)) is None {
        lemma_longest_entity_prefix(candidate, (limit - 1) as nat);
    }
}

/// No prefix shorter than the shortest name is a name.
pub proof fn lemma_no_short_prefix(candidate: Seq<u8>, limit: nat)
    requires
        limit < ENTITY_MIN_LENGTH,
        limit <= candidate.len(),
    ensures
        longest_entity_prefix(candidate, limit) == 0,
    decreases limit,
{
    if limit > 0 {
        if named_expansion(candidate.take(limit as int)) is Some {
            lemma_named_expansion_bounds(candidate.take(limit as int));
        }
        lemma_no_short_prefix(candidate, (limit - 1) as nat);
    }
}

/// The prefixes that are no names can be left out of the search for the
/// longest prefix.
pub proof fn lemma_skip_prefixes(candidate: Seq<u8>, limit: nat, below: nat)
    requires
        below <= limit <= candidate.len(),
        forall|n: int| below < n <= limit ==> named_expansion(#[trigger] candidate.take(n)) is None,
    ensures
        longest_entity_prefix(candidate, limit) == longest_entity_prefix(candidate, below),
    decreases limit,
{
    if limit > below {
        assert(named_expansion(candidate.take(limit as int)) is None);
        lemma_skip_prefixes(candidate, (limit - 1) as nat, below);
    }
}

/// No prefix longer than the longest name is a name.
pub proof fn lemma_no_long_prefix(candidate: Seq<u8>)
    ensures
        forall|n: int|
            ENTITY_MAX_LENGTH < n <= candidate.len() ==> named_expansion(
                #[trigger] candidate.take(n),
            ) is None,
{
    assert forall|n: int| ENTITY_MAX_LENGTH < n <= candidate.len() implies named_expansion(
        #[trigger] candidate.take(n),
    ) is None by {
        if named_expansion(candidate.take(n)) is Some {
            lemma_named_expansion_bounds(candidate.take(n));
        }
    }
}

/// Expands the reference that starts with the `&` at `amp`. Returns the
/// expansion and the position after the reference.
#[verifier::loop_isolation(false)]
pub fn match_entity(input: &[u8], amp: usize, context: Context) -> (r: (Vec<u8>, usize))
    requires
        amp < input.len(),
        input[amp as int] == AMPERSAND,
    ensures
        r.0@ == reference_expansion(input@, amp as int, context),
        r.1 == reference_end(input@, amp as int),
        amp < r.1 <= input.len(),
{
    let pos = amp + 1;
    if pos < input.len() && input[pos] == NUMBER_SIGN {
        return match_numeric_entity(input, pos);
    }
    proof {
        lemma_run_len(input@, pos as int, ByteClass::Alphanumeric);
    }
    let mut end = consume_alphanumeric(input, pos);
    if end < input.len() && input[end] == SEMICOLON {
        end += 1;
    } else if end < input.len() && input[end] == EQUALS_SIGN && context == Context::Attribute {
        let mut candidate: Vec<u8> = Vec::with_capacity(end - amp);
        extend_from_range(&mut candidate, input, amp, end);
        return (candidate, end);
    }
    let candidate = slice_subrange(input, amp, end);
    let mut result: Vec<u8> = Vec::with_capacity(candidate.len());
    if candidate.len() < ENTITY_MIN_LENGTH {
        proof {
            if named_expansion(candidate@) is Some {
                lemma_named_expansion_bounds(candidate@);
            }
            assert(candidate@.take(candidate@.len() as int) =~= candidate@);
            lemma_no_short_prefix(candidate@, candidate@.len());
        }
        extend_from_range(&mut result, input, amp, end);
        return (result, end);
    }
    if context == Context::Attribute {
        match lookup(candidate) {
            Some(expansion) => {
                let bytes = expansion.as_bytes();
                extend_from_range(&mut result, bytes, 0, bytes.len());
                assert(bytes@.subrange(0, bytes@.len() as int) =~= bytes@);
            },
            None => {
                extend_from_range(&mut result, input, amp, end);
            },
        }
        return (result, end);
    }
    let mut check_len = if candidate.len() < ENTITY_MAX_LENGTH {
        candidate.len()
    } else {
        ENTITY_MAX_LENGTH
    };
    proof {
        lemma_no_long_prefix(candidate@);
    }
    while check_len >= ENTITY_MIN_LENGTH
        invariant
            check_len <= candidate.len(),
            result@.len() == 0,
            forall|n: int|
                check_len < n <= candidate.len() ==> named_expansion(
                    #[trigger] candidate@.take(n),
                ) is None,
        decreases check_len,
    {
        let prefix = slice_subrange(candidate, 0, check_len);
        assert(prefix@ =~= candidate@.take(check_len as int));
        if let Some(expansion) = lookup(prefix) {
            let bytes = expansion.as_bytes();
            extend_from_range(&mut result, bytes, 0, bytes.len());
            extend_from_range(&mut result, candidate, check_len, candidate.len());
            proof {
                assert(bytes@.subrange(0, bytes@.len() as int) =~= bytes@);
                assert(candidate@.subrange(check_len as int, candidate@.len() as int)
                    =~= candidate@.skip(check_len as int));
                lemma_skip_prefixes(candidate@, candidate@.len(), check_len as nat);
            }
            return (result, end);
        }
        check_len -= 1;
    }
    proof {
        lemma_skip_prefixes(candidate@, candidate@.len(), check_len as nat);
        lemma_no_short_prefix(candidate@, check_len as nat);
    }
    extend_from_range(&mut result, input, amp, end);
    (result, end)
}

} // verus!
