//! The decoder: one pass over the input, from left to right.

use crate::context::Context;
use crate::named::{
    lemma_reference_end, lemma_reference_expansion_valid, lemma_reference_is_ascii, match_entity,
    reference_end, reference_expansion,
};
use crate::scan::AMPERSAND;
use crate::text::{lemma_valid_replace_ascii, lossy_text, text_from_bytes};
use vstd::prelude::*;
use vstd::utf8::{decode_utf8, valid_utf8};

verus! {

/// What the bytes of `s` from `pos` on decode to in `context`: a byte
/// other than `&` stands for itself, and a `&` starts a reference, which
/// is replaced by its expansion.
pub open spec fn expand_from(s: Seq<u8>, pos: int, context: Context) -> Seq<u8>
    decreases s.len() - pos,
    via expand_from_terminates
{
    if pos < 0 || pos >= s.len() {
        Seq::empty()
    } else if s[pos] != AMPERSAND {
        seq![s[pos]] + expand_from(s, pos + 1, context)
    } else {
        reference_expansion(s, pos, context) + expand_from(s, reference_end(s, pos), context)
    }
}

#[via_fn]
proof fn expand_from_terminates(s: Seq<u8>, pos: int, context: Context) {
    if 0 <= pos < s.len() && s[pos] == AMPERSAND {
        lemma_reference_end(s, pos);
    }
}

/// Whether `s` holds no `&`.
pub open spec fn has_no_ampersand(s: Seq<u8>) -> bool {
    forall|i: int| 0 <= i < s.len() ==> s[i] != AMPERSAND
}

/// What `s` decodes to in `context`.
pub open spec fn expand(s: Seq<u8>, context: Context) -> Seq<u8> {
    expand_from(s, 0, context)
}

/// Decoding from `pos` on keeps well-formed UTF-8 well formed, whatever
/// stands before.
proof fn lemma_expand_from_valid(s: Seq<u8>, pos: int, context: Context, before: Seq<u8>)
    requires
        0 <= pos <= s.len(),
        valid_utf8(before + s.subrange(pos, s.len() as int)),
    ensures
        valid_utf8(before + expand_from(s, pos, context)),
    decreases s.len() - pos,
{
    let len = s.len() as int;
    if pos >= len {
        assert(before + s.subrange(pos, len) =~= before + expand_from(s, pos, context));
    } else if s[pos] != AMPERSAND {
        let longer = before.push(s[pos]);
        assert(longer + s.subrange(pos + 1, len) =~= before + s.subrange(pos, len));
        lemma_expand_from_valid(s, pos + 1, context, longer);
        assert(longer + expand_from(s, pos + 1, context) =~= before + expand_from(
            s,
            pos,
            context,
        ));
    } else {
        let end = reference_end(s, pos);
        let expansion = reference_expansion(s, pos, context);
        lemma_reference_end(s, pos);
        lemma_reference_is_ascii(s, pos);
        lemma_reference_expansion_valid(s, pos, context);
        assert(before + s.subrange(pos, end) + s.subrange(end, len) =~= before + s.subrange(
            pos,
            len,
        ));
        lemma_valid_replace_ascii(before, s.subrange(pos, end), expansion, s.subrange(end, len));
        lemma_expand_from_valid(s, end, context, before + expansion);
        assert(before + expansion + expand_from(s, end, context) =~= before + expand_from(
            s,
            pos,
            context,
        ));
    }
}

/// Well-formed UTF-8 decodes to well-formed UTF-8.
pub proof fn lemma_expand_valid(s: Seq<u8>, context: Context)
    requires
        valid_utf8(s),
    ensures
        valid_utf8(expand(s, context)),
{
    let before = Seq::<u8>::empty();
    assert(before + s.subrange(0, s.len() as int) =~= s);
    lemma_expand_from_valid(s, 0, context, before);
    assert(before + expand_from(s, 0, context) =~= expand(s, context));
}

/// From a position after which no `&` stands, the input decodes to
/// itself.
proof fn lemma_expand_from_without_ampersand(s: Seq<u8>, pos: int, context: Context)
    requires
        0 <= pos <= s.len(),
        forall|i: int| pos <= i < s.len() ==> s[i] != AMPERSAND,
    ensures
        expand_from(s, pos, context) == s.subrange(pos, s.len() as int),
    decreases s.len() - pos,
{
    if pos < s.len() {
        lemma_expand_from_without_ampersand(s, pos + 1, context);
        assert(seq![s[pos]] + s.subrange(pos + 1, s.len() as int) =~= s.subrange(
            pos,
            s.len() as int,
        ));
    } else {
        assert(s.subrange(pos, s.len() as int) =~= Seq::<u8>::empty());
    }
}

/// Input that holds no `&` decodes to itself, in either context.
pub proof fn lemma_expand_without_ampersand(s: Seq<u8>, context: Context)
    requires
        has_no_ampersand(s),
    ensures
        expand(s, context) == s,
{
    lemma_expand_from_without_ampersand(s, 0, context);
    assert(s.subrange(0, s.len() as int) =~= s);
}

/// Expands all valid character references in `escaped`, by the rules of
/// `context`, and returns the bytes of the result.
pub fn unescape_bytes_in(escaped: &[u8], context: Context) -> (decoded: Vec<u8>)
    ensures
        decoded@ == expand(escaped@, context),
        valid_utf8(escaped@) ==> valid_utf8(decoded@),
        has_no_ampersand(escaped@) ==> decoded@ == escaped@,
{
    proof {
        if valid_utf8(escaped@) {
            lemma_expand_valid(escaped@, context);
        }
        if has_no_ampersand(escaped@) {
            lemma_expand_without_ampersand(escaped@, context);
        }
    }
    let mut buffer: Vec<u8> = Vec::with_capacity(escaped.len());
    let mut pos: usize = 0;
    assert(buffer@ + expand_from(escaped@, 0, context) =~= expand(escaped@, context));
    while pos < escaped.len()
        invariant
            pos <= escaped.len(),
            buffer@ + expand_from(escaped@, pos as int, context) == expand(escaped@, context),
        decreases escaped.len() - pos,
    {
        let ghost before = buffer@;
        if escaped[pos] == AMPERSAND {
            let (mut expansion, next) = match_entity(escaped, pos, context);
            assert(before + expansion@ + expand_from(escaped@, next as int, context) =~= before
                + expand_from(escaped@, pos as int, context));
            buffer.append(&mut expansion);
            pos = next;
        } else {
            assert(before.push(escaped@[pos as int]) + expand_from(escaped@, pos + 1, context)
                =~= before + expand_from(escaped@, pos as int, context));
            buffer.push(escaped[pos]);
            pos += 1;
        }
    }
    assert(buffer@ + expand_from(escaped@, pos as int, context) =~= buffer@);
    buffer
}

/// Expands all valid character references in `escaped`, by the rules of
/// `context`:
///
///   * `Context::General`: the rules for text outside of an attribute.
///   * `Context::Attribute`: the rules for attribute values, where a name
///     without `;` is not expanded if a letter, a digit or `=` follows it.
///
/// Input that is not well-formed UTF-8 is decoded all the same; what is
/// ill formed in the result is replaced by U+FFFD.
pub fn unescape_in(escaped: &[u8], context: Context) -> (text: String)
    ensures
        text@ == lossy_text(expand(escaped@, context)),
        valid_utf8(escaped@) ==> text@ == decode_utf8(expand(escaped@, context)),
        valid_utf8(escaped@) && has_no_ampersand(escaped@) ==> text@ == decode_utf8(escaped@),
{
    let decoded = unescape_bytes_in(escaped, context);
    text_from_bytes(decoded.as_slice())
}

/// Expands all valid character references in text outside of an
/// attribute.
pub fn unescape(escaped: &[u8]) -> (text: String)
    ensures
        text@ == lossy_text(expand(escaped@, Context::General)),
        valid_utf8(escaped@) ==> text@ == decode_utf8(expand(escaped@, Context::General)),
        valid_utf8(escaped@) && has_no_ampersand(escaped@) ==> text@ == decode_utf8(escaped@),
{
    unescape_in(escaped, Context::General)
}

/// Expands all valid character references in the value of an attribute.
pub fn unescape_attribute(escaped: &[u8]) -> (text: String)
    ensures
        text@ == lossy_text(expand(escaped@, Context::Attribute)),
        valid_utf8(escaped@) ==> text@ == decode_utf8(expand(escaped@, Context::Attribute)),
        valid_utf8(escaped@) && has_no_ampersand(escaped@) ==> text@ == decode_utf8(escaped@),
{
    unescape_in(escaped, Context::Attribute)
}

} // verus!
