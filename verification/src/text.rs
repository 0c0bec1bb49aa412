//! Text layout options, the ellipsis candidate, the bounded layout caches and the
//! font family handed to DOM text.
use vstd::prelude::*;
use vstd::utf8::{encode_utf8, encode_utf8_decode_utf8, decode_utf8, is_char_boundary};
use vstd::string::StringSliceAdditionalSpecFns;
use std::collections::HashMap;
use std::hash::Hash;
use vstd::std_specs::hash::obeys_key_model;
use crate::chars::{
    all_whitespace, chars_of, lemma_trim_empty_iff_all_whitespace, str_eq, string_from_range,
    string_push, trim, trim_bounds, trim_end, trim_end_len,
};

verus! {

broadcast use vstd::std_specs::hash::group_hash_axioms;

/// Horizontal alignment for constrained text layout.
#[derive(Clone, Copy, Debug, PartialEq, Eq, Hash, Structural)]
pub enum TextLayoutAlignment {
    Start,
    Center,
    End,
}

impl Default for TextLayoutAlignment {
    fn default() -> (r: Self)
        ensures
            r == TextLayoutAlignment::Start,
    {
        TextLayoutAlignment::Start
    }
}

/// Wrapping behavior for constrained text layout.
#[derive(Clone, Copy, Debug, PartialEq, Eq, Hash, Structural)]
pub enum TextWrap {
    NoWrap,
    Word,
    Anywhere,
}

impl Default for TextWrap {
    fn default() -> (r: Self)
        ensures
            r == TextWrap::Word,
    {
        TextWrap::Word
    }
}

/// Additional word-breaking policy for constrained text layout.
#[derive(Clone, Copy, Debug, PartialEq, Eq, Hash, Structural)]
pub enum TextBreakMode {
    Normal,
    BreakWord,
    BreakAll,
}

impl Default for TextBreakMode {
    fn default() -> (r: Self)
        ensures
            r == TextBreakMode::Normal,
    {
        TextBreakMode::Normal
    }
}

/// The horizontal ellipsis that ends a shortened line.
pub open spec fn ellipsis() -> char {
    '\u{2026}'
}

/// The characters of `text` before byte `prefix_end`, trailing whitespace dropped,
/// followed by an ellipsis.
pub open spec fn spec_ellipsized_candidate(text: Seq<char>, prefix_end: int) -> Seq<char> {
    trim_end(decode_utf8(encode_utf8(text).subrange(0, prefix_end))).push(ellipsis())
}

/// The shortened text tried while fitting a line: the prefix of `text` that ends at
/// byte `prefix_end`, without trailing whitespace, then an ellipsis (the ellipsis alone
/// when nothing is left).
pub fn ellipsized_candidate(text: &str, prefix_end: usize) -> (r: String)
    requires
        is_char_boundary(text.spec_bytes(), prefix_end as int),
    ensures
        r@ == spec_ellipsized_candidate(text@, prefix_end as int),
{
    let (head, _tail) = text.split_at(prefix_end);
    proof {
        encode_utf8_decode_utf8(head@);
        assert(head.spec_bytes() == encode_utf8(head@));
    }
    let v = chars_of(head);
    let n = trim_end_len(&v, v.len());
    let mut out = string_from_range(&v, 0, n);
    string_push(&mut out, '\u{2026}');
    proof {
        assert(v@.take(v@.len() as int) =~= v@);
        assert(v@.take(n as int) =~= v@.subrange(0, n as int));
    }
    out
}

/// A cache after one insertion: emptied first when it already holds `max` entries.
pub open spec fn spec_cache_insert<K, V>(cache: Map<K, V>, key: K, value: V, max: nat) -> Map<K, V> {
    if cache.len() >= max {
        Map::<K, V>::empty().insert(key, value)
    } else {
        cache.insert(key, value)
    }
}

/// Insert into a layout cache, clearing it first when it has reached `max` entries.
/// Stated for keys whose `Eq` and `Hash` agree with equality of values.
pub fn cache_insert<K: Eq + Hash, V>(cache: &mut HashMap<K, V>, key: K, value: V, max: usize)
    ensures
        obeys_key_model::<K>() ==> final(cache)@ == spec_cache_insert(
            old(cache)@,
            key,
            value,
            max as nat,
        ),
{
    if cache.len() >= max {
        cache.clear();
    }
    cache.insert(key, value);
}

/// A cache that holds at most `max` entries (and `max` is at least one) still does
/// after an insertion.
pub proof fn lemma_cache_insert_bounded<K, V>(cache: Map<K, V>, key: K, value: V, max: nat)
    requires
        cache.dom().finite(),
        1 <= max,
        cache.len() <= max,
    ensures
        spec_cache_insert(cache, key, value, max).len() <= max,
        spec_cache_insert(cache, key, value, max).contains_key(key),
        spec_cache_insert(cache, key, value, max)[key] == value,
{
    if cache.len() >= max {
        assert(Map::<K, V>::empty().insert(key, value).dom() =~= set![key]);
    } else {
        if cache.contains_key(key) {
            assert(cache.insert(key, value).dom() =~= cache.dom());
        } else {
            assert(cache.insert(key, value).dom() =~= cache.dom().insert(key));
        }
    }
}

/// The family DOM text is drawn with: a blank family or `system-ui` becomes
/// `sans-serif`, so that it matches the family text is measured with.
pub open spec fn spec_normalize_dom_font_family(family: Seq<char>) -> Seq<char> {
    if all_whitespace(family) || family == "system-ui"@ {
        "sans-serif"@
    } else {
        family
    }
}

/// Normalize the CSS `font-family` used for DOM text rendering.
pub fn normalize_dom_font_family(family: &str) -> (r: &str)
    ensures
        r@ == spec_normalize_dom_font_family(family@),
{
    let v = chars_of(family);
    let (start, end) = trim_bounds(&v);
    proof {
        lemma_trim_empty_iff_all_whitespace(family@);
    }
    if start == end || str_eq(family, "system-ui") {
        "sans-serif"
    } else {
        family
    }
}

} // verus!
