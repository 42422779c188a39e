//! The order of strings, keys and paths: by their UTF-8 bytes, as text
//! orders.

use vstd::prelude::*;
use vstd::string::StringSliceAdditionalSpecFns;
use vstd::std_specs::cmp::PartialOrdSpecImpl;
use core::cmp::Ordering;
use crate::key::Key;
use crate::path::Path;
use crate::props::{
    bytes_less, key_lt, lemma_bytes_lt_irreflexive, lemma_bytes_lt_transitive, lemma_key_lt_total,
};
use crate::str::Str;
use vstd::utf8::encode_utf8;

verus! {

/// How text `a` orders against text `b`: by their UTF-8 bytes.
pub open spec fn text_order(a: Seq<char>, b: Seq<char>) -> Ordering {
    if key_lt(a, b) {
        Ordering::Less
    } else if key_lt(b, a) {
        Ordering::Greater
    } else {
        Ordering::Equal
    }
}

/// Compare two strings by their UTF-8 bytes.
pub fn compare_text(a: &str, b: &str) -> (r: Ordering)
    ensures
        r == text_order(a@, b@),
{
    let ab = a.as_bytes();
    let bb = b.as_bytes();
    if bytes_less(ab, bb) {
        Ordering::Less
    } else if bytes_less(bb, ab) {
        Ordering::Greater
    } else {
        Ordering::Equal
    }
}

/// Texts order as equal exactly when they're the same text, and swapping
/// them swaps `Less` and `Greater`.
pub proof fn lemma_text_order_antisymmetric(a: Seq<char>, b: Seq<char>)
    ensures
        (text_order(a, b) == Ordering::Equal) == (a == b),
        (text_order(a, b) == Ordering::Less) == (text_order(b, a) == Ordering::Greater),
{
    if a == b {
        lemma_bytes_lt_irreflexive(encode_utf8(a));
    } else {
        lemma_key_lt_total(a, b);
    }
    if key_lt(a, b) && key_lt(b, a) {
        lemma_bytes_lt_transitive(encode_utf8(a), encode_utf8(b), encode_utf8(a));
        lemma_bytes_lt_irreflexive(encode_utf8(a));
    }
}

/// Text orders transitively.
pub proof fn lemma_text_order_transitive(a: Seq<char>, b: Seq<char>, c: Seq<char>)
    requires
        text_order(a, b) == Ordering::Less,
        text_order(b, c) == Ordering::Less,
    ensures
        text_order(a, c) == Ordering::Less,
{
    lemma_bytes_lt_transitive(encode_utf8(a), encode_utf8(b), encode_utf8(c));
}

impl<'a> PartialOrd for Str<'a> {
    fn partial_cmp(&self, other: &Str<'a>) -> (r: Option<Ordering>) {
        Some(compare_text(self.get(), other.get()))
    }
}

impl<'a> PartialOrdSpecImpl for Str<'a> {
    open spec fn obeys_partial_cmp_spec() -> bool {
        true
    }

    open spec fn partial_cmp_spec(&self, other: &Str<'a>) -> Option<Ordering> {
        Some(text_order(self@, other@))
    }
}

impl<'a> PartialOrd for Key<'a> {
    fn partial_cmp(&self, other: &Key<'a>) -> (r: Option<Ordering>) {
        Some(compare_text(self.as_str(), other.as_str()))
    }
}

impl<'a> PartialOrdSpecImpl for Key<'a> {
    open spec fn obeys_partial_cmp_spec() -> bool {
        true
    }

    open spec fn partial_cmp_spec(&self, other: &Key<'a>) -> Option<Ordering> {
        Some(text_order(self@, other@))
    }
}

impl<'a> PartialOrd for Path<'a> {
    fn partial_cmp(&self, other: &Path<'a>) -> (r: Option<Ordering>) {
        Some(compare_text(self.as_str(), other.as_str()))
    }
}

impl<'a> PartialOrdSpecImpl for Path<'a> {
    open spec fn obeys_partial_cmp_spec() -> bool {
        true
    }

    open spec fn partial_cmp_spec(&self, other: &Path<'a>) -> Option<Ordering> {
        Some(text_order(self@, other@))
    }
}

} // verus!
