//! Hierarchical identifiers with segments separated by `::`, such as `a::b::c`.

use vstd::prelude::*;
use vstd::string::{StringSliceAdditionalSpecFns, StrSliceExecFns};
use vstd::utf8::{encode_utf8_valid_utf8, is_char_boundary, is_char_boundary_start_end_of_seq};
use std::borrow::Cow;
use crate::str::{Str, StrKind};

verus! {

/// Whether the UTF-8 text `child` is a child of the UTF-8 text `parent`:
/// `parent` is a prefix of `child` ending on a character boundary, and what
/// follows it is empty or starts with `::`.
pub open spec fn is_child_bytes(child: Seq<u8>, parent: Seq<u8>) -> bool {
    let p = parent.len() as int;
    &&& p <= child.len()
    &&& is_char_boundary(child, p)
    &&& child.take(p) == parent
    &&& (child.len() == p || (child.len() >= p + 2 && child[p] == 58 && child[p + 1] == 58))
}

/// The segments of `s[start..]`, where the current segment started at
/// `start` and the search for the next `::` is at `i`.
pub open spec fn segments_from(s: Seq<char>, start: int, i: int) -> Seq<Seq<char>>
    decreases s.len() - i,
{
    if i + 1 >= s.len() {
        seq![s.subrange(start, s.len() as int)]
    } else if s[i] == ':' && s[i + 1] == ':' {
        seq![s.subrange(start, i)] + segments_from(s, i + 2, i + 2)
    } else {
        segments_from(s, start, i + 1)
    }
}

/// The pieces of `s` between the `::` separators, found from left to right.
pub open spec fn path_segments(s: Seq<char>) -> Seq<Seq<char>> {
    segments_from(s, 0, 0)
}

/// A hierarchical identifier, such as `a::b::c`.
pub struct Path<'a>(Str<'a>);

impl<'a> View for Path<'a> {
    type V = Seq<char>;

    closed spec fn view(&self) -> Seq<char> {
        self.0@
    }
}

impl<'a> Path<'a> {
    /// Whether the path holds a contiguous `'static` string.
    pub closed spec fn is_static(&self) -> bool {
        self.0.kind() == StrKind::Static
    }
}

impl Path<'static> {
    /// Create a path from a `'static` value.
    pub fn new(path: &'static str) -> (r: Self)
        ensures
            r@ == path@,
            r.is_static(),
    {
        Path::new_str(Str::new(path))
    }

    /// Create a path from an owned value.
    pub fn new_owned(path: String) -> (r: Self)
        ensures
            r@ == path@,
            !r.is_static(),
    {
        Path(Str::new_owned(path))
    }
}

impl<'a> Path<'a> {
    /// Create a path from a borrowed value.
    ///
    /// [`Path::new`] should be preferred where possible.
    pub fn new_ref(path: &'a str) -> (r: Self)
        ensures
            r@ == path@,
            !r.is_static(),
    {
        Self::new_str(Str::new_ref(path))
    }

    /// Create a path from a [`Str`] value.
    pub fn new_str(path: Str<'a>) -> (r: Self)
        ensures
            r@ == path@,
            r.is_static() == (path.kind() == StrKind::Static),
    {
        Path(path)
    }

    /// Create a path from a potentially owned value.
    pub fn new_cow_ref(path: Cow<'a, str>) -> (r: Self)
        ensures
            r@ == path@,
            !r.is_static(),
    {
        Path(Str::new_cow_ref(path))
    }

    /// Get a path borrowing data from this one.
    pub fn by_ref<'b>(&'b self) -> (r: Path<'b>)
        ensures
            r@ == self@,
            r.is_static() == self.is_static(),
    {
        Path(self.0.by_ref())
    }

    /// A `'static` copy of the path.
    pub fn to_owned(&self) -> (r: Path<'static>)
        ensures
            r@ == self@,
            r.is_static() == self.is_static(),
    {
        Path(self.0.to_owned())
    }

    /// The path as a potentially owned string.
    pub fn to_cow(&self) -> (r: Cow<'static, str>)
        ensures
            r@ == self@,
            r is Borrowed == self.is_static(),
    {
        self.0.to_cow()
    }

    /// The text of the path.
    pub fn as_str(&self) -> (r: &str)
        ensures
            r@ == self@,
    {
        self.0.get()
    }

    /// The segments of the path: the pieces between `::`, left to right.
    pub fn segments(&self) -> (r: Vec<Str<'_>>)
        ensures
            r@.map_values(|s: Str<'_>| s@) == path_segments(self@),
    {
        let s = self.0.get();
        let n = s.unicode_len();
        let mut out: Vec<Str<'_>> = Vec::new();
        let mut start: usize = 0;
        let mut i: usize = 0;
        while n > 0 && i < n - 1
            invariant
                n == s@.len(),
                start <= i <= n,
                out@.map_values(|x: Str<'_>| x@) + segments_from(s@, start as int, i as int)
                    == path_segments(s@),
            decreases n - i,
        {
            if s.get_char(i) == ':' && s.get_char(i + 1) == ':' {
                let seg = Str::new_ref(s.substring_char(start, i));
                let ghost prev = out@.map_values(|x: Str<'_>| x@);
                out.push(seg);
                assert(out@.map_values(|x: Str<'_>| x@) =~= prev.push(seg@));
                assert(segments_from(s@, start as int, i as int) == seq![s@.subrange(start as int, i as int)]
                    + segments_from(s@, i + 2, i + 2));
                assert(prev + segments_from(s@, start as int, i as int) =~= prev.push(seg@)
                    + segments_from(s@, i + 2, i + 2));
                i = i + 2;
                start = i;
            } else {
                i = i + 1;
            }
        }
        let seg = Str::new_ref(s.substring_char(start, n));
        let ghost prev = out@.map_values(|x: Str<'_>| x@);
        out.push(seg);
        assert(out@.map_values(|x: Str<'_>| x@) =~= prev.push(seg@));
        assert(prev + segments_from(s@, start as int, i as int) =~= prev.push(seg@));
        out
    }

    /// Whether this path is a child of `other`: `other` is a prefix of this
    /// path up to a path segment. `a::b` is a child of `a`, but `c::a::b`
    /// and `aa::b` are not. A path is a child of itself.
    pub fn is_child_of<'b>(&self, other: &Path<'b>) -> (r: bool)
        ensures
            r == is_child_bytes(self@.spec_bytes_of(), other@.spec_bytes_of()),
    {
        let child = self.0.get();
        let parent = other.0.get();
        let cb = child.as_bytes();
        let pb = parent.as_bytes();
        proof {
            encode_utf8_valid_utf8(child@);
        }
        let p = pb.len();
        if cb.len() >= p && child.is_char_boundary(p) {
            let same = bytes_prefix_eq(cb, pb);
            same && (cb.len() == p || (cb.len() - p >= 2 && cb[p] == 58u8 && cb[p + 1] == 58u8))
        } else {
            false
        }
    }
}

/// Whether `prefix` is a prefix of `bytes`.
fn bytes_prefix_eq(bytes: &[u8], prefix: &[u8]) -> (r: bool)
    requires
        prefix@.len() <= bytes@.len(),
    ensures
        r == (bytes@.take(prefix@.len() as int) == prefix@),
{
    let mut i: usize = 0;
    while i < prefix.len()
        invariant
            prefix@.len() <= bytes@.len(),
            i <= prefix@.len(),
            forall|j: int| 0 <= j < i ==> bytes@[j] == prefix@[j],
        decreases prefix@.len() - i,
    {
        if bytes[i] != prefix[i] {
            assert(bytes@.take(prefix@.len() as int)[i as int] != prefix@[i as int]);
            return false;
        }
        i = i + 1;
    }
    assert(bytes@.take(prefix@.len() as int) =~= prefix@);
    true
}

/// The UTF-8 encoding of a string's characters.
pub trait SpecBytesOf {
    /// The UTF-8 encoding.
    spec fn spec_bytes_of(self) -> Seq<u8>;
}

impl SpecBytesOf for Seq<char> {
    open spec fn spec_bytes_of(self) -> Seq<u8> {
        vstd::utf8::encode_utf8(self)
    }
}

/// Every path is a child of itself.
pub proof fn lemma_is_child_reflexive(s: Seq<char>)
    ensures
        is_child_bytes(s.spec_bytes_of(), s.spec_bytes_of()),
{
    let b = s.spec_bytes_of();
    encode_utf8_valid_utf8(s);
    is_char_boundary_start_end_of_seq(b);
    assert(b.take(b.len() as int) =~= b);
}

/// Segments joined back together with `::` between them.
pub open spec fn join_segments(segs: Seq<Seq<char>>) -> Seq<char>
    decreases segs.len(),
{
    if segs.len() == 0 {
        Seq::empty()
    } else if segs.len() == 1 {
        segs[0]
    } else {
        segs[0] + seq![':', ':'] + join_segments(segs.drop_first())
    }
}

/// Splitting never gives no segments.
proof fn lemma_segments_from_nonempty(s: Seq<char>, start: int, i: int)
    ensures
        segments_from(s, start, i).len() > 0,
    decreases s.len() - i,
{
    if i + 1 >= s.len() {
    } else if s[i] == ':' && s[i + 1] == ':' {
    } else {
        lemma_segments_from_nonempty(s, start, i + 1);
    }
}

/// Joining the segments found from `start` gives back the text from `start`.
proof fn lemma_join_segments_from(s: Seq<char>, start: int, i: int)
    requires
        0 <= start <= i <= s.len(),
    ensures
        join_segments(segments_from(s, start, i)) == s.subrange(start, s.len() as int),
    decreases s.len() - i,
{
    if i + 1 >= s.len() {
    } else if s[i] == ':' && s[i + 1] == ':' {
        let rest = segments_from(s, i + 2, i + 2);
        lemma_join_segments_from(s, i + 2, i + 2);
        lemma_segments_from_nonempty(s, i + 2, i + 2);
        let segs = seq![s.subrange(start, i)] + rest;
        assert(segs.drop_first() =~= rest);
        assert(segs[0] == s.subrange(start, i));
        assert(s.subrange(start, i) + seq![':', ':'] + s.subrange(i + 2, s.len() as int) =~= s.subrange(
            start,
            s.len() as int,
        ));
    } else {
        lemma_join_segments_from(s, start, i + 1);
    }
}

/// Joining a path's segments with `::` gives back the path: splitting
/// loses nothing.
pub proof fn lemma_segments_join(s: Seq<char>)
    ensures
        join_segments(path_segments(s)) == s,
{
    lemma_join_segments_from(s, 0, 0);
    assert(s.subrange(0, s.len() as int) =~= s);
}

impl<'a> PartialEq for Path<'a> {
    fn eq(&self, other: &Path<'a>) -> (r: bool) {
        self.0 == other.0
    }
}

impl<'a> vstd::std_specs::cmp::PartialEqSpecImpl for Path<'a> {
    open spec fn obeys_eq_spec() -> bool {
        true
    }

    open spec fn eq_spec(&self, other: &Path<'a>) -> bool {
        self@ == other@
    }
}

impl<'a> Eq for Path<'a> {}

impl<'a> Clone for Path<'a> {
    fn clone(&self) -> (r: Self)
        ensures
            r@ == self@,
            r.is_static() == self.is_static(),
    {
        Path(self.0.clone())
    }
}

} // verus!
