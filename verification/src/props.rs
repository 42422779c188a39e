//! Properties: the structured data of an event, as a sequence of keys and
//! values. A key may appear more than once; looking it up finds its first
//! value.

use vstd::prelude::*;
use vstd::string::StringSliceAdditionalSpecFns;
use vstd::utf8::encode_utf8;
use crate::and::And;
use crate::empty::Empty;
use crate::str::Str;
use crate::text::{lemma_encoding_injective, str_eq};
use core::marker::PhantomData;

verus! {

/// The first value of `key` in `props`, if it appears.
pub open spec fn find_first<V>(props: Seq<(Seq<char>, V)>, key: Seq<char>) -> Option<V>
    decreases props.len(),
{
    if props.len() == 0 {
        None
    } else if props[0].0 == key {
        Some(props[0].1)
    } else {
        find_first(props.drop_first(), key)
    }
}

/// Whether no key appears twice in `props`.
pub open spec fn keys_unique<V>(props: Seq<(Seq<char>, V)>) -> bool {
    forall|i: int, j: int| 0 <= i < j < props.len() ==> #[trigger] props[i].0 != #[trigger] props[j].0
}

/// Whether the `i`th property is the first with its key.
pub open spec fn is_first_of_key<V>(props: Seq<(Seq<char>, V)>, i: int) -> bool {
    &&& 0 <= i < props.len()
    &&& forall|j: int| 0 <= j < i ==> #[trigger] props[j].0 != props[i].0
}

/// Looking up a key in `props` from position `i` when the key isn't there
/// is looking it up from the next position.
proof fn lemma_find_first_skip<V>(props: Seq<(Seq<char>, V)>, key: Seq<char>, i: int)
    requires
        0 <= i < props.len(),
    ensures
        find_first(props.skip(i), key) == if props[i].0 == key {
            Some(props[i].1)
        } else {
            find_first(props.skip(i + 1), key)
        },
{
    let s = props.skip(i);
    assert(s[0] == props[i]);
    assert(s.drop_first() =~= props.skip(i + 1));
}

/// The first value of a key is the value of the first property with it.
pub proof fn lemma_find_first_is_first<V>(props: Seq<(Seq<char>, V)>, i: int)
    requires
        is_first_of_key(props, i),
    ensures
        find_first(props, props[i].0) == Some(props[i].1),
    decreases i,
{
    if i > 0 {
        assert(props[0].0 != props[i].0);
        let rest = props.drop_first();
        assert forall|j: int| 0 <= j < i - 1 implies #[trigger] rest[j].0 != rest[i - 1].0 by {
            assert(rest[j] == props[j + 1]);
        }
        lemma_find_first_is_first(rest, i - 1);
    }
}

/// A key that appears has a first property with it, holding its first
/// value; a key that doesn't has no value.
pub proof fn lemma_find_first_some<V>(props: Seq<(Seq<char>, V)>, key: Seq<char>)
    ensures
        find_first(props, key) is None <==> forall|i: int| 0 <= i < props.len() ==> #[trigger] props[i].0 != key,
        find_first(props, key) is Some ==> exists|i: int|
            is_first_of_key(props, i) && props[i].0 == key && find_first(props, key) == Some(
                #[trigger] props[i].1,
            ),
    decreases props.len(),
{
    if props.len() > 0 {
        let rest = props.drop_first();
        lemma_find_first_some(rest, key);
        if props[0].0 == key {
            assert(is_first_of_key(props, 0));
            assert(find_first(props, key) == Some(props[0].1));
        } else {
            assert forall|i: int| 0 <= i < rest.len() implies #[trigger] rest[i] == props[i + 1] by {}
            if find_first(rest, key) is Some {
                let w = choose|i: int|
                    is_first_of_key(rest, i) && rest[i].0 == key && find_first(rest, key) == Some(
                        #[trigger] rest[i].1,
                    );
                assert(rest[w] == props[w + 1]);
                assert forall|j: int| 0 <= j < w + 1 implies #[trigger] props[j].0 != props[w + 1].0 by {
                    if j > 0 {
                        assert(rest[j - 1] == props[j]);
                    }
                }
                assert(is_first_of_key(props, w + 1));
                assert(find_first(props, key) == Some(props[w + 1].1));
            } else {
                assert forall|i: int| 0 <= i < props.len() implies #[trigger] props[i].0 != key by {
                    if i > 0 {
                        assert(rest[i - 1] == props[i]);
                    }
                }
            }
        }
    }
}

/// Looking up a key in joined properties finds it in the first part if
/// it's there, and in the second part otherwise.
pub proof fn lemma_find_first_append<V>(a: Seq<(Seq<char>, V)>, b: Seq<(Seq<char>, V)>, key: Seq<char>)
    ensures
        find_first(a + b, key) == match find_first(a, key) {
            Some(v) => Some(v),
            None => find_first(b, key),
        },
    decreases a.len(),
{
    if a.len() == 0 {
        assert(a + b =~= b);
    } else {
        assert((a + b)[0] == a[0]);
        assert((a + b).drop_first() =~= a.drop_first() + b);
        lemma_find_first_append(a.drop_first(), b, key);
    }
}

/// A collection of properties, each a key and a value.
pub trait Props<V> {
    /// The properties, in the order they're visited.
    spec fn spec_props(&self) -> Seq<(Seq<char>, V)>;

    /// Whether the collection promises no key appears twice.
    spec fn spec_is_unique(&self) -> bool;

    /// The number of properties, which must fit in memory.
    fn len(&self) -> (r: usize)
        requires
            self.spec_props().len() <= usize::MAX,
        ensures
            r == self.spec_props().len(),
    ;

    /// The key of the `i`th property.
    fn key_at(&self, i: usize) -> (r: &str)
        requires
            i < self.spec_props().len() <= usize::MAX,
        ensures
            r@ == self.spec_props()[i as int].0,
    ;

    /// The value of the `i`th property.
    fn value_at(&self, i: usize) -> (r: &V)
        requires
            i < self.spec_props().len() <= usize::MAX,
        ensures
            *r == self.spec_props()[i as int].1,
    ;

    /// Whether the collection is known not to contain any duplicate keys.
    /// When there's any possibility a key is duplicated, this is `false`.
    fn is_unique(&self) -> (r: bool)
        ensures
            r == self.spec_is_unique(),
            r ==> keys_unique(self.spec_props()),
    ;

    /// The value for `key`, if it's present. If the key appears more than
    /// once, the first value is returned.
    fn get(&self, key: &str) -> (r: Option<&V>)
        requires
            self.spec_props().len() <= usize::MAX,
        ensures
            match r {
                Some(v) => find_first(self.spec_props(), key@) == Some(*v),
                None => find_first(self.spec_props(), key@) is None,
            },
    {
        let n = self.len();
        let mut i: usize = 0;
        proof {
            assert(self.spec_props().skip(0) =~= self.spec_props());
        }
        while i < n
            invariant
                n == self.spec_props().len(),
                i <= n,
                find_first(self.spec_props(), key@) == find_first(self.spec_props().skip(i as int), key@),
            decreases n - i,
        {
            proof {
                lemma_find_first_skip(self.spec_props(), key@, i as int);
            }
            if str_eq(self.key_at(i), key) {
                return Some(self.value_at(i));
            }
            i = i + 1;
        }
        proof {
            assert(self.spec_props().skip(n as int) =~= Seq::<(Seq<char>, V)>::empty());
        }
        None
    }

    /// The properties of `self` followed by those of `other`.
    fn and_props<U>(self, other: U) -> (r: And<Self, U>)
        where
            Self: Sized,
        ensures
            r.spec_left() == self,
            r.spec_right() == other,
    {
        And::new(self, other)
    }
}

impl<V> Props<V> for Empty {
    /// No properties.
    open spec fn spec_props(&self) -> Seq<(Seq<char>, V)> {
        Seq::empty()
    }

    open spec fn spec_is_unique(&self) -> bool {
        true
    }

    fn len(&self) -> (r: usize) {
        0
    }

    fn key_at(&self, i: usize) -> (r: &str) {
        ""
    }

    fn value_at(&self, i: usize) -> (r: &V) {
        vstd::pervasive::unreached()
    }

    fn is_unique(&self) -> (r: bool) {
        true
    }

    fn get(&self, key: &str) -> (r: Option<&V>) {
        None
    }
}

impl<'k, V> Props<V> for (Str<'k>, V) {
    /// A single property.
    open spec fn spec_props(&self) -> Seq<(Seq<char>, V)> {
        seq![(self.0@, self.1)]
    }

    open spec fn spec_is_unique(&self) -> bool {
        true
    }

    fn len(&self) -> (r: usize) {
        1
    }

    fn key_at(&self, i: usize) -> (r: &str) {
        self.0.get()
    }

    fn value_at(&self, i: usize) -> (r: &V) {
        &self.1
    }

    fn is_unique(&self) -> (r: bool) {
        true
    }
}

impl<'k, V> Props<V> for Vec<(Str<'k>, V)> {
    /// The pairs, in order.
    open spec fn spec_props(&self) -> Seq<(Seq<char>, V)> {
        self@.map_values(|p: (Str<'k>, V)| (p.0@, p.1))
    }

    open spec fn spec_is_unique(&self) -> bool {
        false
    }

    fn len(&self) -> (r: usize) {
        Vec::len(self)
    }

    fn key_at(&self, i: usize) -> (r: &str) {
        self[i].0.get()
    }

    fn value_at(&self, i: usize) -> (r: &V) {
        &self[i].1
    }

    fn is_unique(&self) -> (r: bool) {
        false
    }
}

impl<'r, V, P: Props<V>> Props<V> for &'r P {
    /// The properties of the referenced collection.
    open spec fn spec_props(&self) -> Seq<(Seq<char>, V)> {
        (**self).spec_props()
    }

    open spec fn spec_is_unique(&self) -> bool {
        (**self).spec_is_unique()
    }

    fn len(&self) -> (r: usize) {
        (**self).len()
    }

    fn key_at(&self, i: usize) -> (r: &str) {
        (**self).key_at(i)
    }

    fn value_at(&self, i: usize) -> (r: &V) {
        (**self).value_at(i)
    }

    fn is_unique(&self) -> (r: bool) {
        (**self).is_unique()
    }
}

impl<V, P: Props<V>> Props<V> for Option<P> {
    /// The properties of the collection, if there is one.
    open spec fn spec_props(&self) -> Seq<(Seq<char>, V)> {
        match self {
            Some(props) => props.spec_props(),
            None => Seq::empty(),
        }
    }

    open spec fn spec_is_unique(&self) -> bool {
        false
    }

    fn len(&self) -> (r: usize) {
        match self {
            Some(props) => props.len(),
            None => 0,
        }
    }

    fn key_at(&self, i: usize) -> (r: &str) {
        match self {
            Some(props) => props.key_at(i),
            None => "",
        }
    }

    fn value_at(&self, i: usize) -> (r: &V) {
        match self {
            Some(props) => props.value_at(i),
            None => vstd::pervasive::unreached(),
        }
    }

    fn is_unique(&self) -> (r: bool) {
        false
    }
}

impl<V, A: Props<V>, B: Props<V>> Props<V> for And<A, B> {
    /// The properties of the left collection, then those of the right.
    open spec fn spec_props(&self) -> Seq<(Seq<char>, V)> {
        self.spec_left().spec_props() + self.spec_right().spec_props()
    }

    open spec fn spec_is_unique(&self) -> bool {
        false
    }

    fn len(&self) -> (r: usize) {
        self.left().len() + self.right().len()
    }

    fn key_at(&self, i: usize) -> (r: &str) {
        let l = self.left().len();
        if i < l {
            self.left().key_at(i)
        } else {
            self.right().key_at(i - l)
        }
    }

    fn value_at(&self, i: usize) -> (r: &V) {
        let l = self.left().len();
        if i < l {
            self.left().value_at(i)
        } else {
            self.right().value_at(i - l)
        }
    }

    fn is_unique(&self) -> (r: bool) {
        false
    }

    /// The value from the left collection if it has the key, and from the
    /// right one otherwise.
    fn get(&self, key: &str) -> (r: Option<&V>) {
        proof {
            lemma_find_first_append(self.spec_left().spec_props(), self.spec_right().spec_props(), key@);
        }
        match self.left().get(key) {
            Some(v) => Some(v),
            None => self.right().get(key),
        }
    }
}

/// Whether `a` sorts before `b` byte by byte, a proper prefix sorting first.
pub open spec fn bytes_lt(a: Seq<u8>, b: Seq<u8>) -> bool
    decreases a.len(),
{
    if a.len() == 0 {
        b.len() > 0
    } else if b.len() == 0 {
        false
    } else if a[0] != b[0] {
        a[0] < b[0]
    } else {
        bytes_lt(a.drop_first(), b.drop_first())
    }
}

/// Whether key `a` sorts before key `b`: by their UTF-8 bytes.
pub open spec fn key_lt(a: Seq<char>, b: Seq<char>) -> bool {
    bytes_lt(encode_utf8(a), encode_utf8(b))
}

/// No sequence of bytes sorts before itself.
pub proof fn lemma_bytes_lt_irreflexive(a: Seq<u8>)
    ensures
        !bytes_lt(a, a),
    decreases a.len(),
{
    if a.len() > 0 {
        lemma_bytes_lt_irreflexive(a.drop_first());
    }
}

/// Sorting bytes is transitive.
pub proof fn lemma_bytes_lt_transitive(a: Seq<u8>, b: Seq<u8>, c: Seq<u8>)
    requires
        bytes_lt(a, b),
        bytes_lt(b, c),
    ensures
        bytes_lt(a, c),
    decreases a.len(),
{
    if a.len() > 0 && b.len() > 0 && c.len() > 0 && a[0] == b[0] && b[0] == c[0] {
        lemma_bytes_lt_transitive(a.drop_first(), b.drop_first(), c.drop_first());
    }
}

/// Of two different sequences of bytes, one sorts before the other.
pub proof fn lemma_bytes_lt_total(a: Seq<u8>, b: Seq<u8>)
    requires
        a != b,
    ensures
        bytes_lt(a, b) || bytes_lt(b, a),
    decreases a.len(),
{
    if a.len() == 0 {
        assert(b.len() > 0) by {
            if b.len() == 0 {
                assert(a =~= b);
            }
        }
    } else if b.len() > 0 && a[0] == b[0] {
        let a1 = a.drop_first();
        let b1 = b.drop_first();
        assert(a1.len() == a.len() - 1);
        assert(b1.len() == b.len() - 1);
        if a1 == b1 {
            assert(a1.len() == b1.len());
            assert forall|i: int| 0 <= i < a.len() implies #[trigger] a[i] == b[i] by {
                if i > 0 {
                    assert(a1[i - 1] == a[i]);
                    assert(b1[i - 1] == b[i]);
                }
            }
            assert(a =~= b);
        }
        lemma_bytes_lt_total(a1, b1);
    }
}

/// Of two different keys, one sorts before the other.
pub proof fn lemma_key_lt_total(a: Seq<char>, b: Seq<char>)
    requires
        a != b,
    ensures
        key_lt(a, b) || key_lt(b, a),
{
    lemma_encoding_injective(a, b);
    lemma_bytes_lt_total(encode_utf8(a), encode_utf8(b));
}

/// Comparing from position `i` looks at the bytes there first.
proof fn lemma_bytes_lt_skip(a: Seq<u8>, b: Seq<u8>, i: int)
    requires
        0 <= i < a.len(),
        i < b.len(),
    ensures
        bytes_lt(a.skip(i), b.skip(i)) == if a[i] != b[i] {
            a[i] < b[i]
        } else {
            bytes_lt(a.skip(i + 1), b.skip(i + 1))
        },
{
    assert(a.skip(i)[0] == a[i]);
    assert(b.skip(i)[0] == b[i]);
    assert(a.skip(i).drop_first() =~= a.skip(i + 1));
    assert(b.skip(i).drop_first() =~= b.skip(i + 1));
}

/// Whether `a` sorts before `b`, byte by byte.
pub fn bytes_less(a: &[u8], b: &[u8]) -> (r: bool)
    ensures
        r == bytes_lt(a@, b@),
{
    let mut i: usize = 0;
    assert(a@.skip(0) =~= a@);
    assert(b@.skip(0) =~= b@);
    while i < a.len() && i < b.len()
        invariant
            i <= a@.len(),
            i <= b@.len(),
            bytes_lt(a@, b@) == bytes_lt(a@.skip(i as int), b@.skip(i as int)),
        decreases a@.len() - i,
    {
        proof {
            lemma_bytes_lt_skip(a@, b@, i as int);
        }
        if a[i] != b[i] {
            return a[i] < b[i];
        }
        i = i + 1;
    }
    assert(a@.skip(i as int).len() == a@.len() - i);
    assert(b@.skip(i as int).len() == b@.len() - i);
    i == a.len() && i < b.len()
}

/// Whether `order` picks out each key of `p` once, by the index of its
/// first property: in the order of `p` if its keys are known to be unique,
/// and sorted by key otherwise.
pub open spec fn is_dedup_order<V>(p: Seq<(Seq<char>, V)>, unique: bool, order: Seq<usize>) -> bool {
    &&& p.len() <= usize::MAX
    &&& forall|k: int| 0 <= k < order.len() ==> is_first_of_key(p, #[trigger] order[k] as int)
    &&& forall|j: int| is_first_of_key(p, j) ==> exists|k: int| 0 <= k < order.len() && #[trigger] order[k] == j
    &&& unique ==> keys_unique(p) && order == Seq::new(p.len(), |i: int| i as usize)
    &&& !unique ==> forall|k: int, l: int|
        0 <= k < l < order.len() ==> key_lt(#[trigger] p[order[k] as int].0, #[trigger] p[order[l] as int].0)
}

/// The properties that `order` picks out of `p`.
pub open spec fn pick<V>(p: Seq<(Seq<char>, V)>, order: Seq<usize>) -> Seq<(Seq<char>, V)> {
    order.map_values(|j: usize| p[j as int])
}

/// De-duplicated properties have each key once, holding its first value,
/// and every key of the original properties is among them, so looking a
/// key up finds the same value in both.
pub proof fn lemma_dedup_keeps_first_values<V>(
    p: Seq<(Seq<char>, V)>,
    unique: bool,
    order: Seq<usize>,
    key: Seq<char>,
)
    requires
        is_dedup_order(p, unique, order),
    ensures
        keys_unique(pick(p, order)),
        forall|k: int| 0 <= k < order.len() ==> find_first(p, #[trigger] pick(p, order)[k].0) == Some(
            pick(p, order)[k].1,
        ),
        find_first(pick(p, order), key) == find_first(p, key),
{
    let d = pick(p, order);
    assert forall|k: int, l: int| 0 <= k < l < d.len() implies #[trigger] d[k].0 != #[trigger] d[l].0 by {
        assert(is_first_of_key(p, order[k] as int));
        assert(is_first_of_key(p, order[l] as int));
        if unique {
            assert(order[k] as int == k && order[l] as int == l);
        } else {
            assert(key_lt(p[order[k] as int].0, p[order[l] as int].0));
            if d[k].0 == d[l].0 {
                lemma_bytes_lt_irreflexive(encode_utf8(d[k].0));
            }
        }
    }
    assert forall|k: int| 0 <= k < order.len() implies find_first(p, #[trigger] d[k].0) == Some(d[k].1) by {
        assert(is_first_of_key(p, order[k] as int));
        lemma_find_first_is_first(p, order[k] as int);
    }
    lemma_find_first_some(p, key);
    lemma_find_first_some(d, key);
    if find_first(p, key) is Some {
        let j = choose|j: int|
            is_first_of_key(p, j) && p[j].0 == key && find_first(p, key) == Some(#[trigger] p[j].1);
        let k = choose|k: int| 0 <= k < order.len() && #[trigger] order[k] == j;
        assert(d[k] == p[j]);
        assert forall|m: int| 0 <= m < k implies #[trigger] d[m].0 != d[k].0 by {}
        lemma_find_first_is_first(d, k);
    } else {
        if find_first(d, key) is Some {
            let k = choose|k: int|
                is_first_of_key(d, k) && d[k].0 == key && find_first(d, key) == Some(#[trigger] d[k].1);
            assert(p[order[k] as int].0 == key);
        }
    }
}

/// Properties with duplicate keys removed, keeping the first value of each.
pub struct Dedup<'a, V, P: Props<V>> {
    inner: &'a P,
    order: Vec<usize>,
    _value: PhantomData<V>,
}

impl<'a, V, P: Props<V>> Dedup<'a, V, P> {
    #[verifier::type_invariant]
    closed spec fn inv(self) -> bool {
        is_dedup_order(self.inner.spec_props(), self.inner.spec_is_unique(), self.order@)
    }

    /// The properties de-duplicated.
    pub closed spec fn spec_inner(&self) -> P {
        *self.inner
    }

    /// The positions in the de-duplicated properties of those kept.
    pub closed spec fn spec_order(&self) -> Seq<usize> {
        self.order@
    }

    /// De-duplicate properties: keep the first value of each key. If the
    /// properties are known to have unique keys they're kept in order;
    /// otherwise they're sorted by key.
    pub fn new(inner: &'a P) -> (r: Self)
        requires
            inner.spec_props().len() <= usize::MAX,
        ensures
            r.spec_inner() == *inner,
            is_dedup_order(inner.spec_props(), inner.spec_is_unique(), r.spec_order()),
    {
        let ghost p = inner.spec_props();
        let n = inner.len();
        if inner.is_unique() {
            let mut order: Vec<usize> = Vec::new();
            let mut i: usize = 0;
            while i < n
                invariant
                    i <= n,
                    n == p.len(),
                    order@ == Seq::new(i as nat, |k: int| k as usize),
                decreases n - i,
            {
                order.push(i);
                i = i + 1;
                assert(order@ =~= Seq::new(i as nat, |k: int| k as usize));
            }
            proof {
                assert forall|k: int| 0 <= k < order@.len() implies is_first_of_key(p, #[trigger] order@[k] as int) by {
                    assert forall|j: int| 0 <= j < k implies #[trigger] p[j].0 != p[k].0 by {}
                }
                assert forall|j: int| is_first_of_key(p, j) implies exists|k: int|
                    0 <= k < order@.len() && #[trigger] order@[k] == j by {
                    assert(order@[j] == j);
                }
            }
            return Dedup { inner, order, _value: PhantomData };
        }
        let mut order: Vec<usize> = Vec::new();
        let mut i: usize = 0;
        while i < n
            invariant
                i <= n,
                n == p.len(),
                p == inner.spec_props(),
                !inner.spec_is_unique(),
                forall|k: int| 0 <= k < order@.len() ==> is_first_of_key(p, #[trigger] order@[k] as int),
                forall|k: int| 0 <= k < order@.len() ==> #[trigger] order@[k] < i,
                forall|j: int| 0 <= j < i && is_first_of_key(p, j) ==> exists|k: int|
                    0 <= k < order@.len() && #[trigger] order@[k] == j,
                forall|k: int, l: int|
                    0 <= k < l < order@.len() ==> key_lt(
                        #[trigger] p[order@[k] as int].0,
                        #[trigger] p[order@[l] as int].0,
                    ),
            decreases n - i,
        {
            let key = inner.key_at(i);
            let mut first = true;
            let mut j: usize = 0;
            while j < i
                invariant
                    j <= i < n,
                    n == p.len(),
                    p == inner.spec_props(),
                    key@ == p[i as int].0,
                    first == forall|m: int| 0 <= m < j ==> #[trigger] p[m].0 != p[i as int].0,
                decreases i - j,
            {
                if str_eq(inner.key_at(j), key) {
                    first = false;
                }
                j = j + 1;
            }
            if first {
                let bytes = key.as_bytes();
                let mut pos: usize = 0;
                while pos < order.len() && bytes_less(inner.key_at(order[pos]).as_bytes(), bytes)
                    invariant
                        pos <= order@.len(),
                        i < n,
                        n == p.len(),
                        p == inner.spec_props(),
                        bytes@ == encode_utf8(p[i as int].0),
                        forall|k: int| 0 <= k < order@.len() ==> #[trigger] order@[k] < i,
                        forall|k: int| 0 <= k < pos ==> key_lt(#[trigger] p[order@[k] as int].0, p[i as int].0),
                    decreases order@.len() - pos,
                {
                    pos = pos + 1;
                }
                let ghost old_order = order@;
                proof {
                    assert(is_first_of_key(p, i as int));
                    if pos < old_order.len() {
                        let o = old_order[pos as int] as int;
                        assert(!key_lt(p[o].0, p[i as int].0));
                        assert(o < i);
                        assert(p[o].0 != p[i as int].0);
                        lemma_key_lt_total(p[o].0, p[i as int].0);
                    }
                }
                order.insert(pos, i);
                proof {
                    old_order.insert_ensures(pos as int, i);
                    let new_order = order@;
                    assert forall|k: int, l: int| 0 <= k < l < new_order.len() implies key_lt(
                        #[trigger] p[new_order[k] as int].0,
                        #[trigger] p[new_order[l] as int].0,
                    ) by {
                        if l < pos {
                        } else if l == pos {
                        } else if k < pos {
                            // k before the new key, l after it
                            let ok = old_order[k] as int;
                            let ol = old_order[l - 1] as int;
                            if l - 1 > pos {
                                assert(key_lt(p[old_order[pos as int] as int].0, p[ol].0));
                                lemma_bytes_lt_transitive(
                                    encode_utf8(p[i as int].0),
                                    encode_utf8(p[old_order[pos as int] as int].0),
                                    encode_utf8(p[ol].0),
                                );
                            }
                            lemma_bytes_lt_transitive(
                                encode_utf8(p[ok].0),
                                encode_utf8(p[i as int].0),
                                encode_utf8(p[ol].0),
                            );
                        } else if k == pos {
                            let ol = old_order[l - 1] as int;
                            if l - 1 > pos {
                                assert(key_lt(p[old_order[pos as int] as int].0, p[ol].0));
                                lemma_bytes_lt_transitive(
                                    encode_utf8(p[i as int].0),
                                    encode_utf8(p[old_order[pos as int] as int].0),
                                    encode_utf8(p[ol].0),
                                );
                            }
                        } else {
                            assert(key_lt(p[old_order[k - 1] as int].0, p[old_order[l - 1] as int].0));
                        }
                    }
                    assert forall|k: int| 0 <= k < new_order.len() implies is_first_of_key(
                        p,
                        #[trigger] new_order[k] as int,
                    ) by {
                        if k < pos {
                            assert(new_order[k] == old_order[k]);
                        } else if k > pos {
                            assert(new_order[k] == old_order[k - 1]);
                        }
                    }
                    assert forall|k: int| 0 <= k < new_order.len() implies #[trigger] new_order[k] < i + 1 by {
                        if k < pos {
                            assert(new_order[k] == old_order[k]);
                        } else if k > pos {
                            assert(new_order[k] == old_order[k - 1]);
                        }
                    }
                    assert forall|j: int| 0 <= j < i + 1 && is_first_of_key(p, j) implies exists|k: int|
                        0 <= k < new_order.len() && #[trigger] new_order[k] == j by {
                        if j == i {
                            assert(new_order[pos as int] == j);
                        } else {
                            let k = choose|k: int| 0 <= k < old_order.len() && #[trigger] old_order[k] == j;
                            if k < pos {
                                assert(new_order[k] == j);
                            } else {
                                assert(new_order[k + 1] == j);
                            }
                        }
                    }
                }
            }
            i = i + 1;
        }
        Dedup { inner, order, _value: PhantomData }
    }
}

impl<'a, V, P: Props<V>> Props<V> for Dedup<'a, V, P> {
    /// The first value of each key, in the order described by [`Dedup::new`].
    open spec fn spec_props(&self) -> Seq<(Seq<char>, V)> {
        pick(self.spec_inner().spec_props(), self.spec_order())
    }

    open spec fn spec_is_unique(&self) -> bool {
        true
    }

    fn len(&self) -> (r: usize) {
        self.order.len()
    }

    fn key_at(&self, i: usize) -> (r: &str) {
        proof {
            use_type_invariant(self);
        }
        self.inner.key_at(self.order[i])
    }

    fn value_at(&self, i: usize) -> (r: &V) {
        proof {
            use_type_invariant(self);
        }
        self.inner.value_at(self.order[i])
    }

    fn is_unique(&self) -> (r: bool) {
        proof {
            use_type_invariant(self);
            lemma_dedup_keeps_first_values(
                self.inner.spec_props(),
                self.inner.spec_is_unique(),
                self.order@,
                Seq::empty(),
            );
        }
        true
    }

    /// Looking a key up finds its first value in the original properties.
    fn get(&self, key: &str) -> (r: Option<&V>) {
        proof {
            use_type_invariant(self);
            lemma_dedup_keeps_first_values(
                self.inner.spec_props(),
                self.inner.spec_is_unique(),
                self.order@,
                key@,
            );
        }
        self.inner.get(key)
    }
}

} // verus!
