//! A source of randomness for generating identifiers.

use vstd::prelude::*;
use crate::empty::Empty;

verus! {

/// The value of little-endian bytes: the first byte is the least significant.
pub open spec fn le_value(bytes: Seq<u8>) -> nat
    decreases bytes.len(),
{
    if bytes.len() == 0 {
        0
    } else {
        (bytes[0] + 256 * le_value(bytes.drop_first())) as nat
    }
}

/// `256^n`.
pub open spec fn pow256(n: nat) -> nat
    decreases n,
{
    if n == 0 {
        1
    } else {
        256 * pow256((n - 1) as nat)
    }
}

proof fn lemma_le_value_bound(bytes: Seq<u8>)
    ensures
        le_value(bytes) < pow256(bytes.len()),
    decreases bytes.len(),
{
    if bytes.len() > 0 {
        lemma_le_value_bound(bytes.drop_first());
    }
}

/// The value of little-endian bytes, for at most 16 bytes.
pub fn from_le_bytes(bytes: &[u8]) -> (r: u128)
    requires
        bytes@.len() <= 16,
    ensures
        r == le_value(bytes@),
{
    let n = bytes.len();
    let mut acc: u128 = 0;
    let mut i: usize = n;
    assert(bytes@.subrange(n as int, n as int) =~= Seq::<u8>::empty());
    while i > 0
        invariant
            n == bytes@.len(),
            n <= 16,
            i <= n,
            acc == le_value(bytes@.subrange(i as int, n as int)),
        decreases i,
    {
        let ghost rest = bytes@.subrange(i as int, n as int);
        proof {
            lemma_le_value_bound(rest);
            reveal_with_fuel(pow256, 17);
            assert(pow256(rest.len()) <= pow256(15)) by {
                lemma_pow256_monotone(rest.len(), 15);
            }
        }
        acc = bytes[i - 1] as u128 + 256 * acc;
        i = i - 1;
        assert(bytes@.subrange(i as int, n as int).drop_first() =~= rest);
    }
    assert(bytes@.subrange(0, n as int) =~= bytes@);
    acc
}

proof fn lemma_pow256_monotone(m: nat, n: nat)
    requires
        m <= n,
    ensures
        pow256(m) <= pow256(n),
    decreases n,
{
    if m < n {
        lemma_pow256_monotone(m, (n - 1) as nat);
    }
}

/// A source of random bytes.
pub trait Rng {
    /// Fill the given bytes with random values, returning them, or `None` if
    /// randomness isn't available.
    fn fill<const N: usize>(&self, arr: [u8; N]) -> Option<[u8; N]>;

    /// A random `u64`, from eight random bytes read as little-endian.
    fn gen_u64(&self) -> (r: Option<u64>) {
        match self.fill([0u8; 8]) {
            Some(bytes) => {
                proof {
                    lemma_le_value_bound(bytes@);
                    reveal_with_fuel(pow256, 9);
                }
                Some(from_le_bytes(&bytes) as u64)
            },
            None => None,
        }
    }

    /// A random `u128`, from sixteen random bytes read as little-endian.
    fn gen_u128(&self) -> (r: Option<u128>) {
        match self.fill([0u8; 16]) {
            Some(bytes) => Some(from_le_bytes(&bytes)),
            None => None,
        }
    }
}

impl<'a, T: Rng> Rng for &'a T {
    fn fill<const N: usize>(&self, arr: [u8; N]) -> Option<[u8; N]> {
        (**self).fill(arr)
    }

    /// A `u64` from the referenced source.
    fn gen_u64(&self) -> (r: Option<u64>)
        ensures
            call_ensures(T::gen_u64, (*self,), r),
    {
        (**self).gen_u64()
    }

    /// A `u128` from the referenced source.
    fn gen_u128(&self) -> (r: Option<u128>)
        ensures
            call_ensures(T::gen_u128, (*self,), r),
    {
        (**self).gen_u128()
    }
}

impl<T: Rng> Rng for Option<T> {
    fn fill<const N: usize>(&self, arr: [u8; N]) -> (r: Option<[u8; N]>)
        ensures
            self is None ==> r is None,
    {
        match self {
            Some(rng) => rng.fill(arr),
            None => None,
        }
    }

    /// A `u64` from the source, if there is one.
    fn gen_u64(&self) -> (r: Option<u64>)
        ensures
            match self {
                Some(rng) => call_ensures(T::gen_u64, (rng,), r),
                None => r is None,
            },
    {
        match self {
            Some(rng) => rng.gen_u64(),
            None => None,
        }
    }

    /// A `u128` from the source, if there is one.
    fn gen_u128(&self) -> (r: Option<u128>)
        ensures
            match self {
                Some(rng) => call_ensures(T::gen_u128, (rng,), r),
                None => r is None,
            },
    {
        match self {
            Some(rng) => rng.gen_u128(),
            None => None,
        }
    }
}

impl Rng for Empty {
    fn fill<const N: usize>(&self, arr: [u8; N]) -> (r: Option<[u8; N]>)
        ensures
            r is None,
    {
        None
    }
}

} // verus!
