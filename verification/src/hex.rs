//! Lower-case hexadecimal encoding and case-insensitive decoding of
//! fixed-width unsigned integers.

use vstd::prelude::*;

verus! {

/// `16^n`.
pub open spec fn pow16(n: nat) -> nat
    decreases n,
{
    if n == 0 {
        1
    } else {
        16 * pow16((n - 1) as nat)
    }
}

/// The lower-case ASCII hex digit for a nibble `0 <= n < 16`.
pub open spec fn hex_char(n: nat) -> u8 {
    if n < 10 {
        (48 + n) as u8
    } else {
        (87 + n) as u8
    }
}

/// The `width` lowest hex digits of `v`, most significant first.
pub open spec fn hex_encode(v: nat, width: nat) -> Seq<u8>
    decreases width,
{
    if width == 0 {
        seq![]
    } else {
        hex_encode(v / 16, (width - 1) as nat).push(hex_char(v % 16))
    }
}

/// The value of a single ASCII hex digit, accepting both cases.
pub open spec fn hex_digit_value(b: u8) -> Option<nat> {
    if 48 <= b <= 57 {
        Some((b - 48) as nat)
    } else if 97 <= b <= 102 {
        Some((b - 87) as nat)
    } else if 65 <= b <= 70 {
        Some((b - 55) as nat)
    } else {
        None
    }
}

/// The value of a sequence of ASCII hex digits, most significant first,
/// or `None` if any byte is not a hex digit.
pub open spec fn hex_decode(s: Seq<u8>) -> Option<nat>
    decreases s.len(),
{
    if s.len() == 0 {
        Some(0)
    } else {
        match (hex_decode(s.drop_last()), hex_digit_value(s.last())) {
            (Some(v), Some(d)) => Some(v * 16 + d),
            _ => None,
        }
    }
}

/// Powers of sixteen are positive.
pub proof fn lemma_pow16_positive(n: nat)
    ensures
        pow16(n) > 0,
    decreases n,
{
    if n > 0 {
        lemma_pow16_positive((n - 1) as nat);
    }
}

/// Powers of sixteen grow with the exponent.
pub proof fn lemma_pow16_monotone(m: nat, n: nat)
    requires
        m <= n,
    ensures
        pow16(m) <= pow16(n),
    decreases n,
{
    if m < n {
        lemma_pow16_monotone(m, (n - 1) as nat);
    }
}

/// The powers of sixteen that bound 64 and 128 bit values.
pub proof fn lemma_pow16_values()
    ensures
        pow16(16) == 0x1_0000_0000_0000_0000,
        pow16(15) == 0x1000_0000_0000_0000,
        pow16(32) == 0x1_0000_0000_0000_0000_0000_0000_0000_0000,
        pow16(31) == 0x1000_0000_0000_0000_0000_0000_0000_0000,
{
    reveal_with_fuel(pow16, 33);
}

/// Encoding has exactly `width` digits, each a lower-case hex digit.
pub proof fn lemma_hex_encode_len(v: nat, width: nat)
    ensures
        hex_encode(v, width).len() == width,
    decreases width,
{
    if width > 0 {
        lemma_hex_encode_len(v / 16, (width - 1) as nat);
    }
}

/// Decoding `width` encoded digits gives back the value modulo `16^width`.
pub proof fn lemma_hex_roundtrip(v: nat, width: nat)
    ensures
        hex_decode(hex_encode(v, width)) == Some(v % pow16(width)),
    decreases width,
{
    if width == 0 {
    } else {
        let w1 = (width - 1) as nat;
        lemma_hex_roundtrip(v / 16, w1);
        lemma_pow16_positive(w1);
        let s = hex_encode(v, width);
        assert(s.drop_last() =~= hex_encode(v / 16, w1));
        assert(s.last() == hex_char(v % 16));
        assert(hex_digit_value(hex_char(v % 16)) == Some(v % 16));
        vstd::arithmetic::div_mod::lemma_mod_breakdown(v as int, 16, pow16(w1) as int);
    }
}

/// A decoded value of `n` digits is below `16^n`.
pub proof fn lemma_hex_decode_bound(s: Seq<u8>)
    ensures
        hex_decode(s) matches Some(v) ==> v < pow16(s.len()),
    decreases s.len(),
{
    if s.len() > 0 {
        lemma_hex_decode_bound(s.drop_last());
    }
}

/// The value of a hex digit, or `None` for any other byte.
pub fn hex_digit(b: u8) -> (r: Option<u8>)
    ensures
        match r {
            Some(d) => hex_digit_value(b) == Some(d as nat) && d < 16,
            None => hex_digit_value(b) is None,
        },
{
    if 48u8 <= b && b <= 57u8 {
        Some(b - 48u8)
    } else if 97u8 <= b && b <= 102u8 {
        Some(b - 97u8 + 10)
    } else if 65u8 <= b && b <= 70u8 {
        Some(b - 65u8 + 10)
    } else {
        None
    }
}

/// The lower-case hex digit for a nibble.
pub fn nibble_char(n: u8) -> (r: u8)
    requires
        n < 16,
    ensures
        r == hex_char(n as nat),
{
    if n < 10 {
        48u8 + n
    } else {
        97u8 + (n - 10)
    }
}

/// Encode the `width` lowest hex digits of `v`, most significant first.
pub fn encode_u128(v: u128, width: usize) -> (r: Vec<u8>)
    ensures
        r@ == hex_encode(v as nat, width as nat),
{
    let mut out: Vec<u8> = Vec::new();
    let mut k: usize = 0;
    while k < width
        invariant
            k <= width,
            out@.len() == k,
        decreases width - k,
    {
        out.push(48u8);
        k = k + 1;
    }
    let mut cur: u128 = v;
    let mut i: usize = width;
    assert(out@.subrange(width as int, width as int) =~= Seq::<u8>::empty());
    assert(hex_encode(cur as nat, i as nat) + out@.subrange(i as int, width as int) =~= hex_encode(v as nat, width as nat));
    while i > 0
        invariant
            i <= width,
            out@.len() == width,
            hex_encode(cur as nat, i as nat) + out@.subrange(i as int, width as int) == hex_encode(v as nat, width as nat),
        decreases i,
    {
        let ghost old_out = out@;
        let d = (cur % 16) as u8;
        let c = nibble_char(d);
        out.set(i - 1, c);
        let ghost old_cur = cur;
        cur = cur / 16;
        i = i - 1;
        proof {
            let a = hex_encode(cur as nat, i as nat);
            assert(hex_encode(old_cur as nat, (i + 1) as nat) == a.push(hex_char((old_cur % 16) as nat)));
            assert(out@.subrange(i as int, width as int) =~= seq![c] + old_out.subrange(i + 1, width as int));
            assert(a + out@.subrange(i as int, width as int) =~= a.push(c) + old_out.subrange(i + 1, width as int));
        }
    }
    assert(out@ =~= hex_encode(cur as nat, 0) + out@.subrange(0, width as int));
    out
}

/// A sequence whose decoding succeeds has a decodable prefix of any length.
pub proof fn lemma_hex_decode_prefix(s: Seq<u8>, k: int)
    requires
        0 <= k <= s.len(),
        hex_decode(s) is Some,
    ensures
        hex_decode(s.take(k)) is Some,
    decreases s.len(),
{
    if k < s.len() {
        lemma_hex_decode_prefix(s.drop_last(), k);
        assert(s.drop_last().take(k) =~= s.take(k));
    } else {
        assert(s.take(k) =~= s);
    }
}

/// Decode a sequence of at most 32 hex digits, most significant first.
pub fn decode_u128(hex: &[u8]) -> (r: Option<u128>)
    requires
        hex@.len() <= 32,
    ensures
        match r {
            Some(v) => hex_decode(hex@) == Some(v as nat),
            None => hex_decode(hex@) is None,
        },
{
    let mut acc: u128 = 0;
    let mut i: usize = 0;
    assert(hex@.take(0) =~= Seq::<u8>::empty());
    while i < hex.len()
        invariant
            hex@.len() <= 32,
            i <= hex@.len(),
            hex_decode(hex@.take(i as int)) == Some(acc as nat),
            acc < pow16(i as nat),
        decreases hex@.len() - i,
    {
        let b = hex[i];
        assert(hex@.take(i + 1).drop_last() =~= hex@.take(i as int));
        match hex_digit(b) {
            None => {
                proof {
                    if hex_decode(hex@) is Some {
                        lemma_hex_decode_prefix(hex@, i + 1);
                    }
                }
                return None;
            },
            Some(d) => {
                proof {
                    lemma_pow16_monotone(i as nat, 31);
                    lemma_pow16_values();
                }
                acc = acc * 16 + d as u128;
                i = i + 1;
            },
        }
    }
    assert(hex@.take(i as int) =~= hex@);
    Some(acc)
}

} // verus!
