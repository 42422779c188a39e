//! Trace and span identifiers: non-zero 128 and 64 bit values, rendered as
//! fixed-width lower-case hex and parsed from hex of either case.

use vstd::prelude::*;
use vstd::string::StringSliceAdditionalSpecFns;
use crate::empty::Empty;
use crate::hex::{
    decode_u128, encode_u128, hex_decode, hex_encode, lemma_hex_decode_bound, lemma_hex_encode_len,
    lemma_hex_roundtrip, lemma_pow16_values, pow16,
};

verus! {

/// The error returned when an id can't be parsed from hex.
#[derive(Debug)]
pub struct ParseIdError {}

/// The trace id a hex string denotes: exactly 32 hex digits of a non-zero value.
pub open spec fn parse_trace_id(s: Seq<u8>) -> Option<u128> {
    if s.len() == 32 {
        match hex_decode(s) {
            Some(v) => if v != 0 { Some(v as u128) } else { None },
            None => None,
        }
    } else {
        None
    }
}

/// The span id a hex string denotes: exactly 16 hex digits of a non-zero value.
pub open spec fn parse_span_id(s: Seq<u8>) -> Option<u64> {
    if s.len() == 16 {
        match hex_decode(s) {
            Some(v) => if v != 0 { Some(v as u64) } else { None },
            None => None,
        }
    } else {
        None
    }
}

/// A 128 bit trace identifier. It is never zero.
#[derive(Clone, Copy, PartialEq, Eq, Structural, Debug)]
pub struct TraceId {
    value: u128,
}

impl View for TraceId {
    type V = u128;

    closed spec fn view(&self) -> u128 {
        self.value
    }
}

impl TraceId {
    #[verifier::type_invariant]
    closed spec fn inv(self) -> bool {
        self.value != 0
    }

    /// Two trace ids are equal exactly when their values are.
    pub proof fn lemma_view_injective(a: TraceId, b: TraceId)
        ensures
            (a@ == b@) == (a == b),
    {
    }

    /// Create a trace id from a non-zero value.
    pub fn new(v: u128) -> (r: Self)
        requires
            v != 0,
        ensures
            r@ == v,
    {
        TraceId { value: v }
    }

    /// Create a trace id from a value, which is `None` for zero.
    pub fn from_u128(v: u128) -> (r: Option<Self>)
        ensures
            v == 0 ==> r is None,
            v != 0 ==> (r matches Some(id) && id@ == v),
    {
        if v == 0 {
            None
        } else {
            Some(TraceId { value: v })
        }
    }

    /// The value of the id.
    pub fn to_u128(&self) -> (r: u128)
        ensures
            r == self@,
            r != 0,
    {
        proof {
            use_type_invariant(self);
        }
        self.value
    }

    /// The id as 32 lower-case hex digits.
    pub fn to_hex(&self) -> (r: [u8; 32])
        ensures
            r@ == hex_encode(self@ as nat, 32),
    {
        let digits = encode_u128(self.value, 32);
        proof {
            lemma_hex_encode_len(self@ as nat, 32);
        }
        let mut dst: [u8; 32] = [0u8; 32];
        let mut i: usize = 0;
        while i < 32
            invariant
                i <= 32,
                digits@ == hex_encode(self@ as nat, 32),
                digits@.len() == 32,
                forall|j: int| 0 <= j < i ==> dst@[j] == digits@[j],
            decreases 32 - i,
        {
            dst[i] = digits[i];
            i = i + 1;
        }
        assert(dst@ =~= digits@);
        dst
    }

    /// Parse an id from exactly 32 hex digits of either case.
    ///
    /// Fails on any other length, on a byte that isn't a hex digit, and on zero.
    pub fn try_from_hex_slice(hex: &[u8]) -> (r: Result<Self, ParseIdError>)
        ensures
            match r {
                Ok(id) => parse_trace_id(hex@) == Some(id@),
                Err(_) => parse_trace_id(hex@) is None,
            },
    {
        if hex.len() != 32 {
            return Err(ParseIdError {});
        }
        match decode_u128(hex) {
            None => Err(ParseIdError {}),
            Some(v) => {
                if v == 0 {
                    Err(ParseIdError {})
                } else {
                    Ok(TraceId { value: v })
                }
            },
        }
    }

    /// Parse an id from a string of exactly 32 hex digits of either case.
    pub fn parse_str(s: &str) -> (r: Result<Self, ParseIdError>)
        ensures
            match r {
                Ok(id) => parse_trace_id(s.spec_bytes()) == Some(id@),
                Err(_) => parse_trace_id(s.spec_bytes()) is None,
            },
    {
        Self::try_from_hex_slice(s.as_bytes())
    }
}

/// A 64 bit span identifier. It is never zero.
#[derive(Clone, Copy, PartialEq, Eq, Structural, Debug)]
pub struct SpanId {
    value: u64,
}

impl View for SpanId {
    type V = u64;

    closed spec fn view(&self) -> u64 {
        self.value
    }
}

impl SpanId {
    #[verifier::type_invariant]
    closed spec fn inv(self) -> bool {
        self.value != 0
    }

    /// Two span ids are equal exactly when their values are.
    pub proof fn lemma_view_injective(a: SpanId, b: SpanId)
        ensures
            (a@ == b@) == (a == b),
    {
    }

    /// Create a span id from a non-zero value.
    pub fn new(v: u64) -> (r: Self)
        requires
            v != 0,
        ensures
            r@ == v,
    {
        SpanId { value: v }
    }

    /// Create a span id from a value, which is `None` for zero.
    pub fn from_u64(v: u64) -> (r: Option<Self>)
        ensures
            v == 0 ==> r is None,
            v != 0 ==> (r matches Some(id) && id@ == v),
    {
        if v == 0 {
            None
        } else {
            Some(SpanId { value: v })
        }
    }

    /// The value of the id.
    pub fn to_u64(&self) -> (r: u64)
        ensures
            r == self@,
            r != 0,
    {
        proof {
            use_type_invariant(self);
        }
        self.value
    }

    /// The id as 16 lower-case hex digits.
    pub fn to_hex(&self) -> (r: [u8; 16])
        ensures
            r@ == hex_encode(self@ as nat, 16),
    {
        let digits = encode_u128(self.value as u128, 16);
        proof {
            lemma_hex_encode_len(self@ as nat, 16);
        }
        let mut dst: [u8; 16] = [0u8; 16];
        let mut i: usize = 0;
        while i < 16
            invariant
                i <= 16,
                digits@ == hex_encode(self@ as nat, 16),
                digits@.len() == 16,
                forall|j: int| 0 <= j < i ==> dst@[j] == digits@[j],
            decreases 16 - i,
        {
            dst[i] = digits[i];
            i = i + 1;
        }
        assert(dst@ =~= digits@);
        dst
    }

    /// Parse an id from exactly 16 hex digits of either case.
    ///
    /// Fails on any other length, on a byte that isn't a hex digit, and on zero.
    pub fn try_from_hex_slice(hex: &[u8]) -> (r: Result<Self, ParseIdError>)
        ensures
            match r {
                Ok(id) => parse_span_id(hex@) == Some(id@),
                Err(_) => parse_span_id(hex@) is None,
            },
    {
        if hex.len() != 16 {
            return Err(ParseIdError {});
        }
        match decode_u128(hex) {
            None => Err(ParseIdError {}),
            Some(v) => {
                proof {
                    lemma_hex_decode_bound(hex@);
                    lemma_pow16_values();
                }
                if v == 0 {
                    Err(ParseIdError {})
                } else {
                    Ok(SpanId { value: v as u64 })
                }
            },
        }
    }

    /// Parse an id from a string of exactly 16 hex digits of either case.
    pub fn parse_str(s: &str) -> (r: Result<Self, ParseIdError>)
        ensures
            match r {
                Ok(id) => parse_span_id(s.spec_bytes()) == Some(id@),
                Err(_) => parse_span_id(s.spec_bytes()) is None,
            },
    {
        Self::try_from_hex_slice(s.as_bytes())
    }
}

/// Parsing the hex rendering of a trace id gives back the same id.
pub proof fn lemma_trace_id_hex_roundtrip(id: TraceId)
    requires
        id@ != 0,
    ensures
        parse_trace_id(hex_encode(id@ as nat, 32)) == Some(id@),
{
    lemma_hex_roundtrip(id@ as nat, 32);
    lemma_hex_encode_len(id@ as nat, 32);
    lemma_pow16_values();
    vstd::arithmetic::div_mod::lemma_small_mod(id@ as nat, pow16(32));
}

/// Parsing the hex rendering of a span id gives back the same id.
pub proof fn lemma_span_id_hex_roundtrip(id: SpanId)
    requires
        id@ != 0,
    ensures
        parse_span_id(hex_encode(id@ as nat, 16)) == Some(id@),
{
    lemma_hex_roundtrip(id@ as nat, 16);
    lemma_hex_encode_len(id@ as nat, 16);
    lemma_pow16_values();
    vstd::arithmetic::div_mod::lemma_small_mod(id@ as nat, pow16(16));
}

/// A hex string that parses as a trace id is rendered back as the same
/// digits, once lower-cased: parsing is injective on lower-case renderings.
pub proof fn lemma_trace_id_parse_render(s: Seq<u8>)
    requires
        parse_trace_id(s) is Some,
    ensures
        hex_decode(hex_encode(parse_trace_id(s).unwrap() as nat, 32)) == hex_decode(s),
{
    let v = hex_decode(s).unwrap();
    lemma_hex_decode_bound(s);
    lemma_pow16_values();
    lemma_hex_roundtrip(v, 32);
    vstd::arithmetic::div_mod::lemma_small_mod(v, pow16(32));
}

/// A generator of new trace and span ids.
pub trait IdGen {
    /// Generate a new trace id, or `None` if one can't be produced.
    fn new_trace_id(&self) -> Option<TraceId>;

    /// Generate a new span id, or `None` if one can't be produced.
    fn new_span_id(&self) -> Option<SpanId>;
}

impl<'a, T: IdGen> IdGen for &'a T {
    /// An id from the referenced generator.
    fn new_trace_id(&self) -> (r: Option<TraceId>)
        ensures
            call_ensures(T::new_trace_id, (*self,), r),
    {
        (**self).new_trace_id()
    }

    /// An id from the referenced generator.
    fn new_span_id(&self) -> (r: Option<SpanId>)
        ensures
            call_ensures(T::new_span_id, (*self,), r),
    {
        (**self).new_span_id()
    }
}

impl<T: IdGen> IdGen for Option<T> {
    /// An id from the generator, if there is one.
    fn new_trace_id(&self) -> (r: Option<TraceId>)
        ensures
            match self {
                Some(id_gen) => call_ensures(T::new_trace_id, (id_gen,), r),
                None => r is None,
            },
    {
        match self {
            Some(id) => id.new_trace_id(),
            None => None,
        }
    }

    /// An id from the generator, if there is one.
    fn new_span_id(&self) -> (r: Option<SpanId>)
        ensures
            match self {
                Some(id_gen) => call_ensures(T::new_span_id, (id_gen,), r),
                None => r is None,
            },
    {
        match self {
            Some(id) => id.new_span_id(),
            None => None,
        }
    }
}

impl IdGen for Empty {
    fn new_trace_id(&self) -> (r: Option<TraceId>)
        ensures
            r is None,
    {
        None
    }

    fn new_span_id(&self) -> (r: Option<SpanId>)
        ensures
            r is None,
    {
        None
    }
}

} // verus!
