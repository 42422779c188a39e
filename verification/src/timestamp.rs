//! Points in time as durations since the Unix epoch, rendered as RFC 3339
//! timestamps in UTC.

use vstd::prelude::*;
use core::time::Duration;
use std::time::SystemTime;
use crate::duration::{duration_as_secs, duration_new, duration_subsec, duration_subsec_nanos, duration_secs, nanos_of};
use crate::calendar::{civil_from_days, date_from_days};

verus! {

/// `std::time::SystemTime`, carried through opaquely.
#[verifier::external_type_specification]
#[verifier::external_body]
pub struct ExSystemTime(SystemTime);

/// Calls `SystemTime::UNIX_EPOCH.checked_add(d)`: the point in time `d`
/// after the Unix epoch, or `None` where the platform can't represent it.
/// Which durations a platform represents, and the `SystemTime` value, are
/// not stated: both rest on the machine.
#[verifier::external_body]
fn unix_epoch_checked_add(d: Duration) -> (r: Option<SystemTime>) {
    SystemTime::UNIX_EPOCH.checked_add(d)
}

/// Calls `String::from_utf8` on ASCII bytes, which gives back those bytes as characters.
#[verifier::external_body]
fn ascii_to_string(bytes: Vec<u8>) -> (r: String)
    requires
        forall|i: int| 0 <= i < bytes@.len() ==> bytes@[i] < 128,
    ensures
        r@ == bytes@.map_values(|b: u8| b as char),
{
    match String::from_utf8(bytes) {
        Ok(s) => s,
        Err(_) => String::new(),
    }
}

/// The number of seconds from the Unix epoch to 10000-01-01.
pub const MAX_RFC3339_SECS: u64 = 253_402_300_800;

/// `10^n`.
pub open spec fn pow10(n: nat) -> nat
    decreases n,
{
    if n == 0 {
        1
    } else {
        10 * pow10((n - 1) as nat)
    }
}

/// The ASCII digit for `0 <= n < 10`.
pub open spec fn digit(n: int) -> u8 {
    (48 + n) as u8
}

/// Two decimal digits of `n`.
pub open spec fn two_digits(n: int) -> Seq<u8> {
    seq![digit(n / 10), digit(n % 10)]
}

/// Four decimal digits of `n`.
pub open spec fn four_digits(n: int) -> Seq<u8> {
    seq![digit(n / 1000), digit(n / 100 % 10), digit(n / 10 % 10), digit(n % 10)]
}

/// The first `count` digits of a nine digit fraction of a second.
pub open spec fn fraction_digits(nanos: int, count: nat) -> Seq<u8> {
    Seq::new(count, |i: int| digit(nanos / (pow10((8 - i) as nat) as int) % 10))
}

/// The number of fractional digits rendered for a requested precision: nine
/// when none is given, and at most nine.
pub open spec fn fraction_len(precision: Option<usize>) -> nat {
    match precision {
        Some(p) => if p < 9 {
            p as nat
        } else {
            9
        },
        None => 9,
    }
}

/// The fractional part of a rendering: empty for no digits, otherwise a dot
/// and the digits.
pub open spec fn rfc3339_fraction(nanos: int, precision: Option<usize>) -> Seq<u8> {
    if fraction_len(precision) == 0 {
        seq![]
    } else {
        seq![46u8] + fraction_digits(nanos, fraction_len(precision))
    }
}

/// The RFC 3339 rendering, in UTC, of a point `secs` seconds and `nanos`
/// nanoseconds after the Unix epoch: `YYYY-MM-DDTHH:MM:SS[.fff]Z`.
pub open spec fn rfc3339(secs: int, nanos: int, precision: Option<usize>) -> Seq<u8> {
    rfc3339_date_time(secs) + rfc3339_fraction(nanos, precision) + seq![90u8]
}

/// The date and time of day of an RFC 3339 rendering: `YYYY-MM-DDTHH:MM:SS`.
pub open spec fn rfc3339_date_time(secs: int) -> Seq<u8> {
    let days = secs / 86400;
    let sod = secs % 86400;
    let ymd = civil_from_days(days);
    four_digits(ymd.0) + seq![45u8] + two_digits(ymd.1) + seq![45u8] + two_digits(ymd.2) + seq![84u8]
        + two_digits(sod / 3600) + seq![58u8] + two_digits(sod / 60 % 60) + seq![58u8]
        + two_digits(sod % 60)
}

/// The error returned when text can't be parsed as a timestamp.
pub struct ParseTimestampError {}

/// A point in time, as an elapsed duration since the Unix epoch.
#[derive(Clone, Copy, PartialEq, Eq, PartialOrd, Ord, Hash, Structural)]
pub struct Timestamp {
    secs: u64,
    nanos: u32,
}

impl View for Timestamp {
    /// Whole seconds and the nanoseconds within the last second.
    type V = (u64, u32);

    closed spec fn view(&self) -> (u64, u32) {
        (self.secs, self.nanos)
    }
}

/// Whether `a` is at or before `b`.
pub open spec fn ts_le(a: (u64, u32), b: (u64, u32)) -> bool {
    a.0 < b.0 || (a.0 == b.0 && a.1 <= b.1)
}

/// The number of nanoseconds a timestamp is after the Unix epoch.
pub open spec fn ts_nanos(a: (u64, u32)) -> int {
    a.0 * 1_000_000_000 + a.1
}

impl Timestamp {
    #[verifier::type_invariant]
    closed spec fn inv(self) -> bool {
        self.nanos < 1_000_000_000
    }

    /// Create a timestamp from the time elapsed since the Unix epoch.
    pub fn new(elapsed_since_unix_epoch: Duration) -> (r: Self)
        ensures
            r@ == (duration_secs(elapsed_since_unix_epoch), duration_subsec(elapsed_since_unix_epoch)),
            r@.1 < 1_000_000_000,
    {
        let secs = duration_as_secs(&elapsed_since_unix_epoch);
        let nanos = duration_subsec_nanos(&elapsed_since_unix_epoch);
        Timestamp { secs, nanos }
    }

    /// Create a timestamp from whole seconds and nanoseconds since the Unix
    /// epoch, which is `None` when the nanoseconds make up a second or more.
    pub fn from_parts(secs: u64, nanos: u32) -> (r: Option<Self>)
        ensures
            nanos < 1_000_000_000 ==> (r matches Some(t) && t@ == (secs, nanos)),
            nanos >= 1_000_000_000 ==> r is None,
    {
        if nanos < 1_000_000_000 {
            Some(Timestamp { secs, nanos })
        } else {
            None
        }
    }

    /// The whole seconds since the Unix epoch.
    pub fn unix_secs(&self) -> (r: u64)
        ensures
            r == self@.0,
    {
        self.secs
    }

    /// The nanoseconds within the last whole second.
    pub fn subsec_nanos(&self) -> (r: u32)
        ensures
            r == self@.1,
            r < 1_000_000_000,
    {
        proof {
            use_type_invariant(self);
        }
        self.nanos
    }

    /// The time elapsed since the Unix epoch.
    pub fn to_unix(&self) -> (r: Duration)
        ensures
            duration_secs(r) == self@.0,
            duration_subsec(r) == self@.1,
    {
        proof {
            use_type_invariant(self);
        }
        duration_new(self.secs, self.nanos)
    }

    /// The timestamp as a system time, or `None` where the platform can't
    /// represent it.
    pub fn to_system_time(&self) -> Option<SystemTime> {
        unix_epoch_checked_add(self.to_unix())
    }

    /// Whether `self` is at or after `earlier`.
    pub fn is_at_or_after(&self, earlier: &Timestamp) -> (r: bool)
        ensures
            r == ts_le(earlier@, self@),
    {
        earlier.secs < self.secs || (earlier.secs == self.secs && earlier.nanos <= self.nanos)
    }

    /// The seconds and nanoseconds from `earlier` to `self`, or `None` if
    /// `earlier` is after `self`.
    pub fn duration_since_parts(&self, earlier: &Timestamp) -> (r: Option<(u64, u32)>)
        ensures
            ts_le(earlier@, self@) == r is Some,
            r matches Some(d) ==> d.1 < 1_000_000_000 && d.0 * 1_000_000_000 + d.1 == ts_nanos(self@)
                - ts_nanos(earlier@),
    {
        proof {
            use_type_invariant(self);
            use_type_invariant(earlier);
        }
        if !self.is_at_or_after(earlier) {
            None
        } else if self.nanos >= earlier.nanos {
            Some((self.secs - earlier.secs, self.nanos - earlier.nanos))
        } else {
            Some((self.secs - earlier.secs - 1, self.nanos + 1_000_000_000 - earlier.nanos))
        }
    }

    /// The time elapsed from `earlier` to `self`, or `None` if `earlier` is after `self`.
    pub fn duration_since(&self, earlier: &Timestamp) -> (r: Option<Duration>)
        ensures
            ts_le(earlier@, self@) == r is Some,
            r matches Some(d) ==> nanos_of(d) == ts_nanos(self@) - ts_nanos(earlier@),
            r matches Some(d) ==> duration_subsec(d) < 1_000_000_000,
    {
        match self.duration_since_parts(earlier) {
            Some((secs, nanos)) => Some(duration_new(secs, nanos)),
            None => None,
        }
    }

    /// Render the timestamp in RFC 3339 format in UTC, with `precision`
    /// fractional digits (nine when `None`, at most nine), or `None` if it's
    /// at or after the year 10000.
    pub fn to_rfc3339(&self, precision: Option<usize>) -> (r: Option<String>)
        ensures
            self@.0 >= MAX_RFC3339_SECS ==> r is None,
            self@.0 < MAX_RFC3339_SECS ==> (r matches Some(s) && s@ == rfc3339(
                self@.0 as int,
                self@.1 as int,
                precision,
            ).map_values(|b: u8| b as char)),
    {
        match fmt_rfc3339(*self, precision) {
            Some(bytes) => Some(ascii_to_string(bytes)),
            None => None,
        }
    }
}

/// The ASCII digit for `0 <= n < 10`.
fn digit_byte(n: u64) -> (r: u8)
    requires
        n < 10,
    ensures
        r == digit(n as int),
        r < 128,
{
    48 + n as u8
}

/// Render the date and time of day of a point before the year 10000.
fn fmt_date_time(secs_since_epoch: u64) -> (buf: Vec<u8>)
    requires
        secs_since_epoch < MAX_RFC3339_SECS,
    ensures
        buf@ == rfc3339_date_time(secs_since_epoch as int),
        forall|i: int| 0 <= i < buf@.len() ==> buf@[i] < 128,
{
    let (year, mon, mday) = date_from_days(secs_since_epoch / 86400);
    let secs_of_day = secs_since_epoch % 86400;
    let year = year as u64;
    let mon = mon as u64;
    let mday = mday as u64;
    let hours = secs_of_day / 3600;
    let minutes = secs_of_day / 60 % 60;
    let seconds = secs_of_day % 60;

    let mut buf: Vec<u8> = Vec::new();
    buf.push(digit_byte(year / 1000));
    buf.push(digit_byte(year / 100 % 10));
    buf.push(digit_byte(year / 10 % 10));
    buf.push(digit_byte(year % 10));
    buf.push(45);
    buf.push(digit_byte(mon / 10));
    buf.push(digit_byte(mon % 10));
    buf.push(45);
    buf.push(digit_byte(mday / 10));
    buf.push(digit_byte(mday % 10));
    buf.push(84);
    buf.push(digit_byte(hours / 10));
    buf.push(digit_byte(hours % 10));
    buf.push(58);
    buf.push(digit_byte(minutes / 10));
    buf.push(digit_byte(minutes % 10));
    buf.push(58);
    buf.push(digit_byte(seconds / 10));
    buf.push(digit_byte(seconds % 10));
    assert(buf@ =~= rfc3339_date_time(secs_since_epoch as int));
    buf
}

/// Append the fractional part of a rendering.
fn fmt_fraction(buf: &mut Vec<u8>, nanos: u64, precision: Option<usize>)
    requires
        nanos < 1_000_000_000,
        forall|i: int| 0 <= i < old(buf)@.len() ==> old(buf)@[i] < 128,
    ensures
        final(buf)@ == old(buf)@ + rfc3339_fraction(nanos as int, precision),
        forall|i: int| 0 <= i < final(buf)@.len() ==> final(buf)@[i] < 128,
{
    let ghost head = buf@;
    let count: usize = match precision {
        Some(p) => if p < 9 {
            p
        } else {
            9
        },
        None => 9,
    };
    assert(count == fraction_len(precision));
    if count > 0 {
        buf.push(46);
        let mut divisor: u64 = 100_000_000;
        let mut i: usize = 0;
        proof {
            reveal_with_fuel(pow10, 9);
        }
        assert(buf@ =~= head + seq![46u8] + fraction_digits(nanos as int, 0));
        while i < count
            invariant
                count <= 9,
                i <= count,
                nanos < 1_000_000_000,
                i < 9 ==> divisor == pow10((8 - i) as nat),
                buf@ == head + seq![46u8] + fraction_digits(nanos as int, i as nat),
                forall|k: int| 0 <= k < buf@.len() ==> buf@[k] < 128,
            decreases count - i,
        {
            proof {
                reveal_with_fuel(pow10, 9);
            }
            buf.push(digit_byte(nanos / divisor % 10));
            assert(buf@ =~= head + seq![46u8] + fraction_digits(nanos as int, (i + 1) as nat));
            i = i + 1;
            if i < 9 {
                divisor = divisor / 10;
            }
        }
    } else {
        assert(buf@ =~= head + rfc3339_fraction(nanos as int, precision));
    }
}

/// Render a timestamp in RFC 3339 format in UTC, or `None` if it's at or
/// after the year 10000.
pub fn fmt_rfc3339(ts: Timestamp, precision: Option<usize>) -> (r: Option<Vec<u8>>)
    ensures
        ts@.0 >= MAX_RFC3339_SECS ==> r is None,
        ts@.0 < MAX_RFC3339_SECS ==> (r matches Some(b) && b@ == rfc3339(ts@.0 as int, ts@.1 as int, precision)),
        r matches Some(b) ==> forall|i: int| 0 <= i < b@.len() ==> b@[i] < 128,
{
    proof {
        use_type_invariant(&ts);
    }
    if ts.secs >= MAX_RFC3339_SECS {
        return None;
    }
    let mut buf = fmt_date_time(ts.secs);
    fmt_fraction(&mut buf, ts.nanos as u64, precision);
    buf.push(90);
    Some(buf)
}

} // verus!
