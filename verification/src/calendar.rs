//! The proleptic Gregorian calendar, counted in days since 1970-01-01.

use vstd::prelude::*;
use vstd::arithmetic::div_mod::{
    lemma_fundamental_div_mod, lemma_fundamental_div_mod_converse, lemma_mod_bound,
};

verus! {

/// Whether `y` is a leap year.
pub open spec fn is_leap_year(y: int) -> bool {
    y % 4 == 0 && (y % 100 != 0 || y % 400 == 0)
}

/// The number of days in month `m` (January is 1) of year `y`.
pub open spec fn days_in_month(y: int, m: int) -> int {
    if m == 2 {
        if is_leap_year(y) {
            29
        } else {
            28
        }
    } else if m == 4 || m == 6 || m == 9 || m == 11 {
        30
    } else {
        31
    }
}

/// Whether day `d` of month `m` exists in year `y`.
pub open spec fn is_valid_date(y: int, m: int, d: int) -> bool {
    1 <= m <= 12 && 1 <= d <= days_in_month(y, m)
}

/// The number of leap years among the years `1 ..= y - 1`.
pub open spec fn leap_years_before(y: int) -> int {
    (y - 1) / 4 - (y - 1) / 100 + (y - 1) / 400
}

/// The number of days from 1970-01-01 to the first of January of `y`.
pub open spec fn days_before_year(y: int) -> int {
    365 * (y - 1970) + leap_years_before(y) - leap_years_before(1970)
}

/// The number of days from the first of January to the first of month `m` in year `y`.
pub open spec fn days_before_month(y: int, m: int) -> int {
    let base: int = if m <= 1 {
        0
    } else if m == 2 {
        31
    } else if m == 3 {
        59
    } else if m == 4 {
        90
    } else if m == 5 {
        120
    } else if m == 6 {
        151
    } else if m == 7 {
        181
    } else if m == 8 {
        212
    } else if m == 9 {
        243
    } else if m == 10 {
        273
    } else if m == 11 {
        304
    } else {
        334
    };
    base + if m > 2 && is_leap_year(y) {
        1int
    } else {
        0int
    }
}

/// The number of days from 1970-01-01 to the date `y-m-d`.
pub open spec fn days_from_civil(y: int, m: int, d: int) -> int {
    days_before_year(y) + days_before_month(y, m) + d - 1
}

/// The date of a day counted from 1970-01-01.
pub open spec fn civil_from_days(days: int) -> (int, int, int) {
    choose|ymd: (int, int, int)|
        is_valid_date(ymd.0, ymd.1, ymd.2) && days_from_civil(ymd.0, ymd.1, ymd.2) == days
}

/// The number of days in the year `y`.
pub open spec fn days_in_year(y: int) -> int {
    if is_leap_year(y) {
        366
    } else {
        365
    }
}

proof fn lemma_div_step(a: int, k: int)
    requires
        k > 0,
    ensures
        (a + 1) / k - a / k == if (a + 1) % k == 0 {
            1int
        } else {
            0int
        },
{
    lemma_fundamental_div_mod(a, k);
    lemma_mod_bound(a, k);
    let q = a / k;
    let r = a % k;
    assert((q + 1) * k == k * q + k) by (nonlinear_arith);
    assert(q * k == k * q) by (nonlinear_arith);
    if r == k - 1 {
        lemma_fundamental_div_mod_converse(a + 1, k, q + 1, 0);
    } else {
        lemma_fundamental_div_mod_converse(a + 1, k, q, r + 1);
    }
}

proof fn lemma_shift_div(x: int, m: int, d: int)
    requires
        d > 0,
    ensures
        (x - m * d) / d == x / d - m,
        (x - m * d) % d == x % d,
{
    lemma_fundamental_div_mod(x, d);
    lemma_mod_bound(x, d);
    assert((x / d - m) * d == d * (x / d) - m * d) by (nonlinear_arith);
    lemma_fundamental_div_mod_converse(x - m * d, d, x / d - m, x % d);
}

proof fn lemma_divisibility(y: int)
    ensures
        y % 400 == 0 ==> y % 100 == 0,
        y % 100 == 0 ==> y % 4 == 0,
{
    if y % 400 == 0 {
        lemma_fundamental_div_mod(y, 400);
        lemma_fundamental_div_mod_converse(y, 100, 4 * (y / 400), 0);
    }
    if y % 100 == 0 {
        lemma_fundamental_div_mod(y, 100);
        lemma_fundamental_div_mod_converse(y, 4, 25 * (y / 100), 0);
    }
}

/// A leap year adds one leap day to the count of those before the next year.
pub proof fn lemma_leap_step(y: int)
    ensures
        leap_years_before(y + 1) == leap_years_before(y) + if is_leap_year(y) {
            1int
        } else {
            0int
        },
{
    lemma_div_step(y - 1, 4);
    lemma_div_step(y - 1, 100);
    lemma_div_step(y - 1, 400);
    lemma_divisibility(y);
}

/// Consecutive years are a year's length apart.
pub proof fn lemma_year_step(y: int)
    ensures
        days_before_year(y + 1) == days_before_year(y) + days_in_year(y),
{
    lemma_leap_step(y);
}

/// Later years start later.
pub proof fn lemma_days_before_year_monotone(a: int, b: int)
    requires
        a <= b,
    ensures
        days_before_year(a) + 365 * (b - a) <= days_before_year(b),
    decreases b - a,
{
    if a < b {
        lemma_days_before_year_monotone(a, b - 1);
        lemma_year_step(b - 1);
    }
}

/// Each month's days fit between its start and the next month's start, and
/// the year's days fit before the next year.
pub proof fn lemma_month_bounds(y: int, m: int)
    requires
        1 <= m <= 12,
    ensures
        m < 12 ==> days_before_month(y, m) + days_in_month(y, m) == days_before_month(y, m + 1),
        m == 12 ==> days_before_month(y, m) + days_in_month(y, m) == days_in_year(y),
        days_before_month(y, m) >= 0,
{
}

/// A valid date lies within its year.
pub proof fn lemma_date_in_year(y: int, m: int, d: int)
    requires
        is_valid_date(y, m, d),
    ensures
        days_before_year(y) <= days_from_civil(y, m, d) < days_before_year(y) + days_in_year(y),
{
    lemma_month_order(y, m, 12);
    lemma_month_bounds(y, 12);
    lemma_month_bounds(y, m);
}

/// Later months of a year start later.
pub proof fn lemma_month_order(y: int, m1: int, m2: int)
    requires
        1 <= m1 <= m2 <= 12,
    ensures
        days_before_month(y, m1) + days_in_month(y, m1) <= days_before_month(y, m2) + days_in_month(y, m2),
        m1 < m2 ==> days_before_month(y, m1) + days_in_month(y, m1) <= days_before_month(y, m2),
{
}

/// Distinct valid dates fall on distinct days: a day count names at most one date.
pub proof fn lemma_days_from_civil_injective(y1: int, m1: int, d1: int, y2: int, m2: int, d2: int)
    requires
        is_valid_date(y1, m1, d1),
        is_valid_date(y2, m2, d2),
        days_from_civil(y1, m1, d1) == days_from_civil(y2, m2, d2),
    ensures
        y1 == y2 && m1 == m2 && d1 == d2,
{
    lemma_date_in_year(y1, m1, d1);
    lemma_date_in_year(y2, m2, d2);
    if y1 < y2 {
        lemma_days_before_year_monotone(y1 + 1, y2);
        lemma_year_step(y1);
    } else if y2 < y1 {
        lemma_days_before_year_monotone(y2 + 1, y1);
        lemma_year_step(y2);
    } else {
        if m1 < m2 {
            lemma_month_order(y1, m1, m2);
        } else if m2 < m1 {
            lemma_month_order(y1, m2, m1);
        }
    }
}

/// A date that a day count names is the one `civil_from_days` gives.
pub proof fn lemma_civil_from_days_unique(days: int, y: int, m: int, d: int)
    requires
        is_valid_date(y, m, d),
        days_from_civil(y, m, d) == days,
    ensures
        civil_from_days(days) == (y, m, d),
{
    let w = (y, m, d);
    assert(is_valid_date(w.0, w.1, w.2) && days_from_civil(w.0, w.1, w.2) == days);
    let c = civil_from_days(days);
    lemma_days_from_civil_injective(c.0, c.1, c.2, y, m, d);
}

/// The number of days in the March-based months before month index `j`,
/// where index 0 is March and index 11 is the following February.
spec fn march_cum(j: int) -> int {
    if j <= 0 {
        0
    } else if j == 1 {
        31
    } else if j == 2 {
        61
    } else if j == 3 {
        92
    } else if j == 4 {
        122
    } else if j == 5 {
        153
    } else if j == 6 {
        184
    } else if j == 7 {
        214
    } else if j == 8 {
        245
    } else if j == 9 {
        275
    } else if j == 10 {
        306
    } else if j == 11 {
        337
    } else {
        366
    }
}

/// The number of leap days between 2000-03-01 and the first of March of `2000 + k`.
spec fn leap_days_since_2000(k: int) -> int {
    k / 4 - k / 100 + k / 400
}

proof fn lemma_cycle_leaps(qc: int, c: int, q: int, ry: int)
    requires
        0 <= c <= 3,
        0 <= q <= 24,
        0 <= ry <= 3,
    ensures
        leap_days_since_2000(400 * qc + 100 * c + 4 * q + ry) == 97 * qc + 24 * c + q,
{
    let k = 400 * qc + 100 * c + 4 * q + ry;
    lemma_fundamental_div_mod_converse(k, 4, 100 * qc + 25 * c + q, ry);
    lemma_fundamental_div_mod_converse(k, 100, 4 * qc + c, 4 * q + ry);
    lemma_fundamental_div_mod_converse(k, 400, qc, 100 * c + 4 * q + ry);
}

/// The first of March of year `y`, counted from 1970-01-01.
proof fn lemma_march_first(y: int)
    ensures
        days_before_year(y) + (if is_leap_year(y) {
            1int
        } else {
            0int
        }) + 59 == 11017 + 365 * (y - 2000) + leap_days_since_2000(y - 2000),
{
    lemma_leap_step(y);
    lemma_shift_div(y, 500, 4);
    lemma_shift_div(y, 20, 100);
    lemma_shift_div(y, 5, 400);
    assert(1969int / 4 == 492 && 1969int / 100 == 19 && 1969int / 400 == 4);
}

/// Split a day count into a March-based year and a day within it: day 0 of
/// year `y` is the first of March of `y`, and its last day is the end of
/// February of `y + 1`.
fn march_year_day(days0: u64) -> (res: (i64, i64))
    requires
        days0 <= 2932896,
    ensures
        days0 - 11017 == 365 * (res.0 - 2000) + leap_days_since_2000(res.0 - 2000) + res.1,
        0 <= res.1 <= 365,
        res.1 == 365 ==> is_leap_year(res.0 + 1),
        1000 <= res.0 <= 10000,
{
    // Days since 2000-03-01, the first day after a leap day in a 400 year cycle.
    let days: i64 = days0 as i64 - 11017;
    let mut qc_cycles: i64;
    let mut remdays: i64;
    if days >= 0 {
        qc_cycles = days / 146097;
        remdays = days % 146097;
    } else {
        qc_cycles = -1;
        remdays = days + 146097;
    }
    let ghost r1 = remdays;
    assert(days == 146097 * qc_cycles + r1 && 0 <= r1 < 146097 && -1 <= qc_cycles <= 20);
    let mut c_cycles: i64 = remdays / 36524;
    if c_cycles == 4 {
        c_cycles = c_cycles - 1;
    }
    remdays = remdays - c_cycles * 36524;
    let ghost r2 = remdays;
    assert(0 <= c_cycles <= 3 && 0 <= r2 <= 36524 && (r2 == 36524 ==> c_cycles == 3));
    let mut q_cycles: i64 = remdays / 1461;
    if q_cycles == 25 {
        q_cycles = q_cycles - 1;
    }
    remdays = remdays - q_cycles * 1461;
    let ghost r3 = remdays;
    assert(0 <= q_cycles <= 24 && 0 <= r3 <= 1460 && (r3 == 1460 && q_cycles == 24 ==> r2 == 36524));
    let mut remyears: i64 = remdays / 365;
    if remyears == 4 {
        remyears = remyears - 1;
    }
    remdays = remdays - remyears * 365;
    assert(0 <= remyears <= 3 && 0 <= remdays <= 365 && (remdays == 365 ==> r3 == 1460));
    let year: i64 = 2000 + remyears + 4 * q_cycles + 100 * c_cycles + 400 * qc_cycles;
    proof {
        let y = year as int;
        lemma_cycle_leaps(qc_cycles as int, c_cycles as int, q_cycles as int, remyears as int);
        if remdays == 365 {
            if q_cycles == 24 {
                assert(c_cycles == 3);
                lemma_fundamental_div_mod_converse(y + 1, 400, qc_cycles + 6, 0);
            } else {
                lemma_fundamental_div_mod_converse(y + 1, 4, 100 * qc_cycles + 25 * c_cycles + q_cycles + 501, 0);
                lemma_fundamental_div_mod_converse(y + 1, 100, 4 * qc_cycles + c_cycles + 20, 4 * q_cycles + 4);
            }
        }
    }
    (year, remdays)
}

/// Find the March-based month index (1 is March, 12 the following February)
/// of a day within a March-based year, with the day's offset into that month.
fn march_month(r: i64) -> (res: (i64, i64))
    requires
        0 <= r <= 365,
    ensures
        1 <= res.0 <= 12,
        res.1 == r - march_cum(res.0 - 1),
        0 <= res.1 < march_cum(res.0 as int) - march_cum(res.0 - 1),
{
    let months: [i64; 12] = [31, 30, 31, 30, 31, 31, 30, 31, 30, 31, 31, 29];
    let mut mon: i64 = 0;
    let mut remdays: i64 = r;
    let mut j: usize = 0;
    while j < 12
        invariant_except_break
            j <= 12,
            mon == j,
            remdays == r - march_cum(j as int),
            remdays >= 0,
            0 <= r <= 365,
            months@ == seq![31i64, 30, 31, 30, 31, 31, 30, 31, 30, 31, 31, 29],
        ensures
            1 <= mon <= 12,
            remdays == r - march_cum(mon - 1),
            0 <= remdays < march_cum(mon as int) - march_cum(mon - 1),
        decreases 12 - j,
    {
        mon = mon + 1;
        if remdays < months[j] {
            break;
        }
        remdays = remdays - months[j];
        j = j + 1;
    }
    (mon, remdays)
}

/// Moving a March-based date to the civil calendar keeps its day count.
proof fn lemma_march_to_civil(y: int, r: int, mon: int, rd: int)
    requires
        0 <= r <= 365,
        r == 365 ==> is_leap_year(y + 1),
        1 <= mon <= 12,
        rd == r - march_cum(mon - 1),
        0 <= rd < march_cum(mon) - march_cum(mon - 1),
    ensures
        ({
            let (cy, cm) = if mon + 2 > 12 {
                (y + 1, mon - 10)
            } else {
                (y, mon + 2)
            };
            &&& is_valid_date(cy, cm, rd + 1)
            &&& days_from_civil(cy, cm, rd + 1) == 11017 + 365 * (y - 2000) + leap_days_since_2000(y - 2000) + r
        }),
{
    lemma_march_first(y);
    lemma_year_step(y);
}

/// The date of a day counted from 1970-01-01, for days up to the end of year 9999.
pub fn date_from_days(days0: u64) -> (r: (i64, i64, i64))
    requires
        days0 <= 2932896,
    ensures
        is_valid_date(r.0 as int, r.1 as int, r.2 as int),
        days_from_civil(r.0 as int, r.1 as int, r.2 as int) == days0,
        civil_from_days(days0 as int) == (r.0 as int, r.1 as int, r.2 as int),
        1970 <= r.0 <= 9999,
{
    let (y, r) = march_year_day(days0);
    let (mon, rd) = march_month(r);
    let mday = rd + 1;
    let (year, month) = if mon + 2 > 12 {
        (y + 1, mon - 10)
    } else {
        (y, mon + 2)
    };
    proof {
        lemma_march_to_civil(y as int, r as int, mon as int, rd as int);
        lemma_date_in_year(year as int, month as int, mday as int);
        if year > 9999 {
            lemma_days_before_year_monotone(10000, year as int);
            assert(9999int / 4 == 2499 && 9999int / 100 == 99 && 9999int / 400 == 24);
            assert(1969int / 4 == 492 && 1969int / 100 == 19 && 1969int / 400 == 4);
        }
        if year < 1970 {
            lemma_days_before_year_monotone(year + 1, 1970);
            lemma_year_step(year as int);
        }
        lemma_civil_from_days_unique(days0 as int, year as int, month as int, mday as int);
    }
    (year, month, mday)
}

} // verus!
