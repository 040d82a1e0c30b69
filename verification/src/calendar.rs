//! Where the store lives on disk, and the hourly backup names derived from
//! the clock (proleptic Gregorian calendar, UTC).
use vstd::prelude::*;

use crate::decimal::{
    decimal, lemma_decimal_two_digits, lemma_zero_pad_injective, lemma_zero_pad_len,
    u64_to_padded_decimal, zero_pad,
};

verus! {

/// Leap years: divisible by 4, except centuries not divisible by 400.
pub open spec fn is_leap(y: int) -> bool {
    y % 4 == 0 && (y % 100 != 0 || y % 400 == 0)
}

pub open spec fn year_len(y: int) -> nat {
    if is_leap(y) {
        366
    } else {
        365
    }
}

/// Days of month `m` (1 to 12) of year `y`.
pub open spec fn month_len(y: int, m: int) -> nat {
    if m == 2 {
        if is_leap(y) {
            29
        } else {
            28
        }
    } else if m == 4 || m == 6 || m == 9 || m == 11 {
        30
    } else {
        31
    }
}

/// Days of year `y` before month `m` (1 to 13; 13 gives the whole year).
pub open spec fn days_before_month(y: int, m: int) -> nat {
    let base: nat = if m <= 1 {
        0
    } else if m == 2 {
        31
    } else if m == 3 {
        59
    } else if m == 4 {
        90
    } else if m == 5 {
        120
    } else if m == 6 {
        151
    } else if m == 7 {
        181
    } else if m == 8 {
        212
    } else if m == 9 {
        243
    } else if m == 10 {
        273
    } else if m == 11 {
        304
    } else if m == 12 {
        334
    } else {
        365
    };
    base + if is_leap(y) && m > 2 {
        1nat
    } else {
        0nat
    }
}

/// Days from 1970-01-01 to the first day of year `y`.
pub open spec fn days_before_year(y: int) -> nat
    decreases y - 1970,
{
    if y <= 1970 {
        0
    } else {
        days_before_year(y - 1) + year_len(y - 1)
    }
}

/// A calendar date from 1970 on.
pub open spec fn valid_date(y: int, m: int, d: int) -> bool {
    &&& y >= 1970
    &&& 1 <= m <= 12
    &&& 1 <= d <= month_len(y, m)
}

/// The number of days from 1970-01-01 to the date.
pub open spec fn days_from_civil(y: int, m: int, d: int) -> int {
    days_before_year(y) + days_before_month(y, m) + d - 1
}

/// The file the store is kept in.
pub fn db_path() -> (p: String)
    ensures
        p@ == "db.json"@,
{
    String::from_str("db.json")
}

fn leap(y: u64) -> (b: bool)
    ensures
        b == is_leap(y as int),
{
    y % 4 == 0 && (y % 100 != 0 || y % 400 == 0)
}

fn month_length(y: u64, m: u64) -> (n: u64)
    requires
        1 <= m <= 12,
    ensures
        n == month_len(y as int, m as int),
{
    if m == 2 {
        if leap(y) {
            29
        } else {
            28
        }
    } else if m == 4 || m == 6 || m == 9 || m == 11 {
        30
    } else {
        31
    }
}

/// The day of year `y` on which month `m` starts, counted in months.
proof fn lemma_month_step(y: int, m: int)
    requires
        1 <= m <= 12,
    ensures
        days_before_month(y, m + 1) == days_before_month(y, m) + month_len(y, m),
        days_before_month(y, 13) == year_len(y),
{
}

/// `(y, m, d, h)` is the date and hour (UTC) of the time `secs` seconds
/// after 1970-01-01 00:00.
pub open spec fn is_ymdh_of(secs: nat, y: int, m: int, d: int, h: int) -> bool {
    &&& h == (secs / 3600) % 24
    &&& valid_date(y, m, d)
    &&& days_from_civil(y, m, d) == secs / 86400
}

/// Year, month, day and hour (UTC) of a time given in seconds since
/// 1970-01-01 00:00.
pub fn unix_secs_to_ymdh(secs: u64) -> (r: (u64, u64, u64, u64))
    ensures
        is_ymdh_of(secs as nat, r.0 as int, r.1 as int, r.2 as int, r.3 as int),
{
    let hour: u64 = (secs / 3600) % 24;
    let days: u64 = secs / 86400;
    let mut y: u64 = 1970;
    let mut remaining: u64 = days;
    loop
        invariant
            1970 <= y,
            remaining <= days,
            days == secs / 86400,
            days_before_year(y as int) + remaining == days,
            365 * (y - 1970) <= days - remaining,
        ensures
            1970 <= y,
            days_before_year(y as int) + remaining == days,
            remaining < year_len(y as int),
        decreases remaining,
    {
        let days_in_year: u64 = if leap(y) {
            366
        } else {
            365
        };
        if remaining < days_in_year {
            break;
        }
        remaining = remaining - days_in_year;
        y = y + 1;
    }
    let mut m: u64 = 1;
    loop
        invariant
            1 <= m <= 13,
            days_before_month(y as int, m as int) + remaining < year_len(y as int),
            days_before_year(y as int) + days_before_month(y as int, m as int) + remaining == days,
        ensures
            1 <= m <= 12,
            remaining < month_len(y as int, m as int),
            days_before_year(y as int) + days_before_month(y as int, m as int) + remaining == days,
        decreases 13 - m,
    {
        proof {
            lemma_month_step(y as int, m as int);
        }
        if m > 12 {
            break;
        }
        let len: u64 = month_length(y, m);
        if remaining < len {
            break;
        }
        remaining = remaining - len;
        m = m + 1;
    }
    proof {
        lemma_month_step(y as int, 12);
    }
    (y, m, remaining + 1, hour)
}

/// `backups/db_YYYYMMDD_HH.json`, each field zero-padded.
pub open spec fn backup_name(year: nat, month: nat, day: nat, hour: nat) -> Seq<char> {
    "backups/db_"@ + zero_pad(decimal(year), 4) + zero_pad(decimal(month), 2) + zero_pad(
        decimal(day),
        2,
    ) + "_"@ + zero_pad(decimal(hour), 2) + ".json"@
}

/// The name of the backup taken in a given hour.
pub fn backup_file_name(year: u64, month: u64, day: u64, hour: u64) -> (name: String)
    ensures
        name@ == backup_name(year as nat, month as nat, day as nat, hour as nat),
{
    let mut name = String::from_str("backups/db_");
    name.append(u64_to_padded_decimal(year, 4).as_str());
    name.append(u64_to_padded_decimal(month, 2).as_str());
    name.append(u64_to_padded_decimal(day, 2).as_str());
    name.append("_");
    name.append(u64_to_padded_decimal(hour, 2).as_str());
    name.append(".json");
    name
}

/// Whole years take at least the days of the earlier year.
proof fn lemma_days_before_year_mono(a: int, b: int)
    requires
        1970 <= a < b,
    ensures
        days_before_year(a) + year_len(a) <= days_before_year(b),
    decreases b - a,
{
    if b > a + 1 {
        lemma_days_before_year_mono(a, b - 1);
    }
}

/// The day of its year on which a date falls comes before the year's end,
/// and before the start of any later month.
proof fn lemma_day_of_year(y: int, m: int, d: int)
    requires
        valid_date(y, m, d),
    ensures
        days_before_month(y, m) + d - 1 < days_before_month(y, m + 1),
        forall|m2: int| m < m2 <= 13 ==> days_before_month(y, m + 1) <= #[trigger] days_before_month(y, m2),
        days_before_month(y, 13) == year_len(y),
{
}

/// Two dates from 1970 on that are the same number of days after
/// 1970-01-01 are the same date: the day count pins the date down.
pub proof fn law_date_of_day_count_unique(y1: int, m1: int, d1: int, y2: int, m2: int, d2: int)
    requires
        valid_date(y1, m1, d1),
        valid_date(y2, m2, d2),
        days_from_civil(y1, m1, d1) == days_from_civil(y2, m2, d2),
    ensures
        y1 == y2 && m1 == m2 && d1 == d2,
{
    lemma_day_of_year(y1, m1, d1);
    lemma_day_of_year(y2, m2, d2);
    if y1 < y2 {
        lemma_days_before_year_mono(y1, y2);
    } else if y2 < y1 {
        lemma_days_before_year_mono(y2, y1);
    } else {
        if m1 < m2 {
            assert(days_before_month(y1, m1 + 1) <= days_before_month(y1, m2));
        } else if m2 < m1 {
            assert(days_before_month(y1, m2 + 1) <= days_before_month(y1, m1));
        }
    }
}

proof fn lemma_two_digit_pad(n: nat)
    requires
        n < 100,
    ensures
        zero_pad(decimal(n), 2).len() == 2,
{
    lemma_decimal_two_digits(n);
    lemma_zero_pad_len(n, 2);
}

/// Different hours get different backup names: the name gives back the
/// date and hour it was made of.
pub proof fn law_backup_name_injective(
    y1: nat,
    m1: nat,
    d1: nat,
    h1: nat,
    y2: nat,
    m2: nat,
    d2: nat,
    h2: nat,
)
    requires
        m1 < 100 && d1 < 100 && h1 < 100,
        m2 < 100 && d2 < 100 && h2 < 100,
        backup_name(y1, m1, d1, h1) == backup_name(y2, m2, d2, h2),
    ensures
        y1 == y2 && m1 == m2 && d1 == d2 && h1 == h2,
{
    reveal_strlit("backups/db_");
    reveal_strlit("_");
    reveal_strlit(".json");
    lemma_two_digit_pad(m1);
    lemma_two_digit_pad(d1);
    lemma_two_digit_pad(h1);
    lemma_two_digit_pad(m2);
    lemma_two_digit_pad(d2);
    lemma_two_digit_pad(h2);
    let a = "backups/db_"@;
    let u = "_"@;
    let e = ".json"@;
    let (ya, ma, da, ha) = (
        zero_pad(decimal(y1), 4),
        zero_pad(decimal(m1), 2),
        zero_pad(decimal(d1), 2),
        zero_pad(decimal(h1), 2),
    );
    let (yb, mb, db, hb) = (
        zero_pad(decimal(y2), 4),
        zero_pad(decimal(m2), 2),
        zero_pad(decimal(d2), 2),
        zero_pad(decimal(h2), 2),
    );
    let n1 = backup_name(y1, m1, d1, h1);
    let n2 = backup_name(y2, m2, d2, h2);
    assert(n1 == a + ya + ma + da + u + ha + e);
    assert(n2 == a + yb + mb + db + u + hb + e);
    assert(ya.len() == yb.len());
    let k: int = 11 + ya.len() as int;
    assert(ya =~= n1.subrange(11, k));
    assert(yb =~= n2.subrange(11, k));
    assert(ma =~= n1.subrange(k, k + 2));
    assert(mb =~= n2.subrange(k, k + 2));
    assert(da =~= n1.subrange(k + 2, k + 4));
    assert(db =~= n2.subrange(k + 2, k + 4));
    assert(ha =~= n1.subrange(k + 5, k + 7));
    assert(hb =~= n2.subrange(k + 5, k + 7));
    lemma_zero_pad_injective(y1, y2, 4);
    lemma_zero_pad_injective(m1, m2, 2);
    lemma_zero_pad_injective(d1, d2, 2);
    lemma_zero_pad_injective(h1, h2, 2);
}

/// Two times have the same date and hour exactly when they fall in the
/// same hour since 1970-01-01 00:00; so the backup name, which is made of
/// the date and hour, stays the same for an hour and then changes.
pub proof fn law_same_hour_same_date(
    s1: nat,
    y1: int,
    m1: int,
    d1: int,
    h1: int,
    s2: nat,
    y2: int,
    m2: int,
    d2: int,
    h2: int,
)
    requires
        is_ymdh_of(s1, y1, m1, d1, h1),
        is_ymdh_of(s2, y2, m2, d2, h2),
    ensures
        (y1 == y2 && m1 == m2 && d1 == d2 && h1 == h2) <==> s1 / 3600 == s2 / 3600,
{
    vstd::arithmetic::div_mod::lemma_div_denominator(s1 as int, 3600, 24);
    vstd::arithmetic::div_mod::lemma_div_denominator(s2 as int, 3600, 24);
    vstd::arithmetic::div_mod::lemma_fundamental_div_mod(s1 as int / 3600, 24);
    vstd::arithmetic::div_mod::lemma_fundamental_div_mod(s2 as int / 3600, 24);
    if s1 / 3600 == s2 / 3600 {
        law_date_of_day_count_unique(y1, m1, d1, y2, m2, d2);
    }
}

/// The months have their Gregorian lengths (thirty days have September,
/// April, June and November; February has 28, or 29 in a leap year; the
/// rest have 31), each month starts where the one before ends, a year is
/// its twelve months, and the day count starts at 1970-01-01 and runs
/// through the years one after the other.
pub proof fn law_gregorian_calendar(y: int)
    ensures
        month_len(y, 1) == 31,
        month_len(y, 2) == if y % 4 == 0 && (y % 100 != 0 || y % 400 == 0) {
            29nat
        } else {
            28nat
        },
        month_len(y, 3) == 31,
        month_len(y, 4) == 30,
        month_len(y, 5) == 31,
        month_len(y, 6) == 30,
        month_len(y, 7) == 31,
        month_len(y, 8) == 31,
        month_len(y, 9) == 30,
        month_len(y, 10) == 31,
        month_len(y, 11) == 30,
        month_len(y, 12) == 31,
        days_before_month(y, 1) == 0,
        forall|m: int|
            1 <= m <= 12 ==> #[trigger] days_before_month(y, m + 1) == days_before_month(y, m)
                + month_len(y, m),
        year_len(y) == days_before_month(y, 13),
        days_before_year(1970) == 0,
        y >= 1970 ==> days_before_year(y + 1) == days_before_year(y) + year_len(y),
{
    assert forall|m: int| 1 <= m <= 12 implies #[trigger] days_before_month(y, m + 1)
        == days_before_month(y, m) + month_len(y, m) by {
        lemma_month_step(y, m);
    }
    if y >= 1970 {
        assert(days_before_year(y + 1) == days_before_year(y) + year_len(y));
    }
}

} // verus!
