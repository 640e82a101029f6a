//! Dates of the Gregorian calendar as numbers of days.

use vstd::prelude::*;

verus! {

/// The number of days from the first of March of the year 0 to a date.
///
/// A year is taken to begin in March, so that the day that a leap year adds is
/// its last one. A month past the twelfth and a day past the end of its month
/// count on, and day 0 is the day before the first.
pub open spec fn civil_days(year: int, month: int, day: int) -> int {
    let y = if month <= 2 {
        year - 1
    } else {
        year
    };
    let months_since_march = if month <= 2 {
        month + 9
    } else {
        month - 3
    };
    365 * y + y / 4 - y / 100 + y / 400 + (153 * months_since_march + 2) / 5 + day - 1
}

/// The days from the first of March of the year 0 to the first of January 1970.
pub const UNIX_EPOCH_DAYS: i64 = 719468;

/// The number of days from the first of March of the year 0 to a date.
pub fn days_from_civil(year: i64, month: i64, day: i64) -> (r: i64)
    requires
        0 <= month,
        0 <= day,
        i64::MIN <= civil_days(year as int, month as int, day as int) <= i64::MAX,
    ensures
        r == civil_days(year as int, month as int, day as int),
{
    let year: i128 = year as i128;
    let month: i128 = month as i128;
    let y: i128 = if month <= 2 {
        year - 1
    } else {
        year
    };
    let start: i128 = if y >= 0 {
        y
    } else {
        y - 399
    };
    // An era is 400 years, over which the leap days repeat.
    let rem: i128 = if start >= 0 {
        start % 400
    } else {
        -((-start) % 400)
    };
    let era: i128 = (start - rem) / 400;
    proof {
        lemma_era(y as int, start as int, rem as int, era as int);
    }
    let yoe: i128 = y - era * 400;
    let m: i128 = if month > 2 {
        month - 3
    } else {
        month + 9
    };
    let doy: i128 = (153 * m + 2) / 5 + day as i128 - 1;
    let doe: i128 = yoe * 365 + yoe / 4 - yoe / 100 + doy;
    (era * 146097 + doe) as i64
}

proof fn lemma_era(y: int, start: int, rem: int, era: int)
    requires
        start == if y >= 0 {
            y
        } else {
            y - 399
        },
        rem == if start >= 0 {
            start % 400
        } else {
            -((-start) % 400)
        },
        era == (start - rem) / 400,
    ensures
        0 <= y - era * 400 < 400,
        era == y / 400,
        y / 4 == 100 * era + (y - era * 400) / 4,
        y / 100 == 4 * era + (y - era * 400) / 100,
{
}

/// Whether a year of the Gregorian calendar has 366 days.
pub open spec fn is_leap(year: int) -> bool {
    year % 4 == 0 && (year % 100 != 0 || year % 400 == 0)
}

/// The number of days of a month.
pub open spec fn days_in_month(year: int, month: int) -> int {
    if month == 2 {
        if is_leap(year) {
            29
        } else {
            28
        }
    } else if month == 4 || month == 6 || month == 9 || month == 11 {
        30
    } else {
        31
    }
}

/// Whether a date exists.
pub open spec fn is_date(year: int, month: int, day: int) -> bool {
    1 <= month <= 12 && 1 <= day <= days_in_month(year, month)
}

/// The date that follows a date.
pub open spec fn next_date(year: int, month: int, day: int) -> (int, int, int) {
    if day < days_in_month(year, month) {
        (year, month, day + 1)
    } else if month < 12 {
        (year, month + 1, 1int)
    } else {
        (year + 1, 1int, 1int)
    }
}

/// The number of a date is one more than that of the date before it.
pub proof fn law_next_date_is_next_day(year: int, month: int, day: int)
    requires
        is_date(year, month, day),
    ensures
        ({
            let n = next_date(year, month, day);
            civil_days(n.0, n.1, n.2) == civil_days(year, month, day) + 1
        }),
{
}

proof fn lemma_days_before_year(y: int, z: int)
    requires
        y <= z,
    ensures
        365 * y + y / 4 - y / 100 + y / 400 <= 365 * z + z / 4 - z / 100 + z / 400,
    decreases z - y,
{
    if y < z {
        lemma_days_before_year(y, z - 1);
        assert((z - 1) / 4 <= z / 4);
        assert(z / 100 <= (z - 1) / 100 + 1);
        assert((z - 1) / 400 <= z / 400);
    }
}

/// A date lies on or after the first of January 1970 exactly where its year does.
pub proof fn law_epoch_parts_the_years(year: int, month: int, day: int)
    requires
        is_date(year, month, day),
    ensures
        civil_days(year, month, day) >= UNIX_EPOCH_DAYS <==> year >= 1970,
{
    if year >= 1970 {
        lemma_days_before_year(1969, year - 1);
        lemma_days_before_year(year - 1, year);
        lemma_days_before_year(1970, year);
    } else {
        lemma_days_before_year(year, 1969);
        lemma_days_before_year(year - 1, 1968);
    }
}

/// The days are counted from the first of January 1970, and a leap day comes every fourth year,
/// but for three of four full centuries.
pub proof fn law_days_are_counted_from_the_epoch(year: int)
    ensures
        civil_days(1970, 1, 1) == UNIX_EPOCH_DAYS,
        civil_days(year + 1, 1, 1) - civil_days(year, 1, 1) == if year % 4 == 0 && (year % 100 != 0
            || year % 400 == 0) {
            366int
        } else {
            365
        },
{
}

} // verus!
