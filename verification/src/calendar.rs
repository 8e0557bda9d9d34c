//! Gregorian dates and days since 1970-01-01.
use vstd::prelude::*;

verus! {

pub open spec fn leap(year: int) -> bool {
    (year % 4 == 0 && year % 100 != 0) || year % 400 == 0
}

/// The number of days of a year.
pub open spec fn year_days(year: int) -> nat {
    if leap(year) {
        366
    } else {
        365
    }
}

/// The number of days of a month, 1 to 12; 0 for any other month.
pub open spec fn month_days(year: int, month: int) -> nat {
    if month == 2 {
        if leap(year) {
            29
        } else {
            28
        }
    } else if month == 4 || month == 6 || month == 9 || month == 11 {
        30
    } else if 1 <= month <= 12 {
        31
    } else {
        0
    }
}

/// Whether the date exists and is no earlier than 1970.
pub open spec fn date_exists(year: int, month: int, day: int) -> bool {
    year >= 1970 && 1 <= month <= 12 && 1 <= day <= month_days(year, month)
}

/// The days from 1970-01-01 to the first day of `year`.
pub open spec fn days_before_year(year: int) -> nat
    decreases year - 1970,
{
    if year <= 1970 {
        0
    } else {
        days_before_year(year - 1) + year_days(year - 1)
    }
}

/// The days from the first day of `year` to the first day of `month`.
pub open spec fn days_before_month(year: int, month: int) -> nat
    decreases month,
{
    if month <= 1 {
        0
    } else {
        days_before_month(year, month - 1) + month_days(year, month - 1)
    }
}

/// The days from 1970-01-01 to a date.
pub open spec fn epoch_day(year: int, month: int, day: int) -> int {
    days_before_year(year) + days_before_month(year, month) + day - 1
}

pub fn is_leap_year(year: u32) -> (is: bool)
    ensures
        is == leap(year as int),
{
    (year % 4 == 0 && year % 100 != 0) || year % 400 == 0
}

pub fn days_in_month(year: u32, month: u32) -> (days: Option<u32>)
    ensures
        days == (if 1 <= month <= 12 {
            Some(month_days(year as int, month as int) as u32)
        } else {
            None
        }),
{
    if month == 1 || month == 3 || month == 5 || month == 7 || month == 8 || month == 10 || month
        == 12 {
        Some(31)
    } else if month == 4 || month == 6 || month == 9 || month == 11 {
        Some(30)
    } else if month == 2 {
        Some(
            if is_leap_year(year) {
                29
            } else {
                28
            },
        )
    } else {
        None
    }
}

pub proof fn lemma_days_before_year_grows(a: int, b: int)
    requires
        a <= b,
    ensures
        days_before_year(a) <= days_before_year(b),
    decreases b - a,
{
    if a < b {
        lemma_days_before_year_grows(a, b - 1);
    }
}

proof fn lemma_days_before_month_grows(year: int, a: int, b: int)
    requires
        a <= b,
    ensures
        days_before_month(year, a) <= days_before_month(year, b),
    decreases b - a,
{
    if a < b {
        lemma_days_before_month_grows(year, a, b - 1);
    }
}

proof fn lemma_days_before_year_bound(year: int)
    requires
        year >= 1970,
    ensures
        days_before_year(year) <= 366 * (year - 1970),
    decreases year,
{
    if year > 1970 {
        lemma_days_before_year_bound(year - 1);
    }
}

proof fn lemma_days_before_month_bound(year: int, month: int)
    requires
        1 <= month <= 13,
    ensures
        days_before_month(year, month) <= 31 * (month - 1),
    decreases month,
{
    if month > 1 {
        lemma_days_before_month_bound(year, month - 1);
    }
}

/// A date of a year has a number below that of a year of 366 days for each year before it.
pub proof fn lemma_epoch_day_bound(year: int, month: int, day: int)
    requires
        date_exists(year, month, day),
    ensures
        0 <= epoch_day(year, month, day) < 366 * (year - 1970) + 31 * 12,
{
    lemma_days_before_year_bound(year);
    lemma_days_before_month_bound(year, month);
}

/// The months of a year take all of its days.
proof fn lemma_months_fill_the_year(year: int)
    ensures
        days_before_month(year, 13) == year_days(year),
{
    reveal_with_fuel(days_before_month, 14);
}

/// The number of a date lies among those of its year.
pub proof fn lemma_epoch_day_in_year(year: int, month: int, day: int)
    requires
        date_exists(year, month, day),
    ensures
        days_before_year(year) <= epoch_day(year, month, day) < days_before_year(year + 1),
{
    lemma_months_fill_the_year(year);
    lemma_days_before_month_grows(year, month + 1, 13);
}

/// Up to 2100 every fourth year is a leap year.
pub proof fn lemma_first_day_of_year(year: int)
    requires
        1970 <= year <= 2100,
    ensures
        days_before_year(year) == 365 * (year - 1970) + (year - 1969) / 4,
    decreases year,
{
    if year > 1970 {
        lemma_first_day_of_year(year - 1);
    }
}

/// The days from 1970-01-01 to a date; `None` for a date that does not exist, one before 1970,
/// and one so far off that the number does not fit.
pub fn days_since_unix_epoch(year: u32, month: u32, day: u32) -> (days: Option<u32>)
    ensures
        days == (if date_exists(year as int, month as int, day as int) && epoch_day(
            year as int,
            month as int,
            day as int,
        ) <= u32::MAX {
            Some(epoch_day(year as int, month as int, day as int) as u32)
        } else {
            None
        }),
{
    if year < 1970 || month < 1 || month > 12 {
        return None;
    }
    let dim: u32 = match days_in_month(year, month) {
        Some(dim) => dim,
        None => return None,
    };
    if day == 0 || day > dim {
        return None;
    }
    let mut days: u32 = 0;
    let mut y: u32 = 1970;
    while y < year
        invariant
            1970 <= y <= year,
            days == days_before_year(y as int),
            date_exists(year as int, month as int, day as int),
        decreases year - y,
    {
        proof {
            lemma_days_before_year_grows(y + 1, year as int);
        }
        let length: u32 = if is_leap_year(y) {
            366
        } else {
            365
        };
        days = match days.checked_add(length) {
            Some(sum) => sum,
            None => return None,
        };
        y = y + 1;
    }
    let ghost whole_years = days;
    let mut m: u32 = 1;
    while m < month
        invariant
            1 <= m <= month <= 12,
            whole_years == days_before_year(year as int),
            days == whole_years + days_before_month(year as int, m as int),
            date_exists(year as int, month as int, day as int),
        decreases month - m,
    {
        proof {
            lemma_days_before_month_grows(year as int, m + 1, month as int);
        }
        let length: u32 = match days_in_month(year, m) {
            Some(length) => length,
            None => return None,
        };
        days = match days.checked_add(length) {
            Some(sum) => sum,
            None => return None,
        };
        m = m + 1;
    }
    days.checked_add(day - 1)
}

/// The day after a date.
pub open spec fn next_date(year: int, month: int, day: int) -> (int, int, int) {
    if day < month_days(year, month) {
        (year, month, day + 1)
    } else if month < 12 {
        (year, month + 1, 1)
    } else {
        (year + 1, 1, 1)
    }
}

/// Days are counted without a gap: the day after a date exists and has the next number.
pub proof fn law_next_date_has_next_number(year: int, month: int, day: int)
    requires
        date_exists(year, month, day),
    ensures
        ({
            let (y, m, d) = next_date(year, month, day);
            date_exists(y, m, d) && epoch_day(y, m, d) == epoch_day(year, month, day) + 1
        }),
{
    reveal_with_fuel(days_before_month, 14);
}

/// The count starts at 0 on 1970-01-01.
pub proof fn law_first_day_is_zero()
    ensures
        epoch_day(1970, 1, 1) == 0,
{
}

/// The months have 31, 28, 31, 30, 31, 30, 31, 31, 30, 31, 30 and 31 days, and February one more
/// in each fourth year, except in a hundredth that is no four hundredth.
pub proof fn law_lengths_of_months(year: int)
    ensures
        month_days(year, 1) == 31,
        month_days(year, 2) == 29 || month_days(year, 2) == 28,
        month_days(year, 3) == 31,
        month_days(year, 4) == 30,
        month_days(year, 5) == 31,
        month_days(year, 6) == 30,
        month_days(year, 7) == 31,
        month_days(year, 8) == 31,
        month_days(year, 9) == 30,
        month_days(year, 10) == 31,
        month_days(year, 11) == 30,
        month_days(year, 12) == 31,
        year % 4 != 0 ==> month_days(year, 2) == 28,
        year % 100 == 0 && year % 400 != 0 ==> month_days(year, 2) == 28,
        year % 4 == 0 && year % 100 != 0 ==> month_days(year, 2) == 29,
        year % 400 == 0 ==> month_days(year, 2) == 29,
        leap(year) <==> month_days(year, 2) == 29,
{
}

/// The days before a year, without counting year by year: 365 for each, one more for each fourth
/// year that has passed, one less for each hundredth and one more for each four hundredth.
pub proof fn law_days_before_a_year(year: int)
    requires
        year >= 1970,
    ensures
        epoch_day(year, 1, 1) == 365 * (year - 1970) + (year - 1) / 4 - (year - 1) / 100 + (year
            - 1) / 400 - 477,
    decreases year,
{
    if year > 1970 {
        law_days_before_a_year(year - 1);
    }
}

/// The calendar repeats after 400 years, which are 146097 days.
pub proof fn law_calendar_repeats(year: int, month: int, day: int)
    requires
        date_exists(year, month, day),
    ensures
        date_exists(year + 400, month, day),
        epoch_day(year + 400, month, day) == epoch_day(year, month, day) + 146_097,
{
    lemma_leap_repeats(year);
    lemma_months_repeat(year, month);
    assert(days_before_year(year + 400) == days_before_year(year) + 146_097) by {
        law_days_before_a_year(year);
        law_days_before_a_year(year + 400);
        lemma_counts_repeat(year - 1);
    }
}

proof fn lemma_leap_repeats(year: int)
    ensures
        leap(year + 400) == leap(year),
{
}

proof fn lemma_counts_repeat(n: int)
    ensures
        (n + 400) / 4 == n / 4 + 100,
        (n + 400) / 100 == n / 100 + 4,
        (n + 400) / 400 == n / 400 + 1,
{
}

proof fn lemma_months_repeat(year: int, month: int)
    ensures
        days_before_month(year + 400, month) == days_before_month(year, month),
    decreases month,
{
    lemma_leap_repeats(year);
    if month > 1 {
        lemma_months_repeat(year, month - 1);
    }
}

/// The days of a year are numbered through its months: the first of a month follows on the last of
/// the month before.
pub proof fn law_months_follow_on_each_other(year: int, month: int)
    requires
        1 <= month < 12,
    ensures
        epoch_day(year, month + 1, 1) == epoch_day(year, month, month_days(year, month) as int)
            + 1,
{
}

} // verus!
