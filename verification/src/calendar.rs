//! The Gregorian calendar, counted in days since 1970-01-01.

use vstd::prelude::*;

verus! {

/// First year of the day count.
pub const EPOCH_YEAR: i32 = 1970;

/// The Gregorian leap years.
pub open spec fn is_leap(y: int) -> bool {
    y % 4 == 0 && (y % 100 != 0 || y % 400 == 0)
}

/// Number of days in a year.
pub open spec fn year_days(y: int) -> int {
    if is_leap(y) {
        366
    } else {
        365
    }
}

/// Number of days in month `m` of year `y`.
pub open spec fn month_days(y: int, m: int) -> int {
    if m == 2 {
        if is_leap(y) {
            29
        } else {
            28
        }
    } else if m == 4 || m == 6 || m == 9 || m == 11 {
        30
    } else {
        31
    }
}

/// Days from 1970-01-01 to January 1st of year `y`.
pub open spec fn days_before_year(y: int) -> int
    decreases y - 1970,
{
    if y <= 1970 {
        0
    } else {
        days_before_year(y - 1) + year_days(y - 1)
    }
}

/// Days from January 1st to the first day of month `m`.
pub open spec fn days_before_month(y: int, m: int) -> int
    decreases m,
{
    if m <= 1 {
        0
    } else {
        days_before_month(y, m - 1) + month_days(y, m - 1)
    }
}

/// The dates of the calendar from 1970 on.
pub open spec fn valid_date(y: int, m: int, d: int) -> bool {
    y >= 1970 && 1 <= m <= 12 && 1 <= d <= month_days(y, m)
}

/// Days from 1970-01-01 to the given date.
pub open spec fn day_number(y: int, m: int, d: int) -> int {
    days_before_year(y) + days_before_month(y, m) + d - 1
}

/// Lexicographic order of dates.
pub open spec fn date_before(y1: int, m1: int, d1: int, y2: int, m2: int, d2: int) -> bool {
    y1 < y2 || (y1 == y2 && (m1 < m2 || (m1 == m2 && d1 < d2)))
}

/// The twelve months fill the year.
proof fn lemma_months_fill_year(y: int)
    ensures
        days_before_month(y, 13) == year_days(y),
{
    reveal_with_fuel(days_before_month, 14);
}

proof fn lemma_months_ordered(y: int, a: int, b: int)
    requires
        1 <= a < b,
    ensures
        days_before_month(y, a) + month_days(y, a) <= days_before_month(y, b),
    decreases b - a,
{
    if a + 1 < b {
        lemma_months_ordered(y, a, b - 1);
    }
}

proof fn lemma_years_ordered(a: int, b: int)
    requires
        1970 <= a < b,
    ensures
        days_before_year(a) + year_days(a) <= days_before_year(b),
    decreases b - a,
{
    if a + 1 < b {
        lemma_years_ordered(a, b - 1);
    }
}

/// A date lies inside its year.
proof fn lemma_day_in_year(y: int, m: int, d: int)
    requires
        valid_date(y, m, d),
    ensures
        0 <= days_before_month(y, m) + d - 1 < year_days(y),
{
    lemma_months_fill_year(y);
    if m < 13 {
        lemma_months_ordered(y, m, 13);
    }
    if m > 1 {
        lemma_months_ordered(y, 1, m);
    }
}

/// Later dates have larger day numbers.
pub proof fn law_day_number_increases(y1: int, m1: int, d1: int, y2: int, m2: int, d2: int)
    requires
        valid_date(y1, m1, d1),
        valid_date(y2, m2, d2),
        date_before(y1, m1, d1, y2, m2, d2),
    ensures
        day_number(y1, m1, d1) < day_number(y2, m2, d2),
{
    lemma_day_in_year(y1, m1, d1);
    lemma_day_in_year(y2, m2, d2);
    if y1 < y2 {
        lemma_years_ordered(y1, y2);
    } else if m1 < m2 {
        lemma_months_ordered(y1, m1, m2);
    }
}

/// A day number belongs to one date only.
pub proof fn law_day_number_injective(y1: int, m1: int, d1: int, y2: int, m2: int, d2: int)
    requires
        valid_date(y1, m1, d1),
        valid_date(y2, m2, d2),
        day_number(y1, m1, d1) == day_number(y2, m2, d2),
    ensures
        y1 == y2,
        m1 == m2,
        d1 == d2,
{
    if date_before(y1, m1, d1, y2, m2, d2) {
        law_day_number_increases(y1, m1, d1, y2, m2, d2);
    } else if date_before(y2, m2, d2, y1, m1, d1) {
        law_day_number_increases(y2, m2, d2, y1, m1, d1);
    }
}

/// A date lies before January 1st of a year exactly where its day number lies below that of
/// this January 1st.
pub proof fn law_year_boundary(y: int, m: int, d: int, boundary: int)
    requires
        valid_date(y, m, d),
        boundary >= 1970,
    ensures
        y < boundary <==> day_number(y, m, d) < days_before_year(boundary),
{
    if y < boundary {
        law_day_number_increases(y, m, d, boundary, 1, 1);
    } else if date_before(boundary, 1, 1, y, m, d) {
        law_day_number_increases(boundary, 1, 1, y, m, d);
    }
}

/// The date after the given one.
pub open spec fn next_date(y: int, m: int, d: int) -> (int, int, int) {
    if d < month_days(y, m) {
        (y, m, d + 1)
    } else if m < 12 {
        (y, m + 1, 1)
    } else {
        (y + 1, 1, 1)
    }
}

/// The day number grows by one from each date to the next, across the ends of months and years.
pub proof fn law_next_day(y: int, m: int, d: int)
    requires
        valid_date(y, m, d),
    ensures
        valid_date(next_date(y, m, d).0, next_date(y, m, d).1, next_date(y, m, d).2),
        day_number(next_date(y, m, d).0, next_date(y, m, d).1, next_date(y, m, d).2) == day_number(
            y,
            m,
            d,
        ) + 1,
{
    if d == month_days(y, m) && m == 12 {
        lemma_months_fill_year(y);
    }
}

/// The recursive day count has the usual closed form: 365 days a year and one for each leap
/// year passed.
pub proof fn law_days_before_year_closed_form(y: int)
    requires
        y >= 1970,
    ensures
        days_before_year(y) == 365 * (y - 1970) + ((y - 1) / 4 - 492) - ((y - 1) / 100 - 19) + ((y
            - 1) / 400 - 4),
    decreases y,
{
    if y > 1970 {
        law_days_before_year_closed_form(y - 1);
    }
}

/// The date that lies `days_since_epoch` days after 1970-01-01, as year, month and day.
///
/// Days before 1970 are all counted back from the first of January 1970, in the day alone and
/// modulo the range of the result.
pub fn days_to_date(days_since_epoch: i32) -> (date: (u32, u32, u32))
    ensures
        days_since_epoch >= 0 ==> valid_date(date.0 as int, date.1 as int, date.2 as int)
            && day_number(date.0 as int, date.1 as int, date.2 as int) == days_since_epoch,
        days_since_epoch < 0 ==> date.0 == 1970 && date.1 == 1 && date.2 == (days_since_epoch + 1)
            % 0x1_0000_0000,
{
    let mut y: i32 = EPOCH_YEAR;
    let mut remaining: i32 = days_since_epoch;
    loop
        invariant_except_break
            EPOCH_YEAR <= y,
            365 * (y - 1970) <= days_since_epoch - remaining,
            days_since_epoch >= 0 ==> remaining >= 0,
            days_since_epoch < 0 ==> remaining == days_since_epoch && y == 1970,
            days_since_epoch >= 0 ==> days_before_year(y as int) + remaining == days_since_epoch,
        ensures
            EPOCH_YEAR <= y,
            days_since_epoch >= 0 ==> 0 <= remaining < year_days(y as int),
            days_since_epoch < 0 ==> remaining == days_since_epoch && y == 1970,
            days_since_epoch >= 0 ==> days_before_year(y as int) + remaining == days_since_epoch,
        decreases remaining,
    {
        let days_in_year: i32 = if y % 4 == 0 && (y % 100 != 0 || y % 400 == 0) {
            366
        } else {
            365
        };
        if remaining < days_in_year {
            break;
        }
        remaining -= days_in_year;
        y += 1;
    }
    let leap = y % 4 == 0 && (y % 100 != 0 || y % 400 == 0);
    let month_lengths: [i32; 12] = [
        31,
        if leap {
            29
        } else {
            28
        },
        31,
        30,
        31,
        30,
        31,
        31,
        30,
        31,
        30,
        31,
    ];
    proof {
        assert(forall|i: int|
            0 <= i < 12 ==> #[trigger] month_lengths[i] == month_days(y as int, i + 1));
    }
    let ghost in_year = remaining as int;
    let mut m: usize = 0;
    while m < 12 && remaining >= month_lengths[m]
        invariant
            m <= 12,
            days_since_epoch < 0 ==> m == 0 && remaining == days_since_epoch,
            days_since_epoch >= 0 ==> remaining >= 0 && in_year < year_days(y as int),
            days_since_epoch >= 0 ==> days_before_month(y as int, m + 1) + remaining == in_year,
            forall|i: int|
                0 <= i < 12 ==> #[trigger] month_lengths[i] == month_days(y as int, i + 1),
        decreases 12 - m,
    {
        remaining -= month_lengths[m];
        m += 1;
    }
    proof {
        if days_since_epoch >= 0 {
            lemma_months_fill_year(y as int);
            assert(m < 12);
        } else {
            let v: i32 = (remaining + 1) as i32;
            assert(v as u32 == v as int % 0x1_0000_0000) by (bit_vector);
        }
    }
    (y as u32, (m + 1) as u32, #[verifier::truncate] ((remaining + 1) as u32))
}

} // verus!
