//! Laws of the calendar and of the time from a time server.

use vstd::prelude::*;

use crate::calendar::{
    day_number, days_before_month, days_to_date, is_leap, law_day_number_injective,
    law_days_before_year_closed_form, law_next_day, next_date, valid_date,
};
use crate::ntp::{
    is_local_in_range, local_date_time, ntp_request, ntp_sync, ntp_unix_seconds, DateTime,
};

verus! {

/// Days from 1970-01-01 to a date, with the year taken to begin in March, so that a leap day is
/// the last of its year.
pub open spec fn days_since_1970(y: int, m: int, d: int) -> int {
    let year = if m <= 2 {
        y - 1
    } else {
        y
    };
    let month = if m <= 2 {
        m + 9
    } else {
        m - 3
    };
    365 * year + year / 4 - year / 100 + year / 400 + (153 * month + 2) / 5 + d - 719_469
}

/// The length of a month in the Gregorian calendar.
pub open spec fn gregorian_length(y: int, m: int) -> int {
    let february: int = if y % 400 == 0 || (y % 4 == 0 && y % 100 != 0) {
        29
    } else {
        28
    };
    seq![31, february, 31, 30, 31, 30, 31, 31, 30, 31, 30, 31][m - 1]
}

/// A day of the Gregorian calendar.
pub open spec fn gregorian(y: int, m: int, d: int) -> bool {
    1 <= m <= 12 && 1 <= d <= gregorian_length(y, m)
}

/// The days before each month, from the table of the months.
proof fn lemma_days_before_month(y: int, m: int)
    requires
        1 <= m <= 12,
    ensures
        days_before_month(y, m) == (367 * m - 362) / 12 - (if m <= 2 {
            0int
        } else if is_leap(y) {
            1
        } else {
            2
        }),
{
    reveal_with_fuel(days_before_month, 13);
}

/// The day number has the closed form.
proof fn lemma_day_number_closed_form(y: int, m: int, d: int)
    requires
        y >= 1970,
        1 <= m <= 12,
    ensures
        day_number(y, m, d) == days_since_1970(y, m, d),
{
    law_days_before_year_closed_form(y);
    lemma_days_before_month(y, m);
    if m > 2 {
        assert(y / 4 - (y - 1) / 4 == (if y % 4 == 0 {
            1int
        } else {
            0
        }));
        assert(y / 100 - (y - 1) / 100 == (if y % 100 == 0 {
            1int
        } else {
            0
        }));
        assert(y / 400 - (y - 1) / 400 == (if y % 400 == 0 {
            1int
        } else {
            0
        }));
    }
}

/// A day number from 1970 on becomes the Gregorian date that lies so many days after 1970-01-01,
/// in a month that has such a day. A negative one stays in January 1970 and is carried by the day
/// alone, modulo its 32 bits.
pub proof fn law_date_of_day_number(days: i32, date: (u32, u32, u32))
    requires
        call_ensures(days_to_date, (days,), date),
    ensures
        days >= 0 ==> {
            &&& date.0 >= 1970
            &&& gregorian(date.0 as int, date.1 as int, date.2 as int)
            &&& days_since_1970(date.0 as int, date.1 as int, date.2 as int) == days
        },
        days < 0 ==> {
            &&& date.0 == 1970 && date.1 == 1
            &&& date.2 == days + 1 || date.2 == days + 1 + 0x1_0000_0000
        },
{
    if days >= 0 {
        lemma_day_number_closed_form(date.0 as int, date.1 as int, date.2 as int);
    }
}

/// From one day to the next the date moves on by one day: within the month, to the first of the
/// next month after its last day, or to the next January 1st after December 31st.
pub proof fn law_dates_follow_each_other(
    days: i32,
    date: (u32, u32, u32),
    next: (u32, u32, u32),
)
    requires
        0 <= days < i32::MAX,
        call_ensures(days_to_date, (days,), date),
        call_ensures(days_to_date, ((days + 1) as i32,), next),
    ensures
        date.2 < gregorian_length(date.0 as int, date.1 as int) ==> next.0 == date.0 && next.1
            == date.1 && next.2 == date.2 + 1,
        date.2 == gregorian_length(date.0 as int, date.1 as int) && date.1 < 12 ==> next.0
            == date.0 && next.1 == date.1 + 1 && next.2 == 1,
        date.2 == 31 && date.1 == 12 ==> next.0 == date.0 + 1 && next.1 == 1 && next.2 == 1,
{
    let (y, m, d) = next_date(date.0 as int, date.1 as int, date.2 as int);
    law_next_day(date.0 as int, date.1 as int, date.2 as int);
    law_day_number_injective(y, m, d, next.0 as int, next.1 as int, next.2 as int);
}

/// Seconds from 1970-01-01 00:00:00 to a date and time, both in the same time zone.
pub open spec fn seconds_since_1970(dt: DateTime) -> int {
    86_400 * days_since_1970(2000 + dt.year, dt.month as int, dt.day as int) + 3_600 * dt.hours
        + 60 * dt.minutes + dt.seconds
}

/// A time of day on a day of the Gregorian calendar.
pub open spec fn reading_of_clock(dt: DateTime) -> bool {
    &&& gregorian(2000 + dt.year, dt.month as int, dt.day as int)
    &&& dt.hours <= 23
    &&& dt.minutes <= 59
    &&& dt.seconds <= 59
}

/// The fields of a date and time are the arguments, each in its place.
pub proof fn law_date_time_fields(
    year: u8,
    month: u8,
    day: u8,
    hours: u8,
    minutes: u8,
    seconds: u8,
    dt: DateTime,
)
    requires
        call_ensures(DateTime::new, (year, month, day, hours, minutes, seconds), dt),
    ensures
        dt.year == year && dt.month == month && dt.day == day,
        dt.hours == hours && dt.minutes == minutes && dt.seconds == seconds,
{
}

/// A request is 48 bytes long, and all zero but for the first, which says version 3 and client.
pub proof fn law_request_packet(packet: [u8; 48], i: int)
    requires
        call_ensures(ntp_request, (), packet),
        0 <= i < 48,
    ensures
        i == 0 ==> packet[i] == 3 * 8 + 3,
        i > 0 ==> packet[i] == 0,
{
    assert(packet[i] == packet@[i]);
}

/// A reply counts its seconds in the four bytes from byte 40 on, the most significant first, and
/// from 1900 on: 70 years with 17 leap days before 1970. What lies before 1970 wraps around.
pub proof fn law_reply_seconds(response: &[u8; 48], secs: u32)
    requires
        call_ensures(ntp_unix_seconds, (response,), secs),
    ensures
        ({
            let sent = ((response[40] * 256 + response[41]) * 256 + response[42]) * 256
                + response[43];
            let epoch = (70 * 365 + 17) * 86_400;
            secs == sent - epoch || secs == sent - epoch + 0x1_0000_0000
        }),
{
}

/// A reply that is a number of seconds later, with no carry out of its last byte, gives a moment
/// that is as many seconds later; the bytes around the four do not matter.
pub proof fn law_reply_bytes_that_count(
    a: &[u8; 48],
    b: &[u8; 48],
    from_a: u32,
    from_b: u32,
)
    requires
        call_ensures(ntp_unix_seconds, (a,), from_a),
        call_ensures(ntp_unix_seconds, (b,), from_b),
        a[40] == b[40] && a[41] == b[41] && a[42] == b[42],
    ensures
        a[43] == b[43] ==> from_a == from_b,
        (from_b - from_a - (b[43] - a[43])) % 0x1_0000_0000 == 0,
{
}

/// The moments whose local time, two hours ahead of UTC, lies in the year 2000 or later and below
/// the end of the 32-bit count.
pub proof fn law_local_range(unix_secs: u32, b: bool)
    requires
        call_ensures(is_local_in_range, (unix_secs,), b),
    ensures
        b <==> 86_400 * days_since_1970(2000, 1, 1) <= unix_secs + 2 * 3_600 <= 0xFFFF_FFFF,
{
}

/// The local date and time of a moment is the reading of a clock that is two hours ahead of UTC.
pub proof fn law_local_time(unix_secs: u32, dt: DateTime)
    requires
        call_ensures(local_date_time, (unix_secs,), dt),
    ensures
        reading_of_clock(dt),
        seconds_since_1970(dt) == unix_secs + 2 * 3_600,
{
    lemma_day_number_closed_form(2000 + dt.year, dt.month as int, dt.day as int);
}

/// A synchronisation succeeds exactly where a whole packet of 48 bytes arrived, and then sets the
/// clock to the local time of the moment that the reply carries.
pub proof fn law_synchronisation(
    received: Option<usize>,
    response: &[u8; 48],
    r: Result<DateTime, ()>,
    secs: u32,
)
    requires
        call_ensures(ntp_sync, (received, response), r),
        call_ensures(ntp_unix_seconds, (response,), secs),
    ensures
        received is None ==> r is Err,
        received matches Some(len) ==> (r is Ok <==> len >= 48),
        r matches Ok(dt) ==> reading_of_clock(dt) && seconds_since_1970(dt) == secs + 2 * 3_600,
{
    if r is Ok {
        let dt = r->Ok_0;
        lemma_day_number_closed_form(2000 + dt.year, dt.month as int, dt.day as int);
    }
}

} // verus!
