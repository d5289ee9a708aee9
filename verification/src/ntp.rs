//! Time from a network time server: the request, the reply, and the local time of the watch.

use vstd::prelude::*;

use crate::calendar::days_to_date;
use crate::calendar::{
    day_number, law_day_number_injective, law_days_before_year_closed_form, law_year_boundary, valid_date,
};

verus! {

/// Milliseconds between two looks for an address while the network comes up.
pub const ADDRESS_POLL_MS: u64 = 100;

/// Address of the time server.
pub const NTP_SERVER: [u8; 4] = [216, 239, 35, 0];

/// Port of the time server.
pub const NTP_PORT: u16 = 123;

/// Port that a request is sent from.
pub const NTP_LOCAL_PORT: u16 = 12_345;

/// Seconds to wait for a reply. Without one in this time there is none.
pub const NTP_TIMEOUT_SECS: u64 = 5;

/// Length of a request and of a reply in bytes.
pub const NTP_PACKET: usize = 48;

/// First byte of a request: no leap warning, version 3, client mode.
pub const NTP_CLIENT: u8 = 0x1B;

/// Seconds from 1900-01-01, where the server counts from, to 1970-01-01.
pub const NTP_TO_UNIX: u32 = 2_208_988_800;

/// Offset of the local time to UTC in seconds (Central European Summer Time).
pub const UTC_OFFSET: u32 = 7_200;

/// Seconds in a day.
pub const DAY_SECONDS: u32 = 86_400;

/// First second of the year 2000, the first year that the clock chip can hold.
pub const YEAR_2000: u32 = 946_684_800;

/// Date and time as the clock chip holds them; `year` counts from 2000.
#[derive(Clone, Copy, Debug, PartialEq, Eq, Structural)]
pub struct DateTime {
    pub year: u8,
    pub month: u8,
    pub day: u8,
    pub hours: u8,
    pub minutes: u8,
    pub seconds: u8,
}

impl DateTime {
    pub fn new(year: u8, month: u8, day: u8, hours: u8, minutes: u8, seconds: u8) -> (dt: Self)
        ensures
            dt == (DateTime { year, month, day, hours, minutes, seconds }),
    {
        DateTime { year, month, day, hours, minutes, seconds }
    }

    /// A time of day and a date of the years from 2000 on.
    pub open spec fn valid(self) -> bool {
        &&& valid_date(2000 + self.year, self.month as int, self.day as int)
        &&& self.hours < 24
        &&& self.minutes < 60
        &&& self.seconds < 60
    }

    /// Seconds from 1970-01-01 00:00:00 to this moment, both in the same time zone.
    pub open spec fn epoch_seconds(self) -> int {
        day_number(2000 + self.year, self.month as int, self.day as int) * 86_400 + self.hours
            * 3_600 + self.minutes * 60 + self.seconds
    }
}

/// A moment belongs to one date and time only.
pub proof fn law_epoch_seconds_injective(a: DateTime, b: DateTime)
    requires
        a.valid(),
        b.valid(),
        a.epoch_seconds() == b.epoch_seconds(),
    ensures
        a == b,
{
    let na = day_number(2000 + a.year, a.month as int, a.day as int);
    let nb = day_number(2000 + b.year, b.month as int, b.day as int);
    let sa = a.hours * 3_600 + a.minutes * 60 + a.seconds;
    let sb = b.hours * 3_600 + b.minutes * 60 + b.seconds;
    assert(0 <= sa < 86_400 && 0 <= sb < 86_400);
    assert(na * 86_400 + sa == nb * 86_400 + sb);
    assert(na == nb);
    assert(a.hours == b.hours && a.minutes == b.minutes && a.seconds == b.seconds);
    law_day_number_injective(
        2000 + a.year,
        a.month as int,
        a.day as int,
        2000 + b.year,
        b.month as int,
        b.day as int,
    );
}

/// The seconds since 1900 that a reply carries: bytes 40 to 43, most significant first.
pub open spec fn ntp_seconds(response: Seq<u8>) -> int {
    response[40] * 0x100_0000 + response[41] * 0x1_0000 + response[42] * 0x100 + response[43]
}

/// The reply's seconds counted from 1970, modulo the 32 bits of the counter.
pub open spec fn unix_seconds(response: Seq<u8>) -> int {
    (ntp_seconds(response) - NTP_TO_UNIX) % 0x1_0000_0000
}

/// The moments whose local time the clock chip can hold and the 32-bit counter can reach.
pub open spec fn local_in_range(unix_secs: int) -> bool {
    YEAR_2000 <= unix_secs + UTC_OFFSET <= u32::MAX
}

/// The request to send: a client packet, zero but for its first byte.
pub fn ntp_request() -> (packet: [u8; 48])
    ensures
        packet@ == Seq::new(48, |i: int| if i == 0 { NTP_CLIENT } else { 0u8 }),
{
    let mut packet: [u8; 48] = [0u8; 48];
    packet[0] = NTP_CLIENT;
    assert(packet@ =~= Seq::new(48, |i: int| if i == 0 { NTP_CLIENT } else { 0u8 }));
    packet
}

/// The moment that a full reply carries, in seconds since 1970-01-01 UTC.
pub fn ntp_unix_seconds(response: &[u8; 48]) -> (secs: u32)
    ensures
        secs == unix_seconds(response@),
{
    let ntp_secs: u32 = response[40] as u32 * 0x100_0000 + response[41] as u32 * 0x1_0000
        + response[42] as u32 * 0x100 + response[43] as u32;
    ntp_secs.wrapping_sub(NTP_TO_UNIX)
}

/// Whether [`local_date_time`] takes this moment.
pub fn is_local_in_range(unix_secs: u32) -> (b: bool)
    ensures
        b == local_in_range(unix_secs as int),
{
    unix_secs <= u32::MAX - UTC_OFFSET && unix_secs + UTC_OFFSET >= YEAR_2000
}

/// The local date and time of a moment given in seconds since 1970-01-01 UTC.
pub fn local_date_time(unix_secs: u32) -> (dt: DateTime)
    requires
        local_in_range(unix_secs as int),
    ensures
        dt.valid(),
        dt.epoch_seconds() == unix_secs + UTC_OFFSET,
{
    let local_secs: u32 = unix_secs + UTC_OFFSET;
    let time_of_day: u32 = local_secs % DAY_SECONDS;
    let hours: u8 = (time_of_day / 3600) as u8;
    let minutes: u8 = ((time_of_day % 3600) / 60) as u8;
    let seconds: u8 = (time_of_day % 60) as u8;
    let total_days: i32 = (local_secs / DAY_SECONDS) as i32;
    let (year, month, day) = days_to_date(total_days);
    proof {
        law_days_before_year_closed_form(2000);
        law_days_before_year_closed_form(2107);
        law_year_boundary(year as int, month as int, day as int, 2000);
        law_year_boundary(year as int, month as int, day as int, 2107);
    }
    DateTime::new((year - 2000) as u8, month as u8, day as u8, hours, minutes, seconds)
}

/// What a synchronisation sets the clock to, given the length of the reply that arrived in time
/// (`None` where sending or receiving failed or timed out) and the buffer it was read into.
pub fn ntp_sync(received: Option<usize>, response: &[u8; 48]) -> (r: Result<DateTime, ()>)
    requires
        received is Some && received->0 >= NTP_PACKET ==> local_in_range(unix_seconds(response@)),
    ensures
        r is Ok <==> received is Some && received->0 >= NTP_PACKET,
        r matches Ok(dt) ==> dt.valid() && dt.epoch_seconds() == unix_seconds(response@)
            + UTC_OFFSET,
{
    match received {
        Some(len) => {
            if len >= NTP_PACKET {
                Ok(local_date_time(ntp_unix_seconds(response)))
            } else {
                Err(())
            }
        },
        None => Err(()),
    }
}

} // verus!
