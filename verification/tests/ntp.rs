use waveshare_watch::ntp::{
    is_local_in_range, local_date_time, ntp_request, ntp_sync, ntp_unix_seconds, DateTime,
    ADDRESS_POLL_MS, NTP_LOCAL_PORT, NTP_PORT, NTP_SERVER, NTP_TIMEOUT_SECS,
};

fn reply(ntp_secs: u32) -> [u8; 48] {
    let mut packet = [0xAAu8; 48];
    packet[40..44].copy_from_slice(&ntp_secs.to_be_bytes());
    packet
}

#[test]
fn request_is_a_client_packet() {
    let packet = ntp_request();
    assert_eq!(packet[0], 0x1B);
    assert!(packet[1..].iter().all(|b| *b == 0));
}

#[test]
fn reply_seconds_count_from_1970() {
    assert_eq!(ntp_unix_seconds(&reply(2_208_988_800)), 0);
    assert_eq!(ntp_unix_seconds(&reply(2_208_988_801)), 1);
    assert_eq!(ntp_unix_seconds(&reply(0x0102_0304)), 0x0102_0304u32.wrapping_sub(2_208_988_800));
}

#[test]
fn reply_seconds_wrap_after_2036() {
    assert_eq!(ntp_unix_seconds(&reply(0)), 2_085_978_496);
}

#[test]
fn local_time_is_two_hours_ahead() {
    // 2026-04-06 12:34:56 UTC
    let dt = local_date_time(1_775_478_896);
    assert_eq!(dt, DateTime::new(26, 4, 6, 14, 34, 56));
}

#[test]
fn local_time_can_fall_on_the_next_day() {
    // 2023-12-31 23:00:00 UTC
    let dt = local_date_time(1_704_063_600);
    assert_eq!(dt, DateTime::new(24, 1, 1, 1, 0, 0));
}

#[test]
fn range_of_the_clock_chip() {
    assert!(!is_local_in_range(0));
    assert!(!is_local_in_range(946_684_800 - 7200 - 1));
    assert!(is_local_in_range(946_684_800 - 7200));
    assert_eq!(local_date_time(946_684_800 - 7200), DateTime::new(0, 1, 1, 0, 0, 0));
    assert!(is_local_in_range(u32::MAX - 7200));
    assert!(!is_local_in_range(u32::MAX - 7199));
    assert_eq!(local_date_time(u32::MAX - 7200), DateTime::new(106, 2, 7, 6, 28, 15));
}

#[test]
fn synchronisation_needs_a_full_reply() {
    let packet = reply(2_208_988_800u32.wrapping_add(1_775_478_896));
    assert_eq!(ntp_sync(Some(48), &packet), Ok(DateTime::new(26, 4, 6, 14, 34, 56)));
    assert_eq!(ntp_sync(Some(47), &packet), Err(()));
    assert_eq!(ntp_sync(Some(0), &packet), Err(()));
    assert_eq!(ntp_sync(None, &packet), Err(()));
}

#[test]
fn server_ports_and_timeout() {
    assert_eq!(NTP_SERVER, [216, 239, 35, 0]);
    assert_eq!((NTP_LOCAL_PORT, NTP_PORT), (12345, 123));
    assert_eq!(NTP_TIMEOUT_SECS, 5);
    assert_eq!(ADDRESS_POLL_MS, 100);
}
