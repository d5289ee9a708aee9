use waveshare_watch::text::{fmt_bat_short, fmt_batt, fmt_date_fr, fmt_mv};
use waveshare_watch::tracks::track_entry;

#[test]
fn date_has_two_digits_each() {
    let mut buf = [0u8; 12];
    assert_eq!(fmt_date_fr(&mut buf, 6, 4, 26), "06/04/2026");
    assert_eq!(&buf, b"06/04/2026\0\0");
    assert_eq!(fmt_date_fr(&mut buf, 31, 12, 99), "31/12/2099");
}

#[test]
fn date_with_values_beyond_two_digits() {
    let mut buf = [0u8; 12];
    assert_eq!(fmt_date_fr(&mut buf, 100, 255, 199), ":0/I5/20C9");
}

#[test]
fn battery_text_with_and_without_charger() {
    let mut buf = [7u8; 16];
    assert_eq!(fmt_batt(&mut buf, 0, false), "0%");
    assert_eq!(fmt_batt(&mut buf, 9, true), "9% CHG");
    assert_eq!(fmt_batt(&mut buf, 10, false), "10%");
    assert_eq!(fmt_batt(&mut buf, 99, true), "99% CHG");
    assert_eq!(fmt_batt(&mut buf, 100, false), "100%");
    assert_eq!(fmt_batt(&mut buf, 255, true), "100% CHG");
    assert_eq!(&buf[8..], &[7u8; 8]);
}

#[test]
fn short_battery_text() {
    let mut buf = [0u8; 4];
    assert_eq!(fmt_bat_short(&mut buf, 5), "5%");
    assert_eq!(fmt_bat_short(&mut buf, 42), "42%");
    assert_eq!(fmt_bat_short(&mut buf, 100), "100%");
    assert_eq!(fmt_bat_short(&mut buf, 200), "100%");
}

#[test]
fn millivolts() {
    let mut buf = [0u8; 12];
    assert_eq!(fmt_mv(&mut buf, 0), "000mV");
    assert_eq!(fmt_mv(&mut buf, 87), "087mV");
    assert_eq!(fmt_mv(&mut buf, 999), "999mV");
    assert_eq!(fmt_mv(&mut buf, 1000), "1000mV");
    assert_eq!(fmt_mv(&mut buf, 4123), "4123mV");
    assert_eq!(fmt_mv(&mut buf, 65535), "q535mV");
}

#[test]
fn distinct_values_have_distinct_texts() {
    let mut seen = std::collections::HashSet::new();
    for mv in 0..=u16::MAX {
        let mut buf = [0u8; 12];
        assert!(seen.insert(fmt_mv(&mut buf, mv).to_string()));
    }
    let mut buf = [0u8; 12];
    let a = fmt_date_fr(&mut buf, 1, 11, 11).to_string();
    let b = fmt_date_fr(&mut buf, 11, 1, 11).to_string();
    assert_ne!(a, b);
    let mut charges = std::collections::HashSet::new();
    for pct in 0..=100u8 {
        let mut buf = [0u8; 4];
        assert!(charges.insert(fmt_bat_short(&mut buf, pct).to_string()));
        let mut buf = [0u8; 16];
        assert!(charges.insert(fmt_batt(&mut buf, pct, true).to_string()));
    }
}

#[test]
fn track_names_are_trimmed_and_joined() {
    assert_eq!(track_entry(false, b"SONG", b"MP3"), Some("SONG.MP3".to_string()));
    assert_eq!(track_entry(false, b" A B \t", b"MP3  "), Some("A B.MP3".to_string()));
    assert_eq!(track_entry(false, b"   ", b""), Some(".".to_string()));
    assert_eq!(
        track_entry(false, "\u{a0}\u{2003}x\u{3000}".as_bytes(), "\u{85}y".as_bytes()),
        Some("x.y".to_string())
    );
}

#[test]
fn track_names_that_are_no_text() {
    assert_eq!(track_entry(false, &[0xFF], b"MP3"), Some("?.MP3".to_string()));
    assert_eq!(track_entry(false, b"A", &[0x80, 0x41]), Some("A.".to_string()));
}

#[test]
fn directories_are_no_tracks() {
    assert_eq!(track_entry(true, b"SUB", b""), None);
}
