use waveshare_watch::draw::DrawFailure;
use waveshare_watch::modes::{AppState, Page, Screen};
use waveshare_watch::ntp::DateTime;
use waveshare_watch::watch::{ImuPower, Watch};

const SECOND: u64 = 1_000_000;

fn watch() -> Watch {
    Watch::new(0)
}

#[test]
fn tick_depends_on_what_is_shown() {
    let mut w = watch();
    assert_eq!(w.tick_ms(false, false), 1000);
    assert_eq!(w.tick_ms(true, false), 16);
    assert_eq!(w.tick_ms(false, true), 16);
    w.face.gyro_enabled = true;
    assert_eq!(w.tick_ms(false, false), 33);
    w.page = Page::Sensors;
    assert_eq!(w.tick_ms(false, false), 100);
    w.page = Page::System;
    assert_eq!(w.tick_ms(false, false), 2000);
    for (app, ms) in [
        (AppState::Launcher, 100),
        (AppState::Settings, 100),
        (AppState::Mp3Player, 100),
        (AppState::SmartHome, 100),
        (AppState::Flappy, 8),
        (AppState::Snake, 16),
        (AppState::Game2048, 16),
        (AppState::Tetris, 16),
        (AppState::Maze, 16),
    ] {
        w.app = app;
        assert_eq!(w.tick_ms(false, false), ms);
    }
    w.screen = Screen::Aod;
    assert_eq!(w.tick_ms(false, false), 10_000);
    w.screen = Screen::Off;
    assert_eq!(w.tick_ms(false, false), 30_000);
    assert_eq!(w.tick_ms(true, true), 16);
}

#[test]
fn frames_measure_at_least_a_millisecond() {
    let mut w = watch();
    assert_eq!(w.begin_frame(999), 1);
    assert_eq!(w.begin_frame(17_999), 17);
    assert_eq!(w.begin_frame(17_999), 1);
    assert_eq!(w.begin_frame(17_999 + (1 << 32) * 1000 + 5000), 5);
    assert_eq!(w.now, 17_999 + (1 << 32) * 1000 + 5000);
}

#[test]
fn motion_sensor_follows_its_consumers() {
    let mut w = watch();
    assert!(!w.needs_imu());
    assert_eq!(w.imu_power(), ImuPower::Keep);
    w.face.gyro_enabled = true;
    assert_eq!(w.imu_power(), ImuPower::Up);
    assert_eq!(w.imu_power(), ImuPower::Keep);
    w.screen = Screen::Off;
    assert_eq!(w.imu_power(), ImuPower::Down);
    w.screen = Screen::Dim;
    w.face.gyro_enabled = false;
    assert!(!w.needs_imu());
    w.page = Page::Sensors;
    assert!(w.needs_imu());
    for app in [AppState::Maze, AppState::Tetris, AppState::Flappy] {
        w.app = app;
        assert!(w.needs_imu());
    }
    w.app = AppState::Snake;
    assert!(!w.needs_imu());
    w.screen = Screen::Aod;
    w.app = AppState::Maze;
    assert!(!w.needs_imu());
}

#[test]
fn clock_is_read_once_a_second() {
    let mut w = watch();
    assert!(w.clock_due());
    w.clock_read(Some(DateTime::new(26, 4, 7, 10, 20, 30)));
    assert_eq!((w.face.hours, w.face.minutes, w.face.seconds), (10, 20, 30));
    assert_eq!((w.face.day, w.face.month, w.face.year), (7, 4, 26));
    w.begin_frame(SECOND - 1);
    assert!(!w.clock_due());
    w.begin_frame(SECOND);
    assert!(w.clock_due());
    w.clock_read(None);
    assert_eq!(w.face.seconds, 30);
    assert!(!w.clock_due());
    w.begin_frame(10 * SECOND);
    w.screen = Screen::Off;
    assert!(!w.clock_due());
}

#[test]
fn battery_is_read_less_often_in_the_dark() {
    let mut w = watch();
    assert!(w.battery_due());
    w.battery_read(Some(80), Some(4000), Some(true));
    assert_eq!((w.batt_pct, w.batt_mv, w.charging), (80, 4000, true));
    assert_eq!(w.face.battery_percent, 80);
    assert!(w.face.battery_changed);
    w.begin_frame(60 * SECOND - 1);
    assert!(!w.battery_due());
    w.begin_frame(60 * SECOND);
    assert!(w.battery_due());
    w.screen = Screen::Off;
    w.battery_read(Some(79), None, None);
    assert_eq!((w.batt_pct, w.batt_mv, w.charging), (79, 0, false));
    w.begin_frame(359 * SECOND);
    assert!(!w.battery_due());
    w.begin_frame(360 * SECOND);
    assert!(w.battery_due());
    w.battery_read(None, Some(1), Some(true));
    assert_eq!((w.batt_pct, w.batt_mv, w.charging), (79, 0, false));
}

#[test]
fn first_readings_ask_for_a_full_picture() {
    let mut w = watch();
    let all: Result<(), DrawFailure<()>> = Ok(());
    assert!(w.face.render(all).is_ok());
    w.first_readings(Some(50), Some(3700), None, Some(DateTime::new(26, 1, 2, 3, 4, 5)));
    assert!(w.face.full_redraw);
    assert_eq!(w.face.battery_percent, 50);
    assert_eq!(w.face.day, 2);
    w.enter_loop(77);
    assert_eq!((w.now, w.next_rtc, w.next_battery, w.next_flush), (77, 77, 77, 77));
    assert_eq!(w.last_interaction, 0);
    assert!(!w.imu_powered);
}

#[test]
fn acceleration_reaches_the_face() {
    let mut w = watch();
    w.take_accel(100, -100, 3);
    assert_eq!((w.face.accel_x, w.face.accel_y, w.face.accel_z), (100, -100, 3));
    assert!(w.face.gyro_changed);
}
