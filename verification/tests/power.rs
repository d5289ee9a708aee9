use waveshare_watch::modes::{AppState, Page, Screen, SwipeDirection};
use waveshare_watch::ntp::DateTime;
use waveshare_watch::power::{Idle, Wake, PANEL_SETTLE_MS};
use waveshare_watch::watch::Watch;

const SECOND: u64 = 1_000_000;

fn idle_for(secs: u64) -> Watch {
    let mut w = Watch::new(0);
    w.begin_frame(secs * SECOND);
    w
}

#[test]
fn idle_watch_grows_dark_step_by_step() {
    let mut w = Watch::new(0);
    w.begin_frame(20 * SECOND - 1);
    assert_eq!(w.idle(), Idle::Nothing);
    assert_eq!(w.screen, Screen::Bright);
    w.begin_frame(20 * SECOND);
    assert_eq!(w.idle(), Idle::Dim);
    assert_eq!(w.idle(), Idle::Nothing);
    assert_eq!(w.screen, Screen::Dim);
    w.begin_frame(40 * SECOND - 1);
    assert_eq!(w.idle(), Idle::Nothing);
    w.begin_frame(40 * SECOND);
    w.aod_last_minute = 7;
    assert_eq!(w.idle(), Idle::ShowAod);
    assert_eq!(w.screen, Screen::Aod);
    assert_eq!(w.aod_last_minute, 99);
    w.begin_frame(600 * SECOND - 1);
    assert_eq!(w.idle(), Idle::Nothing);
    w.begin_frame(600 * SECOND);
    assert_eq!(w.idle(), Idle::SwitchOff);
    assert_eq!(w.screen, Screen::Off);
    assert_eq!(w.idle(), Idle::Nothing);
}

#[test]
fn idle_steps_can_be_skipped() {
    let mut w = idle_for(45);
    assert_eq!(w.idle(), Idle::ShowAod);
    let mut w = idle_for(700);
    assert_eq!(w.idle(), Idle::SwitchOff);
}

#[test]
fn only_the_clock_page_has_an_always_on_display() {
    let mut w = idle_for(40);
    w.page = Page::Sensors;
    assert_eq!(w.idle(), Idle::SwitchOff);
    assert_eq!(w.screen, Screen::Off);
    let mut w = idle_for(40);
    w.app = AppState::Snake;
    assert_eq!(w.idle(), Idle::SwitchOff);
    let mut w = idle_for(20);
    w.app = AppState::Snake;
    assert_eq!(w.idle(), Idle::Dim);
}

#[test]
fn any_use_wakes_the_watch() {
    for (touch, swipe, tap, boot) in [
        (true, None, false, false),
        (false, Some(SwipeDirection::Other { code: 3 }), false, false),
        (false, None, true, false),
        (false, None, false, true),
    ] {
        let mut w = idle_for(45);
        w.page_dirty = false;
        w.idle();
        assert_eq!(w.wake(touch, swipe, tap, boot), Wake::Brighten);
        assert_eq!(w.screen, Screen::Bright);
        assert_eq!(w.last_interaction, 45 * SECOND);
        assert_eq!(w.next_flush, 45 * SECOND);
        assert!(w.page_dirty && w.face.full_redraw);
        assert_eq!(w.idle(), Idle::Nothing);
    }
}

#[test]
fn sleeping_panel_is_switched_on() {
    let mut w = idle_for(700);
    w.idle();
    assert_eq!(w.wake(false, None, false, false), Wake::Nothing);
    assert_eq!(w.screen, Screen::Off);
    assert_eq!(w.wake(true, None, false, false), Wake::SwitchOn);
    assert_eq!(w.wake(true, None, false, false), Wake::Nothing);
}

#[test]
fn waking_an_application_leaves_the_face_alone() {
    let mut w = idle_for(25);
    w.app = AppState::Maze;
    w.page_dirty = false;
    w.face.full_redraw = false;
    w.idle();
    assert_eq!(w.wake(true, None, false, false), Wake::Brighten);
    assert!(!w.page_dirty);
    assert!(!w.face.full_redraw);
}

#[test]
fn radio_is_dropped_after_five_idle_minutes() {
    let mut w = idle_for(299);
    assert!(!w.wifi_drop_due());
    w.begin_frame(300 * SECOND);
    assert!(w.wifi_drop_due());
    w.wifi_dropped(false);
    assert!(w.wifi_connected && w.face.wifi_connected);
    w.begin_frame(359 * SECOND);
    assert!(!w.wifi_drop_due());
    w.begin_frame(360 * SECOND);
    assert!(w.wifi_drop_due());
    w.wifi_dropped(true);
    assert!(!w.wifi_connected && !w.face.wifi_connected);
    assert!(!w.wifi_join_due());
    w.begin_frame(500 * SECOND);
    assert!(!w.wifi_drop_due());
}

#[test]
fn radio_is_joined_again_once_bright() {
    let mut w = idle_for(300);
    w.screen = Screen::Aod;
    assert!(w.wifi_drop_due());
    w.wifi_dropped(true);
    w.begin_frame(310 * SECOND);
    assert!(!w.wifi_join_due());
    w.wake(true, None, false, false);
    assert!(w.wifi_join_due());
    w.wifi_joined(false);
    assert!(!w.wifi_connected);
    w.begin_frame(314 * SECOND);
    assert!(!w.wifi_join_due());
    w.begin_frame(315 * SECOND);
    assert!(w.wifi_join_due());
    w.wifi_joined(true);
    assert!(w.wifi_connected && w.face.wifi_connected);
    assert!(!w.wifi_join_due());
}

#[test]
fn always_on_display_is_drawn_once_a_minute() {
    let mut w = idle_for(40);
    assert!(!w.aod_due(5));
    w.idle();
    assert!(w.aod_due(5));
    w.batt_mv = 3700;
    w.charging = true;
    w.aod_minute(DateTime::new(26, 4, 6, 9, 5, 30), Some(60));
    assert!(!w.aod_due(5));
    assert!(w.aod_due(6));
    assert_eq!((w.face.hours, w.face.minutes, w.face.seconds), (9, 5, 30));
    assert_eq!((w.face.battery_percent, w.face.battery_voltage), (60, 3700));
    assert!(w.face.is_charging);
    w.aod_minute(DateTime::new(26, 4, 6, 9, 6, 0), None);
    assert_eq!(w.face.battery_percent, 60);
    assert_eq!(w.face.minutes, 6);
}

#[test]
fn panel_settles_for_twenty_milliseconds() {
    assert_eq!(PANEL_SETTLE_MS, 20);
}
