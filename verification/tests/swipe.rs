use waveshare_watch::modes::{AppState, Page, Screen, SwipeDirection, TouchPoint};
use waveshare_watch::ntp::DateTime;
use waveshare_watch::swipe::{Release, Slide, Snapshot, Strip, TouchWork};
use waveshare_watch::watch::Watch;

const NONE: TouchWork =
    TouchWork { begin: None, slide: None, release: None, swipe: None, tap: false };

fn at(x: u16) -> Option<TouchPoint> {
    Some(TouchPoint { x, y: 100, fingers: 1 })
}

fn touch(w: &mut Watch, p: Option<TouchPoint>, e: Option<SwipeDirection>) -> TouchWork {
    w.touch(p, e, Page::Sensors, Page::System)
}

#[test]
fn drag_to_the_left_turns_to_the_next_page() {
    let mut w = Watch::new(0);
    w.page_dirty = false;
    assert_eq!(touch(&mut w, at(300), None), NONE);
    assert_eq!(touch(&mut w, at(270), None), NONE);
    assert!(!w.swiping);
    let work = touch(&mut w, at(269), None);
    assert_eq!(work.begin, Some(Page::Sensors));
    assert_eq!(work.slide, Some(Slide { dir: -1, offset: 30 }));
    assert!(w.swiping);
    let work = touch(&mut w, at(100), None);
    assert_eq!(work, TouchWork { slide: Some(Slide { dir: -1, offset: 200 }), ..NONE });
    let work = touch(&mut w, None, Some(SwipeDirection::Left));
    assert_eq!(work, TouchWork { release: Some(Release::Turn), ..NONE });
    assert_eq!(w.page, Page::Sensors);
    assert!(w.page_dirty);
    assert!(!w.swiping);
    assert_eq!(w.swipe_start_x, 0);
}

#[test]
fn drag_to_the_right_turns_to_the_previous_page() {
    let mut w = Watch::new(0);
    touch(&mut w, at(100), None);
    let work = touch(&mut w, at(200), None);
    assert_eq!(work.begin, Some(Page::System));
    assert_eq!(work.slide, Some(Slide { dir: 1, offset: 100 }));
    let work = touch(&mut w, None, Some(SwipeDirection::Right));
    assert_eq!(work.release, Some(Release::Turn));
    assert_eq!(w.page, Page::System);
}

#[test]
fn drag_that_is_not_confirmed_stays() {
    for gesture in [
        SwipeDirection::Right,
        SwipeDirection::Up,
        SwipeDirection::Tap,
        SwipeDirection::Other { code: 3 },
    ] {
        let mut w = Watch::new(0);
        w.page_dirty = false;
        touch(&mut w, at(300), None);
        touch(&mut w, at(200), None);
        let work = touch(&mut w, None, Some(gesture));
        assert_eq!(work, TouchWork { release: Some(Release::Stay), ..NONE });
        assert_eq!(w.page, Page::Clock);
        assert!(!w.page_dirty);
        assert!(!w.swiping);
    }
}

#[test]
fn slide_is_even_and_stays_on_the_screen() {
    let mut w = Watch::new(0);
    touch(&mut w, at(1), None);
    assert_eq!(touch(&mut w, at(102), None).slide, Some(Slide { dir: 1, offset: 100 }));
    // Pulled back behind the start: nothing to show.
    let mut v = w;
    v.swipe_start_x = 50;
    assert_eq!(touch(&mut v, at(40), None).slide, None);
    // A whole screen and more: nothing of the old page is left.
    assert_eq!(touch(&mut w, at(411), None).slide, None);
    assert_eq!(touch(&mut w, at(60000), None).slide, None);
    assert_eq!(touch(&mut w, at(410), None).slide, Some(Slide { dir: 1, offset: 408 }));
}

#[test]
fn gestures_without_a_drag_are_handed_on() {
    let mut w = Watch::new(0);
    let work = touch(&mut w, at(200), Some(SwipeDirection::Tap));
    assert_eq!(work, TouchWork { swipe: Some(SwipeDirection::Tap), tap: true, ..NONE });
    assert_eq!((w.last_touch_x, w.last_touch_y), (200, 100));
    assert_eq!(w.swipe_start_x, 0);
    let work = touch(&mut w, None, Some(SwipeDirection::Up));
    assert_eq!(work, TouchWork { swipe: Some(SwipeDirection::Up), ..NONE });
    assert_eq!(touch(&mut w, None, None), NONE);
}

#[test]
fn applications_get_every_gesture() {
    let mut w = Watch::new(0);
    w.app = AppState::Snake;
    assert_eq!(touch(&mut w, at(300), None), NONE);
    assert_eq!(touch(&mut w, at(10), None), NONE);
    assert!(!w.swiping);
    let work = touch(&mut w, at(20), Some(SwipeDirection::Left));
    assert_eq!(work, TouchWork { swipe: Some(SwipeDirection::Left), ..NONE });
    assert_eq!(w.page, Page::Clock);
    assert_eq!(w.last_touch_x, 20);
}

#[test]
fn unknown_gestures_are_told_apart() {
    let mut w = Watch::new(0);
    w.app = AppState::Game2048;
    for code in [0, 1, 255] {
        let gesture = SwipeDirection::Other { code };
        assert_eq!(touch(&mut w, None, Some(gesture)).swipe, Some(gesture));
    }
}

#[test]
fn preview_shows_time_and_battery() {
    let mut w = Watch::new(0);
    w.battery_read(Some(80), Some(4000), Some(true));
    w.clock_read(Some(DateTime::new(27, 5, 9, 1, 1, 1)));
    let face = w.preview_face(Some(DateTime::new(27, 5, 9, 10, 20, 30)));
    assert_eq!((face.hours, face.minutes, face.seconds), (10, 20, 30));
    assert_eq!((face.day, face.month, face.year), (6, 4, 26));
    assert_eq!((face.battery_percent, face.battery_voltage), (80, 4000));
    assert!(face.is_charging && face.full_redraw);
    assert!(!face.wifi_connected && !face.gyro_enabled);
    let face = w.preview_face(None);
    assert_eq!((face.hours, face.minutes, face.seconds), (0, 0, 0));
    assert_eq!(face.battery_percent, 80);
    assert!(face.full_redraw);
}

#[test]
fn touch_controller_is_asked_once_more_after_the_finger_lifts() {
    let mut w = Watch::new(0);
    assert!(!w.touch_due(false));
    assert!(w.touch_due(true));
    assert!(w.touch_due(true));
    assert!(w.touch_due(false));
    assert!(!w.touch_due(false));
    w.screen = Screen::Aod;
    assert!(!w.touch_due(true));
    assert!(w.was_touching);
}

#[test]
fn strips_of_a_slide_to_the_left() {
    let (left, right) = Slide { dir: -1, offset: 100 }.strips();
    assert_eq!(left, Strip { screen_x: 0, width: 310, from: Snapshot::Current, from_x: 100 });
    assert_eq!(right, Strip { screen_x: 310, width: 100, from: Snapshot::Target, from_x: 0 });
    assert_eq!(left.row_range(0), (100, 410));
    assert_eq!(right.row_range(501), (501 * 410, 501 * 410 + 100));
}

#[test]
fn strips_of_a_slide_to_the_right() {
    let (left, right) = Slide { dir: 1, offset: 100 }.strips();
    assert_eq!(left, Strip { screen_x: 0, width: 100, from: Snapshot::Target, from_x: 310 });
    assert_eq!(right, Strip { screen_x: 100, width: 310, from: Snapshot::Current, from_x: 0 });
    assert_eq!(left.row_range(501), (501 * 410 + 310, 502 * 410));
    assert_eq!(right.row_range(1), (410, 720));
}

#[test]
fn slides_show_every_column_once() {
    for dir in [-1, 1] {
        for offset in [2, 100, 408] {
            let (a, b) = Slide { dir, offset }.strips();
            assert_eq!(a.screen_x, 0);
            assert_eq!(b.screen_x, a.width);
            assert_eq!(a.width + b.width, 410);
            let (current, target) = if dir < 0 { (a, b) } else { (b, a) };
            assert_eq!(current.from, Snapshot::Current);
            assert_eq!(target.from, Snapshot::Target);
            assert_eq!(a.from_x + a.width, 410);
            assert_eq!(b.from_x, 0);
        }
    }
}
