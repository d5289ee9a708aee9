//! Laws of the touch panel.

use vstd::prelude::*;

use crate::modes::{AppState, Page, Screen, SwipeDirection, TouchPoint};
use crate::ntp::DateTime;
use crate::swipe::{Release, Slide, Snapshot, Strip, TouchWork};
use crate::watch::Watch;
use crate::watchface::WatchFace;

verus! {

/// The picture and its column that a strip shows at a column of the screen.
pub open spec fn strip_shows(s: Strip, c: int, from: Snapshot, column: int) -> bool {
    s.screen_x <= c && c < s.screen_x + s.width && s.from == from && s.from_x + (c - s.screen_x)
        == column
}

/// Dragging to the left by some pixels moves the picture of the page that many columns to the
/// left, and its neighbour comes in from the right edge; dragging to the right does the opposite.
/// Every column of the screen is covered by one of the two strips.
pub proof fn law_pictures_slide(slide: &Slide, strips: (Strip, Strip), c: int)
    requires
        slide.wf(),
        call_ensures(Slide::strips, (slide,), strips),
        0 <= c < 410,
    ensures
        strips.0.screen_x == 0,
        strips.1.screen_x == strips.0.width,
        strips.0.width + strips.1.width == 410,
        slide.dir == -1 && c < 410 - slide.offset ==> strip_shows(
            strips.0,
            c,
            Snapshot::Current,
            c + slide.offset,
        ),
        slide.dir == -1 && c >= 410 - slide.offset ==> strip_shows(
            strips.1,
            c,
            Snapshot::Target,
            c - (410 - slide.offset),
        ),
        slide.dir == 1 && c < slide.offset ==> strip_shows(
            strips.0,
            c,
            Snapshot::Target,
            c + (410 - slide.offset),
        ),
        slide.dir == 1 && c >= slide.offset ==> strip_shows(
            strips.1,
            c,
            Snapshot::Current,
            c - slide.offset,
        ),
{
}

/// A row of a strip is as many pixels as the strip is wide, from its first column on, in a picture
/// that is stored row by row with 410 pixels each.
pub proof fn law_rows_of_a_strip(strip: &Strip, row: u16, r: (usize, usize))
    requires
        call_ensures(Strip::row_range, (strip, row), r),
    ensures
        r.0 == 410 * row + strip.from_x,
        r.1 - r.0 == strip.width,
        r.1 <= 410 * 502,
{
    assert(row * 410 == 410 * row);
}

/// The touch controller is asked on an interactive screen, while a finger is down and once more
/// after it was lifted; whether one is down is kept for the next frame.
pub proof fn law_touch_due(w: &mut Watch, touch_low: bool, due: bool)
    requires
        call_ensures(Watch::touch_due, (w, touch_low), due),
    ensures
        due <==> (old(w).screen == Screen::Bright || old(w).screen == Screen::Dim) && (touch_low
            || old(w).was_touching),
        *final(w) == (Watch { was_touching: touch_low, ..*old(w) }),
{
}

/// Where the report has a finger, its place is kept.
pub open spec fn place_kept(before: Watch, after: Watch, point: Option<TouchPoint>) -> bool {
    match point {
        Some(p) => after.last_touch_x == p.x && after.last_touch_y == p.y,
        None => after.last_touch_x == before.last_touch_x && after.last_touch_y
            == before.last_touch_y,
    }
}

/// A gesture that is handed on is the one that was reported, and it counts as a tap exactly where
/// it is one.
pub proof fn law_taps_are_handed_on(
    w: &mut Watch,
    point: Option<TouchPoint>,
    event: Option<SwipeDirection>,
    next: Page,
    prev: Page,
    work: TouchWork,
)
    requires
        call_ensures(Watch::touch, (w, point, event, next, prev), work),
    ensures
        work.tap <==> work.swipe == Some(SwipeDirection::Tap),
        work.swipe is Some ==> work.swipe == event,
{
}

/// In an application every gesture is handed on, no page is dragged, and nothing but the finger's
/// place is kept.
pub proof fn law_touch_in_application(
    w: &mut Watch,
    point: Option<TouchPoint>,
    event: Option<SwipeDirection>,
    next: Page,
    prev: Page,
    work: TouchWork,
)
    requires
        old(w).app != AppState::Watchface,
        call_ensures(Watch::touch, (w, point, event, next, prev), work),
    ensures
        work.swipe == event,
        work.tap <==> event == Some(SwipeDirection::Tap),
        work.begin is None && work.slide is None && work.release is None,
        place_kept(*old(w), *final(w), point),
        *final(w) == (Watch {
            last_touch_x: final(w).last_touch_x,
            last_touch_y: final(w).last_touch_y,
            ..*old(w)
        }),
{
}

/// Whether a finger begins a drag: it came down somewhere else, more than 30 pixels away, and no
/// drag is under way.
pub open spec fn drag_starts(w: Watch, point: Option<TouchPoint>) -> bool {
    point matches Some(p) && !w.swiping && w.swipe_start_x != 0 && (p.x - w.swipe_start_x > 30
        || w.swipe_start_x - p.x > 30)
}

/// Whether a drag, under way or beginning with this finger, goes to the left.
pub open spec fn drags_left(w: Watch, point: Option<TouchPoint>) -> bool {
    if drag_starts(w, point) {
        point->0.x < w.swipe_start_x
    } else {
        w.swipe_dir == -1
    }
}

/// On the watch face, a gesture ends a drag that is under way: one to the side of the drag turns
/// the page, to the next one on the left and to the previous one on the right, and any other
/// leaves it. Without a drag the gesture is handed on.
pub proof fn law_touch_on_watch_face(
    w: &mut Watch,
    point: Option<TouchPoint>,
    event: Option<SwipeDirection>,
    next: Page,
    prev: Page,
    work: TouchWork,
)
    requires
        old(w).wf(),
        old(w).app == AppState::Watchface,
        call_ensures(Watch::touch, (w, point, event, next, prev), work),
    ensures
        ({
            let starts = drag_starts(*old(w), point);
            let drags = old(w).swiping || starts;
            let left = drags_left(*old(w), point);
            let turns = drags && ((left && event == Some(SwipeDirection::Left)) || (!left && event
                == Some(SwipeDirection::Right)));
            let neighbour = if left {
                next
            } else {
                prev
            };
            &&& work.begin == (if starts {
                Some(neighbour)
            } else {
                None
            })
            &&& work.swipe == (if drags {
                None
            } else {
                event
            })
            &&& work.tap <==> !drags && event == Some(SwipeDirection::Tap)
            &&& work.release is Some <==> drags && event is Some
            &&& work.release == Some(Release::Turn) <==> turns
            &&& work.release == Some(Release::Stay) <==> drags && event is Some && !turns
            &&& final(w).page == (if turns {
                neighbour
            } else {
                old(w).page
            })
            &&& final(w).page_dirty <==> turns || old(w).page_dirty
            &&& final(w).swiping <==> drags && event is None
            &&& final(w).swipe_dir == (if starts {
                if left {
                    -1i32
                } else {
                    1i32
                }
            } else {
                old(w).swipe_dir
            })
            &&& event is Some ==> final(w).swipe_start_x == 0
            &&& event is None && point is Some && !old(w).swiping && old(w).swipe_start_x == 0
                ==> final(w).swipe_start_x == point->0.x
            &&& event is None && !(point is Some && !old(w).swiping && old(w).swipe_start_x == 0)
                ==> final(w).swipe_start_x == old(w).swipe_start_x
        }),
        place_kept(*old(w), *final(w), point),
        *final(w) == (Watch {
            last_touch_x: final(w).last_touch_x,
            last_touch_y: final(w).last_touch_y,
            page: final(w).page,
            page_dirty: final(w).page_dirty,
            swiping: final(w).swiping,
            swipe_dir: final(w).swipe_dir,
            swipe_start_x: final(w).swipe_start_x,
            ..*old(w)
        }),
{
}

/// While a page is dragged, the pictures slide with the finger: by its way in the direction of the
/// drag, rounded down to an even number, as long as both pictures are to be seen.
pub proof fn law_slide_follows_finger(
    w: &mut Watch,
    point: Option<TouchPoint>,
    event: Option<SwipeDirection>,
    next: Page,
    prev: Page,
    work: TouchWork,
)
    requires
        old(w).wf(),
        old(w).app == AppState::Watchface,
        call_ensures(Watch::touch, (w, point, event, next, prev), work),
    ensures
        point is None ==> work.slide is None,
        point matches Some(p) ==> {
            let left = drags_left(*old(w), point);
            let way = if left {
                old(w).swipe_start_x - p.x
            } else {
                p.x - old(w).swipe_start_x
            };
            &&& work.slide is Some <==> (old(w).swiping || drag_starts(*old(w), point)) && 2 <= way
                < 410
            &&& work.slide matches Some(slide) ==> {
                &&& slide.dir == (if left {
                    -1i32
                } else {
                    1i32
                })
                &&& slide.offset % 2 == 0
                &&& slide.offset <= way < slide.offset + 2
            }
        },
{
}

/// The clock page that slides in is a new face with the last battery reading and, where it could
/// be read, the time, drawn from scratch.
pub proof fn law_clock_page_slides_in(
    w: &Watch,
    time: Option<DateTime>,
    face: WatchFace,
    fresh: WatchFace,
)
    requires
        call_ensures(Watch::preview_face, (w, time), face),
        call_ensures(WatchFace::new, (), fresh),
    ensures
        face.full_redraw,
        face.battery_percent == w.batt_pct && face.battery_voltage == w.batt_mv,
        face.is_charging == w.charging,
        time matches Some(t) ==> face.hours == t.hours && face.minutes == t.minutes
            && face.seconds == t.seconds,
        time is None ==> face.hours == fresh.hours && face.minutes == fresh.minutes
            && face.seconds == fresh.seconds && !face.time_changed,
        face == (WatchFace {
            hours: face.hours,
            minutes: face.minutes,
            seconds: face.seconds,
            time_changed: face.time_changed,
            battery_percent: w.batt_pct,
            battery_voltage: w.batt_mv,
            is_charging: w.charging,
            battery_changed: face.battery_changed,
            full_redraw: true,
            ..fresh
        }),
{
}

/// A finger comes down, moves more than 30 pixels to one side, and is lifted with a gesture to that
/// side: the page turns to its neighbour on the other side. With any other gesture it stays.
pub proof fn law_drag_turns_page(
    down: &mut Watch,
    moved: &mut Watch,
    lifted: &mut Watch,
    from: TouchPoint,
    to: TouchPoint,
    gesture: SwipeDirection,
    next: Page,
    prev: Page,
    work: (TouchWork, TouchWork, TouchWork),
)
    requires
        old(down).wf(),
        old(down).app == AppState::Watchface,
        !old(down).swiping,
        old(down).swipe_start_x == 0,
        from.x > 0,
        to.x - from.x > 30 || from.x - to.x > 30,
        call_ensures(Watch::touch, (down, Some(from), None, next, prev), work.0),
        *old(moved) == *final(down),
        call_ensures(Watch::touch, (moved, Some(to), None, next, prev), work.1),
        *old(lifted) == *final(moved),
        call_ensures(Watch::touch, (lifted, None, Some(gesture), next, prev), work.2),
    ensures
        work.0.begin is None && work.0.slide is None,
        work.1.begin == Some(
            if to.x < from.x {
                next
            } else {
                prev
            },
        ),
        work.2.swipe is None && !work.2.tap,
        to.x < from.x && gesture == SwipeDirection::Left ==> final(lifted).page == next
            && work.2.release == Some(Release::Turn),
        to.x > from.x && gesture == SwipeDirection::Right ==> final(lifted).page == prev
            && work.2.release == Some(Release::Turn),
        !(to.x < from.x && gesture == SwipeDirection::Left) && !(to.x > from.x && gesture
            == SwipeDirection::Right) ==> final(lifted).page == old(down).page
            && work.2.release == Some(Release::Stay),
        !final(lifted).swiping && final(lifted).swipe_start_x == 0,
{
    law_touch_on_watch_face(down, Some(from), None, next, prev, work.0);
    law_touch_on_watch_face(moved, Some(to), None, next, prev, work.1);
    law_touch_on_watch_face(lifted, None, Some(gesture), next, prev, work.2);
}

} // verus!
