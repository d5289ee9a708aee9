//! The touch panel: dragging from page to page, and the gestures that are handed on.
//!
//! A drag begins once the finger has moved more than thirty pixels. From then on the picture of
//! the page and that of its neighbour slide across the screen together, until the finger is
//! lifted. Only a gesture in the direction of the drag turns the page.

use vstd::prelude::*;

use crate::board::{LCD_HEIGHT, LCD_WIDTH};
use crate::modes::{AppState, Page, SwipeDirection, TouchPoint};
use crate::ntp::DateTime;
use crate::region::{max_of, min_of};
use crate::watch::Watch;
use crate::watchface::{distance, WatchFace};

verus! {

/// How far a finger may move without dragging the page.
pub const DRAG_SLACK: i32 = 30;

/// The two pictures of a drag.
#[derive(Clone, Copy, Debug, PartialEq, Eq, Structural)]
pub enum Snapshot {
    /// The page that is being left.
    Current,
    /// The page that slides in.
    Target,
}

/// Columns of the screen that show columns of a picture, over the whole height.
#[derive(Clone, Copy, Debug, PartialEq, Eq, Structural)]
pub struct Strip {
    pub screen_x: u16,
    pub width: u16,
    pub from: Snapshot,
    pub from_x: u16,
}

/// How far the pictures have slid, in a direction of -1 (to the left) or 1 (to the right).
#[derive(Clone, Copy, Debug, PartialEq, Eq, Structural)]
pub struct Slide {
    pub dir: i32,
    pub offset: u16,
}

/// How a drag ends.
#[derive(Clone, Copy, Debug, PartialEq, Eq, Structural)]
pub enum Release {
    /// The page turns: the target picture stays.
    Turn,
    /// The page stays: the current picture comes back.
    Stay,
}

/// What a report of the touch panel asks for, in this order.
#[derive(Clone, Copy, Debug, PartialEq, Eq, Structural)]
pub struct TouchWork {
    /// Take a picture of the screen, draw this page and take a picture of it.
    pub begin: Option<Page>,
    /// Show the two pictures side by side.
    pub slide: Option<Slide>,
    /// End the drag.
    pub release: Option<Release>,
    /// The gesture to hand on.
    pub swipe: Option<SwipeDirection>,
    /// The gesture to hand on is a tap.
    pub tap: bool,
}

impl Slide {
    /// Something of both pictures is to be seen.
    pub open spec fn wf(self) -> bool {
        &&& self.dir == -1 || self.dir == 1
        &&& 0 < self.offset < LCD_WIDTH
    }

    /// The picture and its column that column `c` of the screen shows: the pictures stand next to
    /// each other, the target on the side it comes from, and the screen is a window on them.
    pub open spec fn source(self, c: int) -> (Snapshot, int) {
        if self.dir < 0 {
            if c + self.offset < LCD_WIDTH {
                (Snapshot::Current, c + self.offset)
            } else {
                (Snapshot::Target, c + self.offset - LCD_WIDTH)
            }
        } else {
            if c < self.offset {
                (Snapshot::Target, c + LCD_WIDTH - self.offset)
            } else {
                (Snapshot::Current, c - self.offset)
            }
        }
    }

    /// The left and the right strip of the screen.
    pub fn strips(&self) -> (s: (Strip, Strip))
        requires
            self.wf(),
        ensures
            s.0.screen_x == 0,
            s.1.screen_x == s.0.width,
            s.0.width + s.1.width == LCD_WIDTH,
            s.0.width > 0 && s.1.width > 0,
            s.0.wf() && s.1.wf(),
            (s.0.from, s.0.from_x as int) == self.source(0),
            (s.1.from, s.1.from_x as int) == self.source(s.0.width as int),
            s.0.from != s.1.from,
            self.source(s.0.width - 1).0 == s.0.from,
            forall|c: int|
                0 <= c < LCD_WIDTH ==> #[trigger] self.source(c) == (if s.0.shows(c) {
                    s.0.source(c)
                } else {
                    s.1.source(c)
                }),
    {
        if self.dir < 0 {
            (
                Strip {
                    screen_x: 0,
                    width: LCD_WIDTH - self.offset,
                    from: Snapshot::Current,
                    from_x: self.offset,
                },
                Strip {
                    screen_x: LCD_WIDTH - self.offset,
                    width: self.offset,
                    from: Snapshot::Target,
                    from_x: 0,
                },
            )
        } else {
            (
                Strip {
                    screen_x: 0,
                    width: self.offset,
                    from: Snapshot::Target,
                    from_x: LCD_WIDTH - self.offset,
                },
                Strip {
                    screen_x: self.offset,
                    width: LCD_WIDTH - self.offset,
                    from: Snapshot::Current,
                    from_x: 0,
                },
            )
        }
    }
}

impl Strip {
    /// The strip lies on the screen and in its picture.
    pub open spec fn wf(self) -> bool {
        self.screen_x + self.width <= LCD_WIDTH && self.from_x + self.width <= LCD_WIDTH
    }

    /// Whether a column of the screen belongs to the strip.
    pub open spec fn shows(self, c: int) -> bool {
        self.screen_x <= c < self.screen_x + self.width
    }

    /// The picture and its column that a column of the strip shows.
    pub open spec fn source(self, c: int) -> (Snapshot, int) {
        (self.from, c - self.screen_x + self.from_x)
    }

    /// The pixels of the picture that the strip shows in a row, as a half-open range of a picture
    /// stored row by row.
    pub fn row_range(&self, row: u16) -> (r: (usize, usize))
        requires
            self.wf(),
            row < LCD_HEIGHT,
        ensures
            r.0 == row * LCD_WIDTH + self.from_x,
            r.1 == r.0 + self.width,
            r.1 <= LCD_WIDTH * LCD_HEIGHT,
    {
        assert(row * 410 <= 501 * 410) by (nonlinear_arith)
            requires
                row <= 501,
        ;
        let start: usize = row as usize * 410 + self.from_x as usize;
        (start, start + self.width as usize)
    }
}

impl Watch {
    /// Whether the touch controller is to be asked, a finger being down or not.
    pub open spec fn touch_wanted(self, touch_low: bool) -> bool {
        self.screen.interactive() && (touch_low || self.was_touching)
    }

    /// Whether a finger at column `x` begins a drag.
    pub open spec fn drag_begins(self, x: int) -> bool {
        !self.swiping && self.swipe_start_x != 0 && distance(x, self.swipe_start_x as int)
            > DRAG_SLACK
    }

    /// The watch after a finger was seen at a place. On the watch face, the first place is where
    /// a drag is measured from.
    pub open spec fn pointed(self, p: TouchPoint) -> Watch {
        let seen = Watch { last_touch_x: p.x, last_touch_y: p.y, ..self };
        if self.app != AppState::Watchface || self.swiping {
            seen
        } else if self.swipe_start_x == 0 {
            Watch { swipe_start_x: p.x as i32, ..seen }
        } else if self.drag_begins(p.x as int) {
            Watch {
                swiping: true,
                swipe_dir: if p.x < self.swipe_start_x {
                    -1i32
                } else {
                    1i32
                },
                ..seen
            }
        } else {
            seen
        }
    }

    /// How far the pictures have slid with the finger at column `x`: its way in the direction of
    /// the drag, at most a screen's width, rounded down to an even number.
    pub open spec fn slid(self, x: int) -> int {
        let way = if self.swipe_dir < 0 {
            self.swipe_start_x - x
        } else {
            x - self.swipe_start_x
        };
        let kept = max_of(0, min_of(way, LCD_WIDTH as int));
        kept - kept % 2
    }

    /// Whether a gesture goes the way of the drag.
    pub open spec fn confirms(self, gesture: SwipeDirection) -> bool {
        (gesture == SwipeDirection::Left && self.swipe_dir == -1) || (gesture
            == SwipeDirection::Right && self.swipe_dir == 1)
    }

    /// The watch after a gesture ended, `next` and `prev` being the neighbours of its page.
    pub open spec fn gestured(self, gesture: SwipeDirection, next: Page, prev: Page) -> Watch {
        if self.app != AppState::Watchface {
            self
        } else if self.swiping && self.confirms(gesture) {
            Watch {
                swipe_start_x: 0,
                swiping: false,
                page_dirty: true,
                page: if self.swipe_dir < 0 {
                    next
                } else {
                    prev
                },
                ..self
            }
        } else {
            Watch { swipe_start_x: 0, swiping: false, ..self }
        }
    }

    /// The watch after a report of the touch panel.
    pub open spec fn touched(
        self,
        point: Option<TouchPoint>,
        event: Option<SwipeDirection>,
        next: Page,
        prev: Page,
    ) -> Watch {
        let w = match point {
            Some(p) => self.pointed(p),
            None => self,
        };
        match event {
            Some(g) => w.gestured(g, next, prev),
            None => w,
        }
    }

    /// What a report of the touch panel asks for.
    pub open spec fn touch_work(
        self,
        point: Option<TouchPoint>,
        event: Option<SwipeDirection>,
        next: Page,
        prev: Page,
    ) -> TouchWork {
        let on_face = self.app == AppState::Watchface;
        let w = match point {
            Some(p) => self.pointed(p),
            None => self,
        };
        TouchWork {
            begin: if on_face && point is Some && self.drag_begins(point->0.x as int) {
                Some(
                    if w.swipe_dir < 0 {
                        next
                    } else {
                        prev
                    },
                )
            } else {
                None
            },
            slide: if on_face && point is Some && w.swiping && 0 < w.slid(point->0.x as int)
                < LCD_WIDTH {
                Some(Slide { dir: w.swipe_dir, offset: w.slid(point->0.x as int) as u16 })
            } else {
                None
            },
            release: if on_face && event is Some && w.swiping {
                Some(
                    if w.confirms(event->0) {
                        Release::Turn
                    } else {
                        Release::Stay
                    },
                )
            } else {
                None
            },
            swipe: if on_face && w.swiping {
                None
            } else {
                event
            },
            tap: !(on_face && w.swiping) && event == Some(SwipeDirection::Tap),
        }
    }

    /// Whether the touch controller is to be asked: while a finger is down, and once more after
    /// it was lifted.
    pub fn touch_due(&mut self, touch_low: bool) -> (due: bool)
        ensures
            due == old(self).touch_wanted(touch_low),
            *final(self) == (Watch { was_touching: touch_low, ..*old(self) }),
    {
        let due = self.screen.is_interactive() && (touch_low || self.was_touching);
        self.was_touching = touch_low;
        due
    }

    /// The clock page as it slides in: a fresh face with the time, where it could be read, and the
    /// last battery reading.
    pub fn preview_face(&self, time: Option<DateTime>) -> (face: WatchFace)
        ensures
            face == (match time {
                Some(t) => WatchFace::fresh().with_time(t.hours, t.minutes, t.seconds),
                None => WatchFace::fresh(),
            }).with_battery(self.batt_pct, self.batt_mv, self.charging).redrawn(),
            face.wf(),
    {
        let mut face = WatchFace::new();
        if let Some(t) = time {
            face.update_time(t.hours, t.minutes, t.seconds);
        }
        face.update_battery(self.batt_pct, self.batt_mv, self.charging);
        face.force_redraw();
        face
    }

    fn point(&mut self, p: TouchPoint) -> (begins: bool)
        requires
            old(self).wf(),
        ensures
            *final(self) == old(self).pointed(p),
            final(self).wf(),
            begins == (old(self).app == AppState::Watchface && old(self).drag_begins(p.x as int)),
    {
        self.last_touch_x = p.x;
        self.last_touch_y = p.y;
        if self.app != AppState::Watchface || self.swiping {
            return false;
        }
        if self.swipe_start_x == 0 {
            self.swipe_start_x = p.x as i32;
            return false;
        }
        let dx: i32 = p.x as i32 - self.swipe_start_x;
        if dx > DRAG_SLACK || dx < -DRAG_SLACK {
            self.swipe_dir = if dx < 0 {
                -1
            } else {
                1
            };
            self.swiping = true;
            return true;
        }
        false
    }

    fn slide_offset(&self, x: u16) -> (offset: u16)
        requires
            self.wf(),
            self.swiping,
        ensures
            offset == self.slid(x as int),
            offset <= LCD_WIDTH,
    {
        let dx: i32 = x as i32 - self.swipe_start_x;
        let way: i32 = if self.swipe_dir < 0 {
            -dx
        } else {
            dx
        };
        let kept: i32 = if way < 0 {
            0
        } else if way > LCD_WIDTH as i32 {
            LCD_WIDTH as i32
        } else {
            way
        };
        (kept - kept % 2) as u16
    }

    /// Takes a report of the touch panel, `next` and `prev` being the neighbours of the page.
    #[verifier::rlimit(30)]
    pub fn touch(
        &mut self,
        point: Option<TouchPoint>,
        event: Option<SwipeDirection>,
        next: Page,
        prev: Page,
    ) -> (work: TouchWork)
        requires
            old(self).wf(),
            old(self).screen.interactive(),
        ensures
            *final(self) == old(self).touched(point, event, next, prev),
            work == old(self).touch_work(point, event, next, prev),
            work.slide matches Some(s) ==> s.wf(),
            final(self).wf(),
    {
        let on_face = self.app == AppState::Watchface;
        let mut work = TouchWork {
            begin: None,
            slide: None,
            release: None,
            swipe: None,
            tap: false,
        };
        if let Some(p) = point {
            let begins = self.point(p);
            if begins {
                work.begin = Some(
                    if self.swipe_dir < 0 {
                        next
                    } else {
                        prev
                    },
                );
            }
            if on_face && self.swiping {
                let offset: u16 = self.slide_offset(p.x);
                if offset > 0 && offset < LCD_WIDTH {
                    work.slide = Some(Slide { dir: self.swipe_dir, offset });
                }
            }
        }
        if let Some(gesture) = event {
            if on_face {
                self.swipe_start_x = 0;
            }
            if on_face && self.swiping {
                self.swiping = false;
                let confirmed = (gesture == SwipeDirection::Left && self.swipe_dir == -1) || (
                gesture == SwipeDirection::Right && self.swipe_dir == 1);
                if confirmed {
                    self.page = if self.swipe_dir < 0 {
                        next
                    } else {
                        prev
                    };
                    self.page_dirty = true;
                    work.release = Some(Release::Turn);
                } else {
                    work.release = Some(Release::Stay);
                }
            } else {
                work.swipe = Some(gesture);
                work.tap = gesture == SwipeDirection::Tap;
            }
        }
        work
    }
}

/// A finger that was down and is lifted is still asked about once, so that the end of its gesture
/// is never missed; after that the controller is left alone until the next touch.
pub proof fn law_lift_is_seen(w: Watch)
    requires
        w.screen.interactive(),
    ensures
        (Watch { was_touching: true, ..w }).touch_wanted(false),
        !(Watch { was_touching: false, ..w }).touch_wanted(false),
{
}

/// The pictures slide by whole pixels and in step: next to each other on the screen stand columns
/// that are next to each other in a picture, except where one picture ends and the other begins.
pub proof fn law_slide_is_continuous(s: Slide, c: int)
    requires
        s.wf(),
        0 <= c,
        c + 1 < LCD_WIDTH,
    ensures
        0 <= s.source(c).1 < LCD_WIDTH,
        s.source(c + 1).0 == s.source(c).0 ==> s.source(c + 1).1 == s.source(c).1 + 1,
        s.source(c + 1).0 != s.source(c).0 ==> s.source(c).1 == LCD_WIDTH - 1 && s.source(c + 1).1
            == 0,
{
}

/// A page turns only where a drag was under way and the gesture went its way; a tap never turns
/// the page.
pub proof fn law_page_turns_only_when_confirmed(
    w: Watch,
    point: Option<TouchPoint>,
    event: Option<SwipeDirection>,
    next: Page,
    prev: Page,
)
    ensures
        w.touched(point, event, next, prev).page != w.page ==> w.touch_work(
            point,
            event,
            next,
            prev,
        ).release == Some(Release::Turn),
        event is None || event->0 == SwipeDirection::Tap ==> w.touched(
            point,
            event,
            next,
            prev,
        ).page == w.page,
{
}

/// Every gesture is used once: it ends a drag or it is handed on, never both.
pub proof fn law_gesture_used_once(
    w: Watch,
    point: Option<TouchPoint>,
    gesture: SwipeDirection,
    next: Page,
    prev: Page,
)
    ensures
        ({
            let work = w.touch_work(point, Some(gesture), next, prev);
            work.release is Some <==> work.swipe is None
        }),
{
}

/// A lifted finger ends every drag, so that none stays stuck halfway.
pub proof fn law_gesture_ends_drag(
    w: Watch,
    point: Option<TouchPoint>,
    gesture: SwipeDirection,
    next: Page,
    prev: Page,
)
    requires
        w.app == AppState::Watchface,
    ensures
        !w.touched(point, Some(gesture), next, prev).swiping,
        w.touched(point, Some(gesture), next, prev).swipe_start_x == 0,
{
}

} // verus!
