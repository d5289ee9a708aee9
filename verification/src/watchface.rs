//! The watch face: the clock page with time, date, battery and the gyroscope ball.
//!
//! The face keeps what it shows and which parts of it are out of date. Rendering is split in two:
//! a plan lists the drawing steps, and `render` or `render_aod` takes how they were carried out
//! and brings the face up to date.

use vstd::prelude::*;

use crate::board::{LCD_HEIGHT, LCD_WIDTH};
use crate::draw::{put, put_text, shown, Color, Draw, DrawCommand, DrawFailure, DrawView};
use crate::region::{law_union_spans, low16, max_of, min_of, FlushRegion};
use crate::text::{battery_text, date_text, fmt_bat_short, fmt_batt, fmt_date_fr, percent_text};

verus! {

/// Column of the screen's middle.
pub const SCREEN_CX: i32 = (LCD_WIDTH / 2) as i32;

pub const TIME_Y: i32 = 60;

pub const TIME_DW: i32 = 36;

pub const TIME_DH: i32 = 64;

pub const TIME_GAP: i32 = 6;

pub const TIME_CW: i32 = 14;

/// Width of six digits, two colons and the gaps between them.
pub const TIME_TOTAL_W: i32 = 6 * TIME_DW + 2 * TIME_CW + 7 * TIME_GAP;

pub const TIME_PAD: i32 = 4;

pub const BATTERY_Y: i32 = 175;

pub const BATTERY_PAD_Y: i32 = 4;

pub const BATTERY_REGION_W: i32 = 240;

pub const BATTERY_REGION_H: i32 = 92;

/// Width of the battery bar's frame.
pub const BATTERY_BAR_W: i32 = 200;

/// Height of the battery bar's frame.
pub const BATTERY_BAR_H: i32 = 20;

/// Column of the middle of the always-on display's battery charge, before it wanders.
pub const AOD_BATTERY_X: i32 = 340;

/// Row of the baseline of the always-on display's battery charge, before it wanders.
pub const AOD_BATTERY_Y: i32 = 450;

/// Width of a character of the font.
pub const FONT_W: i32 = 10;

/// Height of a character of the font.
pub const FONT_H: i32 = 20;

/// Rows of a character of the font above its baseline.
pub const FONT_BASELINE: i32 = 15;

pub const GYRO_CX: i32 = 205;

pub const GYRO_CY: i32 = 370;

pub const GYRO_R: i32 = 50;

pub const BALL_R: i32 = 8;

/// Side of the square that stands for the ball.
pub const BALL_SIDE: u32 = 16;

/// How far the ball can stand from the middle of its circle in either direction.
pub const BALL_RANGE: i32 = GYRO_R - BALL_R - 4;

pub const GYRO_FLUSH_PAD: i32 = 2;

/// What a rendering changed on the screen: everything, or the listed regions.
#[derive(Clone, Copy, Debug, PartialEq, Eq, Structural)]
pub struct RenderOutcome {
    pub full_redraw: bool,
    pub time_region: Option<FlushRegion>,
    pub battery_region: Option<FlushRegion>,
    pub gyro_region: Option<FlushRegion>,
}

impl RenderOutcome {
    /// Nothing was drawn.
    pub open spec fn nothing() -> RenderOutcome {
        RenderOutcome {
            full_redraw: false,
            time_region: None,
            battery_region: None,
            gyro_region: None,
        }
    }
}

impl Default for RenderOutcome {
    fn default() -> (r: Self)
        ensures
            r == RenderOutcome::nothing(),
    {
        RenderOutcome {
            full_redraw: false,
            time_region: None,
            battery_region: None,
            gyro_region: None,
        }
    }
}

/// The values that the clock page shows and the parts of it that are out of date.
#[derive(Clone, Copy, Debug)]
pub struct WatchFace {
    pub hours: u8,
    pub minutes: u8,
    pub seconds: u8,
    pub battery_percent: u8,
    pub battery_voltage: u16,
    pub is_charging: bool,
    /// Acceleration in hundredths of g.
    pub accel_x: i16,
    pub accel_y: i16,
    pub accel_z: i16,
    /// Where the ball was drawn last.
    pub prev_ball_x: i32,
    pub prev_ball_y: i32,
    pub day: u8,
    pub month: u8,
    pub year: u8,
    pub full_redraw: bool,
    pub time_changed: bool,
    pub battery_changed: bool,
    pub gyro_changed: bool,
    pub wifi_connected: bool,
    pub gyro_enabled: bool,
}

/// Quotient by 100, rounded towards zero.
pub open spec fn hundredth(n: int) -> int {
    if n >= 0 {
        n / 100
    } else {
        -((-n) / 100)
    }
}

/// `v`, or the nearer end of the range from `-bound` to `bound`.
pub open spec fn clamped(v: int, bound: int) -> int {
    if v < -bound {
        -bound
    } else if v > bound {
        bound
    } else {
        v
    }
}

/// Distance of two numbers.
pub open spec fn distance(a: int, b: int) -> int {
    if a >= b {
        a - b
    } else {
        b - a
    }
}

/// Where the ball belongs for an acceleration in hundredths of g: one g moves it over its whole
/// range, the y axis to the left and the x axis downwards.
pub open spec fn ball_position(accel_x: int, accel_y: int) -> (int, int) {
    (
        GYRO_CX + clamped(hundredth(-accel_y * BALL_RANGE), BALL_RANGE as int),
        GYRO_CY + clamped(hundredth(accel_x * BALL_RANGE), BALL_RANGE as int),
    )
}

/// The region that holds the time, with a border.
pub open spec fn time_area() -> FlushRegion {
    FlushRegion {
        x: (SCREEN_CX - TIME_TOTAL_W / 2 - TIME_PAD) as u16,
        y: (TIME_Y - TIME_PAD) as u16,
        w: (TIME_TOTAL_W + TIME_PAD * 2) as u16,
        h: (TIME_DH + TIME_PAD * 2) as u16,
    }
}

/// The region that holds the battery bar and its text, with a border.
pub open spec fn battery_area() -> FlushRegion {
    FlushRegion {
        x: (SCREEN_CX - BATTERY_REGION_W / 2) as u16,
        y: (BATTERY_Y - BATTERY_PAD_Y) as u16,
        w: BATTERY_REGION_W as u16,
        h: (BATTERY_REGION_H + BATTERY_PAD_Y * 2) as u16,
    }
}

/// The region that holds a ball at the given place, with a border.
pub open spec fn ball_area(x: int, y: int) -> FlushRegion {
    FlushRegion {
        x: low16(x - BALL_R - GYRO_FLUSH_PAD) as u16,
        y: low16(y - BALL_R - GYRO_FLUSH_PAD) as u16,
        w: (BALL_R * 2 + GYRO_FLUSH_PAD * 2) as u16,
        h: (BALL_R * 2 + GYRO_FLUSH_PAD * 2) as u16,
    }
}

/// A black rectangle over a region.
pub open spec fn erased(area: FlushRegion) -> DrawView {
    Draw::FillRect {
        x: area.x as i32,
        y: area.y as i32,
        w: area.w as u32,
        h: area.h as u32,
        color: Color::Black,
    }
}

/// A black screen.
pub open spec fn cleared_screen() -> DrawView {
    Draw::FillRect {
        x: 0,
        y: 0,
        w: LCD_WIDTH as u32,
        h: LCD_HEIGHT as u32,
        color: Color::Black,
    }
}

/// Width of the battery bar's filling: 194 pixels at 100 percent and above.
pub open spec fn bar_fill(pct: int) -> int {
    (if pct < 100 {
        pct
    } else {
        100
    }) * (BATTERY_BAR_W - 6) / 100
}

/// Colour of the battery bar's filling.
pub open spec fn bar_color(pct: int) -> Color {
    if pct > 50 {
        Color::Green
    } else if pct > 20 {
        Color::Yellow
    } else {
        Color::Red
    }
}

/// The square that stands for the ball.
pub open spec fn ball_square(x: int, y: int, color: Color) -> DrawView {
    Draw::FillRect {
        x: (x - BALL_R) as i32,
        y: (y - BALL_R) as i32,
        w: BALL_SIDE,
        h: BALL_SIDE,
        color,
    }
}

impl WatchFace {
    /// The ball was drawn inside its circle.
    pub open spec fn wf(self) -> bool {
        &&& distance(self.prev_ball_x as int, GYRO_CX as int) <= BALL_RANGE
        &&& distance(self.prev_ball_y as int, GYRO_CY as int) <= BALL_RANGE
    }

    /// The face with everything out of date.
    pub open spec fn redrawn(self) -> WatchFace {
        WatchFace { full_redraw: true, ..self }
    }

    /// Whether any part is out of date.
    pub open spec fn dirty(self) -> bool {
        self.full_redraw || self.time_changed || self.battery_changed || self.gyro_changed
    }

    /// Whether the ball belongs two pixels or more from where it was drawn.
    pub open spec fn ball_moved(self) -> bool {
        let (nx, ny) = ball_position(self.accel_x as int, self.accel_y as int);
        distance(nx, self.prev_ball_x as int) >= 2 || distance(ny, self.prev_ball_y as int) >= 2
    }

    /// The steps that move the ball: none where it has not moved.
    pub open spec fn ball_plan(self) -> Seq<DrawView> {
        let (nx, ny) = ball_position(self.accel_x as int, self.accel_y as int);
        if self.ball_moved() {
            seq![
                ball_square(self.prev_ball_x as int, self.prev_ball_y as int, Color::Black),
                ball_square(nx, ny, Color::Green),
            ]
        } else {
            Seq::empty()
        }
    }

    /// The face after the steps of [`WatchFace::ball_plan`].
    pub open spec fn ball_drawn(self) -> WatchFace {
        let (nx, ny) = ball_position(self.accel_x as int, self.accel_y as int);
        if self.ball_moved() {
            WatchFace { prev_ball_x: nx as i32, prev_ball_y: ny as i32, ..self }
        } else {
            self
        }
    }

    /// The region that moving the ball changes.
    pub open spec fn ball_dirt(self) -> Option<FlushRegion> {
        let (nx, ny) = ball_position(self.accel_x as int, self.accel_y as int);
        if self.ball_moved() {
            Some(
                ball_area(self.prev_ball_x as int, self.prev_ball_y as int).union_spec(
                    ball_area(nx, ny),
                ),
            )
        } else {
            None
        }
    }

    /// The steps that draw the battery around column `cx` at row `y`: a frame, its filling where
    /// there is any, and the text.
    pub open spec fn battery_plan(self, cx: int, y: int) -> Seq<DrawView> {
        let pct = self.battery_percent as int;
        let bx = cx - BATTERY_BAR_W / 2;
        let frame: DrawView = Draw::StrokeRoundedRect {
            x: bx as i32,
            y: y as i32,
            w: BATTERY_BAR_W as u32,
            h: BATTERY_BAR_H as u32,
            corner: 4,
            color: Color::White,
            stroke: 2,
        };
        let filling: DrawView = Draw::FillRect {
            x: (bx + 3) as i32,
            y: (y + 3) as i32,
            w: bar_fill(pct) as u32,
            h: (BATTERY_BAR_H - 6) as u32,
            color: bar_color(pct),
        };
        let label: DrawView = Draw::CenteredText {
            text: battery_text(self.battery_percent, self.is_charging),
            x: cx as i32,
            y: (y + BATTERY_BAR_H + 25) as i32,
            color: if self.is_charging {
                Color::Green
            } else {
                Color::White
            },
        };
        if bar_fill(pct) > 0 {
            seq![frame, filling, label]
        } else {
            seq![frame, label]
        }
    }

    /// The step that draws the time.
    pub open spec fn time_step(self) -> DrawView {
        Draw::Time {
            cx: SCREEN_CX,
            y: TIME_Y,
            hours: self.hours,
            minutes: self.minutes,
            seconds: self.seconds,
            color: Color::White,
            back: Color::Black,
        }
    }

    /// The steps of a full redraw up to the battery.
    pub open spec fn full_head(self) -> Seq<DrawView> {
        seq![
            cleared_screen(),
            Draw::FillCircle {
                x: 60,
                y: 14,
                diameter: 8,
                color: if self.wifi_connected {
                    Color::Green
                } else {
                    Color::Red
                },
            },
            Draw::CenteredText {
                text: seq!['R', 'U', 'S', 'T', ' ', 'W', 'A', 'T', 'C', 'H'],
                x: SCREEN_CX,
                y: 38,
                color: Color::Cyan,
            },
            self.time_step(),
            Draw::CenteredText {
                text: date_text(self.day, self.month, self.year),
                x: SCREEN_CX,
                y: 150,
                color: Color::CssGray,
            },
        ] + self.battery_plan(SCREEN_CX as int, BATTERY_Y as int)
    }

    /// The steps of a full redraw that prepare the gyroscope section, before the ball.
    pub open spec fn full_gyro(self) -> Seq<DrawView> {
        if self.gyro_enabled {
            seq![
                Draw::StrokeCircle {
                    x: (GYRO_CX - GYRO_R) as i32,
                    y: (GYRO_CY - GYRO_R) as i32,
                    diameter: (GYRO_R * 2) as u32,
                    color: Color::CssDarkGray,
                    stroke: 2,
                },
                Draw::CenteredText {
                    text: seq!['G', 'Y', 'R', 'O'],
                    x: GYRO_CX,
                    y: (GYRO_CY - GYRO_R - 10) as i32,
                    color: Color::CssGray,
                },
            ]
        } else {
            seq![
                Draw::CenteredText {
                    text: seq!['T', 'A', 'P', ' ', 'F', 'O', 'R', ' ', 'G', 'Y', 'R', 'O'],
                    x: GYRO_CX,
                    y: GYRO_CY,
                    color: Color::CssGray,
                },
            ]
        }
    }

    /// The steps of a full redraw that draw the ball.
    pub open spec fn full_ball(self) -> Seq<DrawView> {
        if self.gyro_enabled {
            self.ball_plan()
        } else {
            Seq::empty()
        }
    }

    /// The last step of a full redraw.
    pub open spec fn footer(self) -> DrawView {
        Draw::CenteredText {
            text: "100% Rust // ESP32-S3"@,
            x: SCREEN_CX,
            y: (LCD_HEIGHT - 15) as i32,
            color: Color::Yellow,
        }
    }

    /// The steps that redraw a changed time.
    pub open spec fn time_part(self) -> Seq<DrawView> {
        if self.time_changed {
            seq![erased(time_area()), self.time_step()]
        } else {
            Seq::empty()
        }
    }

    /// The steps that redraw a changed battery.
    pub open spec fn battery_part(self) -> Seq<DrawView> {
        if self.battery_changed {
            seq![erased(battery_area())] + self.battery_plan(SCREEN_CX as int, BATTERY_Y as int)
        } else {
            Seq::empty()
        }
    }

    /// The steps that redraw a moved ball, while the gyroscope is shown.
    pub open spec fn gyro_part(self) -> Seq<DrawView> {
        if self.gyro_changed && self.gyro_enabled {
            self.ball_plan()
        } else {
            Seq::empty()
        }
    }

    /// The steps that bring the screen up to date.
    pub open spec fn plan(self) -> Seq<DrawView> {
        if self.full_redraw {
            self.full_head() + self.full_gyro() + self.full_ball() + seq![self.footer()]
        } else {
            self.time_part() + self.battery_part() + self.gyro_part()
        }
    }

    /// The face after the first `drawn` steps of its plan, the step behind them having failed
    /// where there is one. A part counts as drawn once all of its steps are.
    pub open spec fn after_steps(self, drawn: int) -> WatchFace {
        if self.full_redraw {
            let ball_end = (self.full_head() + self.full_gyro() + self.full_ball()).len();
            let face = if self.gyro_enabled && drawn >= ball_end {
                self.ball_drawn()
            } else {
                self
            };
            if drawn >= self.plan().len() {
                WatchFace {
                    full_redraw: false,
                    time_changed: false,
                    battery_changed: false,
                    gyro_changed: false,
                    ..face
                }
            } else {
                face
            }
        } else {
            let time_done = drawn >= self.time_part().len();
            let battery_done = drawn >= (self.time_part() + self.battery_part()).len();
            let gyro_done = self.gyro_changed && self.gyro_enabled && drawn >= self.plan().len();
            let face = if gyro_done {
                self.ball_drawn()
            } else {
                self
            };
            WatchFace {
                time_changed: self.time_changed && !time_done,
                battery_changed: self.battery_changed && !battery_done,
                gyro_changed: self.gyro_changed && !gyro_done,
                ..face
            }
        }
    }

    /// What a rendering reports once its whole plan is drawn.
    pub open spec fn outcome(self) -> RenderOutcome {
        if self.full_redraw {
            RenderOutcome { full_redraw: true, ..RenderOutcome::nothing() }
        } else {
            RenderOutcome {
                full_redraw: false,
                time_region: if self.time_changed {
                    Some(time_area())
                } else {
                    None
                },
                battery_region: if self.battery_changed {
                    Some(battery_area())
                } else {
                    None
                },
                gyro_region: if self.gyro_changed && self.gyro_enabled {
                    self.ball_dirt()
                } else {
                    None
                },
            }
        }
    }

    /// How far the always-on display stands to the right of its middle position: it wanders with
    /// the minute, by up to four pixels either way.
    pub open spec fn aod_shift_x(self) -> int {
        self.minutes as int % 9 - 4
    }

    /// How far the always-on display stands below its middle position: it wanders with the
    /// minute, from four pixels above to three below.
    pub open spec fn aod_shift_y(self) -> int {
        self.minutes as int % 8 - 4
    }

    /// Column of the middle of the always-on display's time.
    pub open spec fn aod_cx(self) -> int {
        SCREEN_CX + self.aod_shift_x()
    }

    /// Row of the always-on display's time.
    pub open spec fn aod_cy(self) -> int {
        LCD_HEIGHT / 2 - 32 + self.aod_shift_y()
    }

    /// The steps of the always-on display: a black screen, hours and minutes in a dim white, and
    /// the battery charge in a darker grey in the bottom right corner. Both wander together.
    pub open spec fn aod_plan(self) -> Seq<DrawView> {
        seq![
            cleared_screen(),
            Draw::HoursMinutes {
                cx: self.aod_cx() as i32,
                y: self.aod_cy() as i32,
                hours: self.hours,
                minutes: self.minutes,
                color: Color::Rgb { r: 20, g: 40, b: 20 },
                back: Color::Black,
            },
            Draw::CenteredText {
                text: percent_text(self.battery_percent),
                x: (AOD_BATTERY_X + self.aod_shift_x()) as i32,
                y: (AOD_BATTERY_Y + self.aod_shift_y()) as i32,
                color: Color::Rgb { r: 8, g: 16, b: 8 },
            },
        ]
    }

    /// The face once the always-on display is drawn.
    pub open spec fn after_aod(self) -> WatchFace {
        WatchFace {
            full_redraw: true,
            time_changed: false,
            battery_changed: false,
            gyro_changed: false,
            ..self
        }
    }

    /// The face with the gyroscope shown where it was hidden, and hidden where it was shown.
    pub open spec fn toggled(self) -> WatchFace {
        WatchFace { gyro_enabled: !self.gyro_enabled, full_redraw: true, ..self }
    }

    /// The face as it starts: everything still to be drawn, the gyroscope hidden.
    pub open spec fn fresh() -> WatchFace {
        WatchFace {
            hours: 0,
            minutes: 0,
            seconds: 0,
            battery_percent: 0,
            battery_voltage: 0,
            is_charging: false,
            accel_x: 0,
            accel_y: 0,
            accel_z: 0,
            prev_ball_x: GYRO_CX,
            prev_ball_y: GYRO_CY,
            day: 6,
            month: 4,
            year: 26,
            full_redraw: true,
            time_changed: false,
            battery_changed: false,
            gyro_changed: false,
            wifi_connected: false,
            gyro_enabled: false,
        }
    }

    /// The face with a new time; it is out of date where the time differs.
    pub open spec fn with_time(self, h: u8, m: u8, s: u8) -> WatchFace {
        WatchFace {
            hours: h,
            minutes: m,
            seconds: s,
            time_changed: self.time_changed || (self.hours, self.minutes, self.seconds) != (
                h,
                m,
                s,
            ),
            ..self
        }
    }

    /// The face with a new date; a date alone puts nothing out of date.
    pub open spec fn with_date(self, day: u8, month: u8, year: u8) -> WatchFace {
        WatchFace { day, month, year, ..self }
    }

    /// The face with a new battery reading; it is out of date where the reading differs.
    pub open spec fn with_battery(self, pct: u8, mv: u16, chg: bool) -> WatchFace {
        WatchFace {
            battery_percent: pct,
            battery_voltage: mv,
            is_charging: chg,
            battery_changed: self.battery_changed || (
                self.battery_percent,
                self.battery_voltage,
                self.is_charging,
            ) != (pct, mv, chg),
            ..self
        }
    }

    /// The face with a new acceleration, out of date where that moves the ball.
    pub open spec fn with_accel(self, x: i16, y: i16, z: i16) -> WatchFace {
        let face = WatchFace { accel_x: x, accel_y: y, accel_z: z, ..self };
        WatchFace { gyro_changed: self.gyro_changed || face.ball_moved(), ..face }
    }

    pub fn new() -> (face: Self)
        ensures
            face == WatchFace::fresh(),
            face.wf(),
    {
        WatchFace {
            hours: 0,
            minutes: 0,
            seconds: 0,
            battery_percent: 0,
            battery_voltage: 0,
            is_charging: false,
            accel_x: 0,
            accel_y: 0,
            accel_z: 0,
            prev_ball_x: GYRO_CX,
            prev_ball_y: GYRO_CY,
            day: 6,
            month: 4,
            year: 26,
            full_redraw: true,
            time_changed: false,
            battery_changed: false,
            gyro_changed: false,
            wifi_connected: false,
            gyro_enabled: false,
        }
    }

    pub fn update_time(&mut self, h: u8, m: u8, s: u8)
        ensures
            *final(self) == old(self).with_time(h, m, s),
    {
        if self.hours != h || self.minutes != m || self.seconds != s {
            self.hours = h;
            self.minutes = m;
            self.seconds = s;
            self.time_changed = true;
        }
    }

    pub fn update_date(&mut self, day: u8, month: u8, year: u8)
        ensures
            *final(self) == old(self).with_date(day, month, year),
    {
        self.day = day;
        self.month = month;
        self.year = year;
    }

    pub fn update_battery(&mut self, pct: u8, mv: u16, chg: bool)
        ensures
            *final(self) == old(self).with_battery(pct, mv, chg),
    {
        if self.battery_percent != pct || self.battery_voltage != mv || self.is_charging != chg {
            self.battery_percent = pct;
            self.battery_voltage = mv;
            self.is_charging = chg;
            self.battery_changed = true;
        }
    }

    /// Takes an acceleration in hundredths of g.
    pub fn update_accel(&mut self, x: i16, y: i16, z: i16)
        requires
            old(self).wf(),
        ensures
            *final(self) == old(self).with_accel(x, y, z),
            final(self).wf(),
    {
        self.accel_x = x;
        self.accel_y = y;
        self.accel_z = z;
        if self.has_ball_moved() {
            self.gyro_changed = true;
        }
    }

    pub fn force_redraw(&mut self)
        ensures
            *final(self) == old(self).redrawn(),
    {
        self.full_redraw = true;
    }

    /// Shows or hides the gyroscope. Returns whether it is shown now.
    pub fn toggle_gyro(&mut self) -> (enabled: bool)
        ensures
            enabled == !old(self).gyro_enabled,
            *final(self) == old(self).toggled(),
    {
        self.gyro_enabled = !self.gyro_enabled;
        self.full_redraw = true;
        self.gyro_enabled
    }

    /// Whether a tap at row `y` falls on the gyroscope section.
    pub fn is_gyro_zone(y: u16) -> (b: bool)
        ensures
            b == (GYRO_CY - GYRO_R - 20 <= y <= GYRO_CY + GYRO_R + 20),
    {
        y as i32 >= GYRO_CY - GYRO_R - 20 && (y as i32) <= GYRO_CY + GYRO_R + 20
    }

    pub fn needs_render(&self) -> (b: bool)
        ensures
            b == self.dirty(),
    {
        self.full_redraw || self.time_changed || self.battery_changed || self.gyro_changed
    }

    /// Where the ball belongs for an acceleration in hundredths of g.
    pub fn projected_ball_position(accel_x: i16, accel_y: i16) -> (at: (i32, i32))
        ensures
            at.0 == ball_position(accel_x as int, accel_y as int).0,
            at.1 == ball_position(accel_x as int, accel_y as int).1,
            distance(at.0 as int, GYRO_CX as int) <= BALL_RANGE,
            distance(at.1 as int, GYRO_CY as int) <= BALL_RANGE,
    {
        proof {
            let ax = accel_x as int;
            let ay = -(accel_y as int);
            assert(ax * BALL_RANGE == ax * 38 && ay * BALL_RANGE == ay * 38) by (nonlinear_arith)
                requires
                    BALL_RANGE == 38,
            ;
        }
        let bx: i32 = clamp_to_range(-(accel_y as i32) * BALL_RANGE / 100);
        let by: i32 = clamp_to_range((accel_x as i32) * BALL_RANGE / 100);
        (GYRO_CX + bx, GYRO_CY + by)
    }

    fn has_ball_moved(&self) -> (b: bool)
        requires
            self.wf(),
        ensures
            b == self.ball_moved(),
    {
        let (nx, ny) = Self::projected_ball_position(self.accel_x, self.accel_y);
        let dx: i32 = nx - self.prev_ball_x;
        let dy: i32 = ny - self.prev_ball_y;
        dx >= 2 || dx <= -2 || dy >= 2 || dy <= -2
    }

    pub fn time_region() -> (r: FlushRegion)
        ensures
            r == time_area(),
    {
        FlushRegion::new(
            SCREEN_CX - TIME_TOTAL_W / 2 - TIME_PAD,
            TIME_Y - TIME_PAD,
            TIME_TOTAL_W + TIME_PAD * 2,
            TIME_DH + TIME_PAD * 2,
        )
    }

    pub fn battery_region() -> (r: FlushRegion)
        ensures
            r == battery_area(),
    {
        FlushRegion::new(
            SCREEN_CX - BATTERY_REGION_W / 2,
            BATTERY_Y - BATTERY_PAD_Y,
            BATTERY_REGION_W,
            BATTERY_REGION_H + BATTERY_PAD_Y * 2,
        )
    }

    /// The region around a ball at the given place.
    pub fn ball_region(x: i32, y: i32) -> (r: FlushRegion)
        requires
            x >= i32::MIN + BALL_R + GYRO_FLUSH_PAD,
            y >= i32::MIN + BALL_R + GYRO_FLUSH_PAD,
        ensures
            r == ball_area(x as int, y as int),
    {
        FlushRegion::new(
            x - BALL_R - GYRO_FLUSH_PAD,
            y - BALL_R - GYRO_FLUSH_PAD,
            BALL_R * 2 + GYRO_FLUSH_PAD * 2,
            BALL_R * 2 + GYRO_FLUSH_PAD * 2,
        )
    }

    fn battery_fill(&self) -> (w: i32)
        ensures
            w == bar_fill(self.battery_percent as int),
            0 <= w <= BATTERY_BAR_W - 6,
    {
        (self.battery_percent as i32).min(100) * (BATTERY_BAR_W - 6) / 100
    }

    /// Appends the steps that draw the battery around column `cx` at row `y`.
    pub fn draw_battery(&self, commands: &mut Vec<DrawCommand>, cx: i32, y: i32)
        requires
            cx >= i32::MIN + BATTERY_BAR_W / 2,
            y <= i32::MAX - BATTERY_BAR_H - 25,
        ensures
            shown(final(commands)@) == shown(old(commands)@) + self.battery_plan(
                cx as int,
                y as int,
            ),
    {
        let bx: i32 = cx - BATTERY_BAR_W / 2;
        put(
            commands,
            Draw::StrokeRoundedRect {
                x: bx,
                y,
                w: BATTERY_BAR_W as u32,
                h: BATTERY_BAR_H as u32,
                corner: 4,
                color: Color::White,
                stroke: 2,
            },
        );
        let fw: i32 = self.battery_fill();
        let fc = if self.battery_percent > 50 {
            Color::Green
        } else if self.battery_percent > 20 {
            Color::Yellow
        } else {
            Color::Red
        };
        if fw > 0 {
            put(
                commands,
                Draw::FillRect {
                    x: bx + 3,
                    y: y + 3,
                    w: fw as u32,
                    h: (BATTERY_BAR_H - 6) as u32,
                    color: fc,
                },
            );
        }
        let mut buf: [u8; 16] = [0u8; 16];
        let s = fmt_batt(&mut buf, self.battery_percent, self.is_charging);
        let color = if self.is_charging {
            Color::Green
        } else {
            Color::White
        };
        put_text(commands, s, cx, y + BATTERY_BAR_H + 25, color);
        assert(shown(commands@) =~= shown(old(commands)@) + self.battery_plan(
            cx as int,
            y as int,
        ));
    }

    /// Appends the steps that move the ball to where it belongs.
    pub fn draw_gyro_ball(&self, commands: &mut Vec<DrawCommand>)
        requires
            self.wf(),
        ensures
            shown(final(commands)@) == shown(old(commands)@) + self.ball_plan(),
    {
        if !self.has_ball_moved() {
            assert(shown(commands@) =~= shown(old(commands)@) + self.ball_plan());
            return ;
        }
        let (nx, ny) = Self::projected_ball_position(self.accel_x, self.accel_y);
        put(
            commands,
            Draw::FillRect {
                x: self.prev_ball_x - BALL_R,
                y: self.prev_ball_y - BALL_R,
                w: BALL_SIDE,
                h: BALL_SIDE,
                color: Color::Black,
            },
        );
        put(
            commands,
            Draw::FillRect {
                x: nx - BALL_R,
                y: ny - BALL_R,
                w: BALL_SIDE,
                h: BALL_SIDE,
                color: Color::Green,
            },
        );
        assert(shown(commands@) =~= shown(old(commands)@) + self.ball_plan());
    }

    fn put_time(&self, commands: &mut Vec<DrawCommand>)
        ensures
            shown(final(commands)@) == shown(old(commands)@).push(self.time_step()),
    {
        put(
            commands,
            Draw::Time {
                cx: SCREEN_CX,
                y: TIME_Y,
                hours: self.hours,
                minutes: self.minutes,
                seconds: self.seconds,
                color: Color::White,
                back: Color::Black,
            },
        );
    }

    fn full_plan(&self) -> (commands: Vec<DrawCommand>)
        requires
            self.wf(),
        ensures
            shown(commands@) == self.full_head() + self.full_gyro() + self.full_ball()
                + seq![self.footer()],
    {
        let mut commands: Vec<DrawCommand> = Vec::new();
        put(
            &mut commands,
            Draw::FillRect {
                x: 0,
                y: 0,
                w: LCD_WIDTH as u32,
                h: LCD_HEIGHT as u32,
                color: Color::Black,
            },
        );
        let wifi_color = if self.wifi_connected {
            Color::Green
        } else {
            Color::Red
        };
        put(&mut commands, Draw::FillCircle { x: 60, y: 14, diameter: 8, color: wifi_color });
        proof {
            reveal_strlit("RUST WATCH");
            assert("RUST WATCH"@ =~= seq!['R', 'U', 'S', 'T', ' ', 'W', 'A', 'T', 'C', 'H']);
        }
        put_text(&mut commands, "RUST WATCH", SCREEN_CX, 38, Color::Cyan);
        self.put_time(&mut commands);
        let mut date_buf: [u8; 12] = [0u8; 12];
        let ds = fmt_date_fr(&mut date_buf, self.day, self.month, self.year);
        put_text(&mut commands, ds, SCREEN_CX, 150, Color::CssGray);
        self.draw_battery(&mut commands, SCREEN_CX, BATTERY_Y);
        assert(shown(commands@) =~= self.full_head());
        if self.gyro_enabled {
            put(
                &mut commands,
                Draw::StrokeCircle {
                    x: GYRO_CX - GYRO_R,
                    y: GYRO_CY - GYRO_R,
                    diameter: (GYRO_R * 2) as u32,
                    color: Color::CssDarkGray,
                    stroke: 2,
                },
            );
            proof {
                reveal_strlit("GYRO");
                assert("GYRO"@ =~= seq!['G', 'Y', 'R', 'O']);
            }
            put_text(&mut commands, "GYRO", GYRO_CX, GYRO_CY - GYRO_R - 10, Color::CssGray);
            assert(shown(commands@) =~= self.full_head() + self.full_gyro());
            self.draw_gyro_ball(&mut commands);
        } else {
            proof {
                reveal_strlit("TAP FOR GYRO");
                assert("TAP FOR GYRO"@ =~= seq![
                    'T',
                    'A',
                    'P',
                    ' ',
                    'F',
                    'O',
                    'R',
                    ' ',
                    'G',
                    'Y',
                    'R',
                    'O',
                ]);
            }
            put_text(&mut commands, "TAP FOR GYRO", GYRO_CX, GYRO_CY, Color::CssGray);
            assert(shown(commands@) =~= self.full_head() + self.full_gyro() + self.full_ball());
        }
        put_text(
            &mut commands,
            "100% Rust // ESP32-S3",
            SCREEN_CX,
            LCD_HEIGHT as i32 - 15,
            Color::Yellow,
        );
        assert(shown(commands@) =~= self.full_head() + self.full_gyro() + self.full_ball()
            + seq![self.footer()]);
        commands
    }

    fn partial_plan(&self) -> (commands: Vec<DrawCommand>)
        requires
            self.wf(),
        ensures
            shown(commands@) == self.time_part() + self.battery_part() + self.gyro_part(),
    {
        let mut commands: Vec<DrawCommand> = Vec::new();
        if self.time_changed {
            put_erased(&mut commands, Self::time_region());
            self.put_time(&mut commands);
        }
        assert(shown(commands@) =~= self.time_part());
        if self.battery_changed {
            put_erased(&mut commands, Self::battery_region());
            self.draw_battery(&mut commands, SCREEN_CX, BATTERY_Y);
        }
        assert(shown(commands@) =~= self.time_part() + self.battery_part());
        if self.gyro_changed && self.gyro_enabled {
            self.draw_gyro_ball(&mut commands);
        }
        assert(shown(commands@) =~= self.time_part() + self.battery_part() + self.gyro_part());
        commands
    }

    /// The steps that bring the screen up to date, in the order in which they are to be drawn.
    pub fn plan_render(&self) -> (commands: Vec<DrawCommand>)
        requires
            self.wf(),
        ensures
            shown(commands@) == self.plan(),
    {
        if self.full_redraw {
            self.full_plan()
        } else {
            self.partial_plan()
        }
    }

    fn battery_steps(&self) -> (n: usize)
        ensures
            n == self.battery_plan(SCREEN_CX as int, BATTERY_Y as int).len(),
            n <= 3,
    {
        if self.battery_fill() > 0 {
            3
        } else {
            2
        }
    }

    /// Brings the face up to date with the first `drawn` steps of its plan. Returns what changed
    /// on the screen where these are all of them.
    #[verifier::rlimit(30)]
    fn settle(&mut self, drawn: usize) -> (r: Option<RenderOutcome>)
        requires
            old(self).wf(),
        ensures
            *final(self) == old(self).after_steps(drawn as int),
            final(self).wf(),
            r is Some <==> drawn >= old(self).plan().len(),
            r matches Some(outcome) ==> outcome == old(self).outcome(),
    {
        let battery_steps: usize = self.battery_steps();
        let moved = self.has_ball_moved();
        let ball_steps: usize = if moved {
            2
        } else {
            0
        };
        let (nx, ny) = Self::projected_ball_position(self.accel_x, self.accel_y);
        if self.full_redraw {
            let ball_end: usize = 5 + battery_steps + if self.gyro_enabled {
                2 + ball_steps
            } else {
                1
            };
            if self.gyro_enabled && moved && drawn >= ball_end {
                self.prev_ball_x = nx;
                self.prev_ball_y = ny;
            }
            if drawn < ball_end + 1 {
                return None;
            }
            self.full_redraw = false;
            self.time_changed = false;
            self.battery_changed = false;
            self.gyro_changed = false;
            return Some(RenderOutcome { full_redraw: true, ..RenderOutcome::default() });
        }
        let mut outcome = RenderOutcome::default();
        let mut end: usize = 0;
        if self.time_changed {
            end = 2;
            if drawn < end {
                return None;
            }
            self.time_changed = false;
            outcome.time_region = Some(Self::time_region());
        }
        if self.battery_changed {
            end = end + 1 + battery_steps;
            if drawn < end {
                return None;
            }
            self.battery_changed = false;
            outcome.battery_region = Some(Self::battery_region());
        }
        if self.gyro_changed && self.gyro_enabled {
            end = end + ball_steps;
            if drawn < end {
                return None;
            }
            if moved {
                outcome.gyro_region = Some(
                    Self::ball_region(self.prev_ball_x, self.prev_ball_y).union(
                        Self::ball_region(nx, ny),
                    ),
                );
                self.prev_ball_x = nx;
                self.prev_ball_y = ny;
            }
            self.gyro_changed = false;
        }
        Some(outcome)
    }

    /// Takes how the steps of [`WatchFace::plan_render`] were drawn: all of them, or those before
    /// one that failed. What was drawn completely is up to date. The error of a failed step is
    /// handed on.
    pub fn render<E>(&mut self, drawing: Result<(), DrawFailure<E>>) -> (r: Result<
        RenderOutcome,
        E,
    >)
        requires
            old(self).wf(),
            drawing matches Err(failure) ==> failure.drawn < old(self).plan().len(),
        ensures
            *final(self) == old(self).after_steps(
                match drawing {
                    Ok(_) => old(self).plan().len() as int,
                    Err(failure) => failure.drawn as int,
                },
            ),
            final(self).wf(),
            r == (match drawing {
                Ok(_) => Ok(old(self).outcome()),
                Err(failure) => Err(failure.error),
            }),
    {
        match drawing {
            Ok(_) => {
                assert(self.plan().len() <= 13);
                Ok(self.settle(usize::MAX).unwrap())
            },
            Err(failure) => {
                let _ = self.settle(failure.drawn);
                Err(failure.error)
            },
        }
    }

    /// The steps of the always-on display, in the order in which they are to be drawn.
    pub fn plan_aod(&self) -> (commands: Vec<DrawCommand>)
        ensures
            shown(commands@) == self.aod_plan(),
    {
        let mut commands: Vec<DrawCommand> = Vec::new();
        put(
            &mut commands,
            Draw::FillRect {
                x: 0,
                y: 0,
                w: LCD_WIDTH as u32,
                h: LCD_HEIGHT as u32,
                color: Color::Black,
            },
        );
        let shift_x: i32 = (self.minutes % 9) as i32 - 4;
        let shift_y: i32 = (self.minutes % 8) as i32 - 4;
        put(
            &mut commands,
            Draw::HoursMinutes {
                cx: SCREEN_CX + shift_x,
                y: (LCD_HEIGHT / 2) as i32 - 32 + shift_y,
                hours: self.hours,
                minutes: self.minutes,
                color: Color::Rgb { r: 20, g: 40, b: 20 },
                back: Color::Black,
            },
        );
        let mut buf: [u8; 4] = [0u8; 4];
        let s = fmt_bat_short(&mut buf, self.battery_percent);
        put_text(
            &mut commands,
            s,
            AOD_BATTERY_X + shift_x,
            AOD_BATTERY_Y + shift_y,
            Color::Rgb { r: 8, g: 16, b: 8 },
        );
        assert(shown(commands@) =~= self.aod_plan());
        commands
    }

    /// Takes how the steps of [`WatchFace::plan_aod`] were drawn. Once all are, the next normal
    /// rendering redraws everything; the error of a failed step is handed on, and nothing changes.
    pub fn render_aod<E>(&mut self, drawing: Result<(), DrawFailure<E>>) -> (r: Result<(), E>)
        ensures
            *final(self) == (match drawing {
                Ok(_) => old(self).after_aod(),
                Err(_) => *old(self),
            }),
            r == (match drawing {
                Ok(_) => Ok(()),
                Err(failure) => Err(failure.error),
            }),
    {
        match drawing {
            Ok(_) => {
                self.full_redraw = true;
                self.time_changed = false;
                self.battery_changed = false;
                self.gyro_changed = false;
                Ok(())
            },
            Err(failure) => Err(failure.error),
        }
    }
}

fn put_erased(commands: &mut Vec<DrawCommand>, area: FlushRegion)
    ensures
        shown(final(commands)@) == shown(old(commands)@).push(erased(area)),
{
    put(
        commands,
        Draw::FillRect {
            x: area.x as i32,
            y: area.y as i32,
            w: area.w as u32,
            h: area.h as u32,
            color: Color::Black,
        },
    );
}

fn clamp_to_range(v: i32) -> (r: i32)
    ensures
        r == clamped(v as int, BALL_RANGE as int),
{
    if v < -BALL_RANGE {
        -BALL_RANGE
    } else if v > BALL_RANGE {
        BALL_RANGE
    } else {
        v
    }
}

/// Whether the columns from `left` to before `right`, in the rows from `top` to before `bottom`,
/// lie in a region.
pub open spec fn box_within(
    left: int,
    top: int,
    right: int,
    bottom: int,
    area: FlushRegion,
) -> bool {
    area.x <= left && right <= area.right() && area.y <= top && bottom <= area.bottom()
}

/// Whether all that a step draws lies in a region. An outline may reach beyond its shape by its
/// whole stroke. A text reaches half its width, and a pixel more, to either side of its middle.
/// Seven-segment digits take no more than the space of six of them.
pub open spec fn step_within(step: DrawView, area: FlushRegion) -> bool {
    match step {
        Draw::FillRect { x, y, w, h, .. } => box_within(x as int, y as int, x + w, y + h, area),
        Draw::StrokeRoundedRect { x, y, w, h, stroke, .. } => {
            box_within(x - stroke, y - stroke, x + w + stroke, y + h + stroke, area)
        },
        Draw::FillCircle { x, y, diameter, .. } => {
            box_within(x as int, y as int, x + diameter, y + diameter, area)
        },
        Draw::StrokeCircle { x, y, diameter, stroke, .. } => {
            box_within(x - stroke, y - stroke, x + diameter + stroke, y + diameter + stroke, area)
        },
        Draw::CenteredText { text, x, y, .. } => {
            let half = FONT_W * text.len() as int / 2 + 1;
            let top = y - FONT_BASELINE;
            box_within(x - half, top, x + half, top + FONT_H, area)
        },
        Draw::Time { cx, y, .. } => {
            let left = cx - TIME_TOTAL_W / 2;
            box_within(left, y as int, left + TIME_TOTAL_W, y + TIME_DH, area)
        },
        Draw::HoursMinutes { cx, y, .. } => {
            let left = cx - TIME_TOTAL_W / 2;
            box_within(left, y as int, left + TIME_TOTAL_W, y + TIME_DH, area)
        },
    }
}

/// The whole screen.
pub open spec fn screen_area() -> FlushRegion {
    FlushRegion { x: 0, y: 0, w: LCD_WIDTH, h: LCD_HEIGHT }
}

/// Whether a region lies on the screen.
pub open spec fn on_screen(area: FlushRegion) -> bool {
    area.right() <= LCD_WIDTH && area.bottom() <= LCD_HEIGHT
}

/// A face that is up to date draws nothing, reports nothing and stays as it is.
pub proof fn law_clean_face_draws_nothing(face: WatchFace, drawn: int)
    requires
        !face.dirty(),
        drawn >= 0,
    ensures
        face.plan() == Seq::<DrawView>::empty(),
        face.outcome() == RenderOutcome::nothing(),
        face.after_steps(drawn) == face,
{
    assert(face.plan() =~= Seq::<DrawView>::empty());
}

/// Once its whole plan is drawn the face is up to date, but for a ball that moved while the
/// gyroscope is hidden.
pub proof fn law_complete_render_cleans(face: WatchFace, drawn: int)
    requires
        drawn >= face.plan().len(),
    ensures
        face.after_steps(drawn).dirty() <==> !face.full_redraw && face.gyro_changed
            && !face.gyro_enabled,
{
}

/// A rendering that fails leaves the face out of date, so that what is missing is drawn later.
pub proof fn law_failed_render_stays_dirty(face: WatchFace, drawn: int)
    requires
        0 <= drawn < face.plan().len(),
    ensures
        face.after_steps(drawn).dirty(),
{
}

/// How many of the first `drawn` steps of a partial plan belong to parts that are complete.
pub open spec fn settled_steps(face: WatchFace, drawn: int) -> int {
    let time_end = face.time_part().len() as int;
    let battery_end = time_end + face.battery_part().len();
    if drawn >= battery_end {
        battery_end
    } else if drawn >= time_end {
        time_end
    } else {
        0
    }
}

/// After a partial rendering that failed, the next plan is what is left of the old one behind the
/// last complete part: nothing that is missing is skipped, and no complete part is repeated.
pub proof fn law_retry_resumes(face: WatchFace, drawn: int)
    requires
        !face.full_redraw,
        0 <= drawn < face.plan().len(),
    ensures
        settled_steps(face, drawn) <= drawn,
        face.after_steps(drawn).plan() == face.plan().skip(settled_steps(face, drawn)),
{
    let after = face.after_steps(drawn);
    let k = settled_steps(face, drawn);
    assert(after.gyro_part() == face.gyro_part());
    assert(after.battery_part() == if drawn >= (face.time_part() + face.battery_part()).len() {
        Seq::<DrawView>::empty()
    } else {
        face.battery_part()
    });
    assert(after.time_part() == if drawn >= face.time_part().len() {
        Seq::<DrawView>::empty()
    } else {
        face.time_part()
    });
    assert(after.plan() =~= face.plan().skip(k));
}

/// A rendering never changes a value that is shown; it only settles what is out of date and
/// where the ball stands.
pub proof fn law_render_keeps_values(face: WatchFace, drawn: int)
    ensures
        face.after_steps(drawn) == (WatchFace {
            full_redraw: face.after_steps(drawn).full_redraw,
            time_changed: face.after_steps(drawn).time_changed,
            battery_changed: face.after_steps(drawn).battery_changed,
            gyro_changed: face.after_steps(drawn).gyro_changed,
            prev_ball_x: face.after_steps(drawn).prev_ball_x,
            prev_ball_y: face.after_steps(drawn).prev_ball_y,
            ..face
        }),
{
}

/// Values that are already shown put nothing out of date.
pub proof fn law_same_values_stay_clean(face: WatchFace)
    ensures
        face.with_time(face.hours, face.minutes, face.seconds) == face,
        face.with_date(face.day, face.month, face.year) == face,
        face.with_battery(face.battery_percent, face.battery_voltage, face.is_charging) == face,
{
}

/// Taking a value twice is the same as taking it once.
pub proof fn law_updates_idempotent(
    face: WatchFace,
    h: u8,
    m: u8,
    s: u8,
    pct: u8,
    mv: u16,
    chg: bool,
    x: i16,
    y: i16,
    z: i16,
)
    ensures
        face.with_time(h, m, s).with_time(h, m, s) == face.with_time(h, m, s),
        face.with_battery(pct, mv, chg).with_battery(pct, mv, chg) == face.with_battery(
            pct,
            mv,
            chg,
        ),
        face.with_accel(x, y, z).with_accel(x, y, z) == face.with_accel(x, y, z),
{
}

/// A ball in its range lies, with the border of its region, well on the screen, so that no
/// number of the region wraps around.
proof fn lemma_ball_area(x: int, y: int)
    requires
        distance(x, GYRO_CX as int) <= BALL_RANGE,
        distance(y, GYRO_CY as int) <= BALL_RANGE,
    ensures
        ball_area(x, y).x == x - 10,
        ball_area(x, y).y == y - 10,
        ball_area(x, y).w == 20,
        ball_area(x, y).h == 20,
{
}

/// The region that moving the ball changes, in plain numbers.
proof fn lemma_ball_dirt(face: WatchFace)
    requires
        face.wf(),
        face.ball_moved(),
    ensures
        ({
            let (nx, ny) = ball_position(face.accel_x as int, face.accel_y as int);
            let area = face.ball_dirt()->0;
            &&& face.ball_dirt() is Some
            &&& distance(nx, GYRO_CX as int) <= BALL_RANGE
            &&& distance(ny, GYRO_CY as int) <= BALL_RANGE
            &&& area.x == min_of(face.prev_ball_x as int, nx) - 10
            &&& area.y == min_of(face.prev_ball_y as int, ny) - 10
            &&& area.right() == max_of(face.prev_ball_x as int, nx) + 10
            &&& area.bottom() == max_of(face.prev_ball_y as int, ny) + 10
        }),
{
    let (nx, ny) = ball_position(face.accel_x as int, face.accel_y as int);
    lemma_ball_area(face.prev_ball_x as int, face.prev_ball_y as int);
    lemma_ball_area(nx, ny);
    law_union_spans(
        ball_area(face.prev_ball_x as int, face.prev_ball_y as int),
        ball_area(nx, ny),
    );
}

/// The ball stays inside its circle's square, and the regions to flush for it, for the time and
/// for the battery lie on the screen.
pub proof fn law_regions_on_screen(face: WatchFace)
    requires
        face.wf(),
    ensures
        ({
            let (nx, ny) = ball_position(face.accel_x as int, face.accel_y as int);
            distance(nx, GYRO_CX as int) <= BALL_RANGE && distance(ny, GYRO_CY as int)
                <= BALL_RANGE
        }),
        on_screen(time_area()),
        on_screen(battery_area()),
        face.ball_dirt() matches Some(area) ==> on_screen(area),
{
    if face.ball_moved() {
        lemma_ball_dirt(face);
    }
}

/// Both squares that move the ball lie in the region that is reported for it.
pub proof fn law_ball_steps_in_region(face: WatchFace, i: int)
    requires
        face.wf(),
        0 <= i < face.ball_plan().len(),
    ensures
        face.ball_dirt() is Some,
        step_within(face.ball_plan()[i], face.ball_dirt()->0),
{
    lemma_ball_dirt(face);
    if i == 0 {
        assert(face.ball_plan()[0] == ball_square(
            face.prev_ball_x as int,
            face.prev_ball_y as int,
            Color::Black,
        ));
    } else {
        let (nx, ny) = ball_position(face.accel_x as int, face.accel_y as int);
        assert(face.ball_plan()[1] == ball_square(nx, ny, Color::Green));
    }
}

/// Every step that redraws the time lies in the region that is reported for it.
pub proof fn law_time_steps_in_region(face: WatchFace, i: int)
    requires
        0 <= i < face.time_part().len(),
    ensures
        step_within(face.time_part()[i], time_area()),
{
}

/// The longest battery text has eight characters.
proof fn lemma_battery_text_short(pct: u8, charging: bool)
    ensures
        2 <= battery_text(pct, charging).len() <= 8,
{
}

/// Every step that redraws the battery lies in the region that is reported for it: the frame with
/// its stroke, the filling, which never leaves the frame, and the text.
pub proof fn law_battery_steps_in_region(face: WatchFace, i: int)
    requires
        0 <= i < face.battery_part().len(),
    ensures
        step_within(face.battery_part()[i], battery_area()),
        3 + bar_fill(face.battery_percent as int) <= BATTERY_BAR_W - 3,
{
    assert(bar_fill(face.battery_percent as int) <= 194);
    lemma_battery_text_short(face.battery_percent, face.is_charging);
}

/// Whatever a partial redraw draws lies in one of the regions that it reports, so that flushing
/// those regions shows all of it.
pub proof fn law_partial_redraw_in_reported_regions(face: WatchFace, i: int)
    requires
        face.wf(),
        !face.full_redraw,
        0 <= i < face.plan().len(),
    ensures
        ({
            let step = face.plan()[i];
            let outcome = face.outcome();
            ||| (outcome.time_region matches Some(area) && step_within(step, area))
            ||| (outcome.battery_region matches Some(area) && step_within(step, area))
            ||| (outcome.gyro_region matches Some(area) && step_within(step, area))
        }),
{
    let time = face.time_part();
    let battery = face.battery_part();
    if i < time.len() {
        assert(face.plan()[i] == time[i]);
        law_time_steps_in_region(face, i);
    } else if i < time.len() + battery.len() {
        assert(face.plan()[i] == battery[i - time.len()]);
        law_battery_steps_in_region(face, i - time.len());
    } else {
        let j = i - time.len() - battery.len();
        assert(face.plan()[i] == face.gyro_part()[j]);
        law_ball_steps_in_region(face, j);
    }
}

/// Whatever a full redraw draws lies on the screen.
pub proof fn law_full_redraw_on_screen(face: WatchFace, i: int)
    requires
        face.wf(),
        face.full_redraw,
        0 <= i < face.plan().len(),
    ensures
        step_within(face.plan()[i], screen_area()),
{
    let battery = face.battery_plan(SCREEN_CX as int, BATTERY_Y as int);
    let head = face.full_head();
    let gyro = face.full_gyro();
    let ball = face.full_ball();
    if i < head.len() {
        assert(face.plan()[i] == head[i]);
        if i >= 5 {
            let changed = WatchFace { battery_changed: true, ..face };
            assert(head[i] == battery[i - 5]);
            assert(changed.battery_part()[i - 4] == battery[i - 5]);
            law_battery_steps_in_region(changed, i - 4);
        }
    } else if i < head.len() + gyro.len() {
        assert(face.plan()[i] == gyro[i - head.len()]);
    } else if i < head.len() + gyro.len() + ball.len() {
        let j = i - head.len() - gyro.len();
        assert(face.plan()[i] == ball[j]);
        law_ball_steps_in_region(face, j);
        law_regions_on_screen(face);
    } else {
        assert(face.plan()[i] == face.footer());
        reveal_strlit("100% Rust // ESP32-S3");
    }
}

/// The battery bar grows with the charge, is empty exactly at zero and full from 100 on.
pub proof fn law_battery_bar_monotone(a: int, b: int)
    requires
        0 <= a <= b,
    ensures
        bar_fill(a) <= bar_fill(b),
        bar_fill(a) == 0 <==> a == 0,
        a >= 100 ==> bar_fill(a) == BATTERY_BAR_W - 6,
{
    let p = if a < 100 {
        a
    } else {
        100
    };
    let q = if b < 100 {
        b
    } else {
        100
    };
    assert(p * (BATTERY_BAR_W - 6) == p * 194 && q * (BATTERY_BAR_W - 6) == q * 194)
        by (nonlinear_arith)
        requires
            BATTERY_BAR_W == 200,
    ;
}

/// The always-on display wanders by no more than four pixels in either direction, and stands
/// elsewhere one minute later, at the full hour too.
pub proof fn law_aod_wanders(face: WatchFace, later: WatchFace)
    requires
        face.minutes < 60,
        later.minutes == (face.minutes + 1) % 60,
    ensures
        distance(face.aod_cx(), SCREEN_CX as int) <= 4,
        -4 <= face.aod_cy() - (LCD_HEIGHT / 2 - 32) <= 3,
        face.aod_cx() != later.aod_cx(),
        face.aod_cy() != later.aod_cy(),
{
}

/// The always-on display shows the battery charge in the bottom right corner, outside the middle
/// third of the screen in both directions, with the whole text on the screen and below the time's
/// digits; it wanders with the time.
pub proof fn law_aod_battery_in_corner(face: WatchFace)
    ensures
        face.aod_plan().len() == 3,
        face.aod_plan()[2] matches Draw::CenteredText { text, x, y, .. } && {
            &&& text == percent_text(face.battery_percent)
            &&& 3 * x >= 2 * LCD_WIDTH
            &&& 3 * y >= 2 * LCD_HEIGHT
            &&& step_within(face.aod_plan()[2], screen_area())
            &&& y - FONT_H >= face.aod_cy() + TIME_DH
            &&& x - face.aod_cx() == AOD_BATTERY_X - SCREEN_CX
            &&& y - face.aod_cy() == AOD_BATTERY_Y - (LCD_HEIGHT / 2 - 32)
        },
{
    assert(face.aod_plan()[2] == Draw::CenteredText {
        text: percent_text(face.battery_percent),
        x: (AOD_BATTERY_X + face.aod_shift_x()) as i32,
        y: (AOD_BATTERY_Y + face.aod_shift_y()) as i32,
        color: Color::Rgb { r: 8, g: 16, b: 8 },
    });
}

/// Once the always-on display was drawn, the next rendering redraws everything, from a black
/// screen on.
pub proof fn law_redraw_after_aod(face: WatchFace)
    ensures
        face.after_aod().dirty(),
        face.after_aod().plan().len() > 0,
        face.after_aod().plan()[0] == cleared_screen(),
        face.after_aod().outcome().full_redraw,
{
}

/// Toggling the gyroscope twice leaves nothing but a redraw.
pub proof fn law_toggle_twice(face: WatchFace)
    ensures
        face.toggled().toggled() == face.redrawn(),
{
}

} // verus!
