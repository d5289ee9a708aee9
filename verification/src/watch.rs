//! The state of the running watch, and how a frame of its main loop begins: how long to sleep,
//! which sensors to power and which readings are due.
//!
//! The loop sleeps, takes the time with [`Watch::begin_frame`], and then walks through the
//! readings, the touch panel (`swipe`), screen and radio (`power`), and the application that owns
//! the screen (`apps`). Each step is a method that takes what the hardware answered and says what
//! the hardware is to do. Times are microseconds of a clock that never runs backwards.

use vstd::prelude::*;

use crate::modes::{AppState, Page, Screen};
use crate::ntp::DateTime;
use crate::watchface::WatchFace;

verus! {

/// Latest clock reading from which every deadline can still be computed.
pub const CLOCK_LIMIT: u64 = 18_446_744_073_409_551_615;

/// Microseconds in a millisecond.
pub const MILLI: u64 = 1_000;

/// Microseconds in a second.
pub const SECOND: u64 = 1_000_000;

/// The value of [`Watch::aod_last_minute`] that no minute has.
pub const NO_MINUTE: u8 = 99;

/// The state of the main loop.
#[derive(Clone, Copy, Debug)]
pub struct Watch {
    pub face: WatchFace,
    pub page: Page,
    pub app: AppState,
    pub screen: Screen,
    pub last_touch_x: u16,
    pub last_touch_y: u16,
    pub batt_pct: u8,
    pub batt_mv: u16,
    pub charging: bool,
    /// The page has to be drawn anew.
    pub page_dirty: bool,
    /// A page is being dragged.
    pub swiping: bool,
    /// Direction of the drag: -1 to the left, 1 to the right, 0 before the first one.
    pub swipe_dir: i32,
    /// Column where the finger came down, or 0 while it is up.
    pub swipe_start_x: i32,
    /// The minute that the always-on display shows, or [`NO_MINUTE`].
    pub aod_last_minute: u8,
    /// When the current frame began.
    pub now: u64,
    pub last_interaction: u64,
    pub next_rtc: u64,
    pub next_battery: u64,
    pub next_flush: u64,
    pub last_wifi_check: u64,
    pub wifi_connected: bool,
    pub imu_powered: bool,
    /// A finger was down in the previous frame.
    pub was_touching: bool,
}

/// What to do with the motion sensor's supply.
#[derive(Clone, Copy, Debug, PartialEq, Eq, Structural)]
pub enum ImuPower {
    Keep,
    Up,
    Down,
}

impl Watch {
    /// What holds between any two steps of the loop.
    pub open spec fn wf(self) -> bool {
        &&& self.face.wf()
        &&& self.face.wifi_connected == self.wifi_connected
        &&& self.last_interaction <= self.now <= CLOCK_LIMIT
        &&& self.last_wifi_check <= self.now
        &&& self.swiping ==> self.swipe_dir == -1 || self.swipe_dir == 1
        &&& 0 <= self.swipe_start_x <= u16::MAX
        &&& self.screen == Screen::Aod ==> self.app == AppState::Watchface && self.page
            == Page::Clock
    }

    /// Whole seconds since the watch was last used.
    pub open spec fn idle_secs(self) -> int {
        (self.now - self.last_interaction) / SECOND as int
    }

    /// Seconds from one battery reading to the next.
    pub open spec fn battery_period(self) -> int {
        if self.screen == Screen::Off {
            300
        } else {
            60
        }
    }

    /// The watch with a battery reading: the voltage counts as 0 and the charger as unplugged
    /// where they could not be read, and without a charge nothing changes.
    pub open spec fn with_battery(
        self,
        pct: Option<u8>,
        mv: Option<u16>,
        charging: Option<bool>,
    ) -> Watch {
        match pct {
            Some(p) => {
                let v = if mv is Some {
                    mv->0
                } else {
                    0
                };
                let c = charging is Some && charging->0;
                Watch {
                    batt_pct: p,
                    batt_mv: v,
                    charging: c,
                    face: self.face.with_battery(p, v, c),
                    ..self
                }
            },
            None => self,
        }
    }

    /// The watch with a reading of its clock chip, where there is one.
    pub open spec fn with_clock(self, time: Option<DateTime>) -> Watch {
        match time {
            Some(t) => Watch {
                face: self.face.with_time(t.hours, t.minutes, t.seconds).with_date(
                    t.day,
                    t.month,
                    t.year,
                ),
                ..self
            },
            None => self,
        }
    }

    /// Whether the clock chip is to be read.
    pub open spec fn clock_wanted(self) -> bool {
        self.screen.interactive() && self.now >= self.next_rtc
    }

    /// The watch after a due reading of its clock chip, or after the reading failed.
    pub open spec fn after_clock(self, time: Option<DateTime>) -> Watch {
        Watch { next_rtc: (self.now + SECOND) as u64, ..self.with_clock(time) }
    }

    /// Whether the battery is to be read.
    pub open spec fn battery_wanted(self) -> bool {
        self.now >= self.next_battery
    }

    /// The watch after a due reading of its battery, or after the reading failed.
    pub open spec fn after_battery(
        self,
        pct: Option<u8>,
        mv: Option<u16>,
        charging: Option<bool>,
    ) -> Watch {
        Watch {
            next_battery: (self.now + self.battery_period() * SECOND) as u64,
            ..self.with_battery(pct, mv, charging)
        }
    }

    /// How long to sleep in milliseconds where nothing wakes the watch earlier.
    pub open spec fn tick(self, held: bool) -> int {
        if held {
            16
        } else {
            match self.screen {
                Screen::Off => 30_000,
                Screen::Aod => 10_000,
                _ => match self.app {
                    AppState::Watchface => match self.page {
                        Page::Clock => if self.face.gyro_enabled {
                            33
                        } else {
                            1_000
                        },
                        Page::Sensors => 100,
                        Page::System => 2_000,
                    },
                    AppState::Flappy => 8,
                    AppState::Snake | AppState::Game2048 | AppState::Tetris | AppState::Maze => 16,
                    _ => 100,
                },
            }
        }
    }

    /// Whether anything that is shown or played needs the motion sensor.
    pub open spec fn wants_imu(self) -> bool {
        self.screen.interactive() && (self.face.gyro_enabled || self.app == AppState::Maze
            || self.app == AppState::Tetris || self.app == AppState::Flappy || (self.app
            == AppState::Watchface && self.page == Page::Sensors))
    }

    /// The watch at power-up, on its clock page at full brightness, with the radio connected.
    pub fn new(now: u64) -> (w: Self)
        requires
            now <= CLOCK_LIMIT,
        ensures
            w == (Watch {
                face: WatchFace { wifi_connected: true, ..WatchFace::fresh() },
                page: Page::Clock,
                app: AppState::Watchface,
                screen: Screen::Bright,
                last_touch_x: 0,
                last_touch_y: 0,
                batt_pct: 0,
                batt_mv: 0,
                charging: false,
                page_dirty: true,
                swiping: false,
                swipe_dir: 0,
                swipe_start_x: 0,
                aod_last_minute: NO_MINUTE,
                now,
                last_interaction: now,
                next_rtc: now,
                next_battery: now,
                next_flush: now,
                last_wifi_check: now,
                wifi_connected: true,
                imu_powered: false,
                was_touching: false,
            }),
            w.wf(),
    {
        let mut face = WatchFace::new();
        face.wifi_connected = true;
        Watch {
            face,
            page: Page::Clock,
            app: AppState::Watchface,
            screen: Screen::Bright,
            last_touch_x: 0,
            last_touch_y: 0,
            batt_pct: 0,
            batt_mv: 0,
            charging: false,
            page_dirty: true,
            swiping: false,
            swipe_dir: 0,
            swipe_start_x: 0,
            aod_last_minute: NO_MINUTE,
            now,
            last_interaction: now,
            next_rtc: now,
            next_battery: now,
            next_flush: now,
            last_wifi_check: now,
            wifi_connected: true,
            imu_powered: false,
            was_touching: false,
        }
    }

    /// Takes the first readings and asks for a full picture.
    pub fn first_readings(
        &mut self,
        pct: Option<u8>,
        mv: Option<u16>,
        charging: Option<bool>,
        time: Option<DateTime>,
    )
        requires
            old(self).wf(),
        ensures
            *final(self) == (Watch {
                face: old(self).with_battery(pct, mv, charging).with_clock(time).face.redrawn(),
                ..old(self).with_battery(pct, mv, charging)
            }),
            final(self).wf(),
    {
        self.take_battery(pct, mv, charging);
        self.take_clock(time);
        self.face.force_redraw();
    }

    /// Starts the deadlines of the main loop.
    pub fn enter_loop(&mut self, now: u64)
        requires
            old(self).wf(),
            old(self).now <= now <= CLOCK_LIMIT,
        ensures
            *final(self) == (Watch {
                now,
                next_rtc: now,
                next_battery: now,
                next_flush: now,
                last_wifi_check: now,
                imu_powered: false,
                was_touching: false,
                ..*old(self)
            }),
            final(self).wf(),
    {
        self.now = now;
        self.next_rtc = now;
        self.next_battery = now;
        self.next_flush = now;
        self.last_wifi_check = now;
        self.imu_powered = false;
        self.was_touching = false;
    }

    /// How long to sleep at most, in milliseconds. A finger or a button that is held needs short
    /// frames; otherwise the screen and what it shows decide.
    pub fn tick_ms(&self, touch_held: bool, button_held: bool) -> (ms: u64)
        ensures
            ms == self.tick(touch_held || button_held),
    {
        if touch_held || button_held {
            return 16;
        }
        match self.screen {
            Screen::Off => 30_000,
            Screen::Aod => 10_000,
            _ => match self.app {
                AppState::Watchface => match self.page {
                    Page::Clock => if self.face.gyro_enabled {
                        33
                    } else {
                        1_000
                    },
                    Page::Sensors => 100,
                    Page::System => 2_000,
                },
                AppState::Launcher | AppState::Settings | AppState::Mp3Player
                | AppState::SmartHome => 100,
                AppState::Flappy => 8,
                AppState::Snake | AppState::Game2048 | AppState::Tetris | AppState::Maze => 16,
            },
        }
    }

    /// Begins a frame. Returns the milliseconds since the last one for the applications, at least
    /// one, and modulo 32 bits.
    pub fn begin_frame(&mut self, now: u64) -> (dt_ms: u32)
        requires
            old(self).wf(),
            old(self).now <= now <= CLOCK_LIMIT,
        ensures
            *final(self) == (Watch { now, ..*old(self) }),
            final(self).wf(),
            dt_ms == ({
                let ms = (now - old(self).now) / MILLI as int % 0x1_0000_0000;
                if ms == 0 {
                    1
                } else {
                    ms
                }
            }),
    {
        let ms: u64 = (now - self.now) / MILLI;
        assert(ms as u32 == ms as int % 0x1_0000_0000) by (bit_vector);
        let dt: u32 = #[verifier::truncate] (ms as u32);
        self.now = now;
        dt.max(1)
    }

    pub fn needs_imu(&self) -> (b: bool)
        ensures
            b == self.wants_imu(),
    {
        self.screen.is_interactive() && (self.face.gyro_enabled || self.app == AppState::Maze
            || self.app == AppState::Tetris || self.app == AppState::Flappy || (self.app
            == AppState::Watchface && self.page == Page::Sensors))
    }

    /// Switches the motion sensor with the need for it.
    pub fn imu_power(&mut self) -> (action: ImuPower)
        ensures
            *final(self) == (Watch { imu_powered: old(self).wants_imu(), ..*old(self) }),
            action == (if old(self).wants_imu() == old(self).imu_powered {
                ImuPower::Keep
            } else if old(self).wants_imu() {
                ImuPower::Up
            } else {
                ImuPower::Down
            }),
    {
        let need = self.needs_imu();
        if need && !self.imu_powered {
            self.imu_powered = true;
            ImuPower::Up
        } else if !need && self.imu_powered {
            self.imu_powered = false;
            ImuPower::Down
        } else {
            ImuPower::Keep
        }
    }

    /// Takes an acceleration in hundredths of g.
    pub fn take_accel(&mut self, x: i16, y: i16, z: i16)
        requires
            old(self).wf(),
        ensures
            *final(self) == (Watch { face: old(self).face.with_accel(x, y, z), ..*old(self) }),
            final(self).wf(),
    {
        self.face.update_accel(x, y, z);
    }

    /// Whether the clock chip is to be read: once a second while the screen is interactive.
    pub fn clock_due(&self) -> (b: bool)
        ensures
            b == self.clock_wanted(),
    {
        self.screen.is_interactive() && self.now >= self.next_rtc
    }

    fn take_clock(&mut self, time: Option<DateTime>)
        requires
            old(self).wf(),
        ensures
            *final(self) == old(self).with_clock(time),
            final(self).wf(),
    {
        if let Some(t) = time {
            self.face.update_time(t.hours, t.minutes, t.seconds);
            self.face.update_date(t.day, t.month, t.year);
        }
    }

    /// Takes the reading that was due, or its failure, and sets the next one.
    pub fn clock_read(&mut self, time: Option<DateTime>)
        requires
            old(self).wf(),
        ensures
            *final(self) == old(self).after_clock(time),
            final(self).wf(),
    {
        self.take_clock(time);
        self.next_rtc = self.now + SECOND;
    }

    /// Whether the battery is to be read.
    pub fn battery_due(&self) -> (b: bool)
        ensures
            b == self.battery_wanted(),
    {
        self.now >= self.next_battery
    }

    fn take_battery(&mut self, pct: Option<u8>, mv: Option<u16>, charging: Option<bool>)
        requires
            old(self).wf(),
        ensures
            *final(self) == old(self).with_battery(pct, mv, charging),
            final(self).wf(),
    {
        if let Some(p) = pct {
            self.batt_pct = p;
            self.batt_mv = match mv {
                Some(v) => v,
                None => 0,
            };
            self.charging = match charging {
                Some(c) => c,
                None => false,
            };
            self.face.update_battery(self.batt_pct, self.batt_mv, self.charging);
        }
    }

    /// Takes the reading that was due, or its failure, and sets the next one: in a minute, or in
    /// five while the screen is off.
    pub fn battery_read(&mut self, pct: Option<u8>, mv: Option<u16>, charging: Option<bool>)
        requires
            old(self).wf(),
        ensures
            *final(self) == old(self).after_battery(pct, mv, charging),
            final(self).wf(),
    {
        self.take_battery(pct, mv, charging);
        self.next_battery = if self.screen == Screen::Off {
            self.now + 300 * SECOND
        } else {
            self.now + 60 * SECOND
        };
    }
}

/// Between two wake-ups at least eight milliseconds pass and at most thirty seconds, and a held
/// finger or button brings a frame within sixteen.
pub proof fn law_tick_bounds(w: Watch, held: bool)
    ensures
        8 <= w.tick(held) <= 30_000,
        held ==> w.tick(held) == 16,
{
}

/// While the screen is off or shows the always-on display, the motion sensor is not wanted.
pub proof fn law_dark_screen_needs_no_imu(w: Watch)
    requires
        !w.screen.interactive(),
    ensures
        !w.wants_imu(),
{
}

/// The clock chip is read no more than once a second, and the battery no more than once a minute,
/// or every five minutes where the screen was off, whether or not the readings succeed.
pub proof fn law_readings_are_rare(
    w: Watch,
    later: u64,
    time: Option<DateTime>,
    pct: Option<u8>,
    mv: Option<u16>,
    chg: Option<bool>,
)
    requires
        w.wf(),
    ensures
        later < w.now + SECOND ==> !(Watch { now: later, ..w.after_clock(time) }).clock_wanted(),
        later < w.now + w.battery_period() * SECOND ==> !(Watch {
            now: later,
            ..w.after_battery(pct, mv, chg)
        }).battery_wanted(),
{
}

/// Readings that fail change nothing.
pub proof fn law_failed_readings_change_nothing(w: Watch, mv: Option<u16>, chg: Option<bool>)
    ensures
        w.with_battery(None, mv, chg) == w,
        w.with_clock(None) == w,
{
}

} // verus!
