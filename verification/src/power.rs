//! Saving power: dimming the screen, the always-on display, and the radio.
//!
//! An idle watch goes from bright to dim after 20 seconds, after 40 to the always-on display (or
//! straight to off where the clock is not shown) and after ten minutes to off. Any touch or button
//! brings it back to bright. The radio is dropped after five idle minutes and joined again once
//! the screen is bright.

use vstd::prelude::*;

use crate::modes::{AppState, Page, Screen, SwipeDirection};
use crate::ntp::DateTime;
use crate::watch::{Watch, NO_MINUTE, SECOND};
use crate::watchface::WatchFace;

verus! {

/// Panel brightness of [`Screen::Bright`].
pub const BRIGHTNESS_FULL: u8 = 0xD0;

/// Panel brightness of [`Screen::Dim`].
pub const BRIGHTNESS_DIM: u8 = 0x40;

/// Panel brightness of [`Screen::Aod`].
pub const BRIGHTNESS_AOD: u8 = 0x18;

/// Panel brightness before the panel is put to sleep.
pub const BRIGHTNESS_OFF: u8 = 0x00;

/// Milliseconds that the panel needs to settle once it is switched on.
pub const PANEL_SETTLE_MS: u64 = 20;

/// Idle seconds after which the screen dims.
pub const DIM_AFTER: u64 = 20;

/// Idle seconds after which only the time is shown.
pub const AOD_AFTER: u64 = 40;

/// Idle seconds after which the screen goes off.
pub const OFF_AFTER: u64 = 600;

/// Idle seconds after which the radio is dropped.
pub const WIFI_DROP_AFTER: u64 = 300;

/// Seconds between two attempts to drop the radio.
pub const WIFI_DROP_RETRY: u64 = 60;

/// Seconds between two attempts to join the network.
pub const WIFI_JOIN_RETRY: u64 = 5;

/// What waking up asks of the panel.
#[derive(Clone, Copy, Debug, PartialEq, Eq, Structural)]
pub enum Wake {
    /// Nothing: nobody used the watch, or it is bright already.
    Nothing,
    /// Set the brightness to [`BRIGHTNESS_FULL`].
    Brighten,
    /// Switch the panel on, let it settle for [`PANEL_SETTLE_MS`], and set the brightness to
    /// [`BRIGHTNESS_FULL`].
    SwitchOn,
}

/// What idling asks of the panel.
#[derive(Clone, Copy, Debug, PartialEq, Eq, Structural)]
pub enum Idle {
    Nothing,
    /// Set the brightness to [`BRIGHTNESS_DIM`].
    Dim,
    /// Set the brightness to [`BRIGHTNESS_AOD`].
    ShowAod,
    /// Set the brightness to [`BRIGHTNESS_OFF`] and put the panel to sleep.
    SwitchOff,
}

impl Watch {
    /// The watch after it was used.
    pub open spec fn used(self) -> Watch {
        if self.screen == Screen::Bright {
            Watch { last_interaction: self.now, ..self }
        } else if self.app == AppState::Watchface {
            Watch {
                last_interaction: self.now,
                screen: Screen::Bright,
                next_flush: self.now,
                face: self.face.redrawn(),
                page_dirty: true,
                ..self
            }
        } else {
            Watch {
                last_interaction: self.now,
                screen: Screen::Bright,
                next_flush: self.now,
                ..self
            }
        }
    }

    /// Whether the clock page is what the screen shows.
    pub open spec fn shows_clock(self) -> bool {
        self.app == AppState::Watchface && self.page == Page::Clock
    }

    /// The screen state that the idle time leads to.
    pub open spec fn idle_screen(self) -> Screen {
        let secs = self.idle_secs();
        if secs >= OFF_AFTER {
            Screen::Off
        } else if secs >= AOD_AFTER && self.screen.interactive() {
            if self.shows_clock() {
                Screen::Aod
            } else {
                Screen::Off
            }
        } else if secs >= DIM_AFTER && self.screen == Screen::Bright {
            Screen::Dim
        } else {
            self.screen
        }
    }

    /// The watch after its idle time was looked at. An always-on display that begins has no
    /// minute on it yet.
    pub open spec fn idled(self) -> Watch {
        Watch {
            screen: self.idle_screen(),
            aod_last_minute: if self.idle_screen() == Screen::Aod && self.screen != Screen::Aod {
                NO_MINUTE
            } else {
                self.aod_last_minute
            },
            ..self
        }
    }

    /// Wakes the watch where it was used: by a finger, a gesture, a tap or the boot button.
    pub fn wake(
        &mut self,
        touch_low: bool,
        swipe: Option<SwipeDirection>,
        tap: bool,
        boot_low: bool,
    ) -> (action: Wake)
        requires
            old(self).wf(),
        ensures
            ({
                let used = touch_low || swipe is Some || tap || boot_low;
                &&& *final(self) == (if used {
                    old(self).used()
                } else {
                    *old(self)
                })
                &&& action == (if !used || old(self).screen == Screen::Bright {
                    Wake::Nothing
                } else if old(self).screen == Screen::Off {
                    Wake::SwitchOn
                } else {
                    Wake::Brighten
                })
            }),
            final(self).wf(),
    {
        if !(touch_low || swipe.is_some() || tap || boot_low) {
            return Wake::Nothing;
        }
        self.last_interaction = self.now;
        if self.screen == Screen::Bright {
            return Wake::Nothing;
        }
        let was_off = self.screen == Screen::Off;
        self.screen = Screen::Bright;
        self.next_flush = self.now;
        if self.app == AppState::Watchface {
            self.face.force_redraw();
            self.page_dirty = true;
        }
        if was_off {
            Wake::SwitchOn
        } else {
            Wake::Brighten
        }
    }

    /// Darkens the screen with the idle time.
    pub fn idle(&mut self) -> (action: Idle)
        requires
            old(self).wf(),
        ensures
            *final(self) == old(self).idled(),
            action == (if old(self).idle_screen() == old(self).screen {
                Idle::Nothing
            } else {
                match old(self).idle_screen() {
                    Screen::Off => Idle::SwitchOff,
                    Screen::Aod => Idle::ShowAod,
                    _ => Idle::Dim,
                }
            }),
            final(self).wf(),
    {
        let secs: u64 = (self.now - self.last_interaction) / SECOND;
        if secs >= OFF_AFTER && self.screen != Screen::Off {
            self.screen = Screen::Off;
            Idle::SwitchOff
        } else if secs >= AOD_AFTER && self.screen.is_interactive() {
            if self.app == AppState::Watchface && self.page == Page::Clock {
                self.screen = Screen::Aod;
                self.aod_last_minute = NO_MINUTE;
                Idle::ShowAod
            } else {
                self.screen = Screen::Off;
                Idle::SwitchOff
            }
        } else if secs >= DIM_AFTER && self.screen == Screen::Bright {
            self.screen = Screen::Dim;
            Idle::Dim
        } else {
            Idle::Nothing
        }
    }

    /// Whole seconds since the radio was last dropped or joined, or tried to be.
    pub open spec fn wifi_secs(self) -> int {
        (self.now - self.last_wifi_check) / SECOND as int
    }

    /// Whether the radio is to be dropped.
    pub open spec fn wifi_drop_wanted(self) -> bool {
        self.wifi_connected && self.idle_secs() >= WIFI_DROP_AFTER && self.wifi_secs()
            >= WIFI_DROP_RETRY
    }

    /// Whether the network is to be joined.
    pub open spec fn wifi_join_wanted(self) -> bool {
        !self.wifi_connected && self.screen == Screen::Bright && self.wifi_secs()
            >= WIFI_JOIN_RETRY
    }

    /// The watch with the radio dropped or joined.
    pub open spec fn with_wifi(self, connected: bool) -> Watch {
        Watch {
            wifi_connected: connected,
            face: WatchFace { wifi_connected: connected, ..self.face },
            ..self
        }
    }

    /// Whether to drop the radio now; the attempt is noted.
    pub fn wifi_drop_due(&mut self) -> (due: bool)
        requires
            old(self).wf(),
        ensures
            due == old(self).wifi_drop_wanted(),
            *final(self) == (if due {
                Watch { last_wifi_check: old(self).now, ..*old(self) }
            } else {
                *old(self)
            }),
            final(self).wf(),
    {
        let idle: u64 = (self.now - self.last_interaction) / SECOND;
        let since: u64 = (self.now - self.last_wifi_check) / SECOND;
        let due = self.wifi_connected && idle >= WIFI_DROP_AFTER && since >= WIFI_DROP_RETRY;
        if due {
            self.last_wifi_check = self.now;
        }
        due
    }

    /// Takes whether dropping the radio succeeded.
    pub fn wifi_dropped(&mut self, ok: bool)
        requires
            old(self).wf(),
        ensures
            *final(self) == (if ok {
                old(self).with_wifi(false)
            } else {
                *old(self)
            }),
            final(self).wf(),
    {
        if ok {
            self.wifi_connected = false;
            self.face.wifi_connected = false;
        }
    }

    /// Whether to join the network now; the attempt is noted.
    pub fn wifi_join_due(&mut self) -> (due: bool)
        requires
            old(self).wf(),
        ensures
            due == old(self).wifi_join_wanted(),
            *final(self) == (if due {
                Watch { last_wifi_check: old(self).now, ..*old(self) }
            } else {
                *old(self)
            }),
            final(self).wf(),
    {
        let since: u64 = (self.now - self.last_wifi_check) / SECOND;
        let due = !self.wifi_connected && self.screen == Screen::Bright && since
            >= WIFI_JOIN_RETRY;
        if due {
            self.last_wifi_check = self.now;
        }
        due
    }

    /// Takes whether joining the network succeeded.
    pub fn wifi_joined(&mut self, ok: bool)
        requires
            old(self).wf(),
        ensures
            *final(self) == (if ok {
                old(self).with_wifi(true)
            } else {
                *old(self)
            }),
            final(self).wf(),
    {
        if ok {
            self.wifi_connected = true;
            self.face.wifi_connected = true;
        }
    }

    /// Whether the always-on display shows another minute than the clock.
    pub open spec fn aod_wanted(self, minutes: u8) -> bool {
        self.screen == Screen::Aod && minutes != self.aod_last_minute
    }

    /// The watch with the values for another minute of the always-on display.
    pub open spec fn with_aod_minute(self, t: DateTime, pct: Option<u8>) -> Watch {
        let face = self.face.with_time(t.hours, t.minutes, t.seconds);
        Watch {
            aod_last_minute: t.minutes,
            face: match pct {
                Some(p) => face.with_battery(p, self.batt_mv, self.charging),
                None => face,
            },
            ..self
        }
    }

    /// Whether the always-on display has to be drawn for the minute that the clock chip gives.
    pub fn aod_due(&self, minutes: u8) -> (due: bool)
        ensures
            due == self.aod_wanted(minutes),
    {
        self.screen == Screen::Aod && minutes != self.aod_last_minute
    }

    /// Takes the time, and the charge where it could be read, for the next picture of the
    /// always-on display.
    pub fn aod_minute(&mut self, t: DateTime, pct: Option<u8>)
        requires
            old(self).wf(),
            old(self).aod_wanted(t.minutes),
        ensures
            *final(self) == old(self).with_aod_minute(t, pct),
            final(self).wf(),
    {
        self.aod_last_minute = t.minutes;
        self.face.update_time(t.hours, t.minutes, t.seconds);
        if let Some(p) = pct {
            self.face.update_battery(p, self.batt_mv, self.charging);
        }
    }
}

/// Using the watch brings it to full brightness, and no idle time is left.
pub proof fn law_use_wakes(w: Watch)
    requires
        w.wf(),
    ensures
        w.used().screen == Screen::Bright,
        w.used().idle_secs() == 0,
        w.used().idled() == w.used(),
{
}

/// Idling never brightens the screen.
pub proof fn law_idle_only_darkens(w: Watch)
    ensures
        w.idled().screen.level() <= w.screen.level(),
{
}

/// Whatever the screen shows, it is off after ten idle minutes, not interactive after forty idle
/// seconds and not bright after twenty; before twenty it is left as it is.
pub proof fn law_idle_schedule(w: Watch)
    ensures
        w.idle_secs() >= OFF_AFTER ==> w.idled().screen == Screen::Off,
        w.idle_secs() >= AOD_AFTER ==> !w.idled().screen.interactive(),
        w.idle_secs() >= DIM_AFTER ==> w.idled().screen != Screen::Bright,
        w.idle_secs() < DIM_AFTER ==> w.idled() == w,
{
}

/// Looking at the same idle time again changes nothing.
pub proof fn law_idle_settles(w: Watch)
    ensures
        w.idled().idled() == w.idled(),
{
}

/// The always-on display only ever begins on the clock page, and then has a picture due whatever
/// the minute.
pub proof fn law_aod_begins_on_clock(w: Watch, minutes: u8)
    requires
        w.screen != Screen::Aod,
        w.idled().screen == Screen::Aod,
        minutes < 60,
    ensures
        w.shows_clock(),
        w.idled().aod_wanted(minutes),
{
}

/// The always-on display is drawn once for each minute.
pub proof fn law_aod_once_a_minute(w: Watch, t: DateTime, pct: Option<u8>)
    ensures
        !w.with_aod_minute(t, pct).aod_wanted(t.minutes),
{
}

/// The radio is never dropped while the watch is in use, and never dropped and joined, or tried
/// to be, in the same frame.
pub proof fn law_wifi_drop_and_join_apart(w: Watch)
    requires
        w.wf(),
    ensures
        w.idle_secs() < WIFI_DROP_AFTER ==> !w.wifi_drop_wanted(),
        !(w.wifi_drop_wanted() && w.wifi_join_wanted()),
        !(Watch { last_wifi_check: w.now, ..w }).with_wifi(false).wifi_join_wanted(),
{
}

} // verus!
