//! Laws of the screen's brightness, the always-on display and the radio.

use vstd::prelude::*;

use crate::modes::{AppState, Page, Screen, SwipeDirection};
use crate::ntp::DateTime;
use crate::power::{
    Idle, Wake, BRIGHTNESS_AOD, BRIGHTNESS_DIM, BRIGHTNESS_FULL, BRIGHTNESS_OFF, PANEL_SETTLE_MS,
};
use crate::watch::Watch;
use crate::watchface::WatchFace;

verus! {

/// Any use of the watch, by finger, gesture, tap or button, makes the screen bright and ends the
/// idle time. A screen that was not bright is drawn anew at once, the watch face from scratch.
/// Without a use nothing changes.
pub proof fn law_use_makes_bright(
    w: &mut Watch,
    touch_low: bool,
    swipe: Option<SwipeDirection>,
    tap: bool,
    boot_low: bool,
    action: Wake,
)
    requires
        call_ensures(Watch::wake, (w, touch_low, swipe, tap, boot_low), action),
    ensures
        !touch_low && swipe is None && !tap && !boot_low ==> *final(w) == *old(w) && action
            == Wake::Nothing,
        touch_low || swipe is Some || tap || boot_low ==> {
            let dark = old(w).screen != Screen::Bright;
            let redraw = dark && old(w).app == AppState::Watchface;
            &&& action == Wake::Nothing <==> !dark
            &&& action == Wake::SwitchOn <==> old(w).screen == Screen::Off
            &&& *final(w) == (Watch {
                last_interaction: old(w).now,
                screen: Screen::Bright,
                next_flush: if dark {
                    old(w).now
                } else {
                    old(w).next_flush
                },
                page_dirty: redraw || old(w).page_dirty,
                face: WatchFace {
                    full_redraw: redraw || old(w).face.full_redraw,
                    ..old(w).face
                },
                ..*old(w)
            })
        },
{
}

/// The idle screen. Before 20 seconds it is left as it is. From 20 to 40 seconds a bright screen
/// is dimmed, whatever it shows, and any other is left as it is. From 40 seconds to ten minutes a
/// bright or dimmed screen gives way to the always-on display where it shows the clock page and
/// goes off where it does not, and a dark one is left as it is. After ten minutes it is off.
pub proof fn law_idle_screen(w: &mut Watch, action: Idle)
    requires
        call_ensures(Watch::idle, (w,), action),
    ensures
        ({
            let idle = old(w).now - old(w).last_interaction;
            let lit = old(w).screen == Screen::Bright || old(w).screen == Screen::Dim;
            let clock = old(w).app == AppState::Watchface && old(w).page == Page::Clock;
            &&& idle < 20_000_000 ==> final(w).screen == old(w).screen
            &&& 20_000_000 <= idle < 40_000_000 && old(w).screen == Screen::Bright
                ==> final(w).screen == Screen::Dim
            &&& 20_000_000 <= idle < 40_000_000 && old(w).screen != Screen::Bright
                ==> final(w).screen == old(w).screen
            &&& 40_000_000 <= idle < 600_000_000 && lit && clock ==> final(w).screen == Screen::Aod
            &&& 40_000_000 <= idle < 600_000_000 && lit && !clock ==> final(w).screen
                == Screen::Off
            &&& 40_000_000 <= idle < 600_000_000 && !lit ==> final(w).screen == old(w).screen
            &&& idle >= 600_000_000 ==> final(w).screen == Screen::Off
        }),
        final(w).screen == old(w).screen ==> action == Idle::Nothing && *final(w) == *old(w),
        final(w).screen != old(w).screen ==> {
            &&& final(w).screen == Screen::Dim <==> action == Idle::Dim
            &&& final(w).screen == Screen::Aod <==> action == Idle::ShowAod
            &&& final(w).screen == Screen::Off <==> action == Idle::SwitchOff
        },
        final(w).screen == Screen::Aod && old(w).screen != Screen::Aod
            ==> final(w).aod_last_minute == 99,
        final(w).screen != Screen::Aod ==> final(w).aod_last_minute == old(w).aod_last_minute,
        *final(w) == (Watch {
            screen: final(w).screen,
            aod_last_minute: final(w).aod_last_minute,
            ..*old(w)
        }),
{
}

/// The panel: whether it is on, and how bright it is set.
pub struct Panel {
    pub on: bool,
    pub level: u8,
}

/// Whether the panel is as a screen state wants it.
pub open spec fn panel_fits(panel: Panel, screen: Screen) -> bool {
    match screen {
        Screen::Off => !panel.on,
        Screen::Aod => panel.on && panel.level == 0x18,
        Screen::Dim => panel.on && panel.level == 0x40,
        Screen::Bright => panel.on && panel.level == 0xD0,
    }
}

/// The panel after what waking up asks of it.
pub open spec fn panel_woken(panel: Panel, action: Wake) -> Panel {
    match action {
        Wake::Nothing => panel,
        Wake::Brighten => Panel { level: BRIGHTNESS_FULL, ..panel },
        Wake::SwitchOn => Panel { on: true, level: BRIGHTNESS_FULL },
    }
}

/// The panel after what idling asks of it.
pub open spec fn panel_idled(panel: Panel, action: Idle) -> Panel {
    match action {
        Idle::Nothing => panel,
        Idle::Dim => Panel { level: BRIGHTNESS_DIM, ..panel },
        Idle::ShowAod => Panel { level: BRIGHTNESS_AOD, ..panel },
        Idle::SwitchOff => Panel { on: false, level: BRIGHTNESS_OFF },
    }
}

/// A panel that is as the screen state wants it stays so when the watch wakes up. It is switched
/// on only where it was off.
pub proof fn law_panel_follows_waking(
    w: &mut Watch,
    touch_low: bool,
    swipe: Option<SwipeDirection>,
    tap: bool,
    boot_low: bool,
    action: Wake,
    panel: Panel,
)
    requires
        call_ensures(Watch::wake, (w, touch_low, swipe, tap, boot_low), action),
        panel_fits(panel, old(w).screen),
    ensures
        panel_fits(panel_woken(panel, action), final(w).screen),
        action == Wake::SwitchOn ==> !panel.on && PANEL_SETTLE_MS == 20,
{
}

/// A panel that is as the screen state wants it stays so while the watch idles. It is switched off
/// only where it was on, and then at no brightness.
pub proof fn law_panel_follows_idling(w: &mut Watch, action: Idle, panel: Panel)
    requires
        call_ensures(Watch::idle, (w,), action),
        panel_fits(panel, old(w).screen),
    ensures
        panel_fits(panel_idled(panel, action), final(w).screen),
        action == Idle::SwitchOff ==> panel.on && panel_idled(panel, action).level == 0,
{
}

/// The radio is dropped after five idle minutes, where it is connected and a minute has passed
/// since the last attempt. The attempt is noted, and nothing else changes.
pub proof fn law_radio_is_dropped(w: &mut Watch, due: bool)
    requires
        call_ensures(Watch::wifi_drop_due, (w,), due),
    ensures
        due <==> old(w).wifi_connected && old(w).now - old(w).last_interaction >= 300_000_000
            && old(w).now - old(w).last_wifi_check >= 60_000_000,
        due ==> *final(w) == (Watch { last_wifi_check: old(w).now, ..*old(w) }),
        !due ==> *final(w) == *old(w),
{
}

/// The network is joined again on a bright screen, where it is not connected and five seconds have
/// passed since the last attempt. The attempt is noted, and nothing else changes.
pub proof fn law_radio_is_joined(w: &mut Watch, due: bool)
    requires
        call_ensures(Watch::wifi_join_due, (w,), due),
    ensures
        due <==> !old(w).wifi_connected && old(w).screen == Screen::Bright && old(w).now - old(
            w,
        ).last_wifi_check >= 5_000_000,
        due ==> *final(w) == (Watch { last_wifi_check: old(w).now, ..*old(w) }),
        !due ==> *final(w) == *old(w),
{
}

/// Where dropping the radio succeeded, the watch and its face count as not connected; otherwise
/// nothing changes.
pub proof fn law_radio_was_dropped(w: &mut Watch, ok: bool)
    requires
        call_ensures(Watch::wifi_dropped, (w, ok), ()),
    ensures
        !ok ==> *final(w) == *old(w),
        ok ==> *final(w) == (Watch {
            wifi_connected: false,
            face: WatchFace { wifi_connected: false, ..old(w).face },
            ..*old(w)
        }),
{
}

/// Where joining the network succeeded, the watch and its face count as connected; otherwise
/// nothing changes.
pub proof fn law_radio_was_joined(w: &mut Watch, ok: bool)
    requires
        call_ensures(Watch::wifi_joined, (w, ok), ()),
    ensures
        !ok ==> *final(w) == *old(w),
        ok ==> *final(w) == (Watch {
            wifi_connected: true,
            face: WatchFace { wifi_connected: true, ..old(w).face },
            ..*old(w)
        }),
{
}

/// A picture of the always-on display is due where it is shown and shows another minute.
pub proof fn law_always_on_picture_due(w: &Watch, minutes: u8, due: bool)
    requires
        call_ensures(Watch::aod_due, (w, minutes), due),
    ensures
        due <==> w.screen == Screen::Aod && w.aod_last_minute != minutes,
{
}

/// The next picture of the always-on display gets the time and, where it could be read, the
/// charge; its minute is noted, and nothing else changes.
pub proof fn law_always_on_minute(w: &mut Watch, t: DateTime, pct: Option<u8>)
    requires
        call_ensures(Watch::aod_minute, (w, t, pct), ()),
    ensures
        final(w).aod_last_minute == t.minutes,
        final(w).face.hours == t.hours,
        final(w).face.minutes == t.minutes,
        final(w).face.seconds == t.seconds,
        final(w).face.time_changed <==> old(w).face.time_changed || old(w).face.hours != t.hours
            || old(w).face.minutes != t.minutes || old(w).face.seconds != t.seconds,
        pct is None ==> final(w).face == (WatchFace {
            hours: t.hours,
            minutes: t.minutes,
            seconds: t.seconds,
            time_changed: final(w).face.time_changed,
            ..old(w).face
        }),
        pct matches Some(p) ==> {
            &&& final(w).face == (WatchFace {
                hours: t.hours,
                minutes: t.minutes,
                seconds: t.seconds,
                time_changed: final(w).face.time_changed,
                battery_percent: p,
                battery_voltage: old(w).batt_mv,
                is_charging: old(w).charging,
                battery_changed: final(w).face.battery_changed,
                ..old(w).face
            })
            &&& final(w).face.battery_changed <==> old(w).face.battery_changed || old(
                w,
            ).face.battery_percent != p || old(w).face.battery_voltage != old(w).batt_mv || old(
                w,
            ).face.is_charging != old(w).charging
        },
        *final(w) == (Watch { aod_last_minute: t.minutes, face: final(w).face, ..*old(w) }),
{
}

/// A watch that was used stays bright for 20 seconds, dims after that, and is not dark before 40
/// seconds have passed.
pub proof fn law_used_watch_stays_lit(
    woken: &mut Watch,
    begun: &mut Watch,
    idled: &mut Watch,
    boot_low: bool,
    now: u64,
    wake: Wake,
    dt_ms: u32,
    action: Idle,
)
    requires
        old(woken).wf(),
        old(woken).now <= now,
        call_ensures(Watch::wake, (woken, true, None, false, boot_low), wake),
        *old(begun) == *final(woken),
        call_ensures(Watch::begin_frame, (begun, now), dt_ms),
        *old(idled) == *final(begun),
        call_ensures(Watch::idle, (idled,), action),
    ensures
        now - old(woken).now < 20_000_000 ==> final(idled).screen == Screen::Bright && action
            == Idle::Nothing,
        20_000_000 <= now - old(woken).now < 40_000_000 ==> final(idled).screen == Screen::Dim
            && action == Idle::Dim,
        now - old(woken).now >= 40_000_000 ==> final(idled).screen == Screen::Aod
            || final(idled).screen == Screen::Off,
{
}

/// Two attempts to drop the radio are a minute apart or more.
pub proof fn law_radio_attempts_are_apart(
    first: &mut Watch,
    begun: &mut Watch,
    second: &mut Watch,
    now: u64,
    dt_ms: u32,
    again: bool,
)
    requires
        call_ensures(Watch::wifi_drop_due, (first,), true),
        *old(begun) == *final(first),
        call_ensures(Watch::begin_frame, (begun, now), dt_ms),
        *old(second) == *final(begun),
        call_ensures(Watch::wifi_drop_due, (second,), again),
    ensures
        again ==> now - old(first).now >= 60_000_000,
{
}

/// Once a minute of the always-on display was taken, no picture is due before the next one.
pub proof fn law_always_on_minute_is_done(w: &mut Watch, t: DateTime, pct: Option<u8>, due: bool)
    requires
        call_ensures(Watch::aod_minute, (w, t, pct), ()),
        call_ensures(Watch::aod_due, (&*final(w), t.minutes), due),
    ensures
        !due,
{
}

} // verus!
