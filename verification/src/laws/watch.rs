//! Laws of how the watch starts and how a frame begins.

use vstd::prelude::*;

use crate::modes::{AppState, Page, Screen};
use crate::ntp::DateTime;
use crate::watch::{ImuPower, Watch};
use crate::watchface::WatchFace;

verus! {

/// A screen that answers to touch is bright or dimmed.
pub proof fn law_interactive_screens(screen: Screen, b: bool)
    requires
        call_ensures(Screen::is_interactive, (screen,), b),
    ensures
        b <==> screen == Screen::Bright || screen == Screen::Dim,
{
}

/// The watch starts on its clock page at full brightness, with a new face, the radio connected,
/// the motion sensor off, nothing touched and everything due at once.
pub proof fn law_watch_starts(now: u64, w: Watch, face: WatchFace)
    requires
        call_ensures(Watch::new, (now,), w),
        call_ensures(WatchFace::new, (), face),
    ensures
        w.face == (WatchFace { wifi_connected: true, ..face }),
        w.page == Page::Clock && w.app == AppState::Watchface && w.screen == Screen::Bright,
        w.last_touch_x == 0 && w.last_touch_y == 0 && !w.was_touching,
        w.batt_pct == 0 && w.batt_mv == 0 && !w.charging,
        w.page_dirty && !w.swiping && w.swipe_dir == 0 && w.swipe_start_x == 0,
        w.aod_last_minute == 99,
        w.wifi_connected && !w.imu_powered,
        w.now == now && w.last_interaction == now && w.last_wifi_check == now,
        w.next_rtc == now && w.next_battery == now && w.next_flush == now,
{
}

/// What a battery reading leaves on the watch and its face: without a charge everything stays as
/// it was; a missing voltage counts as 0 and an unknown charger as unplugged. The battery on the
/// face is out of date where any of the three differs from what the face held.
pub open spec fn took_battery(
    before: Watch,
    after: Watch,
    pct: Option<u8>,
    mv: Option<u16>,
    charging: Option<bool>,
) -> bool {
    match pct {
        None => after.face == before.face && after.batt_pct == before.batt_pct && after.batt_mv
            == before.batt_mv && after.charging == before.charging,
        Some(p) => {
            &&& after.batt_pct == p
            &&& mv matches Some(v) ==> after.batt_mv == v
            &&& mv is None ==> after.batt_mv == 0
            &&& after.charging <==> charging == Some(true)
            &&& after.face == (WatchFace {
                battery_percent: p,
                battery_voltage: after.batt_mv,
                is_charging: after.charging,
                battery_changed: after.face.battery_changed,
                ..before.face
            })
            &&& after.face.battery_changed <==> before.face.battery_changed
                || before.face.battery_percent != p || before.face.battery_voltage
                != after.batt_mv || before.face.is_charging != after.charging
        },
    }
}

/// What a reading of the clock chip leaves on the face: a missing one nothing, and otherwise the
/// time and the date, with the time out of date where it differs from what the face held.
pub open spec fn took_clock(before: WatchFace, after: WatchFace, time: Option<DateTime>) -> bool {
    match time {
        None => after == before,
        Some(t) => {
            &&& after == (WatchFace {
                hours: t.hours,
                minutes: t.minutes,
                seconds: t.seconds,
                day: t.day,
                month: t.month,
                year: t.year,
                time_changed: after.time_changed,
                ..before
            })
            &&& after.time_changed <==> before.time_changed || before.hours != t.hours
                || before.minutes != t.minutes || before.seconds != t.seconds
        },
    }
}

/// The first readings are taken, battery and clock alike, and the face is to be drawn as a whole.
pub proof fn law_first_readings(
    w: &mut Watch,
    pct: Option<u8>,
    mv: Option<u16>,
    charging: Option<bool>,
    time: Option<DateTime>,
)
    requires
        call_ensures(Watch::first_readings, (w, pct, mv, charging, time), ()),
    ensures
        final(w).face.full_redraw,
        exists|between: Watch, read: WatchFace|
            {
                &&& took_battery(*old(w), between, pct, mv, charging)
                &&& #[trigger] took_clock(between.face, read, time)
                &&& *final(w) == (Watch {
                    face: WatchFace { full_redraw: true, ..read },
                    batt_pct: between.batt_pct,
                    batt_mv: between.batt_mv,
                    charging: between.charging,
                    ..*old(w)
                })
            },
{
    let between = old(w).with_battery(pct, mv, charging);
    let read = between.with_clock(time).face;
    assert(took_battery(*old(w), between, pct, mv, charging));
    assert(took_clock(between.face, read, time));
}

/// Entering the loop makes every reading and picture due now, and changes nothing that is shown.
pub proof fn law_loop_begins(w: &mut Watch, now: u64)
    requires
        call_ensures(Watch::enter_loop, (w, now), ()),
    ensures
        *final(w) == (Watch {
            now,
            next_rtc: now,
            next_battery: now,
            next_flush: now,
            last_wifi_check: now,
            imu_powered: false,
            was_touching: false,
            ..*old(w)
        }),
{
}

/// How long the watch sleeps: a frame of 60 a second while a finger or the button is held; half a
/// minute while the screen is off and ten seconds on the always-on display; and otherwise as the
/// application and, on the watch face, the page need it.
pub proof fn law_sleeping_times(w: &Watch, touch_held: bool, button_held: bool, ms: u64)
    requires
        call_ensures(Watch::tick_ms, (w, touch_held, button_held), ms),
    ensures
        touch_held || button_held ==> ms == 16,
        !touch_held && !button_held ==> {
            let awake = w.screen == Screen::Bright || w.screen == Screen::Dim;
            let face = awake && w.app == AppState::Watchface;
            &&& w.screen == Screen::Off ==> ms == 30_000
            &&& w.screen == Screen::Aod ==> ms == 10_000
            &&& face && w.page == Page::Clock && w.face.gyro_enabled ==> ms == 33
            &&& face && w.page == Page::Clock && !w.face.gyro_enabled ==> ms == 1_000
            &&& face && w.page == Page::Sensors ==> ms == 100
            &&& face && w.page == Page::System ==> ms == 2_000
            &&& awake && w.app == AppState::Launcher ==> ms == 100
            &&& awake && w.app == AppState::Settings ==> ms == 100
            &&& awake && w.app == AppState::Mp3Player ==> ms == 100
            &&& awake && w.app == AppState::SmartHome ==> ms == 100
            &&& awake && w.app == AppState::Flappy ==> ms == 8
            &&& awake && w.app == AppState::Snake ==> ms == 16
            &&& awake && w.app == AppState::Game2048 ==> ms == 16
            &&& awake && w.app == AppState::Tetris ==> ms == 16
            &&& awake && w.app == AppState::Maze ==> ms == 16
        },
{
}

/// A frame takes the time, and hands out the whole milliseconds since the last one, at least one.
/// The count holds 2^32 milliseconds; of a longer time it keeps what is left after `wraps` of them.
pub proof fn law_frame_begins(w: &mut Watch, now: u64, dt_ms: u32, wraps: int)
    requires
        0 <= now - old(w).now - 4_294_967_296_000 * wraps < 4_294_967_296_000,
        call_ensures(Watch::begin_frame, (w, now), dt_ms),
    ensures
        *final(w) == (Watch { now, ..*old(w) }),
        ({
            let rest = now - old(w).now - 4_294_967_296_000 * wraps;
            if rest < 1_000 {
                dt_ms == 1
            } else {
                1_000 * dt_ms <= rest && rest < 1_000 * dt_ms + 1_000
            }
        }),
{
    let elapsed = now - old(w).now;
    let rest = elapsed - 4_294_967_296_000 * wraps;
    assert(elapsed / 1_000 == 4_294_967_296 * wraps + rest / 1_000);
    assert(elapsed / 1_000 % 4_294_967_296 == rest / 1_000) by (nonlinear_arith)
        requires
            elapsed / 1_000 == 4_294_967_296 * wraps + rest / 1_000,
            0 <= rest / 1_000 < 4_294_967_296,
    ;
}

/// The motion sensor is needed on an interactive screen, and there by the gyroscope of the clock
/// page, by the sensor page, and by the three games that are steered by tilting.
pub proof fn law_motion_sensor_is_needed(w: &Watch, b: bool)
    requires
        call_ensures(Watch::needs_imu, (w,), b),
    ensures
        w.screen == Screen::Off || w.screen == Screen::Aod ==> !b,
        w.screen == Screen::Bright || w.screen == Screen::Dim ==> {
            &&& w.face.gyro_enabled ==> b
            &&& w.app == AppState::Maze || w.app == AppState::Tetris || w.app == AppState::Flappy
                ==> b
            &&& w.app == AppState::Watchface && w.page == Page::Sensors ==> b
            &&& !w.face.gyro_enabled && w.app == AppState::Watchface && w.page != Page::Sensors
                ==> !b
            &&& !w.face.gyro_enabled && (w.app == AppState::Launcher || w.app == AppState::Snake
                || w.app == AppState::Game2048 || w.app == AppState::Settings || w.app
                == AppState::Mp3Player || w.app == AppState::SmartHome) ==> !b
        },
{
}

/// Once the sensor's supply was switched as asked, it is on exactly where the sensor is needed,
/// the watch knows it, and nothing else changed. It is never switched to what it is already.
pub proof fn law_motion_sensor_is_switched(w: &mut Watch, need: bool, action: ImuPower)
    requires
        call_ensures(Watch::needs_imu, (&*old(w),), need),
        call_ensures(Watch::imu_power, (w,), action),
    ensures
        *final(w) == (Watch { imu_powered: need, ..*old(w) }),
        action == ImuPower::Up <==> need && !old(w).imu_powered,
        action == ImuPower::Down <==> !need && old(w).imu_powered,
        action == ImuPower::Keep <==> need == old(w).imu_powered,
{
}

/// An acceleration goes to the face, each axis in its place, and nothing but the face changes.
pub proof fn law_watch_takes_acceleration(w: &mut Watch, x: i16, y: i16, z: i16, at: (i32, i32))
    requires
        call_ensures(Watch::take_accel, (w, x, y, z), ()),
        call_ensures(WatchFace::projected_ball_position, (x, y), at),
    ensures
        *final(w) == (Watch { face: final(w).face, ..*old(w) }),
        final(w).face == (WatchFace {
            accel_x: x,
            accel_y: y,
            accel_z: z,
            gyro_changed: final(w).face.gyro_changed,
            ..old(w).face
        }),
        final(w).face.gyro_changed <==> old(w).face.gyro_changed || at.0 - old(w).face.prev_ball_x
            >= 2 || old(w).face.prev_ball_x - at.0 >= 2 || at.1 - old(w).face.prev_ball_y >= 2
            || old(w).face.prev_ball_y - at.1 >= 2,
{
}

/// The clock chip is read on an interactive screen once its time has come.
pub proof fn law_clock_due(w: &Watch, b: bool)
    requires
        call_ensures(Watch::clock_due, (w,), b),
    ensures
        b <==> (w.screen == Screen::Bright || w.screen == Screen::Dim) && w.now >= w.next_rtc,
{
}

/// A reading of the clock chip goes to the face, and the next one is due a second later, whether
/// or not this one succeeded. Nothing else changes.
pub proof fn law_clock_is_read(w: &mut Watch, time: Option<DateTime>)
    requires
        old(w).wf(),
        call_ensures(Watch::clock_read, (w, time), ()),
    ensures
        took_clock(old(w).face, final(w).face, time),
        final(w).next_rtc == old(w).now + 1_000_000,
        *final(w) == (Watch {
            face: final(w).face,
            next_rtc: final(w).next_rtc,
            ..*old(w)
        }),
{
}

/// The battery is read once its time has come, on any screen.
pub proof fn law_battery_due(w: &Watch, b: bool)
    requires
        call_ensures(Watch::battery_due, (w,), b),
    ensures
        b <==> w.now >= w.next_battery,
{
}

/// A battery reading goes to the watch and its face, and the next one is due in a minute, or in
/// five while the screen is off, whether or not this one succeeded. Nothing else changes.
pub proof fn law_battery_is_read(
    w: &mut Watch,
    pct: Option<u8>,
    mv: Option<u16>,
    charging: Option<bool>,
)
    requires
        old(w).wf(),
        call_ensures(Watch::battery_read, (w, pct, mv, charging), ()),
    ensures
        took_battery(*old(w), *final(w), pct, mv, charging),
        old(w).screen == Screen::Off ==> final(w).next_battery == old(w).now + 300_000_000,
        old(w).screen != Screen::Off ==> final(w).next_battery == old(w).now + 60_000_000,
        *final(w) == (Watch {
            face: final(w).face,
            batt_pct: final(w).batt_pct,
            batt_mv: final(w).batt_mv,
            charging: final(w).charging,
            next_battery: final(w).next_battery,
            ..*old(w)
        }),
{
}

/// After a reading of the clock chip, an unchanged watch reads it again a second later and not
/// before; the same holds of the battery with a minute, or five while the screen is off.
pub proof fn law_readings_return(
    w: &mut Watch,
    v: &mut Watch,
    time: Option<DateTime>,
    pct: Option<u8>,
    mv: Option<u16>,
    charging: Option<bool>,
    later: u64,
    clock: bool,
    battery: bool,
)
    requires
        old(w).wf(),
        old(v).wf(),
        old(w).screen == Screen::Bright,
        call_ensures(Watch::clock_read, (w, time), ()),
        call_ensures(Watch::clock_due, (&Watch { now: later, ..*final(w) },), clock),
        call_ensures(Watch::battery_read, (v, pct, mv, charging), ()),
        call_ensures(Watch::battery_due, (&Watch { now: later, ..*final(v) },), battery),
    ensures
        clock <==> later - old(w).now >= 1_000_000,
        battery <==> later - old(v).now >= (if old(v).screen == Screen::Off {
            300_000_000int
        } else {
            60_000_000
        }),
{
}

} // verus!
