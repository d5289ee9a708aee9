//! Laws of the applications and of the way that a frame takes.

use vstd::prelude::*;

use crate::apps::{
    flappy_touch, AppResult, AppWork, Flush, FramePath, LaunchWork, PageWork, BOOT_PAUSE_MS,
};
use crate::modes::{AppState, Page, Screen, SwipeDirection, TouchPoint};
use crate::watch::Watch;
use crate::watchface::WatchFace;

verus! {

/// The flapping game is given one finger in the middle of the screen while any finger is down.
pub proof fn law_flapping_finger(touch_low: bool, t: Option<TouchPoint>)
    requires
        call_ensures(flappy_touch, (touch_low,), t),
    ensures
        t is Some <==> touch_low,
        t matches Some(p) ==> p.x == 200 && p.y == 250 && p.fingers == 1,
{
}

/// A sleeping panel has a dark frame, the always-on display its own, and on a bright or dimmed
/// screen the application that owns it has its turn.
pub proof fn law_way_of_a_frame(w: &Watch, path: FramePath)
    requires
        call_ensures(Watch::frame_path, (w,), path),
    ensures
        path == FramePath::Dark <==> w.screen == Screen::Off,
        path == FramePath::Aod <==> w.screen == Screen::Aod,
        path is App <==> w.screen == Screen::Bright || w.screen == Screen::Dim,
        path matches FramePath::App { app } ==> app == w.app,
{
}

/// The watch face on the screen: while a page is dragged nothing is drawn and nothing changes.
/// Otherwise a dirty page is cleared and drawn from scratch; the clock page is rendered where
/// anything on it is out of date, the sensor page in every frame, the system page only when it is
/// cleared. A frame that draws is sent in step with the panel, and no other is sent.
pub proof fn law_watch_face_frame(w: &mut Watch, work: PageWork)
    requires
        call_ensures(Watch::page_work, (w,), work),
    ensures
        old(w).swiping ==> {
            &&& !work.clear && !work.draw_system && !work.render_clock && !work.draw_sensors
            &&& work.flush == Flush::Keep
            &&& *final(w) == *old(w)
        },
        !old(w).swiping ==> {
            let dirty = old(w).page_dirty;
            let stale = old(w).face.full_redraw || old(w).face.time_changed || old(
                w,
            ).face.battery_changed || old(w).face.gyro_changed;
            let drawn = dirty || (old(w).page == Page::Clock && stale) || old(w).page
                == Page::Sensors;
            &&& work.clear <==> dirty
            &&& work.draw_system <==> dirty && old(w).page == Page::System
            &&& work.render_clock <==> old(w).page == Page::Clock && (dirty || stale)
            &&& work.draw_sensors <==> old(w).page == Page::Sensors
            &&& work.flush == (if drawn {
                Flush::Vsync
            } else {
                Flush::Keep
            })
            &&& *final(w) == (Watch {
                page_dirty: false,
                next_flush: if drawn {
                    old(w).now
                } else {
                    old(w).next_flush
                },
                face: WatchFace {
                    full_redraw: old(w).face.full_redraw || (dirty && old(w).page == Page::Clock),
                    ..old(w).face
                },
                ..*old(w)
            })
        },
{
}

/// On the clock page a tap in the rows from 300 to 440 shows or hides the gyroscope and asks for a
/// full redraw, and an upward swipe opens the launcher. Nothing else does either.
pub proof fn law_gestures_on_watch_face(
    w: &mut Watch,
    swipe: Option<SwipeDirection>,
    tap: bool,
    gyro: Option<bool>,
)
    requires
        old(w).app == AppState::Watchface,
        call_ensures(Watch::face_gesture, (w, swipe, tap), gyro),
    ensures
        ({
            let clock = old(w).page == Page::Clock;
            let toggles = clock && tap && old(w).last_touch_y >= 300 && old(w).last_touch_y <= 440;
            let opens = clock && swipe == Some(SwipeDirection::Up);
            &&& gyro is Some <==> toggles
            &&& gyro matches Some(shown) ==> shown == final(w).face.gyro_enabled && shown != old(
                w,
            ).face.gyro_enabled
            &&& *final(w) == (Watch {
                app: if opens {
                    AppState::Launcher
                } else {
                    AppState::Watchface
                },
                face: WatchFace {
                    gyro_enabled: old(w).face.gyro_enabled != toggles,
                    full_redraw: old(w).face.full_redraw || toggles,
                    ..old(w).face
                },
                ..*old(w)
            })
        }),
{
}

/// The boot button goes from the watch face to the launcher, from the launcher and the snake game
/// to the watch face, drawn from scratch, and from any other application to the launcher. It asks
/// for a pause; without it nothing happens.
pub proof fn law_boot_button(w: &mut Watch, running: AppState, low: bool, pause: bool)
    requires
        call_ensures(Watch::boot_button, (w, running, low), pause),
    ensures
        pause <==> low,
        BOOT_PAUSE_MS == 200,
        !low ==> *final(w) == *old(w),
        low ==> {
            let home = running == AppState::Launcher || running == AppState::Snake;
            *final(w) == (Watch {
                app: if home {
                    AppState::Watchface
                } else {
                    AppState::Launcher
                },
                page_dirty: old(w).page_dirty || home || running == AppState::Flappy,
                face: WatchFace {
                    full_redraw: old(w).face.full_redraw || home,
                    ..old(w).face
                },
                ..*old(w)
            })
        },
{
}

/// The snake game is drawn and sent at once in the frames in which the snake moved, with a beep
/// where the score rose; leaving it leads to the watch face, drawn from scratch.
pub proof fn law_snake_frame(
    w: &mut Watch,
    result: AppResult,
    stepped: bool,
    prev_score: u32,
    score: u32,
    work: (AppWork, bool),
)
    requires
        call_ensures(Watch::snake_work, (w, result, stepped, prev_score, score), work),
    ensures
        work.0.render <==> result == AppResult::Continue && stepped,
        work.0.flush == Flush::Now <==> work.0.render,
        work.0.flush == Flush::Keep <==> !work.0.render,
        work.1 <==> work.0.render && score > prev_score,
        result == AppResult::Continue ==> *final(w) == *old(w),
        result == AppResult::Exit ==> *final(w) == (Watch {
            app: AppState::Watchface,
            page_dirty: true,
            face: WatchFace { full_redraw: true, ..old(w).face },
            ..*old(w)
        }),
{
}

/// The launcher keeps the row of a finger, and the settings its place.
pub proof fn law_finger_in_launcher(w: &mut Watch, y: u16)
    requires
        call_ensures(Watch::launcher_point, (w, y), ()),
    ensures
        final(w).last_touch_y == y,
        *final(w) == (Watch { last_touch_y: y, ..*old(w) }),
{
}

/// The settings keep the place of a finger.
pub proof fn law_finger_in_settings(w: &mut Watch, x: u16, y: u16)
    requires
        call_ensures(Watch::settings_point, (w, x, y), ()),
    ensures
        final(w).last_touch_x == x,
        final(w).last_touch_y == y,
        *final(w) == (Watch { last_touch_x: x, last_touch_y: y, ..*old(w) }),
{
}

/// A choice in the launcher opens the chosen application. The games, the player and the smart home
/// are set up, the tile game is drawn at once as well, and the watch face is drawn from scratch.
/// Without a choice the launcher is drawn.
pub proof fn law_choice_in_launcher(w: &mut Watch, choice: Option<AppState>, work: LaunchWork)
    requires
        call_ensures(Watch::launch, (w, choice), work),
    ensures
        choice is None ==> work == LaunchWork::DrawLauncher && *final(w) == *old(w),
        choice matches Some(app) ==> {
            let home = app == AppState::Watchface;
            &&& work == LaunchWork::SetUpAndDraw <==> app == AppState::Game2048
            &&& work == LaunchWork::SetUp <==> app == AppState::Snake || app == AppState::Tetris
                || app == AppState::Flappy || app == AppState::Maze || app == AppState::Mp3Player
                || app == AppState::SmartHome
            &&& work == LaunchWork::Nothing <==> home || app == AppState::Settings || app
                == AppState::Launcher
            &&& *final(w) == (Watch {
                app,
                page_dirty: old(w).page_dirty || home,
                face: WatchFace {
                    full_redraw: old(w).face.full_redraw || home,
                    ..old(w).face
                },
                ..*old(w)
            })
        },
{
}

/// The two tile games are drawn and sent in the frames in which something happened: a swipe in
/// one, a swipe, a tap or a step in the other. When the next picture is due stays as it was.
pub proof fn law_tile_games(
    w: &mut Watch,
    swipe: Option<SwipeDirection>,
    tap: bool,
    stepped: bool,
    work: AppWork,
)
    requires
        old(w).app == AppState::Game2048 || old(w).app == AppState::Tetris,
        call_ensures(Watch::app_work, (w, swipe, tap, stepped), work),
    ensures
        old(w).app == AppState::Game2048 ==> (work.render <==> swipe is Some),
        old(w).app == AppState::Tetris ==> (work.render <==> swipe is Some || tap || stepped),
        work.flush == (if work.render {
            Flush::Vsync
        } else {
            Flush::Keep
        }),
        *final(w) == *old(w),
{
}

/// The other applications send a picture once it is due, and the next one is due a fixed time
/// later: 33 milliseconds in the flapping game and the maze, 50 in the settings, 100 in the smart
/// home, 200 in the player. The maze is drawn for each picture, the others in every frame; the
/// flapping game swaps its framebuffers.
pub proof fn law_steady_applications(
    w: &mut Watch,
    swipe: Option<SwipeDirection>,
    tap: bool,
    stepped: bool,
    work: AppWork,
)
    requires
        old(w).wf(),
        old(w).app == AppState::Flappy || old(w).app == AppState::Maze || old(w).app
            == AppState::Settings || old(w).app == AppState::SmartHome || old(w).app
            == AppState::Mp3Player,
        call_ensures(Watch::app_work, (w, swipe, tap, stepped), work),
    ensures
        ({
            let due = old(w).now >= old(w).next_flush;
            &&& work.render <==> due || old(w).app != AppState::Maze
            &&& work.flush == Flush::Keep <==> !due
            &&& work.flush == Flush::Swap <==> due && old(w).app == AppState::Flappy
            &&& work.flush == Flush::Vsync <==> due && old(w).app != AppState::Flappy
            &&& !due ==> *final(w) == *old(w)
            &&& due ==> *final(w) == (Watch { next_flush: final(w).next_flush, ..*old(w) })
            &&& due && (old(w).app == AppState::Flappy || old(w).app == AppState::Maze)
                ==> final(w).next_flush == old(w).now + 33_000
            &&& due && old(w).app == AppState::Settings ==> final(w).next_flush == old(w).now
                + 50_000
            &&& due && old(w).app == AppState::SmartHome ==> final(w).next_flush == old(w).now
                + 100_000
            &&& due && old(w).app == AppState::Mp3Player ==> final(w).next_flush == old(w).now
                + 200_000
        }),
{
}

/// Pressed twice, the boot button leads from the watch face to the launcher and back.
pub proof fn law_boot_button_returns(
    first: &mut Watch,
    second: &mut Watch,
    pause: bool,
    again: bool,
)
    requires
        old(first).app == AppState::Watchface,
        call_ensures(Watch::boot_button, (first, AppState::Watchface, true), pause),
        *old(second) == *final(first),
        call_ensures(Watch::boot_button, (second, old(second).app, true), again),
    ensures
        final(first).app == AppState::Launcher,
        final(second).app == AppState::Watchface,
        final(second).page_dirty && final(second).face.full_redraw,
{
}

} // verus!
