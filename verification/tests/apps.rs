use waveshare_watch::apps::{
    flappy_touch, AppResult, AppWork, Flush, FramePath, LaunchWork, PageWork, BOOT_PAUSE_MS,
};
use waveshare_watch::audio::{beep_steps, boot_steps, AudioStep};
use waveshare_watch::draw::DrawFailure;
use waveshare_watch::modes::{AppState, Page, Screen, SwipeDirection, TouchPoint};
use waveshare_watch::power::{Idle, Wake};
use waveshare_watch::watch::Watch;

const QUIET: PageWork = PageWork {
    clear: false,
    draw_system: false,
    render_clock: false,
    draw_sensors: false,
    flush: Flush::Keep,
};

const IDLE: AppWork = AppWork { render: false, flush: Flush::Keep };

#[test]
fn clock_page_is_drawn_until_it_is_up_to_date() {
    let mut w = Watch::new(5);
    let drawn = PageWork { clear: true, render_clock: true, flush: Flush::Vsync, ..QUIET };
    assert_eq!(w.page_work(), drawn);
    assert!(!w.page_dirty);
    let all: Result<(), DrawFailure<()>> = Ok(());
    assert!(w.face.render(all).is_ok());
    assert_eq!(w.page_work(), QUIET);
    w.face.update_time(1, 2, 3);
    assert_eq!(w.page_work(), PageWork { render_clock: true, flush: Flush::Vsync, ..QUIET });
}

#[test]
fn sensor_page_is_drawn_in_every_frame() {
    let mut w = Watch::new(5);
    w.page = Page::Sensors;
    w.next_flush = 0;
    assert_eq!(
        w.page_work(),
        PageWork { clear: true, draw_sensors: true, flush: Flush::Vsync, ..QUIET }
    );
    assert_eq!(w.next_flush, 5);
    assert_eq!(w.page_work(), PageWork { draw_sensors: true, flush: Flush::Vsync, ..QUIET });
}

#[test]
fn system_page_is_drawn_once() {
    let mut w = Watch::new(5);
    w.page = Page::System;
    assert_eq!(
        w.page_work(),
        PageWork { clear: true, draw_system: true, flush: Flush::Vsync, ..QUIET }
    );
    assert_eq!(w.page_work(), QUIET);
}

#[test]
fn dragged_page_is_not_drawn() {
    let mut w = Watch::new(5);
    w.swiping = true;
    w.swipe_dir = 1;
    assert_eq!(w.page_work(), QUIET);
    assert!(w.page_dirty);
}

#[test]
fn tap_on_the_gyroscope_section_toggles_it() {
    let mut w = Watch::new(0);
    w.last_touch_y = 370;
    assert_eq!(w.face_gesture(Some(SwipeDirection::Tap), true), Some(true));
    assert!(w.face.gyro_enabled && w.face.full_redraw);
    assert_eq!(w.face_gesture(Some(SwipeDirection::Tap), true), Some(false));
    w.last_touch_y = 299;
    assert_eq!(w.face_gesture(Some(SwipeDirection::Tap), true), None);
    w.last_touch_y = 370;
    w.page = Page::System;
    assert_eq!(w.face_gesture(Some(SwipeDirection::Tap), true), None);
    assert_eq!(w.app, AppState::Watchface);
}

#[test]
fn upward_swipe_on_the_clock_opens_the_launcher() {
    let mut w = Watch::new(0);
    assert_eq!(w.face_gesture(Some(SwipeDirection::Up), false), None);
    assert_eq!(w.app, AppState::Launcher);
    let mut w = Watch::new(0);
    w.page = Page::Sensors;
    w.face_gesture(Some(SwipeDirection::Up), false);
    assert_eq!(w.app, AppState::Watchface);
    w.face_gesture(Some(SwipeDirection::Left), false);
    assert_eq!(w.app, AppState::Watchface);
}

#[test]
fn boot_button_leads_back() {
    for (running, to, dirty) in [
        (AppState::Watchface, AppState::Launcher, false),
        (AppState::Launcher, AppState::Watchface, true),
        (AppState::Snake, AppState::Watchface, true),
        (AppState::Flappy, AppState::Launcher, true),
        (AppState::Game2048, AppState::Launcher, false),
        (AppState::Tetris, AppState::Launcher, false),
        (AppState::Maze, AppState::Launcher, false),
        (AppState::Settings, AppState::Launcher, false),
        (AppState::Mp3Player, AppState::Launcher, false),
        (AppState::SmartHome, AppState::Launcher, false),
    ] {
        let mut w = Watch::new(0);
        w.app = running;
        w.page_dirty = false;
        w.face.full_redraw = false;
        assert!(!w.boot_button(running, false));
        assert_eq!(w.app, running);
        assert!(w.boot_button(running, true));
        assert_eq!(w.app, to);
        assert_eq!(w.page_dirty, dirty);
        assert_eq!(w.face.full_redraw, to == AppState::Watchface);
    }
}

#[test]
fn snake_draws_when_it_steps_and_beeps_when_it_scores() {
    let drawn = AppWork { render: true, flush: Flush::Now };
    let mut w = Watch::new(0);
    w.app = AppState::Snake;
    assert_eq!(w.snake_work(AppResult::Continue, false, 1, 2), (IDLE, false));
    assert_eq!(w.snake_work(AppResult::Continue, true, 2, 2), (drawn, false));
    assert_eq!(w.snake_work(AppResult::Continue, true, 2, 3), (drawn, true));
    assert_eq!(w.app, AppState::Snake);
    w.page_dirty = false;
    assert_eq!(w.snake_work(AppResult::Exit, true, 2, 3), (IDLE, false));
    assert_eq!(w.app, AppState::Watchface);
    assert!(w.page_dirty);
}

#[test]
fn launcher_starts_applications() {
    for (choice, work) in [
        (AppState::Snake, LaunchWork::SetUp),
        (AppState::Game2048, LaunchWork::SetUpAndDraw),
        (AppState::Tetris, LaunchWork::SetUp),
        (AppState::Flappy, LaunchWork::SetUp),
        (AppState::Maze, LaunchWork::SetUp),
        (AppState::Mp3Player, LaunchWork::SetUp),
        (AppState::SmartHome, LaunchWork::SetUp),
        (AppState::Settings, LaunchWork::Nothing),
        (AppState::Launcher, LaunchWork::Nothing),
        (AppState::Watchface, LaunchWork::Nothing),
    ] {
        let mut w = Watch::new(0);
        w.app = AppState::Launcher;
        w.page_dirty = false;
        assert_eq!(w.launch(Some(choice)), work);
        assert_eq!(w.app, choice);
        assert_eq!(w.page_dirty, choice == AppState::Watchface);
    }
    let mut w = Watch::new(0);
    w.app = AppState::Launcher;
    assert_eq!(w.launch(None), LaunchWork::DrawLauncher);
    assert_eq!(w.app, AppState::Launcher);
}

#[test]
fn tile_games_draw_on_input() {
    let drawn = AppWork { render: true, flush: Flush::Vsync };
    let mut w = Watch::new(0);
    w.app = AppState::Game2048;
    assert_eq!(w.app_work(None, true, true), IDLE);
    assert_eq!(w.app_work(Some(SwipeDirection::Left), false, false), drawn);
    w.app = AppState::Tetris;
    assert_eq!(w.app_work(None, false, false), IDLE);
    assert_eq!(w.app_work(None, true, false), drawn);
    assert_eq!(w.app_work(None, false, true), drawn);
    assert_eq!(w.app_work(Some(SwipeDirection::Up), false, false), drawn);
}

#[test]
fn continuous_applications_send_at_their_rate() {
    for (app, period, flush, always) in [
        (AppState::Flappy, 33_000, Flush::Swap, true),
        (AppState::Maze, 33_000, Flush::Vsync, false),
        (AppState::SmartHome, 100_000, Flush::Vsync, true),
        (AppState::Mp3Player, 200_000, Flush::Vsync, true),
        (AppState::Settings, 50_000, Flush::Vsync, true),
    ] {
        let mut w = Watch::new(1000);
        w.app = app;
        assert_eq!(w.app_work(None, false, false), AppWork { render: true, flush });
        assert_eq!(w.next_flush, 1000 + period);
        w.begin_frame(1000 + period - 1);
        assert_eq!(
            w.app_work(None, false, false),
            AppWork { render: always, flush: Flush::Keep }
        );
        w.begin_frame(1000 + period);
        assert_eq!(w.app_work(None, false, false), AppWork { render: true, flush });
    }
}

#[test]
fn fingers_in_launcher_and_settings() {
    let mut w = Watch::new(0);
    w.launcher_point(77);
    assert_eq!((w.last_touch_x, w.last_touch_y), (0, 77));
    w.settings_point(5, 6);
    assert_eq!((w.last_touch_x, w.last_touch_y), (5, 6));
    assert_eq!(flappy_touch(true), Some(TouchPoint { x: 200, y: 250, fingers: 1 }));
    assert_eq!(flappy_touch(false), None);
}

#[test]
fn audio_order() {
    assert_eq!(
        boot_steps(),
        vec![AudioStep::AmplifierOff, AudioStep::InitCodec, AudioStep::MuteCodec]
    );
    assert_eq!(
        beep_steps(),
        vec![
            AudioStep::UnmuteCodec,
            AudioStep::Settle,
            AudioStep::AmplifierOn,
            AudioStep::Play,
            AudioStep::AmplifierOff,
            AudioStep::MuteCodec,
        ]
    );
}

#[test]
fn frame_path_follows_the_screen() {
    let mut w = Watch::new(5);
    w.app = AppState::Maze;
    assert_eq!(w.frame_path(), FramePath::App { app: AppState::Maze });
    w.screen = Screen::Dim;
    assert_eq!(w.frame_path(), FramePath::App { app: AppState::Maze });
    w.screen = Screen::Aod;
    assert_eq!(w.frame_path(), FramePath::Aod);
    w.screen = Screen::Off;
    assert_eq!(w.frame_path(), FramePath::Dark);
}

#[test]
fn frame_path_of_an_idle_watch_darkens_until_it_is_used() {
    let mut w = Watch::new(0);
    w.begin_frame(39_000_000);
    assert_eq!(w.idle(), Idle::Dim);
    assert_eq!(w.frame_path(), FramePath::App { app: AppState::Watchface });
    w.begin_frame(40_000_000);
    assert_eq!(w.idle(), Idle::ShowAod);
    assert_eq!(w.frame_path(), FramePath::Aod);
    assert!(w.aod_due(0));
    w.begin_frame(600_000_000);
    assert_eq!(w.idle(), Idle::SwitchOff);
    assert_eq!(w.frame_path(), FramePath::Dark);
    assert!(!w.aod_due(0));
    assert_eq!(w.wake(true, None, false, false), Wake::SwitchOn);
    assert_eq!(w.idle(), Idle::Nothing);
    assert_eq!(w.frame_path(), FramePath::App { app: AppState::Watchface });
}

#[test]
fn boot_pause() {
    assert_eq!(BOOT_PAUSE_MS, 200);
}
