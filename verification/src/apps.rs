//! The application that owns the screen: what it draws in a frame, and how it is left.

use vstd::prelude::*;

use crate::modes::{AppState, Page, Screen, SwipeDirection, TouchPoint};
use crate::power::{law_use_wakes, AOD_AFTER, OFF_AFTER};
use crate::watch::{Watch, MILLI};
use crate::watchface::{law_complete_render_cleans, WatchFace, GYRO_CY, GYRO_R};

verus! {

/// Milliseconds that a frame waits after the boot button was pressed, for it to be released.
pub const BOOT_PAUSE_MS: u64 = 200;

/// The way that a frame takes once it is settled how bright the screen is.
#[derive(Clone, Copy, Debug, PartialEq, Eq, Structural)]
pub enum FramePath {
    /// The panel sleeps: nothing is drawn or sent.
    Dark,
    /// The always-on display: it is drawn when the minute has changed, and nothing else is.
    Aod,
    /// The application that owns the screen has its turn.
    App { app: AppState },
}

/// How a picture gets from the framebuffer to the panel.
#[derive(Clone, Copy, Debug, PartialEq, Eq, Structural)]
pub enum Flush {
    /// It stays in the framebuffer.
    Keep,
    /// At once.
    Now,
    /// In step with the panel.
    Vsync,
    /// In step with the panel, swapping the two framebuffers.
    Swap,
}

/// What the watch face asks for, in this order.
#[derive(Clone, Copy, Debug, PartialEq, Eq, Structural)]
pub struct PageWork {
    /// Fill the screen with the page's colour.
    pub clear: bool,
    /// Draw the system page.
    pub draw_system: bool,
    /// Render the clock page.
    pub render_clock: bool,
    /// Fill the screen again and draw the sensor page.
    pub draw_sensors: bool,
    pub flush: Flush,
}

/// What an application asks for: to draw itself, and to send the picture.
#[derive(Clone, Copy, Debug, PartialEq, Eq, Structural)]
pub struct AppWork {
    pub render: bool,
    pub flush: Flush,
}

/// Whether a game goes on.
#[derive(Clone, Copy, Debug, PartialEq, Eq, Structural)]
pub enum AppResult {
    Continue,
    Exit,
}

/// What the launcher asks for.
#[derive(Clone, Copy, Debug, PartialEq, Eq, Structural)]
pub enum LaunchWork {
    /// Draw the launcher and send the picture at once.
    DrawLauncher,
    /// Set up the chosen application.
    SetUp,
    /// Set up the chosen application, draw it and send the picture at once.
    SetUpAndDraw,
    /// The choice needs no preparation.
    Nothing,
}

/// The touch that the flapping game is given while a finger is down, wherever it is.
pub fn flappy_touch(touch_low: bool) -> (t: Option<TouchPoint>)
    ensures
        t == (if touch_low {
            Some(TouchPoint { x: 200, y: 250, fingers: 1 })
        } else {
            None
        }),
{
    if touch_low {
        Some(TouchPoint { x: 200, y: 250, fingers: 1 })
    } else {
        None
    }
}

impl Watch {
    /// The watch face, with everything on it to be drawn.
    pub open spec fn home(self) -> Watch {
        Watch {
            app: AppState::Watchface,
            face: self.face.redrawn(),
            page_dirty: true,
            ..self
        }
    }

    /// The way that a frame takes.
    pub open spec fn path(self) -> FramePath {
        if self.screen.interactive() {
            FramePath::App { app: self.app }
        } else if self.screen == Screen::Aod {
            FramePath::Aod
        } else {
            FramePath::Dark
        }
    }

    /// The way that this frame takes.
    pub fn frame_path(&self) -> (path: FramePath)
        ensures
            path == self.path(),
    {
        match self.screen {
            Screen::Off => FramePath::Dark,
            Screen::Aod => FramePath::Aod,
            Screen::Dim | Screen::Bright => FramePath::App { app: self.app },
        }
    }

    /// What the watch face asks for. While a page is dragged its pictures own the screen.
    pub open spec fn face_work(self) -> PageWork {
        let clear = !self.swiping && self.page_dirty;
        let render_clock = !self.swiping && self.page == Page::Clock && (self.page_dirty
            || self.face.dirty());
        let draw_sensors = !self.swiping && self.page == Page::Sensors;
        PageWork {
            clear,
            draw_system: clear && self.page == Page::System,
            render_clock,
            draw_sensors,
            flush: if clear || render_clock || draw_sensors {
                Flush::Vsync
            } else {
                Flush::Keep
            },
        }
    }

    /// The watch once its face took up that work.
    pub open spec fn face_taken(self) -> Watch {
        if self.swiping {
            self
        } else {
            Watch {
                page_dirty: false,
                face: if self.page_dirty && self.page == Page::Clock {
                    self.face.redrawn()
                } else {
                    self.face
                },
                next_flush: if self.face_work().flush == Flush::Vsync {
                    self.now
                } else {
                    self.next_flush
                },
                ..self
            }
        }
    }

    /// What to draw of the watch face.
    pub fn page_work(&mut self) -> (work: PageWork)
        requires
            old(self).wf(),
            old(self).screen.interactive(),
            old(self).app == AppState::Watchface,
        ensures
            work == old(self).face_work(),
            *final(self) == old(self).face_taken(),
            final(self).wf(),
    {
        let mut work = PageWork {
            clear: false,
            draw_system: false,
            render_clock: false,
            draw_sensors: false,
            flush: Flush::Keep,
        };
        if self.swiping {
            return work;
        }
        if self.page_dirty {
            work.clear = true;
            match self.page {
                Page::Clock => {
                    self.face.force_redraw();
                },
                Page::System => {
                    work.draw_system = true;
                },
                Page::Sensors => {},
            }
            self.page_dirty = false;
            work.flush = Flush::Vsync;
        }
        match self.page {
            Page::Clock => {
                if self.face.needs_render() {
                    work.render_clock = true;
                    work.flush = Flush::Vsync;
                }
            },
            Page::Sensors => {
                work.draw_sensors = true;
                work.flush = Flush::Vsync;
            },
            Page::System => {},
        }
        if work.flush == Flush::Vsync {
            self.next_flush = self.now;
        }
        work
    }

    /// Whether a tap hits the gyroscope section of the clock page.
    pub open spec fn tap_toggles(self, tap: bool) -> bool {
        tap && self.page == Page::Clock && GYRO_CY - GYRO_R - 20 <= self.last_touch_y <= GYRO_CY
            + GYRO_R + 20
    }

    /// Takes a gesture on the watch face: a tap on the gyroscope section shows or hides the
    /// gyroscope, and an upward swipe on the clock page opens the launcher. Returns whether the
    /// gyroscope is shown, where that changed.
    pub fn face_gesture(&mut self, swipe: Option<SwipeDirection>, tap: bool) -> (gyro: Option<bool>)
        requires
            old(self).wf(),
            old(self).app == AppState::Watchface,
            old(self).screen.interactive(),
        ensures
            gyro == (if old(self).tap_toggles(tap) {
                Some(!old(self).face.gyro_enabled)
            } else {
                None
            }),
            *final(self) == (Watch {
                face: if old(self).tap_toggles(tap) {
                    old(self).face.toggled()
                } else {
                    old(self).face
                },
                app: if swipe == Some(SwipeDirection::Up) && old(self).page == Page::Clock {
                    AppState::Launcher
                } else {
                    AppState::Watchface
                },
                ..*old(self)
            }),
            final(self).wf(),
    {
        let mut gyro: Option<bool> = None;
        if tap && self.page == Page::Clock {
            if WatchFace::is_gyro_zone(self.last_touch_y) {
                gyro = Some(self.face.toggle_gyro());
            }
        }
        if let Some(SwipeDirection::Up) = swipe {
            if self.page == Page::Clock {
                self.app = AppState::Launcher;
            }
        }
        gyro
    }

    /// The watch after the boot button was pressed in an application: the watch face opens the
    /// launcher, the launcher and the snake game go back to the watch face, and every other
    /// application goes back to the launcher.
    pub open spec fn left(self, running: AppState) -> Watch {
        match running {
            AppState::Snake | AppState::Launcher => self.home(),
            AppState::Flappy => Watch { app: AppState::Launcher, page_dirty: true, ..self },
            _ => Watch { app: AppState::Launcher, ..self },
        }
    }

    /// Takes the boot button at the end of a frame in which `running` owned the screen. Returns
    /// whether it was pressed, and a pause of [`BOOT_PAUSE_MS`] is due for it to be released.
    pub fn boot_button(&mut self, running: AppState, low: bool) -> (pause: bool)
        requires
            old(self).wf(),
            old(self).screen.interactive(),
        ensures
            pause == low,
            *final(self) == (if low {
                old(self).left(running)
            } else {
                *old(self)
            }),
            final(self).wf(),
    {
        if low {
            match running {
                AppState::Snake | AppState::Launcher => {
                    self.go_home();
                },
                AppState::Flappy => {
                    self.app = AppState::Launcher;
                    self.page_dirty = true;
                },
                _ => {
                    self.app = AppState::Launcher;
                },
            }
        }
        low
    }

    fn go_home(&mut self)
        requires
            old(self).wf(),
            old(self).screen.interactive(),
        ensures
            *final(self) == old(self).home(),
            final(self).wf(),
    {
        self.app = AppState::Watchface;
        self.face.force_redraw();
        self.page_dirty = true;
    }

    /// Takes a step of the snake game. It is drawn when it has moved; a higher score asks for a
    /// beep. Returns the drawing and whether to beep.
    pub fn snake_work(
        &mut self,
        result: AppResult,
        stepped: bool,
        prev_score: u32,
        score: u32,
    ) -> (work: (AppWork, bool))
        requires
            old(self).wf(),
            old(self).screen.interactive(),
        ensures
            *final(self) == (if result == AppResult::Exit {
                old(self).home()
            } else {
                *old(self)
            }),
            work.0 == (if result == AppResult::Continue && stepped {
                AppWork { render: true, flush: Flush::Now }
            } else {
                AppWork { render: false, flush: Flush::Keep }
            }),
            work.1 == (result == AppResult::Continue && stepped && score > prev_score),
            final(self).wf(),
    {
        match result {
            AppResult::Continue => {
                if stepped {
                    (AppWork { render: true, flush: Flush::Now }, score > prev_score)
                } else {
                    (AppWork { render: false, flush: Flush::Keep }, false)
                }
            },
            AppResult::Exit => {
                self.go_home();
                (AppWork { render: false, flush: Flush::Keep }, false)
            },
        }
    }

    /// Takes the row of a finger while the launcher is open.
    pub fn launcher_point(&mut self, y: u16)
        ensures
            *final(self) == (Watch { last_touch_y: y, ..*old(self) }),
    {
        self.last_touch_y = y;
    }

    /// Takes the place of a finger while the settings are open.
    pub fn settings_point(&mut self, x: u16, y: u16)
        ensures
            *final(self) == (Watch { last_touch_x: x, last_touch_y: y, ..*old(self) }),
    {
        self.last_touch_x = x;
        self.last_touch_y = y;
    }

    /// Takes the choice made in the launcher, where there is one.
    pub fn launch(&mut self, choice: Option<AppState>) -> (work: LaunchWork)
        requires
            old(self).wf(),
            old(self).screen.interactive(),
        ensures
            *final(self) == (match choice {
                Some(AppState::Watchface) => old(self).home(),
                Some(app) => Watch { app, ..*old(self) },
                None => *old(self),
            }),
            work == (match choice {
                None => LaunchWork::DrawLauncher,
                Some(AppState::Game2048) => LaunchWork::SetUpAndDraw,
                Some(AppState::Watchface) => LaunchWork::Nothing,
                Some(AppState::Launcher) => LaunchWork::Nothing,
                Some(AppState::Settings) => LaunchWork::Nothing,
                Some(_) => LaunchWork::SetUp,
            }),
            final(self).wf(),
    {
        match choice {
            Some(app) => {
                self.app = app;
                match app {
                    AppState::Snake | AppState::Tetris | AppState::Flappy | AppState::Maze
                    | AppState::Mp3Player | AppState::SmartHome => LaunchWork::SetUp,
                    AppState::Game2048 => LaunchWork::SetUpAndDraw,
                    AppState::Settings | AppState::Launcher => LaunchWork::Nothing,
                    AppState::Watchface => {
                        self.go_home();
                        LaunchWork::Nothing
                    },
                }
            },
            None => LaunchWork::DrawLauncher,
        }
    }

    /// Milliseconds between two pictures of an application that is drawn continuously, and `None`
    /// for one that is drawn when something happens.
    pub open spec fn flush_period(app: AppState) -> Option<int> {
        match app {
            AppState::Flappy | AppState::Maze => Some(33),
            AppState::SmartHome => Some(100),
            AppState::Mp3Player => Some(200),
            AppState::Settings => Some(50),
            _ => None,
        }
    }

    /// Whether an application that is drawn continuously has a picture to send.
    pub open spec fn flush_wanted(self) -> bool {
        Watch::flush_period(self.app) is Some && self.now >= self.next_flush
    }

    /// The watch after an application's frame: where a picture was sent, the next one has its
    /// time set.
    pub open spec fn app_taken(self) -> Watch {
        if self.flush_wanted() {
            Watch {
                next_flush: (self.now + Watch::flush_period(self.app)->0 * MILLI) as u64,
                ..self
            }
        } else {
            self
        }
    }

    /// Whether the application draws itself: the two tile games when something happened, the maze
    /// with each picture that is sent, the others in every frame.
    pub open spec fn app_draws(self, swipe: bool, tap: bool, stepped: bool) -> bool {
        match self.app {
            AppState::Game2048 => swipe,
            AppState::Tetris => stepped || swipe || tap,
            AppState::Maze => self.flush_wanted(),
            _ => true,
        }
    }

    /// How an application's picture is sent.
    pub open spec fn app_flush(self, swipe: bool, tap: bool, stepped: bool) -> Flush {
        let send = match self.app {
            AppState::Game2048 | AppState::Tetris => self.app_draws(swipe, tap, stepped),
            _ => self.flush_wanted(),
        };
        if !send {
            Flush::Keep
        } else if self.app == AppState::Flappy {
            Flush::Swap
        } else {
            Flush::Vsync
        }
    }

    /// What an application other than the watch face, the launcher and the snake game draws and
    /// sends in a frame with the given gesture.
    pub fn app_work(&mut self, swipe: Option<SwipeDirection>, tap: bool, stepped: bool) -> (work:
        AppWork)
        requires
            old(self).wf(),
            old(self).screen.interactive(),
            old(self).app != AppState::Watchface,
            old(self).app != AppState::Launcher,
            old(self).app != AppState::Snake,
        ensures
            work.render == old(self).app_draws(swipe is Some, tap, stepped),
            work.flush == old(self).app_flush(swipe is Some, tap, stepped),
            *final(self) == old(self).app_taken(),
            final(self).wf(),
    {
        let due = self.now >= self.next_flush;
        match self.app {
            AppState::Game2048 => event_work(swipe.is_some()),
            AppState::Tetris => event_work(stepped || swipe.is_some() || tap),
            AppState::Flappy => {
                if due {
                    self.next_flush = self.now + 33 * MILLI;
                }
                AppWork {
                    render: true,
                    flush: if due {
                        Flush::Swap
                    } else {
                        Flush::Keep
                    },
                }
            },
            AppState::Maze => {
                if due {
                    self.next_flush = self.now + 33 * MILLI;
                }
                event_work(due)
            },
            AppState::SmartHome => {
                if due {
                    self.next_flush = self.now + 100 * MILLI;
                }
                steady_work(due)
            },
            AppState::Mp3Player => {
                if due {
                    self.next_flush = self.now + 200 * MILLI;
                }
                steady_work(due)
            },
            _ => {
                if due {
                    self.next_flush = self.now + 50 * MILLI;
                }
                steady_work(due)
            },
        }
    }
}

/// Drawn and sent together, or not at all.
fn event_work(happened: bool) -> (w: AppWork)
    ensures
        w.render == happened,
        w.flush == (if happened {
            Flush::Vsync
        } else {
            Flush::Keep
        }),
{
    AppWork {
        render: happened,
        flush: if happened {
            Flush::Vsync
        } else {
            Flush::Keep
        },
    }
}

/// Drawn in any case, sent where it is due.
fn steady_work(due: bool) -> (w: AppWork)
    ensures
        w.render,
        w.flush == (if due {
            Flush::Vsync
        } else {
            Flush::Keep
        }),
{
    AppWork {
        render: true,
        flush: if due {
            Flush::Vsync
        } else {
            Flush::Keep
        },
    }
}

/// Nothing is sent to the panel that was not drawn in the same frame.
pub proof fn law_flush_follows_drawing(w: Watch, swipe: bool, tap: bool, stepped: bool)
    ensures
        w.app_flush(swipe, tap, stepped) != Flush::Keep ==> w.app_draws(swipe, tap, stepped),
        w.face_work().flush != Flush::Keep <==> w.face_work().clear || w.face_work().render_clock
            || w.face_work().draw_sensors,
{
}

/// An application that is drawn continuously sends no picture before its period is over.
pub proof fn law_flush_rate(w: Watch, later: u64)
    requires
        w.wf(),
        w.flush_wanted(),
        later < w.now + Watch::flush_period(w.app)->0 * MILLI,
    ensures
        !(Watch { now: later, ..w.app_taken() }).flush_wanted(),
{
}

/// Once the clock page was drawn completely, an unchanged watch face asks for nothing more, but
/// for a ball that moved while the gyroscope is hidden.
pub proof fn law_drawn_clock_is_quiet(w: Watch, drawn: int)
    requires
        w.page == Page::Clock,
        !w.swiping,
        w.face_work().render_clock,
        drawn >= w.face_taken().face.plan().len(),
    ensures
        ({
            let taken = w.face_taken();
            let after = Watch { face: taken.face.after_steps(drawn), ..taken };
            after.face_work().flush == Flush::Keep || (taken.face.gyro_changed
                && !taken.face.gyro_enabled)
        }),
{
    law_complete_render_cleans(w.face_taken().face, drawn);
}

/// An application has its turn exactly on an interactive screen, and the always-on display is due
/// on its own path only.
pub proof fn law_dark_frames_reach_no_application(w: Watch, minutes: u8)
    ensures
        w.screen.interactive() <==> w.path() == (FramePath::App { app: w.app }),
        w.path() is App <==> w.screen.interactive(),
        w.aod_wanted(minutes) ==> w.path() == FramePath::Aod,
{
}

/// A frame in which the watch is used gives the application its turn, however dark the screen was.
pub proof fn law_use_gives_application_its_turn(w: Watch)
    requires
        w.wf(),
    ensures
        w.used().idled().path() == (FramePath::App { app: w.app }),
{
    law_use_wakes(w);
}

/// Which way an idle frame takes: after 40 seconds no application has its turn, and after ten
/// minutes nothing is drawn.
pub proof fn law_idle_path(w: Watch)
    ensures
        w.idle_secs() >= AOD_AFTER ==> !(w.idled().path() is App),
        w.idle_secs() >= OFF_AFTER ==> w.idled().path() == FramePath::Dark,
        w.idled().path() is App ==> w.path() is App,
{
}

/// From any application, pressing the boot button at most twice leads back to the watch face.
pub proof fn law_boot_button_leads_home(w: Watch)
    ensures
        w.app != AppState::Watchface ==> w.left(w.app).app == AppState::Watchface || w.left(
            w.app,
        ).left(w.left(w.app).app).app == AppState::Watchface,
        w.app == AppState::Watchface ==> w.left(w.app).left(w.left(w.app).app).app
            == AppState::Watchface,
{
}

} // verus!
