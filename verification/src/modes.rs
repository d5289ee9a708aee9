//! The pages, applications and screen states of the watch, and what a finger can do.

use vstd::prelude::*;

verus! {

/// The pages of the watch face.
#[derive(Clone, Copy, Debug, PartialEq, Eq, Structural)]
pub enum Page {
    Clock,
    Sensors,
    System,
}

/// What currently owns the screen.
#[derive(Clone, Copy, Debug, PartialEq, Eq, Structural)]
pub enum AppState {
    Watchface,
    Launcher,
    Snake,
    Game2048,
    Tetris,
    Flappy,
    Maze,
    Settings,
    Mp3Player,
    SmartHome,
}

/// The gestures that the touch controller reports. `Other` stands for those without a meaning
/// here; its code tells them apart for the applications that they are handed on to.
#[derive(Clone, Copy, Debug, PartialEq, Eq, Structural)]
pub enum SwipeDirection {
    Left,
    Right,
    Up,
    Tap,
    Other { code: u8 },
}

/// A place on the touch panel.
#[derive(Clone, Copy, Debug, PartialEq, Eq, Structural)]
pub struct TouchPoint {
    pub x: u16,
    pub y: u16,
    pub fingers: u8,
}

/// The screen states, from dark to bright.
#[derive(Clone, Copy, Debug, PartialEq, Eq, Structural)]
pub enum Screen {
    /// The panel sleeps.
    Off,
    /// Always-on display: very dim, hours and minutes only, one update a minute.
    Aod,
    /// Dimmed, still interactive.
    Dim,
    /// Full brightness.
    Bright,
}

impl Screen {
    /// Rank of the state, 0 for off to 3 for bright.
    pub open spec fn level(self) -> int {
        match self {
            Screen::Off => 0,
            Screen::Aod => 1,
            Screen::Dim => 2,
            Screen::Bright => 3,
        }
    }

    /// Whether the watch answers to touch and draws its applications.
    pub open spec fn interactive(self) -> bool {
        self.level() >= 2
    }

    pub fn is_interactive(self) -> (b: bool)
        ensures
            b == self.interactive(),
    {
        match self {
            Screen::Off => false,
            Screen::Aod => false,
            Screen::Dim => true,
            Screen::Bright => true,
        }
    }
}

} // verus!
