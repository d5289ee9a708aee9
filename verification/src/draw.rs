//! Drawing steps as plain values.
//!
//! The watch decides what to draw as a list of steps; whoever owns a display or a framebuffer
//! carries them out, in order, and stops at the first one that fails.

use vstd::prelude::*;

verus! {

/// The colours in use. `Rgb` gives five bits of red, six of green and five of blue.
#[derive(Clone, Copy, Debug, PartialEq, Eq, Structural)]
pub enum Color {
    Black,
    White,
    Red,
    Green,
    Yellow,
    Cyan,
    CssGray,
    CssDarkGray,
    Rgb { r: u8, g: u8, b: u8 },
}

/// One drawing step. Texts are held as `T`.
#[derive(Debug, PartialEq, Eq)]
pub enum Draw<T> {
    /// A filled rectangle, from its top left corner.
    FillRect { x: i32, y: i32, w: u32, h: u32, color: Color },
    /// The outline of a rectangle with rounded corners.
    StrokeRoundedRect { x: i32, y: i32, w: u32, h: u32, corner: u32, color: Color, stroke: u32 },
    /// A filled circle, from the top left corner of the square around it.
    FillCircle { x: i32, y: i32, diameter: u32, color: Color },
    /// The outline of a circle, from the top left corner of the square around it.
    StrokeCircle { x: i32, y: i32, diameter: u32, color: Color, stroke: u32 },
    /// A text in the 10 by 20 pixel font, centred on `x` with its baseline at `y`.
    CenteredText { text: T, x: i32, y: i32, color: Color },
    /// Hours, minutes and seconds in seven-segment digits.
    Time { cx: i32, y: i32, hours: u8, minutes: u8, seconds: u8, color: Color, back: Color },
    /// Hours and minutes in seven-segment digits.
    HoursMinutes { cx: i32, y: i32, hours: u8, minutes: u8, color: Color, back: Color },
}

/// A drawing step to carry out.
pub type DrawCommand = Draw<String>;

/// A drawing step as contracts speak of it.
pub type DrawView = Draw<Seq<char>>;

impl View for Draw<String> {
    type V = Draw<Seq<char>>;

    open spec fn view(&self) -> Draw<Seq<char>> {
        match *self {
            Draw::FillRect { x, y, w, h, color } => Draw::FillRect { x, y, w, h, color },
            Draw::StrokeRoundedRect { x, y, w, h, corner, color, stroke } => {
                Draw::StrokeRoundedRect { x, y, w, h, corner, color, stroke }
            },
            Draw::FillCircle { x, y, diameter, color } => {
                Draw::FillCircle { x, y, diameter, color }
            },
            Draw::StrokeCircle { x, y, diameter, color, stroke } => {
                Draw::StrokeCircle { x, y, diameter, color, stroke }
            },
            Draw::CenteredText { text, x, y, color } => {
                Draw::CenteredText { text: text@, x, y, color }
            },
            Draw::Time { cx, y, hours, minutes, seconds, color, back } => {
                Draw::Time { cx, y, hours, minutes, seconds, color, back }
            },
            Draw::HoursMinutes { cx, y, hours, minutes, color, back } => {
                Draw::HoursMinutes { cx, y, hours, minutes, color, back }
            },
        }
    }
}

/// What a list of steps draws.
pub open spec fn shown(commands: Seq<DrawCommand>) -> Seq<DrawView> {
    commands.map_values(|c: DrawCommand| c@)
}

/// A drawing step failed: how many steps were drawn before it, and the error that it gave. The
/// steps behind it were not tried.
#[derive(Debug)]
pub struct DrawFailure<E> {
    pub drawn: usize,
    pub error: E,
}

/// Appends a step.
pub(crate) fn put(commands: &mut Vec<DrawCommand>, command: DrawCommand)
    ensures
        shown(final(commands)@) == shown(old(commands)@).push(command@),
{
    commands.push(command);
    assert(shown(commands@) =~= shown(old(commands)@).push(command@));
}

/// Appends a centred text.
pub(crate) fn put_text(commands: &mut Vec<DrawCommand>, text: &str, x: i32, y: i32, color: Color)
    ensures
        shown(final(commands)@) == shown(old(commands)@).push(
            Draw::CenteredText { text: text@, x, y, color },
        ),
{
    put(commands, Draw::CenteredText { text: text.to_owned(), x, y, color });
}

} // verus!
