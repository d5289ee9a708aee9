//! The logic of a wrist watch with a touch screen: what its face shows, how its pages and
//! applications take turns on the screen, and how it saves power.
//!
//! The library decides and computes; it touches no hardware. Drawing is handed out as a list of
//! steps ([`draw`]), and the main loop as methods of [`watch::Watch`] that take what the hardware
//! reported and say what it is to do next. Contracts state the outcome of each call over spec
//! functions of the state, and the `law_` functions state what holds across calls.

pub mod apps;
pub mod audio;
pub mod board;
pub mod calendar;
pub mod draw;
pub mod laws;
pub mod modes;
pub mod ntp;
pub mod power;
pub mod region;
pub mod swipe;
pub mod text;
pub mod tracks;
pub mod watch;
pub mod watchface;
