//! What the operations of the library do, stated of the calls themselves.
//!
//! Each law takes the arguments and the results of one or more calls, related by `call_ensures`,
//! and says in plain numbers and fields how they belong together. Where an operation changes its
//! receiver, `old` is the receiver before the call and `final` the one after it.

pub mod apps;
pub mod calendar;
pub mod face;
pub mod power;
pub mod region;
pub mod sound;
pub mod text;
pub mod touch;
pub mod watch;
