//! Core of a work/break session timer: a session engine that derives
//! remaining time from clock samples, an append-only bounded event log,
//! and a command dispatcher that maps a closed set of requests onto
//! engine operations.

mod sys;

pub mod events;
pub mod input;
pub mod pomodoro;
pub mod protocol;
pub mod timer;
pub mod utils;
