//! A Pomodoro countdown timer core: a timer state machine with its control
//! actions, and pure formatting of remaining time and phase status.
//!
//! The state machine and the formatters are verified; a thin terminal
//! front end drives them from its own event loop.

pub mod format;
pub mod render;
pub mod state;
