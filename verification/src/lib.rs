//! A countdown timer whose every step is proved against a mathematical model.
//!
//! [`model`] states what a timer is and what each operation does to it,
//! [`state`] is the timer that runs, [`laws`] proves what holds across
//! operations, and [`format`] renders what is left as a clock reading.

pub mod format;
pub mod laws;
pub mod model;
pub mod state;

pub use format::fmt_hhmmss;
pub use model::{DEFAULT_SECS, NANOS_PER_SEC};
pub use state::{AppState, FRAME_INTERVAL_MILLIS};
