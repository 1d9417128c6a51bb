//! Chime sequencing for an hourly chime: a note mini-language, a run-length
//! event compiler, segment rendering, and the grandfather-clock strike
//! scheduler as a state machine driven by its caller.

pub mod config;
pub mod dispatch;
pub mod error;
pub mod note;
pub mod render;
pub mod sequence;
pub mod strike;
pub mod tray;
