//! Core of a work/break interval timer: validated durations, a bounded
//! history of finished phases and the state machine that drives them.

pub mod autostart;
pub mod conf;
pub mod consts;
pub mod pathes;
pub mod stats;
pub mod text;
pub mod time;
pub mod ui;
