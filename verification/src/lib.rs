//! Core engine of a terminal typing trainer: the session state machine,
//! keystroke-to-action resolution, typing metrics in fixed-point units,
//! word-wrap cursor tracking, and the passage catalogue.

mod clock;
pub mod handler;
pub mod keyboard;
pub mod metrics;
pub mod models;
pub mod quotes;
pub mod state;
pub mod typing_session;
pub mod wrap;
