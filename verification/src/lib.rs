//! Core of a status-bar media ticker: a text-scrolling state machine, a
//! playback-position estimator, and a renderer that composes icon, scrolled
//! text and position into one deduplicated JSON line per change.

pub mod config;
pub mod events;
pub mod json;
pub mod mpris;
pub mod player;
pub mod scroll;
pub mod template;
pub mod text;
pub mod utils;
