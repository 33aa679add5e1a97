//! A rule engine for MIDI macro pads: configuration documents are resolved
//! into an ordered list of macros, and each incoming device event fires the
//! actions of the first macro that matches it.

pub mod actions;
pub mod config;
pub mod engine;
pub mod event_matching;
pub mod macros;
pub mod match_checker;
pub mod midi;
pub mod preconditions;
pub mod raw_config;
pub mod resolve;
pub mod resolve_actions;
pub mod state;
