//! Per-tick input arbitration for an interactive UI.
//!
//! Each UI tick receives exactly one raw input event. An arbitrary number of
//! independent call sites then query the event in a fixed, caller-chosen
//! order (hotkeys, numbered menu choices, direct inspection), and at most one
//! query may claim it. Along the way the arbiter records key-binding
//! collisions for diagnostics and keeps a ledger of actions that were
//! available but unused, to feed an on-screen display.

pub mod event;
pub mod input;
pub mod laws;
