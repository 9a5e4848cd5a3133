//! Core logic of a small button-and-display firmware: a per-pin debounce
//! state machine that classifies noisy raw pin levels into clean
//! `Pressed`/`Released`/`Nothing` events, and the polling-loop state that
//! maps confirmed presses to counter updates and redraw requests.
//!
//! Everything hardware-facing (pin reads, blocking delays, the SPI panel)
//! lives outside this crate; the functions here work on plain sampled
//! values and loop state only.

pub mod debounce;
pub mod event_loop;
pub mod geometry;
pub mod orientation;
pub mod ui;
