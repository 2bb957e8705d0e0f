//! Keyboard-driven pointer navigation: an accelerating mover driven by held
//! keys, a two-mode input hook that decides which events to swallow, and a
//! table of one-shot pointer and clipboard actions.
//!
//! Distances are measured in thousandths of a pixel and times in
//! milliseconds, so that slow precision movement accumulates exactly.

pub mod accel;
pub mod config;
pub mod keys;
pub mod cursor;
pub mod actions;
pub mod navigator;
