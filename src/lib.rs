//! The decision and playback engine of a desktop companion: a sprite that
//! wanders a borderless window around the screen.
//!
//! Times are milliseconds on a monotonic clock, positions are screen
//! coordinates, and transition weights are relative integers.
pub mod animation;
pub mod behavior;
mod chance;
pub mod companion;
pub mod runtime;
