//! A staleness watchdog core: tracks the time of the last observed input
//! activity, decides on each periodic tick whether the stream has gone
//! stale, drives an arm/disarm alert latch, and renders alert messages
//! from a template.

pub mod clock;
pub mod monitor;
pub mod template;
pub mod tracker;
