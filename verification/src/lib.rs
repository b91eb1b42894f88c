//! Core logic of a desktop status bar: a borderless panel that sizes itself
//! to its content or to a configured per-axis policy, redraws on a schedule,
//! and displays window-manager state delivered by a background poller.
//!
//! The windowing system, the UI toolkit, the graphics surface and the
//! window-manager protocol are external collaborators; this crate holds the
//! decisions that drive them: resolving the initial window geometry from a
//! size policy, deciding when the surface must be resized to fit freshly
//! measured content, scheduling repaints, stepping the state-polling bridge,
//! and tracking the latest delivered desktop state.

pub mod bridge;
pub mod controller;
pub mod geometry;
pub mod logging;
pub mod parse;
pub mod schedule;
pub mod sizing;
