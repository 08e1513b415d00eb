//! Core of a pane-close confirmation plugin for a terminal multiplexer.
//!
//! The host pushes two independent snapshot streams (panes grouped by tab,
//! and tab metadata); the library reconciles them into one merged view and
//! drives a small keyboard confirmation state machine over that view. All
//! host I/O (event intake, action requests, rendering) lives outside; the
//! library receives plain values and returns the actions to perform.

pub mod controller;
pub mod decimal;
pub mod dispatch;
pub mod keys;
pub mod laws;
pub mod registry;

