//! A verified model of a small desktop windowing toolkit.
//!
//! The library holds the toolkit's core: geometry values, native-control
//! wrappers, a named widget tree with typed lookup, an ordered event list
//! with first-match dispatch, and a process-wide registry of live windows
//! that decides when the message loop must end. The raw window-system
//! calls themselves live outside the library; they hand plain values
//! (handles, message codes, packed coordinates) in and take decisions out.

pub mod container;
pub mod control;
pub mod events;
pub mod geometry;
pub mod system;
pub mod widget;
pub mod window;
