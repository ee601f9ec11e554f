//! A verified controller for an exclusive ("locked-down") fullscreen
//! transition of a single application window on macOS.
//!
//! The windowing subsystem itself (AppKit) can only be driven from the
//! process's main thread, so the controller is written as a state machine
//! that decides; it never performs an OS call itself.  Each operation
//! returns the exact sequence of [`actions::Action`] values that the caller
//! must perform, in order, on the main thread.  The module [`system`] gives
//! those actions their meaning: an abstract model of the windowing state
//! (window frame, presentation options, native-fullscreen flag, window
//! parenting) and how each action changes it.  The lemmas in [`laws`] prove
//! the controller's guarantees — exact geometry restoration, presentation
//! symmetry, idempotent exit, and query consistency — against that model.

pub mod actions;
pub mod controller;
pub mod geometry;
pub mod laws;
pub mod presentation;
pub mod system;
