//! The process-wide presentation-restriction bitmask.
//!
//! While the window is locked down, the application suppresses every
//! OS-level escape hatch: the dock and menu bar are hidden, and force-quit,
//! process switching, session termination, the application menu, "hide
//! application", cursor-location assistance and menu-bar transparency are
//! all disabled.  The flag values mirror AppKit's
//! `NSApplicationPresentationOptions` bit for bit, so a caller can hand the
//! mask to the OS unchanged.
//!
//! In this design the mask is process-wide state with exactly two valid
//! values: [`RESTRICTED_PRESENTATION_OPTIONS`] between a completed enter and
//! the following exit, and [`PRESENTATION_DEFAULT`] otherwise.  It is always
//! applied as one whole value, never flag by flag.

use vstd::prelude::*;

verus! {

/// The system default: no restriction is in force.
pub const PRESENTATION_DEFAULT: u64 = 0;

/// Hides the dock entirely (not merely auto-hiding it).
pub const HIDE_DOCK: u64 = 1u64 << 1;

/// Hides the menu bar entirely.
pub const HIDE_MENU_BAR: u64 = 1u64 << 3;

/// Disables the application ("apple") menu.
pub const DISABLE_APPLE_MENU: u64 = 1u64 << 4;

/// Disables switching to another process.
pub const DISABLE_PROCESS_SWITCHING: u64 = 1u64 << 5;

/// Disables the force-quit panel.
pub const DISABLE_FORCE_QUIT: u64 = 1u64 << 6;

/// Disables log-out and shut-down while the restriction is in force.
pub const DISABLE_SESSION_TERMINATION: u64 = 1u64 << 7;

/// Disables the "hide application" command.
pub const DISABLE_HIDE_APPLICATION: u64 = 1u64 << 8;

/// Disables menu-bar transparency.
pub const DISABLE_MENU_BAR_TRANSPARENCY: u64 = 1u64 << 9;

/// Disables the cursor-location assistance ("shake to locate") feature.
pub const DISABLE_CURSOR_LOCATION_ASSISTANCE: u64 = 1u64 << 12;

/// The full restriction set applied on entering fullscreen: the bitwise OR
/// of every flag above.
pub const RESTRICTED_PRESENTATION_OPTIONS: u64 = HIDE_DOCK | HIDE_MENU_BAR
    | DISABLE_APPLE_MENU | DISABLE_PROCESS_SWITCHING | DISABLE_FORCE_QUIT
    | DISABLE_SESSION_TERMINATION | DISABLE_HIDE_APPLICATION
    | DISABLE_MENU_BAR_TRANSPARENCY | DISABLE_CURSOR_LOCATION_ASSISTANCE;

} // verus!
