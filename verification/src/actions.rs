//! The commands the controller issues to the windowing subsystem.
//!
//! The controller decides; the caller performs.  Every operation of the
//! controller returns a sequence of these actions, to be carried out in
//! order on the main thread.  Their meaning over the abstract windowing
//! state is defined in [`crate::system`].

use vstd::prelude::*;
use crate::geometry::Rect;

verus! {

/// One step of a fullscreen transition, addressed to the windowing
/// subsystem.
#[derive(Clone, Copy, PartialEq, Eq, Structural, Debug)]
pub enum Action {
    /// Set the process-wide presentation options to exactly `options`, as
    /// one atomic call.
    SetPresentationOptions { options: u64 },
    /// Move and resize the target window to exactly `frame`, with an
    /// immediate (non-animated) display update.
    SetWindowFrame { frame: Rect },
    /// Promote the content view into a new, OS-owned fullscreen window on
    /// the resolved display, with no special options.
    EnterNativeFullscreen,
    /// Leave native fullscreen mode, with no special options.
    ExitNativeFullscreen,
    /// Re-parent the target window as a child of the fullscreen window,
    /// ordered below it in the window stack.
    AttachChildBelowFullscreenWindow,
    /// Clear the target window's parent-window relationship.
    DetachChildWindow,
    /// Copy the target window's delegate onto the fullscreen window; if the
    /// target window has no delegate, log and continue.
    CopyDelegateToFullscreenWindow,
    /// Bring the fullscreen window to front and give it input focus.
    FocusFullscreenWindow,
    /// Bring the target window to front and give it input focus.
    FocusChildWindow,
}

} // verus!
