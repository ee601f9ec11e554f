//! An abstract model of the windowing subsystem.
//!
//! [`WindowSystem`] records exactly the windowing state the controller's
//! guarantees speak of: the target window's frame, the process-wide
//! presentation options, whether the content view is in native fullscreen
//! mode, and whether the target window is parented under a fullscreen
//! window.  [`apply_action_spec`] defines what each [`Action`] does to that
//! state; [`WindowSystem::apply`] and [`WindowSystem::apply_all`] are the
//! same semantics as executable code, so tests can run a transition end to
//! end against the model.

use vstd::prelude::*;
use crate::actions::Action;
use crate::geometry::Rect;
use crate::presentation::PRESENTATION_DEFAULT;

verus! {

/// The observable state of the windowing subsystem, as far as the
/// controller's guarantees reach.
#[derive(Clone, Copy, PartialEq, Eq, Structural, Debug)]
pub struct WindowSystem {
    /// The target window's current frame, in screen coordinates.
    pub window_frame: Rect,
    /// The process-wide presentation-options bitmask currently in force.
    pub presentation_options: u64,
    /// Whether the content view currently reports native fullscreen mode.
    pub native_fullscreen: bool,
    /// Whether the target window is parented under a fullscreen window.
    pub child_attached: bool,
}

/// The effect of one action on the windowing state.  Focus changes and the
/// delegate copy touch nothing the guarantees speak of, so they leave the
/// model unchanged.
pub open spec fn apply_action_spec(sys: WindowSystem, action: Action) -> WindowSystem {
    match action {
        Action::SetPresentationOptions { options } => WindowSystem {
            presentation_options: options,
            ..sys
        },
        Action::SetWindowFrame { frame } => WindowSystem { window_frame: frame, ..sys },
        Action::EnterNativeFullscreen => WindowSystem { native_fullscreen: true, ..sys },
        Action::ExitNativeFullscreen => WindowSystem { native_fullscreen: false, ..sys },
        Action::AttachChildBelowFullscreenWindow => WindowSystem {
            child_attached: true,
            ..sys
        },
        Action::DetachChildWindow => WindowSystem { child_attached: false, ..sys },
        Action::CopyDelegateToFullscreenWindow => sys,
        Action::FocusFullscreenWindow => sys,
        Action::FocusChildWindow => sys,
    }
}

/// The effect of a sequence of actions, applied in order.
pub open spec fn apply_all_spec(sys: WindowSystem, actions: Seq<Action>) -> WindowSystem
    decreases actions.len(),
{
    if actions.len() == 0 {
        sys
    } else {
        apply_all_spec(apply_action_spec(sys, actions[0]), actions.skip(1))
    }
}

/// Applying a concatenation is applying the parts in order.
pub proof fn lemma_apply_all_append(sys: WindowSystem, a: Seq<Action>, b: Seq<Action>)
    ensures
        apply_all_spec(sys, a + b) == apply_all_spec(apply_all_spec(sys, a), b),
    decreases a.len(),
{
    if a.len() == 0 {
        assert(a + b =~= b);
    } else {
        assert((a + b).skip(1) =~= a.skip(1) + b);
        lemma_apply_all_append(apply_action_spec(sys, a[0]), a.skip(1), b);
    }
}

/// A single action as a sequence.
pub proof fn lemma_apply_all_singleton(sys: WindowSystem, action: Action)
    ensures
        apply_all_spec(sys, seq![action]) == apply_action_spec(sys, action),
{
    assert(seq![action].skip(1) =~= Seq::<Action>::empty());
    assert(apply_all_spec(apply_action_spec(sys, action), Seq::<Action>::empty())
        == apply_action_spec(sys, action));
}

impl WindowSystem {
    /// A windowing subsystem at rest: the given window frame, default
    /// presentation options, not in fullscreen, window unparented.
    pub fn new(window_frame: Rect) -> (sys: WindowSystem)
        ensures
            sys == (WindowSystem {
                window_frame,
                presentation_options: PRESENTATION_DEFAULT,
                native_fullscreen: false,
                child_attached: false,
            }),
    {
        WindowSystem {
            window_frame,
            presentation_options: PRESENTATION_DEFAULT,
            native_fullscreen: false,
            child_attached: false,
        }
    }

    /// Performs one action on the model.
    pub fn apply(&mut self, action: Action)
        ensures
            *final(self) == apply_action_spec(*old(self), action),
    {
        match action {
            Action::SetPresentationOptions { options } => {
                self.presentation_options = options;
            },
            Action::SetWindowFrame { frame } => {
                self.window_frame = frame;
            },
            Action::EnterNativeFullscreen => {
                self.native_fullscreen = true;
            },
            Action::ExitNativeFullscreen => {
                self.native_fullscreen = false;
            },
            Action::AttachChildBelowFullscreenWindow => {
                self.child_attached = true;
            },
            Action::DetachChildWindow => {
                self.child_attached = false;
            },
            Action::CopyDelegateToFullscreenWindow => {},
            Action::FocusFullscreenWindow => {},
            Action::FocusChildWindow => {},
        }
    }

    /// Performs a whole sequence of actions, in order.
    pub fn apply_all(&mut self, actions: &Vec<Action>)
        ensures
            *final(self) == apply_all_spec(*old(self), actions@),
    {
        let mut i: usize = 0;
        while i < actions.len()
            invariant
                i <= actions.len(),
                *self == apply_all_spec(*old(self), actions@.take(i as int)),
            decreases actions.len() - i,
        {
            proof {
                assert(actions@.take(i as int + 1) =~= actions@.take(i as int) + seq![
                    actions@[i as int],
                ]);
                lemma_apply_all_append(
                    *old(self),
                    actions@.take(i as int),
                    seq![actions@[i as int]],
                );
                lemma_apply_all_singleton(*self, actions@[i as int]);
            }
            let action = actions[i];
            self.apply(action);
            i = i + 1;
        }
        proof {
            assert(actions@.take(actions@.len() as int) =~= actions@);
        }
    }
}

} // verus!
