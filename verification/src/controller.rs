//! The fullscreen controller: a two-state machine with two transitions.
//!
//! The controller is bound to one target window and its content view for
//! the process lifetime.  It starts in [`FullscreenState::Normal`]; a
//! successful enter moves it to [`FullscreenState::Fullscreen`], which
//! records the geometry to restore and which parts of the transition were
//! actually performed; exit moves it back.  Each operation returns the
//! exact action sequence the caller must perform on the main thread — the
//! spec functions [`enter_actions`] and [`exit_actions`] are those
//! sequences, and the operations' contracts tie the executable code to
//! them.
//!
//! Callers that can race (several command sources) must serialize their
//! calls behind one mutual-exclusion lock; the controller itself takes
//! `&mut self`, so within one call no other caller can observe a partial
//! state.

use vstd::prelude::*;
use crate::actions::Action;
use crate::geometry::Rect;
use crate::presentation::PRESENTATION_DEFAULT;
use crate::presentation::RESTRICTED_PRESENTATION_OPTIONS;

verus! {

/// The controller's state.  The fullscreen payload exists exactly while
/// the controller is in fullscreen mode.
#[derive(Clone, Copy, PartialEq, Eq, Structural, Debug)]
pub enum FullscreenState {
    /// Normal windowed presentation; nothing to restore.
    Normal,
    /// Locked-down fullscreen presentation.
    Fullscreen {
        /// The target window's content rectangle captured at enter time;
        /// restored exactly at exit.
        original_frame: Rect,
        /// Whether native fullscreen mode was actually entered (as opposed
        /// to a geometry-only transition).
        native: bool,
        /// Whether the window frame was resized to fill the display.
        resize: bool,
    },
}

/// True iff the state says the content view is in native fullscreen mode.
/// In the `Normal` state there is nothing to query; a geometry-only
/// fullscreen never entered native fullscreen mode.
pub open spec fn spec_is_fullscreen(s: FullscreenState) -> bool {
    match s {
        FullscreenState::Normal => false,
        FullscreenState::Fullscreen { native, .. } => native,
    }
}

/// Where enter moves the controller: from `Normal` it records the current
/// content rectangle and the requested transition parts; a second enter
/// while already fullscreen is a diagnosed no-op, so the recorded frame is
/// never leaked by overwriting.
pub open spec fn enter_transition(
    s: FullscreenState,
    current_frame: Rect,
    native: bool,
    resize: bool,
) -> FullscreenState {
    match s {
        FullscreenState::Normal => FullscreenState::Fullscreen {
            original_frame: current_frame,
            native,
            resize,
        },
        FullscreenState::Fullscreen { .. } => s,
    }
}

/// Where exit moves the controller: always back to `Normal`.
pub open spec fn exit_transition(s: FullscreenState) -> FullscreenState {
    FullscreenState::Normal
}

/// The action sequence of a successful enter, in order: apply the
/// restriction bitmask atomically; if requested, resize the window to fill
/// the display; if native fullscreen is requested, promote the content
/// view, re-parent the target window below the new fullscreen window, copy
/// the delegate over, and focus the fullscreen window.
pub open spec fn enter_actions(screen_frame: Rect, native: bool, resize: bool) -> Seq<Action> {
    seq![Action::SetPresentationOptions { options: RESTRICTED_PRESENTATION_OPTIONS }] + (if resize {
        seq![Action::SetWindowFrame { frame: screen_frame }]
    } else {
        Seq::<Action>::empty()
    }) + (if native {
        seq![
            Action::EnterNativeFullscreen,
            Action::AttachChildBelowFullscreenWindow,
            Action::CopyDelegateToFullscreenWindow,
            Action::FocusFullscreenWindow,
        ]
    } else {
        Seq::<Action>::empty()
    })
}

/// The action sequence of an exit from the fullscreen state, in order:
/// undo native fullscreen and the re-parenting if they were done, focus
/// the target window again, restore the saved frame if it was changed, and
/// reset the presentation options to the system default.
pub open spec fn exit_actions(original_frame: Rect, native: bool, resize: bool) -> Seq<Action> {
    (if native {
        seq![Action::ExitNativeFullscreen, Action::DetachChildWindow]
    } else {
        Seq::<Action>::empty()
    }) + seq![Action::FocusChildWindow] + (if resize {
        seq![Action::SetWindowFrame { frame: original_frame }]
    } else {
        Seq::<Action>::empty()
    }) + seq![Action::SetPresentationOptions { options: PRESENTATION_DEFAULT }]
}

/// The actions exit issues from a given state: from `Normal` there is
/// nothing to undo, and the operation is a diagnosed no-op.
pub open spec fn exit_actions_for(s: FullscreenState) -> Seq<Action> {
    match s {
        FullscreenState::Normal => Seq::<Action>::empty(),
        FullscreenState::Fullscreen { original_frame, native, resize } => exit_actions(
            original_frame,
            native,
            resize,
        ),
    }
}

/// The fullscreen controller.  Constructed once, at application start,
/// bound to the target window and content view whose handles the caller
/// keeps; it persists for the process lifetime.
#[derive(Debug)]
pub struct Fullscreen {
    state: FullscreenState,
}

impl View for Fullscreen {
    type V = FullscreenState;

    closed spec fn view(&self) -> FullscreenState {
        self.state
    }
}

impl Fullscreen {
    /// A fresh controller, in the normal windowed state.
    pub fn new() -> (c: Fullscreen)
        ensures
            c@ == FullscreenState::Normal,
    {
        Fullscreen { state: FullscreenState::Normal }
    }

    /// Enter the locked-down fullscreen presentation.
    ///
    /// `current_frame` is the target window's content rectangle, queried
    /// by the caller immediately before the call; `screen_frame` is the
    /// resolved display's frame.  `native` chooses whether native
    /// fullscreen mode is actually entered, `resize` whether the window is
    /// resized to fill the display.  Returns the actions to perform, in
    /// order, on the main thread.  If the controller is already in
    /// fullscreen mode the call is a no-op and returns no actions; the
    /// caller should log a diagnostic.
    pub fn enter(
        &mut self,
        current_frame: Rect,
        screen_frame: Rect,
        native: bool,
        resize: bool,
    ) -> (actions: Vec<Action>)
        ensures
            final(self)@ == enter_transition(old(self)@, current_frame, native, resize),
            old(self)@ is Normal ==> actions@ == enter_actions(screen_frame, native, resize),
            old(self)@ is Fullscreen ==> actions@ == Seq::<Action>::empty(),
    {
        let mut actions: Vec<Action> = Vec::new();
        match self.state {
            FullscreenState::Fullscreen { .. } => {
                proof {
                    assert(actions@ =~= Seq::<Action>::empty());
                }
                actions
            },
            FullscreenState::Normal => {
                actions.push(
                    Action::SetPresentationOptions {
                        options: RESTRICTED_PRESENTATION_OPTIONS,
                    },
                );
                if resize {
                    actions.push(Action::SetWindowFrame { frame: screen_frame });
                }
                if native {
                    actions.push(Action::EnterNativeFullscreen);
                    actions.push(Action::AttachChildBelowFullscreenWindow);
                    actions.push(Action::CopyDelegateToFullscreenWindow);
                    actions.push(Action::FocusFullscreenWindow);
                }
                self.state = FullscreenState::Fullscreen {
                    original_frame: current_frame,
                    native,
                    resize,
                };
                proof {
                    assert(actions@ =~= enter_actions(screen_frame, native, resize));
                }
                actions
            },
        }
    }

    /// Leave the locked-down fullscreen presentation.
    ///
    /// Takes the fullscreen payload and resets the state to `Normal` in
    /// one move, then returns the actions that undo exactly what enter
    /// did, ending with the saved geometry restored and the presentation
    /// options back at the system default.  From the `Normal` state this
    /// is the one tolerated no-op: no actions, no side effects; the caller
    /// should log "not in fullscreen mode".
    pub fn exit(&mut self) -> (actions: Vec<Action>)
        ensures
            final(self)@ == exit_transition(old(self)@),
            actions@ == exit_actions_for(old(self)@),
    {
        let mut actions: Vec<Action> = Vec::new();
        match self.state {
            FullscreenState::Normal => {
                proof {
                    assert(actions@ =~= Seq::<Action>::empty());
                }
                actions
            },
            FullscreenState::Fullscreen { original_frame, native, resize } => {
                self.state = FullscreenState::Normal;
                if native {
                    actions.push(Action::ExitNativeFullscreen);
                    actions.push(Action::DetachChildWindow);
                }
                actions.push(Action::FocusChildWindow);
                if resize {
                    actions.push(Action::SetWindowFrame { frame: original_frame });
                }
                actions.push(
                    Action::SetPresentationOptions { options: PRESENTATION_DEFAULT },
                );
                proof {
                    assert(actions@ =~= exit_actions(original_frame, native, resize));
                }
                actions
            },
        }
    }

    /// True iff the controller is in fullscreen mode with native
    /// fullscreen entered.  Answers from the controller's own state: in
    /// the `Normal` state there is nothing to query, and the answer is
    /// `false` without touching the content view.  The lemmas in
    /// [`crate::laws`] show this answer agrees with what the content view
    /// itself would report, for every caller that performs the returned
    /// actions.
    pub fn is_fullscreen(&self) -> (r: bool)
        ensures
            r == spec_is_fullscreen(self@),
    {
        match self.state {
            FullscreenState::Normal => false,
            FullscreenState::Fullscreen { native, .. } => native,
        }
    }
}

} // verus!
