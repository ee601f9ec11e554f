//! The controller's guarantees, proved against the windowing model.
//!
//! Each lemma quantifies over an arbitrary starting [`WindowSystem`], so
//! every statement holds of every enter/exit pair in any sequence of
//! transitions, not only of the first.

use vstd::prelude::*;
use crate::actions::Action;
use crate::controller::FullscreenState;
use crate::controller::enter_actions;
use crate::controller::enter_transition;
use crate::controller::exit_actions;
use crate::controller::exit_actions_for;
use crate::controller::exit_transition;
use crate::controller::spec_is_fullscreen;
use crate::geometry::Rect;
use crate::presentation::PRESENTATION_DEFAULT;
use crate::presentation::RESTRICTED_PRESENTATION_OPTIONS;
use crate::system::WindowSystem;
use crate::system::apply_action_spec;
use crate::system::apply_all_spec;
use crate::system::lemma_apply_all_append;
use crate::system::lemma_apply_all_singleton;

verus! {

/// The native-fullscreen segment of an enter, evaluated: it flips the
/// fullscreen and parenting flags on and touches nothing else.
proof fn lemma_native_enter_segment(sys: WindowSystem)
    ensures
        apply_all_spec(
            sys,
            seq![
                Action::EnterNativeFullscreen,
                Action::AttachChildBelowFullscreenWindow,
                Action::CopyDelegateToFullscreenWindow,
                Action::FocusFullscreenWindow,
            ],
        ) == (WindowSystem { native_fullscreen: true, child_attached: true, ..sys }),
{
    let s = seq![
        Action::EnterNativeFullscreen,
        Action::AttachChildBelowFullscreenWindow,
        Action::CopyDelegateToFullscreenWindow,
        Action::FocusFullscreenWindow,
    ];
    let sys1 = apply_action_spec(sys, Action::EnterNativeFullscreen);
    let sys2 = apply_action_spec(sys1, Action::AttachChildBelowFullscreenWindow);
    assert(s.skip(1) =~= seq![
        Action::AttachChildBelowFullscreenWindow,
        Action::CopyDelegateToFullscreenWindow,
        Action::FocusFullscreenWindow,
    ]);
    assert(s.skip(1).skip(1) =~= seq![
        Action::CopyDelegateToFullscreenWindow,
        Action::FocusFullscreenWindow,
    ]);
    assert(s.skip(1).skip(1).skip(1) =~= seq![Action::FocusFullscreenWindow]);
    assert(apply_all_spec(sys, s) == apply_all_spec(sys1, s.skip(1)));
    assert(apply_all_spec(sys1, s.skip(1)) == apply_all_spec(sys2, s.skip(1).skip(1)));
    assert(apply_all_spec(sys2, s.skip(1).skip(1)) == apply_all_spec(
        sys2,
        s.skip(1).skip(1).skip(1),
    ));
    lemma_apply_all_singleton(sys2, Action::FocusFullscreenWindow);
}

/// The native-fullscreen segment of an exit, evaluated: it flips the
/// fullscreen and parenting flags off and touches nothing else.
proof fn lemma_native_exit_segment(sys: WindowSystem)
    ensures
        apply_all_spec(sys, seq![Action::ExitNativeFullscreen, Action::DetachChildWindow])
            == (WindowSystem { native_fullscreen: false, child_attached: false, ..sys }),
{
    let s = seq![Action::ExitNativeFullscreen, Action::DetachChildWindow];
    let sys1 = apply_action_spec(sys, Action::ExitNativeFullscreen);
    assert(s.skip(1) =~= seq![Action::DetachChildWindow]);
    assert(apply_all_spec(sys, s) == apply_all_spec(sys1, s.skip(1)));
    lemma_apply_all_singleton(sys1, Action::DetachChildWindow);
}

/// What a whole enter does to the windowing state: the presentation
/// options become exactly the restriction set; the window frame becomes
/// the display frame when a resize was requested and stays put otherwise;
/// native fullscreen mode and the parent/child relationship are
/// established exactly when native fullscreen was requested.
pub proof fn lemma_enter_actions_effect(
    sys: WindowSystem,
    screen_frame: Rect,
    native: bool,
    resize: bool,
)
    ensures
        apply_all_spec(sys, enter_actions(screen_frame, native, resize)) == (WindowSystem {
            window_frame: if resize {
                screen_frame
            } else {
                sys.window_frame
            },
            presentation_options: RESTRICTED_PRESENTATION_OPTIONS,
            native_fullscreen: native || sys.native_fullscreen,
            child_attached: native || sys.child_attached,
        }),
{
    let p = seq![Action::SetPresentationOptions { options: RESTRICTED_PRESENTATION_OPTIONS }];
    let r: Seq<Action> = if resize {
        seq![Action::SetWindowFrame { frame: screen_frame }]
    } else {
        Seq::<Action>::empty()
    };
    let n: Seq<Action> = if native {
        seq![
            Action::EnterNativeFullscreen,
            Action::AttachChildBelowFullscreenWindow,
            Action::CopyDelegateToFullscreenWindow,
            Action::FocusFullscreenWindow,
        ]
    } else {
        Seq::<Action>::empty()
    };
    assert(enter_actions(screen_frame, native, resize) == p + r + n);
    lemma_apply_all_append(sys, p + r, n);
    lemma_apply_all_append(sys, p, r);
    lemma_apply_all_singleton(
        sys,
        Action::SetPresentationOptions { options: RESTRICTED_PRESENTATION_OPTIONS },
    );
    assert(p[0] == Action::SetPresentationOptions { options: RESTRICTED_PRESENTATION_OPTIONS });
    let sys1 = apply_action_spec(
        sys,
        Action::SetPresentationOptions { options: RESTRICTED_PRESENTATION_OPTIONS },
    );
    if resize {
        lemma_apply_all_singleton(sys1, Action::SetWindowFrame { frame: screen_frame });
    }
    let sys2 = apply_all_spec(sys1, r);
    if native {
        lemma_native_enter_segment(sys2);
    }
}

/// What a whole exit does to the windowing state: the presentation
/// options return to the system default; the window frame returns to the
/// saved frame when the enter resized it; native fullscreen mode and the
/// parent/child relationship are cleared when the enter established them.
pub proof fn lemma_exit_actions_effect(
    sys: WindowSystem,
    original_frame: Rect,
    native: bool,
    resize: bool,
)
    ensures
        apply_all_spec(sys, exit_actions(original_frame, native, resize)) == (WindowSystem {
            window_frame: if resize {
                original_frame
            } else {
                sys.window_frame
            },
            presentation_options: PRESENTATION_DEFAULT,
            native_fullscreen: !native && sys.native_fullscreen,
            child_attached: !native && sys.child_attached,
        }),
{
    let n: Seq<Action> = if native {
        seq![Action::ExitNativeFullscreen, Action::DetachChildWindow]
    } else {
        Seq::<Action>::empty()
    };
    let f = seq![Action::FocusChildWindow];
    let r: Seq<Action> = if resize {
        seq![Action::SetWindowFrame { frame: original_frame }]
    } else {
        Seq::<Action>::empty()
    };
    let d = seq![Action::SetPresentationOptions { options: PRESENTATION_DEFAULT }];
    assert(exit_actions(original_frame, native, resize) == n + f + r + d);
    lemma_apply_all_append(sys, n + f + r, d);
    lemma_apply_all_append(sys, n + f, r);
    lemma_apply_all_append(sys, n, f);
    if native {
        lemma_native_exit_segment(sys);
    }
    let sys1 = apply_all_spec(sys, n);
    lemma_apply_all_singleton(sys1, Action::FocusChildWindow);
    let sys2 = apply_action_spec(sys1, Action::FocusChildWindow);
    if resize {
        lemma_apply_all_singleton(sys2, Action::SetWindowFrame { frame: original_frame });
    }
    let sys3 = apply_all_spec(sys2, r);
    lemma_apply_all_singleton(sys3, Action::SetPresentationOptions {
        options: PRESENTATION_DEFAULT,
    });
}

/// Round-trip geometry: an enter that records the window frame the
/// windowing subsystem actually has, followed by an exit issued from the
/// state that enter produced, restores the window frame exactly — same
/// origin, same size — from any starting state and whichever transition
/// parts were requested.
pub proof fn lemma_round_trip_geometry(
    sys: WindowSystem,
    screen_frame: Rect,
    native: bool,
    resize: bool,
)
    ensures
        ({
            let entered_state = enter_transition(
                FullscreenState::Normal,
                sys.window_frame,
                native,
                resize,
            );
            let entered = apply_all_spec(sys, enter_actions(screen_frame, native, resize));
            let exited = apply_all_spec(entered, exit_actions_for(entered_state));
            exited.window_frame == sys.window_frame
        }),
{
    lemma_enter_actions_effect(sys, screen_frame, native, resize);
    let entered = apply_all_spec(sys, enter_actions(screen_frame, native, resize));
    lemma_exit_actions_effect(entered, sys.window_frame, native, resize);
}

/// Presentation-restriction symmetry: after the actions of an enter the
/// process-wide bitmask equals exactly the documented restriction set, and
/// after the actions of the exit issued from the state that enter produced
/// it equals the system default — from any starting state, hence for all
/// sequences of enter/exit pairs.
pub proof fn lemma_presentation_restriction_symmetry(
    sys: WindowSystem,
    current_frame: Rect,
    screen_frame: Rect,
    native: bool,
    resize: bool,
)
    ensures
        apply_all_spec(sys, enter_actions(screen_frame, native, resize)).presentation_options
            == RESTRICTED_PRESENTATION_OPTIONS,
        apply_all_spec(
            apply_all_spec(sys, enter_actions(screen_frame, native, resize)),
            exit_actions_for(enter_transition(FullscreenState::Normal, current_frame, native, resize)),
        ).presentation_options == PRESENTATION_DEFAULT,
{
    lemma_enter_actions_effect(sys, screen_frame, native, resize);
    let entered = apply_all_spec(sys, enter_actions(screen_frame, native, resize));
    lemma_exit_actions_effect(entered, current_frame, native, resize);
}

/// Idempotent exit: from the `Normal` state, exit changes neither the
/// controller nor the windowing subsystem — it issues no actions at all —
/// so a second exit in a row has no side effects and cannot corrupt
/// state.
pub proof fn lemma_exit_idempotent(sys: WindowSystem)
    ensures
        exit_transition(FullscreenState::Normal) == FullscreenState::Normal,
        exit_actions_for(FullscreenState::Normal) == Seq::<Action>::empty(),
        apply_all_spec(sys, exit_actions_for(FullscreenState::Normal)) == sys,
{
}

/// The controller's answer and the windowing subsystem agree: the
/// content view reports native fullscreen mode, and the target window is
/// parented under a fullscreen window, exactly when the controller's
/// state says so.
pub open spec fn reflects(s: FullscreenState, sys: WindowSystem) -> bool {
    &&& sys.native_fullscreen == spec_is_fullscreen(s)
    &&& sys.child_attached == spec_is_fullscreen(s)
}

/// Query consistency, enter: a caller that starts from an agreeing pair
/// of controller and windowing state and performs the actions of an enter
/// ends with an agreeing pair again — so `is_fullscreen` answers `true`
/// after a completed enter exactly when native fullscreen mode was
/// requested, and keeps answering from the controller's own state alone.
pub proof fn lemma_enter_preserves_agreement(
    sys: WindowSystem,
    current_frame: Rect,
    screen_frame: Rect,
    native: bool,
    resize: bool,
)
    requires
        reflects(FullscreenState::Normal, sys),
    ensures
        reflects(
            enter_transition(FullscreenState::Normal, current_frame, native, resize),
            apply_all_spec(sys, enter_actions(screen_frame, native, resize)),
        ),
        spec_is_fullscreen(enter_transition(FullscreenState::Normal, current_frame, native, resize))
            == native,
{
    lemma_enter_actions_effect(sys, screen_frame, native, resize);
}

/// Query consistency, exit: from any agreeing pair of controller and
/// windowing state, performing the actions exit issues ends with an
/// agreeing pair in the `Normal` state — so `is_fullscreen` answers
/// `false` after any completed exit, as it does immediately after
/// construction.
pub proof fn lemma_exit_preserves_agreement(s: FullscreenState, sys: WindowSystem)
    requires
        reflects(s, sys),
    ensures
        reflects(exit_transition(s), apply_all_spec(sys, exit_actions_for(s))),
        !spec_is_fullscreen(exit_transition(s)),
{
    match s {
        FullscreenState::Normal => {
        },
        FullscreenState::Fullscreen { original_frame, native, resize } => {
            lemma_exit_actions_effect(sys, original_frame, native, resize);
        },
    }
}

} // verus!
