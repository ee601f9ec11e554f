use fullscreen_controller::actions::Action;
use fullscreen_controller::controller::Fullscreen;
use fullscreen_controller::geometry::Rect;
use fullscreen_controller::presentation::PRESENTATION_DEFAULT;
use fullscreen_controller::presentation::RESTRICTED_PRESENTATION_OPTIONS;
use fullscreen_controller::system::WindowSystem;

#[test]
fn basic_cycle() {
    let orig = Rect::new(0, 0, 800, 600);
    let screen = Rect::new(0, 0, 1920, 1080);
    let mut sys = WindowSystem::new(orig);
    let mut c = Fullscreen::new();
    assert!(!c.is_fullscreen());

    let actions = c.enter(orig, screen, true, true);
    sys.apply_all(&actions);
    assert_eq!(sys.window_frame, screen);
    assert!(sys.child_attached);
    assert!(sys.native_fullscreen);
    assert!(c.is_fullscreen());

    let actions = c.exit();
    sys.apply_all(&actions);
    assert!(!sys.child_attached);
    assert!(!sys.native_fullscreen);
    assert_eq!(sys.window_frame, Rect::new(0, 0, 800, 600));
    assert!(!c.is_fullscreen());
}

#[test]
fn exit_without_enter() {
    let orig = Rect::new(10, 20, 640, 480);
    let mut sys = WindowSystem::new(orig);
    let before = sys;
    let mut c = Fullscreen::new();

    let actions = c.exit();
    assert!(actions.is_empty());
    sys.apply_all(&actions);
    assert_eq!(sys, before);
    assert!(!c.is_fullscreen());
}

#[test]
fn geometry_only_mode() {
    let orig = Rect::new(5, 5, 300, 200);
    let screen = Rect::new(0, 0, 2560, 1440);
    let mut sys = WindowSystem::new(orig);
    let mut c = Fullscreen::new();

    let actions = c.enter(orig, screen, false, true);
    sys.apply_all(&actions);
    assert_eq!(sys.window_frame, screen);
    assert!(!sys.native_fullscreen);
    assert!(!sys.child_attached);
    assert!(!c.is_fullscreen());

    let actions = c.exit();
    sys.apply_all(&actions);
    assert_eq!(sys.window_frame, orig);
    assert_eq!(sys.presentation_options, PRESENTATION_DEFAULT);
}

#[test]
fn fullscreen_only_mode() {
    let orig = Rect::new(5, 5, 300, 200);
    let screen = Rect::new(0, 0, 2560, 1440);
    let mut sys = WindowSystem::new(orig);
    let mut c = Fullscreen::new();

    let actions = c.enter(orig, screen, true, false);
    sys.apply_all(&actions);
    assert_eq!(sys.window_frame, orig);
    assert!(sys.native_fullscreen);
    assert!(sys.child_attached);
    assert!(c.is_fullscreen());

    let actions = c.exit();
    sys.apply_all(&actions);
    assert_eq!(sys.window_frame, orig);
    assert!(!sys.native_fullscreen);
    assert!(!sys.child_attached);
}

#[test]
fn double_exit_is_noop() {
    let orig = Rect::new(0, 0, 800, 600);
    let screen = Rect::new(0, 0, 1920, 1080);
    let mut sys = WindowSystem::new(orig);
    let mut c = Fullscreen::new();

    let actions = c.enter(orig, screen, true, true);
    sys.apply_all(&actions);
    let actions = c.exit();
    sys.apply_all(&actions);
    let after_first = sys;

    let actions = c.exit();
    assert!(actions.is_empty());
    sys.apply_all(&actions);
    assert_eq!(sys, after_first);
    assert!(!c.is_fullscreen());
}

#[test]
fn double_enter_keeps_original_frame() {
    let orig = Rect::new(40, 50, 800, 600);
    let other = Rect::new(0, 0, 1920, 1080);
    let screen = Rect::new(0, 0, 1920, 1080);
    let mut sys = WindowSystem::new(orig);
    let mut c = Fullscreen::new();

    let actions = c.enter(orig, screen, true, true);
    sys.apply_all(&actions);
    // A second enter while already in fullscreen is a no-op: it must not
    // overwrite the saved frame with the now-fullscreen geometry.
    let actions = c.enter(other, screen, true, true);
    assert!(actions.is_empty());
    sys.apply_all(&actions);

    let actions = c.exit();
    sys.apply_all(&actions);
    assert_eq!(sys.window_frame, orig);
}

#[test]
fn restriction_mask_exact_value() {
    // HideDock | HideMenuBar | DisableAppleMenu | DisableProcessSwitching
    // | DisableForceQuit | DisableSessionTermination
    // | DisableHideApplication | DisableMenuBarTransparency
    // | DisableCursorLocationAssistance
    // = 2 + 8 + 16 + 32 + 64 + 128 + 256 + 512 + 4096.
    assert_eq!(RESTRICTED_PRESENTATION_OPTIONS, 5114);
    assert_eq!(PRESENTATION_DEFAULT, 0);
}

#[test]
fn enter_action_sequence_exact() {
    let orig = Rect::new(0, 0, 800, 600);
    let screen = Rect::new(0, 0, 1920, 1080);
    let mut c = Fullscreen::new();

    let actions = c.enter(orig, screen, true, true);
    assert_eq!(
        actions,
        vec![
            Action::SetPresentationOptions { options: RESTRICTED_PRESENTATION_OPTIONS },
            Action::SetWindowFrame { frame: screen },
            Action::EnterNativeFullscreen,
            Action::AttachChildBelowFullscreenWindow,
            Action::CopyDelegateToFullscreenWindow,
            Action::FocusFullscreenWindow,
        ]
    );
}

#[test]
fn exit_action_sequence_exact() {
    let orig = Rect::new(7, -3, 801, 599);
    let screen = Rect::new(0, 0, 1920, 1080);
    let mut c = Fullscreen::new();
    let _ = c.enter(orig, screen, true, true);

    let actions = c.exit();
    assert_eq!(
        actions,
        vec![
            Action::ExitNativeFullscreen,
            Action::DetachChildWindow,
            Action::FocusChildWindow,
            Action::SetWindowFrame { frame: orig },
            Action::SetPresentationOptions { options: PRESENTATION_DEFAULT },
        ]
    );
}

#[test]
fn round_trip_geometry_various_rects() {
    let screen = Rect::new(0, 0, 3840, 2160);
    let rects = vec![
        Rect::new(0, 0, 0, 0),
        Rect::new(-100, -200, 50, 75),
        Rect::new(i64::MIN, i64::MAX, i64::MAX, i64::MIN),
        Rect::new(12, 34, 5678, 910),
    ];
    for orig in rects {
        for native in [false, true] {
            for resize in [false, true] {
                let mut sys = WindowSystem::new(orig);
                let mut c = Fullscreen::new();
                let actions = c.enter(orig, screen, native, resize);
                sys.apply_all(&actions);
                let actions = c.exit();
                sys.apply_all(&actions);
                assert_eq!(sys.window_frame, orig);
            }
        }
    }
}

#[test]
fn presentation_symmetry_over_repeated_cycles() {
    let orig = Rect::new(0, 0, 800, 600);
    let screen = Rect::new(0, 0, 1920, 1080);
    let mut sys = WindowSystem::new(orig);
    let mut c = Fullscreen::new();
    for _ in 0..4 {
        let actions = c.enter(sys.window_frame, screen, true, true);
        sys.apply_all(&actions);
        assert_eq!(sys.presentation_options, RESTRICTED_PRESENTATION_OPTIONS);
        let actions = c.exit();
        sys.apply_all(&actions);
        assert_eq!(sys.presentation_options, PRESENTATION_DEFAULT);
        assert_eq!(sys.window_frame, orig);
    }
}
