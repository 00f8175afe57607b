use scribble::capability::Capability;
use scribble::startup::{Startup, StartupAction};
use scribble::window::{Visibility, WindowEventKind, WindowState};

/// Drives a cold start, failing the attach of `failing` if given. Returns the
/// actions asked for, in order, and the final sequence.
fn drive(debug: bool, failing: Option<Capability>) -> (Vec<StartupAction>, Startup) {
    let mut s = Startup::new(debug);
    let mut seen = Vec::new();
    while let Some(action) = s.next_action() {
        seen.push(action);
        match action {
            StartupAction::Abort => break,
            StartupAction::Attach(c) => s.complete(Some(c) != failing),
            StartupAction::EmitMarker | StartupAction::EnterLoop => s.complete(true),
        }
    }
    (seen, s)
}

#[test]
fn fresh_start_asks_for_notification_first() {
    let s = Startup::new(true);
    assert_eq!(s.next_action(), Some(StartupAction::Attach(Capability::Notification)));
    assert!(s.attached().is_empty());
    assert!(!s.is_running());
}

#[test]
fn debug_build_close_hides_and_keeps_running() {
    let (seen, s) = drive(true, None);
    assert_eq!(
        seen,
        vec![
            StartupAction::Attach(Capability::Notification),
            StartupAction::Attach(Capability::Shell),
            StartupAction::Attach(Capability::Updater),
            StartupAction::Attach(Capability::Logger),
            StartupAction::EmitMarker,
            StartupAction::EnterLoop,
        ]
    );
    assert!(s.attached().contains(&Capability::Logger));
    assert!(s.is_running());
    let mut w = WindowState::new();
    w.dispatch(&WindowEventKind::CloseRequested);
    assert_eq!(w.visibility(), Visibility::Hidden);
    assert!(s.is_running());
    assert_eq!(s.next_action(), None);
}

#[test]
fn release_build_close_hides_and_keeps_running() {
    let (seen, s) = drive(false, None);
    assert_eq!(
        seen,
        vec![
            StartupAction::Attach(Capability::Notification),
            StartupAction::Attach(Capability::Shell),
            StartupAction::Attach(Capability::Updater),
            StartupAction::EmitMarker,
            StartupAction::EnterLoop,
        ]
    );
    assert_eq!(
        s.attached(),
        vec![Capability::Notification, Capability::Shell, Capability::Updater]
    );
    assert!(s.is_running());
    let mut w = WindowState::new();
    w.dispatch(&WindowEventKind::CloseRequested);
    assert_eq!(w.visibility(), Visibility::Hidden);
    assert!(s.is_running());
}

#[test]
fn logger_failure_aborts_before_loop() {
    let (seen, s) = drive(true, Some(Capability::Logger));
    assert_eq!(
        seen,
        vec![
            StartupAction::Attach(Capability::Notification),
            StartupAction::Attach(Capability::Shell),
            StartupAction::Attach(Capability::Updater),
            StartupAction::Attach(Capability::Logger),
            StartupAction::Abort,
        ]
    );
    assert!(!seen.contains(&StartupAction::EnterLoop));
    assert!(!s.is_running());
    assert_eq!(s.next_action(), Some(StartupAction::Abort));
    assert_eq!(
        s.attached(),
        vec![Capability::Notification, Capability::Shell, Capability::Updater]
    );
}

#[test]
fn failed_marker_step_aborts_too() {
    let mut s = Startup::new(false);
    for _ in 0..3 {
        s.complete(true);
    }
    assert_eq!(s.next_action(), Some(StartupAction::EmitMarker));
    s.complete(false);
    assert_eq!(s.next_action(), Some(StartupAction::Abort));
    assert!(!s.is_running());
}

#[test]
fn attached_grows_one_step_at_a_time() {
    let mut s = Startup::new(true);
    s.complete(true);
    assert_eq!(s.attached(), vec![Capability::Notification]);
    s.complete(true);
    assert_eq!(s.attached(), vec![Capability::Notification, Capability::Shell]);
    assert_eq!(s.next_action(), Some(StartupAction::Attach(Capability::Updater)));
}
