use scribble::capability::{attach_order, Capability};

#[test]
fn release_build_attaches_three_capabilities_in_order() {
    assert_eq!(
        attach_order(false),
        vec![Capability::Notification, Capability::Shell, Capability::Updater]
    );
}

#[test]
fn debug_build_attaches_logger_last() {
    assert_eq!(
        attach_order(true),
        vec![
            Capability::Notification,
            Capability::Shell,
            Capability::Updater,
            Capability::Logger
        ]
    );
}

#[test]
fn logger_never_precedes_updater() {
    for debug in [false, true] {
        let order = attach_order(debug);
        let updater = order.iter().position(|c| *c == Capability::Updater).unwrap();
        if let Some(logger) = order.iter().position(|c| *c == Capability::Logger) {
            assert!(updater < logger);
        }
    }
}

#[test]
fn only_logger_attachment_can_fail() {
    assert!(Capability::Notification.is_infallible());
    assert!(Capability::Shell.is_infallible());
    assert!(Capability::Updater.is_infallible());
    assert!(!Capability::Logger.is_infallible());
}
