use arkadas_desktop::failure::{disposition, resolve, Disposition, FailureKind, Resolution};

fn resolved(kind: FailureKind, message: &str) -> (Option<i32>, Option<String>, bool) {
    match resolve(kind, String::from(message)) {
        Resolution::Exit { status, diagnostic } => (Some(status), Some(diagnostic), false),
        Resolution::CommandError(error) => (None, Some(error), false),
        Resolution::Dropped => (None, None, true),
    }
}

#[test]
fn startup_failures_are_fatal() {
    assert_eq!(disposition(FailureKind::PluginInit), Disposition::Terminate);
    assert_eq!(disposition(FailureKind::WindowConstruction), Disposition::Terminate);
    assert_eq!(disposition(FailureKind::MarkerAcquisition), Disposition::Terminate);
}

#[test]
fn command_failures_go_back_to_the_caller() {
    assert_eq!(disposition(FailureKind::Notification), Disposition::ReturnToCaller);
    assert_eq!(disposition(FailureKind::OpenUrl), Disposition::ReturnToCaller);
}

#[test]
fn window_failures_are_ignored() {
    assert_eq!(disposition(FailureKind::Focus), Disposition::Ignore);
    assert_eq!(disposition(FailureKind::Restore), Disposition::Ignore);
}

#[test]
fn fatal_failure_exits_with_status_one_and_the_diagnostic() {
    for kind in [
        FailureKind::PluginInit,
        FailureKind::WindowConstruction,
        FailureKind::MarkerAcquisition,
    ] {
        assert_eq!(
            resolved(kind, "channel broken"),
            (Some(1), Some(String::from("channel broken")), false)
        );
    }
}

#[test]
fn command_failure_keeps_its_description() {
    assert_eq!(
        resolved(FailureKind::OpenUrl, "no handler for not-a-valid-scheme"),
        (None, Some(String::from("no handler for not-a-valid-scheme")), false)
    );
    assert_eq!(
        resolved(FailureKind::Notification, "service unavailable"),
        (None, Some(String::from("service unavailable")), false)
    );
}

#[test]
fn window_failure_is_dropped() {
    assert_eq!(resolved(FailureKind::Focus, "denied"), (None, None, true));
    assert_eq!(resolved(FailureKind::Restore, "denied"), (None, None, true));
}
