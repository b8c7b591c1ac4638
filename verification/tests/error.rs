use weather_dashboard::error::DashboardError;

#[test]
fn every_error_has_its_message() {
    assert_eq!(DashboardError::LocationNotFound.message(), "Location not found");
    assert_eq!(
        DashboardError::ResponseParseError.message(),
        "Provider response could not be read"
    );
    assert_eq!(
        DashboardError::MissingCredentials.message(),
        "Weather provider credentials are missing"
    );
    assert_eq!(DashboardError::MissingIconError.message(), "Icon not found");
    assert_eq!(
        DashboardError::TerminalInitError.message(),
        "Terminal does not support raw mode"
    );
    assert_eq!(DashboardError::DrawError.message(), "Frame could not be drawn");
    assert_eq!(DashboardError::InputError.message(), "Terminal input could not be read");
}

#[test]
fn messages_are_single_lines() {
    let all = [
        DashboardError::LocationNotFound,
        DashboardError::ResponseParseError,
        DashboardError::MissingCredentials,
        DashboardError::MissingIconError,
        DashboardError::TerminalInitError,
        DashboardError::DrawError,
        DashboardError::InputError,
    ];
    for error in all {
        assert!(!error.message().is_empty());
        assert!(!error.message().contains('\n'));
    }
    for (i, first) in all.iter().enumerate() {
        for second in &all[i + 1..] {
            assert_ne!(first.message(), second.message());
        }
    }
}
