use terminal_session::error::IoError;

#[test]
fn malformed_report_message() {
    assert_eq!(IoError::MalformedCursorReport.message(), "Failed to get cursor position.");
}

#[test]
fn every_error_has_its_own_message() {
    let errors = [
        IoError::Attributes,
        IoError::MalformedCursorReport,
        IoError::Read,
        IoError::Write,
    ];
    for (i, first) in errors.iter().enumerate() {
        assert!(first.message().starts_with("Failed to "));
        assert!(first.message().ends_with('.'));
        for second in &errors[i + 1..] {
            assert_ne!(first.message(), second.message());
        }
    }
    assert_eq!(IoError::Attributes.message(), "Failed to use the terminal attributes.");
    assert_eq!(IoError::Read.message(), "Failed to read from the terminal.");
    assert_eq!(IoError::Write.message(), "Failed to write to the terminal.");
}
