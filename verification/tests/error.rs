use issue_export::error::ExportError;

#[test]
fn message_of_an_argument_error() {
    let error = ExportError::ArgumentError("invalid query: x".to_string());
    assert_eq!(error.message(), "invalid query: x");
    assert_eq!(error.cause(), None);
}

#[test]
fn message_of_an_auth_error() {
    let error = ExportError::AuthError("invalid bearer token".to_string());
    assert_eq!(error.message(), "invalid bearer token");
    assert_eq!(error.cause(), None);
}

#[test]
fn message_of_a_failed_request() {
    let error = ExportError::RequestFailed("{\"message\":\"Not Found\"}".to_string());
    assert_eq!(error.message(), "request failed: {\"message\":\"Not Found\"}");
    assert_eq!(error.cause(), None);
}

#[test]
fn message_of_a_malformed_response() {
    let error = ExportError::MalformedResponse("expected value at line 1 column 1".to_string());
    assert_eq!(error.message(), "malformed response");
    assert_eq!(error.cause(), Some("expected value at line 1 column 1".to_string()));
}

#[test]
fn message_of_a_directory_error() {
    let error = ExportError::DirectoryError {
        path: "./md".to_string(),
        cause: "Permission denied".to_string(),
    };
    assert_eq!(error.message(), "cannot create directory ./md");
    assert_eq!(error.cause(), Some("Permission denied".to_string()));
}

#[test]
fn message_of_a_failed_write() {
    let error = ExportError::WriteFailed {
        path: "./md/001-a.md".to_string(),
        cause: "No space left on device".to_string(),
    };
    assert_eq!(error.message(), "cannot write ./md/001-a.md");
    assert_eq!(error.cause(), Some("No space left on device".to_string()));
}

#[test]
fn message_of_a_template_error() {
    let error = ExportError::TemplateError("unclosed block".to_string());
    assert_eq!(error.message(), "cannot render the template");
    assert_eq!(error.cause(), Some("unclosed block".to_string()));
}
