use issue_export::client::{
    authorize, decoded, first_request, issue_url, issues_url, response_body, Request,
    API_ENDPOINT,
};
use issue_export::error::ExportError;
use issue_export::query::{Query, State};

#[test]
fn endpoint_of_the_api() {
    assert_eq!(API_ENDPOINT, "https://api.github.com");
}

#[test]
fn url_of_one_issue() {
    let query = Query::from_str("octocat/Hello-World#1347").unwrap();
    assert_eq!(issue_url(&query), "https://api.github.com/repos/octocat/Hello-World/issues/1347");
}

#[test]
fn url_of_the_issues_in_a_state() {
    let query = Query::from_str("octocat/Hello-World").unwrap();
    assert_eq!(
        issues_url(&query, State::Open),
        "https://api.github.com/repos/octocat/Hello-World/issues?state=open"
    );
    assert_eq!(
        issues_url(&query, State::Closed),
        "https://api.github.com/repos/octocat/Hello-World/issues?state=closed"
    );
    assert_eq!(
        issues_url(&query, State::All),
        "https://api.github.com/repos/octocat/Hello-World/issues?state=all"
    );
}

#[test]
fn first_request_for_one_issue_ignores_the_state() {
    let query = Query::from_str("octocat/Hello-World#1").unwrap();
    let expected =
        Request::Issue("https://api.github.com/repos/octocat/Hello-World/issues/1".to_string());
    assert_eq!(first_request(&query, State::Open), expected);
    assert_eq!(first_request(&query, State::All), expected);
}

#[test]
fn first_request_for_a_repository_lists_its_issues() {
    let query = Query::from_str("octocat/Hello-World").unwrap();
    assert_eq!(
        first_request(&query, State::All),
        Request::Issues(
            "https://api.github.com/repos/octocat/Hello-World/issues?state=all".to_string()
        )
    );
}

#[test]
fn response_with_success_hands_on_the_body() {
    assert_eq!(response_body(200, b"[]".to_vec()), Ok(b"[]".to_vec()));
    assert_eq!(response_body(204, Vec::new()), Ok(Vec::new()));
    assert_eq!(response_body(299, vec![0xff, 0x00]), Ok(vec![0xff, 0x00]));
}

#[test]
fn response_without_success_is_a_failed_request() {
    for status in [100u16, 199, 300, 301, 404, 500, 0, u16::MAX] {
        assert_eq!(
            response_body(status, b"{\"message\":\"Not Found\"}".to_vec()),
            Err(ExportError::RequestFailed("{\"message\":\"Not Found\"}".to_string()))
        );
    }
}

#[test]
fn response_body_of_a_failure_is_decoded_with_replacements() {
    assert_eq!(
        response_body(500, vec![0x66, 0xff, 0x6f]),
        Err(ExportError::RequestFailed("f\u{fffd}o".to_string()))
    );
    assert_eq!(
        response_body(404, "nicht gefunden: ä".as_bytes().to_vec()),
        Err(ExportError::RequestFailed("nicht gefunden: ä".to_string()))
    );
    assert_eq!(response_body(404, Vec::new()), Err(ExportError::RequestFailed(String::new())));
}

#[test]
fn authorize_takes_a_token_that_fits_a_header() {
    assert_eq!(authorize(Some("ghp_abc123".to_string())).unwrap().as_str(), "ghp_abc123");
    assert_eq!(authorize(Some(String::new())).unwrap().as_str(), "");
    assert_eq!(authorize(Some("with space".to_string())).unwrap().as_str(), "with space");
    assert_eq!(authorize(Some("with\ttab".to_string())).unwrap().as_str(), "with\ttab");
    assert_eq!(authorize(Some("tökén".to_string())).unwrap().as_str(), "tökén");
}

#[test]
fn authorize_refuses_a_token_with_control_characters() {
    for token in ["line\nbreak", "carriage\rreturn", "nul\0", "del\u{7f}", "\u{1f}"] {
        assert_eq!(
            authorize(Some(token.to_string())),
            Err(ExportError::AuthError("invalid bearer token".to_string()))
        );
    }
}

#[test]
fn authorize_agrees_with_the_header_it_stands_for() {
    for token in ["abc", "", "a b", "a\tb", "a\nb", "a\u{7f}b", "ä", "\u{80}", "\u{1}"] {
        let accepted = headers::Authorization::bearer(token).is_ok();
        assert_eq!(authorize(Some(token.to_string())).is_ok(), accepted, "{:?}", token);
    }
}

#[test]
fn authorize_without_a_token_is_an_error() {
    assert_eq!(
        authorize(None),
        Err(ExportError::AuthError(
            "missing obligatory environment variable GITHUB_TOKEN".to_string()
        ))
    );
}

#[test]
fn decoded_body() {
    assert_eq!(decoded(Ok(vec![1u64, 2, 3])), Ok(vec![1u64, 2, 3]));
    assert_eq!(
        decoded::<u64>(Err("expected value at line 1 column 1".to_string())),
        Err(ExportError::MalformedResponse("expected value at line 1 column 1".to_string()))
    );
}
