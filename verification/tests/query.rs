use issue_export::error::ExportError;
use issue_export::query::{Query, State};

fn argument_message(result: Result<Query, ExportError>) -> String {
    match result {
        Err(ExportError::ArgumentError(message)) => message,
        other => panic!("expected an argument error, got {:?}", other),
    }
}

#[test]
fn query_for_a_repository() {
    let query = Query::from_str("octocat/Hello-World").unwrap();
    assert_eq!(query.owner(), "octocat");
    assert_eq!(query.repo(), "Hello-World");
    assert_eq!(query.issue_number(), None);
}

#[test]
fn query_with_issue_number() {
    let query = Query::from_str("octocat/Hello-World#1").unwrap();
    assert_eq!(query.owner(), "octocat");
    assert_eq!(query.repo(), "Hello-World");
    assert_eq!(query.issue_number(), Some(1));
}

#[test]
fn query_with_large_issue_number() {
    let query = Query::from_str("rust-lang/rust#18446744073709551615").unwrap();
    assert_eq!(query.issue_number(), Some(u64::MAX));
}

#[test]
fn query_issue_number_may_have_a_plus_and_zeros() {
    assert_eq!(Query::from_str("a/b#+7").unwrap().issue_number(), Some(7));
    assert_eq!(Query::from_str("a/b#007").unwrap().issue_number(), Some(7));
}

#[test]
fn query_splits_at_the_first_slash_and_the_first_hash() {
    let query = Query::from_str("a/b/c#12").unwrap();
    assert_eq!(query.owner(), "a");
    assert_eq!(query.repo(), "b/c");
    assert_eq!(query.issue_number(), Some(12));
    let query = Query::from_str("a#1/b").unwrap();
    assert_eq!(query.owner(), "a#1");
    assert_eq!(query.repo(), "b");
    assert_eq!(query.issue_number(), None);
}

#[test]
fn query_keeps_characters_beyond_ascii() {
    let query = Query::from_str("jörg/tëst#3").unwrap();
    assert_eq!(query.owner(), "jörg");
    assert_eq!(query.repo(), "tëst");
    assert_eq!(query.issue_number(), Some(3));
}

#[test]
fn query_without_slash_is_refused() {
    assert_eq!(argument_message(Query::from_str("octocat")), "invalid query: octocat");
    assert_eq!(argument_message(Query::from_str("")), "invalid query: ");
    assert_eq!(argument_message(Query::from_str("octocat#1")), "invalid query: octocat#1");
}

#[test]
fn query_with_empty_owner_or_repository_is_refused() {
    assert_eq!(argument_message(Query::from_str("/repo")), "invalid query: /repo");
    assert_eq!(argument_message(Query::from_str("owner/")), "invalid query: owner/");
    assert_eq!(argument_message(Query::from_str("owner/#1")), "invalid query: owner/#1");
    assert_eq!(argument_message(Query::from_str("/")), "invalid query: /");
}

#[test]
fn query_with_bad_issue_part_is_refused() {
    assert_eq!(
        argument_message(Query::from_str("a/b#x")),
        "failed to parse issue x as integer"
    );
    assert_eq!(
        argument_message(Query::from_str("a/b#")),
        "failed to parse issue  as integer"
    );
    assert_eq!(
        argument_message(Query::from_str("a/b#-1")),
        "failed to parse issue -1 as integer"
    );
    assert_eq!(
        argument_message(Query::from_str("a/b#1 ")),
        "failed to parse issue 1  as integer"
    );
    assert_eq!(
        argument_message(Query::from_str("a/b#1#2")),
        "failed to parse issue 1#2 as integer"
    );
    assert_eq!(
        argument_message(Query::from_str("a/b#+")),
        "failed to parse issue + as integer"
    );
}

#[test]
fn query_with_issue_number_zero_is_refused() {
    assert_eq!(
        argument_message(Query::from_str("a/b#0")),
        "failed to parse issue 0 as integer"
    );
}

#[test]
fn query_with_issue_number_too_large_is_refused() {
    assert_eq!(
        argument_message(Query::from_str("a/b#18446744073709551616")),
        "failed to parse issue 18446744073709551616 as integer"
    );
}

#[test]
fn query_clone_is_the_same_query() {
    let query = Query::from_str("octocat/Hello-World#42").unwrap();
    assert_eq!(query.clone(), query);
}

#[test]
fn state_words() {
    assert_eq!(State::from_str("open").unwrap(), State::Open);
    assert_eq!(State::from_str("closed").unwrap(), State::Closed);
    assert_eq!(State::from_str("all").unwrap(), State::All);
    assert_eq!(State::Open.as_str(), "open");
    assert_eq!(State::Closed.as_str(), "closed");
    assert_eq!(State::All.as_str(), "all");
}

#[test]
fn state_round_trip() {
    for state in [State::Open, State::Closed, State::All] {
        assert_eq!(State::from_str(state.as_str()).unwrap(), state);
    }
}

#[test]
fn state_unknown_word_is_refused() {
    match State::from_str("Open") {
        Err(ExportError::ArgumentError(message)) => assert_eq!(message, "unknown state: Open"),
        other => panic!("expected an argument error, got {:?}", other),
    }
    match State::from_str("") {
        Err(ExportError::ArgumentError(message)) => assert_eq!(message, "unknown state: "),
        other => panic!("expected an argument error, got {:?}", other),
    }
    assert!(State::from_str("open ").is_err());
    assert!(State::from_str("opened").is_err());
}
