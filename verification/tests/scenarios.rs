use issue_export::client::{first_request, response_body, Request};
use issue_export::error::ExportError;
use issue_export::model::{Comment, Issue, User};
use issue_export::pipeline::{Action, Completion, Pipeline};
use issue_export::query::{Query, State};
use issue_export::writer::{mkdir, serialize, Creation, Document};

fn user(login: &str) -> User {
    User {
        login: login.to_string(),
        id: 1,
        avatar_url: String::new(),
        gravatar_id: String::new(),
        url: String::new(),
        html_url: String::new(),
        followers_url: String::new(),
        following_url: String::new(),
        gists_url: String::new(),
        starred_url: String::new(),
        subscriptions_url: String::new(),
        organizations_url: String::new(),
        repos_url: String::new(),
        events_url: String::new(),
        received_events_url: String::new(),
        site_admin: false,
    }
}

fn issue(number: u64, title: &str) -> Issue {
    Issue {
        id: 500 + number,
        url: String::new(),
        labels_url: String::new(),
        comments_url: format!(
            "https://api.github.com/repos/octocat/Hello-World/issues/{}/comments",
            number
        ),
        events_url: String::new(),
        html_url: format!("https://github.com/octocat/Hello-World/issues/{}", number),
        number,
        state: "open".to_string(),
        title: title.to_string(),
        body: "It does not work.".to_string(),
        user: user("octocat"),
        labels: Vec::new(),
        assignee: None,
        locked: false,
        comments: 0,
        closed_at: None,
        created_at: "2011-04-22T13:33:48Z".to_string(),
        updated_at: "2011-04-22T13:33:48Z".to_string(),
    }
}

/// Runs an export over `issues` against a tracker that answers each fetch of comments with
/// what `answer` gives for the address, and collects the files instead of writing them.
fn export(
    issues: Vec<Issue>,
    answer: fn(&str) -> (u16, Vec<Comment>),
) -> Result<Vec<Document>, ExportError> {
    let mut pipeline = Pipeline::new(issues);
    let mut running: Vec<(usize, String)> = Vec::new();
    let mut files = Vec::new();
    mkdir("./md", Creation::AlreadyExists)?;
    loop {
        match pipeline.next_action() {
            Action::Fetch { ticket, url } => running.push((ticket, url)),
            Action::Wait => {
                let (ticket, url) = running.remove(0);
                let (status, comments) = answer(&url);
                let outcome = response_body(status, b"not found".to_vec()).map(|_| comments);
                match pipeline.complete(ticket, outcome) {
                    Completion::Ready(data) => files.push(serialize("./md", &data)?),
                    Completion::Failed(error) => return Err(error),
                    Completion::Ignored => {}
                }
            }
            Action::Finish => return Ok(files),
        }
    }
}

fn no_comments(_url: &str) -> (u16, Vec<Comment>) {
    (200, Vec::new())
}

fn fails_for_issue_three(url: &str) -> (u16, Vec<Comment>) {
    if url.ends_with("/issues/3/comments") {
        (404, Vec::new())
    } else {
        (200, Vec::new())
    }
}

#[test]
fn export_of_one_issue_without_comments() {
    let query = Query::from_str("octocat/Hello-World#1").unwrap();
    assert_eq!(
        first_request(&query, State::Open),
        Request::Issue("https://api.github.com/repos/octocat/Hello-World/issues/1".to_string())
    );
    let files = export(vec![issue(1, "Found a bug")], no_comments).unwrap();
    assert_eq!(files.len(), 1);
    assert_eq!(files[0].filename, "./md/001-found-a-bug.md");
    assert!(files[0]
        .contents
        .starts_with("# [Found a bug](https://github.com/octocat/Hello-World/issues/1)\n"));
    assert!(!files[0].contents.contains("> from:"));
    assert!(!files[0].contents.contains("---"));
}

#[test]
fn export_of_all_issues_of_a_repository() {
    let query = Query::from_str("octocat/Hello-World").unwrap();
    assert_eq!(
        first_request(&query, State::All),
        Request::Issues(
            "https://api.github.com/repos/octocat/Hello-World/issues?state=all".to_string()
        )
    );
    let files =
        export(vec![issue(1, "Found a bug"), issue(2, "Improve the docs")], no_comments).unwrap();
    let mut names: Vec<&str> = files.iter().map(|file| file.filename.as_str()).collect();
    names.sort();
    assert_eq!(names, vec!["./md/001-found-a-bug.md", "./md/002-improve-the-docs.md"]);
}

#[test]
fn export_stops_at_the_first_failed_fetch() {
    let issues: Vec<Issue> = (1..=12).map(|n| issue(n, "Some issue")).collect();
    assert_eq!(
        export(issues, fails_for_issue_three),
        Err(ExportError::RequestFailed("not found".to_string()))
    );
}

#[test]
fn export_into_the_same_directory_again_gives_the_same_files() {
    let first = export(vec![issue(1, "Found a bug"), issue(2, "Other")], no_comments).unwrap();
    let second = export(vec![issue(1, "Found a bug"), issue(2, "Other")], no_comments).unwrap();
    assert_eq!(first, second);
}
