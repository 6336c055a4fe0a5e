//! The records that the issue tracker sends, and the data that each of them is rendered from.

use crate::json::{boolean, content, list, null, number, object, put, record, string, Json};
use serde_json::Value;
use vstd::prelude::*;

verus! {

/// A label on an issue.
#[derive(Debug, Clone, PartialEq, Eq)]
pub struct Label {
    pub url: String,
    pub name: String,
    pub color: String,
}

/// A user of the issue tracker: the author of an issue or of a comment, or an assignee.
#[derive(Debug, Clone, PartialEq, Eq)]
pub struct User {
    pub login: String,
    pub id: u64,
    pub avatar_url: String,
    pub gravatar_id: String,
    pub url: String,
    pub html_url: String,
    pub followers_url: String,
    pub following_url: String,
    pub gists_url: String,
    pub starred_url: String,
    pub subscriptions_url: String,
    pub organizations_url: String,
    pub repos_url: String,
    pub events_url: String,
    pub received_events_url: String,
    pub site_admin: bool,
}

/// An issue. `number` counts the issues of one repository and names the issue to its users;
/// `id` is the tracker's own.
#[derive(Debug, Clone, PartialEq, Eq)]
pub struct Issue {
    pub id: u64,
    pub url: String,
    pub labels_url: String,
    pub comments_url: String,
    pub events_url: String,
    pub html_url: String,
    pub number: u64,
    pub state: String,
    pub title: String,
    pub body: String,
    pub user: User,
    pub labels: Vec<Label>,
    pub assignee: Option<User>,
    pub locked: bool,
    pub comments: u64,
    pub closed_at: Option<String>,
    pub created_at: String,
    pub updated_at: String,
}

/// A comment on an issue.
#[derive(Debug, Clone, PartialEq, Eq)]
pub struct Comment {
    pub id: u64,
    pub url: String,
    pub html_url: String,
    pub body: String,
    pub user: User,
    pub created_at: String,
    pub updated_at: String,
}

/// An issue with its comments, in the order in which the tracker sent them: what one file is
/// rendered from.
#[derive(Debug, Clone, PartialEq, Eq)]
pub struct IssueWithComments {
    pub issue: Issue,
    pub comments: Vec<Comment>,
}

impl Label {
    /// The record that a template sees of this label.
    pub open spec fn json(self) -> Json {
        Json::Record(
            Map::empty().insert("url"@, Json::Text(self.url@)).insert(
                "name"@,
                Json::Text(self.name@),
            ).insert("color"@, Json::Text(self.color@)),
        )
    }

    /// The label as data for a template.
    pub fn to_json(&self) -> (value: Value)
        ensures
            content(value) == self.json(),
    {
        let mut fields = object();
        put(&mut fields, "url", string(self.url.as_str()));
        put(&mut fields, "name", string(self.name.as_str()));
        put(&mut fields, "color", string(self.color.as_str()));
        record(fields)
    }
}

impl User {
    /// The record that a template sees of this user.
    pub open spec fn json(self) -> Json {
        Json::Record(
            Map::empty().insert("login"@, Json::Text(self.login@)).insert(
                "id"@,
                Json::Number(self.id as nat),
            ).insert("avatar_url"@, Json::Text(self.avatar_url@)).insert(
                "gravatar_id"@,
                Json::Text(self.gravatar_id@),
            ).insert("url"@, Json::Text(self.url@)).insert(
                "html_url"@,
                Json::Text(self.html_url@),
            ).insert("followers_url"@, Json::Text(self.followers_url@)).insert(
                "following_url"@,
                Json::Text(self.following_url@),
            ).insert("gists_url"@, Json::Text(self.gists_url@)).insert(
                "starred_url"@,
                Json::Text(self.starred_url@),
            ).insert("subscriptions_url"@, Json::Text(self.subscriptions_url@)).insert(
                "organizations_url"@,
                Json::Text(self.organizations_url@),
            ).insert("repos_url"@, Json::Text(self.repos_url@)).insert(
                "events_url"@,
                Json::Text(self.events_url@),
            ).insert("received_events_url"@, Json::Text(self.received_events_url@)).insert(
                "site_admin"@,
                Json::Bool(self.site_admin),
            ),
        )
    }

    /// The user as data for a template.
    pub fn to_json(&self) -> (value: Value)
        ensures
            content(value) == self.json(),
    {
        let mut fields = object();
        put(&mut fields, "login", string(self.login.as_str()));
        put(&mut fields, "id", number(self.id));
        put(&mut fields, "avatar_url", string(self.avatar_url.as_str()));
        put(&mut fields, "gravatar_id", string(self.gravatar_id.as_str()));
        put(&mut fields, "url", string(self.url.as_str()));
        put(&mut fields, "html_url", string(self.html_url.as_str()));
        put(&mut fields, "followers_url", string(self.followers_url.as_str()));
        put(&mut fields, "following_url", string(self.following_url.as_str()));
        put(&mut fields, "gists_url", string(self.gists_url.as_str()));
        put(&mut fields, "starred_url", string(self.starred_url.as_str()));
        put(&mut fields, "subscriptions_url", string(self.subscriptions_url.as_str()));
        put(&mut fields, "organizations_url", string(self.organizations_url.as_str()));
        put(&mut fields, "repos_url", string(self.repos_url.as_str()));
        put(&mut fields, "events_url", string(self.events_url.as_str()));
        put(&mut fields, "received_events_url", string(self.received_events_url.as_str()));
        put(&mut fields, "site_admin", boolean(self.site_admin));
        record(fields)
    }
}

/// What a template sees of a text that may be missing: the text, or nothing.
pub open spec fn optional_text(text: Option<String>) -> Json {
    match text {
        Some(t) => Json::Text(t@),
        None => Json::Null,
    }
}

/// What a template sees of a user who may be missing: the user's record, or nothing.
pub open spec fn optional_user(user: Option<User>) -> Json {
    match user {
        Some(u) => u.json(),
        None => Json::Null,
    }
}

/// What a template sees of the labels of an issue: their records, in order.
pub open spec fn labels_json(labels: Seq<Label>) -> Json {
    Json::List(labels.map_values(|label: Label| label.json()))
}

/// What a template sees of the comments on an issue: their records, in order.
pub open spec fn comments_json(comments: Seq<Comment>) -> Json {
    Json::List(comments.map_values(|comment: Comment| comment.json()))
}

fn labels_to_json(labels: &Vec<Label>) -> (value: Value)
    ensures
        content(value) == labels_json(labels@),
{
    let mut items: Vec<Value> = Vec::new();
    let mut i: usize = 0;
    while i < labels.len()
        invariant
            i <= labels.len(),
            items@.len() == i,
            forall|j: int| 0 <= j < i ==> content(#[trigger] items@[j]) == labels@[j].json(),
        decreases labels.len() - i,
    {
        items.push(labels[i].to_json());
        i = i + 1;
    }
    assert(items@.map_values(|item: Value| content(item)) =~= labels@.map_values(
        |label: Label| label.json(),
    ));
    list(items)
}

fn comments_to_json(comments: &Vec<Comment>) -> (value: Value)
    ensures
        content(value) == comments_json(comments@),
{
    let mut items: Vec<Value> = Vec::new();
    let mut i: usize = 0;
    while i < comments.len()
        invariant
            i <= comments.len(),
            items@.len() == i,
            forall|j: int| 0 <= j < i ==> content(#[trigger] items@[j]) == comments@[j].json(),
        decreases comments.len() - i,
    {
        items.push(comments[i].to_json());
        i = i + 1;
    }
    assert(items@.map_values(|item: Value| content(item)) =~= comments@.map_values(
        |comment: Comment| comment.json(),
    ));
    list(items)
}

impl Issue {
    /// The record that a template sees of this issue.
    pub open spec fn json(self) -> Json {
        Json::Record(
            Map::empty().insert("id"@, Json::Number(self.id as nat)).insert(
                "url"@,
                Json::Text(self.url@),
            ).insert("labels_url"@, Json::Text(self.labels_url@)).insert(
                "comments_url"@,
                Json::Text(self.comments_url@),
            ).insert("events_url"@, Json::Text(self.events_url@)).insert(
                "html_url"@,
                Json::Text(self.html_url@),
            ).insert("number"@, Json::Number(self.number as nat)).insert(
                "state"@,
                Json::Text(self.state@),
            ).insert("title"@, Json::Text(self.title@)).insert(
                "body"@,
                Json::Text(self.body@),
            ).insert("user"@, self.user.json()).insert("labels"@, labels_json(self.labels@)).insert(
                "assignee"@,
                optional_user(self.assignee),
            ).insert("locked"@, Json::Bool(self.locked)).insert(
                "comments"@,
                Json::Number(self.comments as nat),
            ).insert("closed_at"@, optional_text(self.closed_at)).insert(
                "created_at"@,
                Json::Text(self.created_at@),
            ).insert("updated_at"@, Json::Text(self.updated_at@)),
        )
    }

    /// The issue as data for a template.
    pub fn to_json(&self) -> (value: Value)
        ensures
            content(value) == self.json(),
    {
        let assignee = match &self.assignee {
            Some(user) => user.to_json(),
            None => null(),
        };
        let closed_at = match &self.closed_at {
            Some(at) => string(at.as_str()),
            None => null(),
        };
        let mut fields = object();
        put(&mut fields, "id", number(self.id));
        put(&mut fields, "url", string(self.url.as_str()));
        put(&mut fields, "labels_url", string(self.labels_url.as_str()));
        put(&mut fields, "comments_url", string(self.comments_url.as_str()));
        put(&mut fields, "events_url", string(self.events_url.as_str()));
        put(&mut fields, "html_url", string(self.html_url.as_str()));
        put(&mut fields, "number", number(self.number));
        put(&mut fields, "state", string(self.state.as_str()));
        put(&mut fields, "title", string(self.title.as_str()));
        put(&mut fields, "body", string(self.body.as_str()));
        put(&mut fields, "user", self.user.to_json());
        put(&mut fields, "labels", labels_to_json(&self.labels));
        put(&mut fields, "assignee", assignee);
        put(&mut fields, "locked", boolean(self.locked));
        put(&mut fields, "comments", number(self.comments));
        put(&mut fields, "closed_at", closed_at);
        put(&mut fields, "created_at", string(self.created_at.as_str()));
        put(&mut fields, "updated_at", string(self.updated_at.as_str()));
        record(fields)
    }
}

impl Comment {
    /// The record that a template sees of this comment.
    pub open spec fn json(self) -> Json {
        Json::Record(
            Map::empty().insert("id"@, Json::Number(self.id as nat)).insert(
                "url"@,
                Json::Text(self.url@),
            ).insert("html_url"@, Json::Text(self.html_url@)).insert(
                "body"@,
                Json::Text(self.body@),
            ).insert("user"@, self.user.json()).insert(
                "created_at"@,
                Json::Text(self.created_at@),
            ).insert("updated_at"@, Json::Text(self.updated_at@)),
        )
    }

    /// The comment as data for a template.
    pub fn to_json(&self) -> (value: Value)
        ensures
            content(value) == self.json(),
    {
        let mut fields = object();
        put(&mut fields, "id", number(self.id));
        put(&mut fields, "url", string(self.url.as_str()));
        put(&mut fields, "html_url", string(self.html_url.as_str()));
        put(&mut fields, "body", string(self.body.as_str()));
        put(&mut fields, "user", self.user.to_json());
        put(&mut fields, "created_at", string(self.created_at.as_str()));
        put(&mut fields, "updated_at", string(self.updated_at.as_str()));
        record(fields)
    }
}

impl IssueWithComments {
    /// The data that a template is rendered with: the issue under `issue`, and its comments,
    /// in their order, under `comments`.
    pub open spec fn json(self) -> Json {
        Json::Record(
            Map::empty().insert("issue"@, self.issue.json()).insert(
                "comments"@,
                comments_json(self.comments@),
            ),
        )
    }

    /// The issue and its comments as data for a template.
    pub fn to_json(&self) -> (value: Value)
        ensures
            content(value) == self.json(),
    {
        let mut fields = object();
        put(&mut fields, "issue", self.issue.to_json());
        put(&mut fields, "comments", comments_to_json(&self.comments));
        record(fields)
    }
}

/// What a template is given for an issue with its comments: under `issue` the record of the
/// issue, whole, whatever the comments are; under `comments` one record for each comment, in
/// their order, which for an issue without comments is the empty list.
pub proof fn lemma_data_of_template(data: IssueWithComments)
    ensures
        data.json() matches Json::Record(fields) && fields.contains_key("issue"@)
            && fields.contains_key("comments"@) && fields["issue"@] == data.issue.json()
            && fields["comments"@] == comments_json(data.comments@),
        comments_json(data.comments@) matches Json::List(items) && items.len()
            == data.comments@.len(),
        data.comments@.len() == 0 ==> comments_json(data.comments@) == Json::List(Seq::empty()),
{
    reveal_strlit("issue");
    reveal_strlit("comments");
    assert("issue"@.len() != "comments"@.len());
    assert(data.comments@.map_values(|comment: Comment| comment.json()).len()
        == data.comments@.len());
    if data.comments@.len() == 0 {
        assert(data.comments@.map_values(|comment: Comment| comment.json()) =~= Seq::empty());
    }
}

} // verus!
