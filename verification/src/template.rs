//! The markdown template of an issue, and rendering with it.

use crate::error::{ErrorView, ExportError};
use crate::json::{content, Json};
use crate::model::IssueWithComments;
use handlebars::Handlebars;
use serde_json::Value;
use vstd::prelude::*;

verus! {

/// The template of one file: the title as a link, a line on state, author and date, the body of
/// the issue as it stands, and under `### Comments` one block for each comment, each after a
/// rule.
pub const TEMPLATE: &'static str = r#"# [{{issue.title}}]({{issue.html_url}})

> state: **{{issue.state}}** opened by: **{{issue.user.login}}** on: **{{issue.created_at}}**

{{{issue.body}}}

### Comments
{{#each comments}}
---
> from: [**{{user.login}}**]({{html_url}}) on: **{{created_at}}**

{{{body}}}
{{~/each}}
"#;

/// What the template engine makes of a template and its data: the text, or the message of its
/// error where the template does not compile or cannot be rendered.
pub uninterp spec fn rendering(template: Seq<char>, data: Json) -> Result<Seq<char>, Seq<char>>;

/// `Handlebars::render_template` on a registry as `Handlebars::new` makes it: compiles
/// `template` and renders it with `data`. The outcome depends on the template and on what the
/// data holds, and on nothing else; an error is handed on as its message.
#[verifier::external_body]
fn render_template(template: &str, data: &Value) -> (outcome: Result<String, String>)
    ensures
        match rendering(template@, content(*data)) {
            Ok(text) => outcome matches Ok(t) && t@ == text,
            Err(message) => outcome matches Err(m) && m@ == message,
        },
{
    match Handlebars::new().render_template(template, data) {
        Ok(text) => Ok(text),
        Err(error) => Err(error.to_string()),
    }
}

/// What an outcome of the template engine means for the export: its text, or a template error
/// with the engine's message as the cause.
pub fn rendered(outcome: Result<String, String>) -> (result: Result<String, ExportError>)
    ensures
        match outcome {
            Ok(text) => result matches Ok(t) && t@ == text@,
            Err(message) => result matches Err(e) && e@ == ErrorView::TemplateError(message@),
        },
{
    match outcome {
        Ok(text) => Ok(text),
        Err(message) => Err(ExportError::TemplateError(message)),
    }
}

/// What rendering `data` with `template` gives: the text, or the template error.
pub open spec fn render_result(template: Seq<char>, data: Json) -> Result<Seq<char>, ErrorView> {
    match rendering(template, data) {
        Ok(text) => Ok(text),
        Err(message) => Err(ErrorView::TemplateError(message)),
    }
}

/// Renders an issue and its comments with a template of the caller's.
pub fn render_with(template: &str, data: &IssueWithComments) -> (result: Result<
    String,
    ExportError,
>)
    ensures
        match render_result(template@, data.json()) {
            Ok(text) => result matches Ok(t) && t@ == text,
            Err(error) => result matches Err(e) && e@ == error,
        },
{
    let value = data.to_json();
    rendered(render_template(template, &value))
}

/// Renders an issue and its comments as markdown, with `TEMPLATE`.
pub fn render(data: &IssueWithComments) -> (result: Result<String, ExportError>)
    ensures
        match render_result(TEMPLATE@, data.json()) {
            Ok(text) => result matches Ok(t) && t@ == text,
            Err(error) => result matches Err(e) && e@ == error,
        },
{
    render_with(TEMPLATE, data)
}

} // verus!
