//! What is written to disk for an issue, and what the outcome of the writing means.

use crate::error::{ErrorView, ExportError};
use crate::filename::{file_path, is_slug, issue_to_filename, slug_of};
use crate::model::IssueWithComments;
use crate::template::{render, render_result, TEMPLATE};
use vstd::prelude::*;
use vstd::string::*;

verus! {

/// A file to write: where, and what.
#[derive(Debug, Clone, PartialEq, Eq)]
pub struct Document {
    pub filename: String,
    pub contents: String,
}

/// The file for an issue and its comments, under the directory `path`: the markdown that the
/// template renders, at the path that the number and the title of the issue give. Where the
/// template fails there is no file, and the error is that of the template.
pub fn serialize(path: &str, data: &IssueWithComments) -> (result: Result<Document, ExportError>)
    ensures
        match render_result(TEMPLATE@, data.json()) {
            Ok(text) => result matches Ok(document) && document.contents@ == text
                && document.filename@ == file_path(
                path@,
                data.issue.number,
                slug_of(data.issue.title@),
            ),
            Err(error) => result matches Err(e) && e@ == error,
        },
        is_slug(slug_of(data.issue.title@)),
{
    let filename = issue_to_filename(path, &data.issue);
    match render(data) {
        Ok(contents) => Ok(Document { filename, contents }),
        Err(error) => Err(error),
    }
}

/// The line that tells the user which file is being written.
pub open spec fn progress_text(filename: Seq<char>) -> Seq<char> {
    "Writing name "@ + filename
}

/// The line that tells the user which file is being written.
pub fn progress_line(filename: &str) -> (line: String)
    ensures
        line@ == progress_text(filename@),
{
    let mut line = "Writing name ".to_owned();
    line.append(filename);
    line
}

/// What writing the file at `filename` has come to: nothing where it went well, else the cause
/// of the failure as text.
pub fn written(filename: &str, outcome: Result<(), String>) -> (result: Result<(), ExportError>)
    ensures
        match outcome {
            Ok(_) => result is Ok,
            Err(cause) => result matches Err(e) && e@ == (ErrorView::WriteFailed {
                path: filename@,
                cause: cause@,
            }),
        },
{
    match outcome {
        Ok(_) => Ok(()),
        Err(cause) => Err(ExportError::WriteFailed { path: filename.to_owned(), cause }),
    }
}

/// What an attempt to create a directory has come to.
#[derive(Debug, Clone, PartialEq, Eq)]
pub enum Creation {
    /// The directory was created.
    Created,
    /// Nothing was created, because the directory was there already.
    AlreadyExists,
    /// Nothing was created, for the cause that is given as text.
    Failed(String),
}

/// Whether the output directory at `path` is there after an attempt to create it. It is where
/// it was created now and where it was there before; any other outcome is an error of the
/// directory, with the cause of the failure.
pub fn mkdir(path: &str, creation: Creation) -> (result: Result<(), ExportError>)
    ensures
        match creation {
            Creation::Created => result is Ok,
            Creation::AlreadyExists => result is Ok,
            Creation::Failed(cause) => result matches Err(e) && e@ == (ErrorView::DirectoryError {
                path: path@,
                cause: cause@,
            }),
        },
{
    match creation {
        Creation::Created => Ok(()),
        Creation::AlreadyExists => Ok(()),
        Creation::Failed(cause) => Err(
            ExportError::DirectoryError { path: path.to_owned(), cause },
        ),
    }
}

} // verus!
