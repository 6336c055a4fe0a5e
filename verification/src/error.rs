//! The ways in which an export can fail.

use vstd::prelude::*;
use vstd::string::*;

verus! {

/// Why an export stopped. Every error is fatal: nothing is retried.
#[derive(Debug, Clone, PartialEq, Eq)]
pub enum ExportError {
    /// The query or the state on the command line is malformed; holds the message.
    ArgumentError(String),
    /// The API token is missing or cannot stand in a header; holds the message.
    AuthError(String),
    /// The server answered with a status other than success; holds the body of its answer as
    /// text.
    RequestFailed(String),
    /// The body of a successful answer is not the JSON that was asked for; holds the cause.
    MalformedResponse(String),
    /// The output directory could not be made.
    DirectoryError { path: String, cause: String },
    /// A file could not be written.
    WriteFailed { path: String, cause: String },
    /// The template could not be compiled or rendered; holds the cause.
    TemplateError(String),
}

/// An error with its texts as sequences of characters.
pub enum ErrorView {
    ArgumentError(Seq<char>),
    AuthError(Seq<char>),
    RequestFailed(Seq<char>),
    MalformedResponse(Seq<char>),
    DirectoryError { path: Seq<char>, cause: Seq<char> },
    WriteFailed { path: Seq<char>, cause: Seq<char> },
    TemplateError(Seq<char>),
}

impl View for ExportError {
    type V = ErrorView;

    open spec fn view(&self) -> ErrorView {
        match *self {
            ExportError::ArgumentError(m) => ErrorView::ArgumentError(m@),
            ExportError::AuthError(m) => ErrorView::AuthError(m@),
            ExportError::RequestFailed(body) => ErrorView::RequestFailed(body@),
            ExportError::MalformedResponse(cause) => ErrorView::MalformedResponse(cause@),
            ExportError::DirectoryError { path, cause } => ErrorView::DirectoryError {
                path: path@,
                cause: cause@,
            },
            ExportError::WriteFailed { path, cause } => ErrorView::WriteFailed {
                path: path@,
                cause: cause@,
            },
            ExportError::TemplateError(cause) => ErrorView::TemplateError(cause@),
        }
    }
}

impl ErrorView {
    /// The line that names the failure.
    pub open spec fn message(self) -> Seq<char> {
        match self {
            ErrorView::ArgumentError(m) => m,
            ErrorView::AuthError(m) => m,
            ErrorView::RequestFailed(body) => "request failed: "@ + body,
            ErrorView::MalformedResponse(_) => "malformed response"@,
            ErrorView::DirectoryError { path, .. } => "cannot create directory "@ + path,
            ErrorView::WriteFailed { path, .. } => "cannot write "@ + path,
            ErrorView::TemplateError(_) => "cannot render the template"@,
        }
    }

    /// What lay under the failure, where something did.
    pub open spec fn cause(self) -> Option<Seq<char>> {
        match self {
            ErrorView::ArgumentError(_) => None,
            ErrorView::AuthError(_) => None,
            ErrorView::RequestFailed(_) => None,
            ErrorView::MalformedResponse(cause) => Some(cause),
            ErrorView::DirectoryError { cause, .. } => Some(cause),
            ErrorView::WriteFailed { cause, .. } => Some(cause),
            ErrorView::TemplateError(cause) => Some(cause),
        }
    }
}

impl ExportError {
    /// The line that names the failure, as it is shown to the user.
    pub fn message(&self) -> (text: String)
        ensures
            text@ == self@.message(),
    {
        match self {
            ExportError::ArgumentError(m) => m.clone(),
            ExportError::AuthError(m) => m.clone(),
            ExportError::RequestFailed(body) => {
                let mut text = "request failed: ".to_owned();
                text.append(body.as_str());
                text
            },
            ExportError::MalformedResponse(_) => "malformed response".to_owned(),
            ExportError::DirectoryError { path, .. } => {
                let mut text = "cannot create directory ".to_owned();
                text.append(path.as_str());
                text
            },
            ExportError::WriteFailed { path, .. } => {
                let mut text = "cannot write ".to_owned();
                text.append(path.as_str());
                text
            },
            ExportError::TemplateError(_) => "cannot render the template".to_owned(),
        }
    }

    /// What lay under the failure, to be shown after the message.
    pub fn cause(&self) -> (text: Option<String>)
        ensures
            text is Some == self@.cause() is Some,
            text matches Some(t) ==> self@.cause() == Some(t@),
    {
        match self {
            ExportError::ArgumentError(_) => None,
            ExportError::AuthError(_) => None,
            ExportError::RequestFailed(_) => None,
            ExportError::MalformedResponse(cause) => Some(cause.clone()),
            ExportError::DirectoryError { cause, .. } => Some(cause.clone()),
            ExportError::WriteFailed { cause, .. } => Some(cause.clone()),
            ExportError::TemplateError(cause) => Some(cause.clone()),
        }
    }
}

} // verus!
