//! What the client of the issue tracker asks for, and what it makes of an answer.

use crate::error::{ErrorView, ExportError};
use crate::query::{Query, QueryView, State};
use crate::text::{decimal, push_decimal};
use headers::Authorization;
use vstd::prelude::*;
use vstd::string::*;
use vstd::utf8::{decode_utf8, valid_utf8};

verus! {

/// Where the API of the issue tracker is.
pub const API_ENDPOINT: &'static str = "https://api.github.com";

/// The address of one issue of a repository.
pub open spec fn issue_endpoint(owner: Seq<char>, repo: Seq<char>, number: u64) -> Seq<char> {
    API_ENDPOINT@ + "/repos/"@ + owner + "/"@ + repo + "/issues/"@ + decimal(number as nat)
}

/// The address of the list of the issues of a repository that are in a state.
pub open spec fn issues_endpoint(owner: Seq<char>, repo: Seq<char>, state: State) -> Seq<char> {
    API_ENDPOINT@ + "/repos/"@ + owner + "/"@ + repo + "/issues?state="@ + state.text()
}

/// The address of the issue that `query` names.
pub fn issue_url(query: &Query) -> (url: String)
    requires
        query@.issue_number is Some,
    ensures
        url@ == issue_endpoint(query@.owner, query@.repo, query@.issue_number->Some_0),
{
    let number = query.issue_number().unwrap();
    let mut url = API_ENDPOINT.to_owned();
    url.append("/repos/");
    url.append(query.owner());
    url.append("/");
    url.append(query.repo());
    url.append("/issues/");
    push_decimal(&mut url, number);
    url
}

/// The address of the list of the issues of the repository of `query` that are in `state`.
pub fn issues_url(query: &Query, state: State) -> (url: String)
    ensures
        url@ == issues_endpoint(query@.owner, query@.repo, state),
{
    let mut url = API_ENDPOINT.to_owned();
    url.append("/repos/");
    url.append(query.owner());
    url.append("/");
    url.append(query.repo());
    url.append("/issues?state=");
    url.append(state.as_str());
    url
}

/// The first request of an export: for one issue, or for a list of issues.
#[derive(Debug, Clone, PartialEq, Eq)]
pub enum Request {
    /// Ask this address for one issue.
    Issue(String),
    /// Ask this address for a list of issues.
    Issues(String),
}

/// A request with its address as a sequence of characters.
pub enum RequestView {
    Issue(Seq<char>),
    Issues(Seq<char>),
}

impl View for Request {
    type V = RequestView;

    open spec fn view(&self) -> RequestView {
        match *self {
            Request::Issue(url) => RequestView::Issue(url@),
            Request::Issues(url) => RequestView::Issues(url@),
        }
    }
}

/// What an export asks first. A query with an issue number asks for that issue alone, and the
/// state plays no part; any other asks for the issues of the repository that are in `state`.
pub open spec fn first_request_of(query: QueryView, state: State) -> RequestView {
    match query.issue_number {
        Some(number) => RequestView::Issue(issue_endpoint(query.owner, query.repo, number)),
        None => RequestView::Issues(issues_endpoint(query.owner, query.repo, state)),
    }
}

/// The request that resolves `query` to its issues.
pub fn first_request(query: &Query, state: State) -> (request: Request)
    ensures
        request@ == first_request_of(query@, state),
{
    match query.issue_number() {
        Some(_) => Request::Issue(issue_url(query)),
        None => Request::Issues(issues_url(query, state)),
    }
}

/// Whether a status code tells of success: the codes from 200 to 299.
pub open spec fn is_success(status: u16) -> bool {
    200 <= status < 300
}

/// What `String::from_utf8_lossy` makes of bytes: their text, with replacement characters
/// where the bytes are no UTF-8.
pub uninterp spec fn lossy_text(bytes: Seq<u8>) -> Seq<char>;

/// `String::from_utf8_lossy`: the text of `bytes`. It depends on the bytes alone, and bytes that
/// are UTF-8 are decoded as they stand.
#[verifier::external_body]
fn from_utf8_lossy(bytes: &[u8]) -> (text: String)
    ensures
        text@ == lossy_text(bytes@),
        valid_utf8(bytes@) ==> text@ == decode_utf8(bytes@),
{
    String::from_utf8_lossy(bytes).into_owned()
}

/// What the answer to a request means. With a status of success the body is what was asked
/// for, still to be decoded. With any other status the request has failed, and the error
/// holds the body as text, as the server sent it.
pub open spec fn response_of(status: u16, body: Seq<u8>) -> Result<Seq<u8>, ErrorView> {
    if is_success(status) {
        Ok(body)
    } else {
        Err(ErrorView::RequestFailed(lossy_text(body)))
    }
}

/// Judges an answer by its status, and hands on the body of a successful one.
pub fn response_body(status: u16, body: Vec<u8>) -> (result: Result<Vec<u8>, ExportError>)
    ensures
        match response_of(status, body@) {
            Ok(bytes) => result == Ok::<Vec<u8>, ExportError>(body),
            Err(error) => result matches Err(e) && e@ == error,
        },
        !is_success(status) && valid_utf8(body@) ==> (result matches Err(e) && e@
            == ErrorView::RequestFailed(decode_utf8(body@))),
{
    if 200 <= status && status < 300 {
        Ok(body)
    } else {
        Err(ExportError::RequestFailed(from_utf8_lossy(body.as_slice())))
    }
}

/// What decoding the body of a successful answer has come to: the record that was asked for,
/// or a malformed response with the cause that the decoder gave.
pub fn decoded<T>(outcome: Result<T, String>) -> (result: Result<T, ExportError>)
    ensures
        match outcome {
            Ok(record) => result == Ok::<T, ExportError>(record),
            Err(cause) => result matches Err(e) && e@ == ErrorView::MalformedResponse(cause@),
        },
{
    match outcome {
        Ok(record) => Ok(record),
        Err(cause) => Err(ExportError::MalformedResponse(cause)),
    }
}

/// Whether `c` may stand in the value of a header: a tab, or any character but the other
/// control characters of ASCII.
pub open spec fn is_header_char(c: char) -> bool {
    c == '\t' || (c as u32 >= 32 && c as u32 != 127)
}

/// Whether a token can be sent in a header.
pub open spec fn is_header_text(token: Seq<char>) -> bool {
    forall|i: int| 0 <= i < token.len() ==> is_header_char(#[trigger] token[i])
}

/// `Authorization::bearer`: whether it makes an authorization header for the token. It does
/// exactly where every character of the token can be sent in a header.
#[verifier::external_body]
fn accepts_bearer(token: &str) -> (accepted: bool)
    ensures
        accepted == is_header_text(token@),
{
    Authorization::bearer(token).is_ok()
}

/// A token that can be sent as a bearer authorization.
#[derive(Debug, PartialEq, Eq)]
pub struct Token {
    text: String,
}

impl View for Token {
    type V = Seq<char>;

    closed spec fn view(&self) -> Seq<char> {
        self.text@
    }
}

impl Token {
    #[verifier::type_invariant]
    spec fn well_formed(self) -> bool {
        is_header_text(self@)
    }

    /// The token as text.
    pub fn as_str(&self) -> (text: &str)
        ensures
            text@ == self@,
            is_header_text(text@),
    {
        proof {
            use_type_invariant(self);
        }
        self.text.as_str()
    }
}

/// The error for a token that is not there.
pub open spec fn missing_token() -> ErrorView {
    ErrorView::AuthError("missing obligatory environment variable GITHUB_TOKEN"@)
}

/// The error for a token that cannot be sent in a header.
pub open spec fn invalid_token() -> ErrorView {
    ErrorView::AuthError("invalid bearer token"@)
}

/// What the token that was found, if one was, means for an export.
pub open spec fn authorization_of(token: Option<Seq<char>>) -> Result<Seq<char>, ErrorView> {
    match token {
        None => Err(missing_token()),
        Some(t) => if is_header_text(t) {
            Ok(t)
        } else {
            Err(invalid_token())
        },
    }
}

/// The token for the requests of an export, from the one that was found, if one was.
pub fn authorize(token: Option<String>) -> (result: Result<Token, ExportError>)
    ensures
        match authorization_of(
            match token {
                Some(t) => Some(t@),
                None => None,
            },
        ) {
            Ok(text) => result matches Ok(t) && t@ == text,
            Err(error) => result matches Err(e) && e@ == error,
        },
{
    match token {
        None => Err(
            ExportError::AuthError(
                "missing obligatory environment variable GITHUB_TOKEN".to_owned(),
            ),
        ),
        Some(text) => if accepts_bearer(text.as_str()) {
            Ok(Token { text })
        } else {
            Err(ExportError::AuthError("invalid bearer token".to_owned()))
        },
    }
}

} // verus!
