//! The sketchify command converts a URL into a "sketchy" version of itself
//! with the help of the service at <https://verylegit.link>.
//!
//! The command has two halves with a request to the service between them.
//! [`sketchify`] reads the URL and says what to send; [`sketchified`] reads
//! what the service sent back. The request itself is made by whoever runs the
//! command.

use crate::command::{CommandError, CommandErrorView, Response, ResponseView};
use crate::text::{push_text, Text};
use vstd::prelude::*;

verus! {

/// Where the form is posted.
pub const ENDPOINT: &'static str = "http://verylegit.link/sketchify";

/// The name of the form's one field, which holds the URL to convert.
pub const FIELD: &'static str = "long_url";

/// What is put before a string that is no URL as it stands.
pub const DEFAULT_SCHEME: &'static str = "http://";

/// The error that `url::Url::parse` gives for a string that is no URL.
#[verifier::external_type_specification]
#[verifier::external_body]
pub struct ExParseError(url::ParseError);

/// What `url::Url::parse` makes of a text: the URL it reads, written out
/// again, or `None` where it reads none.
pub uninterp spec fn parsed_url(s: Text) -> Option<Text>;

/// Parses a string as an absolute URL with `url::Url::parse` and writes the
/// URL out again. The parser is the crate's and is only named here:
/// [`parsed_url`] stands for its answer.
#[verifier::external_body]
fn parse_url(s: &str) -> (parsed: Result<String, url::ParseError>)
    ensures
        match parsed {
            Ok(url) => parsed_url(s@) == Some(url@),
            Err(_) => parsed_url(s@) is None,
        },
{
    url::Url::parse(s).map(String::from)
}

/// The URL that a text stands for: the one the text is read as, or, where
/// it is read as none, the one it is read as behind [`DEFAULT_SCHEME`].
pub open spec fn resolved_url(raw: Text) -> Option<Text> {
    match parsed_url(raw) {
        Some(url) => Some(url),
        None => parsed_url(DEFAULT_SCHEME@ + raw),
    }
}

/// The URL that a string stands for, by [`resolved_url`].
pub fn resolve_url(raw: &str) -> (resolved: Option<String>)
    ensures
        match resolved {
            Some(url) => resolved_url(raw@) == Some(url@),
            None => resolved_url(raw@) is None,
        },
{
    match parse_url(raw) {
        Ok(url) => Some(url),
        Err(_) => {
            let mut prefixed = DEFAULT_SCHEME.to_string();
            push_text(&mut prefixed, raw);
            match parse_url(prefixed.as_str()) {
                Ok(url) => Some(url),
                Err(_) => None,
            }
        },
    }
}

/// A form with a single field, to be posted to `url`.
#[derive(Debug, PartialEq, Eq)]
pub struct PostRequest {
    /// Where to post the form.
    pub url: String,
    /// The name of the field.
    pub field: String,
    /// What the field holds.
    pub value: String,
}

/// What a [`PostRequest`] holds, with each string as its characters.
pub struct PostRequestView {
    pub url: Text,
    pub field: Text,
    pub value: Text,
}

impl View for PostRequest {
    type V = PostRequestView;

    open spec fn view(&self) -> PostRequestView {
        PostRequestView { url: self.url@, field: self.field@, value: self.value@ }
    }
}

/// The request that asks the service to convert `url`.
pub open spec fn request_view(url: Text) -> PostRequestView {
    PostRequestView { url: ENDPOINT@, field: FIELD@, value: url }
}

/// The request to make for what the input resolved to: the form for its
/// URL, or [`CommandError::InvalidUrl`] where it resolved to none.
pub fn request_for(resolved: Option<String>) -> (result: Result<PostRequest, CommandError>)
    ensures
        match result {
            Ok(request) => resolved matches Some(url) && request@ == request_view(url@),
            Err(error) => resolved is None && error@ == CommandErrorView::InvalidUrl,
        },
{
    match resolved {
        Some(url) => Ok(
            PostRequest { url: ENDPOINT.to_string(), field: FIELD.to_string(), value: url },
        ),
        None => Err(CommandError::InvalidUrl),
    }
}

/// The response for what the service's reply resolved to: the converted
/// URL, or [`CommandError::InvalidUrl`] where it resolved to none.
pub fn response_for(resolved: Option<String>) -> (result: Result<Response, CommandError>)
    ensures
        match result {
            Ok(response) => resolved matches Some(url) && response@ == (ResponseView::Sketchify {
                url: url@,
            }),
            Err(error) => resolved is None && error@ == CommandErrorView::InvalidUrl,
        },
{
    match resolved {
        Some(url) => Ok(Response::Sketchify { url }),
        None => Err(CommandError::InvalidUrl),
    }
}

/// What the first half of the command gives for an input.
pub open spec fn sketchify_outcome(url_raw: Text) -> Result<PostRequestView, CommandErrorView> {
    match resolved_url(url_raw) {
        Some(url) => Ok(request_view(url)),
        None => Err(CommandErrorView::InvalidUrl),
    }
}

/// What the second half of the command gives for the service's reply.
pub open spec fn sketchified_outcome(body: Text) -> Result<ResponseView, CommandErrorView> {
    match resolved_url(body) {
        Some(url) => Ok(ResponseView::Sketchify { url }),
        None => Err(CommandErrorView::InvalidUrl),
    }
}

/// The first half of the sketchify command: the request that asks the
/// service to convert the URL that the input stands for.
pub fn sketchify(url_raw: String) -> (result: Result<PostRequest, CommandError>)
    ensures
        match result {
            Ok(request) => sketchify_outcome(url_raw@) == Ok::<_, CommandErrorView>(request@),
            Err(error) => sketchify_outcome(url_raw@) == Err::<PostRequestView, _>(error@),
        },
{
    request_for(resolve_url(url_raw.as_str()))
}

/// The second half of the sketchify command: the response that holds the
/// URL which the body of the service's reply stands for.
pub fn sketchified(body: String) -> (result: Result<Response, CommandError>)
    ensures
        match result {
            Ok(response) => sketchified_outcome(body@) == Ok::<_, CommandErrorView>(response@),
            Err(error) => sketchified_outcome(body@) == Err::<ResponseView, _>(error@),
        },
{
    response_for(resolve_url(body.as_str()))
}

} // verus!
