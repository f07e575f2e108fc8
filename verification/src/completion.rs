//! One exchange with the completion service: what is sent, and what the
//! answer means.
//!
//! The exchange itself is the caller's to make. [`build_request`] says what
//! goes out; [`interpret_response`] reads what came back, and finds the
//! critique at `content[0].text` of the JSON body. [`transport_failure`]
//! stands for an exchange that brought no answer.

use crate::change::{is_blank, trimmed};
use crate::json::{has_member, json_parse, json_tree, member, member_of, parse, JsonTree};
use crate::window::{message_views, Message, MessageView};
use vstd::prelude::*;

verus! {

/// Where requests are sent unless the caller names another place.
pub const DEFAULT_ENDPOINT: &'static str = "https://api.anthropic.com/v1/messages";

/// The version of the service's protocol that requests are written in.
pub const PROTOCOL_VERSION: &'static str = "2023-06-01";

/// How many tokens an answer may take unless the caller says otherwise.
pub const DEFAULT_MAX_TOKENS: u32 = 1024;

/// The standing instruction to the model: a terse editor of the article.
pub const SYSTEM_PROMPT: &'static str =
    "You are a robot that lives inside of a simple markdown text editor. The user is unable to directly respond to your messages. The user is currently writing an article. You will be given each consecutive version of the article. The user is currently actively writing and editing the article. Upon reading the article, you should offer VERY BRIEF, but helpful, feedback on the latest version of the article. Only comment on the changed content between the latest version and the previous versions of the article.";

/// The kinds of failure that an observer is told of.
#[derive(Clone, Copy, Debug, PartialEq, Eq, Structural)]
pub enum ErrorKind {
    /// The text could not be read.
    IoError,
    /// There is no credential, or none that could be sent.
    AuthError,
    /// The exchange with the service brought no answer.
    NetworkError,
    /// The service answered with a status that does not mean success.
    HttpError,
    /// The answer does not hold a critique where one is looked for.
    MalformedResponse,
}

/// What is wrong with an answer that holds no critique.
#[derive(Clone, Copy, Debug, PartialEq, Eq, Structural)]
pub enum Malformation {
    /// The body is not a JSON document.
    NotJson,
    /// The document is no object with an array under `content`.
    NoContent,
    /// The array under `content` is empty.
    EmptyContent,
    /// The first item of `content` is no object with a string under `text`.
    NoText,
}

/// Why an exchange with the completion service gave no critique.
#[derive(Clone, Debug, PartialEq, Eq)]
pub enum CompletionError {
    NetworkError { message: String },
    HttpError { status: u16, message: String },
    MalformedResponse { flaw: Malformation },
    AuthError,
}

/// What a [`CompletionError`] stands for.
pub ghost enum CompletionErrorView {
    NetworkError { message: Seq<char> },
    HttpError { status: u16, message: Seq<char> },
    MalformedResponse { flaw: Malformation },
    AuthError,
}

impl View for CompletionError {
    type V = CompletionErrorView;

    open spec fn view(&self) -> CompletionErrorView {
        match *self {
            CompletionError::NetworkError { message } => CompletionErrorView::NetworkError {
                message: message@,
            },
            CompletionError::HttpError { status, message } => CompletionErrorView::HttpError {
                status,
                message: message@,
            },
            CompletionError::MalformedResponse { flaw } => CompletionErrorView::MalformedResponse {
                flaw,
            },
            CompletionError::AuthError => CompletionErrorView::AuthError,
        }
    }
}

impl CompletionErrorView {
    /// The kind under which this failure is reported.
    pub open spec fn kind(self) -> ErrorKind {
        match self {
            CompletionErrorView::NetworkError { .. } => ErrorKind::NetworkError,
            CompletionErrorView::HttpError { .. } => ErrorKind::HttpError,
            CompletionErrorView::MalformedResponse { .. } => ErrorKind::MalformedResponse,
            CompletionErrorView::AuthError => ErrorKind::AuthError,
        }
    }

    /// The words in which this failure is reported: those of the transport or
    /// of the service where it has any, and fixed ones otherwise.
    pub open spec fn message(self) -> Seq<char> {
        match self {
            CompletionErrorView::NetworkError { message } => message,
            CompletionErrorView::HttpError { message, .. } => message,
            CompletionErrorView::MalformedResponse { flaw } => flaw_text(flaw),
            CompletionErrorView::AuthError => "no usable credential is configured"@,
        }
    }
}

/// The words that describe a malformed answer.
pub open spec fn flaw_text(flaw: Malformation) -> Seq<char> {
    match flaw {
        Malformation::NotJson => "the response body is not JSON"@,
        Malformation::NoContent => "the response has no array under `content`"@,
        Malformation::EmptyContent => "the response's `content` is empty"@,
        Malformation::NoText => "the first content block has no string under `text`"@,
    }
}

impl Malformation {
    /// The words that describe this flaw.
    pub fn describe(&self) -> (text: String)
        ensures
            text@ == flaw_text(*self),
    {
        match self {
            Malformation::NotJson => "the response body is not JSON".to_owned(),
            Malformation::NoContent => "the response has no array under `content`".to_owned(),
            Malformation::EmptyContent => "the response's `content` is empty".to_owned(),
            Malformation::NoText => "the first content block has no string under `text`".to_owned(),
        }
    }
}

impl CompletionError {
    /// The kind under which this failure is reported.
    pub fn kind(&self) -> (kind: ErrorKind)
        ensures
            kind == self@.kind(),
    {
        match self {
            CompletionError::NetworkError { .. } => ErrorKind::NetworkError,
            CompletionError::HttpError { .. } => ErrorKind::HttpError,
            CompletionError::MalformedResponse { .. } => ErrorKind::MalformedResponse,
            CompletionError::AuthError => ErrorKind::AuthError,
        }
    }

    /// The words in which this failure is reported.
    pub fn message(&self) -> (text: String)
        ensures
            text@ == self@.message(),
    {
        match self {
            CompletionError::NetworkError { message } => message.clone(),
            CompletionError::HttpError { message, .. } => message.clone(),
            CompletionError::MalformedResponse { flaw } => flaw.describe(),
            CompletionError::AuthError => "no usable credential is configured".to_owned(),
        }
    }
}

/// The failure of an exchange that brought no answer, described by `message`.
pub fn transport_failure(message: String) -> (failure: CompletionError)
    ensures
        failure@ == (CompletionErrorView::NetworkError { message: message@ }),
{
    CompletionError::NetworkError { message }
}

/// Whether `credential` can be sent: there is one, and it is not blank.
pub open spec fn credential_usable(credential: Option<Seq<char>>) -> bool {
    credential matches Some(key) && trimmed(key).len() > 0
}

/// The characters of a credential, where there is one.
pub open spec fn credential_view(credential: Option<&str>) -> Option<Seq<char>> {
    match credential {
        Some(key) => Some(key@),
        None => None,
    }
}

/// Tells whether `credential` can be sent.
pub fn has_usable_credential(credential: Option<&str>) -> (usable: bool)
    ensures
        usable == credential_usable(credential_view(credential)),
{
    match credential {
        Some(key) => !is_blank(key),
        None => false,
    }
}

/// One request to the completion service.
#[derive(Clone, Debug, PartialEq, Eq)]
pub struct CompletionRequest {
    /// The credential, for the header that authenticates the request.
    pub credential: String,
    pub model: String,
    pub max_tokens: u32,
    pub system: String,
    /// The conversation so far, oldest message first.
    pub messages: Vec<Message>,
}

/// What a [`CompletionRequest`] stands for.
pub ghost struct CompletionRequestView {
    pub credential: Seq<char>,
    pub model: Seq<char>,
    pub max_tokens: u32,
    pub system: Seq<char>,
    pub messages: Seq<MessageView>,
}

impl View for CompletionRequest {
    type V = CompletionRequestView;

    open spec fn view(&self) -> CompletionRequestView {
        CompletionRequestView {
            credential: self.credential@,
            model: self.model@,
            max_tokens: self.max_tokens,
            system: self.system@,
            messages: message_views(self.messages@),
        }
    }
}

/// Puts a request together. Without a usable credential there is none, and
/// the failure is an `AuthError`; with one, the request carries exactly what
/// was given, the messages in their order.
pub fn build_request(
    credential: Option<&str>,
    messages: Vec<Message>,
    system_prompt: &str,
    model: &str,
    max_tokens: u32,
) -> (built: Result<CompletionRequest, CompletionError>)
    ensures
        built is Ok <==> credential_usable(credential_view(credential)),
        built matches Err(failure) ==> failure@ == CompletionErrorView::AuthError,
        built matches Ok(request) ==> request@ == (CompletionRequestView {
            credential: credential.unwrap()@,
            model: model@,
            max_tokens,
            system: system_prompt@,
            messages: message_views(messages@),
        }),
{
    match credential {
        Some(key) => {
            if is_blank(key) {
                Err(CompletionError::AuthError)
            } else {
                Ok(
                    CompletionRequest {
                        credential: key.to_owned(),
                        model: model.to_owned(),
                        max_tokens,
                        system: system_prompt.to_owned(),
                        messages,
                    },
                )
            }
        },
        None => Err(CompletionError::AuthError),
    }
}

/// Whether `status` means success: whether it is one of the 2xx codes.
pub open spec fn is_success(status: u16) -> bool {
    200 <= status < 300
}

/// The critique in `document`: the string under `text` of the first item of
/// the array under `content`. Anything else in the document is ignored.
pub open spec fn feedback_in(document: JsonTree) -> Result<Seq<char>, Malformation> {
    if !has_member(document, "content"@) || !(member_of(document, "content"@) is Array) {
        Err(Malformation::NoContent)
    } else {
        let blocks = member_of(document, "content"@)->Array_0;
        if blocks.len() == 0 {
            Err(Malformation::EmptyContent)
        } else if !has_member(blocks[0], "text"@) || !(member_of(blocks[0], "text"@) is Text) {
            Err(Malformation::NoText)
        } else {
            Ok(member_of(blocks[0], "text"@)->Text_0)
        }
    }
}

/// What an answer means, given its status, its body, and the document that
/// the body was read as (`None` where it is no JSON document).
pub open spec fn response_meaning(status: u16, body: Seq<char>, parsed: Option<JsonTree>) -> Result<
    Seq<char>,
    CompletionErrorView,
> {
    if !is_success(status) {
        Err(CompletionErrorView::HttpError { status, message: body })
    } else {
        match parsed {
            None => Err(CompletionErrorView::MalformedResponse { flaw: Malformation::NotJson }),
            Some(document) => match feedback_in(document) {
                Ok(text) => Ok(text),
                Err(flaw) => Err(CompletionErrorView::MalformedResponse { flaw }),
            },
        }
    }
}

/// What the outcome of an exchange stands for.
pub open spec fn outcome_view(outcome: Result<String, CompletionError>) -> Result<
    Seq<char>,
    CompletionErrorView,
> {
    match outcome {
        Ok(text) => Ok(text@),
        Err(failure) => Err(failure@),
    }
}

/// What the search for a critique in a document stands for.
pub open spec fn extraction_view(found: Result<String, Malformation>) -> Result<
    Seq<char>,
    Malformation,
> {
    match found {
        Ok(text) => Ok(text@),
        Err(flaw) => Err(flaw),
    }
}

/// Finds the critique in a document that the service sent: the string at
/// `content[0].text`. Where the document has none there, says which step of
/// that path is missing.
pub fn extract_feedback(document: &serde_json::Value) -> (found: Result<String, Malformation>)
    ensures
        extraction_view(found) == feedback_in(json_tree(*document)),
{
    let content = match member(document, "content") {
        Some(content) => content,
        None => {
            return Err(Malformation::NoContent);
        },
    };
    let blocks = match content.as_array() {
        Some(blocks) => blocks,
        None => {
            return Err(Malformation::NoContent);
        },
    };
    if blocks.len() == 0 {
        return Err(Malformation::EmptyContent);
    }
    let first = &blocks[0];
    assert(json_tree(*first) == member_of(json_tree(*document), "content"@)->Array_0[0]) by {
        let trees = blocks@.map_values(|item: serde_json::Value| json_tree(item));
        assert(trees[0] == json_tree(blocks@[0]));
    }
    let text = match member(first, "text") {
        Some(text) => text,
        None => {
            return Err(Malformation::NoText);
        },
    };
    match text.as_str() {
        Some(text) => Ok(text.to_owned()),
        None => Err(Malformation::NoText),
    }
}

/// Reads an answer of the service. A status other than 2xx is an `HttpError`
/// that carries the body; a body that is no JSON document, or one without a
/// string at `content[0].text`, is a `MalformedResponse`; otherwise the
/// result is that string.
pub fn interpret_response(status: u16, body: &str) -> (outcome: Result<String, CompletionError>)
    ensures
        outcome_view(outcome) == response_meaning(status, body@, json_parse(body@)),
{
    if status < 200 || status >= 300 {
        return Err(CompletionError::HttpError { status, message: body.to_owned() });
    }
    match parse(body) {
        Err(_) => Err(CompletionError::MalformedResponse { flaw: Malformation::NotJson }),
        Ok(document) => match extract_feedback(&document) {
            Ok(text) => Ok(text),
            Err(flaw) => Err(CompletionError::MalformedResponse { flaw }),
        },
    }
}

} // verus!
