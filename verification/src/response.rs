//! What an invocation hands back to its invoker, and what it logs.

use crate::json::{json_quoted, quote};
use crate::router::{Completion, CompletionView, Service};
use vstd::prelude::*;
use vstd::string::StringExecFns;

verus! {

/// The answer of one invocation.
#[derive(Clone, Debug, PartialEq, Eq)]
pub struct Response {
    /// The identifier of the request that is answered.
    pub req_id: String,
    /// The HTTP status code.
    pub status: u16,
    /// What happened, in words.
    pub msg: String,
}

/// The mathematical content of a [`Response`].
pub struct ResponseView {
    pub req_id: Seq<char>,
    pub status: u16,
    pub msg: Seq<char>,
}

impl View for Response {
    type V = ResponseView;

    open spec fn view(&self) -> ResponseView {
        ResponseView { req_id: self.req_id@, status: self.status, msg: self.msg@ }
    }
}

/// The name of a service in messages.
pub open spec fn service_name(service: Service) -> Seq<char> {
    match service {
        Service::FileLookup => "file lookup"@,
        Service::Download => "file download"@,
        Service::Transcription => "transcription"@,
        Service::Messaging => "message send"@,
        Service::Shortener => "link shortening"@,
    }
}

/// The status code that reports a completion: 200 where the invocation did
/// its work or had none to do, 429 where the shortening service's rate limit
/// was met, the service's own status where a service failed, and 502 where a
/// service's reply could not be read.
pub open spec fn status_of(completion: CompletionView) -> u16 {
    match completion {
        CompletionView::Ignored(_) => 200,
        CompletionView::Shortened(_) => 200,
        CompletionView::Transcribed(_) => 200,
        CompletionView::RateLimited => 429,
        CompletionView::Failed(_, status) => status,
        CompletionView::Malformed(_) => 502,
    }
}

/// The message that reports a completion: the reason, the short link's
/// identifier or the transcript where there is one, and otherwise what went
/// wrong and with which service.
pub open spec fn message_of(completion: CompletionView) -> Seq<char> {
    match completion {
        CompletionView::Ignored(reason) => reason,
        CompletionView::Shortened(slug) => slug,
        CompletionView::Transcribed(text) => text,
        CompletionView::RateLimited => "rate limited"@,
        CompletionView::Failed(service, _) => service_name(service) + " failed"@,
        CompletionView::Malformed(service) => service_name(service) + " sent a malformed reply"@,
    }
}

/// The line logged for a received payload.
pub open spec fn received_line(payload: Seq<char>) -> Seq<char> {
    "Received event: "@ + json_quoted(payload)
}

impl Service {
    /// The name of this service in messages.
    pub fn name(self) -> (name: String)
        ensures
            name@ == service_name(self),
    {
        match self {
            Service::FileLookup => "file lookup".to_owned(),
            Service::Download => "file download".to_owned(),
            Service::Transcription => "transcription".to_owned(),
            Service::Messaging => "message send".to_owned(),
            Service::Shortener => "link shortening".to_owned(),
        }
    }
}

impl Completion {
    /// The status code that reports this completion.
    pub fn status(&self) -> (status: u16)
        ensures
            status == status_of(self@),
    {
        match self {
            Completion::Ignored(_) => 200,
            Completion::Shortened(_) => 200,
            Completion::Transcribed(_) => 200,
            Completion::RateLimited => 429,
            Completion::Failed(_, status) => *status,
            Completion::Malformed(_) => 502,
        }
    }

    /// The message that reports this completion.
    pub fn message(&self) -> (msg: String)
        ensures
            msg@ == message_of(self@),
    {
        match self {
            Completion::Ignored(reason) => reason.clone(),
            Completion::Shortened(slug) => slug.clone(),
            Completion::Transcribed(text) => text.clone(),
            Completion::RateLimited => "rate limited".to_owned(),
            Completion::Failed(service, _) => service.name().concat(" failed"),
            Completion::Malformed(service) => service.name().concat(" sent a malformed reply"),
        }
    }
}

/// Builds the answer to the request `req_id` from how the invocation ended.
pub fn respond(req_id: String, completion: &Completion) -> (response: Response)
    ensures
        response@ == (ResponseView {
            req_id: req_id@,
            status: status_of(completion@),
            msg: message_of(completion@),
        }),
{
    Response { req_id, status: completion.status(), msg: completion.message() }
}

/// The line to log for a payload whose JSON string literal is `literal`.
pub fn event_line(literal: &str) -> (line: String)
    ensures
        line@ == "Received event: "@ + literal@,
{
    "Received event: ".to_owned().concat(literal)
}

/// The line to log for a received payload: a fixed prefix and the payload
/// as a JSON string literal.
pub fn received_event_line(payload: &str) -> (line: String)
    ensures
        line@ == received_line(payload@),
{
    match quote(payload) {
        Ok(literal) => event_line(literal.as_str()),
        // every string has a literal
        Err(_) => String::new(),
    }
}

} // verus!
