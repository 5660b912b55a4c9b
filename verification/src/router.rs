//! The router: how an outcome is carried out.
//!
//! The library makes no HTTP call. It says which call comes next
//! ([`Request`]), the host performs it and hands back what the service
//! answered ([`Reply`]), and the library decides what follows, until the
//! invocation is complete ([`Completion`]).

use crate::classify::{Outcome, OutcomeView};
use crate::fields::{child, descend, read_text_or_empty, text_or_empty};
use crate::json::{json_parse, json_view, parse, JsonTree};
use crate::text::from_utf8;
use vstd::prelude::*;
use vstd::utf8::{decode_utf8, valid_utf8};

verus! {

/// The services that the router calls.
#[derive(Clone, Copy, Debug, PartialEq, Eq)]
pub enum Service {
    /// The messaging platform's file resolution.
    FileLookup,
    /// The messaging platform's file download.
    Download,
    /// The transcription service.
    Transcription,
    /// The messaging platform's message send.
    Messaging,
    /// The link-shortening service.
    Shortener,
}

/// A call that the host is to perform.
#[derive(Clone, Debug, PartialEq, Eq)]
pub enum Request {
    /// Ask the messaging platform where the attachment can be downloaded.
    ResolveFile { file_id: String },
    /// Download the file at this server-relative path.
    Download { file_path: String },
    /// Upload the audio to the transcription service.
    Transcribe { audio: Vec<u8>, mime_type: String, model: String, response_format: String },
    /// Send a message to a chat.
    Send { chat_id: Option<i64>, text: String },
    /// Ask the shortening service for a short link.
    Shorten { long_url: String, domain: String },
}

/// The mathematical content of a [`Request`].
pub enum RequestView {
    ResolveFile { file_id: Seq<char> },
    Download { file_path: Seq<char> },
    Transcribe {
        audio: Seq<u8>,
        mime_type: Seq<char>,
        model: Seq<char>,
        response_format: Seq<char>,
    },
    Send { chat_id: Option<i64>, text: Seq<char> },
    Shorten { long_url: Seq<char>, domain: Seq<char> },
}

impl View for Request {
    type V = RequestView;

    open spec fn view(&self) -> RequestView {
        match *self {
            Request::ResolveFile { file_id } => RequestView::ResolveFile { file_id: file_id@ },
            Request::Download { file_path } => RequestView::Download { file_path: file_path@ },
            Request::Transcribe {
                audio,
                mime_type,
                model,
                response_format,
            } => RequestView::Transcribe {
                audio: audio@,
                mime_type: mime_type@,
                model: model@,
                response_format: response_format@,
            },
            Request::Send { chat_id, text } => RequestView::Send { chat_id, text: text@ },
            Request::Shorten { long_url, domain } => RequestView::Shorten {
                long_url: long_url@,
                domain: domain@,
            },
        }
    }
}

/// What a service answered.
#[derive(Clone, Debug, PartialEq, Eq)]
pub struct Reply {
    /// The HTTP status code.
    pub status: u16,
    /// The body, undecoded.
    pub body: Vec<u8>,
}

/// How an invocation ended.
#[derive(Clone, Debug, PartialEq, Eq)]
pub enum Completion {
    /// Nothing was done, for this reason.
    Ignored(String),
    /// The URL was shortened; this is the short link's identifier.
    Shortened(String),
    /// The attachment was transcribed and this text was sent to the chat.
    Transcribed(String),
    /// The shortening service refused the call for its rate limit.
    RateLimited,
    /// A service answered with this status, which is no success.
    Failed(Service, u16),
    /// A service answered with success and a body that cannot be read.
    Malformed(Service),
}

/// The mathematical content of a [`Completion`].
pub enum CompletionView {
    Ignored(Seq<char>),
    Shortened(Seq<char>),
    Transcribed(Seq<char>),
    RateLimited,
    Failed(Service, u16),
    Malformed(Service),
}

impl View for Completion {
    type V = CompletionView;

    open spec fn view(&self) -> CompletionView {
        match *self {
            Completion::Ignored(reason) => CompletionView::Ignored(reason@),
            Completion::Shortened(slug) => CompletionView::Shortened(slug@),
            Completion::Transcribed(text) => CompletionView::Transcribed(text@),
            Completion::RateLimited => CompletionView::RateLimited,
            Completion::Failed(service, status) => CompletionView::Failed(service, status),
            Completion::Malformed(service) => CompletionView::Malformed(service),
        }
    }
}

/// What the router waits for while a call is under way.
#[derive(Clone, Debug, PartialEq, Eq)]
pub enum Job {
    /// For the attachment's download path; the text will go to this chat.
    ResolvingFile { chat_id: Option<i64> },
    /// For the attachment's bytes.
    Downloading { chat_id: Option<i64> },
    /// For the transcript.
    Transcribing { chat_id: Option<i64> },
    /// For the messaging platform to accept this transcript.
    Sending { transcript: String },
    /// For the short link.
    Shortening,
}

/// The mathematical content of a [`Job`].
pub enum JobView {
    ResolvingFile { chat_id: Option<i64> },
    Downloading { chat_id: Option<i64> },
    Transcribing { chat_id: Option<i64> },
    Sending { transcript: Seq<char> },
    Shortening,
}

impl View for Job {
    type V = JobView;

    open spec fn view(&self) -> JobView {
        match *self {
            Job::ResolvingFile { chat_id } => JobView::ResolvingFile { chat_id },
            Job::Downloading { chat_id } => JobView::Downloading { chat_id },
            Job::Transcribing { chat_id } => JobView::Transcribing { chat_id },
            Job::Sending { transcript } => JobView::Sending { transcript: transcript@ },
            Job::Shortening => JobView::Shortening,
        }
    }
}

/// What the host does next: perform a call and come back with the reply, or
/// report the completion.
#[derive(Clone, Debug, PartialEq, Eq)]
pub enum Step {
    Call(Job, Request),
    Done(Completion),
}

/// The mathematical content of a [`Step`].
pub enum StepView {
    Call(JobView, RequestView),
    Done(CompletionView),
}

impl View for Step {
    type V = StepView;

    open spec fn view(&self) -> StepView {
        match *self {
            Step::Call(job, request) => StepView::Call(job@, request@),
            Step::Done(completion) => StepView::Done(completion@),
        }
    }
}

/// The domain under which short links are made.
pub open spec fn short_domain() -> Seq<char> {
    "bit.ly"@
}

/// The MIME type declared for the uploaded audio.
pub open spec fn audio_mime_type() -> Seq<char> {
    "audio/ogg"@
}

/// The transcription model asked for.
pub open spec fn transcription_model() -> Seq<char> {
    "whisper-1"@
}

/// The response format asked of the transcription service: plain text.
pub open spec fn transcript_format() -> Seq<char> {
    "text"@
}

/// Whether a status code reports success.
pub open spec fn is_success(status: u16) -> bool {
    200 <= status <= 299
}

/// The status code by which the shortening service reports its rate limit.
pub open spec fn is_rate_limit(status: u16) -> bool {
    status == 429
}

/// The download path in a file-resolution reply: `result.file_path`.
pub open spec fn file_path_in(doc: JsonTree) -> Seq<char> {
    text_or_empty(child(doc.member("result"@), "file_path"@))
}

/// The short link's identifier in a shortening reply: `id`.
pub open spec fn slug_in(doc: JsonTree) -> Seq<char> {
    text_or_empty(doc.member("id"@))
}

/// The first step for an outcome.
pub open spec fn first_step(outcome: OutcomeView) -> StepView {
    match outcome {
        OutcomeView::Transcribe(file_id, chat_id) => StepView::Call(
            JobView::ResolvingFile { chat_id },
            RequestView::ResolveFile { file_id },
        ),
        OutcomeView::Shorten(url) => StepView::Call(
            JobView::Shortening,
            RequestView::Shorten { long_url: url, domain: short_domain() },
        ),
        OutcomeView::Ignore(reason) => StepView::Done(CompletionView::Ignored(reason)),
    }
}

/// The step that follows when the call that `job` waits for is answered
/// with `status` and `body`.
pub open spec fn next_step(job: JobView, status: u16, body: Seq<u8>) -> StepView {
    match job {
        JobView::ResolvingFile { chat_id } => if !is_success(status) {
            StepView::Done(CompletionView::Failed(Service::FileLookup, status))
        } else {
            match json_parse(body) {
                Some(doc) => StepView::Call(
                    JobView::Downloading { chat_id },
                    RequestView::Download { file_path: file_path_in(doc) },
                ),
                None => StepView::Done(CompletionView::Malformed(Service::FileLookup)),
            }
        },
        JobView::Downloading { chat_id } => if !is_success(status) {
            StepView::Done(CompletionView::Failed(Service::Download, status))
        } else {
            StepView::Call(
                JobView::Transcribing { chat_id },
                RequestView::Transcribe {
                    audio: body,
                    mime_type: audio_mime_type(),
                    model: transcription_model(),
                    response_format: transcript_format(),
                },
            )
        },
        JobView::Transcribing { chat_id } => if !is_success(status) {
            StepView::Done(CompletionView::Failed(Service::Transcription, status))
        } else if !valid_utf8(body) {
            StepView::Done(CompletionView::Malformed(Service::Transcription))
        } else {
            StepView::Call(
                JobView::Sending { transcript: decode_utf8(body) },
                RequestView::Send { chat_id, text: decode_utf8(body) },
            )
        },
        JobView::Sending { transcript } => if !is_success(status) {
            StepView::Done(CompletionView::Failed(Service::Messaging, status))
        } else {
            StepView::Done(CompletionView::Transcribed(transcript))
        },
        JobView::Shortening => if is_rate_limit(status) {
            StepView::Done(CompletionView::RateLimited)
        } else if !is_success(status) {
            StepView::Done(CompletionView::Failed(Service::Shortener, status))
        } else {
            match json_parse(body) {
                Some(doc) => StepView::Done(CompletionView::Shortened(slug_in(doc))),
                None => StepView::Done(CompletionView::Malformed(Service::Shortener)),
            }
        },
    }
}

/// Reads the download path out of a parsed file-resolution reply.
pub fn file_path_from(doc: &serde_json::Value) -> (path: String)
    ensures
        path@ == file_path_in(json_view(*doc)),
{
    read_text_or_empty(descend(descend(Some(doc), "result"), "file_path"))
}

/// Reads the short link's identifier out of a parsed shortening reply.
pub fn slug_from(doc: &serde_json::Value) -> (slug: String)
    ensures
        slug@ == slug_in(json_view(*doc)),
{
    read_text_or_empty(descend(Some(doc), "id"))
}

impl Reply {
    /// Whether the status reports success.
    pub fn is_success(&self) -> (r: bool)
        ensures
            r == is_success(self.status),
    {
        200 <= self.status && self.status <= 299
    }
}

/// Starts carrying out an outcome.
pub fn begin(outcome: Outcome) -> (step: Step)
    ensures
        step@ == first_step(outcome@),
{
    match outcome {
        Outcome::Transcribe(file_id, chat_id) => Step::Call(
            Job::ResolvingFile { chat_id },
            Request::ResolveFile { file_id },
        ),
        Outcome::Shorten(url) => Step::Call(
            Job::Shortening,
            Request::Shorten { long_url: url, domain: "bit.ly".to_owned() },
        ),
        Outcome::Ignore(reason) => Step::Done(Completion::Ignored(reason)),
    }
}

/// Takes the reply to the call that `job` waited for and decides what
/// follows.
pub fn advance(job: Job, reply: Reply) -> (step: Step)
    ensures
        step@ == next_step(job@, reply.status, reply.body@),
{
    let success = reply.is_success();
    let status = reply.status;
    match job {
        Job::ResolvingFile { chat_id } => {
            if !success {
                return Step::Done(Completion::Failed(Service::FileLookup, status));
            }
            match parse(reply.body.as_slice()) {
                Ok(doc) => Step::Call(
                    Job::Downloading { chat_id },
                    Request::Download { file_path: file_path_from(&doc) },
                ),
                Err(_) => Step::Done(Completion::Malformed(Service::FileLookup)),
            }
        },
        Job::Downloading { chat_id } => {
            if !success {
                return Step::Done(Completion::Failed(Service::Download, status));
            }
            Step::Call(
                Job::Transcribing { chat_id },
                Request::Transcribe {
                    audio: reply.body,
                    mime_type: "audio/ogg".to_owned(),
                    model: "whisper-1".to_owned(),
                    response_format: "text".to_owned(),
                },
            )
        },
        Job::Transcribing { chat_id } => {
            if !success {
                return Step::Done(Completion::Failed(Service::Transcription, status));
            }
            match from_utf8(reply.body) {
                Some(text) => Step::Call(
                    Job::Sending { transcript: text.clone() },
                    Request::Send { chat_id, text },
                ),
                None => Step::Done(Completion::Malformed(Service::Transcription)),
            }
        },
        Job::Sending { transcript } => {
            if !success {
                return Step::Done(Completion::Failed(Service::Messaging, status));
            }
            Step::Done(Completion::Transcribed(transcript))
        },
        Job::Shortening => {
            if status == 429 {
                return Step::Done(Completion::RateLimited);
            }
            if !success {
                return Step::Done(Completion::Failed(Service::Shortener, status));
            }
            match parse(reply.body.as_slice()) {
                Ok(doc) => Step::Done(Completion::Shortened(slug_from(&doc))),
                Err(_) => Step::Done(Completion::Malformed(Service::Shortener)),
            }
        },
    }
}

/// No outcome starts with a message to a chat.
pub proof fn nothing_is_sent_at_the_start(outcome: Outcome)
    ensures
        !(first_step(outcome@) matches StepView::Call(_, RequestView::Send { .. })),
{
}

/// A message is sent to a chat only as the step that follows a successful
/// answer of the transcription service, and then with the transcript as its
/// text and the chat that the job was started for.
pub proof fn send_follows_transcription(job: Job, reply: Reply)
    requires
        next_step(job@, reply.status, reply.body@) matches StepView::Call(
            _,
            RequestView::Send { .. },
        ),
    ensures
        job@ is Transcribing,
        is_success(reply.status),
        valid_utf8(reply.body@),
        next_step(job@, reply.status, reply.body@) == StepView::Call(
            JobView::Sending { transcript: decode_utf8(reply.body@) },
            RequestView::Send { chat_id: job@->Transcribing_chat_id, text: decode_utf8(reply.body@) },
        ),
{
}

/// When a service answers without success, the invocation is complete: no
/// call follows, whatever the job was. In particular nothing is sent to the
/// chat when the transcription service fails.
pub proof fn failure_ends_the_invocation(job: Job, reply: Reply)
    requires
        !is_success(reply.status),
    ensures
        next_step(job@, reply.status, reply.body@) is Done,
        job@ is Transcribing ==> next_step(job@, reply.status, reply.body@) == StepView::Done(
            CompletionView::Failed(Service::Transcription, reply.status),
        ),
{
}

/// The shortening service's rate limit has a completion of its own, which no
/// other status of any service gives.
pub proof fn rate_limit_is_told_apart(job: Job, reply: Reply)
    ensures
        next_step(job@, reply.status, reply.body@) == StepView::Done(CompletionView::RateLimited)
            <==> job@ is Shortening && reply.status == 429,
{
}

} // verus!
