//! The classifier: which action one inbound event calls for.

use crate::event::{event_of, EventView, InboundEvent, MalformedBody};
use crate::json::json_parse;
use crate::url::{is_valid_url, well_formed_url};
use vstd::prelude::*;

verus! {

/// The action that an event calls for.
#[derive(Clone, Debug, PartialEq, Eq)]
pub enum Outcome {
    /// Transcribe the voice attachment with this identifier and send the
    /// text to this chat.
    Transcribe(String, Option<i64>),
    /// Shorten this URL.
    Shorten(String),
    /// Do nothing, for this reason.
    Ignore(String),
}

/// The mathematical content of an [`Outcome`].
pub enum OutcomeView {
    Transcribe(Seq<char>, Option<i64>),
    Shorten(Seq<char>),
    Ignore(Seq<char>),
}

impl View for Outcome {
    type V = OutcomeView;

    open spec fn view(&self) -> OutcomeView {
        match *self {
            Outcome::Transcribe(file_id, chat_id) => OutcomeView::Transcribe(file_id@, chat_id),
            Outcome::Shorten(url) => OutcomeView::Shorten(url@),
            Outcome::Ignore(reason) => OutcomeView::Ignore(reason@),
        }
    }
}

/// The reason given for a text that is not a URL.
pub open spec fn not_a_url() -> Seq<char> {
    "not a valid URL"@
}

/// The reason given for an event with neither voice attachment nor text.
pub open spec fn not_a_message() -> Seq<char> {
    "not a valid message"@
}

/// The outcome of an event. The rules are tried in this order: a voice
/// attachment is transcribed; a text that is a URL is shortened; any other
/// text is ignored as no URL; an event with neither is ignored as no message.
pub open spec fn outcome_of(event: EventView) -> OutcomeView {
    match event.voice_file_id {
        Some(file_id) => OutcomeView::Transcribe(file_id, event.chat_id),
        None => match event.text {
            Some(text) => if well_formed_url(text) {
                OutcomeView::Shorten(text)
            } else {
                OutcomeView::Ignore(not_a_url())
            },
            None => OutcomeView::Ignore(not_a_message()),
        },
    }
}

/// Classifies an event.
pub fn classify(event: &InboundEvent) -> (outcome: Outcome)
    ensures
        outcome@ == outcome_of(event@),
{
    match &event.voice_file_id {
        Some(file_id) => Outcome::Transcribe(file_id.clone(), event.chat_id),
        None => match &event.text {
            Some(text) => if is_valid_url(text.as_str()) {
                Outcome::Shorten(text.clone())
            } else {
                Outcome::Ignore("not a valid URL".to_owned())
            },
            None => Outcome::Ignore("not a valid message".to_owned()),
        },
    }
}

/// The outcome of a delivery with this body, or `None` where the body is
/// not a JSON document.
pub open spec fn outcome_of_body(body: Seq<u8>) -> Option<OutcomeView> {
    match json_parse(body) {
        Some(doc) => Some(outcome_of(event_of(doc))),
        None => None,
    }
}

/// What a result of `classify_body` says.
pub open spec fn outcome_in(r: Result<Outcome, MalformedBody>) -> Option<OutcomeView> {
    match r {
        Ok(outcome) => Some(outcome@),
        Err(_) => None,
    }
}

/// Decodes the body of a delivery and classifies it. Fails exactly when the
/// body is not a JSON document.
pub fn classify_body(body: &[u8]) -> (r: Result<Outcome, MalformedBody>)
    ensures
        outcome_in(r) == outcome_of_body(body@),
{
    match InboundEvent::from_body(body) {
        Ok(event) => Ok(classify(&event)),
        Err(e) => Err(e),
    }
}

/// An event with a voice attachment is transcribed, whatever its text says
/// and whether it has one.
pub proof fn voice_is_transcribed(event: InboundEvent)
    requires
        event@.voice_file_id is Some,
    ensures
        outcome_of(event@) == OutcomeView::Transcribe(
            event@.voice_file_id->0,
            event@.chat_id,
        ),
{
}

/// An event without voice attachment whose text is a well-formed absolute
/// URL is shortened, and the URL handed on is that text.
pub proof fn url_is_shortened(event: InboundEvent)
    requires
        event@.voice_file_id is None,
        event@.text is Some,
        well_formed_url(event@.text->0),
    ensures
        outcome_of(event@) == OutcomeView::Shorten(event@.text->0),
{
}

/// An event without voice attachment whose text is no well-formed absolute
/// URL is ignored as no valid URL.
pub proof fn other_text_is_ignored(event: InboundEvent)
    requires
        event@.voice_file_id is None,
        event@.text is Some,
        !well_formed_url(event@.text->0),
    ensures
        outcome_of(event@) == OutcomeView::Ignore("not a valid URL"@),
{
}

/// An event with neither voice attachment nor text is ignored as no valid
/// message.
pub proof fn empty_event_is_ignored(event: InboundEvent)
    requires
        event@.voice_file_id is None,
        event@.text is None,
    ensures
        outcome_of(event@) == OutcomeView::Ignore("not a valid message"@),
{
}

/// Classification is a function of the event: what `classify` returns for
/// an event the first time, it returns every time.
pub proof fn classification_repeats(event: InboundEvent, first: Outcome, second: Outcome)
    requires
        first@ == outcome_of(event@),
        second@ == outcome_of(event@),
    ensures
        first@ == second@,
{
}

/// Classification of a body is a function of its bytes: two calls of
/// `classify_body` on the same body both fail or give the same outcome.
pub proof fn body_classification_repeats(
    body: Seq<u8>,
    first: Result<Outcome, MalformedBody>,
    second: Result<Outcome, MalformedBody>,
)
    requires
        outcome_in(first) == outcome_of_body(body),
        outcome_in(second) == outcome_of_body(body),
    ensures
        outcome_in(first) == outcome_in(second),
{
}

} // verus!
