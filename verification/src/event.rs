//! The inbound event: what one webhook delivery says, as far as the
//! classifier reads it.

use crate::fields::{
    child, chars_of_option, descend, integer_of, read_integer, read_text, text_of,
};
use crate::json::{json_parse, json_view, parse, JsonTree};
use vstd::prelude::*;

verus! {

/// One delivery, reduced to the three optional fields that decide its
/// routing. A field that the payload lacks, or holds with another JSON type,
/// is `None`.
#[derive(Clone, Debug, PartialEq, Eq)]
pub struct InboundEvent {
    /// `message.voice.file_id`, where it is a string.
    pub voice_file_id: Option<String>,
    /// `message.chat.id`, where it is an integer that fits an `i64`.
    pub chat_id: Option<i64>,
    /// `message.text`, where it is a string.
    pub text: Option<String>,
}

/// The mathematical content of an [`InboundEvent`].
pub struct EventView {
    pub voice_file_id: Option<Seq<char>>,
    pub chat_id: Option<i64>,
    pub text: Option<Seq<char>>,
}

impl View for InboundEvent {
    type V = EventView;

    open spec fn view(&self) -> EventView {
        EventView {
            voice_file_id: chars_of_option(self.voice_file_id),
            chat_id: self.chat_id,
            text: chars_of_option(self.text),
        }
    }
}

/// The body of a delivery is not a JSON document.
#[derive(Clone, Copy, Debug, PartialEq, Eq)]
pub struct MalformedBody;

/// The event that a JSON document describes.
pub open spec fn event_of(doc: JsonTree) -> EventView {
    let message = doc.member("message"@);
    EventView {
        voice_file_id: text_of(child(child(message, "voice"@), "file_id"@)),
        chat_id: integer_of(child(child(message, "chat"@), "id"@)),
        text: text_of(child(message, "text"@)),
    }
}

impl InboundEvent {
    /// Reads the event out of a parsed document.
    pub fn from_json(doc: &serde_json::Value) -> (event: InboundEvent)
        ensures
            event@ == event_of(json_view(*doc)),
    {
        let message = descend(Some(doc), "message");
        let voice = descend(message, "voice");
        let chat = descend(message, "chat");
        InboundEvent {
            voice_file_id: read_text(descend(voice, "file_id")),
            chat_id: read_integer(descend(chat, "id")),
            text: read_text(descend(message, "text")),
        }
    }

    /// Decodes the body of a delivery. Fails exactly when the body is not a
    /// JSON document.
    pub fn from_body(body: &[u8]) -> (r: Result<InboundEvent, MalformedBody>)
        ensures
            match json_parse(body@) {
                Some(doc) => r matches Ok(event) && event@ == event_of(doc),
                None => r is Err,
            },
    {
        match parse(body) {
            Ok(doc) => Ok(InboundEvent::from_json(&doc)),
            Err(_) => Err(MalformedBody),
        }
    }
}

} // verus!
