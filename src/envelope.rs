use crate::json::{find_member, member, parse_json, parsed_json, Json};
use vstd::prelude::*;

verus! {

/// What a message event carries. Only text is told apart; every other content
/// type, known or not, keeps just its type name.
#[derive(Debug, Clone, PartialEq, Eq)]
pub enum MessageContent {
    Text { text: String },
    Other { kind: String },
}

/// An event of type `message`. The reply token is absent on events that
/// cannot be replied to.
#[derive(Debug, Clone, PartialEq, Eq)]
pub struct MessageEvent {
    pub reply_token: Option<String>,
    pub message: MessageContent,
}

/// One webhook event: a message event, or any other event type, known or not.
#[derive(Debug, Clone, PartialEq, Eq)]
pub enum Event {
    Message(MessageEvent),
    Other { kind: String },
}

/// A decoded webhook call: the bot's destination id and its events, in the
/// order received.
#[derive(Debug, Clone, PartialEq, Eq)]
pub struct WebhookEnvelope {
    pub destination: String,
    pub events: Vec<Event>,
}

/// Why a body could not be decoded.
#[derive(Debug, Clone, Copy, PartialEq, Eq)]
pub enum DecodeError {
    /// Not JSON text, or a required member is missing or of the wrong shape.
    Malformed,
}

/// Message content as plain values.
pub enum ContentView {
    Text { text: Seq<char> },
    Other { kind: Seq<char> },
}

/// An event as plain values.
pub enum EventView {
    Message { reply_token: Option<Seq<char>>, message: ContentView },
    Other { kind: Seq<char> },
}

/// An envelope as plain values.
pub struct EnvelopeView {
    pub destination: Seq<char>,
    pub events: Seq<EventView>,
}

/// An optional string as an optional character sequence.
pub open spec fn opt_string_view(s: Option<String>) -> Option<Seq<char>> {
    match s {
        Some(t) => Some(t@),
        None => None,
    }
}

impl View for MessageContent {
    type V = ContentView;

    open spec fn view(&self) -> ContentView {
        match self {
            MessageContent::Text { text } => ContentView::Text { text: text@ },
            MessageContent::Other { kind } => ContentView::Other { kind: kind@ },
        }
    }
}

impl View for Event {
    type V = EventView;

    open spec fn view(&self) -> EventView {
        match self {
            Event::Message(m) => EventView::Message {
                reply_token: opt_string_view(m.reply_token),
                message: m.message@,
            },
            Event::Other { kind } => EventView::Other { kind: kind@ },
        }
    }
}

/// Events as plain values, in order.
pub open spec fn events_view(events: Seq<Event>) -> Seq<EventView> {
    events.map_values(|e: Event| e@)
}

impl View for WebhookEnvelope {
    type V = EnvelopeView;

    open spec fn view(&self) -> EnvelopeView {
        EnvelopeView { destination: self.destination@, events: events_view(self.events@) }
    }
}

/// A member that must be a string.
pub open spec fn string_of(j: Option<Json>) -> Option<Seq<char>> {
    match j {
        Some(Json::Str(s)) => Some(s@),
        _ => None,
    }
}

/// A member that may be absent or null, and is otherwise a string: `None`
/// when it has another shape.
pub open spec fn optional_string_of(j: Option<Json>) -> Option<Option<Seq<char>>> {
    match j {
        None => Some(None),
        Some(Json::Null) => Some(None),
        Some(Json::Str(s)) => Some(Some(s@)),
        _ => None,
    }
}

/// The content object of a message event: `type` is required, and `text` too
/// when the type is `text`.
pub open spec fn content_of(j: Json) -> Option<ContentView> {
    match j {
        Json::Object(f) => match string_of(member(f@, "type"@)) {
            Some(kind) => if kind == "text"@ {
                match string_of(member(f@, "text"@)) {
                    Some(text) => Some(ContentView::Text { text }),
                    None => None,
                }
            } else {
                Some(ContentView::Other { kind })
            },
            None => None,
        },
        _ => None,
    }
}

/// One event object: `type` is required; an event of type `message` needs a
/// well-formed `message` member and may carry a `replyToken`.
pub open spec fn event_of(j: Json) -> Option<EventView> {
    match j {
        Json::Object(f) => match string_of(member(f@, "type"@)) {
            Some(kind) => if kind == "message"@ {
                match (optional_string_of(member(f@, "replyToken"@)), member(f@, "message"@)) {
                    (Some(reply_token), Some(m)) => match content_of(m) {
                        Some(message) => Some(EventView::Message { reply_token, message }),
                        None => None,
                    },
                    _ => None,
                }
            } else {
                Some(EventView::Other { kind })
            },
            None => None,
        },
        _ => None,
    }
}

/// The events of an array, when every one of them is well formed.
pub open spec fn events_of(items: Seq<Json>) -> Option<Seq<EventView>> {
    if forall|k: int| 0 <= k < items.len() ==> (#[trigger] event_of(items[k])) is Some {
        Some(items.map_values(|j: Json| event_of(j)->Some_0))
    } else {
        None
    }
}

/// The envelope: an object with a string `destination` and an array `events`.
pub open spec fn envelope_of(j: Json) -> Option<EnvelopeView> {
    match j {
        Json::Object(f) => match (string_of(member(f@, "destination"@)), member(f@, "events"@)) {
            (Some(destination), Some(Json::Array(items))) => match events_of(items@) {
                Some(events) => Some(EnvelopeView { destination, events }),
                None => None,
            },
            _ => None,
        },
        _ => None,
    }
}

/// The envelope that the raw bytes of a webhook body decode to, if any.
pub open spec fn decoded(body: Seq<u8>) -> Option<EnvelopeView> {
    match parsed_json(body) {
        Some(j) => envelope_of(j),
        None => None,
    }
}

/// The member `key`, when it is a string.
fn string_member(fields: &Vec<(String, Json)>, key: &String) -> (r: Option<String>)
    ensures
        opt_string_view(r) == string_of(member(fields@, key@)),
{
    match find_member(fields, key) {
        Some(i) => match &fields[i].1 {
            Json::Str(s) => Some(s.clone()),
            _ => None,
        },
        None => None,
    }
}

/// Decodes the content object of a message event.
fn content_from_json(j: &Json) -> (r: Option<MessageContent>)
    ensures
        match r {
            Some(c) => content_of(*j) == Some(c@),
            None => content_of(*j) is None,
        },
{
    match j {
        Json::Object(f) => {
            let kind = string_member(f, &"type".to_owned());
            match kind {
                Some(kind) => {
                    if kind == "text".to_owned() {
                        match string_member(f, &"text".to_owned()) {
                            Some(text) => Some(MessageContent::Text { text }),
                            None => None,
                        }
                    } else {
                        Some(MessageContent::Other { kind })
                    }
                },
                None => None,
            }
        },
        _ => None,
    }
}

/// Decodes one event object.
fn event_from_json(j: &Json) -> (r: Option<Event>)
    ensures
        match r {
            Some(e) => event_of(*j) == Some(e@),
            None => event_of(*j) is None,
        },
{
    match j {
        Json::Object(f) => {
            let kind = string_member(f, &"type".to_owned());
            match kind {
                Some(kind) => {
                    if kind == "message".to_owned() {
                        let reply_token = match find_member(f, &"replyToken".to_owned()) {
                            None => None,
                            Some(i) => match &f[i].1 {
                                Json::Null => None,
                                Json::Str(s) => Some(s.clone()),
                                _ => return None,
                            },
                        };
                        let message = match find_member(f, &"message".to_owned()) {
                            Some(i) => content_from_json(&f[i].1),
                            None => None,
                        };
                        match message {
                            Some(message) => Some(Event::Message(MessageEvent { reply_token, message })),
                            None => None,
                        }
                    } else {
                        Some(Event::Other { kind })
                    }
                },
                None => None,
            }
        },
        _ => None,
    }
}

/// Decodes every event of an array, or fails on the first bad one.
fn events_from_json(items: &Vec<Json>) -> (r: Option<Vec<Event>>)
    ensures
        match r {
            Some(es) => events_of(items@) == Some(events_view(es@)),
            None => events_of(items@) is None,
        },
{
    let mut events: Vec<Event> = Vec::new();
    let mut i: usize = 0;
    while i < items.len()
        invariant
            i <= items@.len(),
            events@.len() == i,
            forall|k: int| 0 <= k < i ==> event_of(items@[k]) == Some(#[trigger] events@[k]@),
        decreases items@.len() - i,
    {
        match event_from_json(&items[i]) {
            Some(e) => events.push(e),
            None => return None,
        }
        i = i + 1;
    }
    assert forall|k: int| 0 <= k < items@.len() implies (#[trigger] event_of(items@[k])) is Some by {
        assert(event_of(items@[k]) == Some(events@[k]@));
    }
    assert(items@.map_values(|j: Json| event_of(j)->Some_0) =~= events_view(events@));
    Some(events)
}

/// Decodes a parsed document into an envelope, exactly when it has the
/// envelope's shape. Unknown event and content types are kept as `Other`.
pub fn decode_json(j: &Json) -> (r: Result<WebhookEnvelope, DecodeError>)
    ensures
        match r {
            Ok(e) => envelope_of(*j) == Some(e@),
            Err(_) => envelope_of(*j) is None,
        },
{
    match j {
        Json::Object(f) => {
            let destination = string_member(f, &"destination".to_owned());
            let events = match find_member(f, &"events".to_owned()) {
                Some(i) => match &f[i].1 {
                    Json::Array(items) => events_from_json(items),
                    _ => None,
                },
                None => None,
            };
            match (destination, events) {
                (Some(destination), Some(events)) => Ok(WebhookEnvelope { destination, events }),
                _ => Err(DecodeError::Malformed),
            }
        },
        _ => Err(DecodeError::Malformed),
    }
}

/// Decodes the raw bytes of a webhook body. Fails with `Malformed` when they
/// are not JSON text or not an envelope; never panics.
pub fn decode(body: &[u8]) -> (r: Result<WebhookEnvelope, DecodeError>)
    ensures
        match r {
            Ok(e) => decoded(body@) == Some(e@),
            Err(_) => decoded(body@) is None,
        },
{
    match parse_json(body) {
        Some(j) => decode_json(&j),
        None => Err(DecodeError::Malformed),
    }
}

} // verus!
