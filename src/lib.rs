//! Validation and routing of chat-platform webhook calls: signature checking,
//! tolerant decoding of the event envelope, and selection of the replies to send.

mod dispatch;
mod envelope;
mod gateway;
mod json;
mod laws;
mod signature;
mod webhook;

pub use dispatch::{
    dispatch, replies_for, replies_view, reply_for, OutboundMessage, OutboundView, ReplyInstruction,
    ReplyView,
};
pub use envelope::{
    content_of, decode, decode_json, decoded, envelope_of, event_of, events_of, events_view,
    opt_string_view, optional_string_of, string_of, ContentView, DecodeError, EnvelopeView, Event,
    EventView, MessageContent, MessageEvent, WebhookEnvelope,
};
pub use gateway::{json_string_of, message_json, messages_json, reply_body, reply_body_of};
pub use json::{find_member, member, parsed_json, Json};
pub use laws::{
    decode_twice_agrees, other_events_get_no_replies, replies_keep_event_order,
    tokenless_message_gets_no_reply, unrecognized_event_gets_no_reply,
};
pub use signature::{
    base64_decoded, base64_of, hmac_sha256_of, sign, signature_valid, verify,
};
pub use webhook::{handle, status_code, ChannelConfig, ConfigError, WebhookError};
