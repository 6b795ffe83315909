use crate::envelope::{ContentView, EventView, MessageContent, Event, WebhookEnvelope};
use vstd::prelude::*;

verus! {

/// A message sent back to the platform. Only text is ever built here.
#[derive(Debug, Clone, PartialEq, Eq)]
pub enum OutboundMessage {
    Text { text: String },
}

/// One reply to send: the token of the event replied to, the messages in
/// order (never empty), and whether the user is spared a notification.
#[derive(Debug, Clone, PartialEq, Eq)]
pub struct ReplyInstruction {
    pub reply_token: String,
    pub messages: Vec<OutboundMessage>,
    pub notification_disabled: bool,
}

/// An outbound message as plain values.
pub enum OutboundView {
    Text { text: Seq<char> },
}

/// A reply instruction as plain values.
pub struct ReplyView {
    pub reply_token: Seq<char>,
    pub messages: Seq<OutboundView>,
    pub notification_disabled: bool,
}

impl View for OutboundMessage {
    type V = OutboundView;

    open spec fn view(&self) -> OutboundView {
        match self {
            OutboundMessage::Text { text } => OutboundView::Text { text: text@ },
        }
    }
}

impl View for ReplyInstruction {
    type V = ReplyView;

    open spec fn view(&self) -> ReplyView {
        ReplyView {
            reply_token: self.reply_token@,
            messages: self.messages@.map_values(|m: OutboundMessage| m@),
            notification_disabled: self.notification_disabled,
        }
    }
}

/// Reply instructions as plain values, in order.
pub open spec fn replies_view(rs: Seq<ReplyInstruction>) -> Seq<ReplyView> {
    rs.map_values(|r: ReplyInstruction| r@)
}

/// The echo reply that one event calls for: a text message event with a reply
/// token gets its own text back, with notifications on; any other event none.
pub open spec fn reply_for(e: EventView) -> Seq<ReplyView> {
    match e {
        EventView::Message { reply_token: Some(token), message: ContentView::Text { text } } => seq![
            ReplyView {
                reply_token: token,
                messages: seq![OutboundView::Text { text }],
                notification_disabled: false,
            },
        ],
        _ => Seq::empty(),
    }
}

/// The replies that a sequence of events calls for, in event order.
pub open spec fn replies_for(events: Seq<EventView>) -> Seq<ReplyView>
    decreases events.len(),
{
    if events.len() == 0 {
        Seq::empty()
    } else {
        replies_for(events.drop_last()) + reply_for(events.last())
    }
}

/// Selects the events to answer and builds their replies, in event order.
/// Events of other types, non-text messages and messages without a reply
/// token are skipped.
pub fn dispatch(envelope: &WebhookEnvelope) -> (r: Vec<ReplyInstruction>)
    ensures
        replies_view(r@) == replies_for(envelope@.events),
{
    let events = &envelope.events;
    let mut replies: Vec<ReplyInstruction> = Vec::new();
    let mut i: usize = 0;
    while i < events.len()
        invariant
            i <= events@.len(),
            envelope@.events == events@.map_values(|e: Event| e@),
            replies_view(replies@) == replies_for(envelope@.events.subrange(0, i as int)),
        decreases events@.len() - i,
    {
        let ghost before = replies@;
        let ghost prefix = envelope@.events.subrange(0, i + 1);
        assert(prefix.drop_last() =~= envelope@.events.subrange(0, i as int));
        assert(prefix.last() == events@[i as int]@);
        if let Event::Message(m) = &events[i] {
            if let MessageContent::Text { text } = &m.message {
                if let Some(token) = &m.reply_token {
                    let messages = vec![OutboundMessage::Text { text: text.clone() }];
                    let reply = ReplyInstruction {
                        reply_token: token.clone(),
                        messages,
                        notification_disabled: false,
                    };
                    replies.push(reply);
                    assert(reply@.messages =~= seq![OutboundView::Text { text: text@ }]);
                }
            }
        }
        assert(replies_view(replies@) =~= replies_view(before) + reply_for(events@[i as int]@));
        i = i + 1;
    }
    assert(envelope@.events.subrange(0, events@.len() as int) =~= envelope@.events);
    replies
}

} // verus!
