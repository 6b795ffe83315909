use crate::dispatch::{replies_for, reply_for, ReplyView};
use crate::envelope::{decoded, event_of, string_of, EventView, WebhookEnvelope};
use crate::json::{member, Json};
use vstd::prelude::*;

verus! {

/// Decoding depends on the body alone: two successful decodings of the same
/// bytes give structurally equal envelopes.
pub proof fn decode_twice_agrees(body: Seq<u8>, first: WebhookEnvelope, second: WebhookEnvelope)
    requires
        decoded(body) == Some(first@),
        decoded(body) == Some(second@),
    ensures
        first@ == second@,
{
}

/// An event object whose type is not `message` decodes, whatever else it
/// holds, to an `Other` event, and no reply is made to it.
pub proof fn unrecognized_event_gets_no_reply(fields: Vec<(String, Json)>, kind: Seq<char>)
    requires
        string_of(member(fields@, "type"@)) == Some(kind),
        kind != "message"@,
    ensures
        event_of(Json::Object(fields)) == Some(EventView::Other { kind }),
        reply_for(EventView::Other { kind }) == Seq::<ReplyView>::empty(),
{
}

/// A message event without a reply token gets no reply, whatever its content.
pub proof fn tokenless_message_gets_no_reply(e: EventView)
    requires
        e matches EventView::Message { reply_token: None, .. },
    ensures
        reply_for(e) == Seq::<ReplyView>::empty(),
{
}

/// Replies keep event order: the replies to two runs of events, one after the
/// other, are those of the first run followed by those of the second.
pub proof fn replies_keep_event_order(first: Seq<EventView>, second: Seq<EventView>)
    ensures
        replies_for(first + second) == replies_for(first) + replies_for(second),
    decreases second.len(),
{
    if second.len() == 0 {
        assert(first + second =~= first);
        assert(replies_for(second) =~= Seq::<ReplyView>::empty());
        assert(replies_for(first) + replies_for(second) =~= replies_for(first));
    } else {
        let rest = second.drop_last();
        replies_keep_event_order(first, rest);
        assert((first + second).drop_last() =~= first + rest);
        assert((first + second).last() == second.last());
        assert(replies_for(first + second) =~= replies_for(first) + replies_for(rest) + reply_for(
            second.last(),
        ));
        assert(replies_for(second) == replies_for(rest) + reply_for(second.last()));
        assert(replies_for(first) + replies_for(second) =~= replies_for(first) + replies_for(rest)
            + reply_for(second.last()));
    }
}

/// Events that are not messages produce no replies at all.
pub proof fn other_events_get_no_replies(events: Seq<EventView>)
    requires
        forall|k: int| 0 <= k < events.len() ==> (#[trigger] events[k]) is Other,
    ensures
        replies_for(events) == Seq::<ReplyView>::empty(),
    decreases events.len(),
{
    if events.len() > 0 {
        let rest = events.drop_last();
        assert forall|k: int| 0 <= k < rest.len() implies (#[trigger] rest[k]) is Other by {
            assert(rest[k] == events[k]);
        }
        other_events_get_no_replies(rest);
        assert(events.last() is Other);
        assert(replies_for(events) =~= Seq::<ReplyView>::empty());
    }
}

} // verus!
