use crate::dispatch::{OutboundMessage, OutboundView, ReplyInstruction, ReplyView};
use vstd::prelude::*;
use vstd::string::StringExecFns;

verus! {

/// The JSON string literal, quotes and escapes included, that stands for `s`.
pub uninterp spec fn json_string_of(s: Seq<char>) -> Seq<char>;

/// Relies on serde_json's `to_string` on a `str`: the quoted, escaped JSON
/// string. Writing into memory cannot fail for a `str`.
#[verifier::external_body]
fn json_string(s: &str) -> (r: String)
    ensures
        r@ == json_string_of(s@),
{
    serde_json::to_string(s).expect("a str always serializes")
}

/// One outbound message as a JSON object.
pub open spec fn message_json(m: OutboundView) -> Seq<char> {
    match m {
        OutboundView::Text { text } => "{\"type\":\"text\",\"text\":"@ + json_string_of(text) + "}"@,
    }
}

/// The messages as JSON objects separated by commas.
pub open spec fn messages_json(ms: Seq<OutboundView>) -> Seq<char>
    decreases ms.len(),
{
    if ms.len() == 0 {
        Seq::empty()
    } else if ms.len() == 1 {
        message_json(ms[0])
    } else {
        messages_json(ms.drop_last()) + ","@ + message_json(ms.last())
    }
}

/// The JSON body of the platform's reply call for one instruction.
pub open spec fn reply_body_of(r: ReplyView) -> Seq<char> {
    "{\"replyToken\":"@ + json_string_of(r.reply_token) + ",\"messages\":["@ + messages_json(
        r.messages,
    ) + "],\"notificationDisabled\":"@ + (if r.notification_disabled {
        "true"@
    } else {
        "false"@
    }) + "}"@
}

/// Builds the JSON body that the reply call sends for an instruction.
pub fn reply_body(instruction: &ReplyInstruction) -> (r: String)
    ensures
        r@ == reply_body_of(instruction@),
{
    let messages = &instruction.messages;
    let ghost views = instruction@.messages;
    let mut body = String::from_str("{\"replyToken\":");
    body.append(json_string(instruction.reply_token.as_str()).as_str());
    body.append(",\"messages\":[");
    let ghost start = body@;
    let mut i: usize = 0;
    while i < messages.len()
        invariant
            i <= messages@.len(),
            views == messages@.map_values(|m: OutboundMessage| m@),
            body@ == start + messages_json(views.subrange(0, i as int)),
        decreases messages@.len() - i,
    {
        let ghost before = body@;
        let ghost prefix = views.subrange(0, i + 1);
        assert(prefix.drop_last() =~= views.subrange(0, i as int));
        assert(prefix.last() == views[i as int]);
        if i > 0 {
            body.append(",");
        }
        match &messages[i] {
            OutboundMessage::Text { text } => {
                body.append("{\"type\":\"text\",\"text\":");
                body.append(json_string(text.as_str()).as_str());
                body.append("}");
            },
        }
        if i == 0 {
            assert(prefix =~= seq![views[0]]);
            assert(views.subrange(0, 0) =~= Seq::<OutboundView>::empty());
        }
        assert(body@ =~= start + messages_json(prefix));
        i = i + 1;
    }
    assert(views.subrange(0, messages@.len() as int) =~= views);
    body.append("],\"notificationDisabled\":");
    if instruction.notification_disabled {
        body.append("true");
    } else {
        body.append("false");
    }
    body.append("}");
    body
}

} // verus!
