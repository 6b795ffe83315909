use line_webhook::{
    decode, decode_json, dispatch, handle, reply_body, sign, status_code, verify, ChannelConfig,
    ConfigError, DecodeError, Event, Json, MessageContent, MessageEvent, OutboundMessage,
    ReplyInstruction, WebhookEnvelope, WebhookError,
};

const SCENARIO_BODY: &str = r#"{"destination":"U1","events":[{"type":"message","replyToken":"rt1","message":{"type":"text","text":"hi"}}]}"#;
const SCENARIO_SIGNATURE: &str = "ET2vDPTQUnXdmA+afcmUCELBtcFVuLLP/JJ9hlq4jMs=";

fn text_reply(token: &str, text: &str) -> ReplyInstruction {
    ReplyInstruction {
        reply_token: token.to_string(),
        messages: vec![OutboundMessage::Text { text: text.to_string() }],
        notification_disabled: false,
    }
}

fn decoded_replies(body: &str) -> Vec<ReplyInstruction> {
    let envelope = decode(body.as_bytes()).expect("body decodes");
    dispatch(&envelope)
}

#[test]
fn sign_matches_known_hmac_vector() {
    let sig = sign("key", b"The quick brown fox jumps over the lazy dog");
    assert_eq!(sig, "97yD9DBThCSxMpjmqm+xQ+9NWaFJRhdZl0edvC0aPNg=");
}

#[test]
fn signed_body_verifies() {
    let body = br#"{"destination":"U9","events":[]}"#;
    let sig = sign("topsecret", body);
    assert!(verify("topsecret", &sig, body));
}

#[test]
fn empty_body_signs_and_verifies() {
    let sig = sign("s3cr3t", b"");
    assert_eq!(sig, "PIHMlJbhwlJQ9sy4X2l8G7Yj40gNZTitjLamZIFCd30=");
    assert!(verify("s3cr3t", &sig, b""));
}

#[test]
fn one_bit_change_in_body_fails_verification() {
    let body = SCENARIO_BODY.as_bytes().to_vec();
    let mut changed = body.clone();
    changed[5] ^= 1;
    assert!(verify("s3cr3t", SCENARIO_SIGNATURE, &body));
    assert!(!verify("s3cr3t", SCENARIO_SIGNATURE, &changed));
}

#[test]
fn one_bit_change_in_secret_fails_verification() {
    assert!(!verify("s3cr3u", SCENARIO_SIGNATURE, SCENARIO_BODY.as_bytes()));
}

#[test]
fn signature_that_is_not_base64_fails_verification() {
    assert!(!verify("s3cr3t", "not base64!!", SCENARIO_BODY.as_bytes()));
    assert!(!verify("s3cr3t", "", SCENARIO_BODY.as_bytes()));
}

#[test]
fn truncated_signature_fails_verification() {
    assert!(!verify("s3cr3t", "ET2vDPTQUnXdmA+afcmUCELBtcFVuLLP", SCENARIO_BODY.as_bytes()));
}

#[test]
fn decoding_twice_gives_equal_envelopes() {
    let body = SCENARIO_BODY.as_bytes();
    assert_eq!(decode(body), decode(body));
    let bad = b"{not json";
    assert_eq!(decode(bad), decode(bad));
}

#[test]
fn text_message_round_trip() {
    let body = r#"{"destination":"U1","events":[{"type":"message","replyToken":"abc","message":{"type":"text","text":"hello"}}]}"#;
    assert_eq!(decoded_replies(body), vec![text_reply("abc", "hello")]);
}

#[test]
fn unrecognized_event_type_decodes_and_gets_no_reply() {
    let body = r#"{"destination":"U1","events":[{"type":"futureThing","payload":{"x":1}}]}"#;
    let envelope = decode(body.as_bytes()).expect("body decodes");
    assert_eq!(envelope.events, vec![Event::Other { kind: "futureThing".to_string() }]);
    assert!(dispatch(&envelope).is_empty());
}

#[test]
fn follow_event_gets_no_reply() {
    let body = r#"{"destination":"U1","events":[{"type":"follow","replyToken":"t"}]}"#;
    assert!(decoded_replies(body).is_empty());
}

#[test]
fn text_message_without_reply_token_gets_no_reply() {
    let body = r#"{"destination":"U1","events":[{"type":"message","message":{"type":"text","text":"hi"}}]}"#;
    let envelope = decode(body.as_bytes()).expect("body decodes");
    assert_eq!(
        envelope.events,
        vec![Event::Message(MessageEvent {
            reply_token: None,
            message: MessageContent::Text { text: "hi".to_string() },
        })]
    );
    assert!(dispatch(&envelope).is_empty());
}

#[test]
fn null_reply_token_is_absent() {
    let body = r#"{"destination":"U1","events":[{"type":"message","replyToken":null,"message":{"type":"text","text":"hi"}}]}"#;
    assert!(decoded_replies(body).is_empty());
}

#[test]
fn malformed_json_is_refused() {
    assert_eq!(decode(b"{not json"), Err(DecodeError::Malformed));
}

#[test]
fn missing_or_misshapen_members_are_refused() {
    let bodies = [
        r#"{"events":[]}"#,
        r#"{"destination":"U1"}"#,
        r#"{"destination":"U1","events":{}}"#,
        r#"{"destination":7,"events":[]}"#,
        r#"{"destination":"U1","events":[{"replyToken":"t"}]}"#,
        r#"{"destination":"U1","events":[{"type":"message","replyToken":"t"}]}"#,
        r#"{"destination":"U1","events":[{"type":"message","message":{"text":"hi"}}]}"#,
        r#"{"destination":"U1","events":[{"type":"message","message":{"type":"text"}}]}"#,
        r#"{"destination":"U1","events":[{"type":"message","replyToken":5,"message":{"type":"text","text":"hi"}}]}"#,
        r#"[]"#,
        "",
    ];
    for body in bodies {
        assert_eq!(decode(body.as_bytes()), Err(DecodeError::Malformed), "{body}");
    }
}

#[test]
fn empty_event_list_decodes() {
    let envelope = decode(br#"{"destination":"U7","events":[]}"#).expect("body decodes");
    assert_eq!(
        envelope,
        WebhookEnvelope { destination: "U7".to_string(), events: vec![] }
    );
    assert!(dispatch(&envelope).is_empty());
}

#[test]
fn other_content_types_get_no_reply() {
    let body = r#"{"destination":"U1","events":[{"type":"message","replyToken":"t","message":{"type":"sticker","packageId":"1"}}]}"#;
    let envelope = decode(body.as_bytes()).expect("body decodes");
    assert_eq!(
        envelope.events,
        vec![Event::Message(MessageEvent {
            reply_token: Some("t".to_string()),
            message: MessageContent::Other { kind: "sticker".to_string() },
        })]
    );
    assert!(dispatch(&envelope).is_empty());
}

#[test]
fn replies_follow_event_order() {
    let body = r#"{"destination":"U1","events":[
        {"type":"message","replyToken":"first","message":{"type":"text","text":"one"}},
        {"type":"message","replyToken":"second","message":{"type":"image","id":"9"}},
        {"type":"message","replyToken":"third","message":{"type":"text","text":"three"}}
    ]}"#;
    assert_eq!(
        decoded_replies(body),
        vec![text_reply("first", "one"), text_reply("third", "three")]
    );
}

#[test]
fn scenario_signed_text_message() {
    let body = SCENARIO_BODY.as_bytes();
    assert!(verify("s3cr3t", SCENARIO_SIGNATURE, body));
    let envelope = decode(body).expect("body decodes");
    assert_eq!(envelope.destination, "U1");
    assert_eq!(dispatch(&envelope), vec![text_reply("rt1", "hi")]);
    let outcome = handle("s3cr3t", SCENARIO_SIGNATURE, body);
    assert_eq!(outcome, Ok(vec![text_reply("rt1", "hi")]));
    assert_eq!(status_code(&outcome), 200);
}

#[test]
fn handle_refuses_bad_signature_before_decoding() {
    let outcome = handle("s3cr3t", SCENARIO_SIGNATURE, b"{not json");
    assert_eq!(outcome, Err(WebhookError::SignatureInvalid));
    assert_eq!(status_code(&outcome), 400);
}

#[test]
fn handle_refuses_malformed_body_with_good_signature() {
    let body = b"{not json";
    let sig = sign("s3cr3t", body);
    let outcome = handle("s3cr3t", &sig, body);
    assert_eq!(outcome, Err(WebhookError::Malformed));
    assert_eq!(status_code(&outcome), 400);
}

#[test]
fn decode_json_reads_a_built_document() {
    let doc = Json::Object(vec![
        ("destination".to_string(), Json::Str("U2".to_string())),
        (
            "events".to_string(),
            Json::Array(vec![Json::Object(vec![
                ("type".to_string(), Json::Str("message".to_string())),
                ("replyToken".to_string(), Json::Str("r".to_string())),
                (
                    "message".to_string(),
                    Json::Object(vec![
                        ("type".to_string(), Json::Str("text".to_string())),
                        ("text".to_string(), Json::Str("yo".to_string())),
                    ]),
                ),
            ])]),
        ),
    ]);
    let envelope = decode_json(&doc).expect("document decodes");
    assert_eq!(dispatch(&envelope), vec![text_reply("r", "yo")]);
    assert_eq!(decode_json(&Json::Null), Err(DecodeError::Malformed));
}

#[test]
fn reply_body_is_platform_json() {
    let body = reply_body(&text_reply("rt1", "say \"hi\"\n"));
    assert_eq!(
        body,
        r#"{"replyToken":"rt1","messages":[{"type":"text","text":"say \"hi\"\n"}],"notificationDisabled":false}"#
    );
}

#[test]
fn reply_body_lists_several_messages() {
    let instruction = ReplyInstruction {
        reply_token: "t".to_string(),
        messages: vec![
            OutboundMessage::Text { text: "a".to_string() },
            OutboundMessage::Text { text: "b".to_string() },
        ],
        notification_disabled: true,
    };
    assert_eq!(
        reply_body(&instruction),
        r#"{"replyToken":"t","messages":[{"type":"text","text":"a"},{"type":"text","text":"b"}],"notificationDisabled":true}"#
    );
}

#[test]
fn config_requires_both_values() {
    assert!(matches!(
        ChannelConfig::new(String::new(), "tok".to_string()),
        Err(ConfigError::MissingSecret)
    ));
    assert!(matches!(
        ChannelConfig::new("sec".to_string(), String::new()),
        Err(ConfigError::MissingAccessToken)
    ));
    let config = ChannelConfig::new("sec".to_string(), "tok".to_string()).ok().expect("valid");
    assert_eq!(config.secret(), "sec");
    assert_eq!(config.access_token(), "tok");
}
