use kick_adapter::json::{compact, parse, text, Json};
use kick_adapter::messages::{ChatMessage, Identity, Payload};
use kick_adapter::pusher::{
    handle_frame, handle_stream_event, moderate, pong_text, react, read_frame, relay_chat,
    subscribe_text, Frame, Moderation, Reaction, Relay, StreamAction, StreamEvent,
};

fn identity() -> Identity {
    Identity {
        auth_token: "auth".to_string(),
        module_name: "kick".to_string(),
        instance_uuid: "instance".to_string(),
    }
}

fn frame(event: &str, data: Option<&str>) -> String {
    let mut m: Vec<(String, Json)> = vec![("event".to_string(), text(event))];
    if let Some(d) = data {
        m.push(("data".to_string(), text(d)));
    }
    compact(Json::Object(m))
}

fn relay(reaction: Reaction) -> Relay {
    match reaction {
        Reaction::Relay(r) => r,
        _ => panic!("no relay"),
    }
}

const CHAT: &str = "App\\Events\\ChatMessageEvent";

#[test]
fn frames_are_told_apart() {
    let read = |s: &str| read_frame(&parse(s).unwrap());
    assert_eq!(read("{\"event\":\"pusher:connection_established\"}"), Frame::ConnectionEstablished);
    assert_eq!(
        read("{\"event\":\"pusher_internal:subscription_succeeded\"}"),
        Frame::SubscriptionSucceeded
    );
    assert_eq!(read("{\"event\":\"pusher:ping\"}"), Frame::Ping);
    assert_eq!(
        read("{\"event\":\"App\\\\Events\\\\ChatMessageEvent\",\"data\":\"{}\"}"),
        Frame::ChatMessage { data: "{}".to_string() }
    );
    for s in [
        "{\"event\":\"App\\\\Events\\\\ChatMessageEvent\",\"data\":{}}",
        "{\"event\":\"other\"}", "{\"event\":1}", "{}", "[]", "null",
    ] {
        assert_eq!(read(s), Frame::Other);
    }
}

#[test]
fn the_chatroom_is_subscribed_to() {
    let expected = "{\"data\":{\"auth\":\"\",\"channel\":\"chatrooms.4242.v2\"},\"event\":\"pusher:subscribe\"}";
    assert_eq!(subscribe_text(4242), expected);
    assert_ne!(subscribe_text(4242), subscribe_text(424));
    assert_eq!(
        handle_frame(&identity(), 4242, &frame("pusher:connection_established", None)),
        Reaction::Subscribe(expected.to_string())
    );
    assert_eq!(
        handle_frame(&identity(), 1, &frame("pusher_internal:subscription_succeeded", None)),
        Reaction::Subscribed
    );
}

#[test]
fn a_ping_is_answered() {
    assert_eq!(pong_text(), "{\"data\":{},\"event\":\"pusher:pong\"}");
    assert_eq!(
        handle_frame(&identity(), 1, &frame("pusher:ping", None)),
        Reaction::Pong("{\"data\":{},\"event\":\"pusher:pong\"}".to_string())
    );
}

#[test]
fn a_chat_message_is_relayed() {
    let data = "{ \"sender\": {\"username\":\"ann\"}, \"content\":\"hello\", \"n\": 0.5 }";
    let r = relay(handle_frame(&identity(), 1, &frame(CHAT, Some(data))));
    assert_eq!(r.moderation, Moderation::Nothing);
    assert_eq!(r.line.version, 1);
    assert_eq!(r.line.auth_token, "auth");
    assert_eq!(
        r.line.payload,
        Payload::MessagePreProcess {
            audio: vec![],
            audio_type: String::new(),
            message_uuid7: String::new(),
            raw_message: ChatMessage {
                platform: "kick".to_string(),
                raw_data: b"{\"content\":\"hello\",\"n\":0.5,\"sender\":{\"username\":\"ann\"}}".to_vec(),
                raw_message: "hello".to_string(),
                user_uuid7: "ann".to_string(),
            }
        }
    );
}

#[test]
fn a_sender_without_a_name_is_unknown() {
    for data in ["{\"content\":\"x\"}", "{\"content\":\"x\",\"sender\":{\"username\":1}}"] {
        let r = relay_chat(&identity(), parse(data).unwrap()).unwrap();
        match r.line.payload {
            Payload::MessagePreProcess { raw_message, .. } => {
                assert_eq!(raw_message.user_uuid7, "Unknown")
            }
            _ => panic!("no line"),
        }
    }
}

#[test]
fn a_message_without_text_is_passed_over() {
    for data in ["{}", "{\"content\":\"\"}", "{\"content\":7}", "[]"] {
        assert_eq!(relay_chat(&identity(), parse(data).unwrap()), None);
        assert_eq!(handle_frame(&identity(), 1, &frame(CHAT, Some(data))), Reaction::Ignore);
    }
    assert_eq!(handle_frame(&identity(), 1, &frame(CHAT, Some("{"))), Reaction::Ignore);
    assert_eq!(handle_frame(&identity(), 1, &frame(CHAT, None)), Reaction::Ignore);
    assert_eq!(handle_frame(&identity(), 1, "not json"), Reaction::Ignore);
    let chat = Frame::ChatMessage { data: String::new() };
    assert_eq!(react(&identity(), 1, chat, None), Reaction::Ignore);
}

#[test]
fn a_command_becomes_a_query() {
    let data = "{\"sender\":{\"username\":\"mod\"},\"content\":\"!ban @troll rude\"}";
    let r = relay(handle_frame(&identity(), 1, &frame(CHAT, Some(data))));
    match r.line.payload {
        Payload::MessagePreProcess { raw_message, .. } => {
            assert_eq!(raw_message.raw_message, "!ban @troll rude")
        }
        _ => panic!("no line"),
    }
    match r.moderation {
        Moderation::Query(c) => {
            assert_eq!(c.module_instance_uuid7, "instance");
            match c.payload {
                Payload::DatabaseQuery { query_id, sql, params } => {
                    assert!(params.is_empty());
                    assert_eq!(query_id, "mod_ban");
                    assert_eq!(
                        sql,
                        "{\"actor\":{\"handle\":\"mod\",\"platform\":\"kick\"},\"handle\":\"troll\",\"platform\":\"kick\",\"reason\":\"rude\"}"
                    );
                    assert_eq!(parse(&sql).unwrap().text_at("reason"), Some("rude"));
                }
                _ => panic!("no query"),
            }
        }
        _ => panic!("no query"),
    }
}

#[test]
fn an_unreadable_command_is_told_apart() {
    assert_eq!(moderate(&identity(), "!ban", "mod"), Moderation::Unreadable);
    assert_eq!(moderate(&identity(), "!ban @", "mod"), Moderation::Nothing);
    assert_eq!(moderate(&identity(), "hi", "mod"), Moderation::Nothing);
    assert!(matches!(moderate(&identity(), "!timeout x", "mod"), Moderation::Query(_)));
}

#[test]
fn the_stream_is_taken_up_again() {
    let again = StreamAction::Reconnect { after_secs: 5 };
    for event in [
        StreamEvent::RequestRejected,
        StreamEvent::ConnectFailed,
        StreamEvent::SubscribeFailed,
        StreamEvent::Failed,
        StreamEvent::Closed,
    ] {
        assert_eq!(handle_stream_event(&identity(), 1, event), again);
    }
}

#[test]
fn frames_do_not_break_the_stream() {
    let act = |e: StreamEvent| handle_stream_event(&identity(), 1, e);
    assert_eq!(act(StreamEvent::Tick), StreamAction::Continue);
    assert_eq!(act(StreamEvent::OtherFrame), StreamAction::Continue);
    assert_eq!(act(StreamEvent::Ping(vec![1, 2])), StreamAction::Pong(vec![1, 2]));
    assert_eq!(act(StreamEvent::Text("?".to_string())), StreamAction::React(Reaction::Ignore));
    assert_eq!(
        act(StreamEvent::Text(frame("pusher:connection_established", None))),
        StreamAction::React(Reaction::Subscribe(subscribe_text(1)))
    );
}
