use chat_client::json::Json;
use chat_client::objects::{
    instant_field, integer_field, text_field, ChatMessage, Conversation, History, Timestamp,
};

const STAMP: &str = "2023-07-20T11:54:41.108217+00:00";

fn stamp() -> Timestamp {
    Timestamp { seconds: 1689854081, nanos: 108217000 }
}

fn parse(text: &str) -> Json {
    Json::parse(text.as_bytes()).unwrap()
}

fn message_text(uuid: &str, sender: &str, index: &str) -> String {
    format!(
        "{{\"uuid\":\"{}\",\"text\":\"hello\",\"sender\":\"{}\",\"index\":{},\"created_at\":\"{}\",\"updated_at\":\"{}\",\"edited_at\":null,\"chat_feedback\":{{\"type\":\"up\"}},\"attachments\":[{{\"file\":\"a.pdf\"}}]}}",
        uuid, sender, index, STAMP, STAMP
    )
}

#[test]
fn instant_is_read_from_rfc3339() {
    let json = parse("{\"at\":\"2023-07-20T11:54:41.108217+00:00\",\"west\":\"1996-12-19T16:39:57-08:00\",\"z\":\"1970-01-01T00:00:00Z\"}");
    assert_eq!(instant_field(&json, "at"), Some(stamp()));
    assert_eq!(instant_field(&json, "west"), Some(Timestamp { seconds: 851042397, nanos: 0 }));
    assert_eq!(instant_field(&json, "z"), Some(Timestamp { seconds: 0, nanos: 0 }));
}

#[test]
fn instant_is_refused_where_the_text_is_no_date() {
    let json = parse("{\"a\":\"yesterday\",\"b\":\"2023-07-20\",\"c\":1689854081,\"d\":\"2023-07-20 11:54:41\",\"e\":\"2023-13-20T11:54:41Z\"}");
    assert_eq!(instant_field(&json, "a"), None);
    assert_eq!(instant_field(&json, "b"), None);
    assert_eq!(instant_field(&json, "c"), None);
    assert_eq!(instant_field(&json, "e"), None);
    assert_eq!(instant_field(&json, "missing"), None);
}

#[test]
fn fields_are_read_by_kind() {
    let json = parse("{\"s\":\"text\",\"n\":-5,\"f\":1.5,\"big\":9223372036854775808}");
    assert_eq!(text_field(&json, "s"), Some("text".to_string()));
    assert_eq!(text_field(&json, "n"), None);
    assert_eq!(text_field(&json, "missing"), None);
    assert_eq!(integer_field(&json, "n"), Some(-5));
    assert_eq!(integer_field(&json, "f"), None);
    assert_eq!(integer_field(&json, "big"), None);
    assert_eq!(integer_field(&json, "s"), None);
}

#[test]
fn conversation_is_read_from_an_object() {
    let json = parse(&format!(
        "{{\"uuid\":\"c-1\",\"name\":\"first\",\"summary\":\"\",\"created_at\":\"{}\",\"updated_at\":\"1970-01-01T00:00:01Z\",\"extra\":[1,2]}}",
        STAMP
    ));
    let conversation = Conversation::from_json(&json).unwrap();
    assert_eq!(conversation.uuid, "c-1");
    assert_eq!(conversation.name, "first");
    assert_eq!(conversation.summary, "");
    assert_eq!(conversation.created_at, stamp());
    assert_eq!(conversation.updated_at, Timestamp { seconds: 1, nanos: 0 });
}

#[test]
fn conversation_needs_every_field() {
    let whole = format!(
        "{{\"uuid\":\"c\",\"name\":\"n\",\"summary\":\"s\",\"created_at\":\"{}\",\"updated_at\":\"{}\"}}",
        STAMP, STAMP
    );
    assert!(Conversation::from_json(&parse(&whole)).is_some());
    for key in ["uuid", "name", "summary", "created_at", "updated_at"] {
        let without = whole.replace(&format!("\"{}\"", key), "\"other\"");
        assert!(Conversation::from_json(&parse(&without)).is_none());
    }
    assert!(Conversation::from_json(&parse("[]")).is_none());
    assert!(Conversation::from_json(&parse("null")).is_none());
    let wrong_kind = whole.replace("\"name\":\"n\"", "\"name\":5");
    assert!(Conversation::from_json(&parse(&wrong_kind)).is_none());
    let wrong_date = whole.replace(STAMP, "soon");
    assert!(Conversation::from_json(&parse(&wrong_date)).is_none());
}

#[test]
fn listing_is_read_item_by_item() {
    let one = format!(
        "{{\"uuid\":\"a\",\"name\":\"n\",\"summary\":\"s\",\"created_at\":\"{}\",\"updated_at\":\"{}\"}}",
        STAMP, STAMP
    );
    let two = one.replace("\"uuid\":\"a\"", "\"uuid\":\"b\"");
    let listing = Conversation::list_from_json(&parse(&format!("[{},{}]", one, two))).unwrap();
    assert_eq!(listing.len(), 2);
    assert_eq!(listing[0].uuid, "a");
    assert_eq!(listing[1].uuid, "b");
    assert_eq!(Conversation::list_from_json(&parse("[]")).unwrap().len(), 0);
    assert!(Conversation::list_from_json(&parse(&format!("[{},{{}}]", one))).is_none());
    assert!(Conversation::list_from_json(&parse(&one)).is_none());
}

#[test]
fn message_is_read_from_an_object() {
    let message = ChatMessage::from_json(&parse(&message_text("m-1", "human", "3"))).unwrap();
    assert_eq!(
        message,
        ChatMessage {
            uuid: "m-1".to_string(),
            text: "hello".to_string(),
            sender: "human".to_string(),
            index: 3,
            created_at: stamp(),
            updated_at: stamp(),
            edited_at: Json::Null,
            chat_feedback: parse("{\"type\":\"up\"}"),
            attachments: vec![parse("{\"file\":\"a.pdf\"}")],
        }
    );
}

#[test]
fn message_needs_every_field() {
    let whole = message_text("m", "assistant", "0");
    assert!(ChatMessage::from_json(&parse(&whole)).is_some());
    for key in [
        "uuid",
        "text",
        "sender",
        "index",
        "created_at",
        "updated_at",
        "edited_at",
        "chat_feedback",
        "attachments",
    ] {
        let without = whole.replace(&format!("\"{}\":", key), "\"other\":");
        assert!(ChatMessage::from_json(&parse(&without)).is_none());
    }
    assert!(ChatMessage::from_json(&parse(&message_text("m", "human", "1.5"))).is_none());
    assert!(ChatMessage::from_json(&parse(&message_text("m", "human", "\"1\""))).is_none());
    let no_list = whole.replace("[{\"file\":\"a.pdf\"}]", "{}");
    assert!(ChatMessage::from_json(&parse(&no_list)).is_none());
}

#[test]
fn history_is_read_with_its_messages() {
    let text = format!(
        "{{\"uuid\":\"c\",\"name\":\"title\",\"summary\":\"\",\"created_at\":\"{}\",\"updated_at\":\"{}\",\"chat_messages\":[{},{}]}}",
        STAMP,
        STAMP,
        message_text("m0", "human", "0"),
        message_text("m1", "assistant", "1")
    );
    let history = History::from_json(&parse(&text)).unwrap();
    assert_eq!(history.uuid, "c");
    assert_eq!(history.name, "title");
    assert_eq!(history.created_at, stamp());
    assert_eq!(history.chat_messages.len(), 2);
    assert_eq!(history.chat_messages[0].sender, "human");
    assert_eq!(history.chat_messages[0].index, 0);
    assert_eq!(history.chat_messages[1].sender, "assistant");
    assert_eq!(history.chat_messages[1].index, 1);
}

#[test]
fn history_fails_on_one_bad_message() {
    let text = format!(
        "{{\"uuid\":\"c\",\"name\":\"title\",\"summary\":\"\",\"created_at\":\"{}\",\"updated_at\":\"{}\",\"chat_messages\":[{},{{\"uuid\":\"m\"}}]}}",
        STAMP,
        STAMP,
        message_text("m0", "human", "0")
    );
    assert!(History::from_json(&parse(&text)).is_none());
    let no_messages = format!(
        "{{\"uuid\":\"c\",\"name\":\"title\",\"summary\":\"\",\"created_at\":\"{}\",\"updated_at\":\"{}\"}}",
        STAMP, STAMP
    );
    assert!(History::from_json(&parse(&no_messages)).is_none());
}

#[test]
fn default_history_is_empty() {
    let history = History::default();
    assert_eq!(history.name, "");
    assert_eq!(history.chat_messages.len(), 0);
    assert_eq!(history.created_at, Timestamp { seconds: 0, nanos: 0 });
    assert_eq!(ChatMessage::default().edited_at, Json::Null);
}
