//! The records that the service returns, and how they are read from JSON.
//!
//! A record is a JSON object. Its members are looked up by key; members that
//! the schema does not name are ignored, and a member that is missing or of
//! another kind than the schema asks for makes the whole record unreadable.

use vstd::prelude::*;

use crate::json::{Json, JsonTree};
use crate::number::{i64_of, parse_i64};

verus! {

/// An instant: seconds since the start of 1970 in UTC, not counting leap
/// seconds, and the nanoseconds into that second.
#[derive(Clone, Copy, Debug, Default, PartialEq, Eq, Structural)]
pub struct Timestamp {
    pub seconds: i64,
    pub nanos: u32,
}

/// A conversation as the listing shows it.
#[derive(Debug, Clone)]
pub struct Conversation {
    pub uuid: String,
    pub name: String,
    pub summary: String,
    pub created_at: Timestamp,
    pub updated_at: Timestamp,
}

/// A conversation with its messages.
#[derive(Default, Debug, Clone, PartialEq)]
pub struct History {
    pub uuid: String,
    pub name: String,
    pub summary: String,
    pub created_at: Timestamp,
    pub updated_at: Timestamp,
    pub chat_messages: Vec<ChatMessage>,
}

/// One message of a conversation.
#[derive(Default, Debug, Clone, PartialEq)]
pub struct ChatMessage {
    pub uuid: String,
    pub text: String,
    pub sender: String,
    pub index: i64,
    pub created_at: Timestamp,
    pub updated_at: Timestamp,
    pub edited_at: Json,
    pub chat_feedback: Json,
    pub attachments: Vec<Json>,
}

/// The mathematical value of a [`Conversation`].
pub struct ConversationRecord {
    pub uuid: Seq<char>,
    pub name: Seq<char>,
    pub summary: Seq<char>,
    pub created_at: Timestamp,
    pub updated_at: Timestamp,
}

/// The mathematical value of a [`ChatMessage`].
pub struct MessageRecord {
    pub uuid: Seq<char>,
    pub text: Seq<char>,
    pub sender: Seq<char>,
    pub index: i64,
    pub created_at: Timestamp,
    pub updated_at: Timestamp,
    pub edited_at: JsonTree,
    pub chat_feedback: JsonTree,
    pub attachments: Seq<JsonTree>,
}

/// The mathematical value of a [`History`].
pub struct HistoryRecord {
    pub uuid: Seq<char>,
    pub name: Seq<char>,
    pub summary: Seq<char>,
    pub created_at: Timestamp,
    pub updated_at: Timestamp,
    pub chat_messages: Seq<MessageRecord>,
}

impl View for Conversation {
    type V = ConversationRecord;

    open spec fn view(&self) -> ConversationRecord {
        ConversationRecord {
            uuid: self.uuid@,
            name: self.name@,
            summary: self.summary@,
            created_at: self.created_at,
            updated_at: self.updated_at,
        }
    }
}

impl View for ChatMessage {
    type V = MessageRecord;

    open spec fn view(&self) -> MessageRecord {
        MessageRecord {
            uuid: self.uuid@,
            text: self.text@,
            sender: self.sender@,
            index: self.index,
            created_at: self.created_at,
            updated_at: self.updated_at,
            edited_at: self.edited_at@,
            chat_feedback: self.chat_feedback@,
            attachments: Seq::new(self.attachments@.len(), |i: int| self.attachments@[i]@),
        }
    }
}

impl View for History {
    type V = HistoryRecord;

    open spec fn view(&self) -> HistoryRecord {
        HistoryRecord {
            uuid: self.uuid@,
            name: self.name@,
            summary: self.summary@,
            created_at: self.created_at,
            updated_at: self.updated_at,
            chat_messages: Seq::new(self.chat_messages@.len(), |i: int| self.chat_messages@[i]@),
        }
    }
}

/// The instant that `chrono` reads from `text` as an RFC 3339 date and time;
/// nothing where `text` is none.
pub uninterp spec fn rfc3339_instant(text: Seq<char>) -> Option<Timestamp>;

/// `chrono::DateTime::parse_from_rfc3339`, with the instant taken from the
/// date by `timestamp` and `timestamp_subsec_nanos`. The result depends on
/// the text alone: the offset that the text names is applied, the time zone
/// of the machine is not consulted.
#[verifier::external_body]
pub(crate) fn parse_rfc3339(text: &str) -> (instant: Option<Timestamp>)
    ensures
        instant == rfc3339_instant(text@),
{
    chrono::DateTime::parse_from_rfc3339(text).ok().map(
        |t| Timestamp { seconds: t.timestamp(), nanos: t.timestamp_subsec_nanos() },
    )
}

/// The text that `tree` holds under `key`.
pub open spec fn text_at(tree: JsonTree, key: Seq<char>) -> Option<Seq<char>> {
    match tree.member(key) {
        Some(value) => value.text(),
        None => None,
    }
}

/// The instant that `tree` holds under `key`, as an RFC 3339 text.
pub open spec fn instant_at(tree: JsonTree, key: Seq<char>) -> Option<Timestamp> {
    match text_at(tree, key) {
        Some(text) => rfc3339_instant(text),
        None => None,
    }
}

/// The integer that `tree` holds under `key`.
pub open spec fn integer_at(tree: JsonTree, key: Seq<char>) -> Option<i64> {
    match tree.member(key) {
        Some(value) => match value.number() {
            Some(digits) => i64_of(digits),
            None => None,
        },
        None => None,
    }
}

/// The list that `tree` holds under `key`.
pub open spec fn list_at(tree: JsonTree, key: Seq<char>) -> Option<Seq<JsonTree>> {
    match tree.member(key) {
        Some(value) => value.list(),
        None => None,
    }
}

/// The conversation that `tree` describes.
pub open spec fn conversation_of(tree: JsonTree) -> Option<ConversationRecord> {
    if text_at(tree, "uuid"@) is Some && text_at(tree, "name"@) is Some && text_at(
        tree,
        "summary"@,
    ) is Some && instant_at(tree, "created_at"@) is Some && instant_at(tree, "updated_at"@)
        is Some {
        Some(
            ConversationRecord {
                uuid: text_at(tree, "uuid"@)->0,
                name: text_at(tree, "name"@)->0,
                summary: text_at(tree, "summary"@)->0,
                created_at: instant_at(tree, "created_at"@)->0,
                updated_at: instant_at(tree, "updated_at"@)->0,
            },
        )
    } else {
        None
    }
}

/// The message that `tree` describes.
pub open spec fn message_of(tree: JsonTree) -> Option<MessageRecord> {
    if text_at(tree, "uuid"@) is Some && text_at(tree, "text"@) is Some && text_at(
        tree,
        "sender"@,
    ) is Some && integer_at(tree, "index"@) is Some && instant_at(tree, "created_at"@) is Some
        && instant_at(tree, "updated_at"@) is Some && tree.member("edited_at"@) is Some
        && tree.member("chat_feedback"@) is Some && list_at(tree, "attachments"@) is Some {
        Some(
            MessageRecord {
                uuid: text_at(tree, "uuid"@)->0,
                text: text_at(tree, "text"@)->0,
                sender: text_at(tree, "sender"@)->0,
                index: integer_at(tree, "index"@)->0,
                created_at: instant_at(tree, "created_at"@)->0,
                updated_at: instant_at(tree, "updated_at"@)->0,
                edited_at: tree.member("edited_at"@)->0,
                chat_feedback: tree.member("chat_feedback"@)->0,
                attachments: list_at(tree, "attachments"@)->0,
            },
        )
    } else {
        None
    }
}

/// The conversations that a list describes: each of its items is one.
pub open spec fn conversations_of(tree: JsonTree) -> Option<Seq<ConversationRecord>> {
    match tree.list() {
        Some(items) => if forall|i: int|
            0 <= i < items.len() ==> conversation_of(#[trigger] items[i]) is Some {
            Some(Seq::new(items.len(), |i: int| conversation_of(items[i])->0))
        } else {
            None
        },
        None => None,
    }
}

/// The messages that a list describes: each of its items is one.
pub open spec fn messages_of(items: Seq<JsonTree>) -> Option<Seq<MessageRecord>> {
    if forall|i: int| 0 <= i < items.len() ==> message_of(#[trigger] items[i]) is Some {
        Some(Seq::new(items.len(), |i: int| message_of(items[i])->0))
    } else {
        None
    }
}

/// The history that `tree` describes.
pub open spec fn history_of(tree: JsonTree) -> Option<HistoryRecord> {
    if text_at(tree, "uuid"@) is Some && text_at(tree, "name"@) is Some && text_at(
        tree,
        "summary"@,
    ) is Some && instant_at(tree, "created_at"@) is Some && instant_at(tree, "updated_at"@)
        is Some && list_at(tree, "chat_messages"@) is Some && messages_of(
        list_at(tree, "chat_messages"@)->0,
    ) is Some {
        Some(
            HistoryRecord {
                uuid: text_at(tree, "uuid"@)->0,
                name: text_at(tree, "name"@)->0,
                summary: text_at(tree, "summary"@)->0,
                created_at: instant_at(tree, "created_at"@)->0,
                updated_at: instant_at(tree, "updated_at"@)->0,
                chat_messages: messages_of(list_at(tree, "chat_messages"@)->0)->0,
            },
        )
    } else {
        None
    }
}

/// The text that `json` holds under `key`.
pub fn text_field(json: &Json, key: &str) -> (text: Option<String>)
    ensures
        text is Some <==> text_at(json@, key@) is Some,
        text is Some ==> text->0@ == text_at(json@, key@)->0,
{
    match json.get(key) {
        Some(value) => match value.as_text() {
            Some(text) => Some(text.clone()),
            None => None,
        },
        None => None,
    }
}

/// The instant that `json` holds under `key`.
pub fn instant_field(json: &Json, key: &str) -> (instant: Option<Timestamp>)
    ensures
        instant == instant_at(json@, key@),
{
    match json.get(key) {
        Some(value) => match value.as_text() {
            Some(text) => parse_rfc3339(text.as_str()),
            None => None,
        },
        None => None,
    }
}

/// The integer that `json` holds under `key`.
pub fn integer_field(json: &Json, key: &str) -> (value: Option<i64>)
    ensures
        value == integer_at(json@, key@),
{
    match json.get(key) {
        Some(value) => match value.as_number() {
            Some(digits) => parse_i64(digits.as_str()),
            None => None,
        },
        None => None,
    }
}

/// Copies of the items of a list.
pub fn copy_items(items: &Vec<Json>) -> (copies: Vec<Json>)
    ensures
        copies@.len() == items@.len(),
        forall|i: int| 0 <= i < items@.len() ==> (#[trigger] copies@[i])@ == items@[i]@,
{
    let mut copies: Vec<Json> = Vec::new();
    let mut i: usize = 0;
    while i < items.len()
        invariant
            i <= items@.len(),
            copies@.len() == i,
            forall|j: int| 0 <= j < i ==> (#[trigger] copies@[j])@ == items@[j]@,
        decreases items@.len() - i,
    {
        copies.push(items[i].clone());
        i = i + 1;
    }
    copies
}

impl Conversation {
    /// Reads a conversation from the JSON object that describes it.
    pub fn from_json(json: &Json) -> (conversation: Option<Conversation>)
        ensures
            conversation is Some <==> conversation_of(json@) is Some,
            conversation is Some ==> conversation->0@ == conversation_of(json@)->0,
    {
        let uuid = text_field(json, "uuid");
        let name = text_field(json, "name");
        let summary = text_field(json, "summary");
        let created_at = instant_field(json, "created_at");
        let updated_at = instant_field(json, "updated_at");
        match (uuid, name, summary, created_at, updated_at) {
            (Some(uuid), Some(name), Some(summary), Some(created_at), Some(updated_at)) => Some(
                Conversation { uuid, name, summary, created_at, updated_at },
            ),
            _ => None,
        }
    }

    /// Reads the conversations of a listing: a JSON list of conversations.
    pub fn list_from_json(json: &Json) -> (conversations: Option<Vec<Conversation>>)
        ensures
            conversations is Some <==> conversations_of(json@) is Some,
            conversations is Some ==> conversations->0@.len() == conversations_of(json@)->0.len(),
            conversations is Some ==> forall|i: int|
                0 <= i < conversations->0@.len() ==> (#[trigger] conversations->0@[i])@
                    == conversations_of(json@)->0[i],
    {
        let items = match json.as_list() {
            Some(items) => items,
            None => {
                return None;
            },
        };
        let ghost trees = json@.list()->0;
        let mut conversations: Vec<Conversation> = Vec::new();
        let mut i: usize = 0;
        while i < items.len()
            invariant
                i <= items@.len(),
                json@.list() == Some(trees),
                trees.len() == items@.len(),
                forall|j: int| 0 <= j < items@.len() ==> (#[trigger] items@[j])@ == trees[j],
                conversations@.len() == i,
                forall|j: int| 0 <= j < i ==> conversation_of(#[trigger] trees[j]) is Some,
                forall|j: int|
                    0 <= j < i ==> (#[trigger] conversations@[j])@ == conversation_of(trees[j])->0,
            decreases items@.len() - i,
        {
            match Conversation::from_json(&items[i]) {
                Some(conversation) => {
                    conversations.push(conversation);
                },
                None => {
                    assert(conversation_of(trees[i as int]) is None);
                    return None;
                },
            }
            i = i + 1;
        }
        Some(conversations)
    }
}

impl ChatMessage {
    /// Reads a message from the JSON object that describes it.
    pub fn from_json(json: &Json) -> (message: Option<ChatMessage>)
        ensures
            message is Some <==> message_of(json@) is Some,
            message is Some ==> message->0@ == message_of(json@)->0,
    {
        let uuid = text_field(json, "uuid");
        let text = text_field(json, "text");
        let sender = text_field(json, "sender");
        let index = integer_field(json, "index");
        let created_at = instant_field(json, "created_at");
        let updated_at = instant_field(json, "updated_at");
        let edited_at = json.get("edited_at");
        let chat_feedback = json.get("chat_feedback");
        let attachments = match json.get("attachments") {
            Some(value) => value.as_list(),
            None => None,
        };
        match (
            uuid,
            text,
            sender,
            index,
            created_at,
            updated_at,
            edited_at,
            chat_feedback,
            attachments,
        ) {
            (
                Some(uuid),
                Some(text),
                Some(sender),
                Some(index),
                Some(created_at),
                Some(updated_at),
                Some(edited_at),
                Some(chat_feedback),
                Some(attachments),
            ) => {
                let message = ChatMessage {
                    uuid,
                    text,
                    sender,
                    index,
                    created_at,
                    updated_at,
                    edited_at: edited_at.clone(),
                    chat_feedback: chat_feedback.clone(),
                    attachments: copy_items(attachments),
                };
                assert(message@.attachments =~= message_of(json@)->0.attachments);
                Some(message)
            },
            _ => None,
        }
    }

    /// Reads the messages of a history from the items of a JSON list.
    pub fn list_from_json(items: &Vec<Json>) -> (messages: Option<Vec<ChatMessage>>)
        ensures
            messages is Some <==> messages_of(Seq::new(items@.len(), |i: int| items@[i]@)) is Some,
            messages is Some ==> messages->0@.len() == items@.len(),
            messages is Some ==> forall|i: int|
                0 <= i < items@.len() ==> (#[trigger] messages->0@[i])@ == message_of(
                    items@[i]@,
                )->0,
    {
        let ghost trees = Seq::new(items@.len(), |i: int| items@[i]@);
        let mut messages: Vec<ChatMessage> = Vec::new();
        let mut i: usize = 0;
        while i < items.len()
            invariant
                i <= items@.len(),
                trees == Seq::new(items@.len(), |i: int| items@[i]@),
                messages@.len() == i,
                forall|j: int| 0 <= j < i ==> message_of(#[trigger] trees[j]) is Some,
                forall|j: int|
                    0 <= j < i ==> (#[trigger] messages@[j])@ == message_of(items@[j]@)->0,
            decreases items@.len() - i,
        {
            match ChatMessage::from_json(&items[i]) {
                Some(message) => {
                    messages.push(message);
                },
                None => {
                    assert(message_of(trees[i as int]) is None);
                    return None;
                },
            }
            i = i + 1;
        }
        Some(messages)
    }
}

impl History {
    /// Reads a history from the JSON object that describes it.
    pub fn from_json(json: &Json) -> (history: Option<History>)
        ensures
            history is Some <==> history_of(json@) is Some,
            history is Some ==> history->0@ == history_of(json@)->0,
    {
        let uuid = text_field(json, "uuid");
        let name = text_field(json, "name");
        let summary = text_field(json, "summary");
        let created_at = instant_field(json, "created_at");
        let updated_at = instant_field(json, "updated_at");
        let items = match json.get("chat_messages") {
            Some(value) => value.as_list(),
            None => None,
        };
        match (uuid, name, summary, created_at, updated_at, items) {
            (
                Some(uuid),
                Some(name),
                Some(summary),
                Some(created_at),
                Some(updated_at),
                Some(items),
            ) => {
                let ghost trees = list_at(json@, "chat_messages"@)->0;
                assert(trees =~= Seq::new(items@.len(), |i: int| items@[i]@));
                match ChatMessage::list_from_json(items) {
                    Some(chat_messages) => {
                        let history = History {
                            uuid,
                            name,
                            summary,
                            created_at,
                            updated_at,
                            chat_messages,
                        };
                        assert(history@.chat_messages =~= messages_of(trees)->0);
                        Some(history)
                    },
                    None => None,
                }
            },
            _ => None,
        }
    }
}

} // verus!
