use chat_client::api::{
    Client, Handshake, Service, ATTACHMENT_FILE_NAME, ATTACHMENT_MIME, NEW_CHAT_NAME, TIMEZONE,
};
use chat_client::error::ClientError;
use chat_client::json::{Json, Member};
use chat_client::transport::{Form, Method, Outcome, Payload, Request, UploadOutcome};

const STAMP: &str = "2023-07-20T11:54:41.108217+00:00";

fn session() -> Client {
    let handshake = Handshake::begin(
        Service::new("chat.example", "model-2"),
        "sessionKey=abc",
        &vec!["http://127.0.0.1:8088".to_string()],
    )
    .unwrap();
    Client::try_new(handshake, &replied("[{\"uuid\":\"org-1\"}]")).unwrap()
}

fn replied(text: &str) -> Outcome {
    Outcome::Replied(text.as_bytes().to_vec())
}

fn body_of(request: &Request) -> String {
    match &request.payload {
        Payload::Body(text) => text.clone(),
        other => panic!("no body: {:?}", other),
    }
}

fn history_text(id: &str, name: &str, messages: &[(&str, &str)]) -> String {
    let messages: Vec<String> = messages
        .iter()
        .enumerate()
        .map(|(index, (sender, text))| {
            format!(
                "{{\"uuid\":\"m{}\",\"text\":\"{}\",\"sender\":\"{}\",\"index\":{},\"created_at\":\"{}\",\"updated_at\":\"{}\",\"edited_at\":null,\"chat_feedback\":null,\"attachments\":[]}}",
                index, text, sender, index, STAMP, STAMP
            )
        })
        .collect();
    format!(
        "{{\"uuid\":\"{}\",\"name\":\"{}\",\"summary\":\"\",\"created_at\":\"{}\",\"updated_at\":\"{}\",\"chat_messages\":[{}]}}",
        id,
        name,
        STAMP,
        STAMP,
        messages.join(",")
    )
}

fn is_uuid(id: &str) -> bool {
    let chars: Vec<char> = id.chars().collect();
    chars.len() == 36
        && chars.iter().enumerate().all(|(i, c)| {
            if i == 8 || i == 13 || i == 18 || i == 23 {
                *c == '-'
            } else {
                c.is_ascii_digit() || ('a'..='f').contains(c)
            }
        })
        && chars[14] == '4'
        && "89ab".contains(chars[19])
}

#[test]
fn constants_are_the_fixed_values() {
    assert_eq!(NEW_CHAT_NAME, "test");
    assert_eq!(ATTACHMENT_FILE_NAME, "demo.pdf");
    assert_eq!(ATTACHMENT_MIME, "application/pdf");
    assert_eq!(TIMEZONE, "Asia/Kolkata");
}

#[test]
fn listing_request_gets_the_collection() {
    assert_eq!(
        session().list_all_conversations_request(),
        Request {
            method: Method::Get,
            url: "https://chat.example/api/organizations/org-1/chat_conversations".to_string(),
            payload: Payload::Empty,
        }
    );
}

#[test]
fn listing_is_decoded() {
    let client = session();
    let text = format!(
        "[{{\"uuid\":\"a\",\"name\":\"one\",\"summary\":\"s\",\"created_at\":\"{}\",\"updated_at\":\"{}\"}}]",
        STAMP, STAMP
    );
    let listing = client.list_all_conversations(&replied(&text)).unwrap();
    assert_eq!(listing.len(), 1);
    assert_eq!(listing[0].uuid, "a");
    assert_eq!(listing[0].name, "one");
    assert_eq!(listing[0].created_at.seconds, 1689854081);
    assert_eq!(client.list_all_conversations(&replied("[]")).unwrap().len(), 0);
}

#[test]
fn listing_fails_on_schema_mismatch_and_on_transport() {
    let client = session();
    assert_eq!(client.list_all_conversations(&replied("{}")).err(), Some(ClientError::Decode));
    assert_eq!(client.list_all_conversations(&replied("[{}]")).err(), Some(ClientError::Decode));
    assert_eq!(client.list_all_conversations(&replied("oops")).err(), Some(ClientError::Decode));
    assert_eq!(client.list_all_conversations(&Outcome::Failed).err(), Some(ClientError::Transport));
}

#[test]
fn new_conversation_ids_are_uuids_and_differ() {
    let first = Client::new_conversation_id();
    let second = Client::new_conversation_id();
    assert_eq!(first.len(), 36);
    assert!(is_uuid(&first));
    assert!(is_uuid(&second));
    assert_ne!(first, second);
}

#[test]
fn create_request_posts_id_and_default_name() {
    let request = session().create_chat_conversation_request("42ead3c7-4cb6-4599-a26f-e6e87b6d54db");
    assert_eq!(
        request,
        Request {
            method: Method::Post,
            url: "https://chat.example/api/organizations/org-1/chat_conversations".to_string(),
            payload: Payload::Body(
                "{\"name\":\"test\",\"uuid\":\"42ead3c7-4cb6-4599-a26f-e6e87b6d54db\"}".to_string()
            ),
        }
    );
}

#[test]
fn create_start_uses_a_fresh_uuid() {
    let client = session();
    let (id, request) = client.create_chat_conversation_start();
    assert!(is_uuid(&id));
    assert_eq!(request, client.create_chat_conversation_request(&id));
    let (other, _) = client.create_chat_conversation_start();
    assert_ne!(id, other);
}

#[test]
fn create_returns_the_id_on_any_reply() {
    let client = session();
    assert_eq!(client.create_chat_conversation("id-1".to_string(), &replied("{}")), Ok("id-1".to_string()));
    assert_eq!(
        client.create_chat_conversation("id-1".to_string(), &replied("not even json")),
        Ok("id-1".to_string())
    );
    assert_eq!(
        client.create_chat_conversation("id-1".to_string(), &Outcome::Failed),
        Err(ClientError::Operation)
    );
}

#[test]
fn delete_request_names_the_conversation() {
    assert_eq!(
        session().delete_chat_conversation_request("conv-7"),
        Request {
            method: Method::Delete,
            url: "https://chat.example/api/organizations/org-1/chat_conversations/conv-7".to_string(),
            payload: Payload::Empty,
        }
    );
}

#[test]
fn delete_succeeds_when_the_request_completed() {
    let client = session();
    assert_eq!(client.delete_chat_conversation(&replied("")), Ok(()));
    assert_eq!(client.delete_chat_conversation(&replied("{\"error\":1}")), Ok(()));
    assert_eq!(client.delete_chat_conversation(&Outcome::Failed), Err(ClientError::Operation));
}

#[test]
fn rename_request_posts_the_new_title() {
    let request = session().rename_chat_conversation_request("conv-7", "new \"title\" xxx");
    assert_eq!(
        request,
        Request {
            method: Method::Post,
            url: "https://chat.example/api/rename_chat".to_string(),
            payload: Payload::Body(
                "{\"conversation_uuid\":\"conv-7\",\"organization_uuid\":\"org-1\",\"title\":\"new \\\"title\\\" xxx\"}"
                    .to_string()
            ),
        }
    );
}

#[test]
fn rename_succeeds_when_the_request_completed() {
    let client = session();
    assert_eq!(client.rename_chat_conversation(&replied("whatever")), Ok(()));
    assert_eq!(client.rename_chat_conversation(&Outcome::Failed), Err(ClientError::Operation));
}

#[test]
fn upload_request_is_a_form_with_the_file() {
    assert_eq!(
        session().upload_attachment_request("/tmp/report.pdf"),
        Request {
            method: Method::Post,
            url: "https://chat.example/api/convert_document".to_string(),
            payload: Payload::Form(Form {
                org_uuid: "org-1".to_string(),
                file_path: "/tmp/report.pdf".to_string(),
                file_name: "demo.pdf".to_string(),
                mime: "application/pdf".to_string(),
            }),
        }
    );
}

#[test]
fn upload_of_a_file_that_cannot_be_opened_is_an_io_error() {
    assert_eq!(session().upload_attachment(&UploadOutcome::Unreadable), Err(ClientError::Io));
}

#[test]
fn test_upload_attachment_alone() {
    let client = session();
    let request = client.upload_attachment_request("/Users/zc/Downloads/gdb_cheat_sheet2.pdf");
    match request.payload {
        Payload::Form(form) => assert_eq!(form.file_path, "/Users/zc/Downloads/gdb_cheat_sheet2.pdf"),
        other => panic!("no form: {:?}", other),
    }
    let descriptor = client
        .upload_attachment(&UploadOutcome::Sent(replied(
            "{\"file_name\":\"demo.pdf\",\"file_size\":1024,\"extracted_content\":\"text\"}",
        )))
        .unwrap();
    assert_eq!(descriptor.get("file_name"), Some(&Json::Text("demo.pdf".to_string())));
    assert_eq!(descriptor.get("file_size"), Some(&Json::Number("1024".to_string())));
}

#[test]
fn upload_fails_on_transport_and_on_what_is_not_json() {
    let client = session();
    assert_eq!(
        client.upload_attachment(&UploadOutcome::Sent(Outcome::Failed)),
        Err(ClientError::Transport)
    );
    assert_eq!(
        client.upload_attachment(&UploadOutcome::Sent(replied("<html>"))),
        Err(ClientError::Decode)
    );
    assert_eq!(client.upload_attachment(&UploadOutcome::Sent(replied("7"))), Ok(Json::Number("7".to_string())));
}

#[test]
fn message_without_attachment_has_an_empty_list() {
    let request = session().send_message_request("conv-7", "hello world", None).unwrap();
    assert_eq!(request.method, Method::Post);
    assert_eq!(request.url, "https://chat.example/api/append_message");
    assert_eq!(
        body_of(&request),
        "{\"attachments\":[],\"completion\":{\"model\":\"model-2\",\"prompt\":\"hello world\",\"timezone\":\"Asia/Kolkata\"},\"conversation_uuid\":\"conv-7\",\"organization_uuid\":\"org-1\",\"text\":\"hello world\"}"
    );
}

#[test]
fn message_with_attachment_carries_its_json_text() {
    let descriptor = Json::Object(vec![
        Member { key: "file_size".to_string(), value: Json::Number("10".to_string()) },
        Member { key: "file_name".to_string(), value: Json::Text("a.pdf".to_string()) },
    ]);
    let request = session().send_message_request("c", "p", Some(Ok(descriptor))).unwrap();
    assert_eq!(
        body_of(&request),
        "{\"attachments\":[\"{\\\"file_name\\\":\\\"a.pdf\\\",\\\"file_size\\\":10}\"],\"completion\":{\"model\":\"model-2\",\"prompt\":\"p\",\"timezone\":\"Asia/Kolkata\"},\"conversation_uuid\":\"c\",\"organization_uuid\":\"org-1\",\"text\":\"p\"}"
    );
}

#[test]
fn message_after_a_failed_upload_is_not_sent() {
    let client = session();
    assert_eq!(client.send_message_request("c", "p", Some(Err(ClientError::Io))), Err(ClientError::Io));
    assert_eq!(
        client.send_message_request("c", "p", Some(Err(ClientError::Transport))),
        Err(ClientError::Transport)
    );
    assert_eq!(
        client.send_message_request("c", "p", Some(Err(ClientError::Decode))),
        Err(ClientError::Decode)
    );
    assert_eq!(
        client.send_message_request("c", "p", Some(Ok(Json::Number("x".to_string())))),
        Err(ClientError::Decode)
    );
}

#[test]
fn message_reply_is_the_terminal_record() {
    let client = session();
    let stream = "data: {\"completion\":\" Hel\",\"stop\":null}\n\ndata: {\"completion\":\" Hello\",\"stop\":\"end\"}\n\n";
    let answer = client.send_message(&replied(stream)).unwrap();
    assert_eq!(answer.get("completion"), Some(&Json::Text(" Hello".to_string())));
    assert_eq!(answer.get("stop"), Some(&Json::Text("end".to_string())));
}

#[test]
fn message_reply_fails_on_format_and_on_transport() {
    let client = session();
    assert_eq!(client.send_message(&replied("")), Err(ClientError::Format));
    assert_eq!(client.send_message(&replied("data: nope")), Err(ClientError::Format));
    assert_eq!(client.send_message(&replied("{}")), Err(ClientError::Format));
    assert_eq!(client.send_message(&Outcome::Failed), Err(ClientError::Operation));
}

#[test]
fn history_request_gets_the_conversation() {
    assert_eq!(
        session().chat_conversation_history_request("conv-7"),
        Request {
            method: Method::Get,
            url: "https://chat.example/api/organizations/org-1/chat_conversations/conv-7".to_string(),
            payload: Payload::Empty,
        }
    );
}

#[test]
fn history_fails_on_schema_mismatch_and_on_transport() {
    let client = session();
    assert_eq!(client.chat_conversation_history(&replied("[]")).err(), Some(ClientError::Decode));
    assert_eq!(
        client.chat_conversation_history(&replied("{\"detail\":\"not found\"}")).err(),
        Some(ClientError::Decode)
    );
    assert_eq!(client.chat_conversation_history(&replied("")).err(), Some(ClientError::Decode));
    assert_eq!(client.chat_conversation_history(&Outcome::Failed).err(), Some(ClientError::Operation));
}

#[test]
fn test_full_workflow() {
    let client = session();

    let (new_conversation_id, create) = client.create_chat_conversation_start();
    assert_eq!(create.method, Method::Post);
    let new_conversation_id = client
        .create_chat_conversation(new_conversation_id, &replied("{}"))
        .unwrap();

    let his = client
        .chat_conversation_history(&replied(&history_text(&new_conversation_id, "test", &[])))
        .unwrap();
    assert!(his.name == NEW_CHAT_NAME);
    assert!(his.chat_messages.len() == 0);

    let new_title = "new title xxx";
    let rename = client.rename_chat_conversation_request(&new_conversation_id, new_title);
    assert!(body_of(&rename).contains("\"title\":\"new title xxx\""));
    client.rename_chat_conversation(&replied("{}")).unwrap();

    let send = client.send_message_request(&new_conversation_id, "hello world", None).unwrap();
    assert!(body_of(&send).contains("\"text\":\"hello world\""));
    let answer = client
        .send_message(&replied("data: {\"completion\":\" Hi\"}\n\ndata: {\"completion\":\" Hi there\"}\n\n"))
        .unwrap();
    println!("response: {}", answer.render().unwrap());

    let his = client
        .chat_conversation_history(&replied(&history_text(
            &new_conversation_id,
            new_title,
            &[("human", "hello world"), ("assistant", " Hi there")],
        )))
        .unwrap();
    for message in &his.chat_messages {
        println!("{}:{}", message.sender, message.text);
    }
    assert!(his.chat_messages.len() == 2);
    assert!(his.chat_messages.iter().filter(|m| m.sender == "human").count() == 1);
    assert!(his.chat_messages.iter().filter(|m| m.sender == "assistant").count() == 1);
    assert!(his.name == new_title);

    let delete = client.delete_chat_conversation_request(&new_conversation_id);
    assert_eq!(delete.method, Method::Delete);
    client.delete_chat_conversation(&replied("")).unwrap();

    let gone = client.chat_conversation_history(&replied("{\"detail\":\"Not found\"}"));
    assert_eq!(gone.err(), Some(ClientError::Decode));
}
