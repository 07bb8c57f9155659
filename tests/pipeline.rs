use telegram_pinned::collect::{collect_all, chat_to_messages, ChatLookup, CollectError, PinnedItem};
use telegram_pinned::date::Date;
use telegram_pinned::message::Message;
use telegram_pinned::order::{order_by_date, text_less_eq};
use telegram_pinned::upload::{
    batch_to_json, message_to_json, plan_upload, provider_supported, UploadError,
    JSON_CONTENT_TYPE, UPLOAD_ENDPOINT, UPLOAD_FOLDER_ID,
};

fn date(y: i32, m: u32, d: u32) -> Date {
    Date::new(y, m, d).unwrap()
}

fn item(sender: &str, text: &str, y: i32, m: u32, d: u32) -> PinnedItem {
    PinnedItem {
        has_media: false,
        sender_handle: Some(sender.to_string()),
        text: text.to_string(),
        date: date(y, m, d),
    }
}

fn summary(messages: &[Message]) -> Vec<(String, String, String)> {
    messages.iter().map(|m| (m.sender.clone(), m.text.clone(), m.date.clone())).collect()
}

#[test]
fn two_chats_ordered_by_date_with_discovery_tie_break() {
    let alpha = vec![
        item("alpha_user", "alpha first", 2023, 5, 1),
        item("alpha_user", "alpha second", 2023, 1, 10),
    ];
    let beta = vec![item("beta_user", "beta only", 2023, 1, 10)];
    let chats = vec![ChatLookup::Found(alpha), ChatLookup::Found(beta)];
    let out = collect_all(&chats).unwrap();
    assert_eq!(
        summary(&out),
        vec![
            ("alpha_user".to_string(), "alpha second".to_string(), "2023-01-10".to_string()),
            ("beta_user".to_string(), "beta only".to_string(), "2023-01-10".to_string()),
            ("alpha_user".to_string(), "alpha first".to_string(), "2023-05-01".to_string()),
        ]
    );
}

#[test]
fn missing_chat_fails_whole_run() {
    let chats = vec![
        ChatLookup::Found(vec![item("a", "kept before", 2022, 3, 3)]),
        ChatLookup::NotFound,
        ChatLookup::Found(vec![item("b", "after", 2022, 4, 4)]),
    ];
    assert!(matches!(collect_all(&chats), Err(CollectError::ChatNotFound { chat: 1 })));
}

#[test]
fn no_chats_gives_empty_batch_and_upload() {
    let chats: Vec<ChatLookup> = Vec::new();
    let out = collect_all(&chats).unwrap();
    assert!(out.is_empty());
    let plan = plan_upload("gofile", "tok", &out, &date(2024, 6, 7)).unwrap();
    assert_eq!(plan.payload, "[]");
}

#[test]
fn media_items_are_excluded() {
    let media = PinnedItem {
        has_media: true,
        sender_handle: None,
        text: "picture".to_string(),
        date: date(2020, 1, 1),
    };
    let items = vec![item("x", "one", 2021, 2, 2), media, item("y", "two", 2021, 2, 3)];
    let out = chat_to_messages(&items).unwrap();
    assert_eq!(
        summary(&out),
        vec![
            ("x".to_string(), "one".to_string(), "2021-02-02".to_string()),
            ("y".to_string(), "two".to_string(), "2021-02-03".to_string()),
        ]
    );
}

#[test]
fn sender_without_handle_is_fatal() {
    let nameless = PinnedItem {
        has_media: false,
        sender_handle: None,
        text: "who".to_string(),
        date: date(2020, 1, 1),
    };
    let chats = vec![
        ChatLookup::Found(vec![item("a", "fine", 2020, 1, 2)]),
        ChatLookup::Found(vec![nameless]),
    ];
    assert!(matches!(collect_all(&chats), Err(CollectError::MissingSenderHandle { chat: 1 })));
    assert!(chat_to_messages(&vec![]).unwrap().is_empty());
}

#[test]
fn unsupported_provider_is_refused() {
    let msgs = vec![Message::new("a", "b", "2020-01-01")];
    assert!(!provider_supported("dropbox"));
    assert!(provider_supported("gofile"));
    assert!(matches!(
        plan_upload("dropbox", "tok", &msgs, &date(2024, 1, 1)),
        Err(UploadError::UnsupportedProvider)
    ));
    assert!(plan_upload("", "tok", &msgs, &date(2024, 1, 1)).is_err());
}

#[test]
fn upload_plan_fields() {
    let msgs = vec![Message::new("s", "t", "2023-01-01")];
    let plan = plan_upload("gofile", "secret-token", &msgs, &date(2024, 6, 7)).unwrap();
    assert_eq!(plan.file_name, "2024-06-07.json");
    assert_eq!(plan.endpoint, UPLOAD_ENDPOINT);
    assert_eq!(plan.folder_id, UPLOAD_FOLDER_ID);
    assert_eq!(plan.content_type, JSON_CONTENT_TYPE);
    assert_eq!(plan.bearer_token, "secret-token");
    assert_eq!(plan.payload, r#"[{"sender":"s","text":"t","date":"2023-01-01"}]"#);
}

#[test]
fn json_escapes_texts() {
    let m = Message::new("s", "say \"hi\"\n", "2023-01-01");
    assert_eq!(
        message_to_json(&m),
        r#"{"sender":"s","text":"say \"hi\"\n","date":"2023-01-01"}"#
    );
}

#[test]
fn json_round_trip_keeps_fields() {
    let msgs = vec![
        Message::new("alice", "", "2023-01-10"),
        Message::new("bob", "quote \" back\\slash \u{e9}t\u{e9}\ttab", "2023-05-01"),
        Message::new("carol", "line\nbreak", "1999-12-31"),
    ];
    let text = batch_to_json(&msgs);
    let parsed: serde_json::Value = serde_json::from_str(&text).unwrap();
    let arr = parsed.as_array().unwrap();
    assert_eq!(arr.len(), msgs.len());
    for (v, m) in arr.iter().zip(msgs.iter()) {
        let obj = v.as_object().unwrap();
        assert_eq!(obj.len(), 3);
        assert_eq!(obj["sender"].as_str().unwrap(), m.sender);
        assert_eq!(obj["text"].as_str().unwrap(), m.text);
        assert_eq!(obj["date"].as_str().unwrap(), m.date);
    }
}

#[test]
fn sort_is_stable_and_ascending() {
    let msgs = vec![
        Message::new("a", "1", "2023-03-01"),
        Message::new("b", "2", "2023-01-01"),
        Message::new("c", "3", "2023-03-01"),
        Message::new("d", "4", "2022-12-31"),
        Message::new("e", "5", "2023-01-01"),
    ];
    let out = order_by_date(&msgs);
    let senders: Vec<String> = out.iter().map(|m| m.sender.clone()).collect();
    assert_eq!(senders, vec!["d", "b", "e", "a", "c"]);
    assert!(order_by_date(&vec![]).is_empty());
}

#[test]
fn lexicographic_text_order() {
    assert!(text_less_eq("2023-01-10", "2023-05-01"));
    assert!(!text_less_eq("2023-05-01", "2023-01-10"));
    assert!(text_less_eq("2023-01-10", "2023-01-10"));
    assert!(text_less_eq("", "a"));
    assert!(!text_less_eq("ab", "a"));
    assert!(text_less_eq("a", "ab"));
}

#[test]
fn dates_are_checked_and_written_iso() {
    assert!(Date::new(2023, 2, 29).is_none());
    assert!(Date::new(2024, 2, 29).is_some());
    assert!(Date::new(1900, 2, 29).is_none());
    assert!(Date::new(2000, 2, 29).is_some());
    assert!(Date::new(2023, 13, 1).is_none());
    assert!(Date::new(2023, 4, 31).is_none());
    assert!(Date::new(2023, 0, 1).is_none());
    assert!(Date::new(10000, 1, 1).is_none());
    assert!(Date::new(-1, 1, 1).is_none());
    let d = date(987, 3, 4);
    assert_eq!(d.to_iso(), "0987-03-04");
    assert_eq!((d.year(), d.month(), d.day()), (987, 3, 4));
    assert_eq!(date(2023, 12, 31).to_iso(), "2023-12-31");
}
