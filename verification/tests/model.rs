use chat_agent::model::{message_from_parts, select_prompt, Chat, ChatHistory, ChatRequestBody, Message};

fn session(source: &str) -> Chat {
    Chat::new(
        1,
        5,
        source,
        "sess-1",
        Vec::new(),
        "You are the website assistant.",
        "You are the in-app assistant.",
    )
}

#[test]
fn widget_source_selects_web_prompt() {
    // identifier "sess-1", source "widget": the web prompt applies.
    let chat = session("widget");
    assert_eq!(select_prompt(&chat), "You are the website assistant.");
}

#[test]
fn other_sources_select_apps_prompt() {
    assert_eq!(select_prompt(&session("mobile")), "You are the in-app assistant.");
    assert_eq!(select_prompt(&session("")), "You are the in-app assistant.");
    assert_eq!(select_prompt(&session("Widget")), "You are the in-app assistant.");
}

#[test]
fn chat_new_keeps_every_field() {
    let history = vec![Message::User { content: "hi".to_string() }];
    let chat = Chat::new(7, 42, "widget", "abc", history, "web", "apps");
    assert_eq!(chat.id, 7);
    assert_eq!(chat.organization_id, 42);
    assert_eq!(chat.source, "widget");
    assert_eq!(chat.identifier, "abc");
    assert_eq!(chat.history.len(), 1);
    assert!(matches!(&chat.history[0], Message::User { content } if content == "hi"));
    assert_eq!(chat.web_prompt, "web");
    assert_eq!(chat.apps_prompt, "apps");
}

#[test]
fn chat_history_append_keeps_order() {
    let mut h = ChatHistory::new();
    assert_eq!(h.messages().len(), 0);
    h.add_message(Message::User { content: "first".to_string() });
    h.add_message(Message::Assistant { content: "second".to_string() });
    let msgs = h.messages();
    assert_eq!(msgs.len(), 2);
    assert!(matches!(&msgs[0], Message::User { content } if content == "first"));
    assert!(matches!(&msgs[1], Message::Assistant { content } if content == "second"));
}

#[test]
fn chat_history_from_and_clear() {
    let seed = vec![
        Message::System { content: "s".to_string() },
        Message::User { content: "u".to_string() },
    ];
    let mut h = ChatHistory::from(seed);
    assert_eq!(h.messages().len(), 2);
    h.clear();
    assert_eq!(h.messages().len(), 0);
}

#[test]
fn message_clone_keeps_contents() {
    let m = Message::ToolCall { name: "Get_Info".to_string(), input: "q".to_string() };
    let c = m.clone();
    assert!(matches!(c, Message::ToolCall { name, input } if name == "Get_Info" && input == "q"));
}

#[test]
fn message_from_parts_builds_each_kind() {
    assert!(matches!(message_from_parts("system", "s", ""),
        Some(Message::System { content }) if content == "s"));
    assert!(matches!(message_from_parts("user", "u", ""),
        Some(Message::User { content }) if content == "u"));
    assert!(matches!(message_from_parts("human", "u", ""),
        Some(Message::User { content }) if content == "u"));
    assert!(matches!(message_from_parts("assistant", "a", ""),
        Some(Message::Assistant { content }) if content == "a"));
    assert!(matches!(message_from_parts("ai", "a", ""),
        Some(Message::Assistant { content }) if content == "a"));
    assert!(matches!(message_from_parts("tool_call", "q", "Get_Info"),
        Some(Message::ToolCall { name, input }) if name == "Get_Info" && input == "q"));
    assert!(matches!(message_from_parts("tool_result", "r", "Get_Info"),
        Some(Message::ToolResult { name, output }) if name == "Get_Info" && output == "r"));
    assert!(message_from_parts("function", "x", "").is_none());
    assert!(message_from_parts("", "x", "").is_none());
}

#[test]
fn request_body_holds_content_and_identifier() {
    let body = ChatRequestBody::new("hello".to_string(), "sess-1".to_string());
    assert_eq!(body.content, "hello");
    assert_eq!(body.chat_identifier, "sess-1");
}
