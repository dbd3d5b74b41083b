use veronex::http::conversations::{conversation_owner, conversation_title, prepend_history, StoredTurn};
use veronex::http::gates::openai_chat_images;
use veronex::http::openai::{ChatMessage, ContentPart, ImageUrl, MessageContent};

fn s(x: &str) -> String {
    x.to_string()
}

fn msg(role: &str, content: Option<MessageContent>) -> ChatMessage {
    ChatMessage { role: s(role), content, tool_calls: None, tool_call_id: None, name: None }
}

fn text(t: &str) -> Option<MessageContent> {
    Some(MessageContent::Text(s(t)))
}

fn image_part(url: &str) -> ContentPart {
    ContentPart { part_type: s("image_url"), text: None, image_url: Some(ImageUrl { url: s(url) }) }
}

fn text_part(t: &str) -> ContentPart {
    ContentPart { part_type: s("text"), text: Some(s(t)), image_url: None }
}

#[test]
fn history_goes_in_front() {
    let turns = vec![
        StoredTurn { prompt: s("hi"), result: Some(s("hello")) },
        StoredTurn { prompt: s("again"), result: None },
    ];
    let out = prepend_history(&turns, vec![msg("user", text("now"))]);
    let roles: Vec<&str> = out.iter().map(|m| m.role.as_str()).collect();
    assert_eq!(roles, vec!["user", "assistant", "user", "user"]);
    assert_eq!(out[1].content, text("hello"));
    assert_eq!(out[3].content, text("now"));
    assert!(prepend_history(&vec![], vec![]).is_empty());
}

#[test]
fn owner_prefers_account_then_key() {
    assert_eq!(conversation_owner(Some(1), Some(2), 3), 1);
    assert_eq!(conversation_owner(None, Some(2), 3), 2);
    assert_eq!(conversation_owner(None, None, 3), 3);
}

#[test]
fn title_from_first_user_message() {
    let ms = vec![
        msg("system", text("be brief")),
        msg("user", text("/no_think/no_think   What is the capital of France?")),
        msg("user", text("second")),
    ];
    assert_eq!(conversation_title(&ms), Some(s("What is th")));
    let parts = vec![msg(
        "user",
        Some(MessageContent::Parts(vec![image_part("data:image/png;base64,AAA"), text_part("  Describe the picture please, in a lot of detail if you can  ")])),
    )];
    assert_eq!(conversation_title(&parts), Some(s("Describe the picture please, in a lot of detail if")));
    assert_eq!(conversation_title(&vec![msg("user", None)]), None);
    assert_eq!(conversation_title(&vec![msg("assistant", text("x"))]), None);
}

#[test]
fn chat_images_top_level_then_user_parts() {
    let ms = vec![
        msg("system", Some(MessageContent::Parts(vec![image_part("data:image/png;base64,SYS")]))),
        msg("user", Some(MessageContent::Parts(vec![text_part("look"), image_part("data:image/png;base64,U1")]))),
    ];
    assert_eq!(openai_chat_images(Some(vec![s("TOP")]), &ms), Some(vec![s("TOP"), s("U1")]));
    assert_eq!(openai_chat_images(None, &vec![msg("user", text("hi"))]), None);
}
