use enlightened_cat::mistral::{
    daily_wisdom_request, field_request, first_choice_content, parse_or_fallback, persona_prompt,
    ChatMessage, ChatResponse, ChatResponseChoice,
};
use enlightened_cat::{Config, Conversation};

#[test]
fn conversation_appends_in_order_with_the_right_roles() {
    let mut conv = Conversation::new();
    assert_eq!(conv.messages.len(), 0);
    conv.add_system_message("be wise");
    conv.add_user_message("hello");
    conv.add_assistant_message("purr");
    conv.add_message("user", "again");
    let roles: Vec<&str> = conv.messages.iter().map(|m| m.role.as_str()).collect();
    assert_eq!(roles, vec!["system", "user", "assistant", "user"]);
    assert_eq!(conv.messages[1].content, "hello");
}

#[test]
fn duplicate_copies_every_message() {
    let mut conv = Conversation::new();
    conv.add_system_message("a");
    conv.add_user_message("b");
    let copy = conv.duplicate();
    assert_eq!(copy.messages.len(), 2);
    assert_eq!(copy.messages[0].role, "system");
    assert_eq!(copy.messages[0].content, "a");
    assert_eq!(copy.messages[1].content, "b");
}

fn reply_with(choices: Vec<ChatResponseChoice>) -> ChatResponse {
    ChatResponse {
        id: "r1".to_string(),
        object: "chat.completion".to_string(),
        created: 0,
        model: "mistral-small".to_string(),
        choices,
    }
}

#[test]
fn the_first_choice_is_the_reply_text() {
    let resp = reply_with(vec![
        ChatResponseChoice {
            message: ChatMessage { role: "assistant".to_string(), content: "first".to_string() },
            finish_reason: Some("stop".to_string()),
        },
        ChatResponseChoice {
            message: ChatMessage { role: "assistant".to_string(), content: "second".to_string() },
            finish_reason: None,
        },
    ]);
    assert_eq!(first_choice_content(&resp).unwrap(), "first");
}

#[test]
fn a_reply_without_choices_is_a_provider_error() {
    let resp = reply_with(Vec::new());
    let err = first_choice_content(&resp).unwrap_err();
    assert_eq!(err.message, "No response from Mistral API");
}

#[test]
fn the_daily_wisdom_request_has_its_fixed_two_messages() {
    let conv = daily_wisdom_request();
    assert_eq!(conv.messages.len(), 2);
    assert_eq!(conv.messages[0].role, "system");
    assert!(conv.messages[0].content.contains("Daily Whispurr"));
    assert_eq!(conv.messages[1].role, "user");
    assert_eq!(conv.messages[1].content, "Please provide today's Daily Whispurr meditation.");
}

#[test]
fn the_field_request_has_its_fixed_two_messages() {
    let conv = field_request();
    assert_eq!(conv.messages.len(), 2);
    assert_eq!(conv.messages[0].role, "system");
    assert!(conv.messages[0].content.contains("JSON array of 6 strings"));
    assert_eq!(conv.messages[1].role, "user");
    assert_eq!(conv.messages[1].content, "Generate six wisdom fragments for the quantum field");
}

#[test]
fn the_persona_prompt_sets_the_character() {
    let persona = persona_prompt();
    assert!(persona.starts_with("You are The Enlightened Cat"));
}

#[test]
fn parsing_recovers_with_the_fallback() {
    let fallback = vec!["f".to_string()];
    assert_eq!(
        parse_or_fallback("[\"a\", \"b\"]", fallback.clone()),
        vec!["a".to_string(), "b".to_string()]
    );
    assert_eq!(parse_or_fallback("{\"not\": \"an array\"}", fallback.clone()), fallback);
    assert_eq!(parse_or_fallback("[1, 2, 3]", fallback.clone()), fallback);
    assert_eq!(parse_or_fallback("", fallback.clone()), fallback);
    let empty: Vec<String> = Vec::new();
    assert_eq!(parse_or_fallback("[]", fallback), empty);
}

#[test]
fn config_fills_absent_settings_with_defaults() {
    let c = Config::from_parts("key".to_string(), None, None);
    assert_eq!(c.mistral_api_key, "key");
    assert_eq!(c.mistral_api_url, "https://api.mistral.ai/v1");
    assert_eq!(c.server_port, 3000);

    let c = Config::from_parts(
        "key".to_string(),
        Some("http://localhost:9000/v1".to_string()),
        Some(8080),
    );
    assert_eq!(c.mistral_api_url, "http://localhost:9000/v1");
    assert_eq!(c.server_port, 8080);
}
