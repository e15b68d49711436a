use gemini_adapter::messages::{
    convert_messages, GeminiMessage, GeminiMessageRoles, OpenAIMessage, OpenAIMessageRoles,
};

fn inbound(role: OpenAIMessageRoles, content: &str) -> OpenAIMessage {
    OpenAIMessage {
        content: content.to_string(),
        role,
    }
}

fn upstream(role: GeminiMessageRoles, content: &str) -> GeminiMessage {
    GeminiMessage {
        content: content.to_string(),
        role,
    }
}

#[test]
fn role_mapping_follows_the_table() {
    let user = GeminiMessage::from_openai_message(&inbound(OpenAIMessageRoles::User, "a"));
    assert_eq!(user.role, GeminiMessageRoles::User);
    assert_eq!(user.content, "a");

    let system = GeminiMessage::from_openai_message(&inbound(OpenAIMessageRoles::System, "b"));
    assert_eq!(system.role, GeminiMessageRoles::User);
    assert_eq!(system.content, "b");

    let assistant =
        GeminiMessage::from_openai_message(&inbound(OpenAIMessageRoles::Assistant, "c"));
    assert_eq!(assistant.role, GeminiMessageRoles::Model);
    assert_eq!(assistant.content, "c");
}

#[test]
fn role_wire_names() {
    assert_eq!(OpenAIMessageRoles::User.wire_name(), "user");
    assert_eq!(OpenAIMessageRoles::System.wire_name(), "system");
    assert_eq!(OpenAIMessageRoles::Assistant.wire_name(), "assistant");
    assert_eq!(GeminiMessageRoles::User.wire_name(), "user");
    assert_eq!(GeminiMessageRoles::Model.wire_name(), "model");
}

#[test]
fn convert_empty_conversation() {
    assert_eq!(convert_messages(Vec::new()), Vec::new());
}

#[test]
fn convert_expands_each_system_message() {
    let converted = convert_messages(vec![
        inbound(OpenAIMessageRoles::System, "be nice"),
        inbound(OpenAIMessageRoles::User, "hi"),
    ]);
    assert_eq!(
        converted,
        vec![
            upstream(GeminiMessageRoles::User, "be nice"),
            upstream(GeminiMessageRoles::Model, ""),
            upstream(GeminiMessageRoles::User, "hi"),
        ]
    );
}

#[test]
fn convert_length_grows_by_the_system_count() {
    let converted = convert_messages(vec![
        inbound(OpenAIMessageRoles::System, "s1"),
        inbound(OpenAIMessageRoles::User, "u1"),
        inbound(OpenAIMessageRoles::System, "s2"),
        inbound(OpenAIMessageRoles::Assistant, "a1"),
    ]);
    assert_eq!(converted.len(), 4 + 2);
    assert_eq!(
        converted,
        vec![
            upstream(GeminiMessageRoles::User, "s1"),
            upstream(GeminiMessageRoles::Model, ""),
            upstream(GeminiMessageRoles::User, "u1"),
            upstream(GeminiMessageRoles::User, "s2"),
            upstream(GeminiMessageRoles::Model, ""),
            upstream(GeminiMessageRoles::Model, "a1"),
        ]
    );
}

#[test]
fn convert_without_system_messages_keeps_length_and_order() {
    let input = vec![
        inbound(OpenAIMessageRoles::User, "one"),
        inbound(OpenAIMessageRoles::Assistant, "two"),
        inbound(OpenAIMessageRoles::User, "three"),
    ];
    let converted = convert_messages(input);
    assert_eq!(
        converted,
        vec![
            upstream(GeminiMessageRoles::User, "one"),
            upstream(GeminiMessageRoles::Model, "two"),
            upstream(GeminiMessageRoles::User, "three"),
        ]
    );
}

#[test]
fn convert_is_deterministic() {
    let make_input = || {
        vec![
            inbound(OpenAIMessageRoles::System, "rules"),
            inbound(OpenAIMessageRoles::User, "question"),
            inbound(OpenAIMessageRoles::Assistant, "answer"),
        ]
    };
    let first = convert_messages(make_input());
    let second = convert_messages(make_input());
    assert_eq!(first, second);
}
