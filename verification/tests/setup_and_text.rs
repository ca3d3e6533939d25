use meal_planner::agent::{tool_failure_message, ToolFailure};
use meal_planner::config::{CloudLlmConfig, LlmConfig, LocalLlmConfig};
use meal_planner::llm::{assistant_msg, select_endpoint, system_msg, tool_result_msg, user_msg, ChatMessage, LlmSetupError};
use meal_planner::repl::{classify_line, trim_text, ReplCommand};
use meal_planner::text::decimal_string;

fn config(provider: &str) -> LlmConfig {
    LlmConfig {
        provider: provider.to_string(),
        local: LocalLlmConfig { base_url: "http://localhost:8080/v1".to_string(), model: "llama".to_string() },
        cloud: CloudLlmConfig { base_url: "https://api.example.com".to_string(), model: "gpt".to_string(), api_key_env: "OPENAI_API_KEY".to_string() },
    }
}

#[test]
fn local_provider_needs_no_key() {
    let e = select_endpoint(&config("local"), None).ok().unwrap();
    let e2 = select_endpoint(&config("local"), Some("ignored".to_string())).ok().unwrap();
    assert_eq!(e2.api_key, "not-needed");
    assert_eq!((e.base_url.as_str(), e.model.as_str(), e.api_key.as_str()), ("http://localhost:8080/v1", "llama", "not-needed"));
}

#[test]
fn cloud_provider_uses_the_key() {
    let e = select_endpoint(&config("cloud"), Some("sk-1".to_string())).ok().unwrap();
    assert_eq!((e.base_url.as_str(), e.model.as_str(), e.api_key.as_str()), ("https://api.example.com", "gpt", "sk-1"));
}

#[test]
fn unknown_provider_is_refused() {
    match select_endpoint(&config("azure"), Some("k".to_string())) {
        Err(LlmSetupError::UnknownProvider(p)) => assert_eq!(p, "azure"),
        _ => panic!("expected an unknown provider"),
    }
}

#[test]
fn message_builders() {
    assert!(matches!(system_msg("s"), ChatMessage::System { content } if content == "s"));
    assert!(matches!(user_msg("u"), ChatMessage::User { content } if content == "u"));
    assert!(matches!(assistant_msg("a"), ChatMessage::Assistant { content, tool_calls: None } if content == "a"));
    assert!(matches!(tool_result_msg("id1", "out"), ChatMessage::Tool { tool_call_id, content } if tool_call_id == "id1" && content == "out"));
}

#[test]
fn repl_lines() {
    assert!(matches!(classify_line("   \t"), ReplCommand::Skip));
    assert!(matches!(classify_line(" /quit "), ReplCommand::Quit));
    assert!(matches!(classify_line("/exit\n"), ReplCommand::Quit));
    assert!(matches!(classify_line("/reset"), ReplCommand::Reset));
    assert!(matches!(classify_line("  plan my week \u{3000}"), ReplCommand::Chat(t) if t == "plan my week"));
    assert!(matches!(classify_line("/quitting"), ReplCommand::Chat(t) if t == "/quitting"));
    assert_eq!(trim_text("\u{a0}x y\u{2009}"), "x y");
}

#[test]
fn decimal_rendering() {
    assert_eq!(decimal_string(0), "0");
    assert_eq!(decimal_string(7), "7");
    assert_eq!(decimal_string(1234567890), "1234567890");
    assert_eq!(decimal_string(u64::MAX), u64::MAX.to_string());
}

#[test]
fn tool_failure_texts() {
    assert_eq!(tool_failure_message(ToolFailure::InvalidArguments, "missing field `slug`"), "Invalid tool arguments: missing field `slug`");
    assert_eq!(tool_failure_message(ToolFailure::ExecutionFailed, "timeout"), "Tool execution failed: timeout");
}
