use meal_planner::agent::{Agent, AgentAction, AgentError, LlmReply, ReplyMessage, MAX_TOOL_ROUNDS, SYSTEM_PROMPT};
use meal_planner::llm::{ChatMessage, ToolCallRequest};

fn function_call(id: &str, name: &str, args: &str) -> ToolCallRequest {
    ToolCallRequest::Function { id: id.to_string(), name: name.to_string(), arguments: args.to_string() }
}

fn text_reply(text: Option<&str>) -> LlmReply {
    LlmReply { first_choice: Some(ReplyMessage { content: text.map(|t| t.to_string()), tool_calls: None }) }
}

fn tool_reply(calls: Vec<ToolCallRequest>) -> LlmReply {
    LlmReply { first_choice: Some(ReplyMessage { content: None, tool_calls: Some(calls) }) }
}

#[test]
fn new_agent_holds_only_the_system_prompt() {
    let agent = Agent::new();
    assert_eq!(agent.messages().len(), 1);
    match &agent.messages()[0] {
        ChatMessage::System { content } => assert_eq!(content, SYSTEM_PROMPT),
        _ => panic!("first message is not the system prompt"),
    }
    assert_eq!(agent.tool_defs().len(), 7);
    assert!(SYSTEM_PROMPT.starts_with("You are a helpful meal planning assistant."));
}

#[test]
fn plain_text_reply_ends_the_turn() {
    let mut agent = Agent::new();
    assert!(matches!(agent.begin_turn("Plan my week"), AgentAction::CallLlm));
    match agent.on_llm_reply(text_reply(Some("Here is a plan"))) {
        AgentAction::Reply(t) => assert_eq!(t, "Here is a plan"),
        _ => panic!("expected a reply"),
    }
    let ms = agent.messages();
    assert_eq!(ms.len(), 3);
    assert!(matches!(&ms[1], ChatMessage::User { content } if content == "Plan my week"));
    assert!(matches!(&ms[2], ChatMessage::Assistant { content, tool_calls: None } if content == "Here is a plan"));
}

#[test]
fn reply_without_content_is_empty_text() {
    let mut agent = Agent::new();
    agent.begin_turn("hi");
    match agent.on_llm_reply(text_reply(None)) {
        AgentAction::Reply(t) => assert_eq!(t, ""),
        _ => panic!("expected a reply"),
    }
}

#[test]
fn empty_tool_call_list_counts_as_text() {
    let mut agent = Agent::new();
    agent.begin_turn("hi");
    let reply = LlmReply { first_choice: Some(ReplyMessage { content: Some("ok".to_string()), tool_calls: Some(vec![]) }) };
    match agent.on_llm_reply(reply) {
        AgentAction::Reply(t) => assert_eq!(t, "ok"),
        _ => panic!("expected a reply"),
    }
    assert!(matches!(&agent.messages()[2], ChatMessage::Assistant { tool_calls: None, .. }));
}

#[test]
fn response_without_choices_fails() {
    let mut agent = Agent::new();
    agent.begin_turn("hi");
    assert!(matches!(agent.on_llm_reply(LlmReply { first_choice: None }), AgentAction::Fail(AgentError::EmptyResponse)));
    assert_eq!(agent.messages().len(), 2);
}

#[test]
fn tool_calls_are_run_in_order_and_answered() {
    let mut agent = Agent::new();
    agent.begin_turn("plan");
    let calls = vec![
        function_call("a", "get_meal_history", "{\"since_days_ago\":7}"),
        ToolCallRequest::Custom { id: "c".to_string(), name: "x".to_string(), input: "y".to_string() },
        function_call("b", "search_recipes", "{}"),
    ];
    match agent.on_llm_reply(tool_reply(calls)) {
        AgentAction::RunTool(c) => {
            assert_eq!(c.id, "a");
            assert_eq!(c.name, "get_meal_history");
            assert_eq!(c.arguments, "{\"since_days_ago\":7}");
        }
        _ => panic!("expected a tool run"),
    }
    match agent.on_tool_output("history") {
        AgentAction::RunTool(c) => assert_eq!(c.id, "b"),
        _ => panic!("expected the second tool run"),
    }
    assert!(matches!(agent.on_tool_output("recipes"), AgentAction::CallLlm));
    let ms = agent.messages();
    assert_eq!(ms.len(), 5);
    match &ms[2] {
        ChatMessage::Assistant { content, tool_calls: Some(tc) } => {
            assert_eq!(content, "");
            assert_eq!(tc.len(), 3);
        }
        _ => panic!("expected the assistant's tool-call message"),
    }
    assert!(matches!(&ms[3], ChatMessage::Tool { tool_call_id, content } if tool_call_id == "a" && content == "history"));
    assert!(matches!(&ms[4], ChatMessage::Tool { tool_call_id, content } if tool_call_id == "b" && content == "recipes"));
    match agent.on_llm_reply(text_reply(Some("done"))) {
        AgentAction::Reply(t) => assert_eq!(t, "done"),
        _ => panic!("expected a reply"),
    }
}

#[test]
fn only_custom_calls_go_straight_to_the_next_round() {
    let mut agent = Agent::new();
    agent.begin_turn("x");
    let calls = vec![ToolCallRequest::Custom { id: "c".to_string(), name: "n".to_string(), input: "i".to_string() }];
    assert!(matches!(agent.on_llm_reply(tool_reply(calls)), AgentAction::CallLlm));
    assert_eq!(agent.messages().len(), 3);
}

#[test]
fn text_answer_is_forced_after_max_tool_rounds() {
    let mut agent = Agent::new();
    let mut tool_requests = 0;
    let mut tool_runs = 0;
    let mut action = agent.begin_turn("loop forever");
    let answer = loop {
        match action {
            AgentAction::CallLlm => {
                tool_requests += 1;
                action = agent.on_llm_reply(tool_reply(vec![function_call("id", "get_recipe", "{\"slug\":\"s\"}")]));
            }
            AgentAction::RunTool(_) => {
                tool_runs += 1;
                action = agent.on_tool_output("{}");
            }
            AgentAction::CallLlmWithoutTools => {
                // The model still asks for a tool; it is not run, and its text is the answer.
                let reply = LlmReply {
                    first_choice: Some(ReplyMessage {
                        content: Some("Here is the plan".to_string()),
                        tool_calls: Some(vec![function_call("late", "get_recipe", "{}")]),
                    }),
                };
                action = agent.on_llm_reply(reply);
            }
            AgentAction::Reply(t) => break t,
            AgentAction::Fail(e) => panic!("unexpected failure {:?}", e),
        }
    };
    assert_eq!(answer, "Here is the plan");
    assert_eq!(tool_requests, MAX_TOOL_ROUNDS);
    assert_eq!(tool_requests, 10);
    assert_eq!(tool_runs, 10);
    let last = agent.messages().last().unwrap();
    assert!(matches!(last, ChatMessage::Assistant { content, tool_calls: None } if content == "Here is the plan"));
    assert_eq!(agent.messages().len(), 2 + 2 * 10 + 1);
}

#[test]
fn forced_reply_without_choices_fails() {
    let mut agent = Agent::new();
    let mut action = agent.begin_turn("x");
    loop {
        match action {
            AgentAction::CallLlm => action = agent.on_llm_reply(tool_reply(vec![function_call("i", "get_recipe", "{}")])),
            AgentAction::RunTool(_) => action = agent.on_tool_output("{}"),
            AgentAction::CallLlmWithoutTools => {
                assert!(matches!(agent.on_llm_reply(LlmReply { first_choice: None }), AgentAction::Fail(AgentError::EmptyResponse)));
                break;
            }
            _ => panic!("unexpected action"),
        }
    }
}

#[test]
fn reset_keeps_only_the_system_prompt() {
    let mut agent = Agent::new();
    agent.begin_turn("hello");
    agent.on_llm_reply(text_reply(Some("hi")));
    assert_eq!(agent.messages().len(), 3);
    agent.reset();
    assert_eq!(agent.messages().len(), 1);
    assert!(matches!(&agent.messages()[0], ChatMessage::System { content } if content == SYSTEM_PROMPT));
}

#[test]
fn unexpected_events_change_nothing() {
    let mut agent = Agent::new();
    assert!(matches!(agent.on_tool_output("x"), AgentAction::Fail(AgentError::UnexpectedEvent)));
    assert!(matches!(agent.on_llm_reply(text_reply(Some("x"))), AgentAction::Fail(AgentError::UnexpectedEvent)));
    assert_eq!(agent.messages().len(), 1);
    agent.begin_turn("q");
    assert!(matches!(agent.on_tool_output("x"), AgentAction::Fail(AgentError::UnexpectedEvent)));
    assert_eq!(agent.messages().len(), 2);
}

#[test]
fn a_new_turn_after_a_failure_starts_at_round_zero() {
    let mut agent = Agent::new();
    agent.begin_turn("a");
    agent.on_llm_reply(LlmReply { first_choice: None });
    assert!(matches!(agent.begin_turn("b"), AgentAction::CallLlm));
    assert!(matches!(agent.on_llm_reply(text_reply(Some("ok"))), AgentAction::Reply(_)));
    assert_eq!(agent.messages().len(), 4);
}
