//! The conversation model exchanged with the LLM, and the choice of endpoint.

use vstd::prelude::*;
use vstd::string::*;
use crate::config::LlmConfig;

verus! {

/// A tool call as the model asked for it.
pub enum ToolCallRequest {
    /// A function call: the call's id, the function's name and its JSON arguments.
    Function { id: String, name: String, arguments: String },
    /// A custom-tool call: the call's id, the tool's name and its free-form input.
    Custom { id: String, name: String, input: String },
}

/// Mathematical view of a tool call.
pub enum ToolCallView {
    Function { id: Seq<char>, name: Seq<char>, arguments: Seq<char> },
    Custom { id: Seq<char>, name: Seq<char>, input: Seq<char> },
}

impl View for ToolCallRequest {
    type V = ToolCallView;

    open spec fn view(&self) -> ToolCallView {
        match self {
            ToolCallRequest::Function { id, name, arguments } => ToolCallView::Function {
                id: id@,
                name: name@,
                arguments: arguments@,
            },
            ToolCallRequest::Custom { id, name, input } => ToolCallView::Custom {
                id: id@,
                name: name@,
                input: input@,
            },
        }
    }
}

/// The views of a list of tool calls.
pub open spec fn tool_calls_view(calls: Seq<ToolCallRequest>) -> Seq<ToolCallView> {
    calls.map_values(|c: ToolCallRequest| c@)
}

/// One message of the conversation sent to the LLM.
pub enum ChatMessage {
    System { content: String },
    User { content: String },
    /// An assistant turn; `tool_calls` is present when the model asked for tools.
    Assistant { content: String, tool_calls: Option<Vec<ToolCallRequest>> },
    /// The output of one tool call, answering the call with that id.
    Tool { tool_call_id: String, content: String },
}

/// Mathematical view of a message.
pub enum MessageView {
    System(Seq<char>),
    User(Seq<char>),
    Assistant(Seq<char>, Option<Seq<ToolCallView>>),
    Tool(Seq<char>, Seq<char>),
}

impl View for ChatMessage {
    type V = MessageView;

    open spec fn view(&self) -> MessageView {
        match self {
            ChatMessage::System { content } => MessageView::System(content@),
            ChatMessage::User { content } => MessageView::User(content@),
            ChatMessage::Assistant { content, tool_calls } => MessageView::Assistant(
                content@,
                match tool_calls {
                    Some(calls) => Some(tool_calls_view(calls@)),
                    None => None,
                },
            ),
            ChatMessage::Tool { tool_call_id, content } => MessageView::Tool(
                tool_call_id@,
                content@,
            ),
        }
    }
}

/// The views of a list of messages.
pub open spec fn messages_view(ms: Seq<ChatMessage>) -> Seq<MessageView> {
    ms.map_values(|m: ChatMessage| m@)
}

/// A system message with the given text.
pub fn system_msg(content: &str) -> (m: ChatMessage)
    ensures
        m@ == MessageView::System(content@),
{
    ChatMessage::System { content: String::from_str(content) }
}

/// A user message with the given text.
pub fn user_msg(content: &str) -> (m: ChatMessage)
    ensures
        m@ == MessageView::User(content@),
{
    ChatMessage::User { content: String::from_str(content) }
}

/// An assistant message with the given text and no tool calls.
pub fn assistant_msg(content: &str) -> (m: ChatMessage)
    ensures
        m@ == MessageView::Assistant(content@, None),
{
    ChatMessage::Assistant { content: String::from_str(content), tool_calls: None }
}

/// A tool-result message answering the call `tool_call_id`.
pub fn tool_result_msg(tool_call_id: &str, content: &str) -> (m: ChatMessage)
    ensures
        m@ == MessageView::Tool(tool_call_id@, content@),
{
    ChatMessage::Tool {
        tool_call_id: String::from_str(tool_call_id),
        content: String::from_str(content),
    }
}

/// The API key sent to a local server, which does not check it.
pub open spec fn local_api_key() -> Seq<char> {
    "not-needed"@
}

/// Where and as whom the LLM client connects.
pub struct LlmEndpoint {
    pub base_url: String,
    pub model: String,
    pub api_key: String,
}

/// Why no endpoint could be chosen.
pub enum LlmSetupError {
    /// The provider is neither "local" nor "cloud".
    UnknownProvider(String),
}

/// Chooses base URL, model and API key from the configuration. `cloud_api_key`
/// is the value of the environment variable `config.cloud.api_key_env`; it must be
/// present for the cloud provider (a missing variable is a fatal configuration
/// error, raised before the choice is made).
pub fn select_endpoint(config: &LlmConfig, cloud_api_key: Option<String>) -> (r: Result<
    LlmEndpoint,
    LlmSetupError,
>)
    requires
        config.provider@ == "cloud"@ ==> cloud_api_key is Some,
    ensures
        config.provider@ == "local"@ ==> (r matches Ok(e) && e.base_url@ == config.local.base_url@
            && e.model@ == config.local.model@ && e.api_key@ == local_api_key()),
        config.provider@ == "cloud"@ ==> (r matches Ok(e) && e.base_url@ == config.cloud.base_url@
            && e.model@ == config.cloud.model@ && e.api_key@ == cloud_api_key->0@),
        config.provider@ != "local"@ && config.provider@ != "cloud"@ ==> (r matches Err(
            LlmSetupError::UnknownProvider(p),
        ) && p@ == config.provider@),
{
    proof {
        reveal_strlit("local");
        reveal_strlit("cloud");
        assert("local"@[0] != "cloud"@[0]);
    }
    let local = String::from_str("local");
    let cloud = String::from_str("cloud");
    if config.provider == local {
        let key = String::from_str("not-needed");
        Ok(
            LlmEndpoint {
                base_url: config.local.base_url.clone(),
                model: config.local.model.clone(),
                api_key: key,
            },
        )
    } else if config.provider == cloud {
        let key = match cloud_api_key {
            Some(key) => key,
            None => String::new(),
        };
        Ok(LlmEndpoint { base_url: config.cloud.base_url.clone(), model: config.cloud.model.clone(), api_key: key })
    } else {
        Err(LlmSetupError::UnknownProvider(config.provider.clone()))
    }
}

} // verus!
