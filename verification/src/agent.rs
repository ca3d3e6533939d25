//! The agent's conversation loop as a state machine. The application performs
//! each action (an LLM request, a tool run) and hands the outcome back as an
//! event; every decision of the loop is made here.

use vstd::prelude::*;
use vstd::string::*;
use crate::llm::{ChatMessage, MessageView, ToolCallRequest, ToolCallView, messages_view, tool_calls_view, system_msg, user_msg};
use crate::schema::{ToolSpec, ToolSpecView, tool_definitions, tool_specs_view, spec_tool_definitions};

verus! {

/// The system prompt that opens every conversation.
pub const SYSTEM_PROMPT: &'static str = r#"You are a helpful meal planning assistant. You plan evening meals for the week based on the user's recipe database in Mealie.

Your workflow:
1. Check recent meal history to avoid repeats (get_meal_history)
2. Search for candidate recipes, preferring higher-rated ones (search_recipes)
3. Propose a week's plan to the user, explaining your choices
4. Once approved, create the plan in Mealie (create_meal_plan)
5. Generate the shopping list (generate_shopping_list)

Guidelines:
- Respect the repeat cooldown: don't suggest a meal that was made recently
- Favour recipes with higher Mealie ratings and higher cook-through rates
- On days marked as "busy", suggest quick meals (look for 'quick' tags or short total_time)
- Always propose the plan and wait for approval before creating it
- When the user wants substitutions, search for alternatives and update the plan
- Store user preferences when they express likes/dislikes (update_preference)
- At the start of a new week, ask about last week's compliance (log_meal_completed)

Be concise and practical. Present plans as a simple day-by-day list.
"#;

/// Maximum tool-call round-trips before we force a text response.
pub const MAX_TOOL_ROUNDS: usize = 10;

/// The text of the system prompt.
pub open spec fn system_prompt() -> Seq<char> {
    SYSTEM_PROMPT@
}

/// The history of a conversation that has not started: the system prompt alone.
pub open spec fn fresh_history() -> Seq<MessageView> {
    seq![MessageView::System(system_prompt())]
}

/// A function call that the loop has yet to run.
pub struct PendingCall {
    pub id: String,
    pub name: String,
    pub arguments: String,
}

pub struct PendingCallView {
    pub id: Seq<char>,
    pub name: Seq<char>,
    pub arguments: Seq<char>,
}

impl View for PendingCall {
    type V = PendingCallView;

    open spec fn view(&self) -> PendingCallView {
        PendingCallView { id: self.id@, name: self.name@, arguments: self.arguments@ }
    }
}

impl PendingCall {
    /// A copy of the call.
    pub fn duplicate(&self) -> (r: PendingCall)
        ensures
            r@ == self@,
    {
        PendingCall { id: self.id.clone(), name: self.name.clone(), arguments: self.arguments.clone() }
    }
}

/// The views of a list of pending calls.
pub open spec fn pending_view(v: Seq<PendingCall>) -> Seq<PendingCallView> {
    v.map_values(|c: PendingCall| c@)
}

/// The function calls among the tool calls of a reply, in order; custom-tool
/// calls are not run.
pub open spec fn function_calls(calls: Seq<ToolCallView>) -> Seq<PendingCallView>
    decreases calls.len(),
{
    if calls.len() == 0 {
        seq![]
    } else {
        let rest = function_calls(calls.drop_last());
        match calls.last() {
            ToolCallView::Function { id, name, arguments } => rest.push(
                PendingCallView { id, name, arguments },
            ),
            ToolCallView::Custom { .. } => rest,
        }
    }
}

/// Collects the function calls among `calls`.
fn function_calls_of(calls: &Vec<ToolCallRequest>) -> (r: Vec<PendingCall>)
    ensures
        pending_view(r@) == function_calls(tool_calls_view(calls@)),
{
    let mut r: Vec<PendingCall> = Vec::new();
    let mut i: usize = 0;
    while i < calls.len()
        invariant
            i <= calls.len(),
            pending_view(r@) == function_calls(tool_calls_view(calls@).take(i as int)),
        decreases calls.len() - i,
    {
        let ghost before = tool_calls_view(calls@).take(i as int);
        let ghost after = tool_calls_view(calls@).take(i + 1);
        assert(after.drop_last() =~= before);
        assert(after.last() == calls@[i as int]@);
        match &calls[i] {
            ToolCallRequest::Function { id, name, arguments } => {
                r.push(PendingCall { id: id.clone(), name: name.clone(), arguments: arguments.clone() });
                assert(pending_view(r@) =~= function_calls(after));
            },
            ToolCallRequest::Custom { .. } => {
                assert(pending_view(r@) =~= function_calls(after));
            },
        }
        i = i + 1;
    }
    assert(tool_calls_view(calls@).take(calls.len() as int) =~= tool_calls_view(calls@));
    r
}

/// Where the loop stands within a turn.
pub enum Phase {
    /// No turn is in progress.
    Idle,
    /// An LLM request for round `round` is outstanding.
    AwaitingReply { round: usize },
    /// The tool rounds are used up; the request without tools that forces a text
    /// answer is outstanding.
    AwaitingFinalReply,
    /// The function calls of round `round` are being run; `calls[next]` is the
    /// one whose output is awaited.
    RunningTools { round: usize, calls: Vec<PendingCall>, next: usize },
}

pub enum PhaseView {
    Idle,
    AwaitingReply(nat),
    AwaitingFinalReply,
    RunningTools(nat, Seq<PendingCallView>, nat),
}

impl View for Phase {
    type V = PhaseView;

    open spec fn view(&self) -> PhaseView {
        match self {
            Phase::Idle => PhaseView::Idle,
            Phase::AwaitingReply { round } => PhaseView::AwaitingReply(*round as nat),
            Phase::AwaitingFinalReply => PhaseView::AwaitingFinalReply,
            Phase::RunningTools { round, calls, next } => PhaseView::RunningTools(
                *round as nat,
                pending_view(calls@),
                *next as nat,
            ),
        }
    }
}

/// The first choice's message of an LLM response.
pub struct ReplyMessage {
    pub content: Option<String>,
    pub tool_calls: Option<Vec<ToolCallRequest>>,
}

/// An LLM response, reduced to its first choice (`None` when it has no choices).
pub struct LlmReply {
    pub first_choice: Option<ReplyMessage>,
}

pub struct ReplyMessageView {
    pub content: Option<Seq<char>>,
    pub tool_calls: Option<Seq<ToolCallView>>,
}

pub struct LlmReplyView {
    pub first_choice: Option<ReplyMessageView>,
}

impl View for ReplyMessage {
    type V = ReplyMessageView;

    open spec fn view(&self) -> ReplyMessageView {
        ReplyMessageView {
            content: match self.content {
                Some(c) => Some(c@),
                None => None,
            },
            tool_calls: match self.tool_calls {
                Some(calls) => Some(tool_calls_view(calls@)),
                None => None,
            },
        }
    }
}

impl View for LlmReply {
    type V = LlmReplyView;

    open spec fn view(&self) -> LlmReplyView {
        LlmReplyView {
            first_choice: match self.first_choice {
                Some(m) => Some(m@),
                None => None,
            },
        }
    }
}

/// Why a turn ended without a reply.
#[derive(Clone, Copy, Debug, PartialEq, Eq, Structural)]
pub enum AgentError {
    /// The LLM response had no choices.
    EmptyResponse,
    /// An event arrived that the current phase does not expect.
    UnexpectedEvent,
}

/// What the caller must do next.
pub enum AgentAction {
    /// Send the conversation and the tool schemas to the LLM and hand back its reply.
    CallLlm,
    /// Send the conversation without any tools, so that the model must answer in
    /// text, and hand back its reply.
    CallLlmWithoutTools,
    /// Run this function call and hand back its output text.
    RunTool(PendingCall),
    /// The turn is over; this is the assistant's answer.
    Reply(String),
    /// The turn is over without an answer.
    Fail(AgentError),
}

pub enum AgentActionView {
    CallLlm,
    CallLlmWithoutTools,
    RunTool(PendingCallView),
    Reply(Seq<char>),
    Fail(AgentError),
}

impl View for AgentAction {
    type V = AgentActionView;

    open spec fn view(&self) -> AgentActionView {
        match self {
            AgentAction::CallLlm => AgentActionView::CallLlm,
            AgentAction::CallLlmWithoutTools => AgentActionView::CallLlmWithoutTools,
            AgentAction::RunTool(c) => AgentActionView::RunTool(c@),
            AgentAction::Reply(t) => AgentActionView::Reply(t@),
            AgentAction::Fail(e) => AgentActionView::Fail(*e),
        }
    }
}

/// The conversation state: the message history sent to the LLM, the tool
/// schemas offered with it, and the phase of the current turn.
pub struct Agent {
    messages: Vec<ChatMessage>,
    tool_defs: Vec<ToolSpec>,
    phase: Phase,
}

pub struct AgentView {
    pub messages: Seq<MessageView>,
    pub tool_defs: Seq<ToolSpecView>,
    pub phase: PhaseView,
}

impl Agent {
    pub closed spec fn agent_view(&self) -> AgentView {
        AgentView {
            messages: messages_view(self.messages@),
            tool_defs: tool_specs_view(self.tool_defs@),
            phase: self.phase@,
        }
    }
}

impl View for Agent {
    type V = AgentView;

    open spec fn view(&self) -> AgentView {
        self.agent_view()
    }
}

/// The state invariant: the history opens with the system prompt, the schemas
/// are those of the tools, and the round of a turn in progress is below the limit.
pub open spec fn agent_wf(s: AgentView) -> bool {
    &&& s.messages.len() >= 1
    &&& s.messages[0] == MessageView::System(system_prompt())
    &&& s.tool_defs == spec_tool_definitions()
    &&& match s.phase {
        PhaseView::Idle => true,
        PhaseView::AwaitingReply(round) => round < MAX_TOOL_ROUNDS,
        PhaseView::AwaitingFinalReply => true,
        PhaseView::RunningTools(round, calls, next) => round < MAX_TOOL_ROUNDS && next < calls.len(),
    }
}

/// The text of a reply message: its content, or empty when it has none.
pub open spec fn reply_text(content: Option<Seq<char>>) -> Seq<char> {
    match content {
        Some(c) => c,
        None => Seq::empty(),
    }
}

/// Starting a turn: the user's message is appended and round 0 begins.
pub open spec fn spec_begin_turn(s: AgentView, input: Seq<char>) -> (AgentView, AgentActionView) {
    (
        AgentView {
            messages: s.messages.push(MessageView::User(input)),
            tool_defs: s.tool_defs,
            phase: PhaseView::AwaitingReply(0),
        },
        AgentActionView::CallLlm,
    )
}

/// The end of a tool round: another LLM request while rounds remain; once they
/// are used up, one request without tools, which forces a text answer.
pub open spec fn spec_after_round(s: AgentView, round: nat) -> (AgentView, AgentActionView) {
    if round + 1 < MAX_TOOL_ROUNDS {
        (
            AgentView { messages: s.messages, tool_defs: s.tool_defs, phase: PhaseView::AwaitingReply(round + 1) },
            AgentActionView::CallLlm,
        )
    } else {
        (
            AgentView { messages: s.messages, tool_defs: s.tool_defs, phase: PhaseView::AwaitingFinalReply },
            AgentActionView::CallLlmWithoutTools,
        )
    }
}

/// Handling an LLM reply.
pub open spec fn spec_on_llm_reply(s: AgentView, reply: LlmReplyView) -> (AgentView, AgentActionView) {
    match s.phase {
        PhaseView::AwaitingReply(round) => match reply.first_choice {
            None => (
                AgentView { messages: s.messages, tool_defs: s.tool_defs, phase: PhaseView::Idle },
                AgentActionView::Fail(AgentError::EmptyResponse),
            ),
            Some(m) => {
                let text = reply_text(m.content);
                if m.tool_calls is Some && m.tool_calls->0.len() > 0 {
                    let calls = m.tool_calls->0;
                    let messages = s.messages.push(MessageView::Assistant(text, Some(calls)));
                    let pending = function_calls(calls);
                    if pending.len() > 0 {
                        (
                            AgentView {
                                messages,
                                tool_defs: s.tool_defs,
                                phase: PhaseView::RunningTools(round, pending, 0),
                            },
                            AgentActionView::RunTool(pending[0]),
                        )
                    } else {
                        spec_after_round(
                            AgentView { messages, tool_defs: s.tool_defs, phase: s.phase },
                            round,
                        )
                    }
                } else {
                    (
                        AgentView {
                            messages: s.messages.push(MessageView::Assistant(text, None)),
                            tool_defs: s.tool_defs,
                            phase: PhaseView::Idle,
                        },
                        AgentActionView::Reply(text),
                    )
                }
            },
        },
        PhaseView::AwaitingFinalReply => match reply.first_choice {
            None => (
                AgentView { messages: s.messages, tool_defs: s.tool_defs, phase: PhaseView::Idle },
                AgentActionView::Fail(AgentError::EmptyResponse),
            ),
            Some(m) => {
                let text = reply_text(m.content);
                (
                    AgentView {
                        messages: s.messages.push(MessageView::Assistant(text, None)),
                        tool_defs: s.tool_defs,
                        phase: PhaseView::Idle,
                    },
                    AgentActionView::Reply(text),
                )
            },
        },
        _ => (s, AgentActionView::Fail(AgentError::UnexpectedEvent)),
    }
}

/// Handling the output of the tool call that was being run.
pub open spec fn spec_on_tool_output(s: AgentView, output: Seq<char>) -> (AgentView, AgentActionView) {
    match s.phase {
        PhaseView::RunningTools(round, calls, next) => if next < calls.len() {
            let messages = s.messages.push(MessageView::Tool(calls[next as int].id, output));
            if next + 1 < calls.len() {
                (
                    AgentView {
                        messages,
                        tool_defs: s.tool_defs,
                        phase: PhaseView::RunningTools(round, calls, next + 1),
                    },
                    AgentActionView::RunTool(calls[next + 1 as int]),
                )
            } else {
                spec_after_round(AgentView { messages, tool_defs: s.tool_defs, phase: s.phase }, round)
            }
        } else {
            (s, AgentActionView::Fail(AgentError::UnexpectedEvent))
        },
        _ => (s, AgentActionView::Fail(AgentError::UnexpectedEvent)),
    }
}


/// Why a tool call produced no output of its own.
#[derive(Clone, Copy, Debug, PartialEq, Eq, Structural)]
pub enum ToolFailure {
    /// The call's name or arguments could not be decoded.
    InvalidArguments,
    /// The tool ran and failed.
    ExecutionFailed,
}

/// The error text reported to the model for a failed tool call, followed by the
/// failure's detail.
pub open spec fn tool_failure_text(failure: ToolFailure, detail: Seq<char>) -> Seq<char> {
    match failure {
        ToolFailure::InvalidArguments => "Invalid tool arguments: "@ + detail,
        ToolFailure::ExecutionFailed => "Tool execution failed: "@ + detail,
    }
}

/// The error text reported to the model, under `error`, when a tool call fails.
pub fn tool_failure_message(failure: ToolFailure, detail: &str) -> (s: String)
    ensures
        s@ == tool_failure_text(failure, detail@),
{
    let mut s = match failure {
        ToolFailure::InvalidArguments => String::from_str("Invalid tool arguments: "),
        ToolFailure::ExecutionFailed => String::from_str("Tool execution failed: "),
    };
    s.append(detail);
    s
}

/// An outcome handed back to the loop.
pub enum AgentEvent {
    /// The LLM answered the outstanding request.
    LlmReply(LlmReplyView),
    /// The tool call being run produced this output.
    ToolOutput(Seq<char>),
}

/// One step of the loop on an event.
pub open spec fn spec_step(s: AgentView, e: AgentEvent) -> (AgentView, AgentActionView) {
    match e {
        AgentEvent::LlmReply(r) => spec_on_llm_reply(s, r),
        AgentEvent::ToolOutput(o) => spec_on_tool_output(s, o),
    }
}

/// Whether an action is an LLM request.
pub open spec fn is_llm_request(a: AgentActionView) -> bool {
    a is CallLlm || a is CallLlmWithoutTools
}

/// How many LLM requests offering tools the loop asks for while it processes
/// `events` in order.
pub open spec fn tool_requests(s: AgentView, events: Seq<AgentEvent>) -> nat
    decreases events.len(),
{
    if events.len() == 0 {
        0
    } else {
        let (next, action) = spec_step(s, events[0]);
        (if action is CallLlm {
            1nat
        } else {
            0nat
        }) + tool_requests(next, events.drop_first())
    }
}

/// How many LLM requests of either kind the loop asks for while it processes
/// `events` in order.
pub open spec fn llm_requests(s: AgentView, events: Seq<AgentEvent>) -> nat
    decreases events.len(),
{
    if events.len() == 0 {
        0
    } else {
        let (next, action) = spec_step(s, events[0]);
        (if is_llm_request(action) {
            1nat
        } else {
            0nat
        }) + llm_requests(next, events.drop_first())
    }
}

/// How many more requests offering tools the current turn may still ask for.
pub open spec fn tool_requests_left(p: PhaseView) -> nat {
    match p {
        PhaseView::Idle => 0,
        PhaseView::AwaitingFinalReply => 0,
        PhaseView::AwaitingReply(round) => (MAX_TOOL_ROUNDS - 1 - round) as nat,
        PhaseView::RunningTools(round, _, _) => (MAX_TOOL_ROUNDS - 1 - round) as nat,
    }
}

/// How many more LLM requests of either kind the current turn may still ask for:
/// the remaining tool requests and the one that forces a text answer.
pub open spec fn requests_left(p: PhaseView) -> nat {
    match p {
        PhaseView::Idle => 0,
        PhaseView::AwaitingFinalReply => 0,
        PhaseView::AwaitingReply(round) => (MAX_TOOL_ROUNDS - round) as nat,
        PhaseView::RunningTools(round, _, _) => (MAX_TOOL_ROUNDS - round) as nat,
    }
}

/// Every step keeps the state invariant, appends at most one message to the
/// history without touching the earlier ones, and spends a request only when it
/// asks for one.
pub proof fn lemma_step_keeps_invariant(s: AgentView, e: AgentEvent)
    requires
        agent_wf(s),
    ensures
        agent_wf(spec_step(s, e).0),
        s.messages.len() <= spec_step(s, e).0.messages.len() <= s.messages.len() + 1,
        spec_step(s, e).0.messages.take(s.messages.len() as int) == s.messages,
        spec_step(s, e).1 is CallLlm ==> tool_requests_left(spec_step(s, e).0.phase) + 1 == tool_requests_left(s.phase),
        !(spec_step(s, e).1 is CallLlm) ==> tool_requests_left(spec_step(s, e).0.phase) <= tool_requests_left(s.phase),
        is_llm_request(spec_step(s, e).1) ==> requests_left(spec_step(s, e).0.phase) + 1 == requests_left(s.phase),
        !is_llm_request(spec_step(s, e).1) ==> requests_left(spec_step(s, e).0.phase) <= requests_left(s.phase),
{
    let (n, a) = spec_step(s, e);
    assert(n.messages.take(s.messages.len() as int) =~= s.messages);
}

/// While the loop processes events, it asks for no more LLM requests, of either
/// kind, than the turn has left.
pub proof fn lemma_requests_within_budget(s: AgentView, events: Seq<AgentEvent>)
    requires
        agent_wf(s),
    ensures
        tool_requests(s, events) <= tool_requests_left(s.phase),
        llm_requests(s, events) <= requests_left(s.phase),
    decreases events.len(),
{
    if events.len() > 0 {
        lemma_step_keeps_invariant(s, events[0]);
        lemma_requests_within_budget(spec_step(s, events[0]).0, events.drop_first());
    }
}

/// A turn offers tools to the LLM in at most `MAX_TOOL_ROUNDS` requests (the
/// first one when it starts, the rest while it runs), and sends at most one more
/// request, without tools, whatever the replies and tool outputs.
pub proof fn lemma_turn_requests_bounded(s: AgentView, input: Seq<char>, events: Seq<AgentEvent>)
    requires
        agent_wf(s),
    ensures
        1 + tool_requests(spec_begin_turn(s, input).0, events) <= MAX_TOOL_ROUNDS,
        1 + llm_requests(spec_begin_turn(s, input).0, events) <= MAX_TOOL_ROUNDS + 1,
{
    lemma_requests_within_budget(spec_begin_turn(s, input).0, events);
}

/// When the last tool round ends, the loop asks for a reply without tools.
pub proof fn lemma_last_round_forces_text(s: AgentView, round: nat)
    requires
        round + 1 >= MAX_TOOL_ROUNDS,
    ensures
        spec_after_round(s, round).1 == AgentActionView::CallLlmWithoutTools,
        spec_after_round(s, round).0.phase == PhaseView::AwaitingFinalReply,
{
}

/// The reply to the request without tools ends the turn with a text answer (the
/// reply's content, empty when it has none) recorded as a plain assistant message;
/// no tool call of it is run. Only a reply with no choices fails.
pub proof fn lemma_forced_reply_is_text(s: AgentView, reply: LlmReplyView)
    requires
        s.phase == PhaseView::AwaitingFinalReply,
    ensures
        reply.first_choice matches Some(m) ==> {
            &&& spec_on_llm_reply(s, reply).1 == AgentActionView::Reply(reply_text(m.content))
            &&& spec_on_llm_reply(s, reply).0.messages == s.messages.push(
                MessageView::Assistant(reply_text(m.content), None),
            )
            &&& spec_on_llm_reply(s, reply).0.phase == PhaseView::Idle
        },
        reply.first_choice is None ==> spec_on_llm_reply(s, reply).1 == AgentActionView::Fail(
            AgentError::EmptyResponse,
        ),
{
}

/// Starting a turn keeps the invariant and keeps the earlier history.
pub proof fn lemma_begin_turn_keeps_history(s: AgentView, input: Seq<char>)
    requires
        agent_wf(s),
    ensures
        agent_wf(spec_begin_turn(s, input).0),
        spec_begin_turn(s, input).0.messages == s.messages.push(MessageView::User(input)),
{
}

/// A tool output is recorded as the answer to the call being run, and the next
/// function call of the same reply, if any, is the one run next.
pub proof fn lemma_tool_output_answers_current_call(s: AgentView, output: Seq<char>)
    requires
        agent_wf(s),
        s.phase is RunningTools,
    ensures
        s.phase matches PhaseView::RunningTools(round, calls, next) ==> {
            &&& spec_on_tool_output(s, output).0.messages == s.messages.push(
                MessageView::Tool(calls[next as int].id, output),
            )
            &&& next + 1 < calls.len() ==> spec_on_tool_output(s, output).1 == AgentActionView::RunTool(
                calls[next + 1 as int],
            )
        },
{
}

/// Feeds tool outputs to the loop one after another.
pub open spec fn feed_tool_outputs(s: AgentView, outputs: Seq<Seq<char>>) -> AgentView
    decreases outputs.len(),
{
    if outputs.len() == 0 {
        s
    } else {
        feed_tool_outputs(spec_on_tool_output(s, outputs[0]).0, outputs.drop_first())
    }
}

/// The tool messages that answer `calls[from..]` with `outputs`, in order.
pub open spec fn tool_answers(calls: Seq<PendingCallView>, from: nat, outputs: Seq<Seq<char>>) -> Seq<
    MessageView,
> {
    Seq::new(outputs.len(), |i: int| MessageView::Tool(calls[from + i].id, outputs[i]))
}

/// Once a reply's function calls start running, handing back one output per
/// remaining call appends exactly one tool message per call, in call order and
/// with the call's id, and nothing else.
pub proof fn lemma_round_answers_every_call(s: AgentView, outputs: Seq<Seq<char>>)
    requires
        agent_wf(s),
        s.phase is RunningTools,
        outputs.len() == s.phase->RunningTools_1.len() - s.phase->RunningTools_2,
    ensures
        feed_tool_outputs(s, outputs).messages == s.messages + tool_answers(
            s.phase->RunningTools_1,
            s.phase->RunningTools_2,
            outputs,
        ),
    decreases outputs.len(),
{
    let calls = s.phase->RunningTools_1;
    let next = s.phase->RunningTools_2;
    let s1 = spec_on_tool_output(s, outputs[0]).0;
    if outputs.len() == 1 {
        assert(feed_tool_outputs(s1, outputs.drop_first()) == s1);
        assert(s1.messages =~= s.messages + tool_answers(calls, next, outputs));
    } else {
        lemma_step_keeps_invariant(s, AgentEvent::ToolOutput(outputs[0]));
        assert(spec_step(s, AgentEvent::ToolOutput(outputs[0])).0 == s1);
        lemma_round_answers_every_call(s1, outputs.drop_first());
        assert(s1.messages == s.messages.push(MessageView::Tool(calls[next as int].id, outputs[0])));
        assert(s.messages + tool_answers(calls, next, outputs) =~= s1.messages + tool_answers(
            calls,
            next + 1,
            outputs.drop_first(),
        ));
    }
}

/// How many of `calls` are function calls.
pub open spec fn count_function_calls(calls: Seq<ToolCallView>) -> nat
    decreases calls.len(),
{
    if calls.len() == 0 {
        0
    } else {
        count_function_calls(calls.drop_last()) + if calls.last() is Function {
            1nat
        } else {
            0nat
        }
    }
}

/// A function call as the loop runs it: the call's own id, name and arguments.
pub open spec fn as_pending(c: ToolCallView) -> PendingCallView {
    PendingCallView { id: c->Function_id, name: c->Function_name, arguments: c->Function_arguments }
}

/// The tool calls of a reply's first choice (none when it has no choice or no calls).
pub open spec fn reply_tool_calls(reply: LlmReplyView) -> Seq<ToolCallView> {
    match reply.first_choice {
        Some(m) => match m.tool_calls {
            Some(calls) => calls,
            None => Seq::empty(),
        },
        None => Seq::empty(),
    }
}

proof fn lemma_no_function_call_in_prefix(calls: Seq<ToolCallView>, i: int)
    requires
        0 <= i <= calls.len(),
        forall|j: int| 0 <= j < i ==> !(#[trigger] calls[j] is Function),
    ensures
        count_function_calls(calls.take(i)) == 0,
    decreases i,
{
    if i > 0 {
        lemma_no_function_call_in_prefix(calls, i - 1);
        assert(calls.take(i).drop_last() =~= calls.take(i - 1));
        assert(calls.take(i).last() == calls[i - 1]);
    }
}

/// The calls that a reply's round runs are exactly its function calls, in order,
/// none dropped and none added: as many as the reply has function calls, and the
/// function call at position `j` of the reply, after the
/// `count_function_calls(calls.take(j))` function calls before it, is run at that
/// place with its own id, name and arguments.
pub proof fn lemma_function_calls_keep_every_function_call(calls: Seq<ToolCallView>)
    ensures
        function_calls(calls).len() == count_function_calls(calls),
        forall|j: int|
            0 <= j < calls.len() && (#[trigger] calls[j]) is Function ==> {
                &&& count_function_calls(calls.take(j)) < function_calls(calls).len()
                &&& function_calls(calls)[count_function_calls(calls.take(j)) as int] == as_pending(calls[j])
            },
    decreases calls.len(),
{
    if calls.len() > 0 {
        let d = calls.drop_last();
        lemma_function_calls_keep_every_function_call(d);
        assert forall|j: int| 0 <= j < calls.len() && (#[trigger] calls[j]) is Function implies {
            &&& count_function_calls(calls.take(j)) < function_calls(calls).len()
            &&& function_calls(calls)[count_function_calls(calls.take(j)) as int] == as_pending(calls[j])
        } by {
            if j < calls.len() - 1 {
                assert(calls.take(j) =~= d.take(j));
                assert(calls[j] == d[j]);
            } else {
                assert(calls.take(j) =~= d);
            }
        }
    }
}

/// A reply to a request with tools whose tool calls include a function call is
/// not taken as the answer, whatever text it carries besides: the assistant
/// message is recorded with the reply's text (its content, empty only when it has
/// none) and all its tool calls, the reply's first function call is run, and the
/// round goes on with the reply's function calls.
pub proof fn lemma_reply_with_function_calls_runs_the_first(s: AgentView, reply: LlmReplyView, i: int)
    requires
        agent_wf(s),
        s.phase is AwaitingReply,
        reply.first_choice is Some,
        reply.first_choice->0.tool_calls is Some,
        0 <= i < reply_tool_calls(reply).len(),
        reply_tool_calls(reply)[i] is Function,
        forall|j: int| 0 <= j < i ==> !(#[trigger] reply_tool_calls(reply)[j] is Function),
    ensures
        spec_on_llm_reply(s, reply).1 == AgentActionView::RunTool(as_pending(reply_tool_calls(reply)[i])),
        spec_on_llm_reply(s, reply).0.messages == s.messages.push(
            MessageView::Assistant(
                match reply.first_choice->0.content {
                    Some(c) => c,
                    None => Seq::empty(),
                },
                Some(reply_tool_calls(reply)),
            ),
        ),
        spec_on_llm_reply(s, reply).0.phase == PhaseView::RunningTools(
            s.phase->AwaitingReply_0,
            function_calls(reply_tool_calls(reply)),
            0,
        ),
        agent_wf(spec_on_llm_reply(s, reply).0),
{
    let calls = reply_tool_calls(reply);
    lemma_function_calls_keep_every_function_call(calls);
    lemma_no_function_call_in_prefix(calls, i);
    assert(calls[i] is Function);
    lemma_step_keeps_invariant(s, AgentEvent::LlmReply(reply));
}

/// A reply to a request with tools that asks for no tool call is the answer: the
/// turn ends with its text (its content, empty only when it has none), recorded
/// as a plain assistant message.
pub proof fn lemma_reply_without_tool_calls_is_the_answer(s: AgentView, reply: LlmReplyView)
    requires
        agent_wf(s),
        s.phase is AwaitingReply,
        reply.first_choice is Some,
        reply_tool_calls(reply).len() == 0,
    ensures
        spec_on_llm_reply(s, reply).1 == AgentActionView::Reply(
            match reply.first_choice->0.content {
                Some(c) => c,
                None => Seq::empty(),
            },
        ),
        spec_on_llm_reply(s, reply).0.messages == s.messages.push(
            MessageView::Assistant(
                match reply.first_choice->0.content {
                    Some(c) => c,
                    None => Seq::empty(),
                },
                None,
            ),
        ),
        spec_on_llm_reply(s, reply).0.phase == PhaseView::Idle,
{
}

/// Handing back the output of a call that is not the last function call of its
/// reply keeps the turn in the same round and runs the next call; only the output
/// of the last call ends the round.
pub proof fn lemma_tool_output_keeps_round(s: AgentView, output: Seq<char>)
    requires
        agent_wf(s),
        s.phase is RunningTools,
        s.phase->RunningTools_2 + 1 < s.phase->RunningTools_1.len(),
    ensures
        spec_on_tool_output(s, output).0.phase == PhaseView::RunningTools(
            s.phase->RunningTools_0,
            s.phase->RunningTools_1,
            s.phase->RunningTools_2 + 1,
        ),
        spec_on_tool_output(s, output).1 == AgentActionView::RunTool(
            s.phase->RunningTools_1[s.phase->RunningTools_2 + 1 as int],
        ),
{
}

/// Where the loop stands after processing `events` in order.
pub open spec fn run_events(s: AgentView, events: Seq<AgentEvent>) -> AgentView
    decreases events.len(),
{
    if events.len() == 0 {
        s
    } else {
        run_events(spec_step(s, events[0]).0, events.drop_first())
    }
}

/// Tool outputs handed back one after another, as events.
pub open spec fn output_events(outputs: Seq<Seq<char>>) -> Seq<AgentEvent> {
    outputs.map_values(|o: Seq<char>| AgentEvent::ToolOutput(o))
}

/// The events of one tool round: the LLM's reply, then the outputs of its calls.
pub open spec fn round_events(reply: LlmReplyView, outputs: Seq<Seq<char>>) -> Seq<AgentEvent> {
    seq![AgentEvent::LlmReply(reply)] + output_events(outputs)
}

/// The events of consecutive tool rounds, reply `j` answered by `outputs[j]`.
pub open spec fn rounds_events(replies: Seq<LlmReplyView>, outputs: Seq<Seq<Seq<char>>>) -> Seq<AgentEvent>
    decreases replies.len(),
{
    if replies.len() == 0 || outputs.len() == 0 {
        Seq::empty()
    } else {
        round_events(replies[0], outputs[0]) + rounds_events(replies.drop_first(), outputs.drop_first())
    }
}

proof fn lemma_run_events_append(s: AgentView, e1: Seq<AgentEvent>, e2: Seq<AgentEvent>)
    ensures
        run_events(s, e1 + e2) == run_events(run_events(s, e1), e2),
        tool_requests(s, e1 + e2) == tool_requests(s, e1) + tool_requests(run_events(s, e1), e2),
    decreases e1.len(),
{
    if e1.len() == 0 {
        assert(e1 + e2 =~= e2);
    } else {
        lemma_run_events_append(spec_step(s, e1[0]).0, e1.drop_first(), e2);
        assert((e1 + e2).drop_first() =~= e1.drop_first() + e2);
        assert((e1 + e2)[0] == e1[0]);
    }
}

/// The phase that follows the end of the tool round numbered `round`.
pub open spec fn phase_after_round(round: nat) -> PhaseView {
    if round + 1 < MAX_TOOL_ROUNDS {
        PhaseView::AwaitingReply(round + 1)
    } else {
        PhaseView::AwaitingFinalReply
    }
}

/// Handing back one output per call still to run ends the round, with one
/// request offering tools while rounds remain and none after the last round.
proof fn lemma_outputs_end_round(s: AgentView, outputs: Seq<Seq<char>>)
    requires
        agent_wf(s),
        s.phase is RunningTools,
        outputs.len() == s.phase->RunningTools_1.len() - s.phase->RunningTools_2,
    ensures
        agent_wf(run_events(s, output_events(outputs))),
        run_events(s, output_events(outputs)).phase == phase_after_round(s.phase->RunningTools_0),
        tool_requests(s, output_events(outputs)) == if s.phase->RunningTools_0 + 1 < MAX_TOOL_ROUNDS {
            1nat
        } else {
            0nat
        },
    decreases outputs.len(),
{
    let events = output_events(outputs);
    let e = AgentEvent::ToolOutput(outputs[0]);
    assert(events[0] == e);
    assert(events.drop_first() =~= output_events(outputs.drop_first()));
    lemma_step_keeps_invariant(s, e);
    let s1 = spec_step(s, e).0;
    assert(events.len() == outputs.len());
    assert(run_events(s, events) == run_events(s1, events.drop_first()));
    assert(tool_requests(s, events) == (if spec_step(s, e).1 is CallLlm {
        1nat
    } else {
        0nat
    }) + tool_requests(s1, events.drop_first()));
    if outputs.len() == 1 {
        assert(events.drop_first().len() == 0);
        assert(run_events(s1, events.drop_first()) == s1);
        assert(tool_requests(s1, events.drop_first()) == 0);
    } else {
        lemma_outputs_end_round(s1, outputs.drop_first());
    }
}

/// One reply that asks for function calls, with one output handed back for each
/// call, uses exactly one round however many calls it holds: from round `r` the
/// loop goes on to round `r + 1` with one more request offering tools, or, after
/// the last round, to the request without tools.
pub proof fn lemma_tool_round_uses_one_round(s: AgentView, reply: LlmReplyView, outputs: Seq<Seq<char>>)
    requires
        agent_wf(s),
        s.phase is AwaitingReply,
        reply.first_choice is Some,
        count_function_calls(reply_tool_calls(reply)) > 0,
        outputs.len() == count_function_calls(reply_tool_calls(reply)),
    ensures
        agent_wf(run_events(s, round_events(reply, outputs))),
        run_events(s, round_events(reply, outputs)).phase == phase_after_round(s.phase->AwaitingReply_0),
        tool_requests(s, round_events(reply, outputs)) == if s.phase->AwaitingReply_0 + 1 < MAX_TOOL_ROUNDS {
            1nat
        } else {
            0nat
        },
{
    let calls = reply_tool_calls(reply);
    lemma_function_calls_keep_every_function_call(calls);
    if calls.len() == 0 {
        assert(count_function_calls(calls) == 0);
    }
    let e = AgentEvent::LlmReply(reply);
    let events = round_events(reply, outputs);
    assert(events[0] == e);
    assert(events.drop_first() =~= output_events(outputs));
    lemma_step_keeps_invariant(s, e);
    let s1 = spec_step(s, e).0;
    assert(s1.phase == PhaseView::RunningTools(s.phase->AwaitingReply_0, function_calls(calls), 0));
    lemma_outputs_end_round(s1, outputs);
}

/// Every reply of `replies` asks for at least one function call, and `outputs[j]`
/// holds one output per function call of reply `j`.
pub open spec fn answered_tool_rounds(replies: Seq<LlmReplyView>, outputs: Seq<Seq<Seq<char>>>) -> bool {
    &&& replies.len() == outputs.len()
    &&& forall|j: int|
        0 <= j < replies.len() ==> {
            &&& (#[trigger] replies[j]).first_choice is Some
            &&& count_function_calls(reply_tool_calls(replies[j])) > 0
            &&& outputs[j].len() == count_function_calls(reply_tool_calls(replies[j]))
        }
}

proof fn lemma_rounds_from(s: AgentView, replies: Seq<LlmReplyView>, outputs: Seq<Seq<Seq<char>>>)
    requires
        agent_wf(s),
        s.phase is AwaitingReply,
        s.phase->AwaitingReply_0 + replies.len() <= MAX_TOOL_ROUNDS,
        answered_tool_rounds(replies, outputs),
    ensures
        agent_wf(run_events(s, rounds_events(replies, outputs))),
        run_events(s, rounds_events(replies, outputs)).phase == if s.phase->AwaitingReply_0 + replies.len()
            < MAX_TOOL_ROUNDS {
            PhaseView::AwaitingReply(s.phase->AwaitingReply_0 + replies.len())
        } else {
            PhaseView::AwaitingFinalReply
        },
        tool_requests(s, rounds_events(replies, outputs)) == if s.phase->AwaitingReply_0 + replies.len()
            < MAX_TOOL_ROUNDS {
            replies.len()
        } else {
            (replies.len() - 1) as nat
        },
    decreases replies.len(),
{
    let r = s.phase->AwaitingReply_0;
    if replies.len() == 0 {
        assert(rounds_events(replies, outputs).len() == 0);
    } else {
        let first = round_events(replies[0], outputs[0]);
        let rest = rounds_events(replies.drop_first(), outputs.drop_first());
        assert(replies[0].first_choice is Some);
        lemma_tool_round_uses_one_round(s, replies[0], outputs[0]);
        lemma_run_events_append(s, first, rest);
        let s1 = run_events(s, first);
        if r + 1 < MAX_TOOL_ROUNDS {
            assert forall|j: int| 0 <= j < replies.drop_first().len() implies {
                &&& (#[trigger] replies.drop_first()[j]).first_choice is Some
                &&& count_function_calls(reply_tool_calls(replies.drop_first()[j])) > 0
                &&& outputs.drop_first()[j].len() == count_function_calls(reply_tool_calls(replies.drop_first()[j]))
            } by {
                assert(replies.drop_first()[j] == replies[j + 1]);
                assert(replies[j + 1].first_choice is Some);
            }
            lemma_rounds_from(s1, replies.drop_first(), outputs.drop_first());
        } else {
            assert(replies.drop_first().len() == 0);
            assert(rest.len() == 0);
        }
    }
}

/// A turn whose LLM replies each ask for at least one function call, with every
/// call answered, spends one round per reply, whatever the number of calls in it:
/// after `n < MAX_TOOL_ROUNDS` such replies the loop waits in round `n` on its
/// `n + 1`-th request offering tools, and after `MAX_TOOL_ROUNDS` of them it has
/// offered tools `MAX_TOOL_ROUNDS` times and asks for the request without tools.
pub proof fn lemma_each_reply_uses_one_round(
    s: AgentView,
    input: Seq<char>,
    replies: Seq<LlmReplyView>,
    outputs: Seq<Seq<Seq<char>>>,
)
    requires
        agent_wf(s),
        replies.len() <= MAX_TOOL_ROUNDS,
        answered_tool_rounds(replies, outputs),
    ensures
        run_events(spec_begin_turn(s, input).0, rounds_events(replies, outputs)).phase == if replies.len()
            < MAX_TOOL_ROUNDS {
            PhaseView::AwaitingReply(replies.len())
        } else {
            PhaseView::AwaitingFinalReply
        },
        1 + tool_requests(spec_begin_turn(s, input).0, rounds_events(replies, outputs)) == if replies.len()
            < MAX_TOOL_ROUNDS {
            replies.len() + 1
        } else {
            MAX_TOOL_ROUNDS as nat
        },
{
    lemma_rounds_from(spec_begin_turn(s, input).0, replies, outputs);
}

impl Agent {
    /// A fresh conversation: the system prompt and the tool schemas, no turn in progress.
    pub fn new() -> (a: Agent)
        ensures
            a@.messages == fresh_history(),
            a@.tool_defs == spec_tool_definitions(),
            a@.phase == PhaseView::Idle,
            agent_wf(a@),
    {
        let mut messages: Vec<ChatMessage> = Vec::new();
        messages.push(system_msg(SYSTEM_PROMPT));
        let a = Agent { messages, tool_defs: tool_definitions(), phase: Phase::Idle };
        assert(a@.messages =~= fresh_history());
        a
    }

    /// The conversation so far.
    pub fn messages(&self) -> (r: &Vec<ChatMessage>)
        ensures
            messages_view(r@) == self@.messages,
    {
        &self.messages
    }

    /// The tool schemas offered with every request.
    pub fn tool_defs(&self) -> (r: &Vec<ToolSpec>)
        ensures
            tool_specs_view(r@) == self@.tool_defs,
    {
        &self.tool_defs
    }

    /// Reset conversation history (keep system prompt).
    pub fn reset(&mut self)
        requires
            agent_wf(old(self)@),
        ensures
            final(self)@.messages == old(self)@.messages.take(1),
            final(self)@.messages == fresh_history(),
            final(self)@.tool_defs == old(self)@.tool_defs,
            final(self)@.phase == old(self)@.phase,
            agent_wf(final(self)@),
    {
        self.messages.truncate(1);
        assert(messages_view(self.messages@) =~= old(self)@.messages.take(1));
        assert(old(self)@.messages.take(1) =~= fresh_history());
    }

    /// Starts a turn with the user's message; the first action is an LLM request.
    pub fn begin_turn(&mut self, user_input: &str) -> (action: AgentAction)
        requires
            agent_wf(old(self)@),
        ensures
            (final(self)@, action@) == spec_begin_turn(old(self)@, user_input@),
            agent_wf(final(self)@),
    {
        self.messages.push(user_msg(user_input));
        self.phase = Phase::AwaitingReply { round: 0 };
        assert(messages_view(self.messages@) =~= old(self)@.messages.push(MessageView::User(user_input@)));
        AgentAction::CallLlm
    }

    /// Ends a tool round: asks for another LLM request while rounds remain, then
    /// for one without tools.
    fn finish_round(&mut self, round: usize) -> (action: AgentAction)
        requires
            round < MAX_TOOL_ROUNDS,
        ensures
            (final(self)@, action@) == spec_after_round(old(self)@, round as nat),
    {
        if round + 1 < MAX_TOOL_ROUNDS {
            self.phase = Phase::AwaitingReply { round: round + 1 };
            AgentAction::CallLlm
        } else {
            self.phase = Phase::AwaitingFinalReply;
            AgentAction::CallLlmWithoutTools
        }
    }

    /// Takes the LLM's reply to the outstanding request.
    pub fn on_llm_reply(&mut self, reply: LlmReply) -> (action: AgentAction)
        requires
            agent_wf(old(self)@),
        ensures
            (final(self)@, action@) == spec_on_llm_reply(old(self)@, reply@),
            agent_wf(final(self)@),
    {
        let round = match &self.phase {
            Phase::AwaitingReply { round } => *round,
            Phase::AwaitingFinalReply => {
                return self.on_forced_reply(reply);
            },
            _ => {
                return AgentAction::Fail(AgentError::UnexpectedEvent);
            },
        };
        match reply.first_choice {
            None => {
                self.phase = Phase::Idle;
                AgentAction::Fail(AgentError::EmptyResponse)
            },
            Some(m) => {
                let ghost mv = m@;
                let text = match &m.content {
                    Some(c) => c.clone(),
                    None => String::new(),
                };
                assert(text@ == reply_text(mv.content));
                match m.tool_calls {
                    Some(calls) if calls.len() > 0 => {
                        let pending = function_calls_of(&calls);
                        let ghost calls_view = tool_calls_view(calls@);
                        self.messages.push(ChatMessage::Assistant { content: text, tool_calls: Some(calls) });
                        assert(messages_view(self.messages@) =~= old(self)@.messages.push(
                            MessageView::Assistant(reply_text(mv.content), Some(calls_view)),
                        ));
                        if pending.len() > 0 {
                            let first = pending[0].duplicate();
                            self.phase = Phase::RunningTools { round, calls: pending, next: 0 };
                            AgentAction::RunTool(first)
                        } else {
                            self.finish_round(round)
                        }
                    },
                    _ => {
                        let answer = text.clone();
                        self.messages.push(ChatMessage::Assistant { content: text, tool_calls: None });
                        assert(messages_view(self.messages@) =~= old(self)@.messages.push(
                            MessageView::Assistant(reply_text(mv.content), None),
                        ));
                        self.phase = Phase::Idle;
                        AgentAction::Reply(answer)
                    },
                }
            },
        }
    }

    /// Takes the reply to the request without tools: its text is the answer.
    fn on_forced_reply(&mut self, reply: LlmReply) -> (action: AgentAction)
        requires
            old(self)@.phase == PhaseView::AwaitingFinalReply,
            agent_wf(old(self)@),
        ensures
            (final(self)@, action@) == spec_on_llm_reply(old(self)@, reply@),
    {
        match reply.first_choice {
            None => {
                self.phase = Phase::Idle;
                AgentAction::Fail(AgentError::EmptyResponse)
            },
            Some(m) => {
                let ghost mv = m@;
                let text = match &m.content {
                    Some(c) => c.clone(),
                    None => String::new(),
                };
                let answer = text.clone();
                self.messages.push(ChatMessage::Assistant { content: text, tool_calls: None });
                assert(messages_view(self.messages@) =~= old(self)@.messages.push(
                    MessageView::Assistant(reply_text(mv.content), None),
                ));
                self.phase = Phase::Idle;
                AgentAction::Reply(answer)
            },
        }
    }

    /// Takes the output of the tool call that was being run.
    pub fn on_tool_output(&mut self, output: &str) -> (action: AgentAction)
        requires
            agent_wf(old(self)@),
        ensures
            (final(self)@, action@) == spec_on_tool_output(old(self)@, output@),
            agent_wf(final(self)@),
    {
        let mut phase = Phase::Idle;
        std::mem::swap(&mut phase, &mut self.phase);
        match phase {
            Phase::RunningTools { round, calls, next } => {
                if next < calls.len() {
                    let id = calls[next].id.clone();
                    self.messages.push(ChatMessage::Tool { tool_call_id: id, content: String::from_str(output) });
                    assert(messages_view(self.messages@) =~= old(self)@.messages.push(
                        MessageView::Tool(pending_view(calls@)[next as int].id, output@),
                    ));
                    if next + 1 < calls.len() {
                        let call = calls[next + 1].duplicate();
                        self.phase = Phase::RunningTools { round, calls, next: next + 1 };
                        AgentAction::RunTool(call)
                    } else {
                        self.finish_round(round)
                    }
                } else {
                    self.phase = Phase::RunningTools { round, calls, next };
                    AgentAction::Fail(AgentError::UnexpectedEvent)
                }
            },
            other => {
                self.phase = other;
                AgentAction::Fail(AgentError::UnexpectedEvent)
            },
        }
    }
}

} // verus!
