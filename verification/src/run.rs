//! The tool-call orchestration loop, as a state machine.
//!
//! One user query runs through at most two chat-completion calls: the first
//! advertises the tool descriptor; if the model requests tool calls, each is
//! executed in order and its result appended to the conversation before the
//! second call produces the final answer. The decisions all live here, in
//! [`orch_step`]; the driver around the library only performs the chat and
//! tool I/O that the returned [`Action`] names.

use vstd::prelude::*;

use crate::executor::ExecError;
use crate::json::JsonValue;
use crate::json::json_parse;
use crate::json::json_text;
use crate::json::jval_of;
use crate::json::render_json;
use crate::payload::BridgeInvokePayload;
use crate::payload::payload_from_text;
use crate::payload::payload_of_parsed;

verus! {

/// Why a model response finished.
#[derive(Clone, Copy, PartialEq, Eq, Structural, Debug)]
pub enum FinishReason {
    Stop,
    Length,
    ContentFilter,
    ToolCalls,
    InsufficientSystemResource,
}

/// A model-issued request to run one tool: an opaque correlation id, the
/// advertised function's name, and raw JSON argument text.
pub struct ToolCall {
    pub id: String,
    pub function_name: String,
    pub arguments: String,
}

/// The model of a tool call.
pub struct ToolCallModel {
    pub id: Seq<char>,
    pub function_name: Seq<char>,
    pub arguments: Seq<char>,
}

impl DeepView for ToolCall {
    type V = ToolCallModel;

    open spec fn deep_view(&self) -> ToolCallModel {
        ToolCallModel {
            id: self.id@,
            function_name: self.function_name@,
            arguments: self.arguments@,
        }
    }
}

impl ToolCall {
    /// A field-by-field copy.
    fn duplicate(&self) -> (r: ToolCall)
        ensures
            r.deep_view() == self.deep_view(),
    {
        ToolCall {
            id: self.id.clone(),
            function_name: self.function_name.clone(),
            arguments: self.arguments.clone(),
        }
    }
}

/// A field-by-field copy of a tool-call list.
fn duplicate_calls(calls: &Vec<ToolCall>) -> (r: Vec<ToolCall>)
    ensures
        r.deep_view() == calls.deep_view(),
{
    let mut r: Vec<ToolCall> = Vec::new();
    let mut i: usize = 0;
    while i < calls.len()
        invariant
            0 <= i <= calls@.len(),
            r.deep_view() =~= calls.deep_view().take(i as int),
        decreases calls@.len() - i,
    {
        let d = calls[i].duplicate();
        let ghost dv = d.deep_view();
        let ghost prev = r.deep_view();
        r.push(d);
        proof {
            assert(r.deep_view() =~= prev.push(dv));
            assert(dv == calls.deep_view()[i as int]);
            assert(calls.deep_view().take(i as int + 1) =~= calls.deep_view().take(
                i as int,
            ).push(calls.deep_view()[i as int]));
        }
        i = i + 1;
    }
    proof {
        assert(r.deep_view() =~= calls.deep_view());
    }
    r
}

/// The message carried by a model response: its text and, when the model
/// requests tool execution, the ordered tool calls.
pub struct AssistantMessage {
    pub content: String,
    pub tool_calls: Option<Vec<ToolCall>>,
}

/// One response choice: why it finished and, when present, its message.
pub struct Choice {
    pub finish_reason: FinishReason,
    pub message: Option<AssistantMessage>,
}

/// A chat-completion response; the first choice leads.
pub struct ChatResponse {
    pub choices: Vec<Choice>,
}

/// One conversation entry.
pub enum Message {
    System { content: String },
    User { content: String },
    Assistant { content: String, tool_calls: Option<Vec<ToolCall>> },
    ToolResult { content: String, tool_call_id: String },
}

/// The id a tool-result message refers back to, if the message is one.
pub open spec fn tool_result_ref(m: Message) -> Option<Seq<char>> {
    match m {
        Message::ToolResult { tool_call_id, .. } => Some(tool_call_id@),
        _ => None,
    }
}

/// Whether `m` is an assistant message announcing a tool call with this id.
pub open spec fn announces(m: Message, id: Seq<char>) -> bool {
    m matches Message::Assistant { tool_calls: Some(tc), .. } && exists|k: int|
        0 <= k < tc.deep_view().len() && (#[trigger] tc.deep_view()[k]).id == id
}

/// The conversation invariant: every tool-result message refers back to a
/// tool call announced by an earlier assistant message.
pub open spec fn conv_wf(conv: Seq<Message>) -> bool {
    forall|i: int|
        0 <= i < conv.len() ==> match #[trigger] tool_result_ref(conv[i]) {
            Some(id) => exists|j: int| 0 <= j < i && #[trigger] announces(conv[j], id),
            None => true,
        }
}

/// Appending a message that is no tool result preserves the conversation
/// invariant.
proof fn lemma_conv_wf_push_other(conv: Seq<Message>, m: Message)
    requires
        conv_wf(conv),
        tool_result_ref(m) is None,
    ensures
        conv_wf(conv.push(m)),
{
    let conv2 = conv.push(m);
    assert forall|i: int| 0 <= i < conv2.len() implies match #[trigger] tool_result_ref(
        conv2[i],
    ) {
        Some(id) => exists|j: int| 0 <= j < i && #[trigger] announces(conv2[j], id),
        None => true,
    } by {
        if i < conv.len() {
            assert(conv2[i] == conv[i]);
            match tool_result_ref(conv[i]) {
                Some(id) => {
                    let j = choose|j: int| 0 <= j < i && #[trigger] announces(conv[j], id);
                    assert(conv2[j] == conv[j]);
                    assert(announces(conv2[j], id));
                },
                None => {},
            }
        } else {
            assert(conv2[i] == m);
        }
    }
}

/// Appending a tool result whose id some earlier message announces preserves
/// the conversation invariant.
proof fn lemma_conv_wf_push_result(conv: Seq<Message>, m: Message, id: Seq<char>, at: int)
    requires
        conv_wf(conv),
        tool_result_ref(m) == Some(id),
        0 <= at < conv.len(),
        announces(conv[at], id),
    ensures
        conv_wf(conv.push(m)),
{
    let conv2 = conv.push(m);
    assert forall|i: int| 0 <= i < conv2.len() implies match #[trigger] tool_result_ref(
        conv2[i],
    ) {
        Some(id2) => exists|j: int| 0 <= j < i && #[trigger] announces(conv2[j], id2),
        None => true,
    } by {
        if i < conv.len() {
            assert(conv2[i] == conv[i]);
            match tool_result_ref(conv[i]) {
                Some(id2) => {
                    let j = choose|j: int| 0 <= j < i && #[trigger] announces(conv[j], id2);
                    assert(conv2[j] == conv[j]);
                    assert(announces(conv2[j], id2));
                },
                None => {},
            }
        } else {
            assert(conv2[i] == m);
            assert(conv2[at] == conv[at]);
            match tool_result_ref(conv2[i]) {
                Some(id2) => {
                    assert(id2 == id);
                    assert(announces(conv2[at], id2));
                },
                None => {},
            }
        }
    }
}

/// Why an orchestration run failed.
pub enum OrchFailure {
    /// A chat-completion call failed; surfaced directly.
    Chat,
    /// A tool execution failed, aborting the batch; carries the failing
    /// tool's name and the cause.
    Tool { tool: String, cause: ExecError },
}

/// The orchestration's state across one user query.
pub enum Phase {
    /// The opening conversation is out; the first response is awaited.
    AwaitFirst { conv: Vec<Message> },
    /// Tool calls run in order; `next` indexes the call whose result is
    /// awaited.
    RunTools { conv: Vec<Message>, calls: Vec<ToolCall>, next: usize },
    /// Every tool result is appended; the final response is awaited.
    AwaitFinal { conv: Vec<Message> },
    /// The run ended with the model's answer, or with none.
    Done { answer: Option<String> },
    /// The run ended in failure.
    Failed { failure: OrchFailure },
}

/// What the driver observed since the last step.
pub enum Event {
    /// The chat client answered.
    ChatOk { response: ChatResponse },
    /// The chat client failed.
    ChatFailed,
    /// The backend finished executing the awaited tool call.
    ToolDone { result: Result<JsonValue, ExecError> },
}

/// What the driver must now do.
pub enum Action {
    /// Send the phase's conversation to the chat client, with the tool
    /// descriptor advertised, and hand back the response.
    CallChat,
    /// Execute this payload on the backend and hand back the result.
    RunTool { payload: BridgeInvokePayload },
    /// Nothing: the run is over and the phase holds its outcome.
    Idle,
}

/// The shape of a mid-batch conversation: the opening two messages, the
/// assistant message announcing `calls`, then one tool result per finished
/// call, in order.
pub open spec fn batch_wf(conv: Seq<Message>, calls: Seq<ToolCallModel>, done: int) -> bool {
    &&& conv.len() == 3 + done
    &&& 0 <= done <= calls.len()
    &&& conv[0] is System
    &&& conv[1] is User
    &&& conv[2] matches Message::Assistant { tool_calls: Some(tc), .. } && tc.deep_view()
        == calls
    &&& forall|i: int|
        0 <= i < done ==> match #[trigger] tool_result_ref(conv[3 + i]) {
            Some(id) => id == calls[i].id,
            None => false,
        }
}

/// What each phase guarantees about itself.
pub open spec fn phase_wf(p: Phase) -> bool {
    match p {
        Phase::AwaitFirst { conv } => {
            &&& conv@.len() == 2
            &&& conv@[0] is System
            &&& conv@[1] is User
            &&& conv_wf(conv@)
        },
        Phase::RunTools { conv, calls, next } => {
            &&& next < calls@.len()
            &&& batch_wf(conv@, calls.deep_view(), next as int)
            &&& conv_wf(conv@)
        },
        Phase::AwaitFinal { conv } => conv_wf(conv@),
        Phase::Done { .. } => true,
        Phase::Failed { .. } => true,
    }
}

/// Which events a phase can take; terminal phases take none.
pub open spec fn accepts(phase: Phase, event: Event) -> bool {
    match phase {
        Phase::AwaitFirst { .. } => !(event is ToolDone),
        Phase::RunTools { .. } => event is ToolDone,
        Phase::AwaitFinal { .. } => !(event is ToolDone),
        Phase::Done { .. } => false,
        Phase::Failed { .. } => false,
    }
}

/// The text the orchestration answers with: the message's content, or
/// nothing exactly when the message is absent or its content empty.
pub open spec fn spec_answer_of(message: Option<AssistantMessage>) -> Option<Seq<char>> {
    match message {
        Some(m) => if m.content@.len() == 0 {
            None
        } else {
            Some(m.content@)
        },
        None => None,
    }
}

/// `after` extends `before` by one assistant message that carries `m`'s text
/// and announces `m`'s tool calls.
pub open spec fn appended_assistant(
    before: Seq<Message>,
    after: Seq<Message>,
    m: AssistantMessage,
) -> bool {
    &&& after.len() == before.len() + 1
    &&& after.drop_last() == before
    &&& after.last() matches Message::Assistant { content, tool_calls: Some(tc) } && {
        &&& content@ == m.content@
        &&& m.tool_calls matches Some(orig) && tc.deep_view() == orig.deep_view()
    }
}

/// `after` extends `before` by one tool-result message carrying `content`
/// and referring back to `id`.
pub open spec fn appended_tool_result(
    before: Seq<Message>,
    after: Seq<Message>,
    id: Seq<char>,
    content: Seq<char>,
) -> bool {
    &&& after.len() == before.len() + 1
    &&& after.drop_last() == before
    &&& after.last() matches Message::ToolResult { content: c, tool_call_id: t } && c@ == content
        && t@ == id
}

/// The transition relation of the orchestration: everything one step may do.
pub open spec fn spec_transition(phase: Phase, event: Event, after: Phase) -> bool {
    match (phase, event) {
        (Phase::AwaitFirst { .. }, Event::ChatFailed) => after == Phase::Failed {
            failure: OrchFailure::Chat,
        },
        (Phase::AwaitFirst { conv }, Event::ChatOk { response }) => {
            let c = response.choices@[0];
            if c.finish_reason != FinishReason::ToolCalls {
                after matches Phase::Done { answer } && answer.deep_view() == spec_answer_of(
                    c.message,
                )
            } else {
                match c.message {
                    None => after matches Phase::Done { answer: None },
                    Some(m) => match m.tool_calls {
                        None => after matches Phase::Done { answer: None },
                        Some(tc) => if tc.deep_view().len() == 0 {
                            after matches Phase::AwaitFinal { conv: c2 } && appended_assistant(
                                conv@,
                                c2@,
                                m,
                            )
                        } else {
                            after matches Phase::RunTools { conv: c2, calls, next } && {
                                &&& next == 0
                                &&& calls.deep_view() == tc.deep_view()
                                &&& appended_assistant(conv@, c2@, m)
                            }
                        },
                    },
                }
            }
        },
        (Phase::RunTools { conv, calls, next }, Event::ToolDone { result }) => match result {
            Ok(v) => {
                let id = calls.deep_view()[next as int].id;
                let text = json_text(jval_of(v));
                if next + 1 == calls@.len() {
                    after matches Phase::AwaitFinal { conv: c2 } && appended_tool_result(
                        conv@,
                        c2@,
                        id,
                        text,
                    )
                } else {
                    after matches Phase::RunTools { conv: c2, calls: k2, next: n2 } && {
                        &&& k2.deep_view() == calls.deep_view()
                        &&& n2 == next + 1
                        &&& appended_tool_result(conv@, c2@, id, text)
                    }
                }
            },
            Err(e) => after matches Phase::Failed { failure: OrchFailure::Tool { tool, cause } }
                && {
                &&& tool@ == payload_of_parsed(
                    json_parse(calls.deep_view()[next as int].arguments),
                ).tool
                &&& cause == e
            },
        },
        (Phase::AwaitFinal { .. }, Event::ChatFailed) => after == Phase::Failed {
            failure: OrchFailure::Chat,
        },
        (Phase::AwaitFinal { .. }, Event::ChatOk { response }) => after matches Phase::Done {
            answer,
        } && answer.deep_view() == spec_answer_of(response.choices@[0].message),
        _ => false,
    }
}

/// The action a phase calls for: awaiting phases ask for a chat call, a
/// mid-batch phase asks for exactly the next tool call's payload, terminal
/// phases ask for nothing.
pub open spec fn action_fits(p: Phase, a: Action) -> bool {
    match p {
        Phase::AwaitFirst { .. } => a is CallChat,
        Phase::AwaitFinal { .. } => a is CallChat,
        Phase::RunTools { conv, calls, next } => a matches Action::RunTool { payload }
            && payload.deep_view() == payload_of_parsed(
            json_parse(calls.deep_view()[next as int].arguments),
        ),
        Phase::Done { .. } => a is Idle,
        Phase::Failed { .. } => a is Idle,
    }
}

/// The system message that opens every conversation: it binds the model to
/// the `mcp_invoke` contract and names the backend alias and the six tools.
pub open spec fn spec_system_prompt() -> Seq<char> {
    "You may call tools only via `mcp_invoke` with server='iplocate'. Available IPLocate tools:\n- lookup_ip_address_details: Get comprehensive info about an IP\n- lookup_ip_address_location: Get geographic location of an IP\n- lookup_ip_address_privacy: Check if IP is VPN/proxy/Tor\n- lookup_ip_address_network: Get network/ASN info for an IP\n- lookup_ip_address_company: Get company/organization info for an IP\n- lookup_ip_address_abuse_contacts: Get abuse contact info for an IP\nEach tool takes an optional 'ip' parameter (IPv4/IPv6 address)."@
}

/// The opening conversation for a query: the system message, then the user's
/// query.
pub open spec fn opening_conversation(conv: Seq<Message>, query: Seq<char>) -> bool {
    &&& conv.len() == 2
    &&& conv[0] matches Message::System { content } && content@ == spec_system_prompt()
    &&& conv[1] matches Message::User { content } && content@ == query
}

/// Opens a run for one user query: builds the opening conversation and asks
/// the driver for the first chat call.
pub fn start_query(query: &str) -> (r: (Phase, Action))
    ensures
        phase_wf(r.0),
        action_fits(r.0, r.1),
        r.0 matches Phase::AwaitFirst { conv } && opening_conversation(conv@, query@),
{
    let mut conv: Vec<Message> = Vec::new();
    conv.push(
        Message::System {
            content: String::from_str(
                "You may call tools only via `mcp_invoke` with server='iplocate'. Available IPLocate tools:\n- lookup_ip_address_details: Get comprehensive info about an IP\n- lookup_ip_address_location: Get geographic location of an IP\n- lookup_ip_address_privacy: Check if IP is VPN/proxy/Tor\n- lookup_ip_address_network: Get network/ASN info for an IP\n- lookup_ip_address_company: Get company/organization info for an IP\n- lookup_ip_address_abuse_contacts: Get abuse contact info for an IP\nEach tool takes an optional 'ip' parameter (IPv4/IPv6 address).",
            ),
        },
    );
    conv.push(Message::User { content: String::from_str(query) });
    proof {
        assert(tool_result_ref(conv@[0]) is None);
        assert(tool_result_ref(conv@[1]) is None);
    }
    (Phase::AwaitFirst { conv }, Action::CallChat)
}

/// The message's answer text: its content, or nothing when the content is
/// empty.
fn answer_of(message: Option<AssistantMessage>) -> (r: Option<String>)
    ensures
        r.deep_view() == spec_answer_of(message),
{
    match message {
        Some(m) => {
            if m.content.as_str().is_empty() {
                None
            } else {
                Some(m.content)
            }
        },
        None => None,
    }
}

/// Advances the orchestration by one observed event.
///
/// The step is the whole of the loop's decision logic: reading the first
/// response's finish reason, the defensive degradation to no answer,
/// appending the assistant message and each tool result in order, aborting
/// the batch on the first failing tool, and reading the final response.
pub fn orch_step(phase: Phase, event: Event) -> (r: (Phase, Action))
    requires
        phase_wf(phase),
        accepts(phase, event),
        event matches Event::ChatOk { response } ==> response.choices@.len() > 0,
    ensures
        phase_wf(r.0),
        action_fits(r.0, r.1),
        spec_transition(phase, event, r.0),
{
    match (phase, event) {
        (Phase::AwaitFirst { .. }, Event::ChatFailed) => (
            Phase::Failed { failure: OrchFailure::Chat },
            Action::Idle,
        ),
        (Phase::AwaitFirst { conv }, Event::ChatOk { response }) => {
            let mut choices = response.choices;
            let c = choices.remove(0);
            if c.finish_reason != FinishReason::ToolCalls {
                let answer = answer_of(c.message);
                return (Phase::Done { answer }, Action::Idle);
            }
            match c.message {
                None => (Phase::Done { answer: None }, Action::Idle),
                Some(m) => {
                    let AssistantMessage { content, tool_calls } = m;
                    match tool_calls {
                        None => (Phase::Done { answer: None }, Action::Idle),
                        Some(tc) => {
                            let ghost before = conv@;
                            let mut conv = conv;
                            let tc_copy = duplicate_calls(&tc);
                            let assistant = Message::Assistant {
                                content,
                                tool_calls: Some(tc_copy),
                            };
                            proof {
                                assert(tool_result_ref(assistant) is None);
                                lemma_conv_wf_push_other(before, assistant);
                            }
                            conv.push(assistant);
                            proof {
                                assert(conv@.drop_last() =~= before);
                            }
                            if tc.len() == 0 {
                                (Phase::AwaitFinal { conv }, Action::CallChat)
                            } else {
                                let payload = payload_from_text(tc[0].arguments.as_str());
                                (
                                    Phase::RunTools { conv, calls: tc, next: 0 },
                                    Action::RunTool { payload },
                                )
                            }
                        },
                    }
                },
            }
        },
        (Phase::RunTools { conv, calls, next }, Event::ToolDone { result }) => match result {
            Ok(v) => {
                let ghost before = conv@;
                let ghost model = calls.deep_view();
                let mut conv = conv;
                let n = calls.len();
                let content = render_json(&v);
                let tool_call_id = calls[next].id.clone();
                let msg = Message::ToolResult { content, tool_call_id };
                proof {
                    assert(model[next as int].id == calls@[next as int].id@);
                    assert(tool_result_ref(msg) == Some(model[next as int].id));
                    assert(exists|k: int|
                        0 <= k < model.len() && (#[trigger] model[k]).id == model[
                            next as int
                        ].id);
                    assert(announces(before[2], model[next as int].id));
                    lemma_conv_wf_push_result(before, msg, model[next as int].id, 2);
                }
                conv.push(msg);
                let done = next + 1;
                proof {
                    assert(conv@.drop_last() =~= before);
                    assert forall|i: int| 0 <= i < done as int implies (match #[trigger]
                    tool_result_ref(conv@[3 + i]) {
                        Some(id2) => id2 == model[i].id,
                        None => false,
                    }) by {
                        if i < next as int {
                            assert(conv@[3 + i] == before[3 + i]);
                        } else {
                            assert(conv@[3 + i] == msg);
                        }
                    }
                }
                if done == n {
                    (Phase::AwaitFinal { conv }, Action::CallChat)
                } else {
                    let payload = payload_from_text(calls[done].arguments.as_str());
                    proof {
                        assert(model[done as int].arguments == calls@[done as int].arguments@);
                    }
                    (
                        Phase::RunTools { conv, calls, next: done },
                        Action::RunTool { payload },
                    )
                }
            },
            Err(e) => {
                let payload = payload_from_text(calls[next].arguments.as_str());
                proof {
                    assert(calls.deep_view()[next as int].arguments == calls@[
                        next as int
                    ].arguments@);
                }
                (
                    Phase::Failed {
                        failure: OrchFailure::Tool { tool: payload.tool, cause: e },
                    },
                    Action::Idle,
                )
            },
        },
        (Phase::AwaitFinal { .. }, Event::ChatFailed) => (
            Phase::Failed { failure: OrchFailure::Chat },
            Action::Idle,
        ),
        (Phase::AwaitFinal { .. }, Event::ChatOk { response }) => {
            let mut choices = response.choices;
            let c = choices.remove(0);
            let answer = answer_of(c.message);
            (Phase::Done { answer }, Action::Idle)
        },
        _ => unreached(),
    }
}

/// The messages to send for a `CallChat` action: the conversation of an
/// awaiting phase.
pub fn wire_messages(phase: &Phase) -> (r: Option<&Vec<Message>>)
    ensures
        match r {
            Some(ms) => (phase matches Phase::AwaitFirst { conv } && ms@ == conv@) || (
            phase matches Phase::AwaitFinal { conv } && ms@ == conv@),
            None => !(*phase is AwaitFirst) && !(*phase is AwaitFinal),
        },
{
    match phase {
        Phase::AwaitFirst { conv } => Some(conv),
        Phase::AwaitFinal { conv } => Some(conv),
        _ => None,
    }
}

/// Appending the awaited call's tool result extends a well-formed batch by
/// one finished call: together with [`lemma_batch_results_match_calls`],
/// every completed batch ends with exactly one tool-result message per tool
/// call, in order.
pub proof fn lemma_batch_extends(
    conv: Seq<Message>,
    conv2: Seq<Message>,
    calls: Seq<ToolCallModel>,
    next: int,
    text: Seq<char>,
)
    requires
        batch_wf(conv, calls, next),
        next < calls.len(),
        appended_tool_result(conv, conv2, calls[next].id, text),
    ensures
        batch_wf(conv2, calls, next + 1),
{
    assert forall|i: int| 0 <= i < conv.len() implies conv2[i] == conv[i] by {
        assert(conv2.drop_last()[i] == conv2[i]);
    }
    assert forall|i: int| 0 <= i < next + 1 implies (match #[trigger] tool_result_ref(
        conv2[3 + i],
    ) {
        Some(id) => id == calls[i].id,
        None => false,
    }) by {
        if i < next {
            assert(conv2[3 + i] == conv[3 + i]);
        } else {
            assert(conv2[3 + i] == conv2.last());
        }
    }
}

/// After a completed batch, the conversation holds exactly one tool-result
/// message per tool call of the batch, each referring back to its call's id,
/// in the calls' order.
pub proof fn lemma_batch_results_match_calls(
    conv: Seq<Message>,
    calls: Seq<ToolCallModel>,
    done: int,
)
    requires
        batch_wf(conv, calls, done),
        done == calls.len(),
    ensures
        conv.len() == 3 + calls.len(),
        forall|i: int|
            0 <= i < calls.len() ==> #[trigger] tool_result_ref(conv[3 + i]) == Some(
                calls[i].id,
            ),
{
    assert forall|i: int| 0 <= i < calls.len() implies #[trigger] tool_result_ref(conv[3 + i])
        == Some(calls[i].id) by {
        assert(match tool_result_ref(conv[3 + i]) {
            Some(id) => id == calls[i].id,
            None => false,
        });
    }
}

/// A failing tool call ends the run at once: the step's phase is a failure
/// carrying the failing tool's name, and no phase reachable from it accepts
/// any further event — no later call of the batch is ever executed.
pub proof fn lemma_tool_failure_aborts(phase: Phase, event: Event, after: Phase)
    requires
        phase matches Phase::RunTools { .. },
        event matches Event::ToolDone { result } && result is Err,
        spec_transition(phase, event, after),
    ensures
        after matches Phase::Failed { failure: OrchFailure::Tool { .. } },
        forall|e2: Event| !accepts(after, e2),
{
}

} // verus!
