//! Tool execution against interchangeable backends.
//!
//! A [`crate::payload::BridgeInvokePayload`] can be run against a no-op
//! backend (always succeeds, echoes the payload), an HTTP bridge (one POST
//! per call), or the subprocess tool client. Every decision — what to send,
//! how to read what came back, when to fall back — is made here; the driver
//! around the library only performs the I/O it is handed.

use vstd::prelude::*;

use crate::json::JVal;
use crate::json::JsonValue;
use crate::json::jfields_of;
use crate::json::json_parse;
use crate::json::json_text;
use crate::json::jval_of;
use crate::json::parse_json;
use crate::json::render_json;
use crate::payload::BridgeInvokePayload;
use crate::payload::PayloadModel;
use crate::payload::payload_jval;
use crate::payload::payload_to_json;

verus! {

/// Why a tool execution failed: the transport broke (connection, status or
/// decode failure of the HTTP bridge), the deadline elapsed, or the backend
/// answered malformed data.
#[derive(Clone, Copy, PartialEq, Eq, Structural, Debug)]
pub enum ExecError {
    Transport,
    Timeout,
    Protocol,
}

impl ExecError {
    /// A short description of the failure, for the driver's diagnostics.
    pub fn describe(&self) -> (r: String)
        ensures
            *self is Transport ==> r@ == "transport failure while forwarding the tool call"@,
            *self is Timeout ==> r@ == "timeout while executing tool"@,
            *self is Protocol ==> r@ == "malformed response from the tool backend"@,
    {
        match self {
            ExecError::Transport => String::from_str(
                "transport failure while forwarding the tool call",
            ),
            ExecError::Timeout => String::from_str("timeout while executing tool"),
            ExecError::Protocol => String::from_str("malformed response from the tool backend"),
        }
    }
}

/// The interchangeable tool backends: a no-op stand-in, an HTTP bridge
/// addressed by its URL, and the subprocess tool client.
pub enum Backend {
    Noop,
    Http { url: String },
    Subprocess,
}

impl Backend {
    /// Diagnostic identifier of the backend.
    pub fn name(&self) -> (r: String)
        ensures
            *self is Noop ==> r@ == "noop"@,
            *self is Http ==> r@ == "http-bridge"@,
            *self is Subprocess ==> r@ == "iplocate-subprocess"@,
    {
        match self {
            Backend::Noop => String::from_str("noop"),
            Backend::Http { .. } => String::from_str("http-bridge"),
            Backend::Subprocess => String::from_str("iplocate-subprocess"),
        }
    }

    /// Capability gate checked by callers before dispatch; each backend here
    /// accepts every tool name.
    pub fn can_execute(&self, tool: &String) -> (r: bool)
        ensures
            r,
    {
        let _ = tool;
        true
    }
}

/// The result the no-op backend returns: an envelope that notes that no real
/// call was made and echoes the payload under `payload`.
pub open spec fn noop_result(p: PayloadModel) -> JVal {
    JVal::Obj(
        seq![
            ("note"@, JVal::Str("no backend is configured; the tool call was not executed"@)),
            ("payload"@, payload_jval(p)),
        ],
    )
}

/// Runs a payload against the no-op backend: always succeeds, echoing the
/// payload back inside an explanatory envelope.
pub fn noop_execute(payload: BridgeInvokePayload) -> (r: JsonValue)
    ensures
        jval_of(r) == noop_result(payload.deep_view()),
{
    let ghost model = payload.deep_view();
    let note = String::from_str("no backend is configured; the tool call was not executed");
    let mut fs: Vec<(String, JsonValue)> = Vec::new();
    fs.push((String::from_str("note"), JsonValue::Str(note)));
    fs.push((String::from_str("payload"), payload_to_json(payload)));
    let r = JsonValue::Obj(fs);
    proof {
        assert(jfields_of(fs) =~= seq![
            (
                "note"@,
                JVal::Str("no backend is configured; the tool call was not executed"@),
            ),
            ("payload"@, payload_jval(model)),
        ]);
    }
    r
}

/// The no-op backend's envelope carries the payload it was handed, whole
/// and unchanged, under its `payload` member.
pub proof fn lemma_noop_echoes_payload(p: PayloadModel)
    ensures
        noop_result(p) matches JVal::Obj(fs) && crate::json::obj_lookup(fs, "payload"@)
            == Some(payload_jval(p)),
{
    reveal_strlit("note");
    reveal_strlit("payload");
    assert("note"@.len() == 4);
    assert("payload"@.len() == 7);
    let fs = noop_result(p)->Obj_0;
    let s2 = seq![("payload"@, payload_jval(p))];
    assert(fs.drop_first() =~= s2);
    assert(crate::json::obj_lookup(s2, "payload"@) == Some(payload_jval(p)));
}

/// The one I/O step that executing a payload against a backend requires,
/// with everything the driver must send already rendered.
pub enum ExecStep {
    /// No I/O at all: the no-op backend's result is ready.
    Ready { result: JsonValue },
    /// Post `body` to `url`, then hand status and body text to
    /// [`http_result`].
    HttpPost { url: String, body: String },
    /// Call `tool` on the subprocess client with `arguments`, then hand the
    /// outcome to [`subprocess_result`].
    SubprocessCall { tool: String, arguments: JsonValue },
}

/// Plans the execution of one payload: the no-op backend answers at once;
/// the HTTP bridge is sent the payload rendered as the JSON body
/// `{server, tool, arguments}`; the subprocess client is addressed with the
/// payload's tool name and arguments.
pub fn plan_execute(backend: &Backend, payload: BridgeInvokePayload) -> (r: ExecStep)
    ensures
        backend is Noop <==> r is Ready,
        backend is Http <==> r is HttpPost,
        backend is Subprocess <==> r is SubprocessCall,
        r matches ExecStep::Ready { result } ==> jval_of(result) == noop_result(
            payload.deep_view(),
        ),
        r matches ExecStep::HttpPost { url, body } ==> {
            &&& backend matches Backend::Http { url: u } && url@ == u@
            &&& body@ == json_text(payload_jval(payload.deep_view()))
        },
        r matches ExecStep::SubprocessCall { tool, arguments } ==> {
            &&& tool@ == payload.deep_view().tool
            &&& jval_of(arguments) == payload.deep_view().arguments
        },
{
    match backend {
        Backend::Noop => ExecStep::Ready { result: noop_execute(payload) },
        Backend::Http { url } => {
            let rendered = payload_to_json(payload);
            let body = render_json(&rendered);
            ExecStep::HttpPost { url: url.clone(), body }
        },
        Backend::Subprocess => {
            let BridgeInvokePayload { server: _, tool, arguments } = payload;
            ExecStep::SubprocessCall { tool, arguments }
        },
    }
}

/// Reads the HTTP bridge's answer: a response outside the 2xx range, or a
/// body that is not JSON, is a transport failure; otherwise the body's JSON
/// value is returned verbatim.
pub fn http_result(status: u16, body: &str) -> (r: Result<JsonValue, ExecError>)
    ensures
        !(200 <= status < 300) ==> r == Err::<JsonValue, ExecError>(ExecError::Transport),
        200 <= status < 300 ==> match json_parse(body@) {
            Some(j) => r matches Ok(v) && jval_of(v) == j,
            None => r == Err::<JsonValue, ExecError>(ExecError::Transport),
        },
{
    if status < 200 || status >= 300 {
        return Err(ExecError::Transport);
    }
    match parse_json(body) {
        Some(v) => Ok(v),
        None => Err(ExecError::Transport),
    }
}

/// How a subprocess tool call ended, as the driver observed it.
pub enum CallOutcome {
    /// The backend answered; `result_text` holds its full result envelope
    /// rendered as JSON text.
    Completed { result_text: String },
    /// The deadline elapsed before an answer arrived.
    TimedOut,
    /// The request itself could not be completed.
    RequestFailed,
}

/// Reads a subprocess call's outcome: a timeout and a failed request surface
/// as errors, and so does a result envelope that is not JSON; otherwise the
/// envelope's JSON value is returned whole, `is_error` flag included.
pub fn subprocess_result(outcome: CallOutcome) -> (r: Result<JsonValue, ExecError>)
    ensures
        outcome matches CallOutcome::Completed { result_text } ==> match json_parse(
            result_text@,
        ) {
            Some(j) => r matches Ok(v) && jval_of(v) == j,
            None => r == Err::<JsonValue, ExecError>(ExecError::Protocol),
        },
        outcome is TimedOut ==> r == Err::<JsonValue, ExecError>(ExecError::Timeout),
        outcome is RequestFailed ==> r == Err::<JsonValue, ExecError>(ExecError::Protocol),
{
    match outcome {
        CallOutcome::Completed { result_text } => match parse_json(result_text.as_str()) {
            Some(v) => Ok(v),
            None => Err(ExecError::Protocol),
        },
        CallOutcome::TimedOut => Err(ExecError::Timeout),
        CallOutcome::RequestFailed => Err(ExecError::Protocol),
    }
}

/// The fixed catalog used when discovery fails: the six tools the backend is
/// known to serve.
pub open spec fn fallback_catalog() -> Seq<Seq<char>> {
    seq![
        "lookup_ip_address_details"@,
        "lookup_ip_address_location"@,
        "lookup_ip_address_privacy"@,
        "lookup_ip_address_network"@,
        "lookup_ip_address_company"@,
        "lookup_ip_address_abuse_contacts"@,
    ]
}

/// The fixed six-entry tool catalog, for when discovery fails.
pub fn get_fallback_tools() -> (r: Vec<String>)
    ensures
        r.deep_view() == fallback_catalog(),
{
    let mut r: Vec<String> = Vec::new();
    r.push(String::from_str("lookup_ip_address_details"));
    r.push(String::from_str("lookup_ip_address_location"));
    r.push(String::from_str("lookup_ip_address_privacy"));
    r.push(String::from_str("lookup_ip_address_network"));
    r.push(String::from_str("lookup_ip_address_company"));
    r.push(String::from_str("lookup_ip_address_abuse_contacts"));
    proof {
        assert(r.deep_view() =~= fallback_catalog());
    }
    r
}

/// How tool discovery ended, as the driver observed it.
pub enum DiscoveryOutcome {
    /// The backend listed its tools.
    Found { tools: Vec<String> },
    /// The discovery request failed.
    RequestFailed,
    /// The discovery request exceeded its deadline.
    TimedOut,
}

/// Resolves tool discovery: a listed catalog passes through unchanged, and a
/// failure or timeout falls back to the fixed six-entry catalog — discovery
/// is best-effort and never aborts startup.
pub fn list_tools(outcome: DiscoveryOutcome) -> (r: Vec<String>)
    ensures
        outcome matches DiscoveryOutcome::Found { tools } ==> r.deep_view() == tools.deep_view(),
        !(outcome is Found) ==> r.deep_view() == fallback_catalog(),
{
    match outcome {
        DiscoveryOutcome::Found { tools } => tools,
        DiscoveryOutcome::RequestFailed => get_fallback_tools(),
        DiscoveryOutcome::TimedOut => get_fallback_tools(),
    }
}

/// The lifecycle of the subprocess session: spawned, handshaken, then ready,
/// entering `Calling` for the span of each tool call.
#[derive(Clone, Copy, PartialEq, Eq, Structural, Debug)]
pub enum SessionState {
    Disconnected,
    Connecting,
    Ready,
    Calling,
}

/// What the driver observed of the subprocess session.
#[derive(Clone, Copy, PartialEq, Eq, Structural, Debug)]
pub enum SessionEvent {
    SpawnStarted,
    SpawnFailed,
    HandshakeCompleted,
    HandshakeFailed,
    CallStarted,
    CallSettled,
}

/// The session's transition table. A spawn or handshake failure leaves the
/// session `Disconnected` for good — there is no reconnect — and an event
/// that does not belong to the current state changes nothing.
pub open spec fn spec_session_step(state: SessionState, event: SessionEvent) -> SessionState {
    match (state, event) {
        (SessionState::Disconnected, SessionEvent::SpawnStarted) => SessionState::Connecting,
        (SessionState::Connecting, SessionEvent::HandshakeCompleted) => SessionState::Ready,
        (SessionState::Connecting, SessionEvent::SpawnFailed) => SessionState::Disconnected,
        (SessionState::Connecting, SessionEvent::HandshakeFailed) => SessionState::Disconnected,
        (SessionState::Ready, SessionEvent::CallStarted) => SessionState::Calling,
        (SessionState::Calling, SessionEvent::CallSettled) => SessionState::Ready,
        _ => state,
    }
}

/// Advances the subprocess session by one observed event.
pub fn session_step(state: SessionState, event: SessionEvent) -> (r: SessionState)
    ensures
        r == spec_session_step(state, event),
{
    match (state, event) {
        (SessionState::Disconnected, SessionEvent::SpawnStarted) => SessionState::Connecting,
        (SessionState::Connecting, SessionEvent::HandshakeCompleted) => SessionState::Ready,
        (SessionState::Connecting, SessionEvent::SpawnFailed) => SessionState::Disconnected,
        (SessionState::Connecting, SessionEvent::HandshakeFailed) => SessionState::Disconnected,
        (SessionState::Ready, SessionEvent::CallStarted) => SessionState::Calling,
        (SessionState::Calling, SessionEvent::CallSettled) => SessionState::Ready,
        (s, _) => s,
    }
}

/// A session can only become ready through a completed handshake or a
/// settled call: no event takes `Disconnected` straight to `Ready`.
pub proof fn lemma_no_silent_reconnect(state: SessionState, event: SessionEvent)
    requires
        state is Disconnected,
    ensures
        !(spec_session_step(state, event) is Ready),
        !(spec_session_step(state, event) is Calling),
{
}

} // verus!
