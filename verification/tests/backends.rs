//! Backends, payload extraction, the JSON model, the descriptor and the
//! configuration rules, on concrete values.

use mcp_iplocate::config::AppConfig;
use mcp_iplocate::config::ModelKind;
use mcp_iplocate::executor::get_fallback_tools;
use mcp_iplocate::executor::http_result;
use mcp_iplocate::executor::list_tools;
use mcp_iplocate::executor::noop_execute;
use mcp_iplocate::executor::plan_execute;
use mcp_iplocate::executor::session_step;
use mcp_iplocate::executor::subprocess_result;
use mcp_iplocate::executor::Backend;
use mcp_iplocate::executor::CallOutcome;
use mcp_iplocate::executor::DiscoveryOutcome;
use mcp_iplocate::executor::ExecError;
use mcp_iplocate::executor::ExecStep;
use mcp_iplocate::executor::SessionEvent;
use mcp_iplocate::executor::SessionState;
use mcp_iplocate::json::json_obj_get;
use mcp_iplocate::json::json_text_of;
use mcp_iplocate::json::parse_json_text;
use mcp_iplocate::json::JsonValue;
use mcp_iplocate::payload::payload_from_text;
use mcp_iplocate::payload::payload_to_json;
use mcp_iplocate::tooling::mcp_invoke_tool;

#[test]
fn unparseable_arguments_degrade_to_the_default_payload() {
    let p = payload_from_text("definitely not JSON");
    assert_eq!(p.server, "iplocate");
    assert_eq!(p.tool, "");
    assert_eq!(p.arguments, JsonValue::Obj(vec![]));
}

#[test]
fn non_object_arguments_degrade_to_the_default_payload() {
    let p = payload_from_text("[1, 2, 3]");
    assert_eq!(p.server, "iplocate");
    assert_eq!(p.tool, "");
    assert_eq!(p.arguments, JsonValue::Obj(vec![]));
}

#[test]
fn ill_typed_members_degrade_member_by_member() {
    let p = payload_from_text("{\"server\": 7, \"tool\": \"lookup_ip_address_details\"}");
    assert_eq!(p.server, "iplocate");
    assert_eq!(p.tool, "lookup_ip_address_details");
    assert_eq!(p.arguments, JsonValue::Obj(vec![]));
}

#[test]
fn well_formed_arguments_extract_all_three_members() {
    let p = payload_from_text(
        "{\"server\":\"iplocate\",\"tool\":\"lookup_ip_address_privacy\",\
         \"arguments\":{\"ip\":\"1.1.1.1\"}}",
    );
    assert_eq!(p.server, "iplocate");
    assert_eq!(p.tool, "lookup_ip_address_privacy");
    assert_eq!(
        p.arguments,
        JsonValue::Obj(vec![(
            "ip".to_string(),
            JsonValue::Str("1.1.1.1".to_string())
        )])
    );
}

#[test]
fn noop_backend_echoes_the_exact_payload_under_a_payload_key() {
    let args = "{\"server\":\"iplocate\",\"tool\":\"lookup_ip_address_details\",\
                \"arguments\":{\"ip\":\"8.8.8.8\"}}";
    let expected = payload_to_json(payload_from_text(args));
    let envelope = noop_execute(payload_from_text(args));
    let fields = match &envelope {
        JsonValue::Obj(fields) => fields,
        _ => panic!("the no-op backend returns a JSON object"),
    };
    let key = "payload".to_string();
    let echoed = json_obj_get(fields, &key).expect("a payload member");
    assert_eq!(*echoed, expected);
}

#[test]
fn http_backend_rejects_a_non_json_body() {
    assert_eq!(
        http_result(200, "<html>bad gateway</html>"),
        Err(ExecError::Transport)
    );
}

#[test]
fn http_backend_rejects_a_non_2xx_status() {
    assert_eq!(http_result(503, "{}"), Err(ExecError::Transport));
    assert_eq!(http_result(199, "{}"), Err(ExecError::Transport));
    assert_eq!(http_result(300, "{}"), Err(ExecError::Transport));
}

#[test]
fn http_backend_returns_the_body_verbatim() {
    let got = http_result(200, "{\"ok\": true}").expect("a JSON body succeeds");
    assert_eq!(
        got,
        JsonValue::Obj(vec![("ok".to_string(), JsonValue::Bool(true))])
    );
}

#[test]
fn subprocess_outcomes_map_to_the_error_taxonomy() {
    assert_eq!(
        subprocess_result(CallOutcome::TimedOut),
        Err(ExecError::Timeout)
    );
    assert_eq!(
        subprocess_result(CallOutcome::RequestFailed),
        Err(ExecError::Protocol)
    );
    assert_eq!(
        subprocess_result(CallOutcome::Completed {
            result_text: "not json".to_string()
        }),
        Err(ExecError::Protocol)
    );
    let ok = subprocess_result(CallOutcome::Completed {
        result_text: "{\"content\":[],\"isError\":false}".to_string(),
    })
    .expect("a JSON envelope succeeds");
    assert_eq!(
        ok,
        JsonValue::Obj(vec![
            ("content".to_string(), JsonValue::Arr(vec![])),
            ("isError".to_string(), JsonValue::Bool(false)),
        ])
    );
}

#[test]
fn discovery_failure_falls_back_to_the_fixed_catalog() {
    let expected = vec![
        "lookup_ip_address_details",
        "lookup_ip_address_location",
        "lookup_ip_address_privacy",
        "lookup_ip_address_network",
        "lookup_ip_address_company",
        "lookup_ip_address_abuse_contacts",
    ];
    assert_eq!(get_fallback_tools(), expected);
    assert_eq!(list_tools(DiscoveryOutcome::RequestFailed), expected);
    assert_eq!(list_tools(DiscoveryOutcome::TimedOut), expected);
}

#[test]
fn listed_catalogs_pass_through_unchanged() {
    let tools = vec!["one".to_string(), "two".to_string()];
    assert_eq!(
        list_tools(DiscoveryOutcome::Found {
            tools: tools.clone()
        }),
        tools
    );
}

#[test]
fn planning_against_each_backend() {
    let args = "{\"tool\":\"lookup_ip_address_details\",\"arguments\":{\"ip\":\"8.8.8.8\"}}";

    match plan_execute(&Backend::Noop, payload_from_text(args)) {
        ExecStep::Ready { result } => assert!(matches!(result, JsonValue::Obj(_))),
        _ => panic!("the no-op backend answers at once"),
    }

    let http = Backend::Http {
        url: "http://localhost:8080/invoke".to_string(),
    };
    match plan_execute(&http, payload_from_text(args)) {
        ExecStep::HttpPost { url, body } => {
            assert_eq!(url, "http://localhost:8080/invoke");
            assert_eq!(
                body,
                "{\"arguments\":{\"ip\":\"8.8.8.8\"},\"server\":\"iplocate\",\
                 \"tool\":\"lookup_ip_address_details\"}"
            );
        }
        _ => panic!("the HTTP backend posts the payload"),
    }

    match plan_execute(&Backend::Subprocess, payload_from_text(args)) {
        ExecStep::SubprocessCall { tool, arguments } => {
            assert_eq!(tool, "lookup_ip_address_details");
            assert_eq!(
                arguments,
                JsonValue::Obj(vec![(
                    "ip".to_string(),
                    JsonValue::Str("8.8.8.8".to_string())
                )])
            );
        }
        _ => panic!("the subprocess backend receives the call"),
    }
}

#[test]
fn backends_name_themselves_and_accept_every_tool() {
    assert_eq!(Backend::Noop.name(), "noop");
    assert_eq!(Backend::Subprocess.name(), "iplocate-subprocess");
    let tool = "anything".to_string();
    assert!(Backend::Noop.can_execute(&tool));
}

#[test]
fn json_round_trip_renders_sorted_compact_text() {
    let v = parse_json_text("{\"b\": 2, \"a\": [1, null, \"x\", true]}").expect("valid JSON");
    assert_eq!(
        json_text_of(&v),
        "{\"a\":[1,null,\"x\",true],\"b\":2}"
    );
    assert!(parse_json_text("{\"a\":").is_none());
}

#[test]
fn duplicate_members_keep_the_last_binding() {
    let p = payload_from_text("{\"tool\":\"first\",\"tool\":\"second\"}");
    assert_eq!(p.tool, "second");
}

#[test]
fn numbers_survive_as_their_decimal_text() {
    let v = parse_json_text("{\"n\": 12.50, \"m\": 18446744073709551615}").expect("valid JSON");
    assert_eq!(json_text_of(&v), "{\"m\":18446744073709551615,\"n\":12.5}");
}

#[test]
fn descriptor_advertises_the_mcp_invoke_contract() {
    let d = mcp_invoke_tool();
    assert_eq!(d.name, "mcp_invoke");
    assert_eq!(d.description, "Invoke a tool on the IPLocate MCP server");
    let schema: serde_json::Value =
        serde_json::from_str(&json_text_of(&d.parameters)).expect("the schema is JSON");
    assert_eq!(schema["type"], "object");
    let required: Vec<&str> = schema["required"]
        .as_array()
        .expect("a required list")
        .iter()
        .map(|v| v.as_str().unwrap())
        .collect();
    assert_eq!(required, vec!["server", "tool", "arguments"]);
    assert_eq!(schema["properties"]["server"]["type"], "string");
    assert_eq!(schema["properties"]["tool"]["type"], "string");
    assert_eq!(schema["properties"]["arguments"]["type"], "object");
}

#[test]
fn configuration_requires_the_key_and_defaults_the_rest() {
    assert!(AppConfig::from_values(None, None, None).is_none());
    let c = AppConfig::from_values(Some("api-key-for-tests".to_string()), None, None)
        .expect("a key suffices");
    assert_eq!(c.model, "deepseek-chat");
    assert_eq!(c.iplocate_dir, "./mcp-server-iplocate");
    assert_eq!(c.model_kind(), ModelKind::Chat);

    let c = AppConfig::from_values(
        Some("api-key-for-tests".to_string()),
        Some("deepseek-reasoner".to_string()),
        Some("/srv/iplocate".to_string()),
    )
    .expect("explicit values pass through");
    assert_eq!(c.model, "deepseek-reasoner");
    assert_eq!(c.iplocate_dir, "/srv/iplocate");
    assert_eq!(c.model_kind(), ModelKind::Reasoner);
}

#[test]
fn session_lifecycle_follows_the_table() {
    assert_eq!(
        session_step(SessionState::Disconnected, SessionEvent::SpawnStarted),
        SessionState::Connecting
    );
    assert_eq!(
        session_step(SessionState::Connecting, SessionEvent::HandshakeCompleted),
        SessionState::Ready
    );
    assert_eq!(
        session_step(SessionState::Connecting, SessionEvent::HandshakeFailed),
        SessionState::Disconnected
    );
    assert_eq!(
        session_step(SessionState::Connecting, SessionEvent::SpawnFailed),
        SessionState::Disconnected
    );
    assert_eq!(
        session_step(SessionState::Ready, SessionEvent::CallStarted),
        SessionState::Calling
    );
    assert_eq!(
        session_step(SessionState::Calling, SessionEvent::CallSettled),
        SessionState::Ready
    );
    assert_eq!(
        session_step(SessionState::Disconnected, SessionEvent::HandshakeCompleted),
        SessionState::Disconnected
    );
    assert_eq!(
        session_step(SessionState::Disconnected, SessionEvent::CallStarted),
        SessionState::Disconnected
    );
}

#[test]
fn errors_describe_themselves() {
    assert_eq!(
        ExecError::Timeout.describe(),
        "timeout while executing tool"
    );
    assert!(ExecError::Transport.describe().contains("transport"));
    assert!(ExecError::Protocol.describe().contains("malformed"));
}
