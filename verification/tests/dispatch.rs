//! Tests of the dispatcher, the request handler, and the server's
//! fixed declarations.

use signal_mcp::dispatch::{
    finish_list_conversations, finish_send, format_conversations, parse_send_args, plan_call,
    ArgValue, CallPlan, RpcFailure, INVALID_PARAMS_CODE,
};
use signal_mcp::handler::SignalMcpHandler;
use signal_mcp::server::Server;
use signal_mcp::settings::{default_signal_cli_path, default_storage_directory, Settings};
use signal_mcp::signal_cli::{ChatEntry, ProcessOutcome, SignalCli};

fn send_args(recipient: &str, message: &str) -> Vec<(String, ArgValue)> {
    vec![
        ("recipient".to_string(), ArgValue::Text(recipient.to_string())),
        ("message".to_string(), ArgValue::Text(message.to_string())),
    ]
}

fn handler() -> SignalMcpHandler {
    SignalMcpHandler::new(SignalCli::new(
        "/usr/bin/signal-cli".to_string(),
        "+15550001111".to_string(),
    ))
}

#[test]
fn unknown_tool_error_contains_name() {
    let plan = plan_call(&"foo".to_string(), &Vec::new());
    match plan {
        CallPlan::Reject { error } => {
            assert_eq!(error.message, "Unknown tool: foo");
            assert!(error.message.contains("foo"));
        }
        other => panic!("expected a rejection, got {:?}", other),
    }
}

#[test]
fn empty_message_after_trim_is_rejected_without_running() {
    let plan = plan_call(&"signal_send_message".to_string(), &send_args("+15551234567", "  "));
    match plan {
        CallPlan::Reject { error } => {
            assert_eq!(error.message, "message text must not be empty");
        }
        other => panic!("expected a rejection, got {:?}", other),
    }
}

#[test]
fn valid_send_call_is_planned() {
    let plan = plan_call(
        &"signal_send_message".to_string(),
        &send_args("+15551234567", "hello"),
    );
    match plan {
        CallPlan::RunSend { recipient, message } => {
            assert_eq!(recipient, "+15551234567");
            assert_eq!(message, "hello");
        }
        other => panic!("expected a send plan, got {:?}", other),
    }
}

#[test]
fn list_conversations_call_is_planned() {
    let plan = plan_call(&"signal_list_conversations".to_string(), &Vec::new());
    assert!(matches!(plan, CallPlan::RunListChats));
}

#[test]
fn missing_message_field_is_rejected() {
    let args = vec![("recipient".to_string(), ArgValue::Text("+1".to_string()))];
    let err = parse_send_args(&args).unwrap_err();
    assert_eq!(err.message, "missing field `message`");
}

#[test]
fn missing_recipient_field_is_rejected() {
    let err = parse_send_args(&Vec::new()).unwrap_err();
    assert_eq!(err.message, "missing field `recipient`");
}

#[test]
fn non_string_field_is_rejected() {
    let args = vec![
        ("recipient".to_string(), ArgValue::Text("+1".to_string())),
        ("message".to_string(), ArgValue::Other),
    ];
    let err = parse_send_args(&args).unwrap_err();
    assert_eq!(err.message, "invalid type for field `message`: expected a string");
}

#[test]
fn conversations_are_formatted_one_line_each() {
    let chats = vec![
        ChatEntry { id: "+1".to_string(), name: Some("Alice".to_string()) },
        ChatEntry { id: "g1".to_string(), name: None },
    ];
    let text = format_conversations(&chats);
    assert_eq!(text, "+1 — Alice\ng1 — <unnamed>");
}

#[test]
fn empty_chat_list_formats_as_fixed_line() {
    let text = format_conversations(&Vec::new());
    assert_eq!(text, "No Signal conversations found.");
}

#[test]
fn listing_failure_becomes_tool_error() {
    let out = ProcessOutcome {
        success: false,
        stdout: Vec::new(),
        stderr: b"account missing\n".to_vec(),
    };
    let res = SignalCli::contacts_from_output(&out);
    let err = finish_list_conversations(res).unwrap_err();
    assert_eq!(
        err.message,
        "signal-cli listChats failed: signal-cli listContacts failed: account missing"
    );
}

#[test]
fn send_confirmation_carries_recipient_and_receipt() {
    let text = finish_send(&"+15551234567".to_string(), Ok("1700000000000".to_string())).unwrap();
    assert_eq!(
        text,
        "Message delivered to +15551234567\nsignal-cli response: 1700000000000"
    );
}

#[test]
fn send_confirmation_notes_empty_receipt() {
    let text = finish_send(&"+15551234567".to_string(), Ok(String::new())).unwrap();
    assert_eq!(
        text,
        "Message delivered to +15551234567\nsignal-cli response: \nNo response payload from signal-cli"
    );
}

#[test]
fn failed_send_is_a_tool_error_with_stderr_text() {
    let out = ProcessOutcome {
        success: false,
        stdout: Vec::new(),
        stderr: b"Untrusted identity\n".to_vec(),
    };
    let res = SignalCli::send_receipt_from_output(&out);
    let err = finish_send(&"+15551234567".to_string(), res).unwrap_err();
    assert!(err.message.contains("Untrusted identity"));
    assert_eq!(
        err.message,
        "signal-cli send failed: signal-cli send failed: Untrusted identity"
    );
}

#[test]
fn handler_declares_two_tools_and_one_resource() {
    let h = handler();
    assert_eq!(h.tools.len(), 2);
    assert_eq!(h.tools[0].name, "signal_list_conversations");
    assert_eq!(h.tools[0].title, "List Signal Conversations");
    assert!(h.tools[0].read_only);
    assert!(!h.tools[0].destructive);
    assert!(h.tools[0].params.is_empty());
    assert_eq!(h.tools[1].name, "signal_send_message");
    assert!(!h.tools[1].read_only);
    assert_eq!(h.tools[1].required, vec!["recipient", "message"]);
    assert_eq!(h.tools[1].params.len(), 2);
    assert_eq!(h.tools[1].params[0].name, "recipient");
    assert_eq!(h.tools[1].params[0].value_type, "string");
    assert_eq!(h.tools[1].params[1].name, "message");
    assert_eq!(h.resources.len(), 1);
    assert_eq!(h.resources[0].descriptor.uri, "resource://signal/overview");
    assert_eq!(h.resources[0].descriptor.mime_type, "text/markdown");
}

#[test]
fn list_tools_respects_capability() {
    let h = handler();
    let tools = h.handle_list_tools(Ok(())).unwrap();
    assert_eq!(tools.len(), 2);
    let failure = RpcFailure { code: -32601, message: "tools not supported".to_string() };
    let err = h.handle_list_tools(Err(failure)).unwrap_err();
    assert_eq!(err.message, "tools not supported");
}

#[test]
fn list_resources_respects_capability() {
    let h = handler();
    let resources = h.handle_list_resources(Ok(())).unwrap();
    assert_eq!(resources.len(), 1);
    let failure = RpcFailure { code: -32601, message: "resources not supported".to_string() };
    let err = h.handle_list_resources(Err(failure)).unwrap_err();
    assert_eq!(err.message, "resources not supported");
}

#[test]
fn capability_failure_becomes_tool_call_error() {
    let h = handler();
    let failure = RpcFailure { code: -32601, message: "tools not supported".to_string() };
    let plan = h.handle_call_tool(Err(failure), &"signal_send_message".to_string(), &Vec::new());
    match plan {
        CallPlan::Reject { error } => assert_eq!(error.message, "tools not supported"),
        other => panic!("expected a rejection, got {:?}", other),
    }
}

#[test]
fn overview_resource_always_resolves() {
    let h = handler();
    let doc = h
        .handle_read_resource(Ok(()), &"resource://signal/overview".to_string())
        .unwrap();
    assert_eq!(doc.uri, "resource://signal/overview");
    assert_eq!(doc.mime_type, "text/markdown");
    assert!(!doc.text.is_empty());
    assert!(doc.text.starts_with("# Signal MCP Server Overview"));
}

#[test]
fn unknown_resource_uri_is_invalid_params() {
    let h = handler();
    let err = h
        .handle_read_resource(Ok(()), &"resource://signal/nope".to_string())
        .unwrap_err();
    assert_eq!(err.code, INVALID_PARAMS_CODE);
    assert_eq!(err.message, "Unknown resource URI: resource://signal/nope");
    assert!(err.message.contains("resource://signal/nope"));
}

#[test]
fn server_wires_adapter_from_settings() {
    let settings = Settings::from_parts("+15550001111".to_string(), None, None);
    let server = Server::new(settings);
    assert_eq!(server.signal_cli.executable, "/usr/bin/signal-cli");
    assert_eq!(server.signal_cli.account, "+15550001111");
    assert_eq!(server.settings.storage, "./var");
}

#[test]
fn server_instructions_name_account_and_tools() {
    let settings = Settings::from_parts(
        "+15550001111".to_string(),
        Some("/opt/signal-cli".to_string()),
        Some("/tmp/store".to_string()),
    );
    let server = Server::new(settings);
    assert_eq!(
        server.server_instructions(),
        "Expose Signal conversations for account +15550001111. Use `signal_list_conversations` to fetch metadata, `signal_send_message` to send messages, or read `resource://signal/overview` for setup guidance."
    );
}

#[test]
fn server_details_are_fixed() {
    let settings = Settings::from_parts("+15550001111".to_string(), None, None);
    let server = Server::new(settings);
    let details = server.build_server_details();
    assert_eq!(details.name, "signal-mcp-server");
    assert_eq!(details.version, "0.1.0");
    assert_eq!(details.title, "Signal MCP Server");
    assert!(details.instructions.contains("+15550001111"));
    let caps = server.server_capabilities();
    assert!(caps.tools && caps.resources);
    assert!(!caps.tools_list_changed && !caps.resources_list_changed && !caps.resources_subscribe);
}

#[test]
fn default_paths_match_documentation() {
    assert_eq!(default_signal_cli_path(), "/usr/bin/signal-cli");
    assert_eq!(default_storage_directory(), "./var");
}
