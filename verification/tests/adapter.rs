//! Tests of the adapter: command lines, output interpretation, and the
//! chat-list rules.

use signal_mcp::signal_cli::{ChatEntry, CliError, CliOp, ProcessOutcome, SignalCli};

fn ok_output(stdout: &[u8]) -> ProcessOutcome {
    ProcessOutcome { success: true, stdout: stdout.to_vec(), stderr: Vec::new() }
}

fn failed_output(stderr: &[u8]) -> ProcessOutcome {
    ProcessOutcome { success: false, stdout: Vec::new(), stderr: stderr.to_vec() }
}

#[test]
fn list_contacts_command_is_exact() {
    let cli = SignalCli::new("/usr/bin/signal-cli".to_string(), "+15550001111".to_string());
    let args = cli.list_contacts_command();
    assert_eq!(args, vec!["--account", "+15550001111", "-o", "json", "listContacts"]);
}

#[test]
fn list_groups_command_is_exact() {
    let cli = SignalCli::new("/usr/bin/signal-cli".to_string(), "+15550001111".to_string());
    let args = cli.list_groups_command();
    assert_eq!(args, vec!["--account", "+15550001111", "-o", "json", "listGroups"]);
}

#[test]
fn send_command_is_exact() {
    let cli = SignalCli::new("/usr/bin/signal-cli".to_string(), "+15550001111".to_string());
    let args = cli.send_command("+15551234567", "hello there");
    assert_eq!(args, vec!["--account", "+15550001111", "send", "-m", "hello there", "+15551234567"]);
}

#[test]
fn contacts_and_groups_scenario() {
    let contacts = SignalCli::contacts_from_output(&ok_output(
        br#"[{"number":"+15551234567","name":"  Alice "}]"#,
    ))
    .unwrap();
    let groups =
        SignalCli::groups_from_output(&ok_output(br#"[{"id":"g1","name":""}]"#)).unwrap();
    let chats = SignalCli::combine_chats(contacts, groups);
    assert_eq!(chats.len(), 2);
    assert_eq!(chats[0].id, "+15551234567");
    assert_eq!(chats[0].name, Some("Alice".to_string()));
    assert_eq!(chats[1].id, "g1");
    assert_eq!(chats[1].name, Some("g1".to_string()));
}

#[test]
fn contact_without_number_is_omitted() {
    let contacts = SignalCli::contacts_from_output(&ok_output(
        br#"[{"name":"NoNumber"},{"number":"+1","name":"A"},{"number":"+2"}]"#,
    ))
    .unwrap();
    assert_eq!(contacts.len(), 2);
    assert_eq!(contacts[0].id, "+1");
    assert_eq!(contacts[0].name, Some("A".to_string()));
    assert_eq!(contacts[1].id, "+2");
    assert_eq!(contacts[1].name, None);
}

#[test]
fn contact_name_empty_after_trim_is_absent() {
    let contacts = SignalCli::contacts_from_output(&ok_output(
        br#"[{"number":"+1","name":"   "},{"number":"+2","name":42}]"#,
    ))
    .unwrap();
    assert_eq!(contacts.len(), 2);
    assert_eq!(contacts[0].name, None);
    assert_eq!(contacts[1].name, None);
}

#[test]
fn group_display_name_rules() {
    let groups = SignalCli::groups_from_output(&ok_output(
        br#"[{"id":"g1","name":"  Team  "},{"id":"g2"},{"id":"g3","name":"   "},{"name":"no id"}]"#,
    ))
    .unwrap();
    assert_eq!(groups.len(), 3);
    assert_eq!(groups[0].name, Some("Team".to_string()));
    assert_eq!(groups[1].name, Some("g2".to_string()));
    assert_eq!(groups[2].name, Some("g3".to_string()));
}

#[test]
fn contacts_precede_groups_in_source_order() {
    let contacts = SignalCli::contacts_from_output(&ok_output(
        br#"[{"number":"+1"},{"number":"+2"}]"#,
    ))
    .unwrap();
    let groups = SignalCli::groups_from_output(&ok_output(br#"[{"id":"g1"},{"id":"g2"}]"#))
        .unwrap();
    let chats = SignalCli::combine_chats(contacts, groups);
    let ids: Vec<&str> = chats.iter().map(|c: &ChatEntry| c.id.as_str()).collect();
    assert_eq!(ids, vec!["+1", "+2", "g1", "g2"]);
}

#[test]
fn empty_arrays_give_empty_list() {
    let contacts = SignalCli::contacts_from_output(&ok_output(b"[]")).unwrap();
    let groups = SignalCli::groups_from_output(&ok_output(b"[]")).unwrap();
    let chats = SignalCli::combine_chats(contacts, groups);
    assert!(chats.is_empty());
}

#[test]
fn non_object_elements_are_skipped() {
    let contacts =
        SignalCli::contacts_from_output(&ok_output(br#"[1, "x", null]"#)).unwrap();
    assert!(contacts.is_empty());
}

#[test]
fn contacts_failure_carries_trimmed_stderr() {
    let err = SignalCli::contacts_from_output(&failed_output(b"  registration required \n"))
        .unwrap_err();
    match &err {
        CliError::CommandFailed { op, stderr } => {
            assert_eq!(*op, CliOp::ListContacts);
            assert_eq!(stderr.as_str(), "registration required");
        }
        other => panic!("unexpected error variant: {:?}", other.message()),
    }
    assert_eq!(err.message(), "signal-cli listContacts failed: registration required");
}

#[test]
fn groups_failure_carries_trimmed_stderr() {
    let err = SignalCli::groups_from_output(&failed_output(b"boom\n")).unwrap_err();
    assert_eq!(err.message(), "signal-cli listGroups failed: boom");
}

#[test]
fn parse_failure_carries_cause() {
    let err = SignalCli::contacts_from_output(&ok_output(b"not json")).unwrap_err();
    match &err {
        CliError::ParseFailed { op, cause } => {
            assert_eq!(*op, CliOp::ListContacts);
            assert!(!cause.is_empty());
        }
        other => panic!("unexpected error variant: {:?}", other.message()),
    }
    assert!(err.message().starts_with("failed to parse signal-cli listContacts response: "));
}

#[test]
fn object_output_is_a_parse_failure() {
    let err = SignalCli::groups_from_output(&ok_output(b"{}")).unwrap_err();
    assert!(err.message().starts_with("failed to parse signal-cli listGroups response: "));
}

#[test]
fn send_receipt_is_trimmed_stdout() {
    let out = ProcessOutcome {
        success: true,
        stdout: b"  1700000000000 \n".to_vec(),
        stderr: Vec::new(),
    };
    let receipt = SignalCli::send_receipt_from_output(&out).unwrap();
    assert_eq!(receipt, "1700000000000");
}

#[test]
fn send_empty_stdout_is_a_success() {
    let receipt = SignalCli::send_receipt_from_output(&ok_output(b"")).unwrap();
    assert_eq!(receipt, "");
}

#[test]
fn send_failure_carries_trimmed_stderr() {
    let err =
        SignalCli::send_receipt_from_output(&failed_output(b"Untrusted identity\n")).unwrap_err();
    assert_eq!(err.message(), "signal-cli send failed: Untrusted identity");
}

#[test]
fn launch_failure_message_names_operation() {
    let err = CliError::LaunchFailed {
        op: CliOp::Send,
        detail: "No such file or directory".to_string(),
    };
    assert_eq!(err.message(), "failed to execute signal-cli send: No such file or directory");
}
