use scada_edge::agent::bridge::{build_applied_after_restart_result, BridgeMetrics, ConfigApplyReceipt, WritePriority};
use scada_edge::agent::orchestrator::{extract_action_id_from_payload, is_connection_check_action};
use scada_edge::agent::outbox::OutboxMessageKind;
use scada_edge::agent::commands::{
    build_action_audit, build_action_result, build_invalid_payload_ack, build_write_command_ack,
    connection_check_state, plan_write_command, record_publish_failure, reject_invalid_action, report_action,
    WriteCall,
};
use scada_edge::domain::error::DomainError;

fn metric(m: &BridgeMetrics, action_type: &str) -> Option<(u64, u64, u64)> {
    m.snapshot_action_metrics()
        .into_iter()
        .find(|(k, _)| k == action_type)
        .map(|(_, v)| (v.received_total, v.accepted_total, v.failed_total))
}

#[test]
fn test_build_write_command_ack_success() {
    // The command: tag "tag1", command "cmd-1", priority "high", value 1.0 from "central".
    let ack = build_write_command_ack("edge/edge-01", "tag1", Some("cmd-1".to_string()), &Ok(()), 0);
    assert_eq!(ack.schema_version, 1);
    assert_eq!(ack.source, "edge/edge-01".to_string());
    assert!(ack.success);
    assert_eq!(ack.tag_id.as_deref(), Some("tag1"));
    assert_eq!(ack.command_id.as_deref(), Some("cmd-1"));
    assert!(ack.reason.is_none());
}

#[test]
fn test_build_write_command_ack_error() {
    // The command: tag "tag2", command "cmd-err", priority "normal", value false.
    let ack = build_write_command_ack(
        "edge/edge-01",
        "tag2",
        Some("cmd-err".to_string()),
        &Err(DomainError::DriverError("simulated driver error".to_string())),
        0,
    );
    assert!(!ack.success);
    assert_eq!(ack.tag_id.as_deref(), Some("tag2"));
    assert_eq!(ack.command_id.as_deref(), Some("cmd-err"));
    assert!(ack.reason.unwrap_or_default().contains("simulated driver error"));
}

#[test]
fn test_build_invalid_payload_ack() {
    let ack = build_invalid_payload_ack("edge/edge-01", "bad json".to_string(), 0);
    assert_eq!(ack.schema_version, 1);
    assert_eq!(ack.source, "edge/edge-01".to_string());
    assert!(!ack.success);
    assert!(ack.tag_id.is_none());
    assert!(ack.command_id.is_none());
    assert_eq!(ack.reason.as_deref(), Some("bad json"));
}

#[test]
fn a_failed_write_is_acknowledged_with_the_error_message() {
    let ack = build_write_command_ack(
        "edge/e1",
        "t",
        None,
        &Err(DomainError::NotFound("tag t".to_string())),
        42,
    );
    assert_eq!(ack.reason.as_deref(), Some("Not found: tag t"));
    assert_eq!(ack.command_id, None);
    assert_eq!(ack.timestamp_ms, 42);
}

#[test]
fn action_results_and_audits_carry_what_they_are_given() {
    let r = build_action_result("edge/e1", Some("r1".to_string()), "print.escpos", true, None, 5);
    assert_eq!(r.schema_version, 1);
    assert_eq!(r.request_id.as_deref(), Some("r1"));
    assert_eq!(r.action_type, "print.escpos");
    assert!(r.accepted);
    let payload = serde_json::Value::String("p".to_string());
    let a = build_action_audit("edge/e1", None, "print.escpos", "Applied", None, payload.clone(), 5);
    assert_eq!(a.outcome, "Applied");
    assert_eq!(a.payload, Some(payload));
    assert_eq!(a.timestamp_ms, 5);
}

#[test]
fn an_unreadable_action_is_refused_and_counted_as_invalid_payload() {
    let mut m = BridgeMetrics::new();
    let r = reject_invalid_action(&mut m, "edge/e1", "expected value", 9);
    assert!(!r.accepted);
    assert_eq!(r.action_type, "unknown");
    assert_eq!(r.request_id, None);
    assert_eq!(r.reason.as_deref(), Some("invalid action payload: expected value"));
    assert_eq!(metric(&m, "invalid_payload"), Some((1, 0, 1)));
    assert_eq!(m.cmd_failed_total, 0);
}

#[test]
fn a_successful_action_is_accepted_and_audited_as_applied() {
    let mut m = BridgeMetrics::new();
    let (result, audit) = report_action(
        &mut m,
        "edge/e1",
        Some("req-7".to_string()),
        "Print.EscPos",
        serde_json::Value::Null,
        Ok(()),
        11,
    );
    assert!(result.accepted);
    assert_eq!(result.reason, None);
    assert_eq!(result.request_id.as_deref(), Some("req-7"));
    assert_eq!(audit.outcome, "Applied");
    assert_eq!(audit.payload, Some(serde_json::Value::Null));
    assert_eq!(metric(&m, "print.escpos"), Some((0, 1, 0)));
    assert_eq!(m.cmd_failed_total, 0);
}

#[test]
fn a_failed_action_counts_a_failed_command_and_is_audited_as_failed() {
    let mut m = BridgeMetrics::new();
    let (result, audit) = report_action(
        &mut m,
        "edge/e1",
        None,
        "connection.check",
        serde_json::Value::Null,
        Err("no target".to_string()),
        11,
    );
    assert!(!result.accepted);
    assert_eq!(result.reason.as_deref(), Some("no target"));
    assert_eq!(audit.outcome, "Failed");
    assert_eq!(audit.reason.as_deref(), Some("no target"));
    assert_eq!(metric(&m, "connection.check"), Some((0, 0, 1)));
    assert_eq!(m.cmd_failed_total, 1);
}

#[test]
fn a_connection_check_reports_the_device_state() {
    let ok = build_action_result("edge/e1", None, "connection.check", true, None, 1);
    let s = connection_check_state(
        "edge/e1",
        &ok,
        None,
        Some("conn-cfg".to_string()),
        Some("dev-1".to_string()),
        Some("dev-cfg".to_string()),
        3,
    )
    .unwrap();
    assert_eq!(s.connection_id, "conn-cfg");
    assert_eq!(s.device_id, "dev-1");
    assert_eq!(s.state, "Connected");
    assert_eq!(s.reason.as_deref(), Some("connection_check_ok"));
    assert_eq!(s.tag_id, None);

    let failed = build_action_result("edge/e1", None, "connection.check", false, Some("timeout".to_string()), 1);
    let s = connection_check_state("edge/e1", &failed, Some("c".to_string()), None, None, Some("d".to_string()), 3)
        .unwrap();
    assert_eq!(s.state, "Error");
    assert_eq!(s.reason.as_deref(), Some("timeout"));

    assert!(connection_check_state("edge/e1", &ok, None, None, Some("d".to_string()), None, 3).is_none());
}

#[test]
fn a_failed_ack_publish_that_was_stored_counts_both() {
    let mut m = BridgeMetrics::new();
    record_publish_failure(&mut m, OutboxMessageKind::Ack, false, true);
    assert_eq!(m.ack_publish_fail_total, 1);
    assert_eq!(m.audit_publish_fail_total, 0);
    assert_eq!(m.alert_publish_fail_total, 0);
    assert_eq!(m.outbox_enqueued_total, 1);
}

#[test]
fn a_failed_alert_publish_that_could_not_be_stored_is_counted_as_such() {
    let mut m = BridgeMetrics::new();
    record_publish_failure(&mut m, OutboxMessageKind::Audit, true, false);
    assert_eq!(m.ack_publish_fail_total, 0);
    assert_eq!(m.audit_publish_fail_total, 1);
    assert_eq!(m.alert_publish_fail_total, 1);
    assert_eq!(m.outbox_enqueued_total, 0);
    assert_eq!(m.cmd_failed_total, 0);
}

#[test]
fn connection_checks_are_recognised_directly_or_as_device_commands() {
    assert!(is_connection_check_action(" Connection.Check ", None));
    assert!(is_connection_check_action("device.command", Some(" CHECK ")));
    assert!(is_connection_check_action("device.command", Some("connection.check")));
    assert!(!is_connection_check_action("device.command", Some("print")));
    assert!(!is_connection_check_action("device.command", None));
    assert!(!is_connection_check_action("print.escpos", Some("check")));
}

#[test]
fn an_action_id_comes_from_the_payload_root_else_its_args() {
    assert_eq!(extract_action_id_from_payload(Some(" c1 "), Some("c2")).as_deref(), Some("c1"));
    assert_eq!(extract_action_id_from_payload(Some("  "), Some(" c2")).as_deref(), Some("c2"));
    assert_eq!(extract_action_id_from_payload(None, None), None);
}

#[test]
fn each_counter_method_moves_only_its_counter() {
    let mut m = BridgeMetrics::new();
    m.inc_ack_publish_fail();
    m.inc_audit_publish_fail();
    m.inc_audit_publish_fail();
    m.inc_alert_ack_received();
    m.inc_alert_ack_accepted();
    m.inc_alert_publish_fail();
    assert_eq!(m.ack_publish_fail_total, 1);
    assert_eq!(m.audit_publish_fail_total, 2);
    assert_eq!(m.alert_ack_received_total, 1);
    assert_eq!(m.alert_ack_accepted_total, 1);
    assert_eq!(m.alert_publish_fail_total, 1);
    assert_eq!(m.cmd_received_total, 0);
    assert_eq!(m.outbox_enqueued_total, 0);
}

#[test]
fn a_restart_after_a_config_apply_reports_it_applied() {
    let receipt = ConfigApplyReceipt {
        request_id: Some("req-9".to_string()),
        target_config_hash: Some("abc".to_string()),
        requested_at_ms: 1,
    };
    let r = build_applied_after_restart_result("edge/e1", &receipt, Some("abc".to_string()), 77);
    assert!(r.accepted);
    assert_eq!(r.request_id.as_deref(), Some("req-9"));
    assert_eq!(r.reason.as_deref(), Some("applied_after_restart"));
    assert_eq!(r.current_config_hash.as_deref(), Some("abc"));
    assert_eq!(r.target_config_hash.as_deref(), Some("abc"));
    assert_eq!(r.timestamp_ms, 77);
    assert_eq!(r.source, "edge/e1");
}

#[test]
fn a_write_with_a_command_id_reports_under_it() {
    assert_eq!(
        plan_write_command(Some("cmd-1".to_string()), Some(" HIGH ")).unwrap(),
        WriteCall::WithCommandId { command_id: "cmd-1".to_string(), priority: WritePriority::High }
    );
    assert_eq!(plan_write_command(None, None).unwrap(), WriteCall::Plain { priority: WritePriority::Normal });
    assert_eq!(plan_write_command(None, Some("")).unwrap(), WriteCall::Plain { priority: WritePriority::Normal });
}

#[test]
fn an_unsupported_write_priority_writes_nothing() {
    assert_eq!(
        plan_write_command(Some("cmd-2".to_string()), Some("Urgent")).unwrap_err(),
        DomainError::ConfigurationError("unsupported write priority 'urgent'".to_string())
    );
}
