use scada_edge::agent::printing::escpos_file_header;
use scada_edge::agent::actions::{
    action_buffer_id, action_buffer_max, escpos_bytes_from_lines, make_request_dedupe_key, normalize_windows_share,
    pad_left, pad_right, push_bounded, should_dedupe_request, take_for_print,
};
use scada_edge::agent::bridge::{
    build_alert_message, build_health_message, compute_health_status, evaluate_alert_transition, handle_alert_ack,
    handle_config_apply, handle_control_reset, parse_write_priority, should_emit_alert_for_window,
    AlertAckCommandMessage, AlertState, AlertTransition, BridgeMetrics, ConfigApplyCommandMessage,
    ConfigCheckOutcome, ConfigSyncPhase, ConfigSyncState, ControlResetCommandMessage, WritePriority,
};
use scada_edge::agent::bridge_config::{mqtt_security_plan, runtime_is_prod, MqttBridgeConfig, TlsPlan};
use scada_edge::agent::broker_watch::{BrokerActivityWatch, MIN_CHECK_INTERVAL_MS};
use scada_edge::agent::heartbeat::{due, BEAT_INTERVAL_MS};
use scada_edge::agent::orchestrator::{
    finish_action, plan_action, route_device_command, ActionKind, ActionPlan, DeviceSubAction, ProcessedRequests,
};
use scada_edge::agent::outbox::OutboxStats;
use scada_edge::agent::ticket::{allocate_ticket, format_ticket_id};
use scada_edge::domain::error::DomainError;

fn keep_alive() -> u64 {
    10_000
}

fn secs(n: u64) -> u64 {
    n * 1000
}

#[test]
fn a_fresh_watch_is_never_stale() {
    let t0: u64 = 1_000_000;
    let watch = BrokerActivityWatch::new(keep_alive(), t0);
    assert!(!watch.should_force_reconnect(t0));
}

#[test]
fn the_staleness_window_is_one_and_a_half_keep_alives() {
    let watch = BrokerActivityWatch::new(keep_alive(), 1_000_000);
    assert_eq!(watch.stale_after(), secs(15));
}

#[test]
fn the_boundary_itself_still_gets_the_benefit_of_the_doubt() {
    let t0: u64 = 1_000_000;
    let watch = BrokerActivityWatch::new(keep_alive(), t0);
    assert!(!watch.should_force_reconnect(t0 + secs(15)));
}

#[test]
fn silence_beyond_the_window_forces_a_reconnect() {
    let t0: u64 = 1_000_000;
    let watch = BrokerActivityWatch::new(keep_alive(), t0);
    assert!(watch.should_force_reconnect(t0 + secs(16)));
}

#[test]
fn inbound_activity_restarts_the_window() {
    let t0: u64 = 1_000_000;
    let mut watch = BrokerActivityWatch::new(keep_alive(), t0);
    watch.record_activity(t0 + secs(12));
    assert!(!watch.should_force_reconnect(t0 + secs(25)));
    assert!(watch.should_force_reconnect(t0 + secs(28)));
}

#[test]
fn the_poll_timeout_shrinks_as_the_deadline_approaches() {
    let t0: u64 = 1_000_000;
    let watch = BrokerActivityWatch::new(keep_alive(), t0);
    assert_eq!(watch.next_check_in(t0), secs(15));
    assert_eq!(watch.next_check_in(t0 + secs(10)), secs(5));
}

#[test]
fn the_poll_timeout_never_drops_below_the_floor() {
    let t0: u64 = 1_000_000;
    let watch = BrokerActivityWatch::new(keep_alive(), t0);
    assert_eq!(watch.next_check_in(t0 + secs(15)), MIN_CHECK_INTERVAL_MS);
    assert_eq!(watch.next_check_in(t0 + secs(600)), MIN_CHECK_INTERVAL_MS);
}

#[test]
fn a_clock_that_appears_to_move_backwards_never_forces_a_reconnect() {
    let t0: u64 = 1_000_000;
    let watch = BrokerActivityWatch::new(keep_alive(), t0 + secs(60));
    assert!(!watch.should_force_reconnect(t0));
    assert_eq!(watch.next_check_in(t0), secs(15));
}

#[test]
fn the_first_beat_is_always_due() {
    assert!(due(None, 42));
}

#[test]
fn a_beat_is_not_due_again_immediately() {
    let t0: u64 = 1_000_000;
    assert!(!due(Some(t0), t0 + secs(1)));
}

#[test]
fn a_beat_is_due_once_the_interval_has_passed() {
    let t0: u64 = 1_000_000;
    assert!(due(Some(t0), t0 + BEAT_INTERVAL_MS));
    assert!(due(Some(t0), t0 + secs(30)));
    assert!(!due(Some(t0), t0 - secs(30)));
}

#[test]
fn formats_lcc_ticket_with_uppercase_prefix_and_minimum_width() {
    assert_eq!(format_ticket_id("lcc01", 1).unwrap(), "LCC01-0000001");
    assert_eq!(format_ticket_id("lcc01", 1_000_000).unwrap(), "LCC01-1000000");
}

#[test]
fn ticket_formatting_refuses_blank_codes_and_non_positive_numbers() {
    assert_eq!(
        format_ticket_id("  ", 1).unwrap_err(),
        "ticket edge code and sequence must be positive"
    );
    assert!(format_ticket_id("lcc01", 0).is_err());
    assert_eq!(format_ticket_id(" lcc01 ", 12_345_678).unwrap(), "LCC01-12345678");
}

#[test]
fn next_ticket_is_monotonic_after_reopening_the_database() {
    let first = allocate_ticket("lcc01", None).unwrap();
    assert_eq!(first.ticket_id, "LCC01-0000001");
    assert_eq!(first.next_to_store, 2);
    let second = allocate_ticket("lcc01", Some(first.next_to_store)).unwrap();
    assert_eq!(second.ticket_id, "LCC01-0000002");
    assert!(second.allocated > first.allocated);
    assert_eq!(allocate_ticket("   ", None).unwrap_err(), "ticket edge code must not be empty");
}

fn mk_test_cfg(path: String) -> MqttBridgeConfig {
    MqttBridgeConfig {
        site: "plant-a".to_string(),
        agent: "edge-01".to_string(),
        broker_host: "localhost".to_string(),
        broker_port: 1883,
        client_id: "edge-01".to_string(),
        outbox_path: "./data/mqtt_outbox.db".to_string(),
        ticket_sequence_path: "./data/ticket_sequence.db".to_string(),
        outbox_flush_batch: 50,
        heartbeat_path: None,
        outbox_max_messages: 1000,
        outbox_active_key_id: "v1".to_string(),
        outbox_prev_key_id: None,
        outbox_encryption_secret: None,
        outbox_hmac_secret: None,
        outbox_prev_encryption_secret: None,
        outbox_prev_hmac_secret: None,
        health_publish_interval_secs: 30,
        health_outbox_depth_warn: 1000,
        health_outbox_oldest_secs_warn: 300,
        alert_degraded_streak: 3,
        alert_recovered_streak: 3,
        alert_dedup_window_secs: 300,
        config_hash: None,
        config_check_url: None,
        config_check_enroll_token: None,
        config_check_hmac_secret: None,
        config_check_key_id: None,
        config_cache_path: "./data/runtime_config.signed.json".to_string(),
        config_apply_receipt_path: "./data/config_apply_receipt.json".to_string(),
        config_check_interval_secs: 120,
        config_check_jitter_secs: 20,
        escpos_output_path: path,
        escpos_tcp_host: None,
        escpos_tcp_port: 9100,
        escpos_windows_share: None,
        on_demand_tcp_host: None,
        on_demand_tcp_port: None,
        on_demand_probe_enabled: false,
        on_demand_probe_timeout_ms: 1200,
        on_demand_probe_connection_id: None,
        on_demand_probe_device_id: None,
    }
}

#[test]
fn test_topics_follow_convention() {
    let cfg = mk_test_cfg("./data/escpos_output.bin".to_string());
    assert_eq!(cfg.command_topic(), "scada/plant-a/edge/edge-01/cmd/write".to_string());
    assert_eq!(cfg.audit_topic(), "scada/plant-a/edge/edge-01/audit/write".to_string());
    assert_eq!(cfg.ack_topic(), "scada/plant-a/edge/edge-01/cmd/write/ack".to_string());
    assert_eq!(cfg.action_command_topic(), "scada/plant-a/edge/edge-01/cmd/action".to_string());
    assert_eq!(cfg.action_result_topic(), "scada/plant-a/edge/edge-01/cmd/action/result".to_string());
    assert_eq!(cfg.action_audit_topic(), "scada/plant-a/edge/edge-01/audit/action".to_string());
    assert_eq!(cfg.health_topic(), "scada/plant-a/edge/edge-01/health/runtime".to_string());
    assert_eq!(cfg.alert_topic(), "scada/plant-a/edge/edge-01/alerts/runtime".to_string());
    assert_eq!(cfg.alert_ack_topic(), "scada/plant-a/edge/edge-01/alerts/runtime/ack".to_string());
    assert_eq!(
        cfg.alert_ack_result_topic(),
        "scada/plant-a/edge/edge-01/alerts/runtime/ack/result".to_string()
    );
    assert_eq!(
        cfg.telemetry_tag_topic("tag_scale_compound"),
        "scada/plant-a/edge/edge-01/telemetry/tag/tag_scale_compound".to_string()
    );
    assert_eq!(cfg.connection_state_topic(), "scada/plant-a/edge/edge-01/conn/state".to_string());
    assert_eq!(
        cfg.device_connection_state_topic(),
        "scada/plant-a/edge/edge-01/device/conn/state".to_string()
    );
    assert_eq!(cfg.control_reset_topic(), "scada/plant-a/edge/edge-01/control/reset".to_string());
    assert_eq!(
        cfg.control_reset_result_topic(),
        "scada/plant-a/edge/edge-01/control/reset/result".to_string()
    );
}

#[test]
fn config_apply_topics_follow_convention() {
    let cfg = mk_test_cfg(String::new());
    assert_eq!(cfg.config_apply_topic(), "scada/plant-a/edge/edge-01/config/apply");
    assert_eq!(cfg.config_apply_result_topic(), "scada/plant-a/edge/edge-01/config/apply/result");
}

#[test]
fn test_compute_health_status_transitions() {
    let ok = OutboxStats { depth: 10, oldest_age_secs: Some(5) };
    assert_eq!(compute_health_status(&ok, 100, 60), "ok");
    let degraded_depth = OutboxStats { depth: 200, oldest_age_secs: Some(5) };
    assert_eq!(compute_health_status(&degraded_depth, 100, 60), "degraded");
    let degraded_age = OutboxStats { depth: 10, oldest_age_secs: Some(120) };
    assert_eq!(compute_health_status(&degraded_age, 100, 60), "degraded");
}

#[test]
fn health_thresholds_are_inclusive_and_an_empty_outbox_has_no_age() {
    assert_eq!(compute_health_status(&OutboxStats { depth: 100, oldest_age_secs: None }, 100, 60), "degraded");
    assert_eq!(compute_health_status(&OutboxStats { depth: 0, oldest_age_secs: Some(60) }, 100, 60), "degraded");
    assert_eq!(compute_health_status(&OutboxStats { depth: 0, oldest_age_secs: None }, 100, 60), "ok");
}

#[test]
fn test_evaluate_alert_transition_raise_and_clear() {
    let mut state = AlertState::default();
    assert_eq!(evaluate_alert_transition("degraded", &mut state, 2, 2), None);
    assert_eq!(evaluate_alert_transition("degraded", &mut state, 2, 2), Some(AlertTransition::Raised));
    assert_eq!(state.active, true);
    assert_eq!(evaluate_alert_transition("ok", &mut state, 2, 2), None);
    assert_eq!(evaluate_alert_transition("ok", &mut state, 2, 2), Some(AlertTransition::Cleared));
    assert_eq!(state.active, false);
}

#[test]
fn an_alert_is_raised_once_per_degraded_run_and_a_zero_threshold_counts_as_one() {
    let mut state = AlertState::default();
    assert_eq!(evaluate_alert_transition("degraded", &mut state, 0, 0), Some(AlertTransition::Raised));
    assert_eq!(evaluate_alert_transition("degraded", &mut state, 0, 0), None);
    assert_eq!(evaluate_alert_transition("degraded", &mut state, 0, 0), None);
    assert_eq!(state.degraded_streak, 3);
    assert_eq!(evaluate_alert_transition("ok", &mut state, 0, 0), Some(AlertTransition::Cleared));
    assert_eq!(state.degraded_streak, 0);
    assert_eq!(state.recovered_streak, 1);
}

#[test]
fn a_healthy_report_interrupts_a_degraded_run() {
    let mut state = AlertState::default();
    assert_eq!(evaluate_alert_transition("degraded", &mut state, 3, 3), None);
    assert_eq!(evaluate_alert_transition("degraded", &mut state, 3, 3), None);
    assert_eq!(evaluate_alert_transition("ok", &mut state, 3, 3), None);
    assert_eq!(evaluate_alert_transition("degraded", &mut state, 3, 3), None);
    assert_eq!(evaluate_alert_transition("degraded", &mut state, 3, 3), None);
    assert_eq!(evaluate_alert_transition("degraded", &mut state, 3, 3), Some(AlertTransition::Raised));
}

#[test]
fn test_should_emit_alert_for_window_deduplicates() {
    let mut state = AlertState::default();
    let now: i64 = 1_767_225_600;
    assert!(should_emit_alert_for_window(&mut state, "runtime_health_degraded", AlertTransition::Raised, 300, now));
    assert!(!should_emit_alert_for_window(&mut state, "runtime_health_degraded", AlertTransition::Raised, 300, now));
}

#[test]
fn the_window_expires_and_each_transition_has_its_own_slot() {
    let mut state = AlertState::default();
    let now: i64 = 1_767_225_600;
    assert!(should_emit_alert_for_window(&mut state, "runtime_health_degraded", AlertTransition::Raised, 300, now));
    assert!(should_emit_alert_for_window(&mut state, "runtime_health_degraded", AlertTransition::Cleared, 300, now + 10));
    assert!(!should_emit_alert_for_window(&mut state, "runtime_health_degraded", AlertTransition::Raised, 300, now + 299));
    assert!(should_emit_alert_for_window(&mut state, "runtime_health_degraded", AlertTransition::Raised, 300, now + 300));
    assert!(!should_emit_alert_for_window(&mut state, "runtime_health_degraded", AlertTransition::Raised, 300, now + 200));
}

#[test]
fn alert_messages_name_their_transition() {
    let stats = OutboxStats { depth: 7, oldest_age_secs: Some(3) };
    let raised = build_alert_message("edge/edge-01", "degraded", AlertTransition::Raised, &stats, 5);
    assert_eq!(raised.severity, "warning");
    assert_eq!(raised.alert_type, "runtime_health_degraded");
    assert_eq!(raised.state, "raised");
    assert_eq!(raised.message, "Runtime degraded sustained above threshold");
    assert_eq!(raised.outbox_depth, 7);
    let cleared = build_alert_message("edge/edge-01", "ok", AlertTransition::Cleared, &stats, 5);
    assert_eq!(cleared.severity, "info");
    assert_eq!(cleared.state, "cleared");
    assert_eq!(cleared.message, "Runtime health recovered sustained above threshold");
}

fn ack(alert_type: &str) -> AlertAckCommandMessage {
    AlertAckCommandMessage {
        schema_version: Some(1),
        source: Some("central".to_string()),
        alert_type: alert_type.to_string(),
        ack_id: Some("ack-1".to_string()),
        operator: Some("op".to_string()),
    }
}

#[test]
fn an_acknowledgement_lowers_a_raised_alert_once() {
    let mut state = AlertState::default();
    evaluate_alert_transition("degraded", &mut state, 1, 1);
    assert!(state.active);
    let r = handle_alert_ack(&mut state, "edge/edge-01", Ok(ack("runtime_health_degraded")), 9);
    assert!(r.accepted);
    assert_eq!(r.reason, None);
    assert_eq!(r.ack_id, Some("ack-1".to_string()));
    assert!(!state.active);
    assert_eq!(state.degraded_streak, 0);
    let again = handle_alert_ack(&mut state, "edge/edge-01", Ok(ack("runtime_health_degraded")), 10);
    assert!(!again.accepted);
    assert_eq!(again.reason, Some("alert not active".to_string()));
}

#[test]
fn acknowledgements_of_other_types_or_unreadable_payloads_are_refused() {
    let mut state = AlertState::default();
    evaluate_alert_transition("degraded", &mut state, 1, 1);
    let other = handle_alert_ack(&mut state, "s", Ok(ack("disk_full")), 1);
    assert!(!other.accepted);
    assert_eq!(other.reason, Some("unsupported alert_type".to_string()));
    assert!(state.active);
    let bad = handle_alert_ack(&mut state, "s", Err("expected value".to_string()), 1);
    assert!(!bad.accepted);
    assert_eq!(bad.alert_type, "runtime_health_degraded");
    assert_eq!(bad.reason, Some("invalid alert ack payload: expected value".to_string()));
    assert!(state.active);
}

fn staged() -> ConfigSyncState {
    let mut s = ConfigSyncState::new(Some("hash-a".to_string()));
    s.record_check(ConfigCheckOutcome::Changed("hash-b".to_string()), 1000);
    s
}

#[test]
fn a_staged_config_is_applied_once_and_restarts_the_edge() {
    let mut sync = staged();
    assert!(sync.has_staged_change());
    let cmd = ConfigApplyCommandMessage { schema_version: Some(1), source: None, request_id: Some("req-1".to_string()) };
    let out = handle_config_apply(&mut sync, "edge/edge-01", Ok(cmd.clone()), None, 2000);
    assert!(out.restart_requested);
    assert!(out.result.accepted);
    assert_eq!(out.result.reason, Some("staged config accepted; edge restart requested".to_string()));
    assert_eq!(out.result.current_config_hash, Some("hash-a".to_string()));
    assert_eq!(out.result.target_config_hash, Some("hash-b".to_string()));
    let receipt = out.receipt.unwrap();
    assert_eq!(receipt.request_id, Some("req-1".to_string()));
    assert_eq!(receipt.target_config_hash, Some("hash-b".to_string()));
    assert_eq!(sync.sync_state, ConfigSyncPhase::ApplyRequested);
    assert_eq!(sync.sync_state.as_str(), "apply_requested");
    let second = handle_config_apply(&mut sync, "edge/edge-01", Ok(cmd), None, 3000);
    assert!(!second.restart_requested);
    assert_eq!(second.result.reason, Some("no staged config change to apply".to_string()));
}

#[test]
fn an_apply_without_a_staged_change_or_with_a_bad_payload_is_refused() {
    let mut sync = ConfigSyncState::new(Some("hash-a".to_string()));
    sync.record_check(ConfigCheckOutcome::Unchanged, 5);
    assert_eq!(sync.sync_state, ConfigSyncPhase::InSync);
    assert_eq!(sync.target_hash, Some("hash-a".to_string()));
    let cmd = ConfigApplyCommandMessage { schema_version: None, source: None, request_id: None };
    let out = handle_config_apply(&mut sync, "s", Ok(cmd), Some("given".to_string()), 6);
    assert!(!out.restart_requested);
    assert!(out.receipt.is_none());
    assert_eq!(out.result.current_config_hash, Some("given".to_string()));
    let mut staged_sync = staged();
    let bad = handle_config_apply(&mut staged_sync, "s", Err("eof".to_string()), None, 7);
    assert!(!bad.restart_requested);
    assert_eq!(bad.result.reason, Some("invalid config apply payload: eof".to_string()));
    assert_eq!(staged_sync.sync_state, ConfigSyncPhase::ChangedStaged);
    staged_sync.record_check(ConfigCheckOutcome::Failed, 8);
    assert_eq!(staged_sync.sync_state, ConfigSyncPhase::Error);
    assert_eq!(staged_sync.last_check_at_ms, Some(8));
}

#[test]
fn every_readable_reset_restarts_the_edge() {
    let cmd = ControlResetCommandMessage {
        schema_version: Some(1),
        source: None,
        request_id: Some("r-9".to_string()),
        reason: None,
        operator: None,
    };
    let (result, restart) = handle_control_reset("edge/edge-01", Ok(cmd), 1);
    assert!(restart);
    assert!(result.accepted);
    assert_eq!(result.request_id, Some("r-9".to_string()));
    assert_eq!(result.reason, Some("edge reset requested".to_string()));
    let (bad, restart) = handle_control_reset("edge/edge-01", Err("oops".to_string()), 1);
    assert!(!restart);
    assert!(!bad.accepted);
    assert_eq!(bad.reason, Some("invalid reset payload: oops".to_string()));
}

#[test]
fn test_parse_write_priority_validation() {
    assert_eq!(parse_write_priority(Some("high")).unwrap(), WritePriority::High);
    assert_eq!(parse_write_priority(Some("normal")).unwrap(), WritePriority::Normal);
    assert!(parse_write_priority(Some("urgent")).is_err());
}

#[test]
fn write_priority_defaults_and_error_text() {
    assert_eq!(parse_write_priority(None).unwrap(), WritePriority::Normal);
    assert_eq!(parse_write_priority(Some("  ")).unwrap(), WritePriority::Normal);
    assert_eq!(parse_write_priority(Some(" HIGH ")).unwrap(), WritePriority::High);
    assert_eq!(
        parse_write_priority(Some(" Urgent ")).unwrap_err(),
        DomainError::ConfigurationError("unsupported write priority 'urgent'".to_string())
    );
}

#[test]
fn counters_and_action_metrics_feed_the_health_message() {
    let mut m = BridgeMetrics::new();
    m.inc_cmd_received();
    m.inc_cmd_received();
    m.inc_cmd_failed();
    m.add_outbox_flushed(5);
    m.inc_action_received(" Print.EscPos ");
    m.inc_action_received("print.escpos");
    m.inc_action_accepted("print.escpos");
    m.inc_action_failed("   ");
    let snap = m.snapshot_action_metrics();
    assert_eq!(snap.len(), 1);
    assert_eq!(snap[0].0, "print.escpos");
    assert_eq!(snap[0].1.received_total, 2);
    assert_eq!(snap[0].1.accepted_total, 1);
    assert_eq!(snap[0].1.failed_total, 0);
    let sync = ConfigSyncState::new(Some("h".to_string()));
    let stats = OutboxStats { depth: 3, oldest_age_secs: None };
    let msg = build_health_message("edge/edge-01", &stats, &m, 100, 60, &sync, 77);
    assert_eq!(msg.status, "ok");
    assert_eq!(msg.cmd_received_total, 2);
    assert_eq!(msg.cmd_failed_total, 1);
    assert_eq!(msg.outbox_flushed_total, 5);
    assert_eq!(msg.config_sync_state, "unknown");
    assert_eq!(msg.config_hash, Some("h".to_string()));
    assert_eq!(msg.action_metrics.len(), 1);
    assert_eq!(msg.timestamp_ms, 77);
}

#[test]
fn counters_wrap_around_like_atomics() {
    let mut m = BridgeMetrics::new();
    m.outbox_enqueued_total = u64::MAX;
    m.inc_outbox_enqueued();
    assert_eq!(m.outbox_enqueued_total, 0);
}

#[test]
fn production_requires_credentials_and_tls() {
    assert!(runtime_is_prod(Some("PROD")));
    assert!(!runtime_is_prod(None));
    assert_eq!(
        mqtt_security_plan(Some("prod"), None, None, Some("true"), None).unwrap_err(),
        "MQTT_USERNAME and MQTT_PASSWORD are required in prod"
    );
    assert_eq!(
        mqtt_security_plan(Some("prod"), Some("edge".to_string()), None, None, None).unwrap_err(),
        "MQTT_TLS_ENABLED must be true in prod (mqtts without fallback)"
    );
    let plan = mqtt_security_plan(Some("prod"), Some("edge".to_string()), Some("pw".to_string()), Some("1"), Some("/ca.pem".to_string())).unwrap();
    assert_eq!(plan.credentials, Some(("edge".to_string(), "pw".to_string())));
    assert!(matches!(plan.tls, TlsPlan::CaFile(ref p) if p == "/ca.pem"));
    let dev = mqtt_security_plan(None, Some("  ".to_string()), None, None, None).unwrap();
    assert_eq!(dev.credentials, None);
    assert!(matches!(dev.tls, TlsPlan::Plain));
    let dev_tls = mqtt_security_plan(Some("dev"), None, None, Some("TRUE"), Some(" ".to_string())).unwrap();
    assert!(matches!(dev_tls.tls, TlsPlan::DefaultRoots));
}

#[test]
fn test_action_buffer_id_uses_explicit_then_context() {
    assert_eq!(action_buffer_id(Some("weights_session_1"), None, Some("dev_scale_1"), Some("tag_x")), "weights_session_1");
    assert_eq!(action_buffer_id(None, None, Some("dev_scale_1"), Some("tag_x")), "device:dev_scale_1");
    assert_eq!(action_buffer_id(None, None, None, Some("tag_x")), "tag:tag_x");
}

#[test]
fn buffer_ids_from_automations_and_the_default() {
    assert_eq!(action_buffer_id(None, Some("a1"), None, Some("t1")), "auto:a1:tag:t1");
    assert_eq!(action_buffer_id(None, Some("a1"), None, None), "auto:a1");
    assert_eq!(action_buffer_id(Some("  "), None, Some(" "), None), "default");
    assert_eq!(action_buffer_max(None), 500);
    assert_eq!(action_buffer_max(Some(0)), 1);
    assert_eq!(action_buffer_max(Some(9000)), 5000);
    assert_eq!(action_buffer_max(Some(42)), 42);
}

#[test]
fn a_bounded_buffer_drops_the_oldest_items() {
    let mut buf: Vec<u32> = vec![1, 2, 3];
    push_bounded(&mut buf, 4, 3);
    assert_eq!(buf, vec![2, 3, 4]);
    push_bounded(&mut buf, 5, 5);
    assert_eq!(buf, vec![2, 3, 4, 5]);
}

#[test]
fn padding_fills_to_the_width_in_bytes() {
    assert_eq!(pad_right("Lote:", 12), "Lote:       ");
    assert_eq!(pad_left("7", 4), "   7");
    assert_eq!(pad_left("12345", 2), "12345");
    assert_eq!(pad_right("ñ", 3), "ñ ");
}

#[test]
fn escpos_jobs_are_framed_with_init_feeds_and_cut() {
    let lines = vec!["A".to_string(), "BC".to_string()];
    let bytes = escpos_bytes_from_lines(&lines, true, 1, 1);
    let mut expected: Vec<u8> = vec![0x1B, 0x40, b'\r', b'\n', b'A', b'\r', b'\n', b'B', b'C', b'\r', b'\n', b'\r', b'\n'];
    expected.extend_from_slice(&[0x1D, 0x56, 0x41, 0x00]);
    assert_eq!(bytes, expected);
    let plain = escpos_bytes_from_lines(&lines, false, 0, 0);
    assert_eq!(plain, vec![0x1B, 0x40, b'A', b'\r', b'\n', b'B', b'C', b'\r', b'\n']);
}

#[test]
fn windows_shares_are_normalised_to_unc_paths() {
    assert_eq!(normalize_windows_share("//srv/printer"), Some("\\\\srv\\printer".to_string()));
    assert_eq!(normalize_windows_share("  \"\\\\srv\\zebra\"  "), Some("\\\\srv\\zebra".to_string()));
    assert_eq!(normalize_windows_share("   "), None);
}

#[test]
fn only_print_requests_are_deduplicated() {
    assert!(should_dedupe_request("print.escpos"));
    assert!(!should_dedupe_request("connection.check"));
    assert_eq!(make_request_dedupe_key("print.escpos", "req-1"), "print.escpos:req-1");
}

#[test]
fn test_print_idempotent_by_request_id() {
    let mut processed = ProcessedRequests::new();
    let now: i64 = 1_767_225_600_000;
    let mut printed = String::new();
    for attempt in 0..2i64 {
        let at = now + attempt * 1000;
        match plan_action(&mut processed, Some("edge"), "print.escpos", Some("dup-1"), at).unwrap() {
            ActionPlan::Run { kind, dedupe_key } => {
                assert_eq!(kind, ActionKind::PrintEscpos);
                printed.push_str(&escpos_file_header("2026-01-01T00:00:00+00:00", Some("dup-1"), "print.escpos"));
                printed.push_str("A\nB\n");
                finish_action(&mut processed, dedupe_key, true, at);
            }
            ActionPlan::Duplicate => assert_eq!(attempt, 1, "only a repeated request is a duplicate"),
        }
    }
    assert_eq!(printed.matches("request_id=dup-1").count(), 1);
}

#[test]
fn actions_for_other_targets_or_unknown_types_are_refused() {
    let mut processed = ProcessedRequests::new();
    assert_eq!(
        plan_action(&mut processed, Some("plc"), "print.escpos", None, 0).unwrap_err(),
        "unsupported action target 'plc'"
    );
    assert_eq!(
        plan_action(&mut processed, None, "print.pdf", None, 0).unwrap_err(),
        "unsupported action_type 'print.pdf'"
    );
    assert!(matches!(
        plan_action(&mut processed, Some("central"), "print.persist", None, 0),
        Ok(ActionPlan::Run { kind: ActionKind::PrintPersist, dedupe_key: None })
    ));
}

#[test]
fn test_device_command_requires_device_id() {
    assert_eq!(
        route_device_command(None, None, Some("print")).unwrap_err(),
        "device.command requires device_id (or device.id)"
    );
}

#[test]
fn test_device_command_print_routes_to_escpos() {
    assert_eq!(
        route_device_command(Some(" dev_1 "), None, Some("PRINT")).unwrap(),
        ("dev_1".to_string(), DeviceSubAction::PrintEscpos)
    );
    assert_eq!(
        route_device_command(None, Some("dev_2"), Some("check")).unwrap(),
        ("dev_2".to_string(), DeviceSubAction::ConnectionCheck)
    );
    assert_eq!(
        route_device_command(Some("dev_1"), None, Some("beep")).unwrap_err(),
        "unsupported device.command 'beep'; supported: print, connection.check"
    );
}

#[test]
fn a_print_from_a_buffer_takes_its_samples_and_clears_it_by_default() {
    let mut buf = vec![1u32, 2, 3];
    assert_eq!(take_for_print(&mut buf, true, "b1").unwrap(), vec![1, 2, 3]);
    assert!(buf.is_empty());
    assert_eq!(take_for_print(&mut buf, true, "b1").unwrap_err(), "buffer 'b1' is empty");
    let mut kept = vec![4u32, 5];
    assert_eq!(take_for_print(&mut kept, false, "b2").unwrap(), vec![4, 5]);
    assert_eq!(kept, vec![4, 5]);
}

#[test]
fn normalizing_a_share_path_twice_changes_nothing() {
    for input in ["//srv/printer", " \"\\\\srv\\\\share\\q1\" ", "srv/share/ x /"] {
        let once = normalize_windows_share(input).unwrap();
        assert_eq!(normalize_windows_share(&once), Some(once.clone()));
    }
    assert_eq!(normalize_windows_share("//srv/printer").as_deref(), Some(r"\\srv\printer"));
    assert_eq!(normalize_windows_share("srv"), None);
    // A quote left at the end of the last component is stripped by a second pass.
    let once = normalize_windows_share(r#"\\srv\ab" \"#).unwrap();
    assert_eq!(once, r#"\\srv\ab""#);
    assert_eq!(normalize_windows_share(&once).as_deref(), Some(r"\\srv\ab"));
}
