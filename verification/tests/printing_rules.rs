use scada_edge::agent::bootstrap::{
    bootstrap_connection, bootstrap_tag, cached_config_hash, check_response_decision, choose_runtime_source,
    config_urls, envelope_matches_check, invalid_driver_type_message, parse_update_mode, parse_value_type,
    plan_tag_map, verify_envelope, BootstrapTag, EdgeConfigCheckResponse, FetchOutcome, RuntimeSource,
    SignedRuntimeConfigEnvelope, TagMapEntry,
};
use scada_edge::agent::bridge_config::MqttBridgeConfig;
use scada_edge::agent::printing::{
    device_transport_default, escpos_file_header, plan_device_args, ArgsKind, ArgsShape, format_addr, format_print_id, plan_connection_check,
    plan_startup_probe, print_destination, print_number, probe_report, render_action_lines,
    resolve_weight_ticket_header, split_weight_text, tcp_check_result, ticket_decimals, ticket_unit,
    wants_buffer_print, weight_ticket_lines, CheckTarget, ConnectOutcome, PrintDestination, PrinterDefault,
};
use scada_edge::agent::remote_config::{config_topic, removed_tag_ids, ConfigDedup};
use scada_edge::domain::connection::ReconnectStrategy;
use scada_edge::domain::driver::DriverType;
use scada_edge::domain::tag::entity::{TagUpdateMode, TagValueType};
use scada_edge::keyed::StrMap;

use hmac::Mac;
use sha2::Digest;

fn cfg() -> MqttBridgeConfig {
    MqttBridgeConfig {
        site: "plant-a".to_string(),
        agent: "edge-01".to_string(),
        broker_host: "localhost".to_string(),
        broker_port: 1883,
        client_id: "edge-01".to_string(),
        outbox_path: "./data/mqtt_outbox.db".to_string(),
        ticket_sequence_path: "./data/ticket_sequence.db".to_string(),
        outbox_flush_batch: 50,
        heartbeat_path: None,
        outbox_max_messages: 1000,
        outbox_active_key_id: "v1".to_string(),
        outbox_prev_key_id: None,
        outbox_encryption_secret: None,
        outbox_hmac_secret: None,
        outbox_prev_encryption_secret: None,
        outbox_prev_hmac_secret: None,
        health_publish_interval_secs: 30,
        health_outbox_depth_warn: 1000,
        health_outbox_oldest_secs_warn: 300,
        alert_degraded_streak: 3,
        alert_recovered_streak: 3,
        alert_dedup_window_secs: 300,
        config_hash: None,
        config_check_url: None,
        config_check_enroll_token: None,
        config_check_hmac_secret: None,
        config_check_key_id: None,
        config_cache_path: "./data/runtime_config.signed.json".to_string(),
        config_apply_receipt_path: "./data/config_apply_receipt.json".to_string(),
        config_check_interval_secs: 120,
        config_check_jitter_secs: 20,
        escpos_output_path: "./data/out.bin".to_string(),
        escpos_tcp_host: None,
        escpos_tcp_port: 9100,
        escpos_windows_share: None,
        on_demand_tcp_host: None,
        on_demand_tcp_port: None,
        on_demand_probe_enabled: false,
        on_demand_probe_timeout_ms: 1200,
        on_demand_probe_connection_id: None,
        on_demand_probe_device_id: None,
    }
}

#[test]
fn print_lines_come_from_lines_then_text_then_data() {
    assert_eq!(
        render_action_lines(Some(vec!["A".to_string(), "B".to_string()]), Some("t"), None),
        vec!["A".to_string(), "B".to_string()]
    );
    assert_eq!(render_action_lines(Some(vec![]), Some("t"), None), vec!["t".to_string()]);
    assert_eq!(render_action_lines(None, None, Some("{\"x\":1}")), vec!["DATA: {\"x\":1}".to_string()]);
    assert_eq!(render_action_lines(None, None, None), vec!["SCADA ACTION PRINT".to_string()]);
}

#[test]
fn test_print_escpos_with_buffer_mode_uses_buffer() {
    assert!(wants_buffer_print(false, Some("FROM_BUFFER")));
    assert!(wants_buffer_print(true, None));
    assert!(!wants_buffer_print(false, Some("lines")));
    assert!(!wants_buffer_print(false, None));
}

#[test]
fn written_weights_split_into_number_and_unit() {
    assert_eq!(split_weight_text("+ 12.5 kg"), ("+12.5".to_string(), "kg".to_string()));
    assert_eq!(split_weight_text("-3"), ("-3".to_string(), String::new()));
    assert_eq!(split_weight_text("g 12"), (String::new(), "g12".to_string()));
}

#[test]
fn test_device_command_connection_check_uses_device_transport_defaults() {
    match device_transport_default(false, None, Some(" 10.0.0.5 "), Some(9100)) {
        Some(PrinterDefault::Tcp { host, port }) => {
            assert_eq!(host, "10.0.0.5");
            assert_eq!(port, Some(9100));
        }
        _ => panic!("expected a tcp default"),
    }
    match device_transport_default(false, Some("\\\\srv\\p"), Some("10.0.0.5"), None) {
        Some(PrinterDefault::Share(s)) => assert_eq!(s, "\\\\srv\\p"),
        _ => panic!("expected a share default"),
    }
    assert!(device_transport_default(true, Some("x"), Some("h"), None).is_none());
    match device_transport_default(false, None, Some("h"), Some(70000)) {
        Some(PrinterDefault::Tcp { port, .. }) => assert_eq!(port, None),
        _ => panic!("expected a tcp default"),
    }
}

#[test]
fn device_args_are_shaped_and_completed_with_the_device_printer() {
    let none: Vec<String> = Vec::new();
    let plan = plan_device_args(ArgsKind::Missing, &none, None, Some(" 10.0.0.5 "), Some(9100));
    assert_eq!(plan.shape, ArgsShape::Empty);
    assert!(plan.add_device_id);
    match plan.printer {
        Some(PrinterDefault::Tcp { host, port }) => {
            assert_eq!(host, "10.0.0.5");
            assert_eq!(port, Some(9100));
        }
        _ => panic!("expected a tcp printer"),
    }

    let plan = plan_device_args(ArgsKind::Other, &none, Some("\\\\srv\\p"), None, None);
    assert_eq!(plan.shape, ArgsShape::WrapAsValue);
    assert!(plan.add_device_id);
    assert!(matches!(plan.printer, Some(PrinterDefault::Share(_))));

    let keys = vec!["device_id".to_string(), "lines".to_string()];
    let plan = plan_device_args(ArgsKind::Object, &keys, Some("\\\\srv\\p"), None, None);
    assert_eq!(plan.shape, ArgsShape::AsGiven);
    assert!(!plan.add_device_id);
    assert!(plan.printer.is_some());
}

#[test]
fn device_args_that_name_a_printer_get_no_default() {
    for key in ["host", "printer_host", "printer", "share", "unc"] {
        let keys = vec!["text".to_string(), key.to_string()];
        let plan = plan_device_args(ArgsKind::Object, &keys, Some("\\\\srv\\p"), Some("h"), Some(9100));
        assert!(plan.printer.is_none(), "key {}", key);
        assert!(plan.add_device_id);
    }
    let keys = vec!["printers".to_string()];
    let plan = plan_device_args(ArgsKind::Object, &keys, None, None, None);
    assert!(plan.printer.is_none());
    let plan = plan_device_args(ArgsKind::Object, &keys, None, Some("h"), None);
    assert!(plan.printer.is_some());
}

#[test]
fn print_jobs_go_to_share_then_tcp_then_file() {
    assert!(matches!(print_destination(Some("\\\\s\\p".to_string()), Some("h".to_string()), 1), PrintDestination::WindowsShare(_)));
    match print_destination(None, Some("10.0.0.5".to_string()), 9100) {
        PrintDestination::Tcp(a) => assert_eq!(a, "10.0.0.5:9100"),
        _ => panic!("expected tcp"),
    }
    assert!(matches!(print_destination(None, None, 9100), PrintDestination::File));
    assert_eq!(format_addr("h", 0), "h:0");
    assert_eq!(
        escpos_file_header("2026-01-01T00:00:00+00:00", None, "print.escpos"),
        "\n--- 2026-01-01T00:00:00+00:00 request_id=- action=print.escpos ---\n"
    );
}

#[test]
fn test_connection_check_requires_target() {
    assert_eq!(
        plan_connection_check(None, 9100, None, None, 1200).unwrap_err(),
        "connection.check requires host/port or windows printer share (payload.printer.share)"
    );
    match plan_connection_check(Some("h".to_string()), 9100, None, Some(10), 1200).unwrap() {
        CheckTarget::Tcp { addr, timeout_ms } => {
            assert_eq!(addr, "h:9100");
            assert_eq!(timeout_ms, 100);
        }
        _ => panic!("expected tcp"),
    }
    match plan_connection_check(None, 9100, Some("\\\\s\\p".to_string()), None, 1200).unwrap() {
        CheckTarget::Share { timeout_ms, .. } => assert_eq!(timeout_ms, 1200),
        _ => panic!("expected share"),
    }
    assert_eq!(
        tcp_check_result("h:1", 500, ConnectOutcome::TimedOut).unwrap_err(),
        "connection.check timeout 'h:1' after 500 ms"
    );
    assert_eq!(
        tcp_check_result("h:1", 500, ConnectOutcome::Failed("refused".to_string())).unwrap_err(),
        "connection.check failed 'h:1': refused"
    );
}

#[test]
fn test_on_demand_startup_probe_skips_when_ids_missing() {
    let mut c = cfg();
    c.on_demand_probe_enabled = true;
    c.on_demand_tcp_host = Some("10.0.0.9".to_string());
    c.on_demand_probe_connection_id = Some("conn".to_string());
    assert!(plan_startup_probe(&c).is_none());
    c.on_demand_probe_device_id = Some("  ".to_string());
    assert!(plan_startup_probe(&c).is_none());
}

#[test]
fn test_on_demand_startup_probe_publishes_connected_state() {
    let mut c = cfg();
    c.on_demand_probe_enabled = true;
    c.on_demand_tcp_host = Some("10.0.0.9".to_string());
    c.on_demand_tcp_port = Some(9101);
    c.on_demand_probe_timeout_ms = 50;
    c.on_demand_probe_connection_id = Some(" conn ".to_string());
    c.on_demand_probe_device_id = Some("dev".to_string());
    let plan = plan_startup_probe(&c).unwrap();
    assert_eq!(plan.connection_id, "conn");
    assert_eq!(plan.device_id, "dev");
    assert_eq!(plan.addr, "10.0.0.9:9101");
    assert_eq!(plan.timeout_ms, 100);
    assert_eq!(probe_report(&plan, ConnectOutcome::Connected), ("Connected".to_string(), "startup_probe_ok".to_string()));
    assert_eq!(
        probe_report(&plan, ConnectOutcome::TimedOut),
        ("Error".to_string(), "startup_probe_timeout '10.0.0.9:9101' after 100 ms".to_string())
    );
    c.on_demand_probe_enabled = false;
    assert!(plan_startup_probe(&c).is_none());
}

#[test]
fn test_buffer_accumulate_then_print_from_buffer() {
    let header = resolve_weight_ticket_header(None, None, Some(" L-7 "), None, None, Some("dev_scale_1"), None, Some(42), 0, "weights-a");
    assert_eq!(header.description, "___________________");
    assert_eq!(header.batch, "L-7");
    assert_eq!(header.device_name, "dev_scale_1");
    assert_eq!(header.print_id, "000042");
    let rows = vec![("12.3450".to_string(), "g".to_string())];
    let lines = weight_ticket_lines(
        &header,
        Some(("01/01/2026 10:00:00".to_string(), "01/01/2026 10:00:00".to_string())),
        &rows,
        1,
        "12.3450",
        "12.3450",
        "12.3450",
        "0.0000",
        "0.0000",
        "g",
    );
    assert!(lines.contains(&"COUNT: 1".to_string()));
    assert_eq!(lines[0], format!("{}{}", "Descripcion:", format!("{:>26}", "___________________")));
    assert_eq!(lines[2], format!("{:<12}{}{:>5}{}", "Equipo:", "dev_scale_1", "#", "000042"));
    assert_eq!(lines[3], "BUFFER: weights-a");
    assert_eq!(lines[6], format!("{:<12}{:>26}", "Inicio:", "01/01/2026 10:00:00"));
    assert_eq!(lines[8], format!("{:<12}{:>20}{:>2}", "N01", "12.3450", "g"));
    assert_eq!(lines[lines.len() - 1], "Firma_________________________________");
    assert_eq!(lines.len(), 6 + 2 + 1 + 13);
}

#[test]
fn ticket_header_fields_fall_back_in_order() {
    let h = resolve_weight_ticket_header(Some(" Harina "), Some(" "), Some("L2"), Some("  "), Some("Balanza"), Some("d"), Some("e"), None, 1_234_567_890, "b");
    assert_eq!(h.description, "Harina");
    assert_eq!(h.batch, "___________________");
    assert_eq!(h.device_name, "d");
    assert_eq!(h.print_id, "567890");
    let n = resolve_weight_ticket_header(None, None, None, None, None, None, None, None, 0, "b");
    assert_eq!(n.device_name, "unknown-device");
    assert_eq!(print_number(None, -1), 999_999);
    assert_eq!(format_print_id(-5), "-00005");
    assert_eq!(format_print_id(1_234_567), "1234567");
    assert_eq!(ticket_decimals(None), 4);
    assert_eq!(ticket_decimals(Some(9)), 6);
    assert_eq!(ticket_unit(&vec!["".to_string(), " kg ".to_string(), "g".to_string()]), "kg");
}

fn btag(id: &str, device_id: &str, source: &str) -> BootstrapTag {
    BootstrapTag {
        id: id.to_string(),
        name: id.to_uppercase(),
        device_id: device_id.to_string(),
        source: source.to_string(),
        enabled: None,
        value_type: None,
        update_mode: None,
        interval_ms: None,
        metadata_object: None,
    }
}

#[test]
fn test_ensure_modbus_tag_map_from_tags() {
    let driver = DriverType::new("ModbusTCP").unwrap();
    let tags = vec![btag("t1", "d1", "hr:0:u16")];
    let plan = plan_tag_map(&driver, false, &tags, &StrMap::new()).unwrap();
    assert_eq!(plan, vec![("t1".to_string(), TagMapEntry::Source("hr:0:u16".to_string()))]);
}

#[test]
fn test_ensure_modbus_rtu_tag_map_uses_device_unit_map() {
    let driver = DriverType::new("ModbusRTU").unwrap();
    let mut units: StrMap<u64> = StrMap::new();
    units.insert("dev50".to_string(), 50);
    units.insert("dev100".to_string(), 100);
    let tags = vec![btag("t50", "dev50", "hr:0:u16"), btag("t100", "dev100", "hr:10:f32")];
    let plan = plan_tag_map(&driver, false, &tags, &units).unwrap();
    assert_eq!(
        plan[0],
        (
            "t50".to_string(),
            TagMapEntry::Modbus { source: "hr:0:u16".to_string(), device_id: "dev50".to_string(), unit_id: Some(50) }
        )
    );
    match &plan[1].1 {
        TagMapEntry::Modbus { unit_id, .. } => assert_eq!(*unit_id, Some(100)),
        _ => panic!("expected a modbus entry"),
    }
}

#[test]
fn test_ensure_serial_ascii_tag_map_from_tags() {
    let driver = DriverType::new("SerialAscii").unwrap();
    let tags = vec![btag("tag_scale_manual_compound", "dev_scale_manual_1", "scale:compound")];
    let plan = plan_tag_map(&driver, false, &tags, &StrMap::new()).unwrap();
    assert_eq!(plan[0].1, TagMapEntry::Source("scale:compound".to_string()));
}

#[test]
fn tag_maps_are_left_alone_when_present_or_not_used() {
    let tags = vec![btag("t", "d", "s")];
    assert!(plan_tag_map(&DriverType::new("ModbusTCP").unwrap(), true, &tags, &StrMap::new()).is_none());
    assert!(plan_tag_map(&DriverType::new("Simulator").unwrap(), false, &tags, &StrMap::new()).is_none());
    let mut units: StrMap<u64> = StrMap::new();
    units.insert("d".to_string(), 300);
    let plan = plan_tag_map(&DriverType::new(" modbusrtu ").unwrap(), false, &tags, &units).unwrap();
    assert_eq!(plan[0].1, TagMapEntry::Modbus { source: "s".to_string(), device_id: "d".to_string(), unit_id: None });
}

#[test]
fn test_parse_update_mode_defaults_polling() {
    match parse_update_mode(None, None).unwrap() {
        TagUpdateMode::Polling { interval_ms } => assert_eq!(interval_ms, 1000),
        _ => panic!("expected polling"),
    }
}

#[test]
fn test_parse_update_mode_on_message() {
    match parse_update_mode(Some("on_message"), None).unwrap() {
        TagUpdateMode::OnMessage => {}
        _ => panic!("expected on_message"),
    }
}

#[test]
fn unknown_value_types_and_update_modes_are_named_in_the_error() {
    assert_eq!(parse_value_type(" INT "), Ok(TagValueType::Integer));
    assert_eq!(parse_value_type("Decimal").unwrap_err(), "unsupported tag value_type 'decimal'");
    assert_eq!(parse_update_mode(Some("Burst"), None).unwrap_err(), "unsupported update_mode 'burst'");
    assert_eq!(
        parse_update_mode(Some("PollingOnChange"), Some(250)).unwrap(),
        TagUpdateMode::PollingOnChange { interval_ms: 250 }
    );
}

#[test]
fn bootstrap_tags_and_connections_take_configured_values() {
    let mut t = btag("tag_hr_10_cmd", "dev_1", "hr:10:u16");
    t.value_type = Some("integer".to_string());
    t.enabled = Some(false);
    t.update_mode = Some("on_change".to_string());
    let tag = bootstrap_tag(t).unwrap();
    assert_eq!(tag.id.as_str(), "tag_hr_10_cmd");
    assert_eq!(tag.value_type, TagValueType::Integer);
    assert!(!tag.enabled);
    assert_eq!(tag.update_mode, TagUpdateMode::OnChange);
    let mut bad = btag("x", "d", "s");
    bad.value_type = Some("blob".to_string());
    assert_eq!(bootstrap_tag(bad).unwrap_err(), "unsupported tag value_type 'blob'");

    let driver = DriverType::new("ModbusTCP").unwrap();
    let conn = bootstrap_connection("c1", "C1".to_string(), driver, serde_json::Value::Object(serde_json::Map::new()), Some(800), None, Some(3));
    assert_eq!(conn.id.as_str(), "c1");
    assert_eq!(conn.timeout_ms, 800);
    assert_eq!(conn.reconnection.max_retries, Some(3));
    assert_eq!(conn.reconnection.strategy, ReconnectStrategy::Fixed { delay_ms: 1000 });
    assert!(conn.enabled);
    assert_eq!(
        invalid_driver_type_message(" ", "c9"),
        "invalid driver_type ' ' for connection 'c9'"
    );
}

fn signed(payload: &str, secret: &str) -> SignedRuntimeConfigEnvelope {
    let hash = sha2::Sha256::digest(payload.as_bytes());
    let mut mac = <hmac::Hmac<sha2::Sha256> as Mac>::new_from_slice(secret.as_bytes()).unwrap();
    mac.update(&hash);
    let sig = mac.finalize().into_bytes();
    let hex = |b: &[u8]| b.iter().map(|x| format!("{:02x}", x)).collect::<String>();
    SignedRuntimeConfigEnvelope {
        edge_id: "edge-01".to_string(),
        issued_at_ms: 1_767_225_600_000,
        algorithm: "hmac-sha256".to_string(),
        key_id: "v1".to_string(),
        payload_json: payload.to_string(),
        config_hash: hex(hash.as_slice()),
        signature_hex: hex(sig.as_slice()),
    }
}

#[test]
fn test_verify_envelope_rejects_tampered_payload() {
    let secret = "unit-test-secret";
    let now: i64 = 1_767_225_600_000;
    let mut env = signed(r#"{"connections":[]}"#, secret);
    verify_envelope(&env, "edge-01", secret, Some("v1"), now).expect("valid envelope");
    env.payload_json = r#"{"connections":[{"id":"x"}]}"#.to_string();
    let err = verify_envelope(&env, "edge-01", secret, Some("v1"), now).unwrap_err();
    assert!(err.contains("hash mismatch"), "unexpected error: {}", err);
}

#[test]
fn envelopes_for_other_edges_keys_or_secrets_are_rejected() {
    let now: i64 = 1_767_225_600_000;
    let env = signed("{}", "s");
    assert_eq!(
        verify_envelope(&env, "edge-02", "s", None, now).unwrap_err(),
        "signed config edge_id mismatch: expected 'edge-02' got 'edge-01'"
    );
    assert_eq!(
        verify_envelope(&env, "edge-01", "s", Some("v2"), now).unwrap_err(),
        "signed config key_id mismatch: expected 'v2' got 'v1'"
    );
    assert_eq!(
        verify_envelope(&env, "edge-01", "other", None, now).unwrap_err(),
        "signed config signature verification failed"
    );
    assert_eq!(
        verify_envelope(&env, "edge-01", "s", None, now - 600_001).unwrap_err(),
        "signed config issued_at is too far in the future"
    );
}

#[test]
fn central_endpoints_and_check_answers() {
    let (check, runtime) = config_urls("http://central:8088//");
    assert_eq!(check, "http://central:8088/api/edge/config/check");
    assert_eq!(runtime, "http://central:8088/api/edge/config/runtime");
    let changed = EdgeConfigCheckResponse { accepted: true, config_changed: true, target_config_hash: "AB".to_string(), poll_after_secs: 60 };
    assert_eq!(check_response_decision(true, 200, Some(&changed)), Ok(true));
    assert_eq!(check_response_decision(false, 503, None).unwrap_err(), "config check failed with status 503");
    let refused = EdgeConfigCheckResponse { accepted: false, config_changed: true, target_config_hash: String::new(), poll_after_secs: 0 };
    assert_eq!(check_response_decision(true, 200, Some(&refused)).unwrap_err(), "config check rejected by central");
    assert!(envelope_matches_check("ab", "AB").is_ok());
    assert!(envelope_matches_check("ab", "ac").is_err());
    assert_eq!(choose_runtime_source(FetchOutcome::Changed, false), RuntimeSource::Remote);
    assert_eq!(choose_runtime_source(FetchOutcome::Failed, true), RuntimeSource::Cache);
    assert_eq!(choose_runtime_source(FetchOutcome::Unchanged, false), RuntimeSource::Nothing);
    assert_eq!(cached_config_hash("  ".to_string()), None);
    assert_eq!(cached_config_hash("abc".to_string()), Some("abc".to_string()));
}

#[test]
fn test_config_deduplication() {
    let mut dedup = ConfigDedup::new();
    let payload = b"{\"tags\":[]}".to_vec();
    assert!(dedup.accept(&payload));
    assert!(!dedup.accept(&payload));
    assert!(dedup.accept(&b"{}".to_vec()));
    assert_eq!(config_topic("edge-01"), "scada/config/edge-01");
}

#[test]
fn tags_missing_from_a_new_config_are_removed() {
    let existing = vec!["a".to_string(), "b".to_string(), "c".to_string()];
    let new_ids = vec!["c".to_string(), "a".to_string()];
    assert_eq!(removed_tag_ids(&existing, &new_ids), vec!["b".to_string()]);
    assert!(removed_tag_ids(&existing, &existing).is_empty());
}
