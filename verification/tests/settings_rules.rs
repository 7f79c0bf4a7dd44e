use scada_edge::agent::settings::{
    auto_print_settings, bridge_config_from_vars, check_remote_config_requirements, mqtt_enabled, next_backoff,
    remote_config_enabled,
};
use scada_edge::supervisor::config::EnvVars;

fn vars(pairs: &[(&str, &str)]) -> EnvVars {
    let mut v = EnvVars::new();
    for (k, val) in pairs {
        v.insert(k.to_string(), val.to_string());
    }
    v
}

#[test]
fn an_empty_environment_gives_the_default_bridge_settings() {
    let c = bridge_config_from_vars(&vars(&[]), None, None).unwrap();
    assert_eq!(c.site, "default-site");
    assert_eq!(c.agent, "edge-01");
    assert_eq!(c.broker_host, "127.0.0.1");
    assert_eq!(c.broker_port, 1883);
    assert_eq!(c.client_id, "edge-agent-01");
    assert_eq!(c.outbox_path, "./data/mqtt_outbox.db");
    assert_eq!(c.ticket_sequence_path, "./data/ticket_sequence.db");
    assert_eq!(c.outbox_flush_batch, 50);
    assert_eq!(c.outbox_max_messages, 10_000);
    assert_eq!(c.outbox_active_key_id, "v1");
    assert_eq!(c.health_publish_interval_secs, 30);
    assert_eq!(c.health_outbox_depth_warn, 1000);
    assert_eq!(c.health_outbox_oldest_secs_warn, 300);
    assert_eq!(c.alert_degraded_streak, 3);
    assert_eq!(c.alert_recovered_streak, 3);
    assert_eq!(c.alert_dedup_window_secs, 300);
    assert_eq!(c.config_cache_path, "./data/runtime_config.signed.json");
    assert_eq!(c.config_apply_receipt_path, "./data/config_apply_receipt.json");
    assert_eq!(c.config_check_interval_secs, 120);
    assert_eq!(c.config_check_jitter_secs, 20);
    assert_eq!(c.escpos_output_path, "./data/escpos_output.bin");
    assert_eq!(c.escpos_tcp_port, 9100);
    assert_eq!(c.on_demand_tcp_port, None);
    assert!(!c.on_demand_probe_enabled);
    assert_eq!(c.on_demand_probe_timeout_ms, 1200);
    assert_eq!(c.config_check_hmac_secret, None);
    assert_eq!(c.config_check_url, None);
}

#[test]
fn bridge_settings_are_read_from_their_variables() {
    let v = vars(&[
        ("EDGE_SITE", "plant-a"),
        ("MQTT_PORT", "+8883"),
        ("MQTT_OUTBOX_FLUSH_BATCH", "7"),
        ("EDGE_ON_DEMAND_TCP_PORT", "9101"),
        ("EDGE_ON_DEMAND_PROBE_ENABLED", "TRUE"),
        ("EDGE_CONFIG_HMAC_SECRET", "s3cret"),
        ("MQTT_OUTBOX_PREV_KEY_ID", "v0"),
    ]);
    let c = bridge_config_from_vars(&v, Some("h1".to_string()), Some("hb.txt".to_string())).unwrap();
    assert_eq!(c.site, "plant-a");
    assert_eq!(c.broker_port, 8883);
    assert_eq!(c.outbox_flush_batch, 7);
    assert_eq!(c.on_demand_tcp_port, Some(9101));
    assert!(c.on_demand_probe_enabled);
    assert_eq!(c.config_check_hmac_secret.as_deref(), Some("s3cret"));
    assert_eq!(c.outbox_prev_key_id.as_deref(), Some("v0"));
    assert_eq!(c.config_hash.as_deref(), Some("h1"));
    assert_eq!(c.heartbeat_path.as_deref(), Some("hb.txt"));
}

#[test]
fn unreadable_or_out_of_range_numbers_fall_back_to_the_default() {
    let v = vars(&[
        ("MQTT_PORT", "70000"),
        ("EDGE_ESCPOS_TCP_PORT", " 9100x"),
        ("EDGE_ON_DEMAND_TCP_PORT", "-1"),
        ("MQTT_HEALTH_PUBLISH_INTERVAL_SECS", ""),
    ]);
    let c = bridge_config_from_vars(&v, None, None).unwrap();
    assert_eq!(c.broker_port, 1883);
    assert_eq!(c.escpos_tcp_port, 9100);
    assert_eq!(c.on_demand_tcp_port, None);
    assert_eq!(c.health_publish_interval_secs, 30);
}

#[test]
fn a_blank_signing_secret_counts_as_unset() {
    let c = bridge_config_from_vars(&vars(&[("EDGE_CONFIG_HMAC_SECRET", "  ")]), None, None).unwrap();
    assert_eq!(c.config_check_hmac_secret, None);
}

#[test]
fn production_with_remote_config_requires_the_signing_secret() {
    let v = vars(&[("EDGE_RUNTIME_ENV", "Prod"), ("EDGE_CONFIG_URL", "https://central")]);
    assert_eq!(
        bridge_config_from_vars(&v, None, None).unwrap_err(),
        "EDGE_CONFIG_HMAC_SECRET is required in prod when EDGE_CONFIG_URL is enabled"
    );
    let v = vars(&[("CENTRAL_RUNTIME_ENV", "prod"), ("EDGE_CONFIG_URL", "https://central")]);
    assert!(bridge_config_from_vars(&v, None, None).is_err());
    let v = vars(&[("EDGE_RUNTIME_ENV", "dev"), ("CENTRAL_RUNTIME_ENV", "prod"), ("EDGE_CONFIG_URL", "x")]);
    assert!(bridge_config_from_vars(&v, None, None).is_ok());
}

#[test]
fn production_with_remote_config_requires_api_credentials_and_an_enrolment_token() {
    assert!(check_remote_config_requirements(&vars(&[])).is_ok());
    let base = [("EDGE_RUNTIME_ENV", "prod"), ("EDGE_CONFIG_URL", "https://central")];
    assert_eq!(
        check_remote_config_requirements(&vars(&base)).unwrap_err(),
        "EDGE_CONFIG_BEARER_TOKEN or EDGE_CONFIG_API_USER/EDGE_CONFIG_API_PASSWORD are required in prod when EDGE_CONFIG_URL is enabled"
    );
    let mut with_user = base.to_vec();
    with_user.push(("EDGE_CONFIG_API_USER", "u"));
    assert!(check_remote_config_requirements(&vars(&with_user)).is_err());
    with_user.push(("EDGE_CONFIG_API_PASSWORD", "p"));
    assert_eq!(
        check_remote_config_requirements(&vars(&with_user)).unwrap_err(),
        "EDGE_ENROLL_TOKEN is required in prod when EDGE_CONFIG_URL is enabled"
    );
    with_user.push(("EDGE_ENROLL_TOKEN", "tok"));
    assert!(check_remote_config_requirements(&vars(&with_user)).is_ok());
    let mut with_bearer = base.to_vec();
    with_bearer.push(("EDGE_CONFIG_BEARER_TOKEN", "b"));
    with_bearer.push(("EDGE_ENROLL_TOKEN", "tok"));
    assert!(check_remote_config_requirements(&vars(&with_bearer)).is_ok());
}

#[test]
fn switches_read_true_in_any_case_or_one() {
    assert!(mqtt_enabled(&vars(&[("EDGE_MQTT_ENABLED", "True")])));
    assert!(mqtt_enabled(&vars(&[("EDGE_MQTT_ENABLED", "1")])));
    assert!(!mqtt_enabled(&vars(&[("EDGE_MQTT_ENABLED", "yes")])));
    assert!(!mqtt_enabled(&vars(&[])));
    assert!(remote_config_enabled(&vars(&[("EDGE_CONFIG_URL", "http://c")])));
    assert!(!remote_config_enabled(&vars(&[("EDGE_CONFIG_URL", " ")])));
}

#[test]
fn auto_print_settings_list_the_named_tags() {
    let s = auto_print_settings(&vars(&[
        ("EDGE_AUTO_PRINT_NONPOS_ENABLED", "true"),
        ("EDGE_AUTO_PRINT_TAGS", " scale-1, ,line-2 ,"),
        ("EDGE_AUTO_PRINT_CONSECUTIVE", "4"),
    ]));
    assert!(s.enabled);
    assert_eq!(s.tag_ids, vec!["scale-1".to_string(), "line-2".to_string()]);
    assert_eq!(s.consecutive, 4);
    let d = auto_print_settings(&vars(&[]));
    assert!(!d.enabled);
    assert!(d.tag_ids.is_empty());
    assert_eq!(d.consecutive, 2);
}

#[test]
fn the_restart_backoff_doubles_up_to_thirty_seconds() {
    assert_eq!(next_backoff(1), 2);
    assert_eq!(next_backoff(8), 16);
    assert_eq!(next_backoff(16), 30);
    assert_eq!(next_backoff(30), 30);
}
