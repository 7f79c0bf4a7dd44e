use scada_edge::agent::bridge::{AlertState, BridgeMetrics};
use scada_edge::agent::bridge_config::MqttBridgeConfig;
use scada_edge::agent::broker_watch::BrokerActivityWatch;
use scada_edge::agent::bridge_loop::{
    alert_tick, bridge_step, bridge_timings, config_check_plan, config_check_wait, inbound_topics, route_inbound,
    source_id, BridgeAction, BridgeEvent, InboundRoute,
};
use scada_edge::agent::outbox::OutboxStats;

fn bridge_cfg() -> MqttBridgeConfig {
    MqttBridgeConfig {
        site: "plant-a".to_string(),
        agent: "edge-01".to_string(),
        broker_host: "localhost".to_string(),
        broker_port: 1883,
        client_id: "edge-01".to_string(),
        outbox_path: "./data/mqtt_outbox.db".to_string(),
        ticket_sequence_path: "./data/ticket_sequence.db".to_string(),
        outbox_flush_batch: 50,
        heartbeat_path: None,
        outbox_max_messages: 1000,
        outbox_active_key_id: "v1".to_string(),
        outbox_prev_key_id: None,
        outbox_encryption_secret: None,
        outbox_hmac_secret: None,
        outbox_prev_encryption_secret: None,
        outbox_prev_hmac_secret: None,
        health_publish_interval_secs: 30,
        health_outbox_depth_warn: 1000,
        health_outbox_oldest_secs_warn: 300,
        alert_degraded_streak: 3,
        alert_recovered_streak: 3,
        alert_dedup_window_secs: 300,
        config_hash: None,
        config_check_url: None,
        config_check_enroll_token: None,
        config_check_hmac_secret: None,
        config_check_key_id: None,
        config_cache_path: "./data/runtime_config.signed.json".to_string(),
        config_apply_receipt_path: "./data/config_apply_receipt.json".to_string(),
        config_check_interval_secs: 120,
        config_check_jitter_secs: 20,
        escpos_output_path: "out.bin".to_string(),
        escpos_tcp_host: None,
        escpos_tcp_port: 9100,
        escpos_windows_share: None,
        on_demand_tcp_host: None,
        on_demand_tcp_port: None,
        on_demand_probe_enabled: false,
        on_demand_probe_timeout_ms: 1200,
        on_demand_probe_connection_id: None,
        on_demand_probe_device_id: None,
    }
}

#[test]
fn the_bridge_settings_are_held_to_their_floors() {
    let mut cfg = bridge_cfg();
    cfg.outbox_flush_batch = 0;
    cfg.outbox_max_messages = 0;
    cfg.health_publish_interval_secs = 1;
    cfg.health_outbox_depth_warn = 0;
    cfg.health_outbox_oldest_secs_warn = 0;
    cfg.alert_degraded_streak = 0;
    cfg.alert_recovered_streak = 0;
    cfg.alert_dedup_window_secs = 0;
    cfg.config_check_interval_secs = 2;
    cfg.config_check_jitter_secs = 900;
    let t = bridge_timings(&cfg);
    assert_eq!(t.flush_batch, 1);
    assert_eq!(t.outbox_max_messages, 1);
    assert_eq!(t.health_interval_secs, 5);
    assert_eq!(t.depth_warn, 1);
    assert_eq!(t.oldest_warn_secs, 1);
    assert_eq!(t.degraded_threshold, 1);
    assert_eq!(t.recovered_threshold, 1);
    assert_eq!(t.dedup_window_secs, 1);
    assert_eq!(t.config_check_interval_secs, 5);
    assert_eq!(t.config_check_jitter_secs, 300);

    let t = bridge_timings(&bridge_cfg());
    assert_eq!(t.flush_batch, 50);
    assert_eq!(t.health_interval_secs, 30);
    assert_eq!(t.config_check_interval_secs, 120);
    assert_eq!(t.config_check_jitter_secs, 20);
}

#[test]
fn the_bridge_signs_as_its_agent() {
    assert_eq!(source_id("edge-01"), "edge/edge-01");
}

#[test]
fn the_config_check_waits_the_interval_plus_a_bounded_jitter() {
    assert_eq!(config_check_wait(120, 0, 12345), 120);
    assert_eq!(config_check_wait(120, 20, 12345), 120 + 12345 % 21);
    assert_eq!(config_check_wait(120, 20, 20), 140);
    assert_eq!(config_check_wait(120, 20, 21), 120);
}

#[test]
fn inbound_messages_are_routed_by_topic() {
    let cfg = bridge_cfg();
    assert_eq!(route_inbound(&cfg, "scada/plant-a/edge/edge-01/cmd/write"), InboundRoute::WriteCommand);
    assert_eq!(route_inbound(&cfg, "scada/plant-a/edge/edge-01/cmd/action"), InboundRoute::ActionCommand);
    assert_eq!(route_inbound(&cfg, "scada/plant-a/edge/edge-01/alerts/runtime/ack"), InboundRoute::AlertAck);
    assert_eq!(route_inbound(&cfg, "scada/plant-a/edge/edge-01/config/apply"), InboundRoute::ConfigApply);
    assert_eq!(route_inbound(&cfg, "scada/plant-a/edge/edge-01/control/reset"), InboundRoute::ControlReset);
    assert_eq!(route_inbound(&cfg, "scada/plant-a/edge/edge-01/cmd/write/ack"), InboundRoute::Ignored);
    assert_eq!(route_inbound(&cfg, "scada/plant-b/edge/edge-01/cmd/write"), InboundRoute::Ignored);
}

#[test]
fn every_connection_acknowledgement_subscribes_again() {
    let cfg = bridge_cfg();
    let mut w = BrokerActivityWatch::new(10_000, 0);
    assert_eq!(bridge_step(&mut w, &cfg, BridgeEvent::ConnAck, 5), BridgeAction::SubscribeAll);
    assert_eq!(bridge_step(&mut w, &cfg, BridgeEvent::ConnAck, 9), BridgeAction::SubscribeAll);
    assert_eq!(
        inbound_topics(&cfg),
        vec![
            "scada/plant-a/edge/edge-01/cmd/write".to_string(),
            "scada/plant-a/edge/edge-01/cmd/action".to_string(),
            "scada/plant-a/edge/edge-01/alerts/runtime/ack".to_string(),
            "scada/plant-a/edge/edge-01/config/apply".to_string(),
            "scada/plant-a/edge/edge-01/control/reset".to_string(),
        ]
    );
}

#[test]
fn the_bridge_polls_until_the_deadline_and_reconnects_after_it() {
    let cfg = bridge_cfg();
    let mut w = BrokerActivityWatch::new(10_000, 0);
    assert_eq!(bridge_step(&mut w, &cfg, BridgeEvent::BeforePoll, 4_000), BridgeAction::Poll { timeout_ms: 11_000 });
    assert_eq!(bridge_step(&mut w, &cfg, BridgeEvent::BeforePoll, 14_500), BridgeAction::Poll { timeout_ms: 1_000 });
    assert_eq!(bridge_step(&mut w, &cfg, BridgeEvent::BeforePoll, 15_001), BridgeAction::ForceReconnect);
    // The reconnection restarts the window.
    assert_eq!(bridge_step(&mut w, &cfg, BridgeEvent::BeforePoll, 15_001), BridgeAction::Poll { timeout_ms: 15_000 });
    assert_eq!(bridge_step(&mut w, &cfg, BridgeEvent::PollTimedOut, 30_002), BridgeAction::ForceReconnect);
}

#[test]
fn incoming_packets_restart_the_window_and_outgoing_ones_do_not() {
    let cfg = bridge_cfg();
    let mut w = BrokerActivityWatch::new(10_000, 0);
    assert_eq!(bridge_step(&mut w, &cfg, BridgeEvent::Outgoing, 10_000), BridgeAction::Continue);
    assert_eq!(bridge_step(&mut w, &cfg, BridgeEvent::BeforePoll, 10_000), BridgeAction::Poll { timeout_ms: 5_000 });
    assert_eq!(bridge_step(&mut w, &cfg, BridgeEvent::OtherIncoming, 10_000), BridgeAction::Continue);
    assert_eq!(bridge_step(&mut w, &cfg, BridgeEvent::BeforePoll, 10_000), BridgeAction::Poll { timeout_ms: 15_000 });
}

#[test]
fn messages_go_to_their_handler_and_a_restart_stops_the_bridge() {
    let cfg = bridge_cfg();
    let mut w = BrokerActivityWatch::new(10_000, 0);
    let topic = "scada/plant-a/edge/edge-01/config/apply".to_string();
    assert_eq!(
        bridge_step(&mut w, &cfg, BridgeEvent::Publish { topic }, 1),
        BridgeAction::Handle(InboundRoute::ConfigApply)
    );
    assert_eq!(bridge_step(&mut w, &cfg, BridgeEvent::Handled { restart_requested: true }, 2), BridgeAction::Stop);
    assert_eq!(bridge_step(&mut w, &cfg, BridgeEvent::Handled { restart_requested: false }, 2), BridgeAction::Continue);
    assert_eq!(bridge_step(&mut w, &cfg, BridgeEvent::PollError, 3), BridgeAction::RetryAfter { delay_ms: 1_000 });
}

#[test]
fn the_config_check_runs_only_with_url_and_token() {
    let mut cfg = bridge_cfg();
    let t = bridge_timings(&cfg);
    assert!(config_check_plan(&cfg, &t).is_none());
    cfg.config_check_url = Some("https://central".to_string());
    cfg.config_check_enroll_token = Some("   ".to_string());
    assert!(config_check_plan(&cfg, &t).is_none());
    cfg.config_check_enroll_token = Some("tok".to_string());
    let p = config_check_plan(&cfg, &t).unwrap();
    assert_eq!(p.url, "https://central");
    assert_eq!(p.token, "tok");
    assert_eq!(p.signing_secret, "dev-edge-config-signing-secret");
    assert_eq!(p.edge_id, "edge-01");
    assert_eq!(p.interval_secs, 120);
    assert_eq!(p.jitter_secs, 20);
    cfg.config_check_hmac_secret = Some("s3".to_string());
    assert_eq!(config_check_plan(&cfg, &t).unwrap().signing_secret, "s3");
}

#[test]
fn a_sustained_degradation_publishes_one_alert_and_counts_it() {
    let mut cfg = bridge_cfg();
    cfg.alert_degraded_streak = 2;
    cfg.alert_dedup_window_secs = 300;
    let t = bridge_timings(&cfg);
    let mut alert = AlertState::default();
    let mut m = BridgeMetrics::new();
    let stats = OutboxStats { depth: 2000, oldest_age_secs: Some(10) };
    assert!(alert_tick(&mut alert, &mut m, "edge/edge-01", "degraded", &stats, &t, 1_000, 1).is_none());
    let a = alert_tick(&mut alert, &mut m, "edge/edge-01", "degraded", &stats, &t, 2_000, 2).unwrap();
    assert_eq!(a.state, "raised");
    assert_eq!(a.severity, "warning");
    assert_eq!(a.outbox_depth, 2000);
    assert_eq!(a.timestamp_ms, 2_000);
    assert!(alert.active);
    assert_eq!(m.alert_raised_total, 1);
    assert!(alert_tick(&mut alert, &mut m, "edge/edge-01", "degraded", &stats, &t, 3_000, 3).is_none());
    assert_eq!(m.alert_raised_total, 1);
    assert_eq!(m.alert_cleared_total, 0);
}

#[test]
fn a_transition_inside_the_window_is_not_published_again() {
    let mut cfg = bridge_cfg();
    cfg.alert_degraded_streak = 1;
    cfg.alert_recovered_streak = 1;
    let t = bridge_timings(&cfg);
    let mut alert = AlertState::default();
    let mut m = BridgeMetrics::new();
    let stats = OutboxStats { depth: 0, oldest_age_secs: None };
    assert!(alert_tick(&mut alert, &mut m, "s", "degraded", &stats, &t, 0, 10).is_some());
    let c = alert_tick(&mut alert, &mut m, "s", "ok", &stats, &t, 0, 20).unwrap();
    assert_eq!(c.state, "cleared");
    assert_eq!(c.severity, "info");
    // Raised again 40 s after the first raise, inside the 300 s window: not published.
    assert!(alert_tick(&mut alert, &mut m, "s", "degraded", &stats, &t, 0, 50).is_none());
    assert!(alert.active);
    assert_eq!(m.alert_raised_total, 1);
    assert_eq!(m.alert_cleared_total, 1);
}
