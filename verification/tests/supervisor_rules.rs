use scada_edge::supervisor::config::{
    parse_env_file, ControlConfig, EnvVars, SupervisorConfig, DEFAULT_RESTART_DELAY_SECS, DEFAULT_WAIT_SECS,
};
use scada_edge::supervisor::control::{interpret_pending_response, request_timeout_secs, Order};
use scada_edge::supervisor::heartbeat::{age_from_text, assess, render, Liveness, DEFAULT_GRACE_MS, DEFAULT_STALE_AFTER_MS};
use scada_edge::supervisor::step::{order_executed, plan_step, Plan, Step, Wake};

fn secs(n: u64) -> u64 {
    n * 1000
}

#[test]
fn nothing_is_judged_during_the_grace_period() {
    assert_eq!(assess(None, secs(10), DEFAULT_STALE_AFTER_MS, DEFAULT_GRACE_MS), Liveness::InGrace);
    assert_eq!(
        assess(Some(secs(3600)), secs(10), DEFAULT_STALE_AFTER_MS, DEFAULT_GRACE_MS),
        Liveness::InGrace,
        "even an ancient beat is ignored inside the grace window"
    );
}

#[test]
fn a_recent_beat_past_the_grace_period_is_alive() {
    assert_eq!(assess(Some(secs(5)), secs(300), DEFAULT_STALE_AFTER_MS, DEFAULT_GRACE_MS), Liveness::Alive);
}

#[test]
fn the_threshold_itself_still_counts_as_alive() {
    assert_eq!(
        assess(Some(secs(60)), secs(300), DEFAULT_STALE_AFTER_MS, DEFAULT_GRACE_MS),
        Liveness::Alive,
        "at the boundary the agent gets the benefit of the doubt"
    );
}

#[test]
fn a_beat_older_than_the_threshold_is_stale() {
    assert_eq!(
        assess(Some(secs(75)), secs(300), DEFAULT_STALE_AFTER_MS, DEFAULT_GRACE_MS),
        Liveness::Stale { by_ms: secs(75) }
    );
}

#[test]
fn no_heartbeat_at_all_past_the_grace_period_is_missing() {
    assert_eq!(assess(None, secs(300), DEFAULT_STALE_AFTER_MS, DEFAULT_GRACE_MS), Liveness::Missing);
}

#[test]
fn a_written_heartbeat_reads_back_as_a_fresh_age() {
    let now: u64 = 1_767_225_600_000;
    let text = render(now);
    assert_eq!(age_from_text(&text, now + secs(7)), Some(secs(7)));
}

#[test]
fn a_corrupt_heartbeat_reads_as_no_age_rather_than_panicking() {
    assert_eq!(age_from_text("no-soy-un-numero", 1_000_000), None);
    assert_eq!(age_from_text("", 1_000_000), None);
}

#[test]
fn a_beat_from_the_future_reads_as_zero_age() {
    let now: u64 = 1_767_225_600_000;
    let text = render(now + secs(120));
    assert_eq!(age_from_text(&text, now), Some(0));
}

#[test]
fn heartbeat_text_is_plain_epoch_milliseconds() {
    assert_eq!(render(1_767_225_600_123), "1767225600123");
    assert_eq!(render(0), "0");
    assert_eq!(age_from_text("  1000\n", 2500), Some(1500));
}

fn vars(pairs: &[(&str, &str)]) -> EnvVars {
    let mut v = EnvVars::new();
    for (k, val) in pairs {
        v.insert(k.to_string(), val.to_string());
    }
    v
}

fn full() -> Vec<(&'static str, &'static str)> {
    vec![
        ("EDGE_CONFIG_URL", "http://192.168.103.154:8088"),
        ("EDGE_ENROLL_TOKEN", "s3cret"),
        ("EDGE_AGENT", "lcc01"),
    ]
}

#[test]
fn control_is_enabled_when_every_variable_is_present() {
    let cfg = SupervisorConfig::from_vars(&vars(&full()), "edge-agent.exe".to_string());
    assert_eq!(
        cfg.control,
        Some(ControlConfig {
            base_url: "http://192.168.103.154:8088".to_string(),
            enroll_token: "s3cret".to_string(),
            edge_id: "lcc01".to_string(),
            wait_secs: DEFAULT_WAIT_SECS,
        })
    );
    assert_eq!(cfg.restart_delay_secs, DEFAULT_RESTART_DELAY_SECS);
}

#[test]
fn supervision_survives_a_missing_central_url() {
    let mut pairs = full();
    pairs.retain(|(k, _)| *k != "EDGE_CONFIG_URL");
    let cfg = SupervisorConfig::from_vars(&vars(&pairs), "edge-agent.exe".to_string());
    assert_eq!(cfg.control, None, "remote control must be disabled");
    assert_eq!(cfg.agent_path, "edge-agent.exe".to_string(), "the child must still be configured");
}

#[test]
fn supervision_survives_a_missing_enroll_token() {
    let mut pairs = full();
    pairs.retain(|(k, _)| *k != "EDGE_ENROLL_TOKEN");
    let cfg = SupervisorConfig::from_vars(&vars(&pairs), "edge-agent.exe".to_string());
    assert_eq!(cfg.control, None);
}

#[test]
fn supervision_survives_a_missing_edge_id() {
    let mut pairs = full();
    pairs.retain(|(k, _)| *k != "EDGE_AGENT");
    let cfg = SupervisorConfig::from_vars(&vars(&pairs), "edge-agent.exe".to_string());
    assert_eq!(cfg.control, None);
}

#[test]
fn an_explicit_agent_path_overrides_the_default() {
    let mut pairs = full();
    pairs.push(("EDGE_SUPERVISOR_AGENT_PATH", "C:\\ifascada\\edge-agent.exe"));
    let cfg = SupervisorConfig::from_vars(&vars(&pairs), "edge-agent.exe".to_string());
    assert_eq!(cfg.agent_path, "C:\\ifascada\\edge-agent.exe".to_string());
}

#[test]
fn the_wait_is_configurable_and_falls_back_to_the_default() {
    let mut pairs = full();
    pairs.push(("EDGE_SUPERVISOR_WAIT_SECS", "5"));
    let cfg = SupervisorConfig::from_vars(&vars(&pairs), "edge-agent.exe".to_string());
    assert_eq!(cfg.control.unwrap().wait_secs, 5);

    let mut junk = full();
    junk.push(("EDGE_SUPERVISOR_WAIT_SECS", "not-a-number"));
    let cfg = SupervisorConfig::from_vars(&vars(&junk), "edge-agent.exe".to_string());
    assert_eq!(
        cfg.control.unwrap().wait_secs,
        DEFAULT_WAIT_SECS,
        "an unparseable value must fall back, not disable control"
    );
}

#[test]
fn the_log_directory_is_carried_through_when_configured() {
    let mut pairs = full();
    pairs.push(("EDGE_SUPERVISOR_LOG_DIR", "C:/ProgramData/ifascada/edge/logs"));
    let cfg = SupervisorConfig::from_vars(&vars(&pairs), "edge-agent.exe".to_string());
    assert_eq!(cfg.log_dir, Some("C:/ProgramData/ifascada/edge/logs".to_string()));
}

#[test]
fn without_a_log_directory_the_agent_output_is_discarded_rather_than_lost_in_a_console() {
    let cfg = SupervisorConfig::from_vars(&vars(&full()), "edge-agent.exe".to_string());
    assert_eq!(cfg.log_dir, None);
}

#[test]
fn an_env_file_is_parsed_the_way_run_edge_ps1_parsed_it() {
    let content = "# la config del edge
EDGE_AGENT=lcc01

MQTT_HOST=127.0.0.1
  EDGE_SITE = plant-a
MQTT_OUTBOX_ENCRYPTION_SECRET=abc=def==
esta linea no tiene igual
   # comentario indentado
";
    let parsed = parse_env_file(content);
    assert_eq!(parsed.get("EDGE_AGENT"), Some("lcc01"));
    assert_eq!(parsed.get("MQTT_HOST"), Some("127.0.0.1"));
    assert_eq!(parsed.get("EDGE_SITE"), Some("plant-a"), "keys and values are trimmed");
    assert_eq!(
        parsed.get("MQTT_OUTBOX_ENCRYPTION_SECRET"),
        Some("abc=def=="),
        "only the first = separates; secrets often end in padding"
    );
    assert_eq!(parsed.len(), 4, "comments and junk lines must be skipped");
}

#[test]
fn a_later_line_of_an_env_file_wins() {
    let parsed = parse_env_file("A=1\r\nA=2\r\n");
    assert_eq!(parsed.get("A"), Some("2"));
    assert_eq!(parsed.len(), 1);
}

#[test]
fn the_client_timeout_outlasts_centrals_wait() {
    let wait = DEFAULT_WAIT_SECS;
    assert!(request_timeout_secs(wait) > wait);
    assert_eq!(request_timeout_secs(25), 35);
}

#[test]
fn only_a_restart_with_an_id_is_an_order() {
    assert_eq!(
        interpret_pending_response(Some("restart"), Some("r-1".to_string())),
        Order::Restart { request_id: "r-1".to_string() }
    );
    assert_eq!(interpret_pending_response(Some("restart"), None), Order::Idle);
    assert_eq!(interpret_pending_response(Some("Restart"), Some("r-1".to_string())), Order::Idle);
    assert_eq!(interpret_pending_response(None, Some("r-1".to_string())), Order::Idle);
}

#[test]
fn a_dead_agent_is_relaunched_before_anything_else() {
    assert_eq!(plan_step(false, None), Plan::Relaunch);
    assert_eq!(plan_step(true, Some(Wake::ChildDied)), Plan::Relaunch);
    assert_eq!(
        plan_step(true, Some(Wake::Order(Ok(Order::Restart { request_id: "r".to_string() })))),
        Plan::ExecuteRestart { request_id: "r".to_string() }
    );
    assert_eq!(plan_step(true, Some(Wake::Order(Ok(Order::Idle)))), Plan::Report(Step::Quiet));
    assert_eq!(
        plan_step(true, Some(Wake::Order(Err("down".to_string())))),
        Plan::Report(Step::ControlFailed("down".to_string()))
    );
}

#[test]
fn a_restart_still_counts_when_the_acknowledgement_fails() {
    assert_eq!(
        order_executed("r".to_string(), Some(Err("ack failed".to_string()))),
        Step::OrderExecuted { request_id: "r".to_string(), acked: false }
    );
    assert_eq!(
        order_executed("r".to_string(), Some(Ok(()))),
        Step::OrderExecuted { request_id: "r".to_string(), acked: true }
    );
    assert_eq!(
        order_executed("r".to_string(), None),
        Step::OrderExecuted { request_id: "r".to_string(), acked: false }
    );
}
