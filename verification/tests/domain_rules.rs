use scada_edge::domain::connection::{classify_connection_transition, normalize_connection_state};
use scada_edge::domain::device_status::{evaluate_device_connection_status, DeviceConnectionStatus, DeviceStatusInput};
use scada_edge::domain::driver::connection_state::ConnectionState;
use scada_edge::domain::driver::driver_type::DriverType;
use scada_edge::domain::error::DomainError;
use scada_edge::domain::printer::PrinterError;
use scada_edge::domain::tag::status::{evaluate_tag_connection_status, TagConnectionStatus, TagStatusInput};
use scada_edge::domain::tag::tag_id::TagId;
use scada_edge::domain::tag::quality::{QualityReason, QualityStatus, TagQuality};
use scada_edge::domain::tag::update_mode::{default_debounce, default_timeout, TagUpdateMode};
use scada_edge::domain::tag::value_type::TagValueType;

#[test]
fn normalize_connection_state_case_insensitive() {
    assert_eq!(normalize_connection_state("Connected"), "connected");
    assert_eq!(normalize_connection_state("FAILED"), "failed");
    assert_eq!(normalize_connection_state("x"), "unknown");
}

#[test]
fn classify_connection_transition_reconnected() {
    let t = classify_connection_transition(Some("failed"), "connected");
    assert_eq!(t.event_type, "connection.reconnected");
    assert_eq!(t.severity, "info");
    assert_eq!(t.message, "Connection recovered");
}

#[test]
fn classify_connection_transition_failed() {
    let t = classify_connection_transition(Some("connected"), "failed");
    assert_eq!(t.event_type, "connection.failed");
    assert_eq!(t.severity, "error");
    assert_eq!(t.message, "Connection failed");
}

fn device_input<'a>(
    edge_state: Option<&'a str>,
    connection_state: Option<&'a str>,
    device_protocol_state: Option<&'a str>,
    tags_connected: i64,
    tags_stale: i64,
    tags_total: i64,
) -> DeviceStatusInput<'a> {
    DeviceStatusInput {
        edge_state,
        edge_age_secs: Some(1),
        edge_stale_after_secs: 45,
        connection_state,
        device_protocol_state,
        tags_connected,
        tags_stale,
        tags_total,
    }
}

#[test]
fn disconnected_when_edge_offline() {
    let st = evaluate_device_connection_status(device_input(Some("offline"), Some("connected"), None, 1, 0, 1));
    assert_eq!(st, DeviceConnectionStatus::Disconnected);
}

#[test]
fn disconnected_when_connection_failed() {
    let st = evaluate_device_connection_status(device_input(Some("online"), Some("failed"), None, 1, 0, 1));
    assert_eq!(st, DeviceConnectionStatus::Disconnected);
}

#[test]
fn status_stale_when_connection_connecting() {
    let st = evaluate_device_connection_status(device_input(Some("ok"), Some("connecting"), None, 0, 0, 2));
    assert_eq!(st, DeviceConnectionStatus::Stale);
}

#[test]
fn connected_when_any_tag_connected() {
    let st = evaluate_device_connection_status(device_input(Some("ok"), Some("connected"), None, 1, 2, 3));
    assert_eq!(st, DeviceConnectionStatus::Connected);
}

#[test]
fn disconnected_when_device_protocol_error_even_if_connection_connected() {
    let st = evaluate_device_connection_status(device_input(Some("ok"), Some("connected"), Some("error"), 1, 0, 1));
    assert_eq!(st, DeviceConnectionStatus::Disconnected);
}

#[test]
fn device_status_names() {
    assert_eq!(DeviceConnectionStatus::Connected.as_str(), "connected");
    assert_eq!(DeviceConnectionStatus::Stale.as_str(), "stale");
    assert_eq!(DeviceConnectionStatus::Disconnected.as_str(), "disconnected");
}

#[test]
fn device_stale_when_edge_heartbeat_too_old() {
    let mut input = device_input(Some("ok"), Some("connected"), None, 1, 0, 1);
    input.edge_age_secs = Some(46);
    assert_eq!(evaluate_device_connection_status(input), DeviceConnectionStatus::Disconnected);
    input.edge_age_secs = Some(45);
    assert_eq!(evaluate_device_connection_status(input), DeviceConnectionStatus::Connected);
}

#[test]
fn device_missing_connection_state_is_stale() {
    let st = evaluate_device_connection_status(device_input(Some("ok"), None, None, 1, 0, 1));
    assert_eq!(st, DeviceConnectionStatus::Stale);
}

#[test]
fn test_initial_state_is_disconnected() {
    let state = ConnectionState::default();
    assert_eq!(state, ConnectionState::Disconnected);
    assert!(state.can_connect());
    assert!(!state.is_connected());
}

#[test]
fn test_transition_disconnected_to_connecting() {
    let state = ConnectionState::Disconnected;
    let next = state.to_connecting().unwrap();
    assert_eq!(next, ConnectionState::Connecting);
    assert!(next.is_transitioning());
}

#[test]
fn test_transition_connecting_to_connected() {
    let state = ConnectionState::Connecting;
    let next = state.to_connected().unwrap();
    assert_eq!(next, ConnectionState::Connected);
    assert!(next.is_connected());
}

#[test]
fn test_cannot_connect_from_connected() {
    let state = ConnectionState::Connected;
    let result = state.to_connecting();
    assert!(result.is_err());
}

#[test]
fn test_reconnecting_from_connected() {
    let state = ConnectionState::Connected;
    let next = state.to_reconnecting().unwrap();
    assert_eq!(next, ConnectionState::Reconnecting);
    assert!(next.is_transitioning());
}

#[test]
fn test_reconnecting_to_connected() {
    let state = ConnectionState::Reconnecting;
    let next = state.to_connected().unwrap();
    assert_eq!(next, ConnectionState::Connected);
}

#[test]
fn test_to_disconnected_from_any_state() {
    assert_eq!(ConnectionState::Connected.to_disconnected(), ConnectionState::Disconnected);
    assert_eq!(ConnectionState::Connecting.to_disconnected(), ConnectionState::Disconnected);
    assert_eq!(ConnectionState::Failed.to_disconnected(), ConnectionState::Disconnected);
}

#[test]
fn test_to_failed_from_any_state() {
    assert_eq!(ConnectionState::Connected.to_failed(), ConnectionState::Failed);
    assert_eq!(ConnectionState::Connecting.to_failed(), ConnectionState::Failed);
}

#[test]
fn test_can_connect_only_from_valid_states() {
    assert!(ConnectionState::Disconnected.can_connect());
    assert!(ConnectionState::Failed.can_connect());
    assert!(!ConnectionState::Connected.can_connect());
    assert!(!ConnectionState::Connecting.can_connect());
    assert!(!ConnectionState::Reconnecting.can_connect());
}

#[test]
fn connecting_is_refused_while_reconnecting_and_failed_cannot_reconnect() {
    assert!(ConnectionState::Reconnecting.to_connecting().is_err());
    assert!(ConnectionState::Disconnected.to_connected().is_err());
    assert!(ConnectionState::Failed.to_reconnecting().is_err());
}

#[test]
fn test_driver_type_as_str() {
    assert_eq!(DriverType::RS232.as_str(), "RS232");
    assert_eq!(DriverType::Modbus.as_str(), "Modbus");
    assert_eq!(DriverType::OPCUA.as_str(), "OPC-UA");
    assert_eq!(DriverType::HTTP.as_str(), "HTTP");
    assert_eq!(DriverType::Simulator.as_str(), "Simulator");
}

fn tag_input<'a>(
    edge_state: Option<&'a str>,
    connection_state: Option<&'a str>,
    sample_age_secs: i64,
    expected_interval_ms: Option<i64>,
) -> TagStatusInput<'a> {
    TagStatusInput {
        edge_state,
        edge_age_secs: Some(1),
        edge_stale_after_secs: 45,
        connection_state,
        sample_age_secs,
        expected_interval_ms,
    }
}

#[test]
fn disconnected_when_edge_not_online() {
    let st = evaluate_tag_connection_status(tag_input(Some("offline"), Some("connected"), 0, None));
    assert_eq!(st, TagConnectionStatus::Disconnected);
}

#[test]
fn stale_when_connection_connecting() {
    let st = evaluate_tag_connection_status(tag_input(Some("online"), Some("connecting"), 0, None));
    assert_eq!(st, TagConnectionStatus::Stale);
}

#[test]
fn stale_when_expected_interval_exceeded() {
    let st = evaluate_tag_connection_status(tag_input(Some("ok"), Some("connected"), 12, Some(1000)));
    assert_eq!(st, TagConnectionStatus::Stale);
}

#[test]
fn connected_without_expected_interval_if_edge_and_connection_ok() {
    let st = evaluate_tag_connection_status(tag_input(Some("ok"), Some("connected"), 5000, None));
    assert_eq!(st, TagConnectionStatus::Connected);
}

#[test]
fn tag_within_expected_interval_is_connected() {
    let st = evaluate_tag_connection_status(tag_input(Some("ok"), Some("connected"), 2, Some(1000)));
    assert_eq!(st, TagConnectionStatus::Connected);
    assert_eq!(st.as_str(), "connected");
}

#[test]
fn test_valid_tag_id() {
    let id = TagId::new("SCALE_CABINA_1").unwrap();
    assert_eq!(id.as_str(), "SCALE_CABINA_1");
}

#[test]
fn test_tag_id_with_hyphen() {
    let id = TagId::new("TEMP-REACTOR-01").unwrap();
    assert_eq!(id.as_str(), "TEMP-REACTOR-01");
}

#[test]
fn test_tag_id_hierarchical() {
    let id = TagId::new("plant1/area2/unit3/temp").unwrap();
    assert_eq!(id.as_str(), "plant1/area2/unit3/temp");
}

#[test]
fn test_empty_tag_id() {
    let result = TagId::new("");
    assert!(result.is_err());
    assert_eq!(result.unwrap_err(), DomainError::InvalidTagId("Tag ID cannot be empty".to_string()));
}

#[test]
fn test_tag_id_too_long() {
    let long_id = "A".repeat(101);
    let result = TagId::new(&long_id);
    assert!(result.is_err());
}

#[test]
fn test_tag_id_invalid_characters() {
    let result = TagId::new("SCALE@CABINA#1");
    assert!(result.is_err());
}

#[test]
fn test_tag_id_display() {
    let id = TagId::new("TEST_TAG").unwrap();
    assert_eq!(id.to_string(), "TEST_TAG");
}

#[test]
fn tag_id_errors_carry_their_messages() {
    let long_id = "A".repeat(101);
    assert_eq!(
        TagId::new(&long_id).unwrap_err(),
        DomainError::InvalidTagId("Tag ID too long: 101 chars (max 100)".to_string())
    );
    assert_eq!(
        TagId::new("a b").unwrap_err(),
        DomainError::InvalidTagId(
            "Tag ID a b must contain only alphanumeric, underscore, hyphen, and forward slash".to_string()
        )
    );
    assert!(TagId::new(&"A".repeat(100)).is_ok());
    assert!(TagId::new("área_1").is_ok());
}

#[test]
fn domain_errors_display_their_variant() {
    assert_eq!(
        DomainError::InvalidTagId("x".to_string()).to_string(),
        "Invalid tag ID: x"
    );
    assert_eq!(
        DomainError::ConfigurationError("bad".to_string()).to_string(),
        "Configuration error: bad"
    );
}

#[test]
fn test_simple() {
    let vt = TagValueType::Simple;
    assert!(vt.is_simple());
    assert!(!vt.is_composite());
}

#[test]
fn test_composite() {
    let vt = TagValueType::Composite;
    assert!(!vt.is_simple());
    assert!(vt.is_composite());
}

#[test]
fn test_on_change_timeout() {
    let mode = TagUpdateMode::OnChange { debounce_ms: 100, timeout_ms: 30000 };
    assert_eq!(mode.timeout_ms(), 30000);
    assert!(mode.is_continuous());
    assert!(!mode.is_polling());
}

#[test]
fn test_polling_timeout() {
    let mode = TagUpdateMode::Polling { interval_ms: 5000 };
    assert_eq!(mode.timeout_ms(), 15000);
    assert!(!mode.is_continuous());
    assert!(mode.is_polling());
}

#[test]
fn test_polling_on_change() {
    let mode = TagUpdateMode::PollingOnChange { interval_ms: 10000 };
    assert_eq!(mode.timeout_ms(), 30000);
    assert!(!mode.is_continuous());
    assert!(mode.is_polling());
}

#[test]
fn printer_errors_display_their_cause() {
    assert_eq!(PrinterError::ConnectionFailed("refused".to_string()).to_string(), "Connection failed: refused");
    assert_eq!(PrinterError::WriteFailed("broken pipe".to_string()).to_string(), "Write failed: broken pipe");
    assert_eq!(PrinterError::NotConnected.to_string(), "Not connected");
}

#[test]
fn a_reconnection_may_start_exactly_where_to_reconnecting_accepts_it() {
    for s in [
        ConnectionState::Disconnected,
        ConnectionState::Connecting,
        ConnectionState::Connected,
        ConnectionState::Reconnecting,
        ConnectionState::Failed,
    ] {
        assert_eq!(s.can_reconnect(), s.to_reconnecting().is_ok());
    }
    assert!(ConnectionState::Connected.can_reconnect());
    assert!(ConnectionState::Disconnected.can_reconnect());
    assert!(!ConnectionState::Failed.can_reconnect());
}

#[test]
fn a_tag_id_is_limited_in_characters_not_bytes() {
    let accented: String = std::iter::repeat('é').take(100).collect();
    assert!(accented.len() > 100);
    assert!(TagId::new(&accented).is_ok());
    let longer: String = std::iter::repeat('é').take(101).collect();
    assert_eq!(
        TagId::new(&longer).unwrap_err(),
        DomainError::InvalidTagId("Tag ID too long: 101 chars (max 100)".to_string())
    );
}

#[test]
fn good_quality_has_no_reason_and_bad_quality_says_why() {
    let g = TagQuality::good();
    assert_eq!(g.status, QualityStatus::Good);
    assert_eq!(g.reason, None);
    let b = TagQuality::bad(QualityReason::Timeout);
    assert_eq!(b.status, QualityStatus::Bad);
    assert_eq!(b.reason, Some(QualityReason::Timeout));
}

#[test]
fn on_change_defaults_are_a_tenth_of_a_second_and_five_seconds() {
    assert_eq!(default_debounce(), 100);
    assert_eq!(default_timeout(), 5000);
}
