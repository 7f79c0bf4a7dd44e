use scada_edge::agent::outbox::{
    capacity_decision, capacity_result, parse_kind, prepare_row, prepare_row_with_nonce, protect_payload, qos_to_u8, sign,
    signing_input_bytes, u8_to_qos, CapacityDecision, FlushAction, FlushRowOutcome, FlushTally, MqttQos,
    OutboxConfig, OutboxError, OutboxMessageKind, OutboxSecurity, RawPendingRow, StoredOutboxRow,
};

fn raw_of(row: &StoredOutboxRow, id: i64) -> RawPendingRow {
    RawPendingRow {
        id,
        topic: row.topic.clone(),
        qos: row.qos,
        retain: row.retain,
        kind: row.kind,
        payload: row.payload.clone(),
        encrypted: row.encrypted,
        crypto_version: row.crypto_version,
        key_id: Some(row.key_id.clone()),
        nonce: row.nonce.clone(),
        signature: row.signature.clone(),
    }
}

#[test]
fn kinds_are_stored_by_label_and_read_back() {
    assert_eq!(OutboxMessageKind::Ack.as_str(), "ack");
    assert_eq!(OutboxMessageKind::Audit.as_str(), "audit");
    assert_eq!(parse_kind("ack"), OutboxMessageKind::Ack);
    assert_eq!(parse_kind("audit"), OutboxMessageKind::Audit);
    assert_eq!(parse_kind("anything"), OutboxMessageKind::Audit);
}

#[test]
fn delivery_levels_are_stored_as_numbers() {
    assert_eq!(qos_to_u8(MqttQos::AtLeastOnce), 1);
    assert_eq!(u8_to_qos(2), MqttQos::ExactlyOnce);
    assert_eq!(u8_to_qos(7), MqttQos::AtMostOnce);
    assert_eq!(u8_to_qos(qos_to_u8(MqttQos::AtMostOnce)), MqttQos::AtMostOnce);
}

#[test]
fn the_default_config_keeps_ten_thousand_plain_messages() {
    let cfg = OutboxConfig::default();
    assert_eq!(cfg.max_messages, 10_000);
    assert_eq!(cfg.security.crypto_version, 1);
    assert_eq!(cfg.security.active.key_id, "v1");
    assert!(cfg.security.active.encryption_key.is_none());
    assert!(cfg.security.active.hmac_key.is_none());
    assert!(cfg.security.previous.is_empty());
}

#[test]
fn test_outbox_capacity_preserves_ack_priority() {
    let queued = vec![OutboxMessageKind::Ack];
    let d = capacity_decision(&queued, 1, OutboxMessageKind::Audit);
    assert_eq!(d, CapacityDecision::Refuse);
    assert_eq!(capacity_result(d), Err(OutboxError::AtCapacityForAudit));
    assert_eq!(OutboxError::AtCapacityForAudit.message(), "outbox at capacity for audit");
}

#[test]
fn a_full_outbox_gives_up_its_oldest_audit_message_first() {
    let queued = vec![OutboxMessageKind::Ack, OutboxMessageKind::Audit, OutboxMessageKind::Audit];
    assert_eq!(capacity_decision(&queued, 3, OutboxMessageKind::Audit), CapacityDecision::EvictThenAdmit(1));
    assert_eq!(capacity_decision(&queued, 3, OutboxMessageKind::Ack), CapacityDecision::EvictThenAdmit(1));
    assert_eq!(capacity_decision(&queued, 4, OutboxMessageKind::Audit), CapacityDecision::Admit);
    let acks = vec![OutboxMessageKind::Ack, OutboxMessageKind::Ack];
    assert_eq!(capacity_decision(&acks, 2, OutboxMessageKind::Ack), CapacityDecision::EvictThenAdmit(0));
    assert!(capacity_result(CapacityDecision::EvictThenAdmit(0)).is_ok());
}

#[test]
fn test_outbox_security_encrypts_and_signs_roundtrip() {
    let sec = OutboxSecurity::from_rotation(
        "k1".to_string(),
        Some("enc-secret".to_string()),
        Some("hmac-secret".to_string()),
        None,
        None,
        None,
    );
    assert!(sec.active.encryption_key.is_some());
    assert_eq!(sec.active.hmac_key.as_ref().map(|k| k.len()), Some(32));
    let row = prepare_row(&sec, OutboxMessageKind::Audit, "topic/secure".to_string(), 1, false, b"sensitive").unwrap();
    assert!(row.encrypted);
    assert_ne!(row.payload, b"sensitive".to_vec());
    assert_eq!(row.nonce.as_ref().map(|n| n.len()), Some(12));
    assert!(row.signature.is_some());
    assert_eq!(row.key_id, "k1");
    let msg = sec.unprotect_row(&raw_of(&row, 7)).unwrap();
    assert_eq!(msg.payload, b"sensitive".to_vec());
    assert_eq!(msg.id, 7);
    assert_eq!(msg.topic, "topic/secure");
    assert_eq!(msg.kind, OutboxMessageKind::Audit);
}

#[test]
fn test_outbox_key_rotation_reads_old_messages_with_previous_key() {
    let old_sec = OutboxSecurity::from_rotation(
        "k-old".to_string(),
        Some("enc-old".to_string()),
        Some("hmac-old".to_string()),
        None,
        None,
        None,
    );
    let row = prepare_row(&old_sec, OutboxMessageKind::Audit, "topic/rotate".to_string(), 1, false, b"old-payload").unwrap();
    let new_sec = OutboxSecurity::from_rotation(
        "k-new".to_string(),
        Some("enc-new".to_string()),
        Some("hmac-new".to_string()),
        Some("k-old".to_string()),
        Some("enc-old".to_string()),
        Some("hmac-old".to_string()),
    );
    assert_eq!(new_sec.previous.len(), 1);
    assert_eq!(new_sec.previous[0].key_id, "k-old");
    let msg = new_sec.unprotect_row(&raw_of(&row, 1)).unwrap();
    assert_eq!(msg.payload, b"old-payload".to_vec());
}

#[test]
fn previous_keys_exist_only_with_a_previous_secret() {
    let sec = OutboxSecurity::from_rotation("k".to_string(), None, None, None, None, Some("h".to_string()));
    assert_eq!(sec.previous.len(), 1);
    assert_eq!(sec.previous[0].key_id, "prev");
    let none = OutboxSecurity::from_rotation("k".to_string(), None, None, Some("x".to_string()), None, None);
    assert!(none.previous.is_empty());
}

#[test]
fn tampered_or_unreadable_rows_are_refused() {
    let sec = OutboxSecurity::from_rotation(
        "k1".to_string(),
        Some("enc-secret".to_string()),
        Some("hmac-secret".to_string()),
        None,
        None,
        None,
    );
    let row = prepare_row(&sec, OutboxMessageKind::Ack, "t".to_string(), 1, true, b"data").unwrap();
    let mut tampered = raw_of(&row, 1);
    tampered.topic = "other".to_string();
    assert_eq!(sec.unprotect_row(&tampered).unwrap_err(), OutboxError::SignatureMismatch);
    let mut unsigned = raw_of(&row, 1);
    unsigned.signature = None;
    assert_eq!(sec.unprotect_row(&unsigned).unwrap_err(), OutboxError::MissingSignature);
    let mut newer = raw_of(&row, 1);
    newer.crypto_version = 2;
    assert_eq!(sec.unprotect_row(&newer).unwrap_err(), OutboxError::UnsupportedCryptoVersion(2));
    let plain_reader = OutboxSecurity::from_rotation("k1".to_string(), None, None, None, None, None);
    assert_eq!(plain_reader.unprotect_row(&raw_of(&row, 1)).unwrap_err(), OutboxError::MissingEncryptionKey);
}

#[test]
fn test_outbox_enqueue_persists_and_reloads() {
    let sec = OutboxConfig::default().security;
    let row = prepare_row(&sec, OutboxMessageKind::Audit, "topic/a".to_string(), 1, false, b"hello").unwrap();
    assert!(!row.encrypted);
    assert_eq!(row.payload, b"hello".to_vec());
    assert!(row.nonce.is_none());
    assert!(row.signature.is_none());
    assert_eq!(row.crypto_version, 1);
    let msg = sec.unprotect_row(&raw_of(&row, 3)).unwrap();
    assert_eq!(msg.payload, b"hello".to_vec());
}

#[test]
fn a_fixed_nonce_gives_the_same_sealed_bytes() {
    let sec = OutboxSecurity::from_rotation("k".to_string(), Some("e".to_string()), None, None, None, None);
    let nonce = [7u8; 12];
    let a = prepare_row_with_nonce(&sec, OutboxMessageKind::Audit, "t".to_string(), 0, false, b"x", &nonce).unwrap();
    let b = prepare_row_with_nonce(&sec, OutboxMessageKind::Audit, "t".to_string(), 0, false, b"x", &nonce).unwrap();
    assert_eq!(a.payload, b.payload);
    assert_eq!(a.payload.len(), 1 + 16);
    assert_eq!(a.nonce, Some(nonce.to_vec()));
}

#[test]
fn the_signature_covers_every_stored_field() {
    let input = signing_input_bytes("t/x", 1, true, OutboxMessageKind::Ack, false, None, b"p");
    assert_eq!(input, b"t/x\x01\x01ack\x00p".to_vec());
    let with_nonce = signing_input_bytes("t", 0, false, OutboxMessageKind::Audit, true, Some(&[9u8, 9u8]), b"");
    assert_eq!(with_nonce, b"t\x00\x00audit\x01\x09\x09".to_vec());
    let sec = OutboxSecurity::from_rotation("k".to_string(), None, Some("h".to_string()), None, None, None);
    let s1 = sign(&sec.active, "t", 0, false, OutboxMessageKind::Audit, false, None, b"a").unwrap();
    let s2 = sign(&sec.active, "t", 0, false, OutboxMessageKind::Audit, false, None, b"b").unwrap();
    assert_eq!(s1.len(), 32);
    assert_ne!(s1, s2);
    let unsigned = OutboxConfig::default().security;
    assert!(sign(&unsigned.active, "t", 0, false, OutboxMessageKind::Audit, false, None, b"a").is_none());
}

#[test]
fn test_outbox_flush_success_drains_queue() {
    let mut tally = FlushTally::new();
    assert_eq!(tally.record(FlushRowOutcome::Published), FlushAction::DeleteSent);
    assert_eq!(tally.record(FlushRowOutcome::Unreadable), FlushAction::DropRow);
    assert_eq!(tally.record(FlushRowOutcome::Published), FlushAction::DeleteSent);
    assert_eq!(tally.sent, 2);
    assert!(!tally.stopped);
}

#[test]
fn test_outbox_flush_failure_keeps_queue() {
    let mut tally = FlushTally::new();
    assert_eq!(tally.record(FlushRowOutcome::PublishFailed), FlushAction::Stop);
    assert_eq!(tally.sent, 0);
    assert!(tally.stopped);
}

#[test]
fn protecting_without_an_encryption_key_keeps_the_payload_plain() {
    let sec = OutboxSecurity::from_rotation("k".to_string(), None, None, None, None, None);
    let (encrypted, nonce, payload) = protect_payload(&sec, b"hello").unwrap();
    assert!(!encrypted);
    assert_eq!(nonce, None);
    assert_eq!(payload, b"hello".to_vec());
}

#[test]
fn protecting_with_an_encryption_key_seals_under_a_fresh_nonce() {
    let sec = OutboxSecurity::from_rotation("k".to_string(), Some("enc".to_string()), None, None, None, None);
    let (encrypted, nonce, payload) = protect_payload(&sec, b"hello").unwrap();
    assert!(encrypted);
    assert_eq!(nonce.as_ref().map(|n| n.len()), Some(12));
    assert_eq!(payload.len(), 5 + 16);
    assert_ne!(&payload[..5], b"hello");
}
