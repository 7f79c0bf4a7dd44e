//! The bridge's answers to tag-write and action commands: the acknowledgement of a
//! write, the result and audit of an action with the counters they move, and the device
//! state a connectivity check reports.
//!
//! The caller parses the payloads, carries out the write or the action, and hands in the
//! outcome and the time.

use vstd::prelude::*;
use crate::agent::bridge::{
    parse_write_priority, WritePriority,
    bump_action, clone_opt_string, prefixed, wrap_add, ActionCounter, BridgeCounter, BridgeMetrics,
    MQTT_SCHEMA_VERSION_V1,
};
use crate::agent::outbox::OutboxMessageKind;
use crate::domain::error::DomainError;
use crate::text::{lower_seq, opt_string_view, opt_view, owned, trim};

verus! {

/// The acknowledgement of a tag-write command.
#[derive(Debug, Clone)]
pub struct WriteCommandAckMessage {
    pub schema_version: u16,
    pub source: String,
    pub tag_id: Option<String>,
    pub command_id: Option<String>,
    pub success: bool,
    pub reason: Option<String>,
    /// Milliseconds since the Unix epoch.
    pub timestamp_ms: i64,
}

/// The reason an acknowledgement gives for a write's result: the error's message.
pub open spec fn write_reason(result: Result<(), DomainError>) -> Option<Seq<char>> {
    match result {
        Ok(()) => None,
        Err(e) => Some(e.prefix() + e.detail()),
    }
}

/// The acknowledgement of the write of `tag_id` under `command_id`: successful when the
/// write was, else carrying the error's message.
pub fn build_write_command_ack(
    source: &str,
    tag_id: &str,
    command_id: Option<String>,
    result: &Result<(), DomainError>,
    timestamp_ms: i64,
) -> (r: WriteCommandAckMessage)
    ensures
        r.schema_version == MQTT_SCHEMA_VERSION_V1,
        r.source@ == source@,
        opt_string_view(r.tag_id) == Some(tag_id@),
        r.command_id == command_id,
        r.success == result is Ok,
        opt_string_view(r.reason) == write_reason(*result),
        r.timestamp_ms == timestamp_ms,
{
    let reason = match result {
        Ok(()) => None,
        Err(e) => Some(e.to_string()),
    };
    WriteCommandAckMessage {
        schema_version: MQTT_SCHEMA_VERSION_V1,
        source: owned(source),
        tag_id: Some(owned(tag_id)),
        command_id,
        success: result.is_ok(),
        reason,
        timestamp_ms,
    }
}

/// The acknowledgement of a write command that could not be read: failed, naming no tag
/// and no command, with the given reason.
pub fn build_invalid_payload_ack(source: &str, reason: String, timestamp_ms: i64) -> (r:
    WriteCommandAckMessage)
    ensures
        r.schema_version == MQTT_SCHEMA_VERSION_V1,
        r.source@ == source@,
        r.tag_id is None,
        r.command_id is None,
        !r.success,
        r.reason == Some(reason),
        r.timestamp_ms == timestamp_ms,
{
    WriteCommandAckMessage {
        schema_version: MQTT_SCHEMA_VERSION_V1,
        source: owned(source),
        tag_id: None,
        command_id: None,
        success: false,
        reason: Some(reason),
        timestamp_ms,
    }
}

/// The answer to an action command.
#[derive(Debug, Clone)]
pub struct EdgeActionResultMessage {
    pub schema_version: u16,
    pub source: String,
    pub request_id: Option<String>,
    pub action_type: String,
    pub accepted: bool,
    pub reason: Option<String>,
    /// Milliseconds since the Unix epoch.
    pub timestamp_ms: i64,
}

/// The audit record of an action command, with the payload it carried.
#[derive(Debug)]
pub struct EdgeActionAuditMessage {
    pub schema_version: u16,
    pub source: String,
    pub request_id: Option<String>,
    pub action_type: String,
    pub outcome: String,
    pub reason: Option<String>,
    pub payload: Option<serde_json::Value>,
    /// Milliseconds since the Unix epoch.
    pub timestamp_ms: i64,
}

/// The state of a device as the bridge reports it.
#[derive(Debug, Clone)]
pub struct DeviceConnectionStateMqttMessage {
    pub schema_version: u16,
    pub source: String,
    pub connection_id: String,
    pub device_id: String,
    pub tag_id: Option<String>,
    pub state: String,
    pub reason: Option<String>,
    /// Milliseconds since the Unix epoch.
    pub timestamp_ms: i64,
}

/// The result of an action command.
pub fn build_action_result(
    source: &str,
    request_id: Option<String>,
    action_type: &str,
    accepted: bool,
    reason: Option<String>,
    timestamp_ms: i64,
) -> (r: EdgeActionResultMessage)
    ensures
        r.schema_version == MQTT_SCHEMA_VERSION_V1,
        r.source@ == source@,
        r.request_id == request_id,
        r.action_type@ == action_type@,
        r.accepted == accepted,
        r.reason == reason,
        r.timestamp_ms == timestamp_ms,
{
    EdgeActionResultMessage {
        schema_version: MQTT_SCHEMA_VERSION_V1,
        source: owned(source),
        request_id,
        action_type: owned(action_type),
        accepted,
        reason,
        timestamp_ms,
    }
}

/// The audit record of an action command with its outcome word and its payload.
pub fn build_action_audit(
    source: &str,
    request_id: Option<String>,
    action_type: &str,
    outcome: &str,
    reason: Option<String>,
    payload: serde_json::Value,
    timestamp_ms: i64,
) -> (r: EdgeActionAuditMessage)
    ensures
        r.schema_version == MQTT_SCHEMA_VERSION_V1,
        r.source@ == source@,
        r.request_id == request_id,
        r.action_type@ == action_type@,
        r.outcome@ == outcome@,
        r.reason == reason,
        r.payload == Some(payload),
        r.timestamp_ms == timestamp_ms,
{
    EdgeActionAuditMessage {
        schema_version: MQTT_SCHEMA_VERSION_V1,
        source: owned(source),
        request_id,
        action_type: owned(action_type),
        outcome: owned(outcome),
        reason,
        payload: Some(payload),
        timestamp_ms,
    }
}

/// The action type under which unreadable action commands are counted.
pub open spec fn invalid_payload_type() -> Seq<char> {
    "invalid_payload"@
}

/// Answers an action command that could not be read, counting it as received and
/// failed under `invalid_payload`.
pub fn reject_invalid_action(metrics: &mut BridgeMetrics, source: &str, error: &str, timestamp_ms: i64) -> (r:
    EdgeActionResultMessage)
    requires
        old(metrics).wf(),
    ensures
        final(metrics).wf(),
        final(metrics).action_metrics@ == bump_action(
            bump_action(old(metrics).action_metrics@, invalid_payload_type(), ActionCounter::Received),
            invalid_payload_type(),
            ActionCounter::Failed,
        ),
        forall|o: BridgeCounter| #[trigger] final(metrics).counter(o) == old(metrics).counter(o),
        r.schema_version == MQTT_SCHEMA_VERSION_V1,
        r.source@ == source@,
        r.request_id is None,
        r.action_type@ == "unknown"@,
        !r.accepted,
        opt_string_view(r.reason) == Some("invalid action payload: "@ + error@),
        r.timestamp_ms == timestamp_ms,
{
    metrics.inc_action_received("invalid_payload");
    metrics.inc_action_failed("invalid_payload");
    build_action_result(
        source,
        None,
        "unknown",
        false,
        Some(prefixed("invalid action payload: ", error)),
        timestamp_ms,
    )
}

/// The outcome word of an action's audit record.
pub open spec fn audit_outcome(accepted: bool) -> Seq<char> {
    if accepted {
        "Applied"@
    } else {
        "Failed"@
    }
}

/// Reports an executed action command: its result and its audit record, with the
/// counters moved. A success counts the action as accepted; a failure counts a failed
/// command and a failed action, and carries the executor's error as the reason.
pub fn report_action(
    metrics: &mut BridgeMetrics,
    source: &str,
    request_id: Option<String>,
    action_type: &str,
    payload: serde_json::Value,
    executed: Result<(), String>,
    timestamp_ms: i64,
) -> (r: (EdgeActionResultMessage, EdgeActionAuditMessage))
    requires
        old(metrics).wf(),
    ensures
        final(metrics).wf(),
        final(metrics).action_metrics@ == bump_action(
            old(metrics).action_metrics@,
            action_type@,
            if executed is Ok { ActionCounter::Accepted } else { ActionCounter::Failed },
        ),
        final(metrics).counter(BridgeCounter::CmdFailed) == (if executed is Ok {
            old(metrics).cmd_failed_total
        } else {
            wrap_add(old(metrics).cmd_failed_total, 1)
        }),
        forall|o: BridgeCounter|
            o != BridgeCounter::CmdFailed ==> #[trigger] final(metrics).counter(o) == old(metrics).counter(o),
        r.0 == (EdgeActionResultMessage {
            schema_version: MQTT_SCHEMA_VERSION_V1,
            source: r.0.source,
            request_id,
            action_type: r.0.action_type,
            accepted: executed is Ok,
            reason: match executed {
                Ok(()) => None,
                Err(e) => Some(e),
            },
            timestamp_ms,
        }),
        r.0.source@ == source@,
        r.0.action_type@ == action_type@,
        r.1.schema_version == MQTT_SCHEMA_VERSION_V1,
        r.1.source@ == source@,
        r.1.request_id == request_id,
        r.1.action_type@ == action_type@,
        r.1.outcome@ == audit_outcome(executed is Ok),
        r.1.reason == r.0.reason,
        r.1.payload == Some(payload),
        r.1.timestamp_ms == timestamp_ms,
{
    let accepted = executed.is_ok();
    let reason = match executed {
        Ok(()) => {
            metrics.inc_action_accepted(action_type);
            None
        },
        Err(e) => {
            metrics.inc_cmd_failed();
            metrics.inc_action_failed(action_type);
            Some(e)
        },
    };
    let result = build_action_result(
        source,
        clone_opt_string(&request_id),
        action_type,
        accepted,
        clone_opt_string(&reason),
        timestamp_ms,
    );
    let outcome = if accepted { "Applied" } else { "Failed" };
    let audit = build_action_audit(source, request_id, action_type, outcome, reason, payload, timestamp_ms);
    (result, audit)
}

/// The first of two optional values that is present.
pub open spec fn either(a: Option<String>, b: Option<String>) -> Option<String> {
    match a {
        Some(x) => Some(x),
        None => b,
    }
}

/// The device state a connectivity check reports, for the connection and device named
/// in its payload or else configured: `Connected` when the check succeeded, else `Error`,
/// with the result's reason or `connection_check_ok`. Nothing is reported when either
/// identifier is missing.
pub fn connection_check_state(
    source: &str,
    result: &EdgeActionResultMessage,
    payload_connection_id: Option<String>,
    configured_connection_id: Option<String>,
    payload_device_id: Option<String>,
    configured_device_id: Option<String>,
    timestamp_ms: i64,
) -> (r: Option<DeviceConnectionStateMqttMessage>)
    ensures
        r is Some <==> (either(payload_connection_id, configured_connection_id) is Some && either(
            payload_device_id,
            configured_device_id,
        ) is Some),
        r matches Some(m) ==> {
            &&& m.schema_version == MQTT_SCHEMA_VERSION_V1
            &&& m.source@ == source@
            &&& Some(m.connection_id) == either(payload_connection_id, configured_connection_id)
            &&& Some(m.device_id) == either(payload_device_id, configured_device_id)
            &&& m.tag_id is None
            &&& m.state@ == (if result.accepted {
                "Connected"@
            } else {
                "Error"@
            })
            &&& opt_string_view(m.reason) == (match result.reason {
                Some(x) => Some(x@),
                None => Some("connection_check_ok"@),
            })
            &&& m.timestamp_ms == timestamp_ms
        },
{
    let connection_id = match payload_connection_id {
        Some(c) => Some(c),
        None => configured_connection_id,
    };
    let device_id = match payload_device_id {
        Some(d) => Some(d),
        None => configured_device_id,
    };
    match (connection_id, device_id) {
        (Some(connection_id), Some(device_id)) => {
            let reason = match &result.reason {
                Some(x) => x.clone(),
                None => owned("connection_check_ok"),
            };
            Some(
                DeviceConnectionStateMqttMessage {
                    schema_version: MQTT_SCHEMA_VERSION_V1,
                    source: owned(source),
                    connection_id,
                    device_id,
                    tag_id: None,
                    state: owned(if result.accepted { "Connected" } else { "Error" }),
                    reason: Some(reason),
                    timestamp_ms,
                },
            )
        },
        _ => None,
    }
}

/// What a failed publish adds to each counter: one to the failure counter of its
/// channel, one to the alert failures when it carried an alert, one to the enqueued
/// messages when it was stored in the outbox.
pub open spec fn publish_failure_step(
    channel: OutboxMessageKind,
    alert_publish: bool,
    enqueued: bool,
    c: BridgeCounter,
) -> u64 {
    match c {
        BridgeCounter::AckPublishFail => if channel == OutboxMessageKind::Ack { 1 } else { 0 },
        BridgeCounter::AuditPublishFail => if channel == OutboxMessageKind::Audit { 1 } else { 0 },
        BridgeCounter::AlertPublishFail => if alert_publish { 1 } else { 0 },
        BridgeCounter::OutboxEnqueued => if enqueued { 1 } else { 0 },
        _ => 0,
    }
}

/// Counts a publish that failed on `channel` and was then stored in the outbox, or not.
pub fn record_publish_failure(
    metrics: &mut BridgeMetrics,
    channel: OutboxMessageKind,
    alert_publish: bool,
    enqueued: bool,
)
    ensures
        forall|c: BridgeCounter|
            #[trigger] final(metrics).counter(c) == wrap_add(
                old(metrics).counter(c),
                publish_failure_step(channel, alert_publish, enqueued, c),
            ),
        final(metrics).action_metrics == old(metrics).action_metrics,
{
    let ack: u64 = match channel {
        OutboxMessageKind::Ack => 1,
        OutboxMessageKind::Audit => 0,
    };
    let ghost m0 = *metrics;
    metrics.add(BridgeCounter::AckPublishFail, ack);
    metrics.add(BridgeCounter::AuditPublishFail, 1 - ack);
    metrics.add(BridgeCounter::AlertPublishFail, if alert_publish { 1 } else { 0 });
    metrics.add(BridgeCounter::OutboxEnqueued, if enqueued { 1 } else { 0 });
    assert forall|c: BridgeCounter|
        #[trigger] metrics.counter(c) == wrap_add(
            m0.counter(c),
            publish_failure_step(channel, alert_publish, enqueued, c),
        ) by {
        lemma_wrap_add_zero(m0.counter(c));
    }
}

/// Adding nothing leaves a counter as it was.
proof fn lemma_wrap_add_zero(x: u64)
    ensures
        wrap_add(x, 0) == x,
{
    assert((x + 0) % 0x1_0000_0000_0000_0000int == x);
}

/// How a tag write is carried out.
#[derive(Debug, Clone, PartialEq, Eq)]
pub enum WriteCall {
    /// The write that reports back under the command's id.
    WithCommandId { command_id: String, priority: WritePriority },
    /// The write without a command id.
    Plain { priority: WritePriority },
}

/// The priority a write command asks for, or none when the word is not supported: no
/// word, a blank one or `normal` is normal, `high` is high (trimmed, ASCII case ignored).
pub open spec fn write_priority_of(priority: Option<Seq<char>>) -> Option<WritePriority> {
    match priority {
        None => Some(WritePriority::Normal),
        Some(p) => {
            let w = lower_seq(trim(p));
            if w.len() == 0 || w == "normal"@ {
                Some(WritePriority::Normal)
            } else if w == "high"@ {
                Some(WritePriority::High)
            } else {
                None
            }
        },
    }
}

/// The write a command asks for: its priority is read first, and an unsupported one is
/// the error, with nothing written; then the write under the command's id when it has
/// one, else the plain write.
pub fn plan_write_command(command_id: Option<String>, priority: Option<&str>) -> (r: Result<WriteCall, DomainError>)
    ensures
        write_priority_of(opt_view(priority)) matches Some(pr) ==> r == Ok::<WriteCall, DomainError>(
            match command_id {
                Some(id) => WriteCall::WithCommandId { command_id: id, priority: pr },
                None => WriteCall::Plain { priority: pr },
            },
        ),
        write_priority_of(opt_view(priority)) is None ==> (r matches Err(DomainError::ConfigurationError(m))
            && m@ == "unsupported write priority '"@ + lower_seq(trim(priority->0@)) + "'"@),
{
    match parse_write_priority(priority) {
        Err(e) => Err(e),
        Ok(p) => Ok(
            match command_id {
                Some(id) => WriteCall::WithCommandId { command_id: id, priority: p },
                None => WriteCall::Plain { priority: p },
            },
        ),
    }
}

} // verus!
