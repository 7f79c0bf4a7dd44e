//! The MQTT bridge's running decisions: the settings it runs with, the handler an
//! incoming message goes to, the periodic check of central's configuration and the wait
//! between checks, and what each health tick does to the runtime-health alert.
//!
//! The caller runs the event loop, the timers and the publishing; it hands in the
//! clock, the outbox figures and the random draw.

use vstd::prelude::*;
use crate::agent::bridge::{
    alert_key, alert_next, build_alert_message, emit_decision, evaluate_alert_transition, runtime_alert_type,
    should_emit_alert_for_window, transition_slot, alert_text, wrap_add, AlertState, AlertTransition,
    BridgeCounter, BridgeMetrics, EdgeAlertMqttMessage, MQTT_SCHEMA_VERSION_V1,
};
use crate::agent::bridge_config::MqttBridgeConfig;
use crate::agent::broker_watch::{BrokerActivityWatch, MIN_CHECK_INTERVAL_MS};
use crate::agent::outbox::OutboxStats;
use crate::agent::watchdog::{forces_reconnect, next_last};
use crate::text::{append_str, chars_eq, chars_of, owned, trim, trim_chars};

verus! {

/// The settings the bridge runs with, each held to its floor or ceiling.
#[derive(Debug, Clone, Copy, PartialEq, Eq, Structural)]
pub struct BridgeTimings {
    pub flush_batch: usize,
    pub outbox_max_messages: usize,
    pub health_interval_secs: u64,
    pub depth_warn: usize,
    pub oldest_warn_secs: u64,
    pub degraded_threshold: usize,
    pub recovered_threshold: usize,
    pub dedup_window_secs: u64,
    pub config_check_interval_secs: u64,
    pub config_check_jitter_secs: u64,
}

/// `x`, or `floor` when `x` is below it.
pub open spec fn at_least(x: int, floor: int) -> int {
    if x < floor {
        floor
    } else {
        x
    }
}

fn max_usize(x: usize, floor: usize) -> (r: usize)
    ensures
        r == at_least(x as int, floor as int),
{
    if x < floor {
        floor
    } else {
        x
    }
}

fn max_u64(x: u64, floor: u64) -> (r: u64)
    ensures
        r == at_least(x as int, floor as int),
{
    if x < floor {
        floor
    } else {
        x
    }
}

/// The bridge's settings from its configuration: at least one message per flush and in
/// the outbox; a health report every five seconds at the most often; warning levels,
/// streak thresholds and the alert window of at least one; a configuration check every
/// five seconds at the most often, with at most five minutes of jitter.
pub fn bridge_timings(cfg: &MqttBridgeConfig) -> (r: BridgeTimings)
    ensures
        r.flush_batch == at_least(cfg.outbox_flush_batch as int, 1),
        r.outbox_max_messages == at_least(cfg.outbox_max_messages as int, 1),
        r.health_interval_secs == at_least(cfg.health_publish_interval_secs as int, 5),
        r.depth_warn == at_least(cfg.health_outbox_depth_warn as int, 1),
        r.oldest_warn_secs == at_least(cfg.health_outbox_oldest_secs_warn as int, 1),
        r.degraded_threshold == at_least(cfg.alert_degraded_streak as int, 1),
        r.recovered_threshold == at_least(cfg.alert_recovered_streak as int, 1),
        r.dedup_window_secs == at_least(cfg.alert_dedup_window_secs as int, 1),
        r.config_check_interval_secs == at_least(cfg.config_check_interval_secs as int, 5),
        r.config_check_jitter_secs == (if cfg.config_check_jitter_secs > 300 {
            300
        } else {
            cfg.config_check_jitter_secs
        }),
{
    BridgeTimings {
        flush_batch: max_usize(cfg.outbox_flush_batch, 1),
        outbox_max_messages: max_usize(cfg.outbox_max_messages, 1),
        health_interval_secs: max_u64(cfg.health_publish_interval_secs, 5),
        depth_warn: max_usize(cfg.health_outbox_depth_warn, 1),
        oldest_warn_secs: max_u64(cfg.health_outbox_oldest_secs_warn, 1),
        degraded_threshold: max_usize(cfg.alert_degraded_streak, 1),
        recovered_threshold: max_usize(cfg.alert_recovered_streak, 1),
        dedup_window_secs: max_u64(cfg.alert_dedup_window_secs, 1),
        config_check_interval_secs: max_u64(cfg.config_check_interval_secs, 5),
        config_check_jitter_secs: if cfg.config_check_jitter_secs > 300 {
            300
        } else {
            cfg.config_check_jitter_secs
        },
    }
}

/// The source the bridge signs its messages with: `edge/<agent>`.
pub fn source_id(agent: &str) -> (r: String)
    ensures
        r@ == "edge/"@ + agent@,
{
    let mut s = owned("edge/");
    append_str(&mut s, agent);
    s
}

/// The seconds to wait before the next check of central's configuration: the interval,
/// plus the random draw reduced below `jitter_secs + 1` when there is jitter.
pub fn config_check_wait(interval_secs: u64, jitter_secs: u64, random: u64) -> (r: u64)
    requires
        interval_secs + jitter_secs <= u64::MAX,
        jitter_secs < u64::MAX,
    ensures
        jitter_secs == 0 ==> r == interval_secs,
        jitter_secs > 0 ==> r == interval_secs + (random as int) % (jitter_secs as int + 1),
        interval_secs <= r <= interval_secs + jitter_secs,
{
    if jitter_secs == 0 {
        interval_secs
    } else {
        let extra: u64 = random % (jitter_secs + 1);
        interval_secs + extra
    }
}

/// The handler an incoming message goes to, by its topic.
#[derive(Debug, Clone, Copy, PartialEq, Eq, Structural)]
pub enum InboundRoute {
    WriteCommand,
    ActionCommand,
    AlertAck,
    ConfigApply,
    ControlReset,
    /// A topic the bridge does not handle.
    Ignored,
}

/// The route of a topic: each inbound topic of the edge to its handler, anything else
/// ignored.
pub open spec fn route_spec(cfg: MqttBridgeConfig, topic: Seq<char>) -> InboundRoute {
    if topic == cfg.topic_of("/cmd/write"@) {
        InboundRoute::WriteCommand
    } else if topic == cfg.topic_of("/cmd/action"@) {
        InboundRoute::ActionCommand
    } else if topic == cfg.topic_of("/alerts/runtime/ack"@) {
        InboundRoute::AlertAck
    } else if topic == cfg.topic_of("/config/apply"@) {
        InboundRoute::ConfigApply
    } else if topic == cfg.topic_of("/control/reset"@) {
        InboundRoute::ControlReset
    } else {
        InboundRoute::Ignored
    }
}

fn same(topic: &Vec<char>, other: String) -> (r: bool)
    ensures
        r == (topic@ == other@),
{
    let o = chars_of(other.as_str());
    chars_eq(topic, &o)
}

/// The handler an incoming message on `topic` goes to.
pub fn route_inbound(cfg: &MqttBridgeConfig, topic: &str) -> (r: InboundRoute)
    ensures
        r == route_spec(*cfg, topic@),
{
    let t = chars_of(topic);
    if same(&t, cfg.command_topic()) {
        InboundRoute::WriteCommand
    } else if same(&t, cfg.action_command_topic()) {
        InboundRoute::ActionCommand
    } else if same(&t, cfg.alert_ack_topic()) {
        InboundRoute::AlertAck
    } else if same(&t, cfg.config_apply_topic()) {
        InboundRoute::ConfigApply
    } else if same(&t, cfg.control_reset_topic()) {
        InboundRoute::ControlReset
    } else {
        InboundRoute::Ignored
    }
}

/// The five topics the bridge subscribes to, in the order it subscribes: write
/// commands, action commands, alert acknowledgements, config apply, control reset.
pub fn inbound_topics(cfg: &MqttBridgeConfig) -> (r: Vec<String>)
    ensures
        r@.len() == 5,
        r@[0]@ == cfg.topic_of("/cmd/write"@),
        r@[1]@ == cfg.topic_of("/cmd/action"@),
        r@[2]@ == cfg.topic_of("/alerts/runtime/ack"@),
        r@[3]@ == cfg.topic_of("/config/apply"@),
        r@[4]@ == cfg.topic_of("/control/reset"@),
{
    let mut v: Vec<String> = Vec::new();
    v.push(cfg.command_topic());
    v.push(cfg.action_command_topic());
    v.push(cfg.alert_ack_topic());
    v.push(cfg.config_apply_topic());
    v.push(cfg.control_reset_topic());
    v
}

/// What happened in the bridge's event loop.
#[derive(Debug, Clone)]
pub enum BridgeEvent {
    /// The loop is about to poll the broker connection.
    BeforePoll,
    /// The poll waited its whole timeout without an event.
    PollTimedOut,
    /// The broker acknowledged a (re)connection.
    ConnAck,
    /// A message arrived on this topic.
    Publish { topic: String },
    /// Another packet arrived from the broker.
    OtherIncoming,
    /// The client sent a packet.
    Outgoing,
    /// The connection failed.
    PollError,
    /// A handler finished; it may have asked for the edge to restart.
    Handled { restart_requested: bool },
}

/// What the bridge does next.
#[derive(Debug, Clone, Copy, PartialEq, Eq, Structural)]
pub enum BridgeAction {
    /// Poll the connection for at most this many milliseconds.
    Poll { timeout_ms: u64 },
    /// Presume the session dead: mark it down and drop the connection, so that the
    /// client reconnects.
    ForceReconnect,
    /// Mark the session live and subscribe to every inbound topic.
    SubscribeAll,
    /// Pass the message to its handler.
    Handle(InboundRoute),
    /// Nothing to do; go round again.
    Continue,
    /// Mark the session down and try again after this many milliseconds.
    RetryAfter { delay_ms: u64 },
    /// Stop the bridge so that the edge restarts.
    Stop,
}

/// The wait after a failed poll.
pub const POLL_RETRY_DELAY_MS: u64 = 1000;

/// One step of the bridge's event loop. Before each poll a silence longer than the
/// watchdog allows forces a reconnection, else the poll waits until the staleness
/// deadline; a poll that times out forces a reconnection. Every packet from the broker
/// restarts the watchdog's window. Every connection acknowledgement, whatever the broker
/// says of the session, subscribes to all inbound topics again. A message goes to the
/// handler of its topic; a failed poll is retried after a second; a handler's restart
/// request stops the bridge.
pub fn bridge_step(
    watch: &mut BrokerActivityWatch,
    cfg: &MqttBridgeConfig,
    event: BridgeEvent,
    now_ms: u64,
) -> (r: BridgeAction)
    requires
        old(watch).keep_alive() * 3 <= u64::MAX,
    ensures
        final(watch).last_activity() == next_last(old(watch).keep_alive(), old(watch).last_activity(), event, now_ms),
        (r == BridgeAction::ForceReconnect) == forces_reconnect(
            old(watch).keep_alive(),
            old(watch).last_activity(),
            event,
            now_ms,
        ),
        final(watch).keep_alive() == old(watch).keep_alive(),
        match event {
            BridgeEvent::BeforePoll => if old(watch).silence(now_ms) > old(watch).stale_after_spec() {
                r == BridgeAction::ForceReconnect && final(watch).last_activity() == now_ms
            } else {
                *final(watch) == *old(watch) && (r matches BridgeAction::Poll { timeout_ms } && timeout_ms
                    == (if old(watch).stale_after_spec() - old(watch).silence(now_ms) > MIN_CHECK_INTERVAL_MS {
                    old(watch).stale_after_spec() - old(watch).silence(now_ms)
                } else {
                    MIN_CHECK_INTERVAL_MS as int
                }))
            },
            BridgeEvent::PollTimedOut => r == BridgeAction::ForceReconnect && final(watch).last_activity()
                == now_ms,
            BridgeEvent::ConnAck => r == BridgeAction::SubscribeAll && final(watch).last_activity() == now_ms,
            BridgeEvent::Publish { topic } => r == BridgeAction::Handle(route_spec(*cfg, topic@))
                && final(watch).last_activity() == now_ms,
            BridgeEvent::OtherIncoming => r == BridgeAction::Continue && final(watch).last_activity() == now_ms,
            BridgeEvent::Outgoing => r == BridgeAction::Continue && *final(watch) == *old(watch),
            BridgeEvent::PollError => r == BridgeAction::RetryAfter { delay_ms: POLL_RETRY_DELAY_MS }
                && *final(watch) == *old(watch),
            BridgeEvent::Handled { restart_requested } => r == (if restart_requested {
                BridgeAction::Stop
            } else {
                BridgeAction::Continue
            }) && *final(watch) == *old(watch),
        },
{
    match event {
        BridgeEvent::BeforePoll => {
            if watch.should_force_reconnect(now_ms) {
                watch.record_activity(now_ms);
                BridgeAction::ForceReconnect
            } else {
                BridgeAction::Poll { timeout_ms: watch.next_check_in(now_ms) }
            }
        },
        BridgeEvent::PollTimedOut => {
            watch.record_activity(now_ms);
            BridgeAction::ForceReconnect
        },
        BridgeEvent::ConnAck => {
            watch.record_activity(now_ms);
            BridgeAction::SubscribeAll
        },
        BridgeEvent::Publish { topic } => {
            watch.record_activity(now_ms);
            BridgeAction::Handle(route_inbound(cfg, topic.as_str()))
        },
        BridgeEvent::OtherIncoming => {
            watch.record_activity(now_ms);
            BridgeAction::Continue
        },
        BridgeEvent::Outgoing => BridgeAction::Continue,
        BridgeEvent::PollError => BridgeAction::RetryAfter { delay_ms: POLL_RETRY_DELAY_MS },
        BridgeEvent::Handled { restart_requested } => if restart_requested {
            BridgeAction::Stop
        } else {
            BridgeAction::Continue
        },
    }
}

/// What the periodic configuration check needs.
#[derive(Debug, Clone)]
pub struct ConfigCheckPlan {
    pub url: String,
    pub token: String,
    pub signing_secret: String,
    pub key_id: Option<String>,
    pub cache_path: String,
    pub edge_id: String,
    pub interval_secs: u64,
    pub jitter_secs: u64,
}

/// The signing secret checked when none is configured.
pub open spec fn default_signing_secret() -> Seq<char> {
    "dev-edge-config-signing-secret"@
}

/// Whether a setting is present and not blank.
pub open spec fn is_set(o: Option<String>) -> bool {
    o matches Some(s) && trim(s@).len() > 0
}

fn set(o: &Option<String>) -> (r: bool)
    ensures
        r == is_set(*o),
{
    match o {
        Some(s) => {
            let v = chars_of(s.as_str());
            trim_chars(&v).len() > 0
        },
        None => false,
    }
}

/// The periodic check of central's configuration: made only when both its URL and the
/// enrolment token are set (not blank), with the configured signing secret or the
/// development one, every interval plus jitter of the bridge's settings.
pub fn config_check_plan(cfg: &MqttBridgeConfig, t: &BridgeTimings) -> (r: Option<ConfigCheckPlan>)
    ensures
        r is Some <==> (is_set(cfg.config_check_url) && is_set(cfg.config_check_enroll_token)),
        r matches Some(p) ==> {
            &&& Some(p.url) == cfg.config_check_url
            &&& Some(p.token) == cfg.config_check_enroll_token
            &&& p.signing_secret@ == (match cfg.config_check_hmac_secret {
                Some(s) => s@,
                None => default_signing_secret(),
            })
            &&& p.key_id == cfg.config_check_key_id
            &&& p.cache_path == cfg.config_cache_path
            &&& p.edge_id == cfg.agent
            &&& p.interval_secs == t.config_check_interval_secs
            &&& p.jitter_secs == t.config_check_jitter_secs
        },
{
    if !set(&cfg.config_check_url) || !set(&cfg.config_check_enroll_token) {
        return None;
    }
    let url = match &cfg.config_check_url {
        Some(u) => u.clone(),
        None => return None,
    };
    let token = match &cfg.config_check_enroll_token {
        Some(k) => k.clone(),
        None => return None,
    };
    let signing_secret = match &cfg.config_check_hmac_secret {
        Some(s) => s.clone(),
        None => owned("dev-edge-config-signing-secret"),
    };
    let key_id = match &cfg.config_check_key_id {
        Some(k) => Some(k.clone()),
        None => None,
    };
    Some(
        ConfigCheckPlan {
            url,
            token,
            signing_secret,
            key_id,
            cache_path: cfg.config_cache_path.clone(),
            edge_id: cfg.agent.clone(),
            interval_secs: t.config_check_interval_secs,
            jitter_secs: t.config_check_jitter_secs,
        },
    )
}

/// One health tick's effect on the alert: the health status feeds the hysteresis; a
/// transition is published unless the same transition was published within the window,
/// and a published one counts as raised or cleared. Nothing else changes.
pub fn alert_tick(
    alert: &mut AlertState,
    metrics: &mut BridgeMetrics,
    source: &str,
    status: &str,
    stats: &OutboxStats,
    t: &BridgeTimings,
    now_ms: i64,
    now_secs: i64,
) -> (r: Option<EdgeAlertMqttMessage>)
    requires
        old(alert).wf(),
    ensures
        final(alert).wf(),
        ({
            let n = alert_next(
                old(alert).degraded_streak,
                old(alert).recovered_streak,
                old(alert).active,
                status@ == "degraded"@,
                t.degraded_threshold,
                t.recovered_threshold,
            );
            let emitted = n.3 matches Some(tr) && emit_decision(
                old(alert).last_emitted@,
                alert_key(runtime_alert_type(), tr),
                now_secs,
                t.dedup_window_secs,
            );
            &&& final(alert).degraded_streak == n.0
            &&& final(alert).recovered_streak == n.1
            &&& final(alert).active == n.2
            &&& (r is Some <==> emitted)
            &&& emitted ==> final(alert).last_emitted@ == old(alert).last_emitted@.insert(
                alert_key(runtime_alert_type(), n.3->0),
                now_secs,
            )
            &&& !emitted ==> final(alert).last_emitted@ == old(alert).last_emitted@
            &&& r matches Some(a) ==> {
                &&& a.schema_version == MQTT_SCHEMA_VERSION_V1
                &&& a.source@ == source@
                &&& a.severity@ == (if status@ == "degraded"@ {
                    "warning"@
                } else {
                    "info"@
                })
                &&& a.alert_type@ == runtime_alert_type()
                &&& a.state@ == transition_slot(n.3->0)
                &&& a.message@ == alert_text(n.3->0)
                &&& a.outbox_depth == stats.depth
                &&& a.outbox_oldest_age_secs == stats.oldest_age_secs
                &&& a.timestamp_ms == now_ms
            }
            &&& final(metrics).counter(BridgeCounter::AlertRaised) == (if emitted && n.3 == Some(
                AlertTransition::Raised,
            ) {
                wrap_add(old(metrics).alert_raised_total, 1)
            } else {
                old(metrics).alert_raised_total
            })
            &&& final(metrics).counter(BridgeCounter::AlertCleared) == (if emitted && n.3 == Some(
                AlertTransition::Cleared,
            ) {
                wrap_add(old(metrics).alert_cleared_total, 1)
            } else {
                old(metrics).alert_cleared_total
            })
        }),
        forall|o: BridgeCounter|
            o != BridgeCounter::AlertRaised && o != BridgeCounter::AlertCleared ==> #[trigger] final(metrics).counter(o)
                == old(metrics).counter(o),
        final(metrics).action_metrics == old(metrics).action_metrics,
{
    let transition = evaluate_alert_transition(status, alert, t.degraded_threshold, t.recovered_threshold);
    match transition {
        None => None,
        Some(tr) => {
            if should_emit_alert_for_window(alert, "runtime_health_degraded", tr, t.dedup_window_secs, now_secs) {
                let msg = build_alert_message(source, status, tr, stats, now_ms);
                match tr {
                    AlertTransition::Raised => metrics.inc_alert_raised(),
                    AlertTransition::Cleared => metrics.inc_alert_cleared(),
                }
                Some(msg)
            } else {
                None
            }
        },
    }
}

} // verus!
