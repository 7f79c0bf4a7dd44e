//! The agent's settings from its environment: the bridge configuration with its
//! defaults, the production requirements on remote configuration, the automatic print
//! settings, and the back-off between bridge restarts.
//!
//! Built from a variable map rather than from the process environment. A variable
//! counts as set whatever its value; numbers are read as `from_str` reads them, and an
//! unreadable or out-of-range number gives the default.

use vstd::prelude::*;
use crate::agent::actions::{nonblank_trimmed, pieces_view, split_nonblank_trimmed};
use crate::agent::bridge_config::{is_prod_spec, tls_flag_spec, MqttBridgeConfig};
use crate::supervisor::config::EnvVars;
use crate::text::{
    chars_eq_str, chars_of, eq_ignore_case_str, opt_string_view, owned, parse_u64_spec, parse_u64_str, split_on,
    string_of, trim, trim_chars,
};

verus! {

/// The value of a variable, as set.
pub open spec fn raw(m: Map<Seq<char>, Seq<char>>, k: Seq<char>) -> Option<Seq<char>> {
    if m.contains_key(k) {
        Some(m[k])
    } else {
        None
    }
}

/// The value of a variable, or `d` when it is not set.
pub open spec fn text_or(m: Map<Seq<char>, Seq<char>>, k: Seq<char>, d: Seq<char>) -> Seq<char> {
    match raw(m, k) {
        Some(v) => v,
        None => d,
    }
}

/// A number of at most `max`, as `from_str` reads it.
pub open spec fn bounded(s: Option<Seq<char>>, max: int) -> Option<u64> {
    match s {
        Some(v) => match parse_u64_spec(v) {
            Some(n) => if n <= max {
                Some(n)
            } else {
                None
            },
            None => None,
        },
        None => None,
    }
}

/// A numeric variable of at most `max`, or `d`.
pub open spec fn num_or(m: Map<Seq<char>, Seq<char>>, k: Seq<char>, max: int, d: u64) -> u64 {
    match bounded(raw(m, k), max) {
        Some(n) => n,
        None => d,
    }
}

/// A switch: on when set to `true` in any ASCII case, or to `1`.
pub open spec fn flag_on(m: Map<Seq<char>, Seq<char>>, k: Seq<char>) -> bool {
    tls_flag_spec(raw(m, k))
}

/// A variable set to something other than white space.
pub open spec fn nonblank_set(m: Map<Seq<char>, Seq<char>>, k: Seq<char>) -> bool {
    raw(m, k) matches Some(v) && trim(v).len() > 0
}

/// The runtime environment: `EDGE_RUNTIME_ENV`, else `CENTRAL_RUNTIME_ENV`.
pub open spec fn runtime_env(m: Map<Seq<char>, Seq<char>>) -> Option<Seq<char>> {
    match raw(m, "EDGE_RUNTIME_ENV"@) {
        Some(v) => Some(v),
        None => raw(m, "CENTRAL_RUNTIME_ENV"@),
    }
}

/// Whether the agent runs in production.
pub open spec fn prod(m: Map<Seq<char>, Seq<char>>) -> bool {
    is_prod_spec(runtime_env(m))
}

/// Whether the configuration comes from central.
pub open spec fn remote_enabled(m: Map<Seq<char>, Seq<char>>) -> bool {
    nonblank_set(m, "EDGE_CONFIG_URL"@)
}

fn opt_var(vars: &EnvVars, key: &str) -> (r: Option<String>)
    requires
        vars.wf(),
    ensures
        opt_string_view(r) == raw(vars@, key@),
{
    match vars.get(key) {
        Some(v) => Some(owned(v)),
        None => None,
    }
}

fn text_var(vars: &EnvVars, key: &str, default: &str) -> (r: String)
    requires
        vars.wf(),
    ensures
        r@ == text_or(vars@, key@, default@),
{
    match vars.get(key) {
        Some(v) => owned(v),
        None => owned(default),
    }
}

fn opt_num_var(vars: &EnvVars, key: &str, max: u64) -> (r: Option<u64>)
    requires
        vars.wf(),
    ensures
        r == bounded(raw(vars@, key@), max as int),
{
    match vars.get(key) {
        Some(v) => match parse_u64_str(v) {
            Some(n) => if n <= max {
                Some(n)
            } else {
                None
            },
            None => None,
        },
        None => None,
    }
}

fn num_var(vars: &EnvVars, key: &str, max: u64, default: u64) -> (r: u64)
    requires
        vars.wf(),
        default <= max,
    ensures
        r == num_or(vars@, key@, max as int, default),
        r <= max,
{
    match opt_num_var(vars, key, max) {
        Some(n) => n,
        None => default,
    }
}

fn flag_var(vars: &EnvVars, key: &str) -> (r: bool)
    requires
        vars.wf(),
    ensures
        r == flag_on(vars@, key@),
{
    match vars.get(key) {
        Some(v) => {
            let c = chars_of(v);
            eq_ignore_case_str(&c, "true") || chars_eq_str(&c, "1")
        },
        None => false,
    }
}

fn nonblank_var(vars: &EnvVars, key: &str) -> (r: bool)
    requires
        vars.wf(),
    ensures
        r == nonblank_set(vars@, key@),
{
    match vars.get(key) {
        Some(v) => {
            let c = chars_of(v);
            trim_chars(&c).len() > 0
        },
        None => false,
    }
}

fn is_prod(vars: &EnvVars) -> (r: bool)
    requires
        vars.wf(),
    ensures
        r == prod(vars@),
{
    let env = match vars.get("EDGE_RUNTIME_ENV") {
        Some(v) => Some(v),
        None => vars.get("CENTRAL_RUNTIME_ENV"),
    };
    crate::agent::bridge_config::runtime_is_prod(env)
}

/// In production, configuration from central needs API credentials (a bearer token,
/// or a user and a password) and an enrolment token; anything else is accepted.
pub fn check_remote_config_requirements(vars: &EnvVars) -> (r: Result<(), String>)
    requires
        vars.wf(),
    ensures
        ({
            let m = vars@;
            let needed = prod(m) && remote_enabled(m);
            let api = nonblank_set(m, "EDGE_CONFIG_BEARER_TOKEN"@) || (nonblank_set(m, "EDGE_CONFIG_API_USER"@)
                && nonblank_set(m, "EDGE_CONFIG_API_PASSWORD"@));
            &&& (!needed || (api && nonblank_set(m, "EDGE_ENROLL_TOKEN"@))) <==> r is Ok
            &&& (needed && !api) ==> (r matches Err(e) && e@
                == "EDGE_CONFIG_BEARER_TOKEN or EDGE_CONFIG_API_USER/EDGE_CONFIG_API_PASSWORD are required in prod when EDGE_CONFIG_URL is enabled"@)
            &&& (needed && api && !nonblank_set(m, "EDGE_ENROLL_TOKEN"@)) ==> (r matches Err(e) && e@
                == "EDGE_ENROLL_TOKEN is required in prod when EDGE_CONFIG_URL is enabled"@)
        }),
{
    if !(is_prod(vars) && nonblank_var(vars, "EDGE_CONFIG_URL")) {
        return Ok(());
    }
    let has_bearer = nonblank_var(vars, "EDGE_CONFIG_BEARER_TOKEN");
    let has_login_pair = nonblank_var(vars, "EDGE_CONFIG_API_USER") && nonblank_var(vars, "EDGE_CONFIG_API_PASSWORD");
    if !has_bearer && !has_login_pair {
        return Err(
            owned(
                "EDGE_CONFIG_BEARER_TOKEN or EDGE_CONFIG_API_USER/EDGE_CONFIG_API_PASSWORD are required in prod when EDGE_CONFIG_URL is enabled",
            ),
        );
    }
    if !nonblank_var(vars, "EDGE_ENROLL_TOKEN") {
        return Err(owned("EDGE_ENROLL_TOKEN is required in prod when EDGE_CONFIG_URL is enabled"));
    }
    Ok(())
}

/// Whether the MQTT bridge runs: `EDGE_MQTT_ENABLED` switched on.
pub fn mqtt_enabled(vars: &EnvVars) -> (r: bool)
    requires
        vars.wf(),
    ensures
        r == flag_on(vars@, "EDGE_MQTT_ENABLED"@),
{
    flag_var(vars, "EDGE_MQTT_ENABLED")
}

/// Whether configuration comes from central: `EDGE_CONFIG_URL` set and not blank.
pub fn remote_config_enabled(vars: &EnvVars) -> (r: bool)
    requires
        vars.wf(),
    ensures
        r == remote_enabled(vars@),
{
    nonblank_var(vars, "EDGE_CONFIG_URL")
}

/// The automatic print settings.
#[derive(Debug, Clone)]
pub struct AutoPrintSettings {
    pub enabled: bool,
    pub tag_ids: Vec<String>,
    pub consecutive: usize,
}

/// The tags named in a comma-separated list, blanks dropped and each trimmed.
pub open spec fn tag_list(s: Option<Seq<char>>) -> Seq<Seq<char>> {
    match s {
        Some(v) => nonblank_trimmed(split_on(v, ',')),
        None => Seq::empty(),
    }
}

/// The automatic print settings: switched on by `EDGE_AUTO_PRINT_NONPOS_ENABLED`, for
/// the tags listed in `EDGE_AUTO_PRINT_TAGS`, after `EDGE_AUTO_PRINT_CONSECUTIVE`
/// readings (two by default).
pub fn auto_print_settings(vars: &EnvVars) -> (r: AutoPrintSettings)
    requires
        vars.wf(),
    ensures
        r.enabled == flag_on(vars@, "EDGE_AUTO_PRINT_NONPOS_ENABLED"@),
        r.tag_ids@.len() == tag_list(raw(vars@, "EDGE_AUTO_PRINT_TAGS"@)).len(),
        forall|i: int|
            0 <= i < r.tag_ids@.len() ==> #[trigger] r.tag_ids@[i]@ == tag_list(raw(vars@, "EDGE_AUTO_PRINT_TAGS"@))[i],
        r.consecutive == num_or(vars@, "EDGE_AUTO_PRINT_CONSECUTIVE"@, usize::MAX as int, 2),
{
    let enabled = flag_var(vars, "EDGE_AUTO_PRINT_NONPOS_ENABLED");
    let mut tag_ids: Vec<String> = Vec::new();
    let ghost spec_list = tag_list(raw(vars@, "EDGE_AUTO_PRINT_TAGS"@));
    match vars.get("EDGE_AUTO_PRINT_TAGS") {
        Some(v) => {
            let c = chars_of(v);
            let parts = split_nonblank_trimmed(&c, ',');
            assert(pieces_view(parts@) == spec_list);
            let mut i: usize = 0;
            while i < parts.len()
                invariant
                    i <= parts@.len(),
                    pieces_view(parts@) == spec_list,
                    tag_ids@.len() == i,
                    forall|j: int| 0 <= j < i ==> #[trigger] tag_ids@[j]@ == spec_list[j],
                decreases parts@.len() - i,
            {
                assert(pieces_view(parts@)[i as int] == parts@[i as int]@);
                tag_ids.push(string_of(&parts[i]));
                i = i + 1;
            }
        },
        None => {},
    }
    let consecutive = num_var(vars, "EDGE_AUTO_PRINT_CONSECUTIVE", usize::MAX as u64, 2) as usize;
    AutoPrintSettings { enabled, tag_ids, consecutive }
}

/// The seconds to wait before restarting the bridge after the wait `b`: double, at
/// most thirty.
pub fn next_backoff(b: u64) -> (r: u64)
    ensures
        r == (if 2 * b < 30 {
            2 * b
        } else {
            30
        }),
{
    if b >= 15 {
        30
    } else {
        b * 2
    }
}

/// A number of at most 65535, as a port.
pub open spec fn port_or(m: Map<Seq<char>, Seq<char>>, k: Seq<char>, d: u16) -> u16 {
    num_or(m, k, 65535, d as u64) as u16
}

/// The bridge configuration from the environment, with the running configuration's hash
/// and the heartbeat file. Each setting has its variable and its default; in
/// production with configuration from central, the signing secret must be set.
pub fn bridge_config_from_vars(vars: &EnvVars, config_hash: Option<String>, heartbeat_path: Option<String>) -> (r:
    Result<MqttBridgeConfig, String>)
    requires
        vars.wf(),
    ensures
        ({
            let m = vars@;
            &&& r is Err <==> (!nonblank_set(m, "EDGE_CONFIG_HMAC_SECRET"@) && prod(m) && remote_enabled(m))
            &&& r matches Err(e) ==> e@ == "EDGE_CONFIG_HMAC_SECRET is required in prod when EDGE_CONFIG_URL is enabled"@
            &&& r matches Ok(c) ==> {
                &&& c.site@ == text_or(m, "EDGE_SITE"@, "default-site"@)
                &&& c.agent@ == text_or(m, "EDGE_AGENT"@, "edge-01"@)
                &&& c.broker_host@ == text_or(m, "MQTT_HOST"@, "127.0.0.1"@)
                &&& c.broker_port == port_or(m, "MQTT_PORT"@, 1883)
                &&& c.client_id@ == text_or(m, "MQTT_CLIENT_ID"@, "edge-agent-01"@)
                &&& c.outbox_path@ == text_or(m, "MQTT_OUTBOX_PATH"@, "./data/mqtt_outbox.db"@)
                &&& c.ticket_sequence_path@ == text_or(m, "EDGE_TICKET_SEQUENCE_PATH"@, "./data/ticket_sequence.db"@)
                &&& c.outbox_flush_batch == num_or(m, "MQTT_OUTBOX_FLUSH_BATCH"@, usize::MAX as int, 50)
                &&& c.heartbeat_path == heartbeat_path
                &&& c.outbox_max_messages == num_or(m, "MQTT_OUTBOX_MAX_MESSAGES"@, usize::MAX as int, 10_000)
                &&& c.outbox_active_key_id@ == text_or(m, "MQTT_OUTBOX_ACTIVE_KEY_ID"@, "v1"@)
                &&& opt_string_view(c.outbox_prev_key_id) == raw(m, "MQTT_OUTBOX_PREV_KEY_ID"@)
                &&& opt_string_view(c.outbox_encryption_secret) == raw(m, "MQTT_OUTBOX_ENCRYPTION_SECRET"@)
                &&& opt_string_view(c.outbox_hmac_secret) == raw(m, "MQTT_OUTBOX_HMAC_SECRET"@)
                &&& opt_string_view(c.outbox_prev_encryption_secret) == raw(m, "MQTT_OUTBOX_PREV_ENCRYPTION_SECRET"@)
                &&& opt_string_view(c.outbox_prev_hmac_secret) == raw(m, "MQTT_OUTBOX_PREV_HMAC_SECRET"@)
                &&& c.health_publish_interval_secs == num_or(m, "MQTT_HEALTH_PUBLISH_INTERVAL_SECS"@, u64::MAX as int, 30)
                &&& c.health_outbox_depth_warn == num_or(m, "MQTT_HEALTH_OUTBOX_DEPTH_WARN"@, usize::MAX as int, 1000)
                &&& c.health_outbox_oldest_secs_warn == num_or(
                    m,
                    "MQTT_HEALTH_OUTBOX_OLDEST_SECS_WARN"@,
                    u64::MAX as int,
                    300,
                )
                &&& c.alert_degraded_streak == num_or(m, "MQTT_ALERT_DEGRADED_STREAK"@, usize::MAX as int, 3)
                &&& c.alert_recovered_streak == num_or(m, "MQTT_ALERT_RECOVERED_STREAK"@, usize::MAX as int, 3)
                &&& c.alert_dedup_window_secs == num_or(m, "MQTT_ALERT_DEDUP_WINDOW_SECS"@, u64::MAX as int, 300)
                &&& c.config_hash == config_hash
                &&& opt_string_view(c.config_check_url) == raw(m, "EDGE_CONFIG_URL"@)
                &&& opt_string_view(c.config_check_enroll_token) == raw(m, "EDGE_ENROLL_TOKEN"@)
                &&& opt_string_view(c.config_check_hmac_secret) == (if nonblank_set(m, "EDGE_CONFIG_HMAC_SECRET"@) {
                    raw(m, "EDGE_CONFIG_HMAC_SECRET"@)
                } else {
                    None
                })
                &&& opt_string_view(c.config_check_key_id) == raw(m, "EDGE_CONFIG_KEY_ID"@)
                &&& c.config_cache_path@ == text_or(
                    m,
                    "EDGE_RUNTIME_CACHE_PATH"@,
                    "./data/runtime_config.signed.json"@,
                )
                &&& c.config_apply_receipt_path@ == text_or(
                    m,
                    "EDGE_CONFIG_APPLY_RECEIPT_PATH"@,
                    "./data/config_apply_receipt.json"@,
                )
                &&& c.config_check_interval_secs == num_or(m, "EDGE_CONFIG_CHECK_INTERVAL_SECS"@, u64::MAX as int, 120)
                &&& c.config_check_jitter_secs == num_or(m, "EDGE_CONFIG_CHECK_JITTER_SECS"@, u64::MAX as int, 20)
                &&& c.escpos_output_path@ == text_or(m, "EDGE_ESCPOS_OUTPUT_PATH"@, "./data/escpos_output.bin"@)
                &&& opt_string_view(c.escpos_tcp_host) == raw(m, "EDGE_ESCPOS_TCP_HOST"@)
                &&& c.escpos_tcp_port == port_or(m, "EDGE_ESCPOS_TCP_PORT"@, 9100)
                &&& opt_string_view(c.escpos_windows_share) == raw(m, "EDGE_ESCPOS_WINDOWS_SHARE"@)
                &&& opt_string_view(c.on_demand_tcp_host) == raw(m, "EDGE_ON_DEMAND_TCP_HOST"@)
                &&& c.on_demand_tcp_port == (match bounded(raw(m, "EDGE_ON_DEMAND_TCP_PORT"@), 65535) {
                    Some(p) => Some(p as u16),
                    None => None,
                })
                &&& c.on_demand_probe_enabled == flag_on(m, "EDGE_ON_DEMAND_PROBE_ENABLED"@)
                &&& c.on_demand_probe_timeout_ms == num_or(m, "EDGE_ON_DEMAND_PROBE_TIMEOUT_MS"@, u64::MAX as int, 1200)
                &&& opt_string_view(c.on_demand_probe_connection_id) == raw(m, "EDGE_ON_DEMAND_PROBE_CONNECTION_ID"@)
                &&& opt_string_view(c.on_demand_probe_device_id) == raw(m, "EDGE_ON_DEMAND_PROBE_DEVICE_ID"@)
            }
        }),
{
    let hmac_secret = if nonblank_var(vars, "EDGE_CONFIG_HMAC_SECRET") {
        opt_var(vars, "EDGE_CONFIG_HMAC_SECRET")
    } else {
        if is_prod(vars) && nonblank_var(vars, "EDGE_CONFIG_URL") {
            return Err(owned("EDGE_CONFIG_HMAC_SECRET is required in prod when EDGE_CONFIG_URL is enabled"));
        }
        None
    };
    let usize_max = usize::MAX as u64;
    let on_demand_tcp_port = match opt_num_var(vars, "EDGE_ON_DEMAND_TCP_PORT", 65535) {
        Some(p) => Some(p as u16),
        None => None,
    };
    Ok(
        MqttBridgeConfig {
            site: text_var(vars, "EDGE_SITE", "default-site"),
            agent: text_var(vars, "EDGE_AGENT", "edge-01"),
            broker_host: text_var(vars, "MQTT_HOST", "127.0.0.1"),
            broker_port: num_var(vars, "MQTT_PORT", 65535, 1883) as u16,
            client_id: text_var(vars, "MQTT_CLIENT_ID", "edge-agent-01"),
            outbox_path: text_var(vars, "MQTT_OUTBOX_PATH", "./data/mqtt_outbox.db"),
            ticket_sequence_path: text_var(vars, "EDGE_TICKET_SEQUENCE_PATH", "./data/ticket_sequence.db"),
            outbox_flush_batch: num_var(vars, "MQTT_OUTBOX_FLUSH_BATCH", usize_max, 50) as usize,
            heartbeat_path,
            outbox_max_messages: num_var(vars, "MQTT_OUTBOX_MAX_MESSAGES", usize_max, 10_000) as usize,
            outbox_active_key_id: text_var(vars, "MQTT_OUTBOX_ACTIVE_KEY_ID", "v1"),
            outbox_prev_key_id: opt_var(vars, "MQTT_OUTBOX_PREV_KEY_ID"),
            outbox_encryption_secret: opt_var(vars, "MQTT_OUTBOX_ENCRYPTION_SECRET"),
            outbox_hmac_secret: opt_var(vars, "MQTT_OUTBOX_HMAC_SECRET"),
            outbox_prev_encryption_secret: opt_var(vars, "MQTT_OUTBOX_PREV_ENCRYPTION_SECRET"),
            outbox_prev_hmac_secret: opt_var(vars, "MQTT_OUTBOX_PREV_HMAC_SECRET"),
            health_publish_interval_secs: num_var(vars, "MQTT_HEALTH_PUBLISH_INTERVAL_SECS", u64::MAX, 30),
            health_outbox_depth_warn: num_var(vars, "MQTT_HEALTH_OUTBOX_DEPTH_WARN", usize_max, 1000) as usize,
            health_outbox_oldest_secs_warn: num_var(vars, "MQTT_HEALTH_OUTBOX_OLDEST_SECS_WARN", u64::MAX, 300),
            alert_degraded_streak: num_var(vars, "MQTT_ALERT_DEGRADED_STREAK", usize_max, 3) as usize,
            alert_recovered_streak: num_var(vars, "MQTT_ALERT_RECOVERED_STREAK", usize_max, 3) as usize,
            alert_dedup_window_secs: num_var(vars, "MQTT_ALERT_DEDUP_WINDOW_SECS", u64::MAX, 300),
            config_hash,
            config_check_url: opt_var(vars, "EDGE_CONFIG_URL"),
            config_check_enroll_token: opt_var(vars, "EDGE_ENROLL_TOKEN"),
            config_check_hmac_secret: hmac_secret,
            config_check_key_id: opt_var(vars, "EDGE_CONFIG_KEY_ID"),
            config_cache_path: text_var(vars, "EDGE_RUNTIME_CACHE_PATH", "./data/runtime_config.signed.json"),
            config_apply_receipt_path: text_var(
                vars,
                "EDGE_CONFIG_APPLY_RECEIPT_PATH",
                "./data/config_apply_receipt.json",
            ),
            config_check_interval_secs: num_var(vars, "EDGE_CONFIG_CHECK_INTERVAL_SECS", u64::MAX, 120),
            config_check_jitter_secs: num_var(vars, "EDGE_CONFIG_CHECK_JITTER_SECS", u64::MAX, 20),
            escpos_output_path: text_var(vars, "EDGE_ESCPOS_OUTPUT_PATH", "./data/escpos_output.bin"),
            escpos_tcp_host: opt_var(vars, "EDGE_ESCPOS_TCP_HOST"),
            escpos_tcp_port: num_var(vars, "EDGE_ESCPOS_TCP_PORT", 65535, 9100) as u16,
            escpos_windows_share: opt_var(vars, "EDGE_ESCPOS_WINDOWS_SHARE"),
            on_demand_tcp_host: opt_var(vars, "EDGE_ON_DEMAND_TCP_HOST"),
            on_demand_tcp_port,
            on_demand_probe_enabled: flag_var(vars, "EDGE_ON_DEMAND_PROBE_ENABLED"),
            on_demand_probe_timeout_ms: num_var(vars, "EDGE_ON_DEMAND_PROBE_TIMEOUT_MS", u64::MAX, 1200),
            on_demand_probe_connection_id: opt_var(vars, "EDGE_ON_DEMAND_PROBE_CONNECTION_ID"),
            on_demand_probe_device_id: opt_var(vars, "EDGE_ON_DEMAND_PROBE_DEVICE_ID"),
        },
    )
}

} // verus!
