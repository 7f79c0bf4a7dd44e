//! Settings of the MQTT bridge, the topics it uses, and where a print or a connection
//! check is sent.

use vstd::prelude::*;
use crate::text::{append_str, chars_eq_str, chars_of, owned, string_of, trim, trim_chars};
use crate::agent::actions::{nonblank, normalize_windows_share, windows_share_spec};

verus! {

/// Settings of the MQTT bridge. Automations, which carry float thresholds, are kept by
/// the caller next to these.
#[derive(Debug, Clone)]
pub struct MqttBridgeConfig {
    pub site: String,
    pub agent: String,
    pub broker_host: String,
    pub broker_port: u16,
    pub client_id: String,
    pub outbox_path: String,
    pub ticket_sequence_path: String,
    pub outbox_flush_batch: usize,
    /// Where the agent writes its proof of life for the supervisor. `None` disables it.
    pub heartbeat_path: Option<String>,
    pub outbox_max_messages: usize,
    pub outbox_active_key_id: String,
    pub outbox_prev_key_id: Option<String>,
    pub outbox_encryption_secret: Option<String>,
    pub outbox_hmac_secret: Option<String>,
    pub outbox_prev_encryption_secret: Option<String>,
    pub outbox_prev_hmac_secret: Option<String>,
    pub health_publish_interval_secs: u64,
    pub health_outbox_depth_warn: usize,
    pub health_outbox_oldest_secs_warn: u64,
    pub alert_degraded_streak: usize,
    pub alert_recovered_streak: usize,
    pub alert_dedup_window_secs: u64,
    pub config_hash: Option<String>,
    pub config_check_url: Option<String>,
    pub config_check_enroll_token: Option<String>,
    pub config_check_hmac_secret: Option<String>,
    pub config_check_key_id: Option<String>,
    pub config_cache_path: String,
    pub config_apply_receipt_path: String,
    pub config_check_interval_secs: u64,
    pub config_check_jitter_secs: u64,
    pub escpos_output_path: String,
    pub escpos_tcp_host: Option<String>,
    pub escpos_tcp_port: u16,
    pub escpos_windows_share: Option<String>,
    pub on_demand_tcp_host: Option<String>,
    pub on_demand_tcp_port: Option<u16>,
    pub on_demand_probe_enabled: bool,
    pub on_demand_probe_timeout_ms: u64,
    pub on_demand_probe_connection_id: Option<String>,
    pub on_demand_probe_device_id: Option<String>,
}

#[derive(Debug, Clone, Copy, PartialEq, Eq, Structural)]
/// Why the bridge stopped without an error.
pub enum MqttBridgeExit {
    RestartRequested,
}

/// `scada/{site}/edge/{agent}` followed by `suffix`.
pub open spec fn topic_spec(site: Seq<char>, agent: Seq<char>, suffix: Seq<char>) -> Seq<char> {
    "scada/"@ + site + "/edge/"@ + agent + suffix
}

impl MqttBridgeConfig {
    /// The topic of this edge with the given suffix.
    pub open spec fn topic_of(&self, suffix: Seq<char>) -> Seq<char> {
        topic_spec(self.site@, self.agent@, suffix)
    }

    fn topic(&self, suffix: &str) -> (r: String)
        ensures
            r@ == self.topic_of(suffix@),
    {
        let mut t = owned("scada/");
        append_str(&mut t, self.site.as_str());
        append_str(&mut t, "/edge/");
        append_str(&mut t, self.agent.as_str());
        append_str(&mut t, suffix);
        t
    }

    pub fn command_topic(&self) -> (r: String)
        ensures
            r@ == self.topic_of("/cmd/write"@),
    {
        self.topic("/cmd/write")
    }

    pub fn audit_topic(&self) -> (r: String)
        ensures
            r@ == self.topic_of("/audit/write"@),
    {
        self.topic("/audit/write")
    }

    pub fn ack_topic(&self) -> (r: String)
        ensures
            r@ == self.topic_of("/cmd/write/ack"@),
    {
        self.topic("/cmd/write/ack")
    }

    pub fn action_command_topic(&self) -> (r: String)
        ensures
            r@ == self.topic_of("/cmd/action"@),
    {
        self.topic("/cmd/action")
    }

    pub fn action_result_topic(&self) -> (r: String)
        ensures
            r@ == self.topic_of("/cmd/action/result"@),
    {
        self.topic("/cmd/action/result")
    }

    pub fn action_audit_topic(&self) -> (r: String)
        ensures
            r@ == self.topic_of("/audit/action"@),
    {
        self.topic("/audit/action")
    }

    pub fn health_topic(&self) -> (r: String)
        ensures
            r@ == self.topic_of("/health/runtime"@),
    {
        self.topic("/health/runtime")
    }

    pub fn alert_topic(&self) -> (r: String)
        ensures
            r@ == self.topic_of("/alerts/runtime"@),
    {
        self.topic("/alerts/runtime")
    }

    pub fn alert_ack_topic(&self) -> (r: String)
        ensures
            r@ == self.topic_of("/alerts/runtime/ack"@),
    {
        self.topic("/alerts/runtime/ack")
    }

    pub fn alert_ack_result_topic(&self) -> (r: String)
        ensures
            r@ == self.topic_of("/alerts/runtime/ack/result"@),
    {
        self.topic("/alerts/runtime/ack/result")
    }

    pub fn config_apply_topic(&self) -> (r: String)
        ensures
            r@ == self.topic_of("/config/apply"@),
    {
        self.topic("/config/apply")
    }

    pub fn config_apply_result_topic(&self) -> (r: String)
        ensures
            r@ == self.topic_of("/config/apply/result"@),
    {
        self.topic("/config/apply/result")
    }

    pub fn control_reset_topic(&self) -> (r: String)
        ensures
            r@ == self.topic_of("/control/reset"@),
    {
        self.topic("/control/reset")
    }

    pub fn control_reset_result_topic(&self) -> (r: String)
        ensures
            r@ == self.topic_of("/control/reset/result"@),
    {
        self.topic("/control/reset/result")
    }

    pub fn telemetry_tag_topic(&self, tag_id: &str) -> (r: String)
        ensures
            r@ == self.topic_of("/telemetry/tag/"@ + tag_id@),
    {
        let mut t = self.topic("/telemetry/tag/");
        append_str(&mut t, tag_id);
        assert(t@ =~= self.topic_of("/telemetry/tag/"@ + tag_id@));
        t
    }

    pub fn connection_state_topic(&self) -> (r: String)
        ensures
            r@ == self.topic_of("/conn/state"@),
    {
        self.topic("/conn/state")
    }

    pub fn device_connection_state_topic(&self) -> (r: String)
        ensures
            r@ == self.topic_of("/device/conn/state"@),
    {
        self.topic("/device/conn/state")
    }
}

proof fn lemma_topic_cancel(site: Seq<char>, agent: Seq<char>, a: Seq<char>, b: Seq<char>)
    requires
        topic_spec(site, agent, a) == topic_spec(site, agent, b),
    ensures
        a == b,
{
    let p = "scada/"@ + site + "/edge/"@ + agent;
    assert(topic_spec(site, agent, a) =~= p + a);
    assert(topic_spec(site, agent, b) =~= p + b);
    assert(a =~= (p + a).subrange(p.len() as int, (p + a).len() as int));
    assert(b =~= (p + b).subrange(p.len() as int, (p + b).len() as int));
}

/// The five inbound topics the bridge listens on are pairwise different for every site
/// and agent, so routing an incoming packet by its topic is unambiguous.
pub proof fn lemma_inbound_topics_distinct(site: Seq<char>, agent: Seq<char>)
    ensures
        ({
            let t = seq![
                topic_spec(site, agent, "/cmd/write"@),
                topic_spec(site, agent, "/cmd/action"@),
                topic_spec(site, agent, "/alerts/runtime/ack"@),
                topic_spec(site, agent, "/config/apply"@),
                topic_spec(site, agent, "/control/reset"@),
            ];
            forall|i: int, j: int| 0 <= i < j < 5 ==> t[i] != t[j]
        }),
{
    reveal_strlit("/cmd/write");
    reveal_strlit("/cmd/action");
    reveal_strlit("/alerts/runtime/ack");
    reveal_strlit("/config/apply");
    reveal_strlit("/control/reset");
    let s = seq!["/cmd/write"@, "/cmd/action"@, "/alerts/runtime/ack"@, "/config/apply"@, "/control/reset"@];
    assert forall|i: int, j: int| 0 <= i < j < 5 implies s[i] != s[j] by {
        if i == 0 && j == 1 {
            assert(s[0][5] != s[1][5]);
        } else if i == 0 && j == 2 {
            assert(s[0][1] != s[2][1]);
        } else if i == 0 && j == 3 {
            assert(s[0][2] != s[3][2]);
        } else if i == 0 && j == 4 {
            assert(s[0][2] != s[4][2]);
        } else if i == 1 && j == 2 {
            assert(s[1][1] != s[2][1]);
        } else if i == 1 && j == 3 {
            assert(s[1][2] != s[3][2]);
        } else if i == 1 && j == 4 {
            assert(s[1][2] != s[4][2]);
        } else if i == 2 && j == 3 {
            assert(s[2][1] != s[3][1]);
        } else if i == 2 && j == 4 {
            assert(s[2][1] != s[4][1]);
        } else {
            assert(s[3][4] != s[4][4]);
        }
    }
    let t = seq![
        topic_spec(site, agent, "/cmd/write"@),
        topic_spec(site, agent, "/cmd/action"@),
        topic_spec(site, agent, "/alerts/runtime/ack"@),
        topic_spec(site, agent, "/config/apply"@),
        topic_spec(site, agent, "/control/reset"@),
    ];
    assert forall|i: int, j: int| 0 <= i < j < 5 implies t[i] != t[j] by {
        if t[i] == t[j] {
            assert(t[i] == topic_spec(site, agent, s[i]));
            assert(t[j] == topic_spec(site, agent, s[j]));
            lemma_topic_cancel(site, agent, s[i], s[j]);
        }
    }
}

/// What a print or check payload says about its target printer.
#[derive(Debug, Clone)]
pub struct PrinterTargetFields {
    /// `printer.host`
    pub nested_host: Option<String>,
    /// `printer_host`
    pub printer_host: Option<String>,
    /// `host`
    pub host: Option<String>,
    /// `printer.port`
    pub nested_port: Option<u64>,
    /// `printer_port`
    pub printer_port: Option<u64>,
    /// `port`
    pub port: Option<u64>,
    /// `printer.share`
    pub nested_share: Option<String>,
    /// `printer.path`
    pub nested_path: Option<String>,
    /// `share`
    pub share: Option<String>,
    /// `unc`
    pub unc: Option<String>,
}

/// A port that fits in 16 bits.
pub open spec fn port_spec(p: Option<u64>) -> Option<u16> {
    match p {
        Some(v) => if v <= 65535 {
            Some(v as u16)
        } else {
            None
        },
        None => None,
    }
}

/// The first of five optional texts that is present and not blank, trimmed.
pub open spec fn first_nonblank5(
    a: Option<String>,
    b: Option<String>,
    c: Option<String>,
    d: Option<String>,
    e: Option<String>,
) -> Option<Seq<char>> {
    let v = seq![a, b, c, d, e];
    if nonblank(crate::text::opt_string_view(a)) is Some {
        nonblank(crate::text::opt_string_view(a))
    } else if nonblank(crate::text::opt_string_view(b)) is Some {
        nonblank(crate::text::opt_string_view(b))
    } else if nonblank(crate::text::opt_string_view(c)) is Some {
        nonblank(crate::text::opt_string_view(c))
    } else if nonblank(crate::text::opt_string_view(d)) is Some {
        nonblank(crate::text::opt_string_view(d))
    } else {
        nonblank(crate::text::opt_string_view(e))
    }
}

/// The TCP printer: the payload's host (`printer.host`, `printer_host`, `host`), else
/// the on-demand host, else the ESC/POS host; the first valid payload port, else the
/// on-demand port, else the ESC/POS port.
pub open spec fn tcp_target_spec(cfg: MqttBridgeConfig, f: PrinterTargetFields) -> (Option<Seq<char>>, u16) {
    let host = first_nonblank5(f.nested_host, f.printer_host, f.host, cfg.on_demand_tcp_host, cfg.escpos_tcp_host);
    let port = if port_spec(f.nested_port) is Some {
        port_spec(f.nested_port)->0
    } else if port_spec(f.printer_port) is Some {
        port_spec(f.printer_port)->0
    } else if port_spec(f.port) is Some {
        port_spec(f.port)->0
    } else {
        match cfg.on_demand_tcp_port {
            Some(p) => p,
            None => cfg.escpos_tcp_port,
        }
    };
    (host, port)
}

fn nonblank_string(o: &Option<String>) -> (r: Option<String>)
    ensures
        crate::text::opt_string_view(r) == nonblank(crate::text::opt_string_view(*o)),
{
    match o {
        Some(s) => {
            let v = chars_of(s.as_str());
            let t = trim_chars(&v);
            if t.len() > 0 {
                Some(string_of(&t))
            } else {
                None
            }
        },
        None => None,
    }
}

fn first_nonblank(
    a: &Option<String>,
    b: &Option<String>,
    c: &Option<String>,
    d: &Option<String>,
    e: &Option<String>,
) -> (r: Option<String>)
    ensures
        crate::text::opt_string_view(r) == first_nonblank5(*a, *b, *c, *d, *e),
{
    let x = nonblank_string(a);
    if x.is_some() {
        return x;
    }
    let x = nonblank_string(b);
    if x.is_some() {
        return x;
    }
    let x = nonblank_string(c);
    if x.is_some() {
        return x;
    }
    let x = nonblank_string(d);
    if x.is_some() {
        return x;
    }
    nonblank_string(e)
}

fn port_of(p: Option<u64>) -> (r: Option<u16>)
    ensures
        r == port_spec(p),
{
    match p {
        Some(v) => if v <= 65535 {
            Some(v as u16)
        } else {
            None
        },
        None => None,
    }
}

/// Where a TCP print or check goes.
pub fn resolve_tcp_target(cfg: &MqttBridgeConfig, f: &PrinterTargetFields) -> (r: (Option<String>, u16))
    ensures
        (crate::text::opt_string_view(r.0), r.1) == tcp_target_spec(*cfg, *f),
{
    let host = first_nonblank(&f.nested_host, &f.printer_host, &f.host, &cfg.on_demand_tcp_host, &cfg.escpos_tcp_host);
    let port: u16 = match port_of(f.nested_port) {
        Some(p) => p,
        None => match port_of(f.printer_port) {
            Some(p) => p,
            None => match port_of(f.port) {
                Some(p) => p,
                None => match cfg.on_demand_tcp_port {
                    Some(p) => p,
                    None => cfg.escpos_tcp_port,
                },
            },
        },
    };
    (host, port)
}

/// The Windows printer share: the payload's (`printer.share`, `printer.path`, `share`,
/// `unc`), else the configured one, normalised.
pub open spec fn share_target_spec(cfg: MqttBridgeConfig, f: PrinterTargetFields) -> Option<Seq<char>> {
    match first_nonblank5(f.nested_share, f.nested_path, f.share, f.unc, cfg.escpos_windows_share) {
        Some(s) => windows_share_spec(s),
        None => None,
    }
}

/// The port of a TCP job comes from the payload whenever it carries one that fits in 16
/// bits (`printer.port`, else `printer_port`, else `port`), whatever the configured
/// ports; only without one does the configured on-demand port, else the ESC/POS port,
/// apply.
pub proof fn lemma_payload_port_wins(cfg: MqttBridgeConfig, f: PrinterTargetFields)
    ensures
        ({
            let port = tcp_target_spec(cfg, f).1;
            let fits = |p: Option<u64>| p matches Some(v) && v <= 65535;
            &&& fits(f.nested_port) ==> port as u64 == f.nested_port->0
            &&& !fits(f.nested_port) && fits(f.printer_port) ==> port as u64 == f.printer_port->0
            &&& !fits(f.nested_port) && !fits(f.printer_port) && fits(f.port) ==> port as u64 == f.port->0
            &&& !fits(f.nested_port) && !fits(f.printer_port) && !fits(f.port) ==> port == (match cfg.on_demand_tcp_port {
                Some(p) => p,
                None => cfg.escpos_tcp_port,
            })
        }),
{
}

/// The host of a TCP job is the payload's (`printer.host`, else `printer_host`, else
/// `host`), trimmed, wherever one is not blank; only without one does the configured
/// on-demand host, else the ESC/POS host, apply.
pub proof fn lemma_payload_host_wins(cfg: MqttBridgeConfig, f: PrinterTargetFields)
    ensures
        ({
            let host = tcp_target_spec(cfg, f).0;
            let given = |o: Option<String>| o matches Some(h) && trim(h@).len() > 0;
            &&& given(f.nested_host) ==> host == Some(trim(f.nested_host->0@))
            &&& !given(f.nested_host) && given(f.printer_host) ==> host == Some(trim(f.printer_host->0@))
            &&& !given(f.nested_host) && !given(f.printer_host) && given(f.host) ==> host == Some(
                trim(f.host->0@),
            )
            &&& !given(f.nested_host) && !given(f.printer_host) && !given(f.host) && given(cfg.on_demand_tcp_host)
                ==> host == Some(trim(cfg.on_demand_tcp_host->0@))
            &&& !given(f.nested_host) && !given(f.printer_host) && !given(f.host) && !given(
                cfg.on_demand_tcp_host,
            ) && given(cfg.escpos_tcp_host) ==> host == Some(trim(cfg.escpos_tcp_host->0@))
            &&& !given(f.nested_host) && !given(f.printer_host) && !given(f.host) && !given(
                cfg.on_demand_tcp_host,
            ) && !given(cfg.escpos_tcp_host) ==> host is None
        }),
{
}

/// Where a print to a Windows share goes.
pub fn resolve_windows_share_target(cfg: &MqttBridgeConfig, f: &PrinterTargetFields) -> (r: Option<String>)
    ensures
        crate::text::opt_string_view(r) == share_target_spec(*cfg, *f),
{
    match first_nonblank(&f.nested_share, &f.nested_path, &f.share, &f.unc, &cfg.escpos_windows_share) {
        Some(s) => normalize_windows_share(s.as_str()),
        None => None,
    }
}

/// How an ESC/POS job is framed.
#[derive(Debug, Clone, Copy, PartialEq, Eq, Structural)]
pub struct EscposFraming {
    pub cut: bool,
    pub leading_feed_lines: u8,
    pub trailing_feed_lines: u8,
}

/// A feed count from the payload, at most ten.
pub open spec fn feed_spec(nested: Option<u64>, root: Option<u64>, default: u8) -> u8 {
    let v = match nested {
        Some(n) => Some(n),
        None => root,
    };
    match v {
        Some(n) => if n < 10 {
            n as u8
        } else {
            10
        },
        None => default,
    }
}

/// The framing a payload asks for (`printer.*` first, then the root): cut unless told
/// not to, no leading feed and one trailing feed unless told otherwise, feeds capped at
/// ten.
pub fn escpos_framing(
    nested_cut: Option<bool>,
    root_cut: Option<bool>,
    nested_leading: Option<u64>,
    root_leading: Option<u64>,
    nested_trailing: Option<u64>,
    root_trailing: Option<u64>,
) -> (r: EscposFraming)
    ensures
        r.cut == (match nested_cut {
            Some(c) => c,
            None => match root_cut {
                Some(c) => c,
                None => true,
            },
        }),
        r.leading_feed_lines == feed_spec(nested_leading, root_leading, 0),
        r.trailing_feed_lines == feed_spec(nested_trailing, root_trailing, 1),
{
    let cut = match nested_cut {
        Some(c) => c,
        None => match root_cut {
            Some(c) => c,
            None => true,
        },
    };
    let lead = match nested_leading {
        Some(n) => Some(n),
        None => root_leading,
    };
    let trail = match nested_trailing {
        Some(n) => Some(n),
        None => root_trailing,
    };
    let leading_feed_lines: u8 = match lead {
        Some(n) => if n < 10 { n as u8 } else { 10 },
        None => 0,
    };
    let trailing_feed_lines: u8 = match trail {
        Some(n) => if n < 10 { n as u8 } else { 10 },
        None => 1,
    };
    EscposFraming { cut, leading_feed_lines, trailing_feed_lines }
}

/// Whether the runtime environment is production: the environment's name, `dev` when
/// unset, is `prod` in any ASCII case.
pub open spec fn is_prod_spec(env: Option<Seq<char>>) -> bool {
    crate::text::eq_ignore_case(
        match env {
            Some(e) => e,
            None => "dev"@,
        },
        "prod"@,
    )
}

/// Whether the runtime environment is production.
pub fn runtime_is_prod(env: Option<&str>) -> (r: bool)
    ensures
        r == is_prod_spec(crate::text::opt_view(env)),
{
    let name = match env {
        Some(e) => e,
        None => "dev",
    };
    let v = chars_of(name);
    crate::text::eq_ignore_case_str(&v, "prod")
}

/// How the broker connection is secured.
#[derive(Debug, Clone)]
pub enum TlsPlan {
    /// No TLS.
    Plain,
    /// TLS trusting the certificate authority in this file.
    CaFile(String),
    /// TLS trusting the platform's default roots.
    DefaultRoots,
}

/// The credentials and the transport security of the broker connection.
#[derive(Debug, Clone)]
pub struct MqttSecurityPlan {
    pub credentials: Option<(String, String)>,
    pub tls: TlsPlan,
}

/// Whether a TLS switch is on: `true` in any ASCII case, or `1`.
pub open spec fn tls_flag_spec(v: Option<Seq<char>>) -> bool {
    v matches Some(s) && (crate::text::eq_ignore_case(s, "true"@) || s == "1"@)
}

/// The broker connection's security from its settings: credentials where a non-blank
/// user name is set (the password empty when unset); TLS where switched on, with the
/// given certificate authority file where a non-blank path is set. In production both
/// credentials and TLS are required.
pub fn mqtt_security_plan(
    runtime_env: Option<&str>,
    username: Option<String>,
    password: Option<String>,
    tls_enabled: Option<&str>,
    ca_path: Option<String>,
) -> (r: Result<MqttSecurityPlan, String>)
    ensures
        ({
            let prod = is_prod_spec(crate::text::opt_view(runtime_env));
            let has_user = nonblank(crate::text::opt_string_view(username)) is Some;
            let tls = tls_flag_spec(crate::text::opt_view(tls_enabled));
            &&& (prod && !has_user) ==> (r matches Err(e) && e@ == "MQTT_USERNAME and MQTT_PASSWORD are required in prod"@)
            &&& (prod && has_user && !tls) ==> (r matches Err(e) && e@
                == "MQTT_TLS_ENABLED must be true in prod (mqtts without fallback)"@)
            &&& (!prod || (has_user && tls)) ==> r is Ok
            &&& r matches Ok(plan) ==> {
                &&& (plan.credentials is Some <==> has_user)
                &&& (plan.credentials matches Some((u, p)) ==> Some(u@) == crate::text::opt_string_view(username)
                    && p@ == (match password {
                    Some(pw) => pw@,
                    None => Seq::<char>::empty(),
                }))
                &&& (!tls ==> plan.tls is Plain)
                &&& (tls ==> match nonblank(crate::text::opt_string_view(ca_path)) {
                    Some(_) => plan.tls matches TlsPlan::CaFile(f) && Some(f@) == crate::text::opt_string_view(ca_path),
                    None => plan.tls is DefaultRoots,
                })
            }
        }),
        r matches Ok(plan) ==> (is_prod_spec(crate::text::opt_view(runtime_env)) ==> plan.credentials is Some
            && !(plan.tls is Plain)),
{
    let prod = runtime_is_prod(runtime_env);
    let credentials = match username {
        Some(u) => {
            let v = chars_of(u.as_str());
            let t = trim_chars(&v);
            if t.len() > 0 {
                let p = match password {
                    Some(p) => p,
                    None => String::new(),
                };
                Some((u, p))
            } else {
                None
            }
        },
        None => None,
    };
    if prod && credentials.is_none() {
        return Err(owned("MQTT_USERNAME and MQTT_PASSWORD are required in prod"));
    }
    let tls = match tls_enabled {
        Some(v) => {
            let c = chars_of(v);
            crate::text::eq_ignore_case_str(&c, "true") || chars_eq_str(&c, "1")
        },
        None => false,
    };
    if prod && !tls {
        return Err(owned("MQTT_TLS_ENABLED must be true in prod (mqtts without fallback)"));
    }
    if !tls {
        return Ok(MqttSecurityPlan { credentials, tls: TlsPlan::Plain });
    }
    let plan = match ca_path {
        Some(path) => {
            let v = chars_of(path.as_str());
            let t = trim_chars(&v);
            if t.len() > 0 {
                TlsPlan::CaFile(path)
            } else {
                TlsPlan::DefaultRoots
            }
        },
        None => TlsPlan::DefaultRoots,
    };
    Ok(MqttSecurityPlan { credentials, tls: plan })
}

} // verus!
