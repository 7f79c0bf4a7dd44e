//! Bootstrap configuration rules: tag value types and update modes named in the
//! configuration, and the checks a signed runtime configuration must pass.

use vstd::prelude::*;
use vstd::utf8::encode_utf8;
use crate::text::{append_chars, append_str, chars_eq, chars_eq_str, chars_of, dec, lower_chars, lower_seq, owned, trim, trim_lower};
use crate::domain::tag::entity::{TagUpdateMode, TagValueType};
use crate::agent::crypto::{hmac_sha256_spec, hmac_sha256_verify, sha256_digest, sha256_spec};
use crate::agent::hex::{from_hex, from_hex_spec, hex_spec, to_hex};
use crate::domain::connection::{Connection, ReconnectStrategy, ReconnectionPolicy};
use crate::domain::driver::DriverType;
use crate::domain::id::{ConnectionId, DeviceId, Id, TagType};
use crate::domain::tag::entity::Tag;
use crate::keyed::StrMap;

verus! {

/// The value type a configuration name denotes, ASCII case and surrounding white space
/// ignored.
pub open spec fn value_type_spec(s: Seq<char>) -> Option<TagValueType> {
    let m = lower_seq(trim(s));
    if m == "float"@ {
        Some(TagValueType::Float)
    } else if m == "integer"@ || m == "int"@ {
        Some(TagValueType::Integer)
    } else if m == "bool"@ || m == "boolean"@ {
        Some(TagValueType::Boolean)
    } else if m == "string"@ || m == "str"@ {
        Some(TagValueType::String)
    } else {
        None
    }
}

/// Reads a tag value type name; an unknown name is an error naming it.
pub fn parse_value_type(input: &str) -> (r: Result<TagValueType, String>)
    ensures
        r is Ok <==> value_type_spec(input@) is Some,
        r is Ok ==> r->Ok_0 == value_type_spec(input@)->0,
        r is Err ==> r->Err_0@ == "unsupported tag value_type '"@ + lower_seq(trim(input@)) + "'"@,
{
    let m = trim_lower(input);
    if chars_eq_str(&m, "float") {
        Ok(TagValueType::Float)
    } else if chars_eq_str(&m, "integer") || chars_eq_str(&m, "int") {
        Ok(TagValueType::Integer)
    } else if chars_eq_str(&m, "bool") || chars_eq_str(&m, "boolean") {
        Ok(TagValueType::Boolean)
    } else if chars_eq_str(&m, "string") || chars_eq_str(&m, "str") {
        Ok(TagValueType::String)
    } else {
        let mut e = owned("unsupported tag value_type '");
        append_chars(&mut e, &m);
        append_str(&mut e, "'");
        Err(e)
    }
}

/// The update mode a configuration names: `polling` when none is named, the interval
/// defaulting to one second.
pub open spec fn update_mode_spec(mode: Option<Seq<char>>, interval: Option<u64>) -> Option<TagUpdateMode> {
    let m = lower_seq(trim(
        match mode {
            Some(s) => s,
            None => "polling"@,
        },
    ));
    let i = match interval {
        Some(v) => v,
        None => 1000,
    };
    if m == "polling"@ {
        Some(TagUpdateMode::Polling { interval_ms: i })
    } else if m == "on_change"@ || m == "onchange"@ {
        Some(TagUpdateMode::OnChange)
    } else if m == "on_message"@ || m == "onmessage"@ {
        Some(TagUpdateMode::OnMessage)
    } else if m == "polling_on_change"@ || m == "pollingonchange"@ {
        Some(TagUpdateMode::PollingOnChange { interval_ms: i })
    } else {
        None
    }
}

/// Reads a tag update mode; an unknown name is an error naming it.
pub fn parse_update_mode(mode: Option<&str>, interval_ms: Option<u64>) -> (r: Result<TagUpdateMode, String>)
    ensures
        r is Ok <==> update_mode_spec(crate::text::opt_view(mode), interval_ms) is Some,
        r is Ok ==> r->Ok_0 == update_mode_spec(crate::text::opt_view(mode), interval_ms)->0,
        r is Err ==> r->Err_0@ == "unsupported update_mode '"@ + lower_seq(trim(
            match mode {
                Some(s) => s@,
                None => "polling"@,
            },
        )) + "'"@,
{
    let name = match mode {
        Some(s) => s,
        None => "polling",
    };
    let m = trim_lower(name);
    let interval: u64 = match interval_ms {
        Some(v) => v,
        None => 1000,
    };
    if chars_eq_str(&m, "polling") {
        Ok(TagUpdateMode::Polling { interval_ms: interval })
    } else if chars_eq_str(&m, "on_change") || chars_eq_str(&m, "onchange") {
        Ok(TagUpdateMode::OnChange)
    } else if chars_eq_str(&m, "on_message") || chars_eq_str(&m, "onmessage") {
        Ok(TagUpdateMode::OnMessage)
    } else if chars_eq_str(&m, "polling_on_change") || chars_eq_str(&m, "pollingonchange") {
        Ok(TagUpdateMode::PollingOnChange { interval_ms: interval })
    } else {
        let mut e = owned("unsupported update_mode '");
        append_chars(&mut e, &m);
        append_str(&mut e, "'");
        Err(e)
    }
}

/// A runtime configuration signed by central. `issued_at_ms` is in epoch milliseconds.
#[derive(Debug, Clone)]
pub struct SignedRuntimeConfigEnvelope {
    pub edge_id: String,
    pub issued_at_ms: i64,
    pub algorithm: String,
    pub key_id: String,
    pub payload_json: String,
    pub config_hash: String,
    pub signature_hex: String,
}

/// How far in the future, in milliseconds, a configuration may claim to be issued.
pub const MAX_ISSUE_SKEW_MS: i64 = 600_000;

/// The checks, in order: the edge, the algorithm (`hmac-sha256`, ASCII case ignored),
/// the key when one is expected, the issue time, the SHA-256 of the payload against the
/// declared hash (case ignored), the signature's hex, and the HMAC-SHA256 under the
/// signing secret of the payload's digest. The first check that fails decides the error.
pub open spec fn verify_envelope_spec(
    env: SignedRuntimeConfigEnvelope,
    expected_edge_id: Seq<char>,
    signing_secret: Seq<char>,
    expected_key_id: Option<Seq<char>>,
    now_ms: i64,
) -> Result<(), Seq<char>> {
    let digest = sha256_spec(encode_utf8(env.payload_json@));
    if env.edge_id@ != expected_edge_id {
        Err(
            "signed config edge_id mismatch: expected '"@ + expected_edge_id + "' got '"@ + env.edge_id@
                + "'"@,
        )
    } else if lower_seq(env.algorithm@) != "hmac-sha256"@ {
        Err("unsupported signed config algorithm '"@ + env.algorithm@ + "'"@)
    } else if expected_key_id is Some && env.key_id@ != expected_key_id->0 {
        Err(
            "signed config key_id mismatch: expected '"@ + expected_key_id->0 + "' got '"@
                + env.key_id@ + "'"@,
        )
    } else if env.issued_at_ms > now_ms + MAX_ISSUE_SKEW_MS {
        Err("signed config issued_at is too far in the future"@)
    } else if hex_spec(digest) != lower_seq(env.config_hash@) {
        Err("signed config hash mismatch"@)
    } else if from_hex_spec(env.signature_hex@) is Err {
        Err(from_hex_spec(env.signature_hex@)->Err_0)
    } else if from_hex_spec(env.signature_hex@)->Ok_0 != hmac_sha256_spec(
        encode_utf8(signing_secret),
        digest,
    ) {
        Err("signed config signature verification failed"@)
    } else {
        Ok(())
    }
}

/// Checks a signed runtime configuration against the edge it is for, the signing secret,
/// the expected key and the current time.
pub fn verify_envelope(
    env: &SignedRuntimeConfigEnvelope,
    expected_edge_id: &str,
    signing_secret: &str,
    expected_key_id: Option<&str>,
    now_ms: i64,
) -> (r: Result<(), String>)
    ensures
        r is Ok <==> verify_envelope_spec(*env, expected_edge_id@, signing_secret@, crate::text::opt_view(expected_key_id), now_ms) is Ok,
        r is Err ==> r->Err_0@ == verify_envelope_spec(*env, expected_edge_id@, signing_secret@, crate::text::opt_view(expected_key_id), now_ms)->Err_0,
{
    let edge = chars_of(env.edge_id.as_str());
    if !chars_eq_str(&edge, expected_edge_id) {
        let mut e = owned("signed config edge_id mismatch: expected '");
        append_str(&mut e, expected_edge_id);
        append_str(&mut e, "' got '");
        append_str(&mut e, env.edge_id.as_str());
        append_str(&mut e, "'");
        return Err(e);
    }
    let alg = chars_of(env.algorithm.as_str());
    let alg_lower = lower_chars(&alg);
    if !chars_eq_str(&alg_lower, "hmac-sha256") {
        let mut e = owned("unsupported signed config algorithm '");
        append_str(&mut e, env.algorithm.as_str());
        append_str(&mut e, "'");
        return Err(e);
    }
    if let Some(k) = expected_key_id {
        let key = chars_of(env.key_id.as_str());
        if !chars_eq_str(&key, k) {
            let mut e = owned("signed config key_id mismatch: expected '");
            append_str(&mut e, k);
            append_str(&mut e, "' got '");
            append_str(&mut e, env.key_id.as_str());
            append_str(&mut e, "'");
            return Err(e);
        }
    }
    if (env.issued_at_ms as i128) > (now_ms as i128) + (MAX_ISSUE_SKEW_MS as i128) {
        return Err(owned("signed config issued_at is too far in the future"));
    }
    let digest = sha256_digest(env.payload_json.as_str().as_bytes());
    let config_hash = to_hex(digest.as_slice());
    let computed = chars_of(config_hash.as_str());
    let declared = chars_of(env.config_hash.as_str());
    let declared_lower = lower_chars(&declared);
    if !chars_eq(&computed, &declared_lower) {
        return Err(owned("signed config hash mismatch"));
    }
    let sig = match from_hex(env.signature_hex.as_str()) {
        Ok(s) => s,
        Err(e) => return Err(e),
    };
    if !hmac_sha256_verify(signing_secret.as_bytes(), digest.as_slice(), sig.as_slice()) {
        return Err(owned("signed config signature verification failed"));
    }
    Ok(())
}

/// An envelope whose payload hash and signature were computed the way central computes
/// them, for this edge, with an algorithm name and key that match and an issue time not
/// too far ahead, is accepted.
pub proof fn lemma_well_signed_envelope_accepted(
    env: SignedRuntimeConfigEnvelope,
    secret: Seq<char>,
    now_ms: i64,
)
    requires
        lower_seq(env.algorithm@) == "hmac-sha256"@,
        env.issued_at_ms <= now_ms + MAX_ISSUE_SKEW_MS,
        env.config_hash@ == hex_spec(sha256_spec(encode_utf8(env.payload_json@))),
        env.signature_hex@ == hex_spec(
            hmac_sha256_spec(encode_utf8(secret), sha256_spec(encode_utf8(env.payload_json@))),
        ),
    ensures
        verify_envelope_spec(env, env.edge_id@, secret, Some(env.key_id@), now_ms) is Ok,
{
    let d = sha256_spec(encode_utf8(env.payload_json@));
    crate::agent::hex::lemma_hex_lower_invariant(d);
    crate::agent::hex::lemma_hex_roundtrip(hmac_sha256_spec(encode_utf8(secret), d));
}

/// Any change of the payload that changes its SHA-256 digest is rejected as a hash
/// mismatch, whatever the signature says.
pub proof fn lemma_tampered_payload_rejected(
    env: SignedRuntimeConfigEnvelope,
    tampered: SignedRuntimeConfigEnvelope,
    secret: Seq<char>,
    now_ms: i64,
)
    requires
        lower_seq(env.algorithm@) == "hmac-sha256"@,
        env.issued_at_ms <= now_ms + MAX_ISSUE_SKEW_MS,
        env.config_hash@ == hex_spec(sha256_spec(encode_utf8(env.payload_json@))),
        tampered == (SignedRuntimeConfigEnvelope { payload_json: tampered.payload_json, ..env }),
        sha256_spec(encode_utf8(tampered.payload_json@)) != sha256_spec(encode_utf8(env.payload_json@)),
    ensures
        verify_envelope_spec(tampered, env.edge_id@, secret, Some(env.key_id@), now_ms) == Err::<(), Seq<char>>(
            "signed config hash mismatch"@,
        ),
{
    let d = sha256_spec(encode_utf8(env.payload_json@));
    let d2 = sha256_spec(encode_utf8(tampered.payload_json@));
    crate::agent::hex::lemma_hex_lower_invariant(d);
    crate::agent::hex::lemma_hex_injective(d, d2);
}

/// A tag as the bootstrap configuration describes it. `metadata_object` is the tag's
/// `metadata_json` where that is a JSON object.
#[derive(Debug)]
pub struct BootstrapTag {
    pub id: String,
    pub name: String,
    pub device_id: String,
    pub source: String,
    pub enabled: Option<bool>,
    pub value_type: Option<String>,
    pub update_mode: Option<String>,
    pub interval_ms: Option<u64>,
    pub metadata_object: Option<serde_json::Value>,
}

/// The entry a protocol driver finds for a tag in its transport's `tag_map`.
#[derive(Debug, Clone, PartialEq, Eq)]
pub enum TagMapEntry {
    /// The tag's source, for Modbus TCP and serial ASCII.
    Source(String),
    /// The tag's source, its device, and the Modbus unit of the device where the
    /// transport's `device_unit_map` gives one that fits in a byte, for Modbus RTU.
    Modbus { source: String, device_id: String, unit_id: Option<u8> },
}

/// Whether a driver reads its tags through a `tag_map` in its transport.
pub open spec fn uses_tag_map(driver: Seq<char>) -> bool {
    let d = lower_seq(driver);
    d == "modbusrtu"@ || d == "modbustcp"@ || d == "serialascii"@
}

/// The Modbus unit of a device in a transport's `device_unit_map`.
pub open spec fn unit_spec(units: Map<Seq<char>, u64>, device_id: Seq<char>) -> Option<u8> {
    if units.contains_key(device_id) && units[device_id] <= 255 {
        Some(units[device_id] as u8)
    } else {
        None
    }
}

/// The `tag_map` entry of a tag.
pub open spec fn tag_map_entry_spec(
    modbus_rtu: bool,
    units: Map<Seq<char>, u64>,
    tag: BootstrapTag,
    entry: TagMapEntry,
) -> bool {
    if modbus_rtu {
        entry matches TagMapEntry::Modbus { source, device_id, unit_id } && source@ == tag.source@
            && device_id@ == tag.device_id@ && unit_id == unit_spec(units, tag.device_id@)
    } else {
        entry matches TagMapEntry::Source(src) && src@ == tag.source@
    }
}

/// The `tag_map` to add to a connection's transport, entry by entry in the order of the
/// tags: none for a driver without one or a transport that already has one; for Modbus
/// RTU each tag's source, device and unit, else each tag's source.
pub fn plan_tag_map(
    driver: &DriverType,
    has_tag_map: bool,
    tags: &Vec<BootstrapTag>,
    device_unit_map: &StrMap<u64>,
) -> (r: Option<Vec<(String, TagMapEntry)>>)
    requires
        device_unit_map.wf(),
    ensures
        r is Some <==> uses_tag_map(driver@) && !has_tag_map,
        r matches Some(v) ==> v@.len() == tags@.len() && forall|i: int|
            0 <= i < v@.len() ==> (#[trigger] v@[i]).0@ == tags@[i].id@ && tag_map_entry_spec(
                lower_seq(driver@) == "modbusrtu"@,
                device_unit_map@,
                tags@[i],
                v@[i].1,
            ),
{
    let d = lower_chars(&chars_of(driver.as_str()));
    let rtu = chars_eq_str(&d, "modbusrtu");
    if !(rtu || chars_eq_str(&d, "modbustcp") || chars_eq_str(&d, "serialascii")) {
        return None;
    }
    if has_tag_map {
        return None;
    }
    let mut out: Vec<(String, TagMapEntry)> = Vec::new();
    let mut i: usize = 0;
    while i < tags.len()
        invariant
            device_unit_map.wf(),
            i <= tags@.len(),
            out@.len() == i,
            rtu == (lower_seq(driver@) == "modbusrtu"@),
            forall|j: int|
                0 <= j < i ==> (#[trigger] out@[j]).0@ == tags@[j].id@ && tag_map_entry_spec(
                    rtu,
                    device_unit_map@,
                    tags@[j],
                    out@[j].1,
                ),
        decreases tags@.len() - i,
    {
        let t = &tags[i];
        let entry = if rtu {
            let unit_id: Option<u8> = match device_unit_map.get(t.device_id.as_str()) {
                Some(u) => if *u <= 255 {
                    Some(*u as u8)
                } else {
                    None
                },
                None => None,
            };
            TagMapEntry::Modbus { source: t.source.clone(), device_id: t.device_id.clone(), unit_id }
        } else {
            TagMapEntry::Source(t.source.clone())
        };
        out.push((t.id.clone(), entry));
        i = i + 1;
    }
    Some(out)
}

/// The runtime tag a bootstrap tag describes: an enabled float tag polled every second
/// unless the configuration names another value type, enables or disables it, or names
/// an update mode; its metadata where the configuration gives an object. An unknown
/// value type or update mode is an error naming it.
pub fn bootstrap_tag(t: BootstrapTag) -> (r: Result<Tag, String>)
    ensures
        r is Ok <==> (match t.value_type {
            Some(v) => value_type_spec(v@) is Some,
            None => true,
        }) && update_mode_spec(crate::text::opt_string_view(t.update_mode), t.interval_ms) is Some,
        r matches Ok(tag) ==> {
            &&& tag.id@ == t.id@
            &&& tag.name == t.name
            &&& tag.device_id@ == t.device_id@
            &&& tag.source == t.source
            &&& tag.enabled == (match t.enabled {
                Some(e) => e,
                None => true,
            })
            &&& tag.value_type == (match t.value_type {
                Some(v) => value_type_spec(v@)->0,
                None => TagValueType::Float,
            })
            &&& tag.update_mode == update_mode_spec(crate::text::opt_string_view(t.update_mode), t.interval_ms)->0
        },
        r matches Err(e) ==> (match t.value_type {
            Some(v) => value_type_spec(v@) is None && e@ == "unsupported tag value_type '"@ + lower_seq(trim(v@))
                + "'"@,
            None => false,
        }) || ((match t.value_type {
            Some(v) => value_type_spec(v@) is Some,
            None => true,
        }) && update_mode_spec(crate::text::opt_string_view(t.update_mode), t.interval_ms) is None),
{
    let mut tag = Tag::new(Id::<TagType>::new(t.id.as_str()), t.name, DeviceId::new(t.device_id.as_str()), t.source);
    if let Some(vt) = &t.value_type {
        match parse_value_type(vt.as_str()) {
            Ok(v) => tag.value_type = v,
            Err(e) => return Err(e),
        }
    }
    if let Some(enabled) = t.enabled {
        tag.enabled = enabled;
    }
    let mode: Option<&str> = match &t.update_mode {
        Some(m) => Some(m.as_str()),
        None => None,
    };
    match parse_update_mode(mode, t.interval_ms) {
        Ok(m) => tag.update_mode = m,
        Err(e) => return Err(e),
    }
    if let Some(meta) = t.metadata_object {
        tag.metadata = meta;
    }
    Ok(tag)
}

/// The runtime connection a bootstrap connection describes: the driver's defaults,
/// with the configured timeout, and with a fixed retry delay (one second unless given)
/// and retry limit where either is configured.
pub fn bootstrap_connection(
    id: &str,
    name: String,
    driver_type: DriverType,
    transport: serde_json::Value,
    timeout_ms: Option<u64>,
    reconnect_delay_ms: Option<u64>,
    max_retries: Option<u32>,
) -> (r: Connection)
    ensures
        r.id@ == id@,
        r.name == name,
        r.enabled,
        r.config.driver_type == driver_type,
        r.config.transport == transport,
        r.timeout_ms == (match timeout_ms {
            Some(t) => t,
            None => 5000,
        }),
        r.reconnection == (if reconnect_delay_ms is Some || max_retries is Some {
            ReconnectionPolicy {
                strategy: ReconnectStrategy::Fixed {
                    delay_ms: match reconnect_delay_ms {
                        Some(d) => d,
                        None => 1000,
                    },
                },
                max_retries,
            }
        } else {
            ReconnectionPolicy { strategy: ReconnectStrategy::Fixed { delay_ms: 1000 }, max_retries: None }
        }),
{
    let mut conn = Connection::new(ConnectionId::new(id), name, driver_type, transport);
    if let Some(t) = timeout_ms {
        conn.timeout_ms = t;
    }
    if reconnect_delay_ms.is_some() || max_retries.is_some() {
        let delay_ms = match reconnect_delay_ms {
            Some(d) => d,
            None => 1000,
        };
        conn.reconnection = ReconnectionPolicy { strategy: ReconnectStrategy::Fixed { delay_ms }, max_retries };
    }
    conn
}

/// The error of a connection whose driver type is blank.
pub fn invalid_driver_type_message(driver_type: &str, connection_id: &str) -> (r: String)
    ensures
        r@ == "invalid driver_type '"@ + driver_type@ + "' for connection '"@ + connection_id@ + "'"@,
{
    let mut e = owned("invalid driver_type '");
    append_str(&mut e, driver_type);
    append_str(&mut e, "' for connection '");
    append_str(&mut e, connection_id);
    append_str(&mut e, "'");
    e
}

/// The configuration endpoints of central: `<base>/api/edge/config/check` and
/// `<base>/api/edge/config/runtime`, trailing slashes of the base removed.
pub open spec fn config_urls_spec(base: Seq<char>) -> (Seq<char>, Seq<char>) {
    let b = crate::text::strip_trailing_slashes(base);
    (b + "/api/edge/config/check"@, b + "/api/edge/config/runtime"@)
}

/// The configuration endpoints of central.
pub fn config_urls(base_url: &str) -> (r: (String, String))
    ensures
        (r.0@, r.1@) == config_urls_spec(base_url@),
{
    let v = chars_of(base_url);
    let b = crate::text::strip_slashes(&v);
    let mut check = crate::text::string_of(&b);
    let mut runtime = crate::text::string_of(&b);
    append_str(&mut check, "/api/edge/config/check");
    append_str(&mut runtime, "/api/edge/config/runtime");
    (check, runtime)
}

/// What central answered to a configuration check.
#[derive(Debug, Clone)]
pub struct EdgeConfigCheckResponse {
    pub accepted: bool,
    pub config_changed: bool,
    pub target_config_hash: String,
    pub poll_after_secs: u64,
}

/// Whether to fetch the runtime configuration after a check: an error where central
/// answered with a failure status or refused the edge; a fetch only where the
/// configuration changed.
pub fn check_response_decision(status_success: bool, status: u16, response: Option<&EdgeConfigCheckResponse>) -> (r:
    Result<bool, String>)
    requires
        status_success ==> response is Some,
    ensures
        !status_success ==> (r matches Err(e) && e@ == "config check failed with status "@ + dec(status as nat)),
        status_success ==> match response {
            Some(c) => if !c.accepted {
                r matches Err(e) && e@ == "config check rejected by central"@
            } else {
                r == Ok::<bool, String>(c.config_changed)
            },
            None => false,
        },
{
    if !status_success {
        let mut e = owned("config check failed with status ");
        let d = crate::text::dec_chars(status as u64);
        append_chars(&mut e, &d);
        return Err(e);
    }
    match response {
        Some(c) => if !c.accepted {
            Err(owned("config check rejected by central"))
        } else {
            Ok(c.config_changed)
        },
        None => Err(owned("config check rejected by central")),
    }
}

/// Whether a fetched envelope is the one the check announced: its hash equals the
/// announced one, ASCII case ignored.
pub fn envelope_matches_check(envelope_hash: &str, target_config_hash: &str) -> (r: Result<(), String>)
    ensures
        r is Ok <==> crate::text::eq_ignore_case(envelope_hash@, target_config_hash@),
        r matches Err(e) ==> e@ == "runtime config hash mismatch between check and envelope"@,
{
    let v = chars_of(envelope_hash);
    if crate::text::eq_ignore_case_str(&v, target_config_hash) {
        Ok(())
    } else {
        Err(owned("runtime config hash mismatch between check and envelope"))
    }
}

/// How the fetch of central's configuration ended.
#[derive(Debug, Clone, Copy, PartialEq, Eq, Structural)]
pub enum FetchOutcome {
    /// A changed configuration was fetched.
    Changed,
    /// Central's configuration is unchanged.
    Unchanged,
    /// The check or the fetch failed.
    Failed,
}

/// Which configuration the agent starts from.
#[derive(Debug, Clone, Copy, PartialEq, Eq, Structural)]
pub enum RuntimeSource {
    /// The configuration just fetched from central.
    Remote,
    /// The verified local cache.
    Cache,
    /// Neither: the agent falls back to its other configuration.
    Nothing,
}

/// Which configuration the agent starts from: a fetched change, else the verified
/// cache where there is one.
pub fn choose_runtime_source(outcome: FetchOutcome, has_verified_cache: bool) -> (r: RuntimeSource)
    ensures
        r == (match outcome {
            FetchOutcome::Changed => RuntimeSource::Remote,
            _ => if has_verified_cache {
                RuntimeSource::Cache
            } else {
                RuntimeSource::Nothing
            },
        }),
{
    match outcome {
        FetchOutcome::Changed => RuntimeSource::Remote,
        _ => if has_verified_cache {
            RuntimeSource::Cache
        } else {
            RuntimeSource::Nothing
        },
    }
}

/// The configuration hash a cache reports: its hash, unless blank.
pub fn cached_config_hash(config_hash: String) -> (r: Option<String>)
    ensures
        r is Some <==> trim(config_hash@).len() > 0,
        r matches Some(h) ==> h == config_hash,
{
    let v = chars_of(config_hash.as_str());
    let t = crate::text::trim_chars(&v);
    if t.len() == 0 {
        None
    } else {
        Some(config_hash)
    }
}

} // verus!
