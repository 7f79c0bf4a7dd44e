//! The durable MQTT outbox's rules: which stored message a full outbox gives up, how a
//! message is sealed (AES-256-GCM) and signed (HMAC-SHA256) before it is stored, and how
//! a stored row is checked and opened again with the key it was written under.
//!
//! The rows themselves live in a database that the caller owns; this module decides
//! what goes into a row and what comes out of one.

use vstd::prelude::*;
use vstd::utf8::encode_utf8;
use crate::agent::crypto::{
    aes256gcm_open, aes256gcm_open_spec, aes256gcm_seal, aes256gcm_seal_spec, aes_gcm_max_plaintext,
    hmac_sha256, hmac_sha256_spec, hmac_sha256_verify, random_nonce, sha256_digest, sha256_spec,
};
use crate::text::{chars_eq, chars_eq_str, chars_of, opt_string_view, opt_view, owned};

verus! {

/// The two channels whose messages the outbox keeps. Acknowledgements outrank audit
/// messages when the outbox is full.
#[derive(Debug, Clone, Copy, PartialEq, Eq, Structural)]
pub enum OutboxMessageKind {
    Ack,
    Audit,
}

impl OutboxMessageKind {
    /// The label stored in the outbox's `kind` column.
    pub open spec fn label(self) -> Seq<char> {
        match self {
            OutboxMessageKind::Ack => "ack"@,
            OutboxMessageKind::Audit => "audit"@,
        }
    }

    /// The label stored in the outbox's `kind` column.
    pub fn as_str(self) -> (r: &'static str)
        ensures
            r@ == self.label(),
    {
        match self {
            OutboxMessageKind::Ack => "ack",
            OutboxMessageKind::Audit => "audit",
        }
    }
}

/// The kind a stored label names: `"ack"` is an acknowledgement, anything else audit.
pub open spec fn kind_of_label(s: Seq<char>) -> OutboxMessageKind {
    if s == "ack"@ {
        OutboxMessageKind::Ack
    } else {
        OutboxMessageKind::Audit
    }
}

/// The kind of a stored `kind` column.
pub fn parse_kind(s: &str) -> (r: OutboxMessageKind)
    ensures
        r == kind_of_label(s@),
{
    let v = chars_of(s);
    if chars_eq_str(&v, "ack") {
        OutboxMessageKind::Ack
    } else {
        OutboxMessageKind::Audit
    }
}

/// Reading back the label that was stored gives the kind that was stored.
pub proof fn lemma_kind_label_roundtrip(k: OutboxMessageKind)
    ensures
        kind_of_label(k.label()) == k,
{
    reveal_strlit("ack");
    reveal_strlit("audit");
    assert("audit"@.len() != "ack"@.len());
}

/// The delivery guarantee of an MQTT publish.
#[derive(Debug, Clone, Copy, PartialEq, Eq, Structural)]
pub enum MqttQos {
    AtMostOnce,
    AtLeastOnce,
    ExactlyOnce,
}

/// The number a delivery guarantee is stored as.
pub open spec fn qos_level(q: MqttQos) -> u8 {
    match q {
        MqttQos::AtMostOnce => 0,
        MqttQos::AtLeastOnce => 1,
        MqttQos::ExactlyOnce => 2,
    }
}

/// The delivery guarantee a stored number stands for: 2 and 1 as themselves, anything
/// else at most once.
pub open spec fn qos_of_level(v: u8) -> MqttQos {
    if v == 2 {
        MqttQos::ExactlyOnce
    } else if v == 1 {
        MqttQos::AtLeastOnce
    } else {
        MqttQos::AtMostOnce
    }
}

/// The number a delivery guarantee is stored as.
pub fn qos_to_u8(qos: MqttQos) -> (r: u8)
    ensures
        r == qos_level(qos),
{
    match qos {
        MqttQos::AtMostOnce => 0,
        MqttQos::AtLeastOnce => 1,
        MqttQos::ExactlyOnce => 2,
    }
}

/// The delivery guarantee of a stored number.
pub fn u8_to_qos(v: u8) -> (r: MqttQos)
    ensures
        r == qos_of_level(v),
{
    match v {
        2 => MqttQos::ExactlyOnce,
        1 => MqttQos::AtLeastOnce,
        _ => MqttQos::AtMostOnce,
    }
}

/// A stored delivery guarantee reads back as itself.
pub proof fn lemma_qos_roundtrip(q: MqttQos)
    ensures
        qos_of_level(qos_level(q)) == q,
{
}

/// A message taken back out of the outbox, ready to publish.
#[derive(Debug, Clone, PartialEq)]
pub struct PendingMqttMessage {
    pub id: i64,
    pub topic: String,
    pub qos: u8,
    pub retain: bool,
    pub kind: OutboxMessageKind,
    pub payload: Vec<u8>,
}

/// How much the outbox holds, and for how long its oldest message has waited.
#[derive(Debug, Clone, Copy, PartialEq, Eq, Structural)]
pub struct OutboxStats {
    pub depth: usize,
    pub oldest_age_secs: Option<u64>,
}

impl Default for OutboxStats {
    fn default() -> (r: Self)
        ensures
            r.depth == 0,
            r.oldest_age_secs is None,
    {
        OutboxStats { depth: 0, oldest_age_secs: None }
    }
}

/// The keys a stored message is sealed and signed with, under a name.
#[derive(Debug, Clone)]
pub struct OutboxKeyMaterial {
    pub key_id: String,
    pub encryption_key: Option<[u8; 32]>,
    pub hmac_key: Option<Vec<u8>>,
}

impl OutboxKeyMaterial {
    /// The bytes of the encryption key, if there is one.
    pub open spec fn enc_view(&self) -> Option<Seq<u8>> {
        match self.encryption_key {
            Some(k) => Some(k@),
            None => None,
        }
    }

    /// The bytes of the signing key, if there is one.
    pub open spec fn mac_view(&self) -> Option<Seq<u8>> {
        match self.hmac_key {
            Some(k) => Some(k@),
            None => None,
        }
    }
}

/// The key material in force, the older material rows may still be stored under, and
/// the newest row format this outbox reads.
#[derive(Debug, Clone)]
pub struct OutboxSecurity {
    pub crypto_version: u16,
    pub active: OutboxKeyMaterial,
    pub previous: Vec<OutboxKeyMaterial>,
}

/// The 32-byte key a configured secret stands for: the SHA-256 of its UTF-8 bytes.
pub open spec fn key_from_secret(secret: Seq<char>) -> Seq<u8> {
    sha256_spec(encode_utf8(secret))
}

/// The key an optional secret stands for.
pub open spec fn opt_key(secret: Option<Seq<char>>) -> Option<Seq<u8>> {
    match secret {
        Some(s) => Some(key_from_secret(s)),
        None => None,
    }
}

/// What `OutboxSecurity::from_rotation` builds from the active and the previous key
/// names and secrets: version 1; the active material under its name; and, where a
/// previous secret of either kind is given, one previous material under the previous
/// name, or `prev` where there is none.
pub open spec fn is_rotation(
    r: OutboxSecurity,
    active_key_id: Seq<char>,
    active_enc: Option<Seq<char>>,
    active_mac: Option<Seq<char>>,
    previous_key_id: Option<Seq<char>>,
    previous_enc: Option<Seq<char>>,
    previous_mac: Option<Seq<char>>,
) -> bool {
    &&& r.crypto_version == 1
    &&& r.active.key_id@ == active_key_id
    &&& r.active.enc_view() == opt_key(active_enc)
    &&& r.active.mac_view() == opt_key(active_mac)
    &&& if previous_enc is Some || previous_mac is Some {
        &&& r.previous@.len() == 1
        &&& r.previous@[0].key_id@ == (match previous_key_id {
            Some(k) => k,
            None => "prev"@,
        })
        &&& r.previous@[0].enc_view() == opt_key(previous_enc)
        &&& r.previous@[0].mac_view() == opt_key(previous_mac)
    } else {
        r.previous@.len() == 0
    }
}

/// SHA-256 of `input`, as a 32-byte key.
fn hash_to_32(input: &[u8]) -> (r: [u8; 32])
    ensures
        r@ == sha256_spec(input@),
{
    sha256_digest(input)
}

/// The encryption key of an optional secret.
fn enc_key_of(secret: Option<String>) -> (r: Option<[u8; 32]>)
    ensures
        match r {
            Some(k) => opt_key(opt_string_view(secret)) == Some(k@),
            None => secret is None,
        },
{
    match secret {
        Some(s) => Some(hash_to_32(s.as_str().as_bytes())),
        None => None,
    }
}

/// The signing key of an optional secret.
fn mac_key_of(secret: Option<String>) -> (r: Option<Vec<u8>>)
    ensures
        match r {
            Some(k) => opt_key(opt_string_view(secret)) == Some(k@),
            None => secret is None,
        },
{
    match secret {
        Some(s) => {
            let k = hash_to_32(s.as_str().as_bytes());
            Some(vstd::slice::slice_to_vec(k.as_slice()))
        },
        None => None,
    }
}

impl OutboxSecurity {
    /// The outbox's keys during a rotation: the active name and secrets, and the
    /// previous ones that rows written before the rotation were sealed with.
    pub fn from_rotation(
        active_key_id: String,
        active_encryption_secret: Option<String>,
        active_hmac_secret: Option<String>,
        previous_key_id: Option<String>,
        previous_encryption_secret: Option<String>,
        previous_hmac_secret: Option<String>,
    ) -> (r: Self)
        ensures
            is_rotation(
                r,
                active_key_id@,
                opt_string_view(active_encryption_secret),
                opt_string_view(active_hmac_secret),
                opt_string_view(previous_key_id),
                opt_string_view(previous_encryption_secret),
                opt_string_view(previous_hmac_secret),
            ),
    {
        let active = OutboxKeyMaterial {
            key_id: active_key_id,
            encryption_key: enc_key_of(active_encryption_secret),
            hmac_key: mac_key_of(active_hmac_secret),
        };
        let mut previous: Vec<OutboxKeyMaterial> = Vec::new();
        if previous_encryption_secret.is_some() || previous_hmac_secret.is_some() {
            let key_id = match previous_key_id {
                Some(k) => k,
                None => owned("prev"),
            };
            previous.push(
                OutboxKeyMaterial {
                    key_id,
                    encryption_key: enc_key_of(previous_encryption_secret),
                    hmac_key: mac_key_of(previous_hmac_secret),
                },
            );
        }
        OutboxSecurity { crypto_version: 1, active, previous }
    }

    /// The material a row stored under `key_id` is read with: the active material when
    /// the row names it or names nothing, else the first previous material of that name.
    pub fn select_key_material(&self, key_id: Option<&str>) -> (r: Option<&OutboxKeyMaterial>)
        ensures
            match r {
                Some(m) => select_key_spec(*self, opt_view(key_id)) == Some(*m),
                None => select_key_spec(*self, opt_view(key_id)) is None,
            },
    {
        match key_id {
            None => Some(&self.active),
            Some(id) => {
                let idv = chars_of(id);
                let active_id = chars_of(self.active.key_id.as_str());
                if chars_eq(&active_id, &idv) {
                    return Some(&self.active);
                }
                let mut i: usize = 0;
                assert(self.previous@.subrange(0, self.previous@.len() as int) =~= self.previous@);
                while i < self.previous.len()
                    invariant
                        idv@ == id@,
                        self.active.key_id@ != id@,
                        key_id == Some(id),
                        i <= self.previous.len(),
                        find_key(self.previous@, id@) == find_key(
                            self.previous@.subrange(i as int, self.previous@.len() as int),
                            id@,
                        ),
                    decreases self.previous.len() - i,
                {
                    let ghost rest = self.previous@.subrange(i as int, self.previous@.len() as int);
                    assert(rest[0] == self.previous@[i as int]);
                    assert(rest.drop_first() =~= self.previous@.subrange(
                        i + 1,
                        self.previous@.len() as int,
                    ));
                    let k = chars_of(self.previous[i].key_id.as_str());
                    if chars_eq(&k, &idv) {
                        assert(find_key(rest, id@) == Some(self.previous@[i as int]));
                        return Some(&self.previous[i]);
                    }
                    i = i + 1;
                }
                None
            },
        }
    }
}

/// The first material of the given name in a list.
pub open spec fn find_key(prev: Seq<OutboxKeyMaterial>, id: Seq<char>) -> Option<OutboxKeyMaterial>
    decreases prev.len(),
{
    if prev.len() == 0 {
        None
    } else if prev[0].key_id@ == id {
        Some(prev[0])
    } else {
        find_key(prev.drop_first(), id)
    }
}

/// The material a row stored under `key_id` is read with.
pub open spec fn select_key_spec(sec: OutboxSecurity, key_id: Option<Seq<char>>) -> Option<OutboxKeyMaterial> {
    match key_id {
        None => Some(sec.active),
        Some(id) => if sec.active.key_id@ == id {
            Some(sec.active)
        } else {
            find_key(sec.previous@, id)
        },
    }
}

/// After a rotation, rows written under the old keys are read with the old keys: the
/// reader selects, for the old name, material with the writer's encryption and signing
/// keys, and reads every row version the writer wrote.
pub proof fn lemma_rotation_reads_previous_rows(
    writer: OutboxSecurity,
    reader: OutboxSecurity,
    old_id: Seq<char>,
    old_enc: Option<Seq<char>>,
    old_mac: Option<Seq<char>>,
    new_id: Seq<char>,
    new_enc: Option<Seq<char>>,
    new_mac: Option<Seq<char>>,
)
    requires
        is_rotation(writer, old_id, old_enc, old_mac, None, None, None),
        is_rotation(reader, new_id, new_enc, new_mac, Some(old_id), old_enc, old_mac),
        new_id != old_id,
        old_enc is Some || old_mac is Some,
    ensures
        select_key_spec(reader, Some(old_id)) matches Some(m) && m.enc_view() == writer.active.enc_view()
            && m.mac_view() == writer.active.mac_view(),
        writer.crypto_version <= reader.crypto_version,
{
    let p = reader.previous@;
    assert(p.drop_first().len() == 0);
    assert(find_key(p, old_id) == Some(p[0]));
}

/// The settings of an outbox: how many messages it keeps, and its keys.
#[derive(Debug, Clone)]
pub struct OutboxConfig {
    pub max_messages: usize,
    pub security: OutboxSecurity,
}

impl Default for OutboxConfig {
    /// Ten thousand messages, stored in the clear and unsigned under the name `v1`.
    fn default() -> (r: Self)
        ensures
            r.max_messages == 10_000,
            r.security.crypto_version == 1,
            r.security.active.key_id@ == "v1"@,
            r.security.active.encryption_key is None,
            r.security.active.hmac_key is None,
            r.security.previous@.len() == 0,
    {
        OutboxConfig {
            max_messages: 10_000,
            security: OutboxSecurity {
                crypto_version: 1,
                active: OutboxKeyMaterial { key_id: owned("v1"), encryption_key: None, hmac_key: None },
                previous: Vec::new(),
            },
        }
    }
}

/// Why a message could not be stored, or a stored row could not be read.
#[derive(Debug, Clone, Copy, PartialEq, Eq, Structural)]
pub enum OutboxError {
    /// The outbox is full of acknowledgements and an audit message came in.
    AtCapacityForAudit,
    /// The payload is too long to encrypt.
    EncryptFailed,
    /// The row was written in a newer format than this outbox reads.
    UnsupportedCryptoVersion(u16),
    /// A signing key is configured but the row carries no signature.
    MissingSignature,
    /// The row's signature does not match its content.
    SignatureMismatch,
    /// The row is encrypted but no key of its name is configured.
    MissingEncryptionKey,
    /// The row is encrypted but carries no nonce.
    MissingNonce,
    /// The row's nonce is not twelve bytes long.
    InvalidNonceLength,
    /// The row's ciphertext does not authenticate under its key and nonce.
    DecryptFailed,
}

impl OutboxError {
    /// The message the outbox logs for this error.
    pub fn message(&self) -> (r: String)
        ensures
            r@ == self.message_spec(),
    {
        match self {
            OutboxError::AtCapacityForAudit => owned("outbox at capacity for audit"),
            OutboxError::EncryptFailed => owned("encrypt payload failed"),
            OutboxError::UnsupportedCryptoVersion(_) => owned("unsupported crypto_version"),
            OutboxError::MissingSignature => owned("missing hmac signature"),
            OutboxError::SignatureMismatch => owned("hmac verification failed"),
            OutboxError::MissingEncryptionKey => owned("row is encrypted but no key configured"),
            OutboxError::MissingNonce => owned("encrypted row missing nonce"),
            OutboxError::InvalidNonceLength => owned("invalid nonce length"),
            OutboxError::DecryptFailed => owned("decrypt payload failed"),
        }
    }

    /// The message the outbox logs for this error.
    pub open spec fn message_spec(&self) -> Seq<char> {
        match self {
            OutboxError::AtCapacityForAudit => "outbox at capacity for audit"@,
            OutboxError::EncryptFailed => "encrypt payload failed"@,
            OutboxError::UnsupportedCryptoVersion(_) => "unsupported crypto_version"@,
            OutboxError::MissingSignature => "missing hmac signature"@,
            OutboxError::SignatureMismatch => "hmac verification failed"@,
            OutboxError::MissingEncryptionKey => "row is encrypted but no key configured"@,
            OutboxError::MissingNonce => "encrypted row missing nonce"@,
            OutboxError::InvalidNonceLength => "invalid nonce length"@,
            OutboxError::DecryptFailed => "decrypt payload failed"@,
        }
    }
}

/// The bytes of an optional byte string, none where it is absent.
pub open spec fn opt_bytes(o: Option<Seq<u8>>) -> Seq<u8> {
    match o {
        Some(b) => b,
        None => Seq::empty(),
    }
}

/// The bytes of an optional slice.
pub open spec fn opt_slice_view(o: Option<&[u8]>) -> Option<Seq<u8>> {
    match o {
        Some(b) => Some(b@),
        None => None,
    }
}

/// The bytes of an optional vector.
pub open spec fn opt_vec_view(o: Option<Vec<u8>>) -> Option<Seq<u8>> {
    match o {
        Some(b) => Some(b@),
        None => None,
    }
}

/// The byte of a flag.
pub open spec fn flag_byte(b: bool) -> u8 {
    if b {
        1
    } else {
        0
    }
}

/// What a stored row's signature covers, in this order: the topic's UTF-8 bytes, the
/// delivery level, the retain flag, the kind's label, the encryption flag, the nonce
/// where there is one, and the stored payload.
pub open spec fn signing_input(
    topic: Seq<char>,
    qos: u8,
    retain: bool,
    kind: OutboxMessageKind,
    encrypted: bool,
    nonce: Option<Seq<u8>>,
    payload: Seq<u8>,
) -> Seq<u8> {
    encode_utf8(topic) + seq![qos] + seq![flag_byte(retain)] + encode_utf8(kind.label()) + seq![
        flag_byte(encrypted),
    ] + opt_bytes(nonce) + payload
}

/// Appends `b` to `out`.
fn push_bytes(out: &mut Vec<u8>, b: &[u8])
    ensures
        final(out)@ == old(out)@ + b@,
{
    let mut i: usize = 0;
    while i < b.len()
        invariant
            i <= b@.len(),
            out@ == old(out)@ + b@.subrange(0, i as int),
        decreases b@.len() - i,
    {
        out.push(b[i]);
        assert(old(out)@ + b@.subrange(0, (i + 1) as int) =~= (old(out)@ + b@.subrange(0, i as int)).push(
            b@[i as int],
        ));
        i = i + 1;
    }
    assert(b@.subrange(0, b@.len() as int) =~= b@);
}

/// The bytes a stored row's signature covers.
pub fn signing_input_bytes(
    topic: &str,
    qos: u8,
    retain: bool,
    kind: OutboxMessageKind,
    encrypted: bool,
    nonce: Option<&[u8]>,
    payload: &[u8],
) -> (r: Vec<u8>)
    ensures
        r@ == signing_input(topic@, qos, retain, kind, encrypted, opt_slice_view(nonce), payload@),
{
    let mut out: Vec<u8> = Vec::new();
    push_bytes(&mut out, topic.as_bytes());
    out.push(qos);
    out.push(if retain { 1u8 } else { 0u8 });
    push_bytes(&mut out, kind.as_str().as_bytes());
    out.push(if encrypted { 1u8 } else { 0u8 });
    if let Some(n) = nonce {
        push_bytes(&mut out, n);
    }
    push_bytes(&mut out, payload);
    assert(out@ =~= signing_input(topic@, qos, retain, kind, encrypted, opt_slice_view(nonce), payload@));
    out
}

/// The signature of a row under signing key `mac`, none where there is no key.
pub open spec fn signature_spec(mac: Option<Seq<u8>>, input: Seq<u8>) -> Option<Seq<u8>> {
    match mac {
        Some(k) => Some(hmac_sha256_spec(k, input)),
        None => None,
    }
}

/// The HMAC-SHA256 signature of a row under the material's signing key, none where
/// the material has none.
pub fn sign(
    material: &OutboxKeyMaterial,
    topic: &str,
    qos: u8,
    retain: bool,
    kind: OutboxMessageKind,
    encrypted: bool,
    nonce: Option<&[u8]>,
    payload: &[u8],
) -> (r: Option<Vec<u8>>)
    ensures
        opt_vec_view(r) == signature_spec(
            material.mac_view(),
            signing_input(topic@, qos, retain, kind, encrypted, opt_slice_view(nonce), payload@),
        ),
{
    match &material.hmac_key {
        None => None,
        Some(key) => {
            let input = signing_input_bytes(topic, qos, retain, kind, encrypted, nonce, payload);
            Some(hmac_sha256(key.as_slice(), input.as_slice()))
        },
    }
}

/// Whether a row's signature checks out under the material it is read with: nothing is
/// checked where that material has no signing key.
pub open spec fn verify_spec(mac: Option<Seq<u8>>, input: Seq<u8>, signature: Option<Seq<u8>>) -> Result<(), OutboxError> {
    match mac {
        None => Ok(()),
        Some(k) => match signature {
            None => Err(OutboxError::MissingSignature),
            Some(s) => if s == hmac_sha256_spec(k, input) {
                Ok(())
            } else {
                Err(OutboxError::SignatureMismatch)
            },
        },
    }
}

/// The signing key of an optional material.
pub open spec fn opt_mac(m: Option<OutboxKeyMaterial>) -> Option<Seq<u8>> {
    match m {
        Some(m) => m.mac_view(),
        None => None,
    }
}

/// The encryption key of an optional material.
pub open spec fn opt_enc(m: Option<OutboxKeyMaterial>) -> Option<Seq<u8>> {
    match m {
        Some(m) => m.enc_view(),
        None => None,
    }
}

/// Checks a row's signature against the material it is read with.
pub fn verify(
    material: Option<&OutboxKeyMaterial>,
    topic: &str,
    qos: u8,
    retain: bool,
    kind: OutboxMessageKind,
    encrypted: bool,
    nonce: Option<&[u8]>,
    payload: &[u8],
    signature: Option<&[u8]>,
) -> (r: Result<(), OutboxError>)
    ensures
        r == verify_spec(
            opt_mac(
                match material {
                    Some(m) => Some(*m),
                    None => None,
                },
            ),
            signing_input(topic@, qos, retain, kind, encrypted, opt_slice_view(nonce), payload@),
            opt_slice_view(signature),
        ),
{
    let key = match material {
        Some(m) => match &m.hmac_key {
            Some(k) => k,
            None => return Ok(()),
        },
        None => return Ok(()),
    };
    let sig = match signature {
        Some(s) => s,
        None => return Err(OutboxError::MissingSignature),
    };
    let input = signing_input_bytes(topic, qos, retain, kind, encrypted, nonce, payload);
    if hmac_sha256_verify(key.as_slice(), input.as_slice(), sig) {
        Ok(())
    } else {
        Err(OutboxError::SignatureMismatch)
    }
}

/// A payload as it is stored: whether it was encrypted, the nonce it was sealed with,
/// and the stored bytes.
pub open spec fn protected_spec(enc: Option<Seq<u8>>, nonce: Seq<u8>, plain: Seq<u8>) -> Result<(bool, Option<Seq<u8>>, Seq<u8>), OutboxError> {
    match enc {
        None => Ok((false, None, plain)),
        Some(k) => if plain.len() <= aes_gcm_max_plaintext() {
            Ok((true, Some(nonce), aes256gcm_seal_spec(k, nonce, plain)))
        } else {
            Err(OutboxError::EncryptFailed)
        },
    }
}

/// The stored form of a payload under the active encryption key and the given nonce;
/// the payload itself where no encryption key is configured.
pub fn protect_payload_with_nonce(
    sec: &OutboxSecurity,
    plain: &[u8],
    nonce: &[u8; 12],
) -> (r: Result<(bool, Option<Vec<u8>>, Vec<u8>), OutboxError>)
    ensures
        match r {
            Ok((e, n, p)) => protected_spec(sec.active.enc_view(), nonce@, plain@) == Ok::<
                (bool, Option<Seq<u8>>, Seq<u8>),
                OutboxError,
            >((e, opt_vec_view(n), p@)),
            Err(err) => protected_spec(sec.active.enc_view(), nonce@, plain@) == Err::<
                (bool, Option<Seq<u8>>, Seq<u8>),
                OutboxError,
            >(err),
        },
{
    match &sec.active.encryption_key {
        None => Ok((false, None, vstd::slice::slice_to_vec(plain))),
        Some(key) => match aes256gcm_seal(key, nonce, plain) {
            Some(sealed) => Ok((true, Some(vstd::slice::slice_to_vec(nonce.as_slice())), sealed)),
            None => Err(OutboxError::EncryptFailed),
        },
    }
}

/// The stored form of a payload: sealed under the active encryption key with a fresh
/// random nonce, or the payload itself where no encryption key is configured.
pub fn protect_payload(sec: &OutboxSecurity, plain: &[u8]) -> (r: Result<(bool, Option<Vec<u8>>, Vec<u8>), OutboxError>)
    ensures
        match r {
            Ok((e, n, p)) => match n {
                Some(nv) => nv@.len() == 12 && protected_spec(sec.active.enc_view(), nv@, plain@) == Ok::<
                    (bool, Option<Seq<u8>>, Seq<u8>),
                    OutboxError,
                >((e, Some(nv@), p@)),
                None => sec.active.enc_view() is None && !e && p@ == plain@,
            },
            Err(err) => err == OutboxError::EncryptFailed && sec.active.enc_view() is Some
                && plain@.len() > aes_gcm_max_plaintext(),
        },
{
    if sec.active.encryption_key.is_some() {
        let nonce = random_nonce();
        protect_payload_with_nonce(sec, plain, &nonce)
    } else {
        Ok((false, None, vstd::slice::slice_to_vec(plain)))
    }
}

/// A message as the outbox stores it, before the database gives it an id.
#[derive(Debug, Clone)]
pub struct StoredOutboxRow {
    pub topic: String,
    pub qos: u8,
    pub retain: bool,
    pub kind: OutboxMessageKind,
    pub payload: Vec<u8>,
    pub encrypted: bool,
    pub crypto_version: u16,
    pub key_id: String,
    pub nonce: Option<Vec<u8>>,
    pub signature: Option<Vec<u8>>,
}

/// A row read back from the outbox.
#[derive(Debug, Clone)]
pub struct RawPendingRow {
    pub id: i64,
    pub topic: String,
    pub qos: u8,
    pub retain: bool,
    pub kind: OutboxMessageKind,
    pub payload: Vec<u8>,
    pub encrypted: bool,
    pub crypto_version: u16,
    pub key_id: Option<String>,
    pub nonce: Option<Vec<u8>>,
    pub signature: Option<Vec<u8>>,
}

/// Whether stored bytes, their flags, nonce and signature are what sealing and signing
/// `plain` under the encryption key `enc` and the signing key `mac` produce.
pub open spec fn sealed_as(
    enc: Option<Seq<u8>>,
    mac: Option<Seq<u8>>,
    topic: Seq<char>,
    qos: u8,
    retain: bool,
    kind: OutboxMessageKind,
    encrypted: bool,
    nonce: Option<Seq<u8>>,
    stored: Seq<u8>,
    signature: Option<Seq<u8>>,
    plain: Seq<u8>,
) -> bool {
    &&& signature == signature_spec(mac, signing_input(topic, qos, retain, kind, encrypted, nonce, stored))
    &&& if encrypted {
        &&& enc matches Some(k)
        &&& nonce matches Some(n)
        &&& n.len() == 12
        &&& plain.len() <= aes_gcm_max_plaintext()
        &&& stored == aes256gcm_seal_spec(k, n, plain)
    } else {
        stored == plain
    }
}

/// Seals, signs and labels a message with the active keys and the given nonce.
pub fn prepare_row_with_nonce(
    sec: &OutboxSecurity,
    kind: OutboxMessageKind,
    topic: String,
    qos: u8,
    retain: bool,
    payload: &[u8],
    nonce: &[u8; 12],
) -> (r: Result<StoredOutboxRow, OutboxError>)
    ensures
        r is Ok <==> protected_spec(sec.active.enc_view(), nonce@, payload@) is Ok,
        r is Err ==> r == Err::<StoredOutboxRow, OutboxError>(OutboxError::EncryptFailed),
        r matches Ok(row) ==> {
            &&& row.topic@ == topic@
            &&& row.qos == qos
            &&& row.retain == retain
            &&& row.kind == kind
            &&& row.crypto_version == sec.crypto_version
            &&& row.key_id@ == sec.active.key_id@
            &&& sealed_as(
                sec.active.enc_view(),
                sec.active.mac_view(),
                topic@,
                qos,
                retain,
                kind,
                row.encrypted,
                opt_vec_view(row.nonce),
                row.payload@,
                opt_vec_view(row.signature),
                payload@,
            )
        },
{
    let (encrypted, nonce_out, stored) = match protect_payload_with_nonce(sec, payload, nonce) {
        Ok(p) => p,
        Err(e) => return Err(e),
    };
    let nonce_slice: Option<&[u8]> = match &nonce_out {
        Some(n) => Some(n.as_slice()),
        None => None,
    };
    let signature = sign(&sec.active, topic.as_str(), qos, retain, kind, encrypted, nonce_slice, stored.as_slice());
    assert(opt_slice_view(nonce_slice) == opt_vec_view(nonce_out));
    Ok(
        StoredOutboxRow {
            topic,
            qos,
            retain,
            kind,
            payload: stored,
            encrypted,
            crypto_version: sec.crypto_version,
            key_id: sec.active.key_id.clone(),
            nonce: nonce_out,
            signature,
        },
    )
}

/// Seals, signs and labels a message with the active keys and a fresh random nonce:
/// what the outbox stores for it.
pub fn prepare_row(
    sec: &OutboxSecurity,
    kind: OutboxMessageKind,
    topic: String,
    qos: u8,
    retain: bool,
    payload: &[u8],
) -> (r: Result<StoredOutboxRow, OutboxError>)
    ensures
        r is Err ==> r == Err::<StoredOutboxRow, OutboxError>(OutboxError::EncryptFailed)
            && sec.active.enc_view() is Some && payload@.len() > aes_gcm_max_plaintext(),
        (sec.active.enc_view() is None || payload@.len() <= aes_gcm_max_plaintext()) ==> r is Ok,
        r matches Ok(row) ==> {
            &&& row.topic@ == topic@
            &&& row.qos == qos
            &&& row.retain == retain
            &&& row.kind == kind
            &&& row.crypto_version == sec.crypto_version
            &&& row.key_id@ == sec.active.key_id@
            &&& sealed_as(
                sec.active.enc_view(),
                sec.active.mac_view(),
                topic@,
                qos,
                retain,
                kind,
                row.encrypted,
                opt_vec_view(row.nonce),
                row.payload@,
                opt_vec_view(row.signature),
                payload@,
            )
        },
{
    let nonce = if sec.active.encryption_key.is_some() {
        random_nonce()
    } else {
        [0u8; 12]
    };
    prepare_row_with_nonce(sec, kind, topic, qos, retain, payload, &nonce)
}

/// What reading a stored row gives: the row is refused when it was written in a newer
/// format, when its signature does not check out under the material its key name
/// selects, or when it is encrypted and cannot be opened; else its payload, opened where
/// it was encrypted.
pub open spec fn unprotect_spec(sec: OutboxSecurity, raw: RawPendingRow) -> Result<Seq<u8>, OutboxError> {
    if raw.crypto_version > sec.crypto_version {
        Err(OutboxError::UnsupportedCryptoVersion(raw.crypto_version))
    } else {
        let m = select_key_spec(sec, opt_string_view(raw.key_id));
        let input = signing_input(
            raw.topic@,
            raw.qos,
            raw.retain,
            raw.kind,
            raw.encrypted,
            opt_vec_view(raw.nonce),
            raw.payload@,
        );
        match verify_spec(opt_mac(m), input, opt_vec_view(raw.signature)) {
            Err(e) => Err(e),
            Ok(_) => if !raw.encrypted {
                Ok(raw.payload@)
            } else {
                match opt_enc(m) {
                    None => Err(OutboxError::MissingEncryptionKey),
                    Some(k) => match opt_vec_view(raw.nonce) {
                        None => Err(OutboxError::MissingNonce),
                        Some(n) => if n.len() != 12 {
                            Err(OutboxError::InvalidNonceLength)
                        } else {
                            match aes256gcm_open_spec(k, n, raw.payload@) {
                                None => Err(OutboxError::DecryptFailed),
                                Some(p) => Ok(p),
                            }
                        },
                    },
                }
            },
        }
    }
}

impl OutboxSecurity {
    /// Checks and opens a stored row. A row that was sealed and signed for `plain` with
    /// the keys its name selects, in a format this outbox reads, opens to `plain`.
    pub fn unprotect_row(&self, raw: &RawPendingRow) -> (r: Result<PendingMqttMessage, OutboxError>)
        ensures
            match r {
                Ok(msg) => unprotect_spec(*self, *raw) == Ok::<Seq<u8>, OutboxError>(msg.payload@)
                    && msg.id == raw.id && msg.topic@ == raw.topic@ && msg.qos == raw.qos
                    && msg.retain == raw.retain && msg.kind == raw.kind,
                Err(e) => unprotect_spec(*self, *raw) == Err::<Seq<u8>, OutboxError>(e),
            },
            forall|plain: Seq<u8>|
                raw.crypto_version <= self.crypto_version && #[trigger] sealed_as(
                    opt_enc(select_key_spec(*self, opt_string_view(raw.key_id))),
                    opt_mac(select_key_spec(*self, opt_string_view(raw.key_id))),
                    raw.topic@,
                    raw.qos,
                    raw.retain,
                    raw.kind,
                    raw.encrypted,
                    opt_vec_view(raw.nonce),
                    raw.payload@,
                    opt_vec_view(raw.signature),
                    plain,
                ) ==> (r matches Ok(msg) && msg.payload@ == plain),
    {
        if raw.crypto_version > self.crypto_version {
            return Err(OutboxError::UnsupportedCryptoVersion(raw.crypto_version));
        }
        let key_id: Option<&str> = match &raw.key_id {
            Some(k) => Some(k.as_str()),
            None => None,
        };
        let material = self.select_key_material(key_id);
        let ghost m = select_key_spec(*self, opt_string_view(raw.key_id));
        assert(opt_view(key_id) == opt_string_view(raw.key_id));
        let nonce_slice: Option<&[u8]> = match &raw.nonce {
            Some(n) => Some(n.as_slice()),
            None => None,
        };
        let sig_slice: Option<&[u8]> = match &raw.signature {
            Some(s) => Some(s.as_slice()),
            None => None,
        };
        assert(opt_slice_view(nonce_slice) == opt_vec_view(raw.nonce));
        assert(opt_slice_view(sig_slice) == opt_vec_view(raw.signature));
        match verify(
            material,
            raw.topic.as_str(),
            raw.qos,
            raw.retain,
            raw.kind,
            raw.encrypted,
            nonce_slice,
            raw.payload.as_slice(),
            sig_slice,
        ) {
            Ok(()) => {},
            Err(e) => return Err(e),
        }
        let payload = if raw.encrypted {
            let key = match material {
                Some(mm) => match &mm.encryption_key {
                    Some(k) => k,
                    None => return Err(OutboxError::MissingEncryptionKey),
                },
                None => return Err(OutboxError::MissingEncryptionKey),
            };
            let nonce = match &raw.nonce {
                Some(n) => n,
                None => return Err(OutboxError::MissingNonce),
            };
            if nonce.len() != 12 {
                return Err(OutboxError::InvalidNonceLength);
            }
            match aes256gcm_open(key, nonce.as_slice(), raw.payload.as_slice()) {
                Some(p) => p,
                None => return Err(OutboxError::DecryptFailed),
            }
        } else {
            vstd::slice::slice_to_vec(raw.payload.as_slice())
        };
        Ok(
            PendingMqttMessage {
                id: raw.id,
                topic: raw.topic.clone(),
                qos: raw.qos,
                retain: raw.retain,
                kind: raw.kind,
                payload,
            },
        )
    }
}

/// A stored row read back with the id the database gave it.
pub open spec fn with_id(row: StoredOutboxRow, id: i64) -> RawPendingRow {
    RawPendingRow {
        id,
        topic: row.topic,
        qos: row.qos,
        retain: row.retain,
        kind: row.kind,
        payload: row.payload,
        encrypted: row.encrypted,
        crypto_version: row.crypto_version,
        key_id: Some(row.key_id),
        nonce: row.nonce,
        signature: row.signature,
    }
}

/// A row prepared under `writer` and read back under `reader` opens to the payload it
/// was prepared from, whenever the reader reads the writer's format and selects, for the
/// row's key name, material with the writer's active keys.
pub proof fn lemma_prepared_row_reads_back(
    writer: OutboxSecurity,
    reader: OutboxSecurity,
    row: StoredOutboxRow,
    id: i64,
    plain: Seq<u8>,
)
    requires
        row.crypto_version == writer.crypto_version,
        row.key_id@ == writer.active.key_id@,
        sealed_as(
            writer.active.enc_view(),
            writer.active.mac_view(),
            row.topic@,
            row.qos,
            row.retain,
            row.kind,
            row.encrypted,
            opt_vec_view(row.nonce),
            row.payload@,
            opt_vec_view(row.signature),
            plain,
        ),
        writer.crypto_version <= reader.crypto_version,
        select_key_spec(reader, Some(writer.active.key_id@)) matches Some(m) && m.enc_view()
            == writer.active.enc_view() && m.mac_view() == writer.active.mac_view(),
    ensures
        ({
            let raw = with_id(row, id);
            &&& raw.crypto_version <= reader.crypto_version
            &&& sealed_as(
                opt_enc(select_key_spec(reader, opt_string_view(raw.key_id))),
                opt_mac(select_key_spec(reader, opt_string_view(raw.key_id))),
                raw.topic@,
                raw.qos,
                raw.retain,
                raw.kind,
                raw.encrypted,
                opt_vec_view(raw.nonce),
                raw.payload@,
                opt_vec_view(raw.signature),
                plain,
            )
        }),
{
}

/// A row written under the active keys is read with the active keys.
pub proof fn lemma_active_name_selects_active(sec: OutboxSecurity)
    ensures
        select_key_spec(sec, Some(sec.active.key_id@)) == Some(sec.active),
{
}

/// What a full outbox does with an incoming message.
#[derive(Debug, Clone, Copy, PartialEq, Eq, Structural)]
pub enum CapacityDecision {
    /// Store it; nothing has to go.
    Admit,
    /// Delete the stored message at this position (oldest first), then store it.
    EvictThenAdmit(usize),
    /// Do not store it.
    Refuse,
}

/// The capacity rule: the decision `r` for `incoming` on the stored kinds `queued`,
/// oldest first.
pub open spec fn capacity_rule(
    queued: Seq<OutboxMessageKind>,
    max_messages: usize,
    incoming: OutboxMessageKind,
    r: CapacityDecision,
) -> bool {
    &&& queued.len() < max_messages ==> r == CapacityDecision::Admit
    &&& queued.len() >= max_messages ==> match r {
        CapacityDecision::EvictThenAdmit(i) => i < queued.len() && (if exists|j: int|
            0 <= j < queued.len() && queued[j] == OutboxMessageKind::Audit {
            queued[i as int] == OutboxMessageKind::Audit && forall|j: int|
                0 <= j < i ==> queued[j] != OutboxMessageKind::Audit
        } else {
            incoming == OutboxMessageKind::Ack && i == 0
        }),
        CapacityDecision::Admit => incoming == OutboxMessageKind::Ack && queued.len() == 0,
        CapacityDecision::Refuse => incoming == OutboxMessageKind::Audit && forall|j: int|
            0 <= j < queued.len() ==> queued[j] != OutboxMessageKind::Audit,
    }
}

/// How many messages are stored once a decision is carried out.
pub open spec fn stored_after(len: nat, r: CapacityDecision) -> nat {
    match r {
        CapacityDecision::Admit => len + 1,
        CapacityDecision::EvictThenAdmit(_) => len,
        CapacityDecision::Refuse => len,
    }
}

/// An outbox within a capacity of at least one stays within it whatever arrives, and
/// an acknowledgement is always stored.
pub proof fn lemma_capacity_is_kept(
    queued: Seq<OutboxMessageKind>,
    max_messages: usize,
    incoming: OutboxMessageKind,
    r: CapacityDecision,
)
    requires
        capacity_rule(queued, max_messages, incoming, r),
        queued.len() <= max_messages,
        max_messages >= 1,
    ensures
        stored_after(queued.len(), r) <= max_messages,
        incoming == OutboxMessageKind::Ack ==> r != CapacityDecision::Refuse,
{
}

/// The capacity rule, on the kinds of the stored messages, oldest first. Below
/// `max_messages` every message is admitted. At or above it the oldest audit message
/// makes room; where there is none, an acknowledgement takes the place of the oldest
/// message and an audit message is refused: audit traffic never displaces an
/// acknowledgement.
pub fn capacity_decision(
    queued: &Vec<OutboxMessageKind>,
    max_messages: usize,
    incoming: OutboxMessageKind,
) -> (r: CapacityDecision)
    ensures
        capacity_rule(queued@, max_messages, incoming, r),
{
    if queued.len() < max_messages {
        return CapacityDecision::Admit;
    }
    let mut i: usize = 0;
    while i < queued.len()
        invariant
            queued@.len() >= max_messages,
            i <= queued@.len(),
            forall|j: int| 0 <= j < i ==> queued@[j] != OutboxMessageKind::Audit,
        decreases queued@.len() - i,
    {
        if queued[i] == OutboxMessageKind::Audit {
            return CapacityDecision::EvictThenAdmit(i);
        }
        i = i + 1;
    }
    match incoming {
        OutboxMessageKind::Ack => if queued.len() > 0 {
            CapacityDecision::EvictThenAdmit(0)
        } else {
            CapacityDecision::Admit
        },
        OutboxMessageKind::Audit => CapacityDecision::Refuse,
    }
}

/// The error a capacity decision stands for: only a refused message is an error.
pub fn capacity_result(d: CapacityDecision) -> (r: Result<(), OutboxError>)
    ensures
        r is Err <==> d == CapacityDecision::Refuse,
        r is Err ==> r == Err::<(), OutboxError>(OutboxError::AtCapacityForAudit),
{
    match d {
        CapacityDecision::Refuse => Err(OutboxError::AtCapacityForAudit),
        _ => Ok(()),
    }
}

/// What happened to one stored row during a flush.
#[derive(Debug, Clone, Copy, PartialEq, Eq, Structural)]
pub enum FlushRowOutcome {
    /// The row could not be checked or opened.
    Unreadable,
    /// The row was published.
    Published,
    /// Publishing the row failed.
    PublishFailed,
}

/// What a flush does after a row.
#[derive(Debug, Clone, Copy, PartialEq, Eq, Structural)]
pub enum FlushAction {
    /// Delete the row, which will never be readable, and go on.
    DropRow,
    /// Delete the published row and go on.
    DeleteSent,
    /// Keep the row and stop; it is tried again on the next flush.
    Stop,
}

/// The running count of a flush.
#[derive(Debug, Clone, Copy, PartialEq, Eq, Structural)]
pub struct FlushTally {
    pub sent: usize,
    pub stopped: bool,
}

impl FlushTally {
    /// A flush that has not looked at any row yet.
    pub fn new() -> (r: Self)
        ensures
            r.sent == 0,
            !r.stopped,
    {
        FlushTally { sent: 0, stopped: false }
    }

    /// Records what happened to the next row: an unreadable row is dropped, a published
    /// one deleted and counted, and a failed publish ends the flush with the row kept.
    pub fn record(&mut self, outcome: FlushRowOutcome) -> (r: FlushAction)
        requires
            !old(self).stopped,
            old(self).sent < usize::MAX,
        ensures
            r == (match outcome {
                FlushRowOutcome::Unreadable => FlushAction::DropRow,
                FlushRowOutcome::Published => FlushAction::DeleteSent,
                FlushRowOutcome::PublishFailed => FlushAction::Stop,
            }),
            final(self).sent == old(self).sent + (if outcome == FlushRowOutcome::Published {
                1int
            } else {
                0int
            }),
            final(self).stopped == (outcome == FlushRowOutcome::PublishFailed),
    {
        match outcome {
            FlushRowOutcome::Unreadable => FlushAction::DropRow,
            FlushRowOutcome::Published => {
                self.sent = self.sent + 1;
                FlushAction::DeleteSent
            },
            FlushRowOutcome::PublishFailed => {
                self.stopped = true;
                FlushAction::Stop
            },
        }
    }
}

} // verus!
