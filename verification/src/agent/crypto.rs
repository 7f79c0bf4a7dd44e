//! SHA-256, HMAC-SHA256, AES-256-GCM and random nonces from the `sha2`, `hmac`,
//! `aes-gcm` and `rand` crates.

use vstd::prelude::*;
use aes_gcm::aead::{Aead, KeyInit};
use hmac::Mac;
use rand::RngCore;
use sha2::Digest;

verus! {

/// What `Sha256::digest` returns on the given bytes.
pub uninterp spec fn sha256_spec(data: Seq<u8>) -> Seq<u8>;

/// What HMAC-SHA256 (`Hmac::<Sha256>` keyed with `key`, updated with `msg`,
/// finalized) returns.
pub uninterp spec fn hmac_sha256_spec(key: Seq<u8>, msg: Seq<u8>) -> Seq<u8>;

/// `sha2::Sha256::digest`: the 32-byte SHA-256 digest of `data`.
#[verifier::external_body]
pub(crate) fn sha256_digest(data: &[u8]) -> (r: [u8; 32])
    ensures
        r@ == sha256_spec(data@),
{
    sha2::Sha256::digest(data).into()
}

/// `hmac::Hmac::<Sha256>` over `msg` with `key`, finalized: the 32-byte tag.
/// `new_from_slice` accepts keys of every length for HMAC, so its error arm is never
/// taken.
#[verifier::external_body]
pub(crate) fn hmac_sha256(key: &[u8], msg: &[u8]) -> (r: Vec<u8>)
    ensures
        r@ == hmac_sha256_spec(key@, msg@),
        r@.len() == 32,
{
    match <hmac::Hmac<sha2::Sha256> as Mac>::new_from_slice(key) {
        Ok(mut mac) => {
            mac.update(msg);
            mac.finalize().into_bytes().to_vec()
        },
        Err(_) => Vec::new(),
    }
}

/// `Mac::verify_slice` on HMAC-SHA256: succeeds exactly when `tag` is the whole tag of
/// `msg` under `key`.
#[verifier::external_body]
pub(crate) fn hmac_sha256_verify(key: &[u8], msg: &[u8], tag: &[u8]) -> (r: bool)
    ensures
        r == (tag@ == hmac_sha256_spec(key@, msg@)),
{
    match <hmac::Hmac<sha2::Sha256> as Mac>::new_from_slice(key) {
        Ok(mut mac) => {
            mac.update(msg);
            mac.verify_slice(tag).is_ok()
        },
        Err(_) => false,
    }
}

/// The largest plaintext, in bytes, that AES-GCM encrypts (`aes_gcm::P_MAX`).
pub open spec fn aes_gcm_max_plaintext() -> nat {
    0x10_0000_0000
}

/// What `Aes256Gcm::encrypt` returns for a key, a 12-byte nonce and a plaintext, with no
/// associated data: the ciphertext followed by the 16-byte tag.
pub uninterp spec fn aes256gcm_seal_spec(key: Seq<u8>, nonce: Seq<u8>, plain: Seq<u8>) -> Seq<u8>;

/// What `Aes256Gcm::decrypt` returns for a key, a 12-byte nonce and a sealed message,
/// with no associated data: `None` where the tag does not authenticate it.
pub uninterp spec fn aes256gcm_open_spec(key: Seq<u8>, nonce: Seq<u8>, sealed: Seq<u8>) -> Option<Seq<u8>>;

/// `aes_gcm::Aes256Gcm::encrypt` with no associated data. The crate refuses only a
/// plaintext longer than its `P_MAX`.
#[verifier::external_body]
pub(crate) fn aes256gcm_seal(key: &[u8; 32], nonce: &[u8; 12], plain: &[u8]) -> (r: Option<Vec<u8>>)
    ensures
        r is Some <==> plain@.len() <= aes_gcm_max_plaintext(),
        r matches Some(c) ==> c@ == aes256gcm_seal_spec(key@, nonce@, plain@),
{
    let cipher = aes_gcm::Aes256Gcm::new(aes_gcm::Key::<aes_gcm::Aes256Gcm>::from_slice(key));
    cipher.encrypt(aes_gcm::Nonce::from_slice(nonce), plain).ok()
}

/// `aes_gcm::Aes256Gcm::decrypt` with no associated data. What `encrypt` sealed under
/// the same key and nonce opens to the original plaintext (the AEAD round trip); what
/// else opens, and to what, is left to the name.
#[verifier::external_body]
pub(crate) fn aes256gcm_open(key: &[u8; 32], nonce: &[u8], sealed: &[u8]) -> (r: Option<Vec<u8>>)
    requires
        nonce@.len() == 12,
    ensures
        r is Some <==> aes256gcm_open_spec(key@, nonce@, sealed@) is Some,
        r matches Some(v) ==> aes256gcm_open_spec(key@, nonce@, sealed@) == Some(v@),
        r is None ==> forall|p: Seq<u8>|
            p.len() <= aes_gcm_max_plaintext() ==> sealed@ != #[trigger] aes256gcm_seal_spec(key@, nonce@, p),
        r matches Some(v) ==> forall|p: Seq<u8>|
            p.len() <= aes_gcm_max_plaintext() && sealed@ == #[trigger] aes256gcm_seal_spec(key@, nonce@, p)
                ==> v@ == p,
{
    let cipher = aes_gcm::Aes256Gcm::new(aes_gcm::Key::<aes_gcm::Aes256Gcm>::from_slice(key));
    cipher.decrypt(aes_gcm::Nonce::from_slice(nonce), sealed).ok()
}

/// Twelve bytes from `rand::thread_rng`. Nothing is promised of their value.
#[verifier::external_body]
pub(crate) fn random_nonce() -> (r: [u8; 12]) {
    let mut n = [0u8; 12];
    rand::thread_rng().fill_bytes(&mut n);
    n
}

} // verus!
