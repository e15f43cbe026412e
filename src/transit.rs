//! Opening of transit envelopes: base64, a 12-byte nonce, AES-256-GCM, then JSON.
use vstd::prelude::*;
use vstd::string::StringSliceAdditionalSpecFns;
use vstd::utf8::encode_utf8;
use crate::error::SecretError;
use crate::key::{bucket_of, derive_key, transit_key, DIGEST_LEN};

verus! {

#[verifier::external_type_specification]
#[verifier::external_body]
pub struct ExJsonValue(serde_json::Value);

#[verifier::external_type_specification]
#[verifier::external_body]
pub struct ExJsonError(serde_json::Error);

#[verifier::external_type_specification]
#[verifier::external_body]
pub struct ExDecodeError(base64::DecodeError);

/// Length in bytes of the nonce that starts a decoded envelope.
pub const NONCE_LEN: usize = 12;

/// Length in bytes of the authentication tag that ends sealed data.
pub const TAG_LEN: usize = 16;

/// Length in bytes of an AES-256 key.
pub const AES_256_KEY_LEN: usize = 32;

/// The bytes that standard base64 (with padding) decodes `text` to, if it is valid.
pub uninterp spec fn base64_decoded(text: Seq<char>) -> Option<Seq<u8>>;

/// Relies on base64's `Engine::decode` with the STANDARD engine: the decoded bytes,
/// or an error when the text is not valid standard base64.
#[verifier::external_body]
fn base64_decode(text: &str) -> (r: Result<Vec<u8>, base64::DecodeError>)
    ensures
        match r {
            Ok(bytes) => base64_decoded(text@) == Some(bytes@),
            Err(_) => base64_decoded(text@) is None,
        },
{
    base64::Engine::decode(&base64::engine::general_purpose::STANDARD, text)
}

/// What AES-256-GCM authenticated decryption of `sealed` (ciphertext followed by
/// its tag) under `key` and `nonce`, with empty associated data, recovers; `None`
/// when the tag does not verify.
pub uninterp spec fn aes_256_gcm_open_of(key: Seq<u8>, nonce: Seq<u8>, sealed: Seq<u8>) -> Option<Seq<u8>>;

/// Why the cipher refused to open sealed data.
#[derive(Clone, Copy, Debug, PartialEq, Eq, Structural)]
pub enum AeadFailure {
    /// The key is not an AES-256 key.
    KeyRejected,
    /// The nonce has the wrong length.
    NonceRejected,
    /// The tag did not verify.
    Unauthentic,
}

/// Relies on ring::aead: `UnboundKey::new` with AES_256_GCM fails unless the key is
/// 32 bytes; `Nonce::try_assume_unique_for_key` fails unless the nonce is 12 bytes;
/// `LessSafeKey::open_in_place` with empty associated data gives the authenticated
/// plaintext, or fails.
#[verifier::external_body]
fn aes_256_gcm_open(key: &[u8], nonce: &[u8], sealed: Vec<u8>) -> (r: Result<Vec<u8>, AeadFailure>)
    ensures
        (r matches Err(AeadFailure::KeyRejected)) <==> key@.len() != AES_256_KEY_LEN,
        (r matches Err(AeadFailure::NonceRejected)) <==> (key@.len() == AES_256_KEY_LEN && nonce@.len() != NONCE_LEN),
        r is Ok ==> aes_256_gcm_open_of(key@, nonce@, sealed@) == Some(r->Ok_0@),
        r is Ok ==> r->Ok_0@.len() + TAG_LEN == sealed@.len(),
        (r matches Err(AeadFailure::Unauthentic)) ==> aes_256_gcm_open_of(key@, nonce@, sealed@) is None,
{
    let k = match ring::aead::UnboundKey::new(&ring::aead::AES_256_GCM, key) {
        Ok(k) => k,
        Err(_) => return Err(AeadFailure::KeyRejected),
    };
    let n = match ring::aead::Nonce::try_assume_unique_for_key(nonce) {
        Ok(n) => n,
        Err(_) => return Err(AeadFailure::NonceRejected),
    };
    let mut buf = sealed;
    match ring::aead::LessSafeKey::new(k).open_in_place(n, ring::aead::Aad::empty(), &mut buf) {
        Ok(plain) => Ok(plain.to_vec()),
        Err(_) => Err(AeadFailure::Unauthentic),
    }
}

/// Whether serde_json reads `bytes` as one JSON value (within its nesting limit).
pub uninterp spec fn json_accepts(bytes: Seq<u8>) -> bool;

/// The JSON value serde_json reads from `bytes`, where it reads one.
pub uninterp spec fn json_value_of(bytes: Seq<u8>) -> serde_json::Value;

/// Relies on serde_json::from_slice into a `Value`: the parsed value, or an error on
/// bytes it does not read as one JSON value; both depend on the bytes alone.
#[verifier::external_body]
fn parse_json(bytes: &[u8]) -> (r: Result<serde_json::Value, serde_json::Error>)
    ensures
        r is Ok <==> json_accepts(bytes@),
        r is Ok ==> r->Ok_0 == json_value_of(bytes@),
{
    serde_json::from_slice(bytes)
}

#[verifier::external_type_specification]
#[verifier::external_body]
pub struct ExSystemTime(std::time::SystemTime);

#[verifier::external_type_specification]
#[verifier::external_body]
pub struct ExSystemTimeError(std::time::SystemTimeError);

/// Relies on std's `SystemTime::now`: the current system time. Nothing is promised of it.
pub assume_specification[ std::time::SystemTime::now ]() -> std::time::SystemTime;

/// Relies on std's `SystemTime::duration_since`: the time elapsed since `earlier`, or an
/// error when `earlier` is later. Nothing is promised of the value.
pub assume_specification[ std::time::SystemTime::duration_since ](
    t: &std::time::SystemTime,
    earlier: std::time::SystemTime,
) -> Result<std::time::Duration, std::time::SystemTimeError>;

/// Relies on std's `Duration::as_secs`: the whole seconds of a duration.
pub assume_specification[ std::time::Duration::as_secs ](d: &std::time::Duration) -> u64;

/// Relies on std's `UNIX_EPOCH` constant, the system time of the epoch.
#[verifier::external_body]
fn unix_epoch() -> std::time::SystemTime {
    std::time::UNIX_EPOCH
}

/// Whole seconds since the UNIX epoch by the system clock, or `None` when the clock
/// reads before it.
fn unix_seconds() -> Option<u64> {
    match std::time::SystemTime::now().duration_since(unix_epoch()) {
        Ok(elapsed) => Some(elapsed.as_secs()),
        Err(_) => None,
    }
}

/// The bytes an envelope decodes to, or why it cannot be opened at all.
pub open spec fn envelope_bytes(envelope: Seq<char>) -> Result<Seq<u8>, SecretError> {
    match base64_decoded(envelope) {
        None => Err(SecretError::InvalidEncoding),
        Some(bytes) => if bytes.len() < NONCE_LEN {
            Err(SecretError::TruncatedCiphertext)
        } else {
            Ok(bytes)
        },
    }
}

/// The plaintext of decoded envelope bytes under `key`: the first 12 bytes are the
/// nonce, the rest is the ciphertext with its tag.
pub open spec fn sealed_plaintext(key: Seq<u8>, bytes: Seq<u8>) -> Result<Seq<u8>, SecretError> {
    if bytes.len() < NONCE_LEN {
        Err(SecretError::TruncatedCiphertext)
    } else if key.len() != AES_256_KEY_LEN {
        Err(SecretError::KeyConstructionFailed)
    } else {
        match aes_256_gcm_open_of(key, bytes.take(NONCE_LEN as int), bytes.skip(NONCE_LEN as int)) {
            None => Err(SecretError::DecryptionFailed),
            Some(plain) => Ok(plain),
        }
    }
}

/// The plaintext of `envelope` under the key of `bucket`, or the first failure.
pub open spec fn transit_plaintext(
    credential: Seq<u8>,
    envelope: Seq<char>,
    bucket: nat,
    key_length: nat,
) -> Result<Seq<u8>, SecretError> {
    match envelope_bytes(envelope) {
        Err(e) => Err(e),
        Ok(bytes) => if key_length > DIGEST_LEN {
            Err(SecretError::KeyConstructionFailed)
        } else {
            sealed_plaintext(transit_key(credential, bucket, key_length), bytes)
        },
    }
}

/// The outcome of transit decryption: the plaintext when it is JSON text, else the
/// first failure.
pub open spec fn transit_outcome(
    credential: Seq<u8>,
    envelope: Seq<char>,
    bucket: nat,
    key_length: nat,
) -> Result<Seq<u8>, SecretError> {
    match transit_plaintext(credential, envelope, bucket, key_length) {
        Err(e) => Err(e),
        Ok(plain) => if json_accepts(plain) {
            Ok(plain)
        } else {
            Err(SecretError::MalformedPlaintext)
        },
    }
}

/// A byte result seen as sequences.
pub open spec fn bytes_view(r: Result<Vec<u8>, SecretError>) -> Result<Seq<u8>, SecretError> {
    match r {
        Ok(v) => Ok(v@),
        Err(e) => Err(e),
    }
}

/// A decrypted value agrees with an outcome: on success it is the JSON value of the
/// outcome's plaintext, and on failure it is the outcome's error.
pub open spec fn agrees(r: Result<serde_json::Value, SecretError>, outcome: Result<Seq<u8>, SecretError>) -> bool {
    match r {
        Ok(v) => outcome is Ok && v == json_value_of(outcome->Ok_0),
        Err(e) => outcome == Err::<Seq<u8>, SecretError>(e),
    }
}

/// An envelope that decodes to a 12-byte nonce followed by data that AES-256-GCM
/// opens, under the 32-byte key of the decrypting bucket, to JSON text decrypts to
/// the JSON value of exactly that text: what the sender sealed under that bucket's
/// key comes back, and any result that agrees with the outcome is that value.
pub proof fn lemma_round_trip(
    credential: Seq<u8>,
    envelope: Seq<char>,
    nonce: Seq<u8>,
    sealed: Seq<u8>,
    plain: Seq<u8>,
    bucket: nat,
    r: Result<serde_json::Value, SecretError>,
)
    requires
        nonce.len() == NONCE_LEN,
        base64_decoded(envelope) == Some(nonce + sealed),
        aes_256_gcm_open_of(transit_key(credential, bucket, AES_256_KEY_LEN as nat), nonce, sealed)
            == Some(plain),
        json_accepts(plain),
        agrees(r, transit_outcome(credential, envelope, bucket, AES_256_KEY_LEN as nat)),
    ensures
        transit_outcome(credential, envelope, bucket, AES_256_KEY_LEN as nat) == Ok::<
            Seq<u8>,
            SecretError,
        >(plain),
        r == Ok::<serde_json::Value, SecretError>(json_value_of(plain)),
{
    let bytes = nonce + sealed;
    assert(bytes.take(NONCE_LEN as int) =~= nonce);
    assert(bytes.skip(NONCE_LEN as int) =~= sealed);
}

/// Decryption depends on the time only through its bucket: two instants in the same
/// bucket give the same outcome, and so the same result from any two calls that
/// agree with it.
pub proof fn lemma_same_bucket_same_result(
    credential: Seq<u8>,
    envelope: Seq<char>,
    t1: nat,
    t2: nat,
    width: nat,
    key_length: nat,
    r1: Result<serde_json::Value, SecretError>,
    r2: Result<serde_json::Value, SecretError>,
)
    requires
        width > 0,
        bucket_of(t1, width) == bucket_of(t2, width),
        agrees(r1, transit_outcome(credential, envelope, bucket_of(t1, width), key_length)),
        agrees(r2, transit_outcome(credential, envelope, bucket_of(t2, width), key_length)),
    ensures
        r1 == r2,
{
}

/// Sealed data that AES-256-GCM refuses under the bucket's key (as an altered
/// ciphertext or tag is refused) ends in a decryption failure, never in a value.
pub proof fn lemma_tampered_envelope_fails(
    credential: Seq<u8>,
    envelope: Seq<char>,
    bucket: nat,
)
    requires
        base64_decoded(envelope) is Some,
        base64_decoded(envelope)->Some_0.len() >= NONCE_LEN,
        aes_256_gcm_open_of(
            transit_key(credential, bucket, AES_256_KEY_LEN as nat),
            base64_decoded(envelope)->Some_0.take(NONCE_LEN as int),
            base64_decoded(envelope)->Some_0.skip(NONCE_LEN as int),
        ) is None,
    ensures
        transit_outcome(credential, envelope, bucket, AES_256_KEY_LEN as nat) == Err::<
            Seq<u8>,
            SecretError,
        >(SecretError::DecryptionFailed),
{
}

/// Decryption never succeeds with plaintext that the cipher did not authenticate:
/// a successful outcome is what AES-256-GCM recovers from the envelope's nonce and
/// sealed data under the bucket's key. Any change to them that the tag detects
/// therefore ends in failure.
pub proof fn lemma_success_is_authenticated(
    credential: Seq<u8>,
    envelope: Seq<char>,
    bucket: nat,
    key_length: nat,
)
    requires
        transit_outcome(credential, envelope, bucket, key_length) is Ok,
    ensures
        key_length == AES_256_KEY_LEN,
        base64_decoded(envelope) is Some,
        ({
            let bytes = base64_decoded(envelope)->Some_0;
            aes_256_gcm_open_of(
                transit_key(credential, bucket, key_length),
                bytes.take(NONCE_LEN as int),
                bytes.skip(NONCE_LEN as int),
            ) == Some(transit_outcome(credential, envelope, bucket, key_length)->Ok_0)
        }),
{
}

/// An envelope that decodes to fewer than 12 bytes fails as truncated, whatever
/// the credential, bucket and key length.
pub proof fn lemma_truncated_envelope(
    credential: Seq<u8>,
    envelope: Seq<char>,
    bucket: nat,
    key_length: nat,
)
    requires
        base64_decoded(envelope) is Some,
        base64_decoded(envelope)->Some_0.len() < NONCE_LEN,
    ensures
        transit_outcome(credential, envelope, bucket, key_length) == Err::<Seq<u8>, SecretError>(
            SecretError::TruncatedCiphertext,
        ),
{
}

/// Decodes a base64 envelope and checks that it holds at least a nonce.
pub fn decode_envelope(envelope: &str) -> (r: Result<Vec<u8>, SecretError>)
    ensures
        bytes_view(r) == envelope_bytes(envelope@),
{
    match base64_decode(envelope) {
        Err(_) => Err(SecretError::InvalidEncoding),
        Ok(bytes) => if bytes.len() < NONCE_LEN {
            Err(SecretError::TruncatedCiphertext)
        } else {
            Ok(bytes)
        },
    }
}

/// Splits decoded envelope bytes into nonce and sealed data and opens them under `key`.
pub fn open_sealed(key: &[u8], bytes: Vec<u8>) -> (r: Result<Vec<u8>, SecretError>)
    ensures
        bytes_view(r) == sealed_plaintext(key@, bytes@),
        r is Ok ==> bytes@.len() >= NONCE_LEN + TAG_LEN,
{
    if bytes.len() < NONCE_LEN {
        return Err(SecretError::TruncatedCiphertext);
    }
    let mut nonce = bytes;
    let sealed = nonce.split_off(NONCE_LEN);
    proof {
        assert(nonce@ =~= bytes@.take(NONCE_LEN as int));
        assert(sealed@ =~= bytes@.skip(NONCE_LEN as int));
    }
    match aes_256_gcm_open(key, nonce.as_slice(), sealed) {
        Ok(plain) => Ok(plain),
        Err(AeadFailure::KeyRejected) => Err(SecretError::KeyConstructionFailed),
        Err(AeadFailure::NonceRejected) => Err(SecretError::NonceConstructionFailed),
        Err(AeadFailure::Unauthentic) => Err(SecretError::DecryptionFailed),
    }
}

/// The plaintext bytes of `ciphertext` under the key of the bucket that `now_secs`
/// falls in.
pub fn transit_plaintext_at(
    apikey: &str,
    ciphertext: &str,
    now_secs: u64,
    key_length: usize,
    bucket_width: u64,
) -> (r: Result<Vec<u8>, SecretError>)
    requires
        bucket_width > 0,
    ensures
        bytes_view(r) == transit_plaintext(
            apikey.spec_bytes(),
            ciphertext@,
            bucket_of(now_secs as nat, bucket_width as nat),
            key_length as nat,
        ),
        r is Ok ==> base64_decoded(ciphertext@)->Some_0.len() >= NONCE_LEN + TAG_LEN,
{
    let bytes = match decode_envelope(ciphertext) {
        Ok(b) => b,
        Err(e) => return Err(e),
    };
    match derive_key(apikey, now_secs, bucket_width, key_length) {
        Some(key) => open_sealed(key.as_slice(), bytes),
        None => Err(SecretError::KeyConstructionFailed),
    }
}

/// Decrypts `ciphertext` with the key of the bucket that `now_secs` falls in and
/// parses the plaintext as JSON.
pub fn transit_decrypt_at(
    apikey: &String,
    ciphertext: &String,
    now_secs: u64,
    key_length: usize,
    bucket_width: u64,
) -> (r: Result<serde_json::Value, SecretError>)
    requires
        bucket_width > 0,
    ensures
        agrees(
            r,
            transit_outcome(
                encode_utf8(apikey@),
                ciphertext@,
                bucket_of(now_secs as nat, bucket_width as nat),
                key_length as nat,
            ),
        ),
        r is Ok ==> base64_decoded(ciphertext@)->Some_0.len() >= NONCE_LEN + TAG_LEN,
{
    let plain = match transit_plaintext_at(apikey.as_str(), ciphertext.as_str(), now_secs, key_length, bucket_width) {
        Ok(p) => p,
        Err(e) => return Err(e),
    };
    match parse_json(plain.as_slice()) {
        Ok(value) => Ok(value),
        Err(_) => Err(SecretError::MalformedPlaintext),
    }
}

/// Decrypts `ciphertext` with the key of the current time bucket and parses the
/// plaintext as JSON. Whatever the clock reads, the result is a clock failure or
/// agrees with decryption at some instant.
pub fn transit_decrypt(
    apikey: &String,
    ciphertext: &String,
    key_length: usize,
    bucket_width: u64,
) -> (r: Result<serde_json::Value, SecretError>)
    requires
        bucket_width > 0,
    ensures
        r == Err::<serde_json::Value, SecretError>(SecretError::ClockError) || exists|now: u64|
            agrees(
                r,
                #[trigger] transit_outcome(
                    encode_utf8(apikey@),
                    ciphertext@,
                    bucket_of(now as nat, bucket_width as nat),
                    key_length as nat,
                ),
            ),
{
    transit_decrypt_with_clock(apikey, ciphertext, unix_seconds(), key_length, bucket_width)
}

/// Decrypts `ciphertext` given a clock reading in seconds since the epoch: a clock
/// failure when the clock read before the epoch (`None`), else decryption with the
/// key of the bucket the reading falls in.
pub fn transit_decrypt_with_clock(
    apikey: &String,
    ciphertext: &String,
    clock: Option<u64>,
    key_length: usize,
    bucket_width: u64,
) -> (r: Result<serde_json::Value, SecretError>)
    requires
        bucket_width > 0,
    ensures
        clock is None ==> r == Err::<serde_json::Value, SecretError>(SecretError::ClockError),
        clock is Some ==> agrees(
            r,
            transit_outcome(
                encode_utf8(apikey@),
                ciphertext@,
                bucket_of(clock->Some_0 as nat, bucket_width as nat),
                key_length as nat,
            ),
        ),
{
    match clock {
        None => Err(SecretError::ClockError),
        Some(now) => transit_decrypt_at(apikey, ciphertext, now, key_length, bucket_width),
    }
}

} // verus!
