use base64::engine::general_purpose::STANDARD;
use base64::Engine;
use ring::aead::{Aad, LessSafeKey, Nonce, UnboundKey, AES_256_GCM};
use serde_json::Value;
use vault_transit::key::{push_decimal, time_bucket};
use vault_transit::transit::{decode_envelope, open_sealed, transit_plaintext_at};
use vault_transit::{
    derive_key, transit_decrypt, transit_decrypt_at, transit_decrypt_with_clock, SecretError,
};

const CRED: &str = "s3cr3t-api-key";
const NONCE: [u8; 12] = [7, 1, 2, 3, 4, 5, 6, 7, 8, 9, 10, 11];

fn seal_bytes(key: &[u8], plain: &[u8]) -> Vec<u8> {
    let k = LessSafeKey::new(UnboundKey::new(&AES_256_GCM, key).unwrap());
    let mut buf = plain.to_vec();
    k.seal_in_place_append_tag(Nonce::assume_unique_for_key(NONCE), Aad::empty(), &mut buf)
        .unwrap();
    let mut out = NONCE.to_vec();
    out.extend(buf);
    out
}

fn envelope_for(now: u64, plain: &[u8]) -> String {
    let key = derive_key(CRED, now, 60, 32).unwrap();
    STANDARD.encode(seal_bytes(&key, plain))
}

#[test]
fn decimal_digits() {
    let mut v = Vec::new();
    push_decimal(0, &mut v);
    assert_eq!(v, b"0".to_vec());
    let mut w = b"x".to_vec();
    push_decimal(28_934_401, &mut w);
    assert_eq!(w, b"x28934401".to_vec());
    let mut m = Vec::new();
    push_decimal(u64::MAX, &mut m);
    assert_eq!(m, u64::MAX.to_string().into_bytes());
}

#[test]
fn bucket_is_floor_of_quotient() {
    assert_eq!(time_bucket(125, 60), 2);
    assert_eq!(time_bucket(59, 60), 0);
    assert_eq!(time_bucket(1_700_000_000, 60), 28_333_333);
}

#[test]
fn key_is_truncated_digest_of_bucket_dot_credential() {
    let expected = ring::digest::digest(&ring::digest::SHA256, b"2.s3cr3t-api-key");
    assert_eq!(derive_key(CRED, 125, 60, 32), Some(expected.as_ref().to_vec()));
    assert_eq!(derive_key(CRED, 125, 60, 16), Some(expected.as_ref()[..16].to_vec()));
    assert_eq!(derive_key(CRED, 125, 60, 0), Some(Vec::<u8>::new()));
}

#[test]
fn over_long_key_is_refused() {
    assert_eq!(derive_key(CRED, 125, 60, 33), None);
    assert_eq!(derive_key(CRED, 125, 60, usize::MAX), None);
}

#[test]
fn same_bucket_same_key() {
    assert_eq!(derive_key(CRED, 120, 60, 32), derive_key(CRED, 179, 60, 32));
    assert_eq!(derive_key(CRED, 120, 60, 32), derive_key(CRED, 120, 60, 32));
}

#[test]
fn adjacent_buckets_differ() {
    assert_ne!(derive_key(CRED, 179, 60, 32), derive_key(CRED, 180, 60, 32));
    assert_ne!(derive_key("k", 0, 60, 32), derive_key("k", 60, 60, 32));
}

#[test]
fn round_trip_recovers_value() {
    let text = br#"{"user":"admin","tags":[1,2,3],"nested":{"ok":true}}"#;
    let env = envelope_for(1_000, text);
    let expected: Value = serde_json::from_slice(text).unwrap();
    let got = transit_decrypt_at(&CRED.to_string(), &env, 1_010, 32, 60);
    assert_eq!(got, Ok(expected));
    let plain = transit_plaintext_at(CRED, &env, 1_019, 32, 60);
    assert_eq!(plain, Ok(text.to_vec()));
}

#[test]
fn round_trip_empty_object() {
    let env = envelope_for(0, b"{}");
    let got = transit_decrypt_at(&CRED.to_string(), &env, 59, 32, 60).unwrap();
    assert_eq!(got, Value::Object(serde_json::Map::new()));
}

#[test]
fn adjacent_bucket_fails_to_decrypt() {
    let env = envelope_for(1_000, b"{}");
    let got = transit_decrypt_at(&CRED.to_string(), &env, 1_020, 32, 60);
    assert_eq!(got, Err(SecretError::DecryptionFailed));
}

#[test]
fn flipped_bits_are_detected() {
    let key = derive_key(CRED, 300, 60, 32).unwrap();
    let sealed = seal_bytes(&key, br#"{"a":1}"#);
    for i in 12..sealed.len() {
        for bit in 0..8 {
            let mut bad = sealed.clone();
            bad[i] ^= 1 << bit;
            let env = STANDARD.encode(&bad);
            let got = transit_decrypt_at(&CRED.to_string(), &env, 300, 32, 60);
            assert_eq!(got, Err(SecretError::DecryptionFailed));
        }
    }
}

#[test]
fn wrong_credential_fails() {
    let env = envelope_for(300, b"{}");
    let got = transit_decrypt_at(&"other".to_string(), &env, 300, 32, 60);
    assert_eq!(got, Err(SecretError::DecryptionFailed));
}

#[test]
fn short_envelopes_are_truncated() {
    for n in 0..12usize {
        let env = STANDARD.encode(vec![9u8; n]);
        assert_eq!(decode_envelope(&env), Err(SecretError::TruncatedCiphertext));
        let got = transit_decrypt_at(&CRED.to_string(), &env, 300, 32, 60);
        assert_eq!(got, Err(SecretError::TruncatedCiphertext));
    }
    let got = transit_decrypt_at(&CRED.to_string(), &String::new(), 300, 32, 60);
    assert_eq!(got, Err(SecretError::TruncatedCiphertext));
}

#[test]
fn nonce_only_envelope_fails_authentication() {
    let env = STANDARD.encode(NONCE);
    assert_eq!(decode_envelope(&env), Ok(NONCE.to_vec()));
    let got = transit_decrypt_at(&CRED.to_string(), &env, 300, 32, 60);
    assert_eq!(got, Err(SecretError::DecryptionFailed));
}

#[test]
fn invalid_base64_is_rejected() {
    let got = transit_decrypt_at(&CRED.to_string(), &"not base64!!".to_string(), 300, 32, 60);
    assert_eq!(got, Err(SecretError::InvalidEncoding));
    let got = transit_decrypt(&CRED.to_string(), &"%%%%".to_string(), 32, 60);
    assert_eq!(got, Err(SecretError::InvalidEncoding));
}

#[test]
fn key_lengths_other_than_aes_256_are_rejected() {
    let env = envelope_for(300, b"{}");
    for len in [0usize, 16, 31, 33, 64] {
        let got = transit_decrypt_at(&CRED.to_string(), &env, 300, len, 60);
        assert_eq!(got, Err(SecretError::KeyConstructionFailed));
    }
}

#[test]
fn short_nonce_key_is_rejected_by_open_sealed() {
    assert_eq!(open_sealed(&[0u8; 16], vec![0u8; 40]), Err(SecretError::KeyConstructionFailed));
    assert_eq!(open_sealed(&[0u8; 32], vec![0u8; 5]), Err(SecretError::TruncatedCiphertext));
}

#[test]
fn non_json_plaintext_is_malformed() {
    let env = envelope_for(300, b"plain words, not json");
    let got = transit_decrypt_at(&CRED.to_string(), &env, 300, 32, 60);
    assert_eq!(got, Err(SecretError::MalformedPlaintext));
    let plain = transit_plaintext_at(CRED, &env, 300, 32, 60);
    assert_eq!(plain, Ok(b"plain words, not json".to_vec()));
}

#[test]
fn current_bucket_round_trip() {
    let width: u64 = 1 << 40;
    let now = std::time::SystemTime::now()
        .duration_since(std::time::UNIX_EPOCH)
        .unwrap()
        .as_secs();
    let key = derive_key(CRED, now, width, 32).unwrap();
    let env = STANDARD.encode(seal_bytes(&key, br#""hello""#));
    let got = transit_decrypt(&CRED.to_string(), &env, 32, width);
    assert_eq!(got, Ok(Value::String("hello".to_string())));
}

#[test]
fn error_messages_are_distinct() {
    let all = [
        SecretError::ClockError,
        SecretError::InvalidEncoding,
        SecretError::TruncatedCiphertext,
        SecretError::KeyConstructionFailed,
        SecretError::NonceConstructionFailed,
        SecretError::DecryptionFailed,
        SecretError::MalformedPlaintext,
        SecretError::RetrievalFailed,
        SecretError::UsageError,
    ];
    for (i, a) in all.iter().enumerate() {
        for b in all.iter().skip(i + 1) {
            assert_ne!(a.message(), b.message());
        }
    }
    assert_eq!(SecretError::TruncatedCiphertext.message(), "Ciphertext is too short");
}

#[test]
fn clock_before_epoch_is_clock_error() {
    let env = envelope_for(300, b"{}");
    let got = transit_decrypt_with_clock(&CRED.to_string(), &env, None, 32, 60);
    assert_eq!(got, Err(SecretError::ClockError));
    let got = transit_decrypt_with_clock(&CRED.to_string(), &"%%".to_string(), None, 32, 60);
    assert_eq!(got, Err(SecretError::ClockError));
}

#[test]
fn clock_reading_picks_the_bucket() {
    let env = envelope_for(300, br#"[1,"two"]"#);
    let expected: Value = serde_json::from_str(r#"[1,"two"]"#).unwrap();
    let got = transit_decrypt_with_clock(&CRED.to_string(), &env, Some(359), 32, 60);
    assert_eq!(got, Ok(expected));
    let got = transit_decrypt_with_clock(&CRED.to_string(), &env, Some(360), 32, 60);
    assert_eq!(got, Err(SecretError::DecryptionFailed));
}

#[test]
fn sealed_data_shorter_than_tag_fails() {
    let mut short = NONCE.to_vec();
    short.extend([0u8; 15]);
    let env = STANDARD.encode(&short);
    let got = transit_decrypt_at(&CRED.to_string(), &env, 300, 32, 60);
    assert_eq!(got, Err(SecretError::DecryptionFailed));
}
