use std::collections::HashSet;

use keystore::ascii::to_ascii_lower;
use keystore::envelope::{
    decrypt, decrypt_derived, encrypt, encrypt_derived, encrypt_then_decrypt,
    encrypt_then_decrypt_derived,
};
use keystore::record::{keystore_create, Keystore, KeystoreError};
use keystore::signing::validate_signing_candidate;

#[test]
fn should_encrypt_and_decrypt_secret() {
    let key = vec![0x11u8; 32];
    let secret = b"a secret value".to_vec();
    let aad = b"context".to_vec();
    let (nonce, sealed) = encrypt(&key, &secret, &aad);
    let opened = decrypt(&key, &nonce, &aad, &sealed);
    assert_eq!(opened, Some(secret));
}

#[test]
fn round_trip_recovers_plaintext() {
    let key = vec![0x42u8; 32];
    let plaintext = b"payload bytes".to_vec();
    let aad = b"bound context".to_vec();
    let r = encrypt_then_decrypt(&key, &plaintext, &aad);
    assert_eq!(r, Some(plaintext));

    let key128 = vec![0x24u8; 16];
    let plaintext = b"derived-mode payload".to_vec();
    let aad = b"signing key bytes".to_vec();
    let r = encrypt_then_decrypt_derived(&key128, &plaintext, &aad);
    assert_eq!(r, Some(plaintext));
}

#[test]
fn tampered_aad_fails_authentication() {
    let key = vec![0x33u8; 32];
    let plaintext = b"guarded".to_vec();
    let aad = b"record metadata".to_vec();
    let (nonce, sealed) = encrypt(&key, &plaintext, &aad);
    for i in 0..aad.len() {
        let mut bad = aad.clone();
        bad[i] ^= 0x01;
        assert_eq!(decrypt(&key, &nonce, &bad, &sealed), None);
    }
    let mut bad_key = key.clone();
    bad_key[0] ^= 0x80;
    assert_eq!(decrypt(&bad_key, &nonce, &aad, &sealed), None);

    let key128 = vec![0x55u8; 16];
    let (nonce, sealed) = encrypt_derived(&key128, &plaintext, &aad);
    for i in 0..aad.len() {
        let mut bad = aad.clone();
        bad[i] ^= 0x01;
        assert_eq!(decrypt_derived(&key128, &nonce, &bad, &sealed), None);
    }
}

#[test]
fn nonce_has_cipher_nonce_size() {
    let key = vec![0u8; 32];
    let (nonce, _) = encrypt(&key, b"m", b"a");
    assert_eq!(nonce.len(), 12);

    let key128 = vec![0u8; 16];
    let (nonce, _) = encrypt_derived(&key128, b"m", b"a");
    assert_eq!(nonce.len(), 12);

    let (_, record) = Keystore::create();
    assert_eq!(record.nonce.len(), 24);
}

#[test]
fn nonces_differ_across_runs() {
    let key = vec![9u8; 32];
    let mut seen: HashSet<Vec<u8>> = HashSet::new();
    for _ in 0..1000 {
        let (nonce, _) = encrypt(&key, b"filler", b"aad");
        assert!(seen.insert(nonce), "a nonce repeated across runs");
    }
}

#[test]
fn same_password_same_seed_reproduces_digest_not_ciphertext() {
    let first = keystore_create("hunter2", 5).unwrap();
    let second = keystore_create("hunter2", 5).unwrap();
    assert_eq!(first.digest, second.digest);
    // Same seed: the same signing key is drawn both times.
    assert_eq!(first.sk, second.sk);
    assert_eq!(first.aad, second.aad);
    // The nonce is drawn fresh, so the sealed payload must differ.
    assert_ne!(first.nonce, second.nonce);
    assert_ne!(first.pk, second.pk);
}

#[test]
fn password_digest_matches_known_md5() {
    let record = keystore_create("test123", 0).unwrap();
    let digest = record.digest.as_deref().unwrap();
    assert_eq!(digest, "0xcc03e747a6afbbcbf8be7668acfebee5");
    let expected = format!("0x{}", hex::encode(md5::compute("test123").0));
    assert_eq!(digest, expected);
}

#[test]
fn password_fields_are_prefixed_hex() {
    let record = keystore_create("pw", 1).unwrap();
    let digest = record.digest.as_deref().unwrap();
    let sk = record.sk.as_deref().unwrap();
    assert!(digest.starts_with("0x"));
    assert_eq!(digest.len(), 34);
    assert!(sk.starts_with("0x"));
    assert_eq!(sk.len(), 66);
    // The associated data is the signing key's plain hex.
    assert_eq!(record.aad, sk[2..]);
    assert_eq!(record.pk.len(), 96);
    assert_eq!(record.nonce.len(), 24);
}

#[test]
fn password_record_decrypts_to_lowercased_signing_key() {
    let record = keystore_create("correct horse", 11).unwrap();
    let sk = hex::decode(&record.aad).unwrap();
    let digest = md5::compute("correct horse").0.to_vec();
    let key = to_ascii_lower(&digest);
    let nonce = hex::decode(&record.nonce).unwrap();
    let sealed = hex::decode(&record.pk).unwrap();
    let opened = decrypt_derived(&key, &nonce, &sk, &sealed);
    assert_eq!(opened, Some(to_ascii_lower(&sk)));
}

#[test]
fn empty_password_is_missing_credential() {
    match keystore_create("", 0) {
        Err(e) => assert_eq!(e, KeystoreError::MissingCredential),
        Ok(_) => panic!("an empty password must be refused"),
    }
}

#[test]
fn random_mode_records_well_formed_and_distinct() {
    let (key_a, a) = Keystore::create();
    let (key_b, b) = Keystore::create();
    for record in [&a, &b] {
        assert_eq!(record.pk.len(), 96);
        assert_eq!(record.nonce.len(), 24);
        assert!(!record.aad.is_empty());
        assert!(record.digest.is_none());
        assert!(record.sk.is_none());
        // Bare lowercase hex throughout: in particular no "0x" marker.
        for field in [&record.pk, &record.nonce] {
            assert!(field
                .chars()
                .all(|c| c.is_ascii_hexdigit() && !c.is_ascii_uppercase()));
            assert!(!field.starts_with("0x"));
        }
    }
    assert_eq!(key_a.len(), 32);
    assert_eq!(key_b.len(), 32);
    assert_ne!(key_a, key_b);
    assert_ne!(a.pk, b.pk);
    assert_ne!(a.nonce, b.nonce);
}

#[test]
fn record_reopens_with_its_own_key() {
    let (record, opened) = keystore::record::create_and_reopen();
    let filler = opened.expect("a fresh record must reopen under its own key");
    assert_eq!(filler.len(), 32);
    assert_eq!(record.pk.len(), 96);

    let (key, record) = Keystore::create();
    let opened = keystore::record::open_random_record(&key, &record);
    assert_eq!(opened.expect("the record's own key must open it").len(), 32);
}

#[test]
fn random_mode_key_opens_its_own_record() {
    let (key, record) = Keystore::create();
    let sealed = hex::decode(&record.pk).unwrap();
    let nonce = hex::decode(&record.nonce).unwrap();
    let opened = decrypt(&key, &nonce, record.aad.as_bytes(), &sealed);
    let filler = opened.expect("the record's own key must open it");
    assert_eq!(filler.len(), 32);
}

#[test]
fn zero_candidate_is_rejected() {
    assert_eq!(validate_signing_candidate(&[0u8; 32]), None);
    let mut one = [0u8; 32];
    one[31] = 1;
    assert_eq!(validate_signing_candidate(&one), Some(one.to_vec()));
}

#[test]
fn signing_key_from_seeded_draw_is_valid() {
    let mut rng = fastrand::Rng::with_seed(42);
    let key = keystore::signing::generate_signing_key(&mut rng)
        .expect("a valid candidate within the retry bound");
    assert_eq!(key.len(), 32);
    assert_eq!(validate_signing_candidate(&key), Some(key.clone()));
}
