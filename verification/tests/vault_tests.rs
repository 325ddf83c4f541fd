//! Vault, key store and encryption behaviour on concrete values.

use std::collections::HashSet;

use otp_vault::crypto::{decrypt, encrypt, generate_key};
use otp_vault::errors::CoreError;
use otp_vault::keystore::load_or_create_key;
use otp_vault::vault::{
    clear_credentials, get_credentials, load_credentials, save_credentials, Session,
};

#[test]
fn encrypt_decrypt_round_trip() {
    let key = generate_key();
    let plaintext = b"{\"server_url\":\"http://host\",\"api_token\":\"tok\"}";
    let blob = encrypt(plaintext, &key).unwrap();
    assert_eq!(blob.len(), plaintext.len() + 28);
    let opened = decrypt(&blob, &key).unwrap();
    assert_eq!(opened, plaintext.to_vec());
}

#[test]
fn decrypt_with_wrong_key_fails() {
    let key = generate_key();
    let other = generate_key();
    let blob = encrypt(b"secret", &key).unwrap();
    assert_eq!(decrypt(&blob, &other), Err(CoreError::Decrypt));
}

#[test]
fn decrypt_short_blob_fails() {
    let key = generate_key();
    assert_eq!(decrypt(&[], &key), Err(CoreError::Decrypt));
    assert_eq!(decrypt(&[0u8; 11], &key), Err(CoreError::Decrypt));
}

#[test]
fn tamper_detection_every_byte() {
    let key = generate_key();
    let blob = encrypt(b"a credential record", &key).unwrap();
    for i in 0..blob.len() {
        let mut bad = blob.clone();
        bad[i] ^= 0x01;
        assert_eq!(decrypt(&bad, &key), Err(CoreError::Decrypt), "byte {i} undetected");
    }
}

#[test]
fn nonce_uniqueness_over_many_calls() {
    let key = generate_key();
    let mut seen: HashSet<Vec<u8>> = HashSet::new();
    for _ in 0..10_000 {
        let blob = encrypt(b"x", &key).unwrap();
        assert!(seen.insert(blob[..12].to_vec()), "nonce repeated");
    }
    assert_eq!(seen.len(), 10_000);
}

#[test]
fn key_generation_and_reload() {
    let km = load_or_create_key(None).unwrap();
    assert_eq!(km.key.len(), 32);
    let text = km.persist.clone().expect("fresh key must come with text to persist");
    // The persisted text is real base64 of the key, not the key itself.
    assert_ne!(text, km.key);
    assert_eq!(base64::Engine::decode(&base64::engine::general_purpose::STANDARD, &text).unwrap(), km.key);
    // Feeding the text back yields the same key and persists nothing new.
    let km2 = load_or_create_key(Some(text)).unwrap();
    assert_eq!(km2.key, km.key);
    assert!(km2.persist.is_none());
}

#[test]
fn key_text_is_trimmed() {
    let km = load_or_create_key(None).unwrap();
    let mut text = b"\n  ".to_vec();
    text.extend_from_slice(&km.persist.clone().unwrap());
    text.extend_from_slice(b"\r\n");
    let km2 = load_or_create_key(Some(text)).unwrap();
    assert_eq!(km2.key, km.key);
}

#[test]
fn bad_key_text_is_invalid_key() {
    assert!(matches!(load_or_create_key(Some(b"!not base64!".to_vec())), Err(CoreError::InvalidKey)));
    let short = base64::Engine::encode(&base64::engine::general_purpose::STANDARD, [7u8; 16]);
    assert!(matches!(
        load_or_create_key(Some(short.into_bytes())),
        Err(CoreError::InvalidKey)
    ));
}

#[test]
fn vault_not_configured_is_false_then_get_fails() {
    let mut session = Session::new();
    assert_eq!(load_credentials(&mut session, None, None), Ok(false));
    assert_eq!(load_credentials(&mut session, Some(vec![1, 2, 3]), None), Ok(false));
    assert_eq!(load_credentials(&mut session, None, Some(vec![1, 2, 3])), Ok(false));
    assert_eq!(get_credentials(&session), Err(CoreError::NotConfigured));
}

#[test]
fn save_then_load_normalizes_url() {
    let km = load_or_create_key(None).unwrap();
    let mut session = Session::new();
    let blob =
        save_credentials(&mut session, "http://host/", "tok".to_string(), &km.key).unwrap();

    let live = get_credentials(&session).unwrap();
    assert_eq!(live.server_url, "http://host");
    assert_eq!(live.api_token, "tok");

    let mut fresh = Session::new();
    let loaded =
        load_credentials(&mut fresh, Some(blob), Some(km.persist.clone().unwrap())).unwrap();
    assert!(loaded);
    let back = get_credentials(&fresh).unwrap();
    assert_eq!(back.server_url, "http://host");
    assert_eq!(back.api_token, "tok");
}

#[test]
fn stored_record_is_canonical_json() {
    let km = load_or_create_key(None).unwrap();
    let mut session = Session::new();
    let blob = save_credentials(
        &mut session,
        "https://otp.example.com///",
        "tok-123".to_string(),
        &km.key,
    )
    .unwrap();
    let plain = decrypt(&blob, &km.key).unwrap();
    assert_eq!(
        plain,
        b"{\"server_url\":\"https://otp.example.com\",\"api_token\":\"tok-123\"}".to_vec()
    );
    let value: serde_json::Value = serde_json::from_slice(&plain).unwrap();
    assert_eq!(value["server_url"], "https://otp.example.com");
    assert_eq!(value["api_token"], "tok-123");
}

#[test]
fn awkward_characters_survive_the_record() {
    let km = load_or_create_key(None).unwrap();
    let mut session = Session::new();
    let token = "quote\" back\\slash \ttab\nnewline é…";
    let blob = save_credentials(&mut session, "http://h", token.to_string(), &km.key).unwrap();

    // Our own parser gets the exact value back…
    let mut fresh = Session::new();
    assert_eq!(
        load_credentials(&mut fresh, Some(blob.clone()), Some(km.persist.clone().unwrap())),
        Ok(true)
    );
    assert_eq!(get_credentials(&fresh).unwrap().api_token, token);

    // …and the stored bytes are plain JSON that serde_json agrees with.
    let plain = decrypt(&blob, &km.key).unwrap();
    let value: serde_json::Value = serde_json::from_slice(&plain).unwrap();
    assert_eq!(value["api_token"], token);
}

#[test]
fn corrupt_blob_is_decrypt_error_and_session_untouched() {
    let km = load_or_create_key(None).unwrap();
    let mut session = Session::new();
    assert_eq!(
        load_credentials(&mut session, Some(vec![0u8; 40]), Some(km.persist.clone().unwrap())),
        Err(CoreError::Decrypt)
    );
    assert_eq!(get_credentials(&session), Err(CoreError::NotConfigured));
}

#[test]
fn bad_key_file_fails_the_load_as_invalid_key() {
    let km = load_or_create_key(None).unwrap();
    let mut session = Session::new();
    let blob = save_credentials(&mut session, "http://h", "t".to_string(), &km.key).unwrap();
    let mut fresh = Session::new();
    assert_eq!(
        load_credentials(&mut fresh, Some(blob), Some(b"***".to_vec())),
        Err(CoreError::InvalidKey)
    );
    assert_eq!(get_credentials(&fresh), Err(CoreError::NotConfigured));
}

#[test]
fn undecodable_record_fails_the_load_as_parse_error() {
    // A blob that decrypts fine but does not hold a credential record.
    let km = load_or_create_key(None).unwrap();
    let blob = encrypt(b"not a record", &km.key).unwrap();
    let mut session = Session::new();
    assert_eq!(
        load_credentials(&mut session, Some(blob), Some(km.persist.clone().unwrap())),
        Err(CoreError::Parse)
    );
}

#[test]
fn clear_empties_the_session() {
    let km = load_or_create_key(None).unwrap();
    let mut session = Session::new();
    save_credentials(&mut session, "http://h", "t".to_string(), &km.key).unwrap();
    assert!(get_credentials(&session).is_ok());
    clear_credentials(&mut session);
    assert_eq!(get_credentials(&session), Err(CoreError::NotConfigured));
    // Clearing twice is fine: absence is not an error.
    clear_credentials(&mut session);
    assert_eq!(get_credentials(&session), Err(CoreError::NotConfigured));
}
