use veronex::http::session::{check_login, LoginAccount};
use std::time::{Duration, SystemTime};

use veronex::domain::entities::{default_num_parallel, ApiKey};
use veronex::domain::enums::{KeyTier, KeyType};
use veronex::domain::services::{
    api_key_from_random, decrypt, decrypt_or_legacy, derive_key, encrypt, generate_api_key, hash_api_key,
    hash_password, hash_token, CryptoError, MIN_KEY_RANDOM,
};
use veronex::domain::value_objects::{
    Email, EvictionReason, ModelInstanceState, ModelName, Prompt, ProviderUrl, StreamToken, Username,
};

fn now() -> SystemTime {
    SystemTime::now()
}

#[test]
fn username_valid_examples() {
    assert!(Username::new("alice").is_ok());
    assert!(Username::new("bob-123").is_ok());
    assert!(Username::new("c_d").is_ok());
}

#[test]
fn username_empty() {
    assert!(Username::new("").is_err());
}

#[test]
fn username_too_long_and_bad_chars_rejected() {
    assert!(Username::new(&"a".repeat(256)).is_err());
    assert!(Username::new(&"a".repeat(255)).is_ok());
    assert!(Username::new("ab cd").is_err());
    assert!(Username::new("ab@cd").is_err());
}

#[test]
fn email_valid_example() {
    assert!(Email::new("a@b.com").is_ok());
}

#[test]
fn email_without_at_or_too_long_rejected() {
    assert!(Email::new("ab.com").is_err());
    let long = format!("{}@b.c", "a".repeat(251));
    assert!(Email::new(&long).is_err());
}

#[test]
fn provider_url_valid_example() {
    assert!(ProviderUrl::new("http://localhost:11434").is_ok());
}

#[test]
fn provider_url_other_scheme_rejected() {
    assert!(ProviderUrl::new("ftp://host").is_err());
    assert_eq!(ProviderUrl::new("https://x.io").unwrap().as_str(), "https://x.io");
}

#[test]
fn model_name_valid() {
    let m = ModelName::new("llama3.2:latest").unwrap();
    assert_eq!(m.as_str(), "llama3.2:latest");
}

#[test]
fn model_name_empty_rejected() {
    assert!(ModelName::new("").is_err());
}

#[test]
fn prompt_valid() {
    let p = Prompt::new("hello").unwrap();
    assert_eq!(p.as_str(), "hello");
}

#[test]
fn prompt_empty_rejected() {
    assert!(Prompt::new("").is_err());
}

#[test]
fn model_state_not_loaded_to_loading_allowed() {
    let from = ModelInstanceState::NotLoaded;
    let to = ModelInstanceState::Loading { started_at: now(), last_progress_at: now() };
    assert!(from.can_transition_to(&to));
}

#[test]
fn model_state_loading_to_loaded_allowed() {
    let from = ModelInstanceState::Loading { started_at: now(), last_progress_at: now() };
    let to = ModelInstanceState::Loaded { loaded_at: now(), weight_bytes: 58 * 1024 * 1024 * 1024 };
    assert!(from.can_transition_to(&to));
}

#[test]
fn model_state_loaded_direct_to_not_loaded_forbidden() {
    let from = ModelInstanceState::Loaded { loaded_at: now(), weight_bytes: 0 };
    let to = ModelInstanceState::NotLoaded;
    assert!(!from.can_transition_to(&to));
}

#[test]
fn model_state_loaded_to_evicted_allowed() {
    let from = ModelInstanceState::Loaded { loaded_at: now(), weight_bytes: 0 };
    let to = ModelInstanceState::Evicted { evicted_at: now(), reason: EvictionReason::KeepAliveExpired };
    assert!(from.can_transition_to(&to));
}

#[test]
fn model_state_failed_to_loading_allowed_for_retry() {
    let from = ModelInstanceState::Failed {
        failed_at: now(),
        reason: "stalled".into(),
        retry_after: now() + Duration::from_secs(60),
    };
    let to = ModelInstanceState::Loading { started_at: now(), last_progress_at: now() };
    assert!(from.can_transition_to(&to));
}

#[test]
fn model_state_evicted_to_loading_allowed() {
    let from = ModelInstanceState::Evicted { evicted_at: now(), reason: EvictionReason::VramPressure };
    let to = ModelInstanceState::Loading { started_at: now(), last_progress_at: now() };
    assert!(from.can_transition_to(&to));
}

#[test]
fn model_state_no_self_transition() {
    let a = ModelInstanceState::NotLoaded;
    let b = ModelInstanceState::NotLoaded;
    assert!(!a.can_transition_to(&b));
    let l = ModelInstanceState::Loaded { loaded_at: now(), weight_bytes: 1 };
    let l2 = ModelInstanceState::Loaded { loaded_at: now(), weight_bytes: 2 };
    assert!(!l.can_transition_to(&l2));
}

#[test]
fn stream_token_constructors() {
    let t = StreamToken::text("hi".to_string());
    assert_eq!(t.value, "hi");
    assert!(!t.is_final);
    let d = StreamToken::done();
    assert!(d.is_final);
    assert!(d.value.is_empty());
}

#[test]
fn default_num_parallel_is_four() {
    assert_eq!(default_num_parallel(), 4);
}

fn make_api_key(rpm: i32, tpm: i32) -> ApiKey {
    ApiKey {
        id: 0x0190_0000_0000_7000_8000_0000_0000_0001,
        key_hash: "a".repeat(64),
        key_prefix: "vnx_01ARZ3N".to_string(),
        tenant_id: "tenant-1".to_string(),
        name: "test-key".to_string(),
        is_active: true,
        rate_limit_rpm: rpm,
        rate_limit_tpm: tpm,
        expires_at: None,
        created_at: 1_700_000_000_000_000,
        deleted_at: None,
        key_type: KeyType::Standard,
        tier: KeyTier::Paid,
        account_id: None,
    }
}

#[test]
fn api_key_creation() {
    let key = make_api_key(0, 0);
    assert_eq!(key.tenant_id, "tenant-1");
    assert_eq!(key.name, "test-key");
    assert!(key.is_active);
    assert_eq!(key.rate_limit_rpm, 0);
    assert_eq!(key.rate_limit_tpm, 0);
    assert!(key.expires_at.is_none());
    assert_eq!(key.key_hash.len(), 64);
}

#[test]
fn api_key_with_rate_limits() {
    let key = make_api_key(100, 50_000);
    assert_eq!(key.rate_limit_rpm, 100);
    assert_eq!(key.rate_limit_tpm, 50_000);
}

#[test]
fn api_key_with_expiry() {
    let mut key = make_api_key(0, 0);
    let thirty_days_us: i64 = 30 * 24 * 3600 * 1_000_000;
    key.expires_at = Some(key.created_at + thirty_days_us);
    assert!(key.expires_at.is_some());
}

#[test]
fn api_key_inactive() {
    let mut key = make_api_key(0, 0);
    key.is_active = false;
    assert!(!key.is_active);
}

#[test]
fn generate_api_key_structure_example() {
    let k = generate_api_key();
    assert_eq!((k.id >> 76) & 0xf, 7);
    assert!(k.plaintext.starts_with("iq_"));
    assert_eq!(k.key_prefix.len(), 12);
    assert_eq!(&k.plaintext[..12], k.key_prefix);
    assert_eq!(k.key_hash, hash_api_key(&k.plaintext));
    assert_eq!(k.key_hash.len(), 64);
    assert!(k.key_hash.chars().all(|c| c.is_ascii_hexdigit()));
}

#[test]
fn api_key_from_random_is_prefix_plus_base62() {
    let k = api_key_from_random(1, MIN_KEY_RANDOM);
    assert_eq!(k.plaintext, "iq_100000000");
    assert_eq!(k.key_prefix, "iq_100000000");
    let k2 = api_key_from_random(2, u128::MAX);
    assert_eq!(k2.plaintext, "iq_7n42DGM5Tflk9n8mt7Fhc7");
    assert_eq!(k2.key_prefix, "iq_7n42DGM5T");
}

#[test]
fn hash_api_key_is_hex_blake2b_256() {
    let h = hash_api_key("abc");
    assert_eq!(h, "bddd813c634239723171ef3fee98579b94964e3bb1cb3e427262c8c068d52319");
    assert_eq!(hash_api_key("abc"), h);
    assert_ne!(hash_api_key("abd"), h);
}

#[test]
fn hash_token_prefixes_context() {
    let t = hash_token("tok");
    assert_eq!(t.len(), 64);
    assert_ne!(t, hash_api_key("tok"));
    assert_eq!(t, hash_api_key("veronex-refresh-token-v1:tok"));
}

#[test]
fn encrypt_decrypt_roundtrip_example() {
    let key = derive_key("test-master-key-for-unit-tests");
    let plaintext = "AIzaSyD-test-api-key-12345";
    let encrypted = encrypt(plaintext, &key).unwrap();
    assert_ne!(encrypted, plaintext);
    let decrypted = decrypt(&encrypted, &key).unwrap();
    assert_eq!(decrypted, plaintext);
}

#[test]
fn legacy_plaintext_detected_as_needing_re_encrypt() {
    let key = derive_key("key");
    let (plaintext, needs) = decrypt_or_legacy("AIzaSyD-test-api-key", &key);
    assert_eq!(plaintext, "AIzaSyD-test-api-key");
    assert!(needs, "legacy plaintext should flag needs_re_encrypt");
}

#[test]
fn corrupted_ciphertext_not_treated_as_legacy() {
    let key1 = derive_key("key-one");
    let key2 = derive_key("key-two");
    let encrypted = encrypt("secret-value", &key1).unwrap();
    let (value, needs) = decrypt_or_legacy(&encrypted, &key2);
    assert_eq!(value, encrypted);
    assert!(!needs, "corrupted ciphertext must not be flagged for re-encryption");
}

#[test]
fn decrypt_errors_name_their_step() {
    let key = derive_key("k");
    assert!(matches!(decrypt("!!!", &key), Err(CryptoError::Base64(_))));
    assert!(matches!(decrypt("AAAA", &key), Err(CryptoError::TooShort)));
    let other = encrypt("x", &derive_key("other")).unwrap();
    assert!(matches!(decrypt(&other, &key), Err(CryptoError::Decrypt(_))));
    assert_eq!(CryptoError::TooShort.to_string(), "ciphertext too short");
}

#[test]
fn derive_key_is_sha256_of_secret() {
    let k = derive_key("abc");
    assert_eq!(k[0], 0xba);
    assert_eq!(k[31], 0xad);
    assert_eq!(derive_key("abc"), k);
}

#[test]
fn hash_password_gives_phc_string() {
    let h = hash_password("correct horse").unwrap();
    assert!(h.starts_with("$argon2id$v=19$m=19456,t=2,p=1$"));
}

#[test]
fn hashed_password_verifies_at_login() {
    let h = hash_password("correct horse").unwrap();
    let account = LoginAccount { is_active: true, password_hash: h };
    assert!(check_login(Some(&account), "correct horse").is_ok());
    assert!(check_login(Some(&account), "wrong horse").is_err());
}

#[test]
fn generated_key_id_is_uuid_v7() {
    let k = generate_api_key();
    assert_eq!((k.id >> 76) & 0xf, 7);
    assert_eq!((k.id >> 62) & 0x3, 2);
}
