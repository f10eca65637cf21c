use cli_music_player::config::crypto::{decrypt_password, derive_key, encrypt_password};
use cli_music_player::config::models::{EQPreset, ServerConfig};
use cli_music_player::config::presets::{default_eq_presets, default_preset_names};
use cli_music_player::config::AppConfig;
use cli_music_player::json::{as_array, as_str, JsonNumber, JsonValue, NumberRepr};
use aes_gcm::aead::{Aead, KeyInit};
use base64::Engine;

// ── Helpers ─────────────────────────────────────────────────────

fn key() -> [u8; 32] {
    [7u8; 32]
}

fn other_key() -> [u8; 32] {
    [9u8; 32]
}

/// A configuration with no document to read (a fresh directory).
fn fresh() -> AppConfig {
    AppConfig::load_from(key(), None)
}

/// Save the configuration and read the document back.
fn reload(config: &AppConfig) -> AppConfig {
    let doc = config.save_document();
    AppConfig::load_from(key(), Some(&doc))
}

fn s(t: &str) -> JsonValue {
    JsonValue::String(t.to_string())
}

fn u(n: u64) -> JsonValue {
    JsonValue::Number(JsonNumber { repr: NumberRepr::PosInt(n), f64_bits: (n as f64).to_bits() })
}

fn f(x: f64) -> JsonValue {
    JsonValue::Number(JsonNumber { repr: NumberRepr::Float(format!("{x:?}")), f64_bits: x.to_bits() })
}

fn b(x: bool) -> JsonValue {
    JsonValue::Bool(x)
}

fn arr(items: Vec<JsonValue>) -> JsonValue {
    JsonValue::Array(items)
}

fn obj(entries: Vec<(&str, JsonValue)>) -> JsonValue {
    JsonValue::Object(entries.into_iter().map(|(k, v)| (k.to_string(), v)).collect())
}

fn text(v: &JsonValue, k: &str) -> String {
    as_str(v.member(k)).unwrap().to_string()
}

fn bits(gains: &[f64]) -> Vec<u64> {
    gains.iter().map(|g| g.to_bits()).collect()
}

fn gain(b: u64) -> f64 {
    f64::from_bits(b)
}

// ── Password Encryption Tests ───────────────────────────────────

#[test]
fn test_encrypt_decrypt_roundtrip() {
    let password = "my_secret_password";
    let encrypted = encrypt_password(password, &key());
    let decrypted = decrypt_password(&encrypted, &key()).unwrap();
    assert_eq!(decrypted, password);
}

#[test]
fn test_encrypt_produces_different_outputs() {
    let password = "test_password";
    let enc1 = encrypt_password(password, &key());
    let enc2 = encrypt_password(password, &key());
    // Different nonces should produce different ciphertexts
    assert_ne!(enc1, enc2);
}

#[test]
fn test_decrypt_invalid_data() {
    let result = decrypt_password("not-valid-base64!!!", &key());
    assert!(result.is_err());
}

#[test]
fn test_decrypt_empty_string() {
    let result = decrypt_password("", &key());
    assert!(result.is_err());
}

#[test]
fn test_encrypt_empty_password() {
    let encrypted = encrypt_password("", &key());
    let decrypted = decrypt_password(&encrypted, &key()).unwrap();
    assert_eq!(decrypted, "");
}

#[test]
fn test_encrypt_unicode_password() {
    let password = "пароль_密码_🔐";
    let encrypted = encrypt_password(password, &key());
    let decrypted = decrypt_password(&encrypted, &key()).unwrap();
    assert_eq!(decrypted, password);
}

#[test]
fn test_encrypt_long_password() {
    let password = "a".repeat(1000);
    let encrypted = encrypt_password(&password, &key());
    let decrypted = decrypt_password(&encrypted, &key()).unwrap();
    assert_eq!(decrypted, password);
}

// ── ServerConfig Tests ──────────────────────────────────────────

#[test]
fn test_server_config_to_value() {
    let server = ServerConfig {
        name: "Test Server".to_string(),
        url: "https://music.example.com".to_string(),
        username: "admin".to_string(),
        encrypted_password: "encrypted123".to_string(),
    };
    let value = server.to_value();
    assert_eq!(text(&value, "name"), "Test Server");
    assert_eq!(text(&value, "url"), "https://music.example.com");
    assert_eq!(text(&value, "username"), "admin");
    assert_eq!(text(&value, "_encrypted_password"), "encrypted123");
}

#[test]
fn test_server_config_from_value() {
    let value = obj(vec![
        ("name", s("My Server")),
        ("url", s("https://nd.example.com")),
        ("username", s("user")),
        ("_encrypted_password", s("enc456")),
    ]);
    let server = ServerConfig::from_value(&value).unwrap();
    assert_eq!(server.name, "My Server");
    assert_eq!(server.url, "https://nd.example.com");
    assert_eq!(server.username, "user");
    assert_eq!(server.encrypted_password, "enc456");
}

#[test]
fn test_server_config_from_value_missing_password() {
    let value = obj(vec![("name", s("Server")), ("url", s("https://example.com")), ("username", s("user"))]);
    let server = ServerConfig::from_value(&value).unwrap();
    assert_eq!(server.encrypted_password, "");
}

#[test]
fn test_server_config_from_value_invalid() {
    let value = obj(vec![("name", s("Server"))]);
    // Missing required fields
    assert!(ServerConfig::from_value(&value).is_none());
}

// ── EQPreset Tests ──────────────────────────────────────────────

#[test]
fn test_eq_preset_to_value() {
    let preset = EQPreset { name: "Custom".to_string(), gains: bits(&[1.0; 18]) };
    let value = preset.to_value();
    assert_eq!(text(&value, "name"), "Custom");
    assert_eq!(as_array(value.member("gains")).unwrap().len(), 18);
}

#[test]
fn test_eq_preset_from_value() {
    let gains = [1.0, 2.0, 3.0, 4.0, 5.0, 6.0, 7.0, 8.0, 9.0, 10.0, 11.0, 12.0, 1.0, 2.0, 3.0, 4.0, 5.0, 6.0];
    let value = obj(vec![("name", s("My Preset")), ("gains", arr(gains.iter().map(|&g| f(g)).collect()))]);
    let preset = EQPreset::from_value(&value).unwrap();
    assert_eq!(preset.name, "My Preset");
    assert_eq!(preset.gains.len(), 18);
    assert_eq!(gain(preset.gains[0]), 1.0);
}

// ── AppConfig Tests ─────────────────────────────────────────────

#[test]
fn test_app_config_default_values() {
    let config = fresh();

    assert!(config.servers.is_empty());
    assert_eq!(config.active_server_index, -1);
    assert_eq!(config.volume, 75);
    assert!(!config.shuffle);
    assert_eq!(config.repeat_mode, "off");
    assert_eq!(config.audio_device, "auto");
    assert_eq!(config.active_eq_preset, "Flat");
}

#[test]
fn test_app_config_has_default_presets() {
    let config = fresh();
    let defaults = default_eq_presets();
    assert_eq!(config.eq_presets.len(), defaults.len());
}

#[test]
fn test_app_config_add_server() {
    let mut config = fresh();

    config.add_server("Test", "https://example.com", "user", "pass");

    assert_eq!(config.servers.len(), 1);
    assert_eq!(config.active_server_index, 0);
    assert_eq!(config.servers[0].name, "Test");
}

#[test]
fn test_app_config_remove_server() {
    let mut config = fresh();

    config.add_server("S1", "https://s1.com", "u1", "p1");
    config.add_server("S2", "https://s2.com", "u2", "p2");
    config.set_active_server(1);

    config.remove_server(0);

    assert_eq!(config.servers.len(), 1);
    assert_eq!(config.servers[0].name, "S2");
}

#[test]
fn test_app_config_set_active_server() {
    let mut config = fresh();

    config.add_server("S1", "https://s1.com", "u1", "p1");
    config.add_server("S2", "https://s2.com", "u2", "p2");

    config.set_active_server(1);
    assert_eq!(config.active_server_index, 1);
    assert_eq!(config.active_server().unwrap().name, "S2");
}

#[test]
fn test_app_config_active_server_none() {
    let config = fresh();
    assert!(config.active_server().is_none());
}

#[test]
fn test_app_config_save_and_load() {
    let doc;
    {
        let mut config = fresh();
        config.volume = 50;
        config.shuffle = true;
        config.repeat_mode = "all".to_string();
        config.add_server("Test", "https://example.com", "user", "pass");
        doc = config.save_document();
    }

    {
        let config = AppConfig::load_from(key(), Some(&doc));
        assert_eq!(config.volume, 50);
        assert!(config.shuffle);
        assert_eq!(config.repeat_mode, "all");
        assert_eq!(config.servers.len(), 1);
        assert_eq!(config.servers[0].name, "Test");
    }
}

#[test]
fn test_app_config_get_password() {
    let mut config = fresh();
    config.add_server("Test", "https://example.com", "user", "mypassword");

    let password = config.get_password(Some(&config.servers[0]));
    assert_eq!(password, "mypassword");
}

#[test]
fn test_app_config_get_eq_preset() {
    let config = fresh();

    let flat = config.get_eq_preset("Flat");
    assert!(flat.is_some());
    assert!(flat.unwrap().gains.iter().all(|&g| gain(g) == 0.0));

    let nonexistent = config.get_eq_preset("NonExistent");
    assert!(nonexistent.is_none());
}

#[test]
fn test_app_config_save_custom_eq_preset() {
    let mut config = fresh();

    let gains = bits(&[5.0; 18]);
    config.save_custom_eq_preset("My Preset", &gains);

    let preset = config.get_eq_preset("My Preset");
    assert!(preset.is_some());
    assert_eq!(preset.unwrap().gains, gains);
}

#[test]
fn test_app_config_custom_preset_not_overwrite_default() {
    let mut config = fresh();

    let gains = bits(&[5.0; 18]);
    config.save_custom_eq_preset("Flat", &gains);

    // Should save as "Flat (Custom)" not overwrite default
    let flat = config.get_eq_preset("Flat").unwrap();
    assert!(flat.gains.iter().all(|&g| gain(g) == 0.0));

    let custom = config.get_eq_preset("Flat (Custom)");
    assert!(custom.is_some());
}

#[test]
fn test_app_config_custom_eq_gains_persist() {
    let config;
    {
        let mut c = fresh();
        c.custom_eq_gains =
            bits(&[1.0, 2.0, 3.0, 4.0, 5.0, 6.0, 7.0, 8.0, 9.0, 10.0, 11.0, 12.0, 1.0, 2.0, 3.0, 4.0, 5.0, 6.0]);
        config = reload(&c);
    }

    assert_eq!(gain(config.custom_eq_gains[0]), 1.0);
    assert_eq!(gain(config.custom_eq_gains[17]), 6.0);
}

#[test]
fn test_app_config_audio_device_persists() {
    let config;
    {
        let mut c = fresh();
        c.audio_device = "My USB DAC".to_string();
        config = reload(&c);
    }

    assert_eq!(config.audio_device, "My USB DAC");
}

#[test]
fn test_app_config_url_trailing_slash_stripped() {
    let mut config = fresh();
    config.add_server("Test", "https://example.com/", "user", "pass");
    assert_eq!(config.servers[0].url, "https://example.com");
}

#[test]
fn test_app_config_remove_only_server() {
    let mut config = fresh();
    config.add_server("Only", "https://only.com", "u", "p");
    assert_eq!(config.active_server_index, 0);

    config.remove_server(0);
    assert!(config.servers.is_empty());
    assert_eq!(config.active_server_index, -1);
}

#[test]
fn test_app_config_remove_active_server_adjusts_index() {
    let mut config = fresh();
    config.add_server("S1", "https://s1.com", "u1", "p1");
    config.add_server("S2", "https://s2.com", "u2", "p2");
    config.add_server("S3", "https://s3.com", "u3", "p3");
    config.set_active_server(2);

    config.remove_server(2);
    // Active index should be clamped to remaining servers
    assert!(config.active_server_index < config.servers.len() as i32);
}

#[test]
fn test_app_config_get_password_no_server() {
    let config = fresh();
    assert_eq!(config.get_password(None), "");
}

#[test]
fn test_app_config_set_active_server_out_of_bounds() {
    let mut config = fresh();
    config.add_server("S1", "https://s1.com", "u1", "p1");
    config.set_active_server(999); // Should be no-op
    assert_eq!(config.active_server_index, 0);
}

#[test]
fn test_app_config_multiple_custom_presets() {
    let mut config = fresh();

    config.save_custom_eq_preset("Preset A", &bits(&[1.0; 18]));
    config.save_custom_eq_preset("Preset B", &bits(&[2.0; 18]));

    assert!(config.get_eq_preset("Preset A").is_some());
    assert!(config.get_eq_preset("Preset B").is_some());
    assert_eq!(gain(config.get_eq_preset("Preset A").unwrap().gains[0]), 1.0);
    assert_eq!(gain(config.get_eq_preset("Preset B").unwrap().gains[0]), 2.0);
}

#[test]
fn test_app_config_overwrite_custom_preset() {
    let mut config = fresh();

    config.save_custom_eq_preset("My EQ", &bits(&[3.0; 18]));
    config.save_custom_eq_preset("My EQ", &bits(&[7.0; 18]));

    let preset = config.get_eq_preset("My EQ").unwrap();
    assert_eq!(gain(preset.gains[0]), 7.0);
    // Should not have duplicates
    let count = config.eq_presets.iter().filter(|p| p.name == "My EQ").count();
    assert_eq!(count, 1);
}

// ── Server Edge Cases ───────────────────────────────────────────

#[test]
fn test_app_config_add_many_servers() {
    let mut config = fresh();

    for i in 0..20 {
        config.add_server(
            &format!("Server {i}"),
            &format!("https://s{i}.example.com"),
            &format!("user{i}"),
            &format!("pass{i}"),
        );
    }

    assert_eq!(config.servers.len(), 20);
    // Active stays at 0 (first server added) — add_server only sets index from -1 to 0
    assert_eq!(config.active_server_index, 0);
}

#[test]
fn test_app_config_remove_middle_server_adjusts_active() {
    let mut config = fresh();

    config.add_server("S1", "https://s1.com", "u", "p");
    config.add_server("S2", "https://s2.com", "u", "p");
    config.add_server("S3", "https://s3.com", "u", "p");
    config.set_active_server(2); // S3 is active

    config.remove_server(1); // Remove S2

    // S3 is now at index 1, active index should adjust
    assert_eq!(config.servers.len(), 2);
    assert_eq!(config.servers[0].name, "S1");
    assert_eq!(config.servers[1].name, "S3");
    assert_eq!(config.active_server_index, 1);
}

#[test]
fn test_app_config_set_active_negative_ignored() {
    let mut config = fresh();
    config.add_server("S1", "https://s1.com", "u", "p");

    // Try invalid index - should be no-op
    config.set_active_server(999);
    // Active should remain at 0 (set during add_server)
    assert_eq!(config.active_server_index, 0);
}

#[test]
fn test_app_config_server_password_survives_save_reload() {
    let doc;
    {
        let mut config = fresh();
        config.add_server("Test", "https://example.com", "admin", "secret_password");
        doc = config.save_document();
    }

    {
        let config = AppConfig::load_from(key(), Some(&doc));
        let password = config.get_password(Some(&config.servers[0]));
        assert_eq!(password, "secret_password");
    }
}

#[test]
fn test_app_config_unicode_server_name() {
    let mut config = fresh();
    config.add_server("Сервер 🎵", "https://example.com", "пользователь", "пароль");

    assert_eq!(config.servers[0].name, "Сервер 🎵");

    let password = config.get_password(Some(&config.servers[0]));
    assert_eq!(password, "пароль");
}

// ── Password Encryption Edge Cases ──────────────────────────────

#[test]
fn test_encrypt_special_characters() {
    let password = r#"p@$$w0rd!@#$%^&*()_+-={}[]|;':",./<>?"#;
    let encrypted = encrypt_password(password, &key());
    let decrypted = decrypt_password(&encrypted, &key()).unwrap();
    assert_eq!(decrypted, password);
}

#[test]
fn test_encrypt_very_long_password() {
    let password = "x".repeat(10000);
    let encrypted = encrypt_password(&password, &key());
    let decrypted = decrypt_password(&encrypted, &key()).unwrap();
    assert_eq!(decrypted, password);
}

#[test]
fn test_decrypt_truncated_data() {
    let encrypted = encrypt_password("test", &key());
    // Truncate the base64 string
    let truncated = &encrypted[..encrypted.len() / 2];
    assert!(decrypt_password(truncated, &key()).is_err());
}

#[test]
fn test_decrypt_tampered_data() {
    let encrypted = encrypt_password("test", &key());
    // Tamper with some bytes
    let mut bytes = encrypted.as_bytes().to_vec();
    if bytes.len() > 20 {
        bytes[20] ^= 0xFF;
    }
    let tampered = String::from_utf8_lossy(&bytes).to_string();
    // Should fail decryption (authentication tag check)
    assert!(decrypt_password(&tampered, &key()).is_err());
}

// ── EQ Preset Persistence Edge Cases ────────────────────────────

#[test]
fn test_app_config_many_custom_presets_persist() {
    let config;
    {
        let mut c = fresh();
        for i in 0..50 {
            c.save_custom_eq_preset(&format!("Custom {i}"), &bits(&[(i as f64) % 12.0; 18]));
        }
        config = reload(&c);
    }

    for i in 0..50 {
        let preset = config.get_eq_preset(&format!("Custom {i}"));
        assert!(preset.is_some(), "Custom preset {i} should persist");
    }
}

#[test]
fn test_eq_preset_from_value_wrong_gains_count() {
    let value = obj(vec![("name", s("Bad Preset")), ("gains", arr(vec![f(1.0), f(2.0), f(3.0)]))]);
    // Should still parse (gains will just have 3 elements)
    let preset = EQPreset::from_value(&value);
    assert!(preset.is_some());
    assert_eq!(preset.unwrap().gains.len(), 3);
}

#[test]
fn test_eq_preset_from_value_missing_name() {
    let value = obj(vec![("gains", arr((0..18).map(|_| f(0.0)).collect()))]);
    // Missing name should return None
    assert!(EQPreset::from_value(&value).is_none());
}

#[test]
fn test_server_config_roundtrip() {
    let original = ServerConfig {
        name: "Test Server".to_string(),
        url: "https://music.example.com".to_string(),
        username: "admin".to_string(),
        encrypted_password: "enc123".to_string(),
    };
    let value = original.to_value();
    let restored = ServerConfig::from_value(&value).unwrap();

    assert_eq!(original.name, restored.name);
    assert_eq!(original.url, restored.url);
    assert_eq!(original.username, restored.username);
    assert_eq!(original.encrypted_password, restored.encrypted_password);
}

// ── Volume & Settings Bounds ────────────────────────────────────

#[test]
fn test_app_config_volume_boundaries() {
    let doc;
    {
        let mut config = fresh();
        config.volume = 0;
        doc = config.save_document();
    }
    {
        let config = AppConfig::load_from(key(), Some(&doc));
        assert_eq!(config.volume, 0);
    }

    let doc;
    {
        let mut config = AppConfig::load_from(key(), None);
        config.volume = 100;
        doc = config.save_document();
    }
    {
        let config = AppConfig::load_from(key(), Some(&doc));
        assert_eq!(config.volume, 100);
    }
}

#[test]
fn test_app_config_active_server_none_after_clear() {
    let mut config = fresh();
    config.add_server("S1", "https://s1.com", "u", "p");
    config.add_server("S2", "https://s2.com", "u", "p");

    // Remove all servers
    config.remove_server(1);
    config.remove_server(0);

    assert!(config.servers.is_empty());
    assert!(config.active_server().is_none());
    assert_eq!(config.active_server_index, -1);
}

// ── Documents that are not what save writes ─────────────────────

#[test]
fn test_app_config_corrupt_file_uses_defaults() {
    // A file that does not parse gives no document to read.
    let config = AppConfig::load_from(key(), None);
    assert_eq!(config.volume, 75); // Default
}

#[test]
fn test_app_config_empty_json_file() {
    let config = AppConfig::load_from(key(), Some(&obj(vec![])));
    assert_eq!(config.volume, 75); // Default
    assert!(config.servers.is_empty());
}

#[test]
fn test_app_config_partial_json() {
    let config = AppConfig::load_from(key(), Some(&obj(vec![("volume", u(42))])));
    assert_eq!(config.volume, 42);
    // Other fields should be defaults
    assert!(config.servers.is_empty());
    assert!(!config.shuffle);
}

#[test]
fn test_app_config_extra_unknown_fields_ignored() {
    let doc = obj(vec![("volume", u(50)), ("unknown_field", s("ignored")), ("future_feature", b(true))]);
    let config = AppConfig::load_from(key(), Some(&doc));
    assert_eq!(config.volume, 50);
}

// ── Further cases ───────────────────────────────────────────────

#[test]
fn derive_key_depends_on_host_and_user() {
    let k1 = derive_key("host", "alice");
    let k2 = derive_key("host", "alice");
    let k3 = derive_key("host", "bob");
    assert_eq!(k1, k2);
    assert_ne!(k1, k3);
    let mut expected = [0u8; 32];
    pbkdf2::pbkdf2_hmac::<sha2::Sha256>(b"host:alice", b"cli-music-player-salt-v1", 100_000, &mut expected);
    assert_eq!(k1, expected);
}

#[test]
fn decrypt_errors_name_the_failing_step() {
    let err = decrypt_password("!!!!", &key()).unwrap_err();
    assert!(err.starts_with("base64 decode error: "), "{err}");
    // 8 bytes decode fine but are shorter than a nonce.
    assert_eq!(decrypt_password("AAAAAAAAAAA=", &key()).unwrap_err(), "encrypted data too short");
    let encrypted = encrypt_password("secret", &key());
    assert_eq!(
        decrypt_password(&encrypted, &other_key()).unwrap_err(),
        "Cannot decrypt password. This may happen if the password was encrypted on a different machine. Please re-enter your password."
    );
}

#[test]
fn decrypt_reports_invalid_utf8() {
    let cipher = aes_gcm::Aes256Gcm::new_from_slice(&key()).unwrap();
    let nonce = [3u8; 12];
    let sealed = cipher.encrypt(aes_gcm::Nonce::from_slice(&nonce), &[0xffu8, 0xfe][..]).unwrap();
    let mut combined = nonce.to_vec();
    combined.extend_from_slice(&sealed);
    let text = base64::engine::general_purpose::STANDARD.encode(&combined);
    let err = decrypt_password(&text, &key()).unwrap_err();
    assert!(err.starts_with("utf8 decode error: "), "{err}");
}

#[test]
fn encrypted_text_is_base64_of_nonce_and_sealed_password() {
    let encrypted = encrypt_password("abc", &key());
    let raw = base64::engine::general_purpose::STANDARD.decode(&encrypted).unwrap();
    // 12-byte nonce, 3 bytes of ciphertext, 16-byte tag.
    assert_eq!(raw.len(), 12 + 3 + 16);
    assert_eq!(encrypted.len(), 4 * ((raw.len() + 2) / 3));
}

#[test]
fn get_password_uses_active_server_when_none_given() {
    let mut config = fresh();
    config.add_server("S1", "https://s1.com", "u", "first");
    config.add_server("S2", "https://s2.com", "u", "second");
    assert_eq!(config.get_password(None), "first");
    config.set_active_server(1);
    assert_eq!(config.get_password(None), "second");
}

#[test]
fn get_password_empty_for_bad_or_missing_secret() {
    let config = fresh();
    let no_secret = ServerConfig {
        name: "n".into(),
        url: "u".into(),
        username: "x".into(),
        encrypted_password: String::new(),
    };
    assert_eq!(config.get_password(Some(&no_secret)), "");
    let garbage = ServerConfig { encrypted_password: "%%%".into(), ..no_secret.clone() };
    assert_eq!(config.get_password(Some(&garbage)), "");
}

#[test]
fn password_from_another_key_reads_empty() {
    let mut config = fresh();
    config.add_server("S", "https://s.com", "u", "pw");
    let doc = config.save_document();
    let elsewhere = AppConfig::load_from(other_key(), Some(&doc));
    assert_eq!(elsewhere.get_password(None), "");
}

#[test]
fn save_then_load_keeps_every_setting() {
    let mut c = fresh();
    c.add_server("S1", "https://s1.com/", "u1", "p1");
    c.add_server("S2", "https://s2.com", "u2", "p2");
    c.set_active_server(1);
    c.active_eq_preset = "Rock".into();
    c.custom_eq_gains = bits(&[0.5; 18]);
    c.volume = 33;
    c.shuffle = true;
    c.repeat_mode = "one".into();
    c.audio_device = "hw:1".into();
    c.save_custom_eq_preset("Mine", &bits(&[-1.5; 18]));
    let d = reload(&c);
    assert_eq!(d.servers.len(), 2);
    for (a, b) in d.servers.iter().zip(c.servers.iter()) {
        assert_eq!(a.name, b.name);
        assert_eq!(a.url, b.url);
        assert_eq!(a.username, b.username);
        assert_eq!(a.encrypted_password, b.encrypted_password);
    }
    assert_eq!(d.active_server_index, 1);
    assert_eq!(d.active_eq_preset, "Rock");
    assert_eq!(d.custom_eq_gains, c.custom_eq_gains);
    assert_eq!(d.volume, 33);
    assert!(d.shuffle);
    assert_eq!(d.repeat_mode, "one");
    assert_eq!(d.audio_device, "hw:1");
    let names: Vec<&str> = d.eq_presets.iter().map(|p| p.name.as_str()).collect();
    let expected: Vec<&str> = c.eq_presets.iter().map(|p| p.name.as_str()).collect();
    assert_eq!(names, expected);
    assert_eq!(d.get_eq_preset("Mine").unwrap().gains, bits(&[-1.5; 18]));
    assert_eq!(d.get_password(None), "p2");
}

#[test]
fn saved_document_lists_only_custom_presets() {
    let mut c = fresh();
    c.save_custom_eq_preset("Mine", &bits(&[1.0; 18]));
    let doc = c.save_document();
    let customs = as_array(doc.member("custom_eq_presets")).unwrap();
    assert_eq!(customs.len(), 1);
    assert_eq!(text(&customs[0], "name"), "Mine");
    assert_eq!(text(&doc, "repeat_mode"), "off");
}

#[test]
fn loading_skips_bad_entries_and_default_named_presets() {
    let doc = obj(vec![
        (
            "servers",
            arr(vec![
                obj(vec![("name", s("ok")), ("url", s("https://a")), ("username", s("u"))]),
                obj(vec![("name", s("no url"))]),
                u(5),
            ]),
        ),
        (
            "custom_eq_presets",
            arr(vec![
                obj(vec![("name", s("Rock")), ("gains", arr(vec![f(9.0)]))]),
                obj(vec![("name", s("Mine")), ("gains", arr(vec![f(1.0), s("x")]))]),
                obj(vec![("gains", arr(vec![]))]),
            ]),
        ),
        ("active_server_index", u(0)),
        ("volume", s("loud")),
    ]);
    let config = AppConfig::load_from(key(), Some(&doc));
    assert_eq!(config.servers.len(), 1);
    assert_eq!(config.servers[0].name, "ok");
    assert_eq!(config.eq_presets.len(), 11);
    assert_eq!(config.eq_presets[10].name, "Mine");
    assert_eq!(config.eq_presets[10].gains, vec![1.0f64.to_bits(), 0]);
    assert_eq!(config.get_eq_preset("Rock").unwrap().gains[0], 5.0f64.to_bits());
    assert_eq!(config.active_server_index, 0);
    assert_eq!(config.volume, 75);
}

#[test]
fn default_preset_names_are_the_ten_builtins() {
    let names = default_preset_names();
    let presets = default_eq_presets();
    assert_eq!(names.len(), 10);
    for (n, p) in names.iter().zip(presets.iter()) {
        assert_eq!(n, &p.name);
    }
}

#[test]
fn update_server_password_replaces_only_that_server() {
    let mut config = fresh();
    config.add_server("A", "https://a", "u", "one");
    config.add_server("B", "https://b", "u", "two");
    let b_before = config.servers[1].encrypted_password.clone();
    config.update_server_password(0, "uno");
    assert_eq!(config.get_password(Some(&config.servers[0])), "uno");
    assert_eq!(config.servers[1].encrypted_password, b_before);
    assert_eq!(config.servers[0].name, "A");
}

#[test]
fn removing_servers_keeps_the_active_server_active() {
    let mut config = fresh();
    for name in ["S1", "S2", "S3", "S4"] {
        config.add_server(name, "https://x.com", "u", "p");
    }
    config.set_active_server(2); // S3
    config.remove_server(0);
    assert_eq!(config.active_server_index, 1);
    assert_eq!(config.active_server().unwrap().name, "S3");
    config.remove_server(2); // S4, after the active one
    assert_eq!(config.active_server_index, 1);
    assert_eq!(config.active_server().unwrap().name, "S3");
    config.remove_server(1); // the active one, which was last
    assert_eq!(config.active_server_index, 0);
    assert_eq!(config.active_server().unwrap().name, "S2");
    config.remove_server(5); // no such server
    assert_eq!(config.servers.len(), 1);
    assert_eq!(config.active_server_index, 0);
    config.remove_server(0);
    assert_eq!(config.active_server_index, -1);
}

#[test]
fn removing_the_active_middle_server_activates_its_successor() {
    let mut config = fresh();
    for name in ["S1", "S2", "S3"] {
        config.add_server(name, "https://x.com", "u", "p");
    }
    config.set_active_server(1);
    config.remove_server(1);
    assert_eq!(config.active_server_index, 1);
    assert_eq!(config.active_server().unwrap().name, "S3");
}

#[test]
fn document_that_is_not_an_object_gives_defaults() {
    for doc in [s("not json!!!"), JsonValue::Null, JsonValue::Array(vec![s("x")])] {
        let config = AppConfig::load_from(key(), Some(&doc));
        assert_eq!(config.volume, 75);
        assert!(config.servers.is_empty());
        assert_eq!(config.active_server_index, -1);
        assert_eq!(config.eq_presets.len(), 10);
        assert_eq!(config.repeat_mode, "off");
    }
}
