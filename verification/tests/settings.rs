use gln_auth::config::PluginConfig;
use gln_auth::messages::default_messages;
use gln_auth::session::{can_expire, is_session_valid, new_expiry, now_secs, reading_secs};
use gln_auth::storage::Session;
use gln_auth::validation::{normalize_name, validate_name, validate_password};

#[test]
fn defaults_match_global_constraints() {
    let cfg = PluginConfig::default();
    assert_eq!(cfg.timeout_secs, 120);
    assert_eq!(cfg.session_minutes, 120);
    assert_eq!(cfg.max_login_tries, 5);
    assert_eq!(cfg.pw_min_len, 8);
    assert_eq!(cfg.pw_max_len, 64);
    assert!(cfg.premium_check_enabled);
    assert_eq!(cfg.premium_cache_minutes, 45);
    assert_eq!(cfg.name_regex, "^[a-zA-Z0-9_]{3,16}$");
}

#[test]
fn default_messages_cover_all_plugin_keys() {
    let m = default_messages();
    for key in [
        "join.register",
        "join.choice",
        "join.login",
        "login.ok",
        "login.wrong",
        "login.already",
        "login.duplicate",
        "login.rate_limited",
        "register.ok",
        "register.mismatch",
        "register.exists",
        "session.resume",
        "premium.auto",
        "premium.ok",
        "premium.not",
        "premium.unavailable",
        "premium.nopass",
        "premium.exists",
        "premium.uuid_mismatch",
        "premium.uuid_wrong",
        "timeout.kick",
    ] {
        assert!(m.contains_key(key), "missing default for key {key}");
    }
    assert_eq!(
        m.get("login.duplicate").unwrap(),
        "Already logged in from another session."
    );
    assert_eq!(
        m.get("premium.not").unwrap(),
        "That name is not premium, use /register."
    );
    assert_eq!(m.len(), 21);
    assert_eq!(m.entry(0).0, "join.register");
}

#[test]
fn messages_can_be_reworded() {
    let mut cfg = PluginConfig::default();
    assert_eq!(cfg.message("login.wrong"), "Wrong password.");
    cfg.messages.insert("login.wrong".to_string(), "Falsches Passwort.".to_string());
    assert_eq!(cfg.message("login.wrong"), "Falsches Passwort.");
    assert_eq!(cfg.message("login.ok"), "Logged in.");
    cfg.messages.remove("login.wrong");
    assert_eq!(cfg.message("login.wrong"), "Wrong password.");
    cfg.messages.insert("no.such.key".to_string(), "ignored".to_string());
    assert_eq!(cfg.message("timeout.kick"), "Login timeout.");
    assert_eq!(cfg.message("another.key"), "");
}

#[test]
fn session_requires_fresh_expiry_and_same_ip() {
    let s = Session { name: "steve".into(), ip: "1.2.3.4".into(), expires_at: 200 };
    assert!(is_session_valid(&s, 100, "1.2.3.4"));
    assert!(!is_session_valid(&s, 300, "1.2.3.4"));
    assert!(!is_session_valid(&s, 100, "9.9.9.9"));
    assert_eq!(new_expiry(1000, &PluginConfig::default()), 1000 + 120 * 60);
}

#[test]
fn session_ends_at_its_expiry() {
    let s = Session { name: "steve".into(), ip: "1.2.3.4".into(), expires_at: 200 };
    assert!(is_session_valid(&s, 199, "1.2.3.4"));
    assert!(!is_session_valid(&s, 200, "1.2.3.4"));
}

#[test]
fn expiry_must_fit_the_clock() {
    let mut cfg = PluginConfig::default();
    assert!(can_expire(1000, &cfg));
    assert!(!can_expire(u64::MAX - 7199, &cfg));
    assert!(can_expire(u64::MAX - 7200, &cfg));
    cfg.session_minutes = u64::MAX;
    assert!(!can_expire(0, &cfg));
}

#[test]
fn clock_reads_seconds() {
    // 2020-01-01 and 2200-01-01
    let now = now_secs();
    assert!(now > 1_577_836_800);
    assert!(now < 7_258_118_400);
    assert_eq!(reading_secs(Some(17)), 17);
    assert_eq!(reading_secs(None), 0);
}

#[test]
fn rejects_short_password_and_name_in_password() {
    let cfg = PluginConfig::default();
    assert!(validate_password("short", "steve", &cfg).is_err());
    assert!(validate_password("steve12345", "steve", &cfg).is_err());
    assert!(validate_password("s3cure!Pass9", "steve", &cfg).is_ok());
    assert_eq!(normalize_name("Steve"), "steve");
}

#[test]
fn password_refusals_are_worded() {
    let mut cfg = PluginConfig::default();
    assert_eq!(
        validate_password("short", "steve", &cfg),
        Err("Password must be 8-64 chars.".to_string())
    );
    let long = "x".repeat(65);
    assert!(validate_password(&long, "steve", &cfg).is_err());
    assert!(validate_password(&long[1..], "steve", &cfg).is_ok());
    assert_eq!(
        validate_password("my-STEVE-pass", "Steve", &cfg),
        Err("Password must not contain your name.".to_string())
    );
    cfg.pw_min_len = 0;
    cfg.pw_max_len = 1234567890;
    cfg.pw_min_len = 20;
    assert_eq!(
        validate_password("short", "steve", &cfg),
        Err("Password must be 20-1234567890 chars.".to_string())
    );
    // Lengths count bytes: four characters of two bytes each make eight.
    assert!(validate_password("\u{e4}\u{f6}\u{fc}\u{df}", "steve", &PluginConfig::default()).is_ok());
}

#[test]
fn names_are_short_and_ascii() {
    assert_eq!(validate_name("Steve_99"), Ok(()));
    assert_eq!(validate_name("abc"), Ok(()));
    assert_eq!(validate_name("abcdefghijklmnop"), Ok(()));
    assert_eq!(validate_name("ab"), Err("Name must be 3-16 chars.".to_string()));
    assert_eq!(
        validate_name("abcdefghijklmnopq"),
        Err("Name must be 3-16 chars.".to_string())
    );
    assert_eq!(
        validate_name("st eve"),
        Err("Name may only contain a-z A-Z 0-9 _.".to_string())
    );
    assert_eq!(
        validate_name("st\u{e9}ve"),
        Err("Name may only contain a-z A-Z 0-9 _.".to_string())
    );
}

#[test]
fn lowercasing_follows_unicode() {
    assert_eq!(normalize_name("\u{c4}RGER"), "\u{e4}rger");
    assert_eq!(normalize_name("A-Z_09[`"), "a-z_09[`");
}
