use gln_auth::config::PluginConfig;
use gln_auth::handlers::{
    conclude_freeze, freeze_check, is_authed, is_command_allowed, is_rate_limited, is_timed_out,
    join_prompt_key, kick_rate_limited, kick_timeout, mark_authed, mark_unauthed, message,
    record_failure, timeout_sweep, AccountStatus, Caller, Freeze, FreezeAttackHandler,
    FreezeBlockBreakHandler, FreezeBlockPlaceHandler, FreezeChatHandler, FreezeCommandHandler,
    FreezeDropItemHandler, FreezeInteractHandler, FreezeMoveHandler, JoinHandler, LeaveHandler,
    OnlinePlayer, PreLoginHandler,
};
use gln_auth::premium::PremiumCache;
use gln_auth::state::AppState;
use gln_auth::storage::{Account, AuthStore, Session};

#[test]
fn join_prompt_falls_back_to_login_when_account_unknown() {
    assert_eq!(join_prompt_key(AccountStatus::Missing), "join.choice");
    assert_eq!(join_prompt_key(AccountStatus::Exists), "join.login");
    assert_eq!(join_prompt_key(AccountStatus::Unknown), "join.login");
}

#[test]
fn rate_limit_kicks_at_or_beyond_max_tries() {
    assert!(!is_rate_limited(4, 5));
    assert!(is_rate_limited(5, 5));
    assert!(is_rate_limited(6, 5));
}

#[test]
fn timeout_boundary_matches_config() {
    assert!(!is_timed_out(1000, 1100, 120));
    assert!(!is_timed_out(1000, 1120, 120));
    assert!(is_timed_out(1000, 1121, 120));
    assert!(!is_timed_out(2000, 1000, 120));
}

#[test]
fn allowlist_matches_first_word_case_insensitive() {
    assert!(is_command_allowed("login secret"));
    assert!(is_command_allowed("/login secret"));
    assert!(is_command_allowed("/LOGIN secret"));
    assert!(is_command_allowed("l secret"));
    assert!(is_command_allowed("/register a b"));
    assert!(is_command_allowed("/changepassword old new"));
    assert!(is_command_allowed("/unregister pw"));
    assert!(is_command_allowed("/setpremium steve on"));
    assert!(is_command_allowed("/premium"));
    assert!(is_command_allowed("register"));
    assert!(!is_command_allowed("say hello"));
    assert!(!is_command_allowed("/give steve diamond"));
    assert!(!is_command_allowed("/"));
    assert!(!is_command_allowed(""));
    assert!(!is_command_allowed("loginx"));
}

#[test]
fn allowlist_splits_at_any_white_space() {
    assert!(is_command_allowed("//log\tsecret"));
    assert!(is_command_allowed("login\u{2003}secret"));
    assert!(is_command_allowed("login\u{a0}secret"));
    assert!(is_command_allowed("login\nsecret"));
    assert!(!is_command_allowed("login\u{200b}secret"));
    assert!(!is_command_allowed(" login secret"));
    assert!(!is_command_allowed("/forcelogin steve"));
}

fn test_state(failures: Vec<(&str, u32)>) -> AppState {
    let mut st = AppState::new(AuthStore::open_in_memory(), PluginConfig::default());
    st.premium = PremiumCache::new(1);
    for (ip, count) in failures {
        st.failures.insert(ip.to_string(), count);
    }
    st
}

#[test]
fn leave_does_not_reset_failure_counter() {
    let mut state = test_state(vec![("9.9.9.9", 4)]);
    assert!(record_failure(&mut state, "9.9.9.9", 5));
    LeaveHandler::handle(&mut state, "ghost");
    assert_eq!(state.failures.get("9.9.9.9"), Some(&5), "failures must survive leave");
}

#[test]
fn successful_login_resets_failure_counter() {
    let mut state = test_state(vec![("9.9.9.9", 3)]);
    state.failures.remove("9.9.9.9");
    assert!(!is_authed(&state, "steve"));
    assert_eq!(
        state.failures.get("9.9.9.9"),
        None,
        "login success clears the counter"
    );
}

#[test]
fn failures_are_counted_up_to_the_limit() {
    let mut state = test_state(vec![]);
    for n in 1..5u32 {
        assert!(!record_failure(&mut state, "9.9.9.9", 5));
        assert_eq!(state.failures.get("9.9.9.9"), Some(&n));
    }
    assert!(record_failure(&mut state, "9.9.9.9", 5));
    assert!(record_failure(&mut state, "9.9.9.9", 5));
    assert_eq!(state.failures.get("9.9.9.9"), Some(&5));
    assert!(!record_failure(&mut state, "1.1.1.1", 5));
    assert!(record_failure(&mut state, "2.2.2.2", 0));
}

fn caller(name: &str, uuid: &str, ip: &str) -> Caller {
    Caller { name: name.into(), uuid: uuid.into(), ip: ip.into() }
}

fn account(name: &str, premium_id: Option<&str>) -> Account {
    Account {
        name: name.into(),
        uuid: "uuid-1".into(),
        premium_id: premium_id.map(|s| s.to_string()),
        hash: "h".into(),
        last_ip: "1.2.3.4".into(),
        last_seen: 1,
        created: 1,
    }
}

#[test]
fn first_join_offers_the_choice() {
    let mut state = test_state(vec![]);
    let sent = JoinHandler::handle(&mut state, &caller("Steve", "u", "1.2.3.4"), 1000);
    assert_eq!(
        sent,
        vec!["Are you premium or cracked? Use /premium to verify a premium name, or /register \
              <password> <confirm> to create a cracked account."
            .to_string()]
    );
    assert!(!is_authed(&state, "steve"));
    assert_eq!(state.joined_at.get("steve"), Some(&1000));
}

#[test]
fn join_with_an_account_asks_for_the_password() {
    let mut state = test_state(vec![]);
    state.store.save_account(&account("Steve", None)).unwrap();
    let sent = JoinHandler::handle(&mut state, &caller("STEVE", "u", "1.2.3.4"), 1000);
    assert_eq!(sent, vec!["Please login: /login <password>".to_string()]);
    assert!(!is_authed(&state, "steve"));
}

#[test]
fn join_with_a_broken_store_asks_for_the_password() {
    let mut state = test_state(vec![]);
    state.store.poison();
    let sent = JoinHandler::handle(&mut state, &caller("Steve", "u", "1.2.3.4"), 1000);
    assert_eq!(sent, vec!["Please login: /login <password>".to_string()]);
    assert!(!is_authed(&state, "steve"));
}

#[test]
fn join_resumes_a_session_from_the_same_address_only() {
    let mut state = test_state(vec![]);
    state.store.save_account(&account("Steve", None)).unwrap();
    let session = Session { name: "Steve".into(), ip: "1.2.3.4".into(), expires_at: 2000 };
    state.store.set_session(&session).unwrap();
    let sent = JoinHandler::handle(&mut state, &caller("Steve", "u", "9.9.9.9"), 1000);
    assert_eq!(sent, vec!["Please login: /login <password>".to_string()]);
    LeaveHandler::handle(&mut state, "Steve");
    let sent = JoinHandler::handle(&mut state, &caller("steve", "u", "1.2.3.4"), 1999);
    assert_eq!(sent, vec!["Session resumed, welcome back.".to_string()]);
    assert!(is_authed(&state, "steve"));
    assert_eq!(state.joined_at.get("steve"), None);
    LeaveHandler::handle(&mut state, "Steve");
    assert!(!is_authed(&state, "steve"));
    let sent = JoinHandler::handle(&mut state, &caller("steve", "u", "1.2.3.4"), 2000);
    assert_eq!(sent, vec!["Please login: /login <password>".to_string()]);
}

#[test]
fn premium_accounts_are_let_in_by_their_id_only() {
    let mut state = test_state(vec![]);
    state.store.save_account(&account("Notch", Some("069a79f4"))).unwrap();
    let session = Session { name: "Notch".into(), ip: "1.2.3.4".into(), expires_at: 2000 };
    state.store.set_session(&session).unwrap();
    let sent = JoinHandler::handle(&mut state, &caller("Notch", "069A-79F4", "9.9.9.9"), 1000);
    assert_eq!(sent, vec!["Premium account detected, logged in.".to_string()]);
    assert!(is_authed(&state, "notch"));
    LeaveHandler::handle(&mut state, "Notch");
    let sent = JoinHandler::handle(&mut state, &caller("Notch", "b66de432", "1.2.3.4"), 1000);
    assert_eq!(
        sent,
        vec![
            "This is a premium name: join with your premium (Mojang-signed-in) launcher.".to_string(),
            "Please login: /login <password>".to_string(),
        ]
    );
    assert!(!is_authed(&state, "notch"));
}

#[test]
fn second_session_is_denied() {
    let mut state = test_state(vec![]);
    assert_eq!(PreLoginHandler::handle(&state, "Steve"), None);
    JoinHandler::handle(&mut state, &caller("Steve", "u", "1.2.3.4"), 1000);
    let denial = Some("Already logged in from another session.".to_string());
    assert_eq!(PreLoginHandler::handle(&state, "STEVE"), denial);
    mark_authed(&mut state, "steve");
    assert_eq!(PreLoginHandler::handle(&state, "steve"), denial);
    assert_eq!(PreLoginHandler::handle(&state, "alex"), None);
    LeaveHandler::handle(&mut state, "Steve");
    assert_eq!(PreLoginHandler::handle(&state, "steve"), None);
}

fn kind(f: &Freeze) -> &'static str {
    match f {
        Freeze::Pass => "pass",
        Freeze::Cancel => "cancel",
        Freeze::Kick { always, .. } => {
            if *always {
                "kick"
            } else {
                "kick or pass"
            }
        }
    }
}

#[test]
fn events_of_frozen_players_are_cancelled() {
    let mut state = test_state(vec![]);
    JoinHandler::handle(&mut state, &caller("Steve", "u", "1.2.3.4"), 1000);
    for (now, expected) in [(1000, "cancel"), (1120, "cancel"), (1121, "kick")] {
        assert_eq!(kind(&freeze_check(&state, "steve", now)), expected);
        assert_eq!(kind(&FreezeMoveHandler::handle(&state, "Steve", now)), expected);
        assert_eq!(kind(&FreezeChatHandler::handle(&state, "Steve", now)), expected);
        assert_eq!(kind(&FreezeBlockBreakHandler::handle(&state, Some("Steve"), now)), expected);
        assert_eq!(kind(&FreezeBlockPlaceHandler::handle(&state, "Steve", now)), expected);
        assert_eq!(kind(&FreezeInteractHandler::handle(&state, "Steve", now)), expected);
        assert_eq!(kind(&FreezeDropItemHandler::handle(&state, "Steve", now)), expected);
    }
    assert_eq!(kind(&FreezeBlockBreakHandler::handle(&state, None, 5000)), "pass");
    mark_authed(&mut state, "steve");
    assert_eq!(kind(&FreezeMoveHandler::handle(&state, "Steve", 5000)), "pass");
    mark_unauthed(&mut state, "steve");
    assert_eq!(kind(&FreezeMoveHandler::handle(&state, "Steve", 5000)), "cancel");
}

#[test]
fn commands_of_frozen_players_are_filtered() {
    let mut state = test_state(vec![]);
    JoinHandler::handle(&mut state, &caller("Steve", "u", "1.2.3.4"), 1000);
    assert_eq!(kind(&FreezeCommandHandler::handle(&state, "Steve", "/login x", 1000)), "pass");
    assert_eq!(kind(&FreezeCommandHandler::handle(&state, "Steve", "/give x", 1000)), "cancel");
    assert_eq!(kind(&FreezeCommandHandler::handle(&state, "Steve", "/give x", 1120)), "cancel");
    assert_eq!(kind(&FreezeCommandHandler::handle(&state, "Steve", "/give x", 1121)), "kick");
    assert_eq!(
        kind(&FreezeCommandHandler::handle(&state, "Steve", "/login x", 1121)),
        "kick or pass"
    );
    mark_authed(&mut state, "steve");
    assert_eq!(kind(&FreezeCommandHandler::handle(&state, "Steve", "/give x", 1121)), "pass");
}

#[test]
fn attacks_are_matched_to_players_online() {
    let mut state = test_state(vec![]);
    mark_authed(&mut state, "alex");
    let online = vec![
        OnlinePlayer { entity_id: 7, name: "Alex".into() },
        OnlinePlayer { entity_id: 9, name: "Steve".into() },
        OnlinePlayer { entity_id: 9, name: "Other".into() },
    ];
    let (f, who) = FreezeAttackHandler::handle(&state, &online, 7, 1000);
    assert_eq!((kind(&f), who), ("pass", Some(0)));
    let (f, who) = FreezeAttackHandler::handle(&state, &online, 9, 1000);
    assert_eq!((kind(&f), who), ("cancel", Some(1)));
    let (f, who) = FreezeAttackHandler::handle(&state, &online, 8, 1000);
    assert_eq!((kind(&f), who), ("pass", None));
}

#[test]
fn timeout_kick_cleans_up_only_if_it_worked() {
    let mut state = test_state(vec![]);
    JoinHandler::handle(&mut state, &caller("Steve", "u", "1.2.3.4"), 1000);
    assert_eq!(timeout_sweep(&state, "steve", 1120), None);
    assert_eq!(timeout_sweep(&state, "steve", 1121), Some("Login timeout.".to_string()));
    assert_eq!(timeout_sweep(&state, "alex", 9999), None);
    let f = FreezeMoveHandler::handle(&state, "Steve", 1121);
    assert!(conclude_freeze(&mut state, "Steve", &f, false));
    assert_eq!(state.joined_at.get("steve"), Some(&1000));
    assert!(conclude_freeze(&mut state, "Steve", &f, true));
    assert_eq!(state.joined_at.get("steve"), None);
    let f = FreezeCommandHandler::handle(&state, "Steve", "/login x", 1121);
    assert!(!conclude_freeze(&mut state, "Steve", &f, false));
    let f = FreezeCommandHandler::handle(&state, "Steve", "/give x", 1121);
    assert!(conclude_freeze(&mut state, "Steve", &f, false));
    assert!(!kick_timeout(&mut state, "steve", false));
    assert!(kick_timeout(&mut state, "steve", true));
}

#[test]
fn rate_limit_kick_cleans_up_only_if_it_worked() {
    let mut state = test_state(vec![("9.9.9.9", 5)]);
    mark_authed(&mut state, "steve");
    assert!(!kick_rate_limited(&mut state, "steve", false));
    assert!(is_authed(&state, "steve"));
    assert!(kick_rate_limited(&mut state, "steve", true));
    assert!(!is_authed(&state, "steve"));
    assert_eq!(state.failures.get("9.9.9.9"), Some(&5));
    assert_eq!(message(&state, "login.rate_limited"), "Too many failed login attempts.");
}
