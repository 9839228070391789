use gln_auth::commands::{
    resume, ChangePasswordHandler, Claim, ForceLoginHandler, LoginHandler, LogoutHandler,
    PremiumHandler, RegisterHandler, Reply, SetPremiumHandler, Step, UnregisterHandler,
    lookup_or_report,
};
use gln_auth::config::{load_config, PluginConfig};
use gln_auth::handlers::{
    is_authed, kick_rate_limited, Caller, Freeze, FreezeMoveHandler, JoinHandler, LeaveHandler,
    PreLoginHandler,
};
use gln_auth::hash::{hash_password, hash_with_salt, verify_password, HashError};
use gln_auth::premium::{PremiumLookup, Progress};
use gln_auth::state::AppState;
use gln_auth::storage::AuthStore;
use gln_auth::validation::{judge_match, validate_new_name};

const PW: &str = "s3cure!Pass9";

fn fresh_state() -> AppState {
    AppState::new(AuthStore::open_in_memory(), PluginConfig::default())
}

fn steve() -> Caller {
    Caller { name: "Steve".into(), uuid: "u-1".into(), ip: "1.2.3.4".into() }
}

/// Runs a command to its end, with the given results of its writes.
fn finish(state: &mut AppState, step: Step, writes: &[bool]) -> Reply {
    let mut step = step;
    let mut done: usize = 0;
    loop {
        match step {
            Step::Done(reply) => {
                assert_eq!(done, writes.len(), "writes asked for");
                return reply;
            }
            Step::Save(pending) => {
                step = resume(state, pending, writes[done]);
                done += 1;
            }
        }
    }
}

fn register(state: &mut AppState, who: &Caller) {
    let step = RegisterHandler::handle(state, Some(who), Some(PW), Some(PW), 1000);
    let reply = finish(state, step, &[true, true]);
    assert!(reply.success);
    assert_eq!(reply.text, "Registered and logged in.");
}

fn refusal(state: &mut AppState, step: Step) -> String {
    let reply = finish(state, step, &[]);
    assert!(!reply.success);
    assert_eq!(reply.status(), 1);
    assert!(reply.kick.is_none());
    reply.text
}

#[test]
fn hashes_accept_their_password_only() {
    let h = hash_password(PW).unwrap();
    assert!(h.starts_with("$argon2id$v=19$m=19456,t=2,p=1$"));
    assert!(verify_password(&h, PW));
    assert!(!verify_password(&h, "another password"));
    assert!(!verify_password("", PW));
    assert!(!verify_password("$argon2id$v=19$m=19456,t=2,p=1$broken", PW));
    assert!(!verify_password(PW, PW));
    assert_ne!(hash_password(PW).unwrap(), h, "each hash has its own salt");
}

#[test]
fn hashes_are_fixed_by_the_salt() {
    let a = hash_with_salt(PW, &[7u8; 16]).unwrap();
    let b = hash_with_salt(PW, &[7u8; 16]).unwrap();
    let c = hash_with_salt(PW, &[8u8; 16]).unwrap();
    assert_eq!(a, b);
    assert_ne!(a, c);
    assert!(a.starts_with("$argon2id$v=19$m=19456,t=2,p=1$BwcHBwcHBwcHBwcHBwcHBw$"));
}

#[test]
fn unusable_salts_are_refused() {
    assert!(matches!(hash_with_salt(PW, &[7u8; 4]), Err(HashError::Password)));
    assert!(matches!(hash_with_salt(PW, &[7u8; 60]), Err(HashError::Salt)));
}

#[test]
fn registration_creates_an_account_and_lets_in() {
    let mut state = fresh_state();
    register(&mut state, &steve());
    assert!(is_authed(&state, "steve"));
    let account = state.store.get_account("STEVE").unwrap().unwrap();
    assert_eq!(account.name, "Steve");
    assert_eq!(account.uuid, "u-1");
    assert_eq!(account.premium_id, None);
    assert_eq!(account.last_ip, "1.2.3.4");
    assert_eq!((account.last_seen, account.created), (1000, 1000));
    assert!(verify_password(&account.hash, PW));
    let session = state.store.get_session("steve").unwrap().unwrap();
    assert_eq!((session.name.as_str(), session.ip.as_str()), ("Steve", "1.2.3.4"));
    assert_eq!(session.expires_at, 1000 + 120 * 60);
}

#[test]
fn registration_is_refused_in_order() {
    let mut state = fresh_state();
    let who = steve();
    let step = RegisterHandler::handle(&mut state, None, Some(PW), Some(PW), 1);
    assert_eq!(refusal(&mut state, step), "This command can only be used by players.");
    let step = RegisterHandler::handle(&mut state, Some(&who), Some(PW), None, 1);
    assert_eq!(refusal(&mut state, step), "Usage: /register <password> <confirm>");
    let step = RegisterHandler::handle(&mut state, Some(&who), Some("short"), Some("short"), 1);
    assert_eq!(refusal(&mut state, step), "Password must be 8-64 chars.");
    let step = RegisterHandler::handle(&mut state, Some(&who), Some(PW), Some("other"), 1);
    assert_eq!(refusal(&mut state, step), "Passwords do not match.");
    let odd = Caller { name: "no-dash".into(), uuid: "u".into(), ip: "i".into() };
    let step = RegisterHandler::handle(&mut state, Some(&odd), Some("short"), Some("x"), 1);
    assert_eq!(refusal(&mut state, step), "Name may only contain a-z A-Z 0-9 _.");
    register(&mut state, &who);
    let step = RegisterHandler::handle(&mut state, Some(&who), Some(PW), Some(PW), 1);
    assert_eq!(refusal(&mut state, step), "You are already logged in.");
    LeaveHandler::handle(&mut state, "Steve");
    let step = RegisterHandler::handle(&mut state, Some(&who), Some(PW), Some(PW), 1);
    assert_eq!(
        refusal(&mut state, step),
        "An account with this name already exists. Use /login."
    );
    state.store.poison();
    let step = RegisterHandler::handle(&mut state, Some(&who), Some(PW), Some(PW), 1);
    assert_eq!(refusal(&mut state, step), "Internal error, action was not completed.");
}

#[test]
fn failed_hashes_are_reported() {
    let mut state = fresh_state();
    let step = RegisterHandler::conclude(&mut state, &steve(), Err(HashError::NoEntropy), 1);
    assert_eq!(refusal(&mut state, step), "Registration failed, please try again.");
    register(&mut state, &steve());
    let account = lookup_or_report(&state, "steve").unwrap();
    let step = ChangePasswordHandler::conclude(&mut state, &account, Err(HashError::NoEntropy));
    assert_eq!(refusal(&mut state, step), "Password change failed, please try again.");
}

#[test]
fn failed_writes_never_let_in() {
    for writes in [vec![false], vec![true, false]] {
        let mut state = fresh_state();
        let step = RegisterHandler::handle(&mut state, Some(&steve()), Some(PW), Some(PW), 1000);
        let reply = finish(&mut state, step, &writes);
        assert!(!reply.success);
        assert_eq!(reply.text, "Internal error, action was not completed.");
        assert!(!is_authed(&state, "steve"));
    }
}

#[test]
fn new_names_must_match_the_pattern() {
    let mut cfg = PluginConfig::default();
    assert_eq!(validate_new_name("Steve_99", &cfg), Ok(()));
    assert_eq!(validate_new_name("ab", &cfg), Err("Name must be 3-16 chars.".to_string()));
    cfg.name_regex = "^[a-z]+$".to_string();
    let mismatch = Err("Name does not match the required pattern.".to_string());
    assert_eq!(validate_new_name("steve", &cfg), Ok(()));
    assert_eq!(validate_new_name("Steve", &cfg), mismatch);
    cfg.name_regex = "^[a-z".to_string();
    assert_eq!(validate_new_name("steve", &cfg), mismatch);
    assert_eq!(judge_match(Some(true)), Ok(()));
    assert_eq!(judge_match(Some(false)), mismatch);
    assert_eq!(judge_match(None), mismatch);

    let mut state = fresh_state();
    state.cfg.name_regex = "^[a-z]+$".to_string();
    let step = RegisterHandler::handle(&mut state, Some(&steve()), Some(PW), Some(PW), 1);
    assert_eq!(refusal(&mut state, step), "Name does not match the required pattern.");
    match PremiumHandler::begin(&state, Some(&steve()), 1) {
        Claim::Done(reply) => {
            assert_eq!(reply.text, "Name does not match the required pattern.")
        }
        Claim::Lookup(_) => panic!("claim was not refused"),
    }
}

#[test]
fn login_checks_the_password_and_forgives_failures() {
    let mut state = fresh_state();
    let who = steve();
    let step = LoginHandler::handle(&mut state, None, Some(PW), 1);
    assert_eq!(refusal(&mut state, step), "This command can only be used by players.");
    let step = LoginHandler::handle(&mut state, Some(&who), None, 1);
    assert_eq!(refusal(&mut state, step), "Usage: /login <password>");
    let step = LoginHandler::handle(&mut state, Some(&who), Some(PW), 1);
    assert_eq!(refusal(&mut state, step), "You are not registered.");
    register(&mut state, &who);
    LeaveHandler::handle(&mut state, "Steve");
    let step = LoginHandler::handle(&mut state, Some(&who), Some("wrong password"), 2000);
    assert_eq!(refusal(&mut state, step), "Wrong password.");
    assert_eq!(state.failures.get("1.2.3.4"), Some(&1));
    assert!(!is_authed(&state, "steve"));
    let step = LoginHandler::handle(&mut state, Some(&who), Some(PW), 2000);
    let reply = finish(&mut state, step, &[true]);
    assert!(reply.success);
    assert_eq!((reply.status(), reply.text.as_str()), (0, "Logged in."));
    assert!(is_authed(&state, "steve"));
    assert_eq!(state.failures.get("1.2.3.4"), None);
    let session = state.store.get_session("steve").unwrap().unwrap();
    assert_eq!(session.expires_at, 2000 + 120 * 60);
    state.store.poison();
    let step = LoginHandler::handle(&mut state, Some(&who), Some(PW), 2000);
    assert_eq!(refusal(&mut state, step), "Internal error, action was not completed.");
}

#[test]
fn failed_session_write_keeps_failures_and_lets_nobody_in() {
    let mut state = fresh_state();
    register(&mut state, &steve());
    LeaveHandler::handle(&mut state, "Steve");
    state.failures.insert("1.2.3.4".to_string(), 2);
    let step = LoginHandler::handle(&mut state, Some(&steve()), Some(PW), 2000);
    let reply = finish(&mut state, step, &[false]);
    assert_eq!(reply.text, "Internal error, action was not completed.");
    assert!(!is_authed(&state, "steve"));
    assert_eq!(state.failures.get("1.2.3.4"), Some(&2));
}

#[test]
fn fifth_wrong_password_kicks_and_reconnecting_does_not_help() {
    let mut state = fresh_state();
    let who = steve();
    register(&mut state, &who);
    LeaveHandler::handle(&mut state, "Steve");
    JoinHandler::handle(&mut state, &Caller { name: "Steve".into(), uuid: "u-1".into(), ip: "9".into() }, 9000);
    for n in 1..=5u32 {
        let step = LoginHandler::handle(&mut state, Some(&who), Some("wrong password"), 9000);
        let reply = finish(&mut state, step, &[]);
        assert_eq!(reply.text, "Wrong password.");
        let expected = if n == 5 { Some("Too many failed login attempts.".to_string()) } else { None };
        assert_eq!(reply.kick, expected);
    }
    kick_rate_limited(&mut state, "steve", true);
    JoinHandler::handle(&mut state, &who, 9001);
    let step = LoginHandler::handle(&mut state, Some(&who), Some("wrong password"), 9001);
    let reply = finish(&mut state, step, &[]);
    assert_eq!(reply.kick, Some("Too many failed login attempts.".to_string()));
    let step = LoginHandler::handle(&mut state, Some(&who), Some(PW), 9001);
    assert!(finish(&mut state, step, &[true]).success);
    assert_eq!(state.failures.get("1.2.3.4"), None);
}

#[test]
fn relog_resumes_and_logout_forgets() {
    let mut state = fresh_state();
    let who = steve();
    register(&mut state, &who);
    LeaveHandler::handle(&mut state, "Steve");
    let sent = JoinHandler::handle(&mut state, &who, 1000 + 7199);
    assert_eq!(sent, vec!["Session resumed, welcome back.".to_string()]);
    let step = LogoutHandler::handle(&mut state, Some(&who), 9000);
    let reply = finish(&mut state, step, &[true]);
    assert_eq!(reply.text, "Logged out.");
    assert!(!is_authed(&state, "steve"));
    LeaveHandler::handle(&mut state, "Steve");
    let sent = JoinHandler::handle(&mut state, &who, 1000);
    assert_eq!(sent, vec!["Please login: /login <password>".to_string()]);
    let step = LogoutHandler::handle(&mut state, Some(&who), 9000);
    assert_eq!(refusal(&mut state, step), "You are not logged in.");
    let step = LogoutHandler::handle(&mut state, None, 9000);
    assert_eq!(refusal(&mut state, step), "This command can only be used by players.");
}

#[test]
fn failed_logout_stays_logged_in() {
    let mut state = fresh_state();
    register(&mut state, &steve());
    let step = LogoutHandler::handle(&mut state, Some(&steve()), 9000);
    let reply = finish(&mut state, step, &[false]);
    assert_eq!(reply.text, "Internal error, action was not completed.");
    assert!(is_authed(&state, "steve"));
    state.store.poison();
    let step = LogoutHandler::handle(&mut state, Some(&steve()), 9000);
    assert_eq!(refusal(&mut state, step), "Internal error, action was not completed.");
}

#[test]
fn password_can_be_changed() {
    let mut state = fresh_state();
    let who = steve();
    let step = ChangePasswordHandler::handle(&mut state, None, Some(PW), Some("n3w!Passwd"));
    assert_eq!(refusal(&mut state, step), "This command can only be used by players.");
    let step = ChangePasswordHandler::handle(&mut state, Some(&who), Some(PW), None);
    assert_eq!(refusal(&mut state, step), "Usage: /changepassword <old> <new>");
    let step = ChangePasswordHandler::handle(&mut state, Some(&who), Some(PW), Some("n3w!Passwd"));
    assert_eq!(refusal(&mut state, step), "You must be logged in to change your password.");
    register(&mut state, &who);
    let step = ChangePasswordHandler::handle(&mut state, Some(&who), Some("wrong"), Some("n3w!Passwd"));
    assert_eq!(refusal(&mut state, step), "Wrong password.");
    let step = ChangePasswordHandler::handle(&mut state, Some(&who), Some(PW), Some("xxSTEVExx"));
    assert_eq!(refusal(&mut state, step), "Password must not contain your name.");
    let step = ChangePasswordHandler::handle(&mut state, Some(&who), Some(PW), Some("n3w!Passwd"));
    let reply = finish(&mut state, step, &[true]);
    assert_eq!(reply.text, "Password changed.");
    let account = state.store.get_account("steve").unwrap().unwrap();
    assert!(verify_password(&account.hash, "n3w!Passwd"));
    assert!(!verify_password(&account.hash, PW));
    assert_eq!(account.created, 1000);
    state.store.delete_account("steve").unwrap();
    let step = ChangePasswordHandler::handle(&mut state, Some(&who), Some(PW), Some("n3w!Passwd"));
    assert_eq!(refusal(&mut state, step), "Unknown account.");
}

#[test]
fn account_can_be_deleted() {
    let mut state = fresh_state();
    let who = steve();
    let step = UnregisterHandler::handle(&mut state, None, Some(PW), 9000);
    assert_eq!(refusal(&mut state, step), "This command can only be used by players.");
    let step = UnregisterHandler::handle(&mut state, Some(&who), None, 9000);
    assert_eq!(refusal(&mut state, step), "Usage: /unregister <password>");
    let step = UnregisterHandler::handle(&mut state, Some(&who), Some(PW), 9000);
    assert_eq!(refusal(&mut state, step), "You must be logged in to delete your account.");
    register(&mut state, &who);
    let step = UnregisterHandler::handle(&mut state, Some(&who), Some("wrong"), 9000);
    assert_eq!(refusal(&mut state, step), "Wrong password.");
    let step = UnregisterHandler::handle(&mut state, Some(&who), Some(PW), 9000);
    let reply = finish(&mut state, step, &[true, false]);
    assert!(reply.success, "the session of a deleted account does not matter");
    assert_eq!(reply.text, "Account deleted.");
    assert!(!is_authed(&state, "steve"));
    assert!(state.store.get_account("steve").unwrap().is_none());
    assert!(state.store.get_session("steve").unwrap().is_none());
    let step = LoginHandler::handle(&mut state, Some(&who), Some(PW), 1);
    assert_eq!(refusal(&mut state, step), "You are not registered.");
}

#[test]
fn failed_deletion_stays_logged_in() {
    let mut state = fresh_state();
    register(&mut state, &steve());
    let step = UnregisterHandler::handle(&mut state, Some(&steve()), Some(PW), 9000);
    let reply = finish(&mut state, step, &[false]);
    assert_eq!(reply.text, "Internal error, action was not completed.");
    assert!(is_authed(&state, "steve"));
}

#[test]
fn setpremium_flags_accounts() {
    let mut state = fresh_state();
    let on = SetPremiumHandler { enable: true };
    let off = SetPremiumHandler { enable: false };
    let step = on.handle(&mut state, None);
    assert_eq!(refusal(&mut state, step), "Usage: /setpremium <name> <on|off>");
    let step = on.handle(&mut state, Some("steve"));
    assert_eq!(refusal(&mut state, step), "Unknown account.");
    register(&mut state, &steve());
    let step = on.handle(&mut state, Some("STEVE"));
    assert_eq!(finish(&mut state, step, &[true]).text, "Premium enabled for Steve.");
    let account = state.store.get_account("steve").unwrap().unwrap();
    assert_eq!(account.premium_id, Some("u-1".to_string()));
    let step = off.handle(&mut state, Some("steve"));
    assert_eq!(finish(&mut state, step, &[true]).text, "Premium disabled for Steve.");
    let mut account = state.store.get_account("steve").unwrap().unwrap();
    assert_eq!(account.premium_id, None);
    account.hash = String::new();
    account.premium_id = Some("u-1".to_string());
    state.store.save_account(&account).unwrap();
    let step = off.handle(&mut state, Some("steve"));
    assert_eq!(refusal(&mut state, step), "Account has no password, set a password first.");
    let step = on.handle(&mut state, Some("steve"));
    let reply = finish(&mut state, step, &[false]);
    assert_eq!(reply.text, "Internal error, action was not completed.");
}

#[test]
fn stuck_account_is_recovered_by_force() {
    let mut state = fresh_state();
    let step = ForceLoginHandler::handle(&mut state, None);
    assert_eq!(refusal(&mut state, step), "Usage: /forcelogin <name>");
    let step = ForceLoginHandler::handle(&mut state, Some("Steve"));
    assert_eq!(refusal(&mut state, step), "Unknown account.");
    register(&mut state, &steve());
    LeaveHandler::handle(&mut state, "Steve");
    let mut account = state.store.get_account("steve").unwrap().unwrap();
    account.hash = String::new();
    account.premium_id = Some("gone".to_string());
    state.store.save_account(&account).unwrap();
    JoinHandler::handle(&mut state, &steve(), 2000);
    assert!(!is_authed(&state, "steve"));
    let step = LoginHandler::handle(&mut state, Some(&steve()), Some(""), 2000);
    assert_eq!(finish(&mut state, step, &[]).text, "Wrong password.");
    let step = ForceLoginHandler::handle(&mut state, Some("STEVE"));
    let reply = finish(&mut state, step, &[]);
    assert_eq!(reply.text, "Force-logged in STEVE.");
    assert!(is_authed(&state, "steve"));
    let step = ChangePasswordHandler::handle(&mut state, Some(&steve()), Some("any"), Some(PW));
    assert!(finish(&mut state, step, &[true]).success);
    LeaveHandler::handle(&mut state, "Steve");
    let step = LoginHandler::handle(&mut state, Some(&steve()), Some(PW), 2000);
    assert!(finish(&mut state, step, &[true]).success);
}

fn notch() -> Caller {
    Caller { name: "Notch".into(), uuid: "069A-79f4".into(), ip: "1.2.3.4".into() }
}

fn lookup_of(state: &AppState, who: &Caller, now: u64) -> PremiumLookup {
    match PremiumHandler::begin(state, Some(who), now) {
        Claim::Lookup(lookup) => lookup,
        Claim::Done(reply) => panic!("claim refused: {}", reply.text),
    }
}

fn claim_refusal(state: &AppState, who: Option<&Caller>, now: u64) -> String {
    match PremiumHandler::begin(state, who, now) {
        Claim::Lookup(_) => panic!("claim not refused"),
        Claim::Done(reply) => {
            assert!(!reply.success);
            reply.text
        }
    }
}

#[test]
fn premium_name_is_claimed_with_its_id() {
    let mut state = fresh_state();
    let who = notch();
    JoinHandler::handle(&mut state, &who, 1000);
    let mut lookup = lookup_of(&state, &who, 1000);
    assert_eq!(
        lookup.due().unwrap(),
        "https://api.minecraftservices.com/minecraft/profile/lookup/name/Notch"
    );
    let outcome = match lookup.take_reply(Ok((200, r#"{"id":"069a79f4"}"#.to_string()))) {
        Progress::Settled(v) => Ok(v),
        Progress::Continue(_) => panic!("not settled"),
    };
    let step = PremiumHandler::conclude(&mut state, &who, outcome, 1000);
    let reply = finish(&mut state, step, &[true, true]);
    assert_eq!(reply.text, "Premium verified, welcome.");
    assert!(is_authed(&state, "notch"));
    let account = state.store.get_account("notch").unwrap().unwrap();
    assert_eq!(account.premium_id, Some("069a79f4".to_string()));
    assert_eq!(account.hash, "");
    assert_eq!(state.premium.get("NOTCH", 1001), Some(true));
    LeaveHandler::handle(&mut state, "Notch");
    let sent = JoinHandler::handle(&mut state, &who, 2000);
    assert_eq!(sent, vec!["Premium account detected, logged in.".to_string()]);
}

#[test]
fn premium_claims_are_refused() {
    let mut state = fresh_state();
    let who = notch();
    assert_eq!(claim_refusal(&state, None, 1), "This command can only be used by players.");
    let outcome = Ok((true, Some("ffff".to_string())));
    let step = PremiumHandler::conclude(&mut state, &who, outcome, 1000);
    assert_eq!(
        refusal(&mut state, step),
        "You are not using this account's launcher: premium verification requires joining with \
         the Mojang-signed-in launcher."
    );
    let step = PremiumHandler::conclude(&mut state, &who, Err("down".to_string()), 1000);
    assert_eq!(
        refusal(&mut state, step),
        "Could not verify premium status, try again later."
    );
    assert_eq!(state.premium.get("notch", 1001), Some(true), "failures are not remembered");
    let step = PremiumHandler::conclude(&mut state, &who, Ok((false, None)), 1000);
    assert_eq!(refusal(&mut state, step), "That name is not premium, use /register.");
    assert_eq!(claim_refusal(&state, Some(&who), 1001), "That name is not premium, use /register.");
    lookup_of(&state, &who, 1000 + 45 * 60);
    state.cfg.premium_check_enabled = false;
    assert_eq!(
        claim_refusal(&state, Some(&who), 5000),
        "Could not verify premium status, try again later."
    );
    assert!(state.store.get_account("notch").unwrap().is_none());
}

#[test]
fn password_accounts_are_never_converted() {
    let mut state = fresh_state();
    register(&mut state, &steve());
    let exists = "An account with this name already exists, use /login.";
    assert_eq!(claim_refusal(&state, Some(&steve()), 1000), exists);
    let outcome = Ok((true, Some("u-1".to_string())));
    let step = PremiumHandler::conclude(&mut state, &steve(), outcome, 1000);
    assert_eq!(refusal(&mut state, step), exists);
    let account = state.store.get_account("steve").unwrap().unwrap();
    assert_eq!(account.premium_id, None);
    assert!(verify_password(&account.hash, PW));
    state.store.poison();
    assert_eq!(
        claim_refusal(&state, Some(&steve()), 1000),
        "Internal error, action was not completed."
    );
}

#[test]
fn login_keeps_the_name_taken() {
    let mut state = fresh_state();
    JoinHandler::handle(&mut state, &steve(), 1000);
    register(&mut state, &steve());
    assert!(PreLoginHandler::handle(&state, "steve").is_some());
    let step = LogoutHandler::handle(&mut state, Some(&steve()), 9000);
    finish(&mut state, step, &[true]);
    assert!(PreLoginHandler::handle(&state, "steve").is_some());
}

#[test]
fn logout_freezes_again_and_restarts_the_timeout() {
    let mut state = fresh_state();
    register(&mut state, &steve());
    LeaveHandler::handle(&mut state, "Steve");
    JoinHandler::handle(&mut state, &steve(), 2000);
    assert!(is_authed(&state, "steve"), "resumed on joining");
    let step = LogoutHandler::handle(&mut state, Some(&steve()), 3000);
    finish(&mut state, step, &[true]);
    assert!(PreLoginHandler::handle(&state, "steve").is_some(), "the connection is still live");
    assert!(matches!(FreezeMoveHandler::handle(&state, "Steve", 3120), Freeze::Cancel));
    assert!(matches!(FreezeMoveHandler::handle(&state, "Steve", 3121), Freeze::Kick { .. }));
}

#[test]
fn deletion_freezes_again() {
    let mut state = fresh_state();
    register(&mut state, &steve());
    let step = UnregisterHandler::handle(&mut state, Some(&steve()), Some(PW), 3000);
    finish(&mut state, step, &[true, true]);
    assert_eq!(state.joined_at.get("steve"), Some(&3000));
    assert!(matches!(FreezeMoveHandler::handle(&state, "Steve", 3121), Freeze::Kick { .. }));
}

#[test]
fn expiry_out_of_range_stops_only_what_opens_a_session() {
    let mut state = fresh_state();
    let who = steve();
    let late = u64::MAX - 7199;
    let step = RegisterHandler::try_handle(&mut state, Some(&who), Some(PW), Some("other"), late);
    assert_eq!(refusal(&mut state, step.unwrap()), "Passwords do not match.");
    let step = RegisterHandler::try_handle(&mut state, None, Some(PW), Some(PW), late);
    assert_eq!(
        refusal(&mut state, step.unwrap()),
        "This command can only be used by players."
    );
    assert!(RegisterHandler::try_handle(&mut state, Some(&who), Some(PW), Some(PW), late).is_none());
    assert!(state.store.get_account("steve").unwrap().is_none());
    let step = RegisterHandler::try_handle(&mut state, Some(&who), Some(PW), Some(PW), late - 1);
    assert!(finish(&mut state, step.unwrap(), &[true, true]).success);
    LeaveHandler::handle(&mut state, "Steve");
    let step = LoginHandler::try_handle(&mut state, Some(&who), Some("wrong"), late);
    assert_eq!(refusal(&mut state, step.unwrap()), "Wrong password.");
    assert!(LoginHandler::try_handle(&mut state, Some(&who), Some(PW), late).is_none());
    assert!(!is_authed(&state, "steve"));
    let step = LoginHandler::try_handle(&mut state, Some(&who), Some(PW), late - 1);
    assert!(finish(&mut state, step.unwrap(), &[true]).success);
}

#[test]
fn commands_leave_other_players_alone() {
    let mut state = fresh_state();
    register(&mut state, &steve());
    let alex = Caller { name: "Alex".into(), uuid: "u-2".into(), ip: "5.6.7.8".into() };
    register(&mut state, &alex);
    let step = UnregisterHandler::handle(&mut state, Some(&alex), Some(PW), 9000);
    finish(&mut state, step, &[true, true]);
    assert!(is_authed(&state, "steve"));
    assert!(state.store.get_account("steve").unwrap().is_some());
    assert!(state.store.get_session("steve").unwrap().is_some());
}

#[test]
fn malformed_config_is_an_error() {
    assert_eq!(load_config("config.toml", None).ok().unwrap().timeout_secs, 120);
    let mut cfg = PluginConfig::default();
    cfg.timeout_secs = 7;
    assert_eq!(load_config("config.toml", Some(Ok(cfg))).ok().unwrap().timeout_secs, 7);
    assert_eq!(
        load_config("config.toml", Some(Err("expected `=`".to_string()))).err(),
        Some("config file config.toml is malformed: expected `=`".to_string())
    );
}
