use gln_auth::premium::{
    id_of_profile, parse_mojang_profile_response, uuid_matches_mojang_id, FetchOutcome, FetchPlan,
    PremiumCache, PremiumLookup, Progress, MAX_ATTEMPTS,
};

#[test]
fn parser_maps_status_codes_like_jpremium() {
    assert_eq!(
        parse_mojang_profile_response(200, r#"{"id":"abc123","name":"Notch"}"#),
        Some("abc123".to_string())
    );
    assert_eq!(parse_mojang_profile_response(200, r#"{"name":"Notch"}"#), None);
    assert_eq!(parse_mojang_profile_response(200, "not json"), None);
    assert_eq!(parse_mojang_profile_response(404, ""), None);
    assert_eq!(parse_mojang_profile_response(204, ""), None);
    assert_eq!(parse_mojang_profile_response(429, ""), None);
    assert_eq!(parse_mojang_profile_response(500, "{}"), None);
}

#[test]
fn profile_id_must_be_a_string_member_of_an_object() {
    assert_eq!(parse_mojang_profile_response(200, r#"{"id":17}"#), None);
    assert_eq!(parse_mojang_profile_response(200, r#"["id"]"#), None);
    assert_eq!(parse_mojang_profile_response(200, r#""id""#), None);
    assert_eq!(parse_mojang_profile_response(200, r#"{"name":{"id":"x"}}"#), None);
    assert_eq!(
        parse_mojang_profile_response(200, " {\"x\":null,\"id\":\"\\u0061b\"} "),
        Some("ab".to_string())
    );
    assert_eq!(parse_mojang_profile_response(500, r#"{"id":"abc"}"#), None);
    assert_eq!(id_of_profile(200, Some("abc".to_string())), Some("abc".to_string()));
    assert_eq!(id_of_profile(404, Some("abc".to_string())), None);
    assert_eq!(id_of_profile(200, None), None);
}

#[test]
fn uuid_matcher_compares_hyphenless_forms() {
    assert!(uuid_matches_mojang_id(
        "069a79f4-444e-9472-6a5b-efca90e38aaf5",
        "069a79f4444e94726a5befca90e38aaf5"
    ));
    assert!(!uuid_matches_mojang_id(
        "b66de432-6fb9-3f71-a454-2b4f5f2a5b5f",
        "069a79f4444e94726a5befca90e38aaf5"
    ));
    assert!(uuid_matches_mojang_id(
        "069A79F4-444E-9472-6A5B-EFCA90E38AAF5",
        "069a79f4444e94726a5befca90e38aaf5"
    ));
    assert!(!uuid_matches_mojang_id("", "069a79f4444e94726a5befca90e38aaf5"));
    assert!(!uuid_matches_mojang_id("069a79f4444e94726a5befca90e38aaf5", ""));
    assert!(!uuid_matches_mojang_id("---", "-"));
}

#[test]
fn fetch_plan_caps_total_attempts_across_endpoints() {
    let mut plan = FetchPlan::new(MAX_ATTEMPTS);
    for _ in 0..MAX_ATTEMPTS {
        assert_eq!(plan.next(), Some(0), "budget not yet spent");
        plan.record(FetchOutcome::RetrySame);
    }
    assert_eq!(plan.next(), None);
}

#[test]
fn fetch_plan_moves_to_next_endpoint_on_next_endpoint_outcome() {
    let mut plan = FetchPlan::new(MAX_ATTEMPTS);
    assert_eq!(plan.next(), Some(0));
    plan.record(FetchOutcome::NextEndpoint);
    assert_eq!(plan.next(), Some(1));
    plan.record(FetchOutcome::NextEndpoint);
    assert_eq!(plan.next(), None);
}

#[test]
fn fetch_plan_exhausts_shared_budget_on_mixed_outcomes() {
    let mut plan = FetchPlan::new(3);
    assert_eq!(plan.next(), Some(0));
    plan.record(FetchOutcome::NextEndpoint);
    assert_eq!(plan.next(), Some(1));
    plan.record(FetchOutcome::RetrySame);
    assert_eq!(plan.next(), Some(1));
    plan.record(FetchOutcome::NextEndpoint);
    assert_eq!(plan.next(), None);
}

#[test]
fn cache_expires_after_ttl() {
    let mut c = PremiumCache::new(60);
    c.put("notch".into(), true, 1000);
    assert_eq!(c.get("NOTCH", 1020), Some(true));
    assert_eq!(c.get("notch", 1060), None);
    assert_eq!(c.get("notch", 2000), None);
}

#[test]
fn cache_keys_case_insensitive_and_negative_results_cached() {
    let mut c = PremiumCache::new(60);
    c.put("Steve".into(), false, 100);
    assert_eq!(c.get("STEVE", 120), Some(false));
    assert_eq!(c.get("steve", 120), Some(false));
    c.put("steve".into(), true, 130);
    assert_eq!(c.get("STEVE", 140), Some(true));
}

#[test]
fn cache_unknown_name_misses() {
    let c = PremiumCache::new(60);
    assert_eq!(c.get("ghost", 100), None);
}

#[test]
fn cache_survives_a_clock_that_runs_backwards() {
    let mut c = PremiumCache::new(60);
    c.put("notch".into(), true, 1000);
    assert_eq!(c.get("notch", 10), Some(true));
    assert_eq!(c.get("notch", 1059), Some(true));
}

const FIRST: &str = "https://api.minecraftservices.com/minecraft/profile/lookup/name/Notch";
const SECOND: &str = "https://api.mojang.com/users/profiles/minecraft/Notch";

fn settled(p: Progress) -> (bool, Option<String>) {
    match p {
        Progress::Settled(v) => v,
        Progress::Continue(_) => panic!("lookup is not settled"),
    }
}

fn pause(p: Progress) -> u64 {
    match p {
        Progress::Settled(_) => panic!("lookup is settled"),
        Progress::Continue(ms) => ms,
    }
}

#[test]
fn lookup_settles_on_an_id() {
    let mut l = PremiumLookup::new("Notch");
    assert_eq!(l.due(), Ok(FIRST.to_string()));
    let p = l.take_reply(Ok((200, r#"{"id":"abc"}"#.to_string())));
    assert_eq!(settled(p), (true, Some("abc".to_string())));
}

#[test]
fn lookup_settles_on_a_missing_name() {
    for status in [204u16, 404] {
        let mut l = PremiumLookup::new("Notch");
        let p = l.take_reply(Ok((status, String::new())));
        assert_eq!(settled(p), (false, None));
    }
}

#[test]
fn lookup_moves_on_without_a_pause_when_a_profile_has_no_id() {
    let mut l = PremiumLookup::new("Notch");
    assert_eq!(pause(l.take_reply(Ok((200, "{}".to_string())))), 0);
    assert_eq!(l.due(), Ok(SECOND.to_string()));
    assert_eq!(pause(l.take_reply(Ok((200, "{}".to_string())))), 0);
    assert_eq!(
        l.due(),
        Err("0gln-auth: premium lookup failed for Notch: ".to_string())
    );
}

#[test]
fn lookup_gives_up_after_three_failures() {
    let mut l = PremiumLookup::new("Notch");
    assert_eq!(pause(l.take_reply(Ok((429, String::new())))), 500);
    assert_eq!(l.due(), Ok(FIRST.to_string()));
    assert_eq!(pause(l.take_reply(Err("no route".to_string()))), 500);
    assert_eq!(l.due(), Ok(FIRST.to_string()));
    assert_eq!(pause(l.take_reply(Ok((503, String::new())))), 0);
    assert_eq!(
        l.due(),
        Err("0gln-auth: premium lookup failed for Notch: \
             https://api.minecraftservices.com/minecraft/profile/lookup/name/: \
             unexpected status 503"
            .to_string())
    );
}

#[test]
fn lookup_names_the_rate_limit() {
    let mut l = PremiumLookup::new("Notch");
    pause(l.take_reply(Ok((200, "{}".to_string()))));
    pause(l.take_reply(Ok((500, String::new()))));
    pause(l.take_reply(Ok((429, String::new()))));
    assert_eq!(
        l.due(),
        Err("0gln-auth: premium lookup failed for Notch: \
             https://api.mojang.com/users/profiles/minecraft/: rate limited (429)"
            .to_string())
    );
}
