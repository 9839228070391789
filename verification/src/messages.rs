//! Default message table.
//!
//! All player-facing texts that an owner can reword stand here with their default wording. A key
//! that the configuration leaves out keeps the wording of this table.

use crate::table::Table;
use vstd::prelude::*;

verus! {

/// The default wording of every message, by message key.
pub open spec fn default_wording() -> Map<Seq<char>, Seq<char>> {
    map![
        "join.register"@ => "Please register: /register <password> <confirm>"@,
        "join.choice"@ => "Are you premium or cracked? Use /premium to verify a premium name, or /register <password> <confirm> to create a cracked account."@,
        "join.login"@ => "Please login: /login <password>"@,
        "login.ok"@ => "Logged in."@,
        "login.wrong"@ => "Wrong password."@,
        "login.already"@ => "You are already logged in."@,
        "login.duplicate"@ => "Already logged in from another session."@,
        "login.rate_limited"@ => "Too many failed login attempts."@,
        "register.ok"@ => "Registered and logged in."@,
        "register.mismatch"@ => "Passwords do not match."@,
        "register.exists"@ => "An account with this name already exists. Use /login."@,
        "session.resume"@ => "Session resumed, welcome back."@,
        "premium.auto"@ => "Premium account detected, logged in."@,
        "premium.ok"@ => "Premium verified, welcome."@,
        "premium.not"@ => "That name is not premium, use /register."@,
        "premium.unavailable"@ => "Could not verify premium status, try again later."@,
        "premium.nopass"@ => "Account has no password, set a password first."@,
        "premium.exists"@ => "An account with this name already exists, use /login."@,
        "premium.uuid_mismatch"@ => "This is a premium name: join with your premium (Mojang-signed-in) launcher."@,
        "premium.uuid_wrong"@ => "You are not using this account's launcher: premium verification requires joining with the Mojang-signed-in launcher."@,
        "timeout.kick"@ => "Login timeout."@,
    ]
}

/// Stores one message.
fn put(table: &mut Table<String>, key: &str, wording: &str)
    ensures
        final(table)@ == old(table)@.insert(key@, wording@),
{
    table.insert(key.to_owned(), wording.to_owned());
}

/// Default text for every player-facing message, keyed by message key.
pub fn default_messages() -> (r: Table<String>)
    ensures
        r@ == default_wording(),
{
    let mut m: Table<String> = Table::new();
    put(&mut m, "join.register", "Please register: /register <password> <confirm>");
    put(
        &mut m,
        "join.choice",
        "Are you premium or cracked? Use /premium to verify a premium name, or /register <password> <confirm> to create a cracked account.",
    );
    put(&mut m, "join.login", "Please login: /login <password>");
    put(&mut m, "login.ok", "Logged in.");
    put(&mut m, "login.wrong", "Wrong password.");
    put(&mut m, "login.already", "You are already logged in.");
    put(&mut m, "login.duplicate", "Already logged in from another session.");
    put(&mut m, "login.rate_limited", "Too many failed login attempts.");
    put(&mut m, "register.ok", "Registered and logged in.");
    put(&mut m, "register.mismatch", "Passwords do not match.");
    put(&mut m, "register.exists", "An account with this name already exists. Use /login.");
    put(&mut m, "session.resume", "Session resumed, welcome back.");
    put(&mut m, "premium.auto", "Premium account detected, logged in.");
    put(&mut m, "premium.ok", "Premium verified, welcome.");
    put(&mut m, "premium.not", "That name is not premium, use /register.");
    put(&mut m, "premium.unavailable", "Could not verify premium status, try again later.");
    put(&mut m, "premium.nopass", "Account has no password, set a password first.");
    put(&mut m, "premium.exists", "An account with this name already exists, use /login.");
    put(
        &mut m,
        "premium.uuid_mismatch",
        "This is a premium name: join with your premium (Mojang-signed-in) launcher.",
    );
    put(
        &mut m,
        "premium.uuid_wrong",
        "You are not using this account's launcher: premium verification requires joining with the Mojang-signed-in launcher.",
    );
    put(&mut m, "timeout.kick", "Login timeout.");
    m
}

/// Whether handlers or commands send the message with this key.
pub open spec fn plugin_key(key: Seq<char>) -> bool {
    ||| key == "join.choice"@
    ||| key == "join.login"@
    ||| key == "login.ok"@
    ||| key == "login.wrong"@
    ||| key == "login.already"@
    ||| key == "login.duplicate"@
    ||| key == "login.rate_limited"@
    ||| key == "register.ok"@
    ||| key == "register.mismatch"@
    ||| key == "register.exists"@
    ||| key == "session.resume"@
    ||| key == "premium.auto"@
    ||| key == "premium.ok"@
    ||| key == "premium.not"@
    ||| key == "premium.unavailable"@
    ||| key == "premium.nopass"@
    ||| key == "premium.exists"@
    ||| key == "premium.uuid_mismatch"@
    ||| key == "premium.uuid_wrong"@
    ||| key == "timeout.kick"@
}

/// Every message that handlers and commands send has a default wording.
pub proof fn every_plugin_key_has_a_default(key: Seq<char>)
    requires
        plugin_key(key),
    ensures
        default_wording().contains_key(key),
{
}

/// The messages with a default are those that handlers and commands send, and one more.
pub proof fn defaults_are_for_known_messages(key: Seq<char>)
    ensures
        default_wording().contains_key(key) <==> plugin_key(key) || key == "join.register"@,
{
}

} // verus!
