//! What each command does, from the request to the end, in terms of its inputs and results.
//!
//! Where [`crate::laws`] relates commands, joins and leaves to each other, this module says of each
//! command by itself when it succeeds, what it then changes, what it leaves alone, and what it
//! answers. Every statement is about all inputs and all outcomes of the writes to disk.

use crate::commands::{
    arg, caller_model, change_refusal, change_with, claim_refusal, full_change_refusal, granted,
    hash_if, login_proceeds, login_with, logs_in, lookup_outcome,
    lookup_refusal, new_password_refusal, old_password_accepted, player_only, refused, register,
    register_proceeds, register_refusal, register_with, registers, resumed, store_error,
    unregister_with, Claim, ClaimModel, Pending, PendingModel, Reply, ReplyModel, Step, StepModel,
};
use crate::config::ConfigModel;
use crate::handlers::{Caller, CallerModel};
use crate::hash::{fresh_hash, password_matches, HashError};
use crate::laws::{finished, performed, started, Request};
use crate::premium::{ids_match, PremiumLookup, Verdict};
use crate::session::expiry;
use crate::state::AppModel;
use crate::storage::{AccountModel, SessionModel};
use crate::text::lowercase;
use crate::validation::{
    names_are_short_and_plain, new_name_error, new_names_match_the_pattern, password_error,
    passwords_are_bounded_and_free_of_the_name, pattern_matches,
};
use vstd::prelude::*;
use vstd::utf8::encode_utf8;

verus! {

/// Whether a name is fit for a new account: 3 to 16 bytes, made of ASCII letters, digits and
/// underscores, and matching the configured pattern.
pub open spec fn fit_name(name: Seq<char>, cfg: ConfigModel) -> bool {
    &&& 3 <= encode_utf8(name).len() <= 16
    &&& forall|i: int|
        0 <= i < name.len() ==> {
            let c = #[trigger] name[i];
            'a' <= c <= 'z' || 'A' <= c <= 'Z' || '0' <= c <= '9' || c == '_'
        }
    &&& pattern_matches(cfg.name_regex, name) == Some(true)
}

/// Whether a password is fit for a player: its bytes number within the configured bounds, and the
/// player's name does not stand in it in any case.
pub open spec fn fit_password(pw: Seq<char>, name: Seq<char>, cfg: ConfigModel) -> bool {
    &&& cfg.pw_min_len <= encode_utf8(pw).len() <= cfg.pw_max_len
    &&& !exists|before: Seq<char>, after: Seq<char>|
        lowercase(pw) == #[trigger] (before + lowercase(name) + after)
}

/// The rules on names and passwords refuse exactly what is not fit.
pub proof fn rules_refuse_the_unfit(name: Seq<char>, pw: Seq<char>, n: Seq<char>, cfg: ConfigModel)
    ensures
        new_name_error(name, cfg) is None <==> fit_name(name, cfg),
        password_error(pw, n, cfg) is None <==> fit_password(pw, n, cfg),
{
    names_are_short_and_plain(name);
    new_names_match_the_pattern(name, cfg);
    passwords_are_bounded_and_free_of_the_name(pw, n, cfg);
}

/// Whether an answer is this one, with no kick.
pub open spec fn says(reply: ReplyModel, success: bool, text: Seq<char>) -> bool {
    reply.success == success && reply.text == text && reply.kick is None
}

/// Whether so many writes were made and all of them succeeded.
pub open spec fn written(writes: Seq<bool>, n: nat) -> bool {
    writes.len() >= n && forall|i: int| 0 <= i < n ==> #[trigger] writes[i]
}

/// Whether a registration is in order: a player who is not logged in and has no account gives a fit
/// name and a fit password, and the same password again.
pub open spec fn orderly_registration(
    m: AppModel,
    who: CallerModel,
    password: Option<Seq<char>>,
    confirm: Option<Seq<char>>,
) -> bool {
    let n = lowercase(who.name);
    &&& password matches Some(p)
    &&& confirm == Some(p)
    &&& !m.authed.contains(n)
    &&& m.store.find_account(n) matches Ok(None)
    &&& fit_name(who.name, m.cfg)
    &&& fit_password(p, n, m.cfg)
}

/// The account that a registration or a claim creates.
pub open spec fn account_of(
    who: CallerModel,
    premium_id: Option<Seq<char>>,
    hash: Seq<char>,
    now: u64,
) -> AccountModel {
    AccountModel {
        name: who.name,
        uuid: who.uuid,
        premium_id,
        hash,
        last_ip: who.ip,
        last_seen: now as i64,
        created: now as i64,
    }
}

/// The session that a login opens.
pub open spec fn session_of(who: CallerModel, now: u64, cfg: ConfigModel) -> SessionModel {
    SessionModel { name: who.name, ip: who.ip, expires_at: expiry(now, cfg) }
}

/// A registration succeeds exactly if it is in order, the password was hashed and both writes
/// succeed. It then stores the account with that hash and a session and lets the player in. One that
/// is not in order, such as one whose two passwords differ, changes nothing. What is written to disk
/// holds the account first, and the session with it then.
pub proof fn registrations_succeed_in_order(
    m: AppModel,
    who: CallerModel,
    password: Option<Seq<char>>,
    confirm: Option<Seq<char>>,
    hash: Result<Seq<char>, HashError>,
    now: u64,
    writes: Seq<bool>,
)
    ensures
        ({
            let req = Request::Register { who, password, confirm, hash, now };
            let n = lowercase(who.name);
            let orderly = orderly_registration(m, who, password, confirm);
            let with_account = m.store.with_account(account_of(who, None, hash->Ok_0, now));
            let with_both = with_account.with_session(session_of(who, now, m.cfg));
            &&& performed(m, req, writes) matches Some((after, reply)) ==> {
                &&& reply.success <==> orderly && hash is Ok && written(writes, 2)
                &&& reply.kick is None
                &&& !(orderly && hash is Ok) ==> after == m
                &&& reply.success ==> says(reply, true, m.cfg.message("register.ok"@)) && after == (
                AppModel { store: with_both, authed: m.authed.insert(n), ..m })
                &&& orderly && hash is Ok && !reply.success ==> {
                    &&& says(reply, false, "Internal error, action was not completed."@)
                    &&& after == (AppModel {
                        store: if writes[0] {
                            with_both
                        } else {
                            with_account
                        },
                        ..m
                    })
                }
            }
            &&& orderly && hash is Ok ==> {
                let (m1, s1) = started(m, req);
                &&& s1 matches StepModel::Save(p1)
                &&& m1 == (AppModel { store: with_account, ..m })
                &&& resumed(m1, p1, true).1 is Save
                &&& resumed(m1, p1, true).0 == (AppModel { store: with_both, ..m })
            }
            &&& !(orderly && hash is Ok) ==> performed(m, req, writes) is Some
        }),
{
    reveal_with_fuel(finished, 4);
    let n = lowercase(who.name);
    if password is Some {
        rules_refuse_the_unfit(who.name, password->0, n, m.cfg);
    }
}

/// What a refused registration is answered, in this order: the usage, that the player is logged in,
/// that the store failed, that the account exists, what is wrong with the name, what is wrong with
/// the password, that the passwords differ, that hashing failed.
pub proof fn refused_registrations_are_answered(
    m: AppModel,
    who: CallerModel,
    password: Option<Seq<char>>,
    confirm: Option<Seq<char>>,
    hash: Result<Seq<char>, HashError>,
    now: u64,
    writes: Seq<bool>,
)
    requires
        !(orderly_registration(m, who, password, confirm) && hash is Ok),
    ensures
        ({
            let req = Request::Register { who, password, confirm, hash, now };
            let n = lowercase(who.name);
            &&& performed(m, req, writes) matches Some((after, reply))
            &&& after == m
            &&& says(
                reply,
                false,
                if password is None || confirm is None {
                    "Usage: /register <password> <confirm>"@
                } else if m.authed.contains(n) {
                    m.cfg.message("login.already"@)
                } else if m.store.poisoned {
                    "Internal error, action was not completed."@
                } else if m.store.accounts.contains_key(lowercase(n)) {
                    m.cfg.message("register.exists"@)
                } else if !fit_name(who.name, m.cfg) {
                    new_name_error(who.name, m.cfg)->0
                } else if !fit_password(password->0, n, m.cfg) {
                    password_error(password->0, n, m.cfg)->0
                } else if password != confirm {
                    m.cfg.message("register.mismatch"@)
                } else {
                    "Registration failed, please try again."@
                },
            )
        }),
{
    reveal_with_fuel(finished, 2);
    let n = lowercase(who.name);
    if password is Some {
        rules_refuse_the_unfit(who.name, password->0, n, m.cfg);
    }
}

/// Somebody who is no player is told so. A player's registration runs with a hash of the password
/// under a salt that was drawn for it, if it is in order; nothing else is stored.
pub proof fn registrations_run_with_a_fresh_hash(
    m: AppModel,
    caller: Option<CallerModel>,
    password: Option<Seq<char>>,
    confirm: Option<Seq<char>>,
    now: u64,
    result: (AppModel, StepModel),
)
    requires
        registers(m, caller, password, confirm, now, result),
    ensures
        match caller {
            None => result.0 == m && (result.1 matches StepModel::Done(reply) && says(
                reply,
                false,
                "This command can only be used by players."@,
            )),
            Some(who) => exists|hash: Result<Seq<char>, HashError>|
                {
                    &&& orderly_registration(m, who, password, confirm) ==> fresh_hash(
                        password->0,
                        hash,
                    )
                    &&& result == #[trigger] started(
                        m,
                        Request::Register { who, password, confirm, hash, now },
                    )
                },
        },
        register_proceeds(m, caller, password, confirm) <==> {
            &&& caller matches Some(who)
            &&& orderly_registration(m, who, password, confirm)
        },
{
    if let Some(who) = caller {
        let n = lowercase(who.name);
        if password is Some {
            rules_refuse_the_unfit(who.name, password->0, n, m.cfg);
        }
        let h = choose|h: Result<Seq<char>, HashError>| #[trigger]
            hash_if(register_refusal(m, who, password, confirm) is None, password, h) && result
                == register(m, who, password, confirm, h, now);
        assert(result == started(
            m,
            Request::Register { who, password, confirm, hash: h, now },
        ));
    }
}

/// Failed logins on record for an address.
pub open spec fn on_record(m: AppModel, ip: Seq<char>) -> int {
    if m.failures.contains_key(ip) {
        m.failures[ip] as int
    } else {
        0
    }
}

/// Every wrong password counts, whatever it is: the failures of the address go up by one, to the
/// limit at most, and the answer kicks exactly if the limit is then reached. Nothing else changes.
pub proof fn every_wrong_password_counts(
    m: AppModel,
    who: CallerModel,
    password: Seq<char>,
    now: u64,
    writes: Seq<bool>,
)
    requires
        m.store.find_account(lowercase(who.name)) matches Ok(Some(account)) && !password_matches(
            account.hash,
            password,
        ),
    ensures
        ({
            let req = Request::Login { who, password: Some(password), now };
            let limit = m.cfg.max_login_tries as int;
            let count = if on_record(m, who.ip) + 1 < limit {
                on_record(m, who.ip) + 1
            } else {
                limit
            };
            &&& performed(m, req, writes) matches Some((after, reply))
            &&& on_record(after, who.ip) == count
            &&& after == (AppModel { failures: m.failures.insert(who.ip, count as u32), ..m })
            &&& !reply.success
            &&& reply.text == m.cfg.message("login.wrong"@)
            &&& reply.kick == (if on_record(m, who.ip) + 1 >= limit {
                Some(m.cfg.message("login.rate_limited"@))
            } else {
                None
            })
        }),
{
    reveal_with_fuel(finished, 2);
}

/// A login succeeds exactly if the account's hash accepts the password and the write succeeds. It
/// then lets the player in, remembers the session and forgets the failures of the address. If the
/// write fails nobody is let in and the failures stay.
pub proof fn accepted_passwords_log_in(
    m: AppModel,
    who: CallerModel,
    password: Seq<char>,
    now: u64,
    writes: Seq<bool>,
)
    requires
        m.store.find_account(lowercase(who.name)) matches Ok(Some(account)) && password_matches(
            account.hash,
            password,
        ),
    ensures
        ({
            let req = Request::Login { who, password: Some(password), now };
            let n = lowercase(who.name);
            let store = m.store.with_session(session_of(who, now, m.cfg));
            &&& started(m, req).0 == (AppModel { store, ..m })
            &&& started(m, req).1 is Save
            &&& performed(m, req, writes) is None <==> writes.len() == 0
            &&& performed(m, req, writes) matches Some((after, reply)) ==> if writes[0] {
                &&& says(reply, true, m.cfg.message("login.ok"@))
                &&& after == (AppModel {
                    store,
                    authed: m.authed.insert(n),
                    failures: m.failures.remove(who.ip),
                    ..m
                })
            } else {
                &&& says(reply, false, "Internal error, action was not completed."@)
                &&& after == (AppModel { store, ..m })
            }
        }),
{
    reveal_with_fuel(finished, 3);
}

/// A login without password or without account changes nothing, and neither does one of somebody who
/// is no player.
pub proof fn other_logins_are_refused(
    m: AppModel,
    who: CallerModel,
    password: Option<Seq<char>>,
    now: u64,
    writes: Seq<bool>,
)
    requires
        password is None || !(m.store.find_account(lowercase(who.name)) matches Ok(Some(_))),
    ensures
        performed(m, Request::Login { who, password, now }, writes) matches Some((after, reply))
            && after == m && says(
            reply,
            false,
            if password is None {
                "Usage: /login <password>"@
            } else if m.store.poisoned {
                "Internal error, action was not completed."@
            } else {
                "You are not registered."@
            },
        ),
        logs_in(m, None, password, now).0 == m,
        logs_in(m, None, password, now).1 matches StepModel::Done(reply) && says(
            reply,
            false,
            "This command can only be used by players."@,
        ),
{
    reveal_with_fuel(finished, 2);
}

/// The login that the command runs is the player's, and it opens a session exactly if the account's
/// hash accepts the password.
pub proof fn logins_are_the_players(
    m: AppModel,
    who: CallerModel,
    password: Option<Seq<char>>,
    now: u64,
)
    ensures
        logs_in(m, Some(who), password, now) == started(m, Request::Login { who, password, now }),
        login_proceeds(m, Some(who), password) <==> {
            &&& password is Some
            &&& m.store.find_account(lowercase(who.name)) matches Ok(Some(account))
            &&& password_matches(account.hash, password->0)
        },
        !login_proceeds(m, None, password),
{
}

/// A logout succeeds exactly if the player is logged in, the store works and the write succeeds. The
/// session is gone from what is written; the player is then out, and frozen from that time on.
pub proof fn logouts_succeed_for_the_logged_in(
    m: AppModel,
    who: CallerModel,
    now: u64,
    writes: Seq<bool>,
)
    ensures
        ({
            let req = Request::Logout { who, now };
            let n = lowercase(who.name);
            let store = m.store.without_session(n);
            let runs = m.authed.contains(n) && !m.store.poisoned;
            &&& runs ==> started(m, req).0 == (AppModel { store, ..m }) && started(m, req).1 is Save
            &&& !runs ==> performed(m, req, writes) is Some
            &&& performed(m, req, writes) matches Some((after, reply)) ==> {
                &&& reply.success <==> runs && written(writes, 1)
                &&& reply.success ==> says(reply, true, "Logged out."@) && after == (AppModel {
                    store,
                    authed: m.authed.remove(n),
                    joined_at: m.joined_at.insert(n, now),
                    ..m
                })
                &&& runs && !reply.success ==> after == (AppModel { store, ..m })
                &&& !runs ==> after == m
                &&& !reply.success ==> says(
                    reply,
                    false,
                    if m.authed.contains(n) {
                        "Internal error, action was not completed."@
                    } else {
                        "You are not logged in."@
                    },
                )
            }
        }),
{
    reveal_with_fuel(finished, 3);
}

/// Whether a change of password is in order: the player is logged in and has an account, the account
/// has no password or its hash accepts the old one, and the new password is fit.
pub open spec fn orderly_change(
    m: AppModel,
    who: CallerModel,
    old_password: Option<Seq<char>>,
    new_password: Option<Seq<char>>,
) -> bool {
    let n = lowercase(who.name);
    &&& old_password is Some
    &&& new_password is Some
    &&& m.authed.contains(n)
    &&& m.store.find_account(n) matches Ok(Some(account))
    &&& account.hash.len() == 0 || password_matches(account.hash, old_password->0)
    &&& fit_password(new_password->0, n, m.cfg)
}

/// A change of password succeeds exactly if it is in order, the new password was hashed and the write
/// succeeds. It then gives the account the new hash and leaves all else of it. One that is not in
/// order, such as one with a new password out of bounds, changes nothing.
pub proof fn changes_succeed_in_order(
    m: AppModel,
    who: CallerModel,
    old_password: Option<Seq<char>>,
    new_password: Option<Seq<char>>,
    hash: Result<Seq<char>, HashError>,
    writes: Seq<bool>,
)
    ensures
        ({
            let req = Request::ChangePassword { who, old_password, new_password, hash };
            let n = lowercase(who.name);
            let runs = orderly_change(m, who, old_password, new_password) && hash is Ok;
            let account = m.store.find_account(n)->Ok_0->0;
            let store = m.store.with_account(AccountModel { hash: hash->Ok_0, ..account });
            &&& runs ==> started(m, req).0 == (AppModel { store, ..m }) && started(m, req).1 is Save
            &&& !runs ==> performed(m, req, writes) is Some
            &&& performed(m, req, writes) matches Some((after, reply)) ==> {
                &&& reply.success <==> runs && written(writes, 1)
                &&& reply.success ==> says(reply, true, "Password changed."@)
                &&& after == (if runs {
                    AppModel { store, ..m }
                } else {
                    m
                })
                &&& !reply.success ==> says(
                    reply,
                    false,
                    if old_password is None || new_password is None {
                        "Usage: /changepassword <old> <new>"@
                    } else if !m.authed.contains(n) {
                        "You must be logged in to change your password."@
                    } else if m.store.poisoned {
                        "Internal error, action was not completed."@
                    } else if !m.store.accounts.contains_key(lowercase(n)) {
                        "Unknown account."@
                    } else if account.hash.len() > 0 && !password_matches(
                        account.hash,
                        old_password->0,
                    ) {
                        m.cfg.message("login.wrong"@)
                    } else if !fit_password(new_password->0, n, m.cfg) {
                        password_error(new_password->0, n, m.cfg)->0
                    } else if hash is Err {
                        "Password change failed, please try again."@
                    } else {
                        "Internal error, action was not completed."@
                    },
                )
            }
        }),
{
    reveal_with_fuel(finished, 3);
    let n = lowercase(who.name);
    if new_password is Some {
        rules_refuse_the_unfit(who.name, new_password->0, n, m.cfg);
    }
}

/// The parts of a change of password: the first refusal looks at the arguments, the login and the
/// account, the second at the old password and at the new one, and together they refuse what is not
/// in order. Where a hash is asked for, it is one of the password under a salt drawn for it.
pub proof fn changes_are_checked_in_parts(
    m: AppModel,
    who: CallerModel,
    old_password: Option<Seq<char>>,
    new_password: Option<Seq<char>>,
    accepted: bool,
    pw: Seq<char>,
    account: AccountModel,
    asked: bool,
    hash: Result<Seq<char>, HashError>,
)
    ensures
        ({
            let n = lowercase(who.name);
            &&& change_refusal(m, who, old_password, new_password) is None <==> {
                &&& old_password is Some
                &&& new_password is Some
                &&& m.authed.contains(n)
                &&& m.store.find_account(n) matches Ok(Some(_))
            }
            &&& new_password_refusal(m, who, accepted, pw) is None <==> accepted && fit_password(
                pw,
                n,
                m.cfg,
            )
            &&& !accepted ==> new_password_refusal(m, who, accepted, pw) == Some(
                m.cfg.message("login.wrong"@),
            )
            &&& accepted ==> new_password_refusal(m, who, accepted, pw) == password_error(
                pw,
                n,
                m.cfg,
            )
            &&& old_password_accepted(account, pw) <==> account.hash.len() == 0
                || password_matches(account.hash, pw)
            &&& full_change_refusal(m, who, old_password, new_password) is None <==> orderly_change(
                m,
                who,
                old_password,
                new_password,
            )
            &&& asked ==> (hash_if(asked, new_password, hash) <==> new_password is Some
                && fresh_hash(new_password->0, hash))
        }),
{
    let n = lowercase(who.name);
    rules_refuse_the_unfit(who.name, pw, n, m.cfg);
    if new_password is Some {
        rules_refuse_the_unfit(who.name, new_password->0, n, m.cfg);
    }
}

/// A deletion succeeds exactly if the player is logged in, the account's hash accepts the password
/// and the first write succeeds. The account is gone from the first write and the session from the
/// second; the player is then out, and frozen from that time on.
pub proof fn deletions_need_the_password(
    m: AppModel,
    who: CallerModel,
    password: Option<Seq<char>>,
    now: u64,
    writes: Seq<bool>,
)
    ensures
        ({
            let req = Request::Unregister { who, password, now };
            let n = lowercase(who.name);
            let account = m.store.find_account(n)->Ok_0->0;
            let runs = {
                &&& password is Some
                &&& m.authed.contains(n)
                &&& m.store.find_account(n) matches Ok(Some(_))
                &&& password_matches(account.hash, password->0)
            };
            let without = m.store.without_account(n);
            &&& runs ==> {
                &&& started(m, req).0 == (AppModel { store: without, ..m })
                &&& started(m, req).1 matches StepModel::Save(p1)
                &&& resumed(started(m, req).0, p1, true).1 is Save
                &&& resumed(started(m, req).0, p1, true).0 == (AppModel {
                    store: without.without_session(n),
                    ..m
                })
            }
            &&& !runs ==> performed(m, req, writes) is Some
            &&& performed(m, req, writes) matches Some((after, reply)) ==> {
                &&& reply.success <==> runs && writes.len() >= 2 && writes[0]
                &&& reply.success ==> says(reply, true, "Account deleted."@) && after == (AppModel {
                    store: without.without_session(n),
                    authed: m.authed.remove(n),
                    joined_at: m.joined_at.insert(n, now),
                    ..m
                })
                &&& !reply.success ==> after == (if runs {
                    AppModel { store: without, ..m }
                } else {
                    m
                })
                &&& !reply.success ==> says(
                    reply,
                    false,
                    if password is None {
                        "Usage: /unregister <password>"@
                    } else if !m.authed.contains(n) {
                        "You must be logged in to delete your account."@
                    } else if m.store.poisoned {
                        "Internal error, action was not completed."@
                    } else if !m.store.accounts.contains_key(lowercase(n)) {
                        "Unknown account."@
                    } else if !password_matches(account.hash, password->0) {
                        m.cfg.message("login.wrong"@)
                    } else {
                        "Internal error, action was not completed."@
                    },
                )
            }
        }),
{
    reveal_with_fuel(finished, 4);
}

/// A claim goes on to a lookup exactly if there is no account of that name, the name is fit, lookups
/// are switched on, and the name is not remembered as not premium. What a refused claim is answered,
/// in this order: that the store failed, that the account exists, what is wrong with the name, that
/// lookups are off, that the name is not premium.
pub proof fn claims_are_looked_up(m: AppModel, who: CallerModel, now: u64)
    ensures
        ({
            let n = lowercase(who.name);
            &&& claim_refusal(m, who, now) is None <==> {
                &&& m.store.find_account(n) matches Ok(None)
                &&& fit_name(who.name, m.cfg)
                &&& m.cfg.premium_check_enabled
                &&& m.premium.verdict(who.name, now) != Some(false)
            }
            &&& claim_refusal(m, who, now) matches Some(text) ==> text == (if m.store.poisoned {
                "Internal error, action was not completed."@
            } else if m.store.accounts.contains_key(lowercase(n)) {
                m.cfg.message("premium.exists"@)
            } else if !fit_name(who.name, m.cfg) {
                new_name_error(who.name, m.cfg)->0
            } else if !m.cfg.premium_check_enabled {
                m.cfg.message("premium.unavailable"@)
            } else {
                m.cfg.message("premium.not"@)
            })
        }),
{
    rules_refuse_the_unfit(who.name, who.name, who.name, m.cfg);
}

/// A claim succeeds exactly if the lookup found an id, there is still no account, the client presents
/// that id and both writes succeed. It then stores an account with that id and without password, and
/// a session, and lets the player in. Whatever else happens, a finding is remembered and a failure is
/// not.
pub proof fn claims_succeed_with_the_id(
    m: AppModel,
    who: CallerModel,
    outcome: Result<(bool, Option<Seq<char>>), Seq<char>>,
    now: u64,
    writes: Seq<bool>,
)
    ensures
        ({
            let req = Request::Premium { who, outcome, now };
            let n = lowercase(who.name);
            let found = outcome matches Ok((premium, Some(_))) && premium;
            let refuted = outcome matches Ok((premium, _)) && !premium;
            let id = outcome->Ok_0.1->0;
            let runs = found && (m.store.find_account(n) matches Ok(None)) && ids_match(
                who.uuid,
                id,
            );
            let premium = if found {
                m.premium.remember(who.name, true, now)
            } else if refuted {
                m.premium.remember(who.name, false, now)
            } else {
                m.premium
            };
            let with_account = m.store.with_account(
                account_of(who, Some(id), Seq::empty(), now),
            );
            let with_both = with_account.with_session(session_of(who, now, m.cfg));
            &&& runs ==> {
                let (m1, s1) = started(m, req);
                &&& s1 matches StepModel::Save(p1)
                &&& m1 == (AppModel { store: with_account, premium, ..m })
                &&& resumed(m1, p1, true).1 is Save
                &&& resumed(m1, p1, true).0 == (AppModel { store: with_both, premium, ..m })
            }
            &&& !runs ==> performed(m, req, writes) is Some
            &&& performed(m, req, writes) matches Some((after, reply)) ==> {
                &&& reply.success <==> runs && written(writes, 2)
                &&& reply.success ==> says(reply, true, m.cfg.message("premium.ok"@)) && after == (
                AppModel { store: with_both, authed: m.authed.insert(n), premium, ..m })
                &&& !runs ==> after == (AppModel { premium, ..m })
                &&& runs && !reply.success ==> after == (AppModel {
                    store: if writes[0] {
                        with_both
                    } else {
                        with_account
                    },
                    premium,
                    ..m
                })
                &&& !reply.success ==> says(
                    reply,
                    false,
                    if refuted {
                        m.cfg.message("premium.not"@)
                    } else if !found {
                        m.cfg.message("premium.unavailable"@)
                    } else if m.store.poisoned {
                        "Internal error, action was not completed."@
                    } else if m.store.accounts.contains_key(lowercase(n)) {
                        m.cfg.message("premium.exists"@)
                    } else if !ids_match(who.uuid, id) {
                        m.cfg.message("premium.uuid_wrong"@)
                    } else {
                        "Internal error, action was not completed."@
                    },
                )
            }
        }),
{
    reveal_with_fuel(finished, 4);
}

/// Setting the premium flag succeeds exactly if the account exists, has a password or is to be
/// premium, and the write succeeds. It gives the account its own id as premium id or takes that away,
/// and leaves all else.
pub proof fn premium_flags_are_set(
    m: AppModel,
    enable: bool,
    name: Option<Seq<char>>,
    writes: Seq<bool>,
)
    ensures
        ({
            let req = Request::SetPremium { enable, name };
            let n = lowercase(name->0);
            let account = m.store.find_account(n)->Ok_0->0;
            let runs = name is Some && (m.store.find_account(n) matches Ok(Some(_))) && (enable
                || account.hash.len() > 0);
            let store = m.store.with_account(
                AccountModel {
                    premium_id: if enable {
                        Some(account.uuid)
                    } else {
                        None
                    },
                    ..account
                },
            );
            &&& runs ==> started(m, req).0 == (AppModel { store, ..m }) && started(m, req).1 is Save
            &&& !runs ==> performed(m, req, writes) is Some
            &&& performed(m, req, writes) matches Some((after, reply)) ==> {
                &&& reply.success <==> runs && written(writes, 1)
                &&& after == (if runs {
                    AppModel { store, ..m }
                } else {
                    m
                })
                &&& reply.success ==> says(
                    reply,
                    true,
                    (if enable {
                        "Premium enabled for "@
                    } else {
                        "Premium disabled for "@
                    }) + account.name + "."@,
                )
                &&& !reply.success ==> says(
                    reply,
                    false,
                    if name is None {
                        "Usage: /setpremium <name> <on|off>"@
                    } else if m.store.poisoned {
                        "Internal error, action was not completed."@
                    } else if !m.store.accounts.contains_key(lowercase(n)) {
                        "Unknown account."@
                    } else if !enable && account.hash.len() == 0 {
                        m.cfg.message("premium.nopass"@)
                    } else {
                        "Internal error, action was not completed."@
                    },
                )
            }
        }),
{
    reveal_with_fuel(finished, 3);
}

/// A forced login lets in exactly the player of an account that exists, and changes nothing else.
pub proof fn forced_logins_need_an_account(m: AppModel, name: Option<Seq<char>>, writes: Seq<bool>)
    ensures
        ({
            let n = lowercase(name->0);
            &&& performed(m, Request::ForceLogin { name }, writes) matches Some((after, reply))
            &&& reply.success <==> name is Some && (m.store.find_account(n) matches Ok(Some(_)))
            &&& reply.success ==> says(reply, true, "Force-logged in "@ + name->0 + "."@) && after
                == (AppModel { authed: m.authed.insert(n), ..m })
            &&& !reply.success ==> after == m && says(
                reply,
                false,
                if name is None {
                    "Usage: /forcelogin <name>"@
                } else if m.store.poisoned {
                    "Internal error, action was not completed."@
                } else {
                    "Unknown account."@
                },
            )
        }),
{
    reveal_with_fuel(finished, 2);
}

/// The conclusions of commands, by themselves: a registration stores the account if there is a hash,
/// a login opens a session if the password was accepted and counts a failure if not, a change stores
/// the new hash, a deletion needs the password. On a poisoned store all of them are refused.
pub proof fn conclusions_follow_what_was_checked(
    m: AppModel,
    who: CallerModel,
    hash: Result<Seq<char>, HashError>,
    account: AccountModel,
    accepted: bool,
    now: u64,
)
    ensures
        ({
            let broken = (
                m,
                StepModel::Done(
                    ReplyModel {
                        success: false,
                        text: "Internal error, action was not completed."@,
                        kick: None,
                    },
                ),
            );
            let n = lowercase(who.name);
            let count = on_record(m, who.ip) + 1;
            let limit = m.cfg.max_login_tries as int;
            &&& m.store.poisoned ==> {
                &&& hash is Ok ==> register_with(m, who, hash, now) == broken
                &&& hash is Ok ==> change_with(m, account, hash) == broken
                &&& accepted ==> login_with(m, who, accepted, now) == broken
                &&& accepted ==> unregister_with(m, who, accepted, now) == broken
            }
            &&& hash is Err ==> {
                &&& register_with(m, who, hash, now).0 == m
                &&& change_with(m, account, hash).0 == m
                &&& register_with(m, who, hash, now).1 matches StepModel::Done(a) && says(
                    a,
                    false,
                    "Registration failed, please try again."@,
                )
                &&& change_with(m, account, hash).1 matches StepModel::Done(b) && says(
                    b,
                    false,
                    "Password change failed, please try again."@,
                )
            }
            &&& !m.store.poisoned ==> {
                &&& hash matches Ok(h) ==> {
                    &&& register_with(m, who, hash, now).0 == (AppModel {
                        store: m.store.with_account(account_of(who, None, h, now)),
                        ..m
                    })
                    &&& register_with(m, who, hash, now).1 == StepModel::Save(
                        PendingModel::Account {
                            session: session_of(who, now, m.cfg),
                            normalized: n,
                            welcome: m.cfg.message("register.ok"@),
                        },
                    )
                    &&& change_with(m, account, hash).0 == (AppModel {
                        store: m.store.with_account(AccountModel { hash: h, ..account }),
                        ..m
                    })
                    &&& change_with(m, account, hash).1 == StepModel::Save(
                        PendingModel::Change { done: "Password changed."@ },
                    )
                }
                &&& accepted ==> {
                    &&& login_with(m, who, accepted, now) == (
                        AppModel {
                            store: m.store.with_session(session_of(who, now, m.cfg)),
                            ..m
                        },
                        StepModel::Save(
                            PendingModel::Session {
                                normalized: n,
                                forgive: Some(who.ip),
                                welcome: m.cfg.message("login.ok"@),
                            },
                        ),
                    )
                    &&& unregister_with(m, who, accepted, now) == (
                        AppModel { store: m.store.without_account(n), ..m },
                        StepModel::Save(PendingModel::Deletion { normalized: n, now }),
                    )
                }
            }
            &&& !accepted ==> {
                &&& unregister_with(m, who, accepted, now).0 == m
                &&& unregister_with(m, who, accepted, now).1 matches StepModel::Done(c) && says(
                    c,
                    false,
                    m.cfg.message("login.wrong"@),
                )
                &&& login_with(m, who, accepted, now).0 == (AppModel {
                    failures: m.failures.insert(
                        who.ip,
                        (if count < limit {
                            count
                        } else {
                            limit
                        }) as u32,
                    ),
                    ..m
                })
                &&& login_with(m, who, accepted, now).1 matches StepModel::Done(d) && !d.success
                    && d.text == m.cfg.message("login.wrong"@) && d.kick == (if count >= limit {
                    Some(m.cfg.message("login.rate_limited"@))
                } else {
                    None
                })
            }
        }),
{
}

/// How a command goes on after a write: one that failed is answered with an error and changes
/// nothing, except for the session of an account that is already deleted. After one that succeeded a
/// new account gets its session, a session lets its player in and forgives the address that it names,
/// a logout freezes the player again, a change is answered, and a deletion clears the session and
/// then logs out.
pub proof fn writes_are_followed_up(
    m: AppModel,
    session: SessionModel,
    n: Seq<char>,
    ip: Seq<char>,
    text: Seq<char>,
    now: u64,
    ok: bool,
)
    ensures
        ({
            let broken = refused("Internal error, action was not completed."@);
            let out = AppModel {
                authed: m.authed.remove(n),
                joined_at: m.joined_at.insert(n, now),
                ..m
            };
            let account = PendingModel::Account { session, normalized: n, welcome: text };
            let plain = PendingModel::Session { normalized: n, forgive: None, welcome: text };
            let login = PendingModel::Session { normalized: n, forgive: Some(ip), welcome: text };
            let logout = PendingModel::Logout { normalized: n, now };
            let change = PendingModel::Change { done: text };
            let deletion = PendingModel::Deletion { normalized: n, now };
            let cleanup = PendingModel::Cleanup { normalized: n, now };
            &&& resumed(m, account, false) == (m, broken)
            &&& resumed(m, plain, false) == (m, broken)
            &&& resumed(m, login, false) == (m, broken)
            &&& resumed(m, logout, false) == (m, broken)
            &&& resumed(m, change, false) == (m, broken)
            &&& resumed(m, deletion, false) == (m, broken)
            &&& resumed(m, account, true) == (if m.store.poisoned {
                (m, broken)
            } else {
                (
                    AppModel { store: m.store.with_session(session), ..m },
                    StepModel::Save(plain),
                )
            })
            &&& resumed(m, plain, true) == (
                AppModel { authed: m.authed.insert(n), ..m },
                granted(text),
            )
            &&& resumed(m, login, true) == (
                AppModel { authed: m.authed.insert(n), failures: m.failures.remove(ip), ..m },
                granted(text),
            )
            &&& resumed(m, logout, true) == (out, granted("Logged out."@))
            &&& resumed(m, change, true) == (m, granted(text))
            &&& resumed(m, deletion, true) == (if m.store.poisoned {
                (out, granted("Account deleted."@))
            } else {
                (
                    AppModel { store: m.store.without_session(n), ..m },
                    StepModel::Save(cleanup),
                )
            })
            &&& resumed(m, cleanup, ok) == (out, granted("Account deleted."@))
        }),
{
}

/// What is said where: refusals and successes carry their text and no kick, the two standing texts
/// are these, and a lookup is refused for a missing account or a broken store.
pub proof fn answers_carry_their_text(m: AppModel, text: Seq<char>, name: Seq<char>)
    ensures
        refused(text) matches StepModel::Done(reply) && says(reply, false, text),
        granted(text) matches StepModel::Done(reply) && says(reply, true, text),
        player_only() == "This command can only be used by players."@,
        store_error() == "Internal error, action was not completed."@,
        lookup_refusal(m, name) is None <==> m.store.find_account(name) matches Ok(Some(_)),
        m.store.poisoned ==> lookup_refusal(m, name) == Some(
            "Internal error, action was not completed."@,
        ),
        !m.store.poisoned && !m.store.accounts.contains_key(lowercase(name)) ==> lookup_refusal(
            m,
            name,
        ) == Some("Unknown account."@),
{
}

/// The models of answers, steps, claims and arguments show all of them.
pub proof fn command_models_are_complete(
    reply: Reply,
    pending: Pending,
    lookup: PremiumLookup,
    found: Result<Verdict, String>,
    a: Option<&str>,
    caller: Option<&Caller>,
)
    ensures
        reply@.success == reply.success && reply@.text == reply.text@,
        reply.kick is None <==> reply@.kick is None,
        reply.kick matches Some(text) ==> reply@.kick == Some(text@),
        Step::Done(reply)@ == StepModel::Done(reply@),
        Step::Save(pending)@ == StepModel::Save(pending@),
        Claim::Done(reply)@ == ClaimModel::Done(reply@),
        Claim::Lookup(lookup)@ == ClaimModel::Lookup(lookup@),
        pending matches Pending::Account { session, normalized, welcome } ==> pending@ == (
        PendingModel::Account {
            session: session@,
            normalized: normalized@,
            welcome: welcome@,
        }),
        pending matches Pending::Session { normalized, forgive, welcome } ==> pending@ == (
        PendingModel::Session {
            normalized: normalized@,
            forgive: match forgive {
                Some(ip) => Some(ip@),
                None => None,
            },
            welcome: welcome@,
        }),
        pending matches Pending::Logout { normalized, now } ==> pending@ == (PendingModel::Logout {
            normalized: normalized@,
            now,
        }),
        pending matches Pending::Change { done } ==> pending@ == (PendingModel::Change {
            done: done@,
        }),
        pending matches Pending::Deletion { normalized, now } ==> pending@ == (
        PendingModel::Deletion { normalized: normalized@, now }),
        pending matches Pending::Cleanup { normalized, now } ==> pending@ == (
        PendingModel::Cleanup { normalized: normalized@, now }),
        found matches Err(e) ==> lookup_outcome(found) == Err::<
            (bool, Option<Seq<char>>),
            Seq<char>,
        >(e@),
        found matches Ok((premium, id)) ==> lookup_outcome(found) == Ok::<
            (bool, Option<Seq<char>>),
            Seq<char>,
        >(
            (
                premium,
                match id {
                    Some(id) => Some(id@),
                    None => None,
                },
            ),
        ),
        a is None <==> arg(a) is None,
        a matches Some(text) ==> arg(a) == Some(text@),
        caller is None <==> caller_model(caller) is None,
        caller matches Some(who) ==> caller_model(caller) == Some(who@),
{
}

} // verus!
