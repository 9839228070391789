//! What holds of the library as a whole, across commands, joins and leaves.
//!
//! A [`Request`] is a command together with what the outside contributes to it: the hash of a
//! password, the outcome of a lookup. [`performed`] runs it to its end, given which of its writes
//! to disk succeed.

use crate::commands::{
    change_password, claim_with, force_login, found_account, full_change_refusal, login,
    login_with, logout, new_account, new_session, register, register_refusal, resumed, set_premium,
    unregister, PendingModel, ReplyModel, StepModel,
};
use crate::handlers::{
    after_failure, after_join, after_kick, bumped, cancels, command_allowed, command_decision,
    failure_count, freeze_decision, join_messages, occupied, sweep_kicks, timed_out, CallerModel,
};
use crate::hash::{
    accepting_hash_is_not_empty, empty_hash_accepts_nothing, password_matches, HashError,
};
use crate::premium::{
    bare_id, fresh_lookup, fresh_lookup_fetches_three_times, ids_match, lookup_end, settled_by,
    verdict_comes_from_a_reply,
};
use crate::session::{expiry_fits, session_valid};
use crate::state::AppModel;
use crate::storage::{keyed_by_name, AccountModel, SessionModel, StoreModel};
use crate::text::{
    hyphens_and_case_commute, hyphens_are_dropped_once, lowercase, lowercase_is_idempotent,
    without_hyphens,
};
use crate::validation::{accepted_names_are_ascii, name_error, password_error};
use vstd::prelude::*;
use vstd::utf8::is_ascii_chars;

verus! {

/// A command with all that goes into it.
pub enum Request {
    Register {
        who: CallerModel,
        password: Option<Seq<char>>,
        confirm: Option<Seq<char>>,
        hash: Result<Seq<char>, HashError>,
        now: u64,
    },
    Login { who: CallerModel, password: Option<Seq<char>>, now: u64 },
    Logout { who: CallerModel, now: u64 },
    ChangePassword {
        who: CallerModel,
        old_password: Option<Seq<char>>,
        new_password: Option<Seq<char>>,
        hash: Result<Seq<char>, HashError>,
    },
    Unregister { who: CallerModel, password: Option<Seq<char>>, now: u64 },
    Premium {
        who: CallerModel,
        outcome: Result<(bool, Option<Seq<char>>), Seq<char>>,
        now: u64,
    },
    SetPremium { enable: bool, name: Option<Seq<char>> },
    ForceLogin { name: Option<Seq<char>> },
}

/// The first step of a command.
pub open spec fn started(m: AppModel, req: Request) -> (AppModel, StepModel) {
    match req {
        Request::Register { who, password, confirm, hash, now } => register(
            m,
            who,
            password,
            confirm,
            hash,
            now,
        ),
        Request::Login { who, password, now } => login(m, who, password, now),
        Request::Logout { who, now } => logout(m, who, now),
        Request::ChangePassword { who, old_password, new_password, hash } => change_password(
            m,
            who,
            old_password,
            new_password,
            hash,
        ),
        Request::Unregister { who, password, now } => unregister(m, who, password, now),
        Request::Premium { who, outcome, now } => claim_with(m, who, outcome, now),
        Request::SetPremium { enable, name } => set_premium(m, enable, name),
        Request::ForceLogin { name } => force_login(m, name),
    }
}

/// The end of a command from one of its steps on, given which writes succeed; `None` if more writes
/// are needed than are given.
pub open spec fn finished(m: AppModel, step: StepModel, writes: Seq<bool>) -> Option<
    (AppModel, ReplyModel),
>
    decreases writes.len(),
{
    match step {
        StepModel::Done(reply) => Some((m, reply)),
        StepModel::Save(pending) => if writes.len() == 0 {
            None
        } else {
            let (m1, step1) = resumed(m, pending, writes[0]);
            finished(m1, step1, writes.drop_first())
        },
    }
}

/// The end of a command, given which writes succeed.
pub open spec fn performed(m: AppModel, req: Request, writes: Seq<bool>) -> Option<
    (AppModel, ReplyModel),
> {
    let (m1, step) = started(m, req);
    finished(m1, step, writes)
}

/// The lowercase name of the player whom a command lets in if it succeeds.
pub open spec fn lets_in(req: Request) -> Option<Seq<char>> {
    match req {
        Request::Register { who, .. } => Some(lowercase(who.name)),
        Request::Login { who, .. } => Some(lowercase(who.name)),
        Request::Premium { who, .. } => Some(lowercase(who.name)),
        Request::ForceLogin { name } => match name {
            Some(name) => Some(lowercase(name)),
            None => None,
        },
        _ => None,
    }
}

/// The lowercase name of the player whom a command logs out if it succeeds.
pub open spec fn logs_out(req: Request) -> Option<Seq<char>> {
    match req {
        Request::Logout { who, .. } => Some(lowercase(who.name)),
        Request::Unregister { who, .. } => Some(lowercase(who.name)),
        _ => None,
    }
}

/// The time at which a command logs a player out.
pub open spec fn logs_out_at(req: Request) -> u64 {
    match req {
        Request::Logout { now, .. } => now,
        Request::Unregister { now, .. } => now,
        _ => 0,
    }
}

/// A command ends after at most two writes.
pub proof fn two_writes_suffice(m: AppModel, req: Request, writes: Seq<bool>)
    requires
        writes.len() >= 2,
    ensures
        performed(m, req, writes) is Some,
{
    reveal_with_fuel(finished, 3);
}

/// What a command does to the set of authenticated players. Only a successful registration, login,
/// premium claim or forced login lets a player in, and only that player; only a successful logout
/// or deletion logs one out, and only that one. A refused command lets nobody in or out.
pub proof fn only_success_changes_who_is_in(m: AppModel, req: Request, writes: Seq<bool>)
    ensures
        performed(m, req, writes) matches Some((after, reply)) ==> {
            &&& !reply.success ==> after.authed == m.authed
            &&& reply.success && lets_in(req) is Some ==> after.authed == m.authed.insert(
                lets_in(req)->0,
            )
            &&& reply.success && logs_out(req) is Some ==> after.authed == m.authed.remove(
                logs_out(req)->0,
            )
            &&& lets_in(req) is None && logs_out(req) is None ==> after.authed == m.authed
        },
{
    reveal_with_fuel(finished, 4);
}

/// Only a successful logout or deletion touches the join times: it freezes the player from then on.
/// No command touches the configuration.
pub proof fn only_logouts_change_join_times(m: AppModel, req: Request, writes: Seq<bool>)
    ensures
        performed(m, req, writes) matches Some((after, reply)) ==> {
            &&& after.joined_at == (if reply.success && logs_out(req) is Some {
                m.joined_at.insert(logs_out(req)->0, logs_out_at(req))
            } else {
                m.joined_at
            })
            &&& after.cfg == m.cfg
        },
{
    reveal_with_fuel(finished, 4);
}

/// A write that fails is answered with an error and lets nobody in. The one exception is the
/// session of an account that is already deleted.
pub proof fn failed_writes_fail_closed(m: AppModel, pending: PendingModel)
    requires
        !(pending is Cleanup),
    ensures
        resumed(m, pending, false).0 == m,
        resumed(m, pending, false).1 matches StepModel::Done(reply) && !reply.success,
{
}

/// While the store is broken every command is refused, nobody is let in or out, and joining players
/// are frozen and asked to log in.
pub proof fn broken_store_lets_nobody_in(
    m: AppModel,
    req: Request,
    writes: Seq<bool>,
    who: CallerModel,
    now: u64,
)
    requires
        m.store.poisoned,
    ensures
        performed(m, req, writes) matches Some((after, reply)) && !reply.success && after.authed
            == m.authed && after.store == m.store,
        !after_join(m, who, now).authed.contains(lowercase(who.name)),
        join_messages(m, who, now) == seq![m.cfg.message("join.login"@)],
{
}

/// The failure counters change by logins only: a refused password counts one more failure for its
/// address, capped at the limit, a successful login forgets that address, and no other address is
/// affected. Joins, leaves and kicks keep them all.
pub proof fn only_logins_change_failures(
    m: AppModel,
    req: Request,
    writes: Seq<bool>,
    who: CallerModel,
    now: u64,
    name: Seq<char>,
)
    ensures
        performed(m, req, writes) matches Some((after, reply)) ==> {
            &&& !(req is Login) ==> after.failures == m.failures
            &&& req is Login && reply.success ==> after.failures == m.failures.remove(
                req->Login_who.ip,
            )
            &&& req is Login && !reply.success ==> after.failures == m.failures || after.failures
                == m.failures.insert(
                req->Login_who.ip,
                bumped(failure_count(m, req->Login_who.ip), m.cfg.max_login_tries),
            )
        },
        after_join(m, who, now).failures == m.failures,
        after_kick(m, name).failures == m.failures,
{
    reveal_with_fuel(finished, 4);
}

/// The state after a run of failed logins from one address.
pub open spec fn after_failures(m: AppModel, ip: Seq<char>, max_tries: u32, n: nat) -> AppModel
    decreases n,
{
    if n == 0 {
        m
    } else {
        after_failure(after_failures(m, ip, max_tries, (n - 1) as nat), ip, max_tries)
    }
}

/// The limit is reached with exactly the configured number of failures in a row, and stays reached.
pub proof fn limit_takes_that_many_failures(m: AppModel, ip: Seq<char>, max_tries: u32, n: nat)
    requires
        !m.failures.contains_key(ip),
        n > 0,
    ensures
        failure_count(after_failures(m, ip, max_tries, n), ip) == (if n <= max_tries {
            n
        } else {
            max_tries as nat
        }),
        failure_count(after_failures(m, ip, max_tries, n), ip) >= max_tries <==> n >= max_tries,
    decreases n,
{
    if n > 1 {
        limit_takes_that_many_failures(m, ip, max_tries, (n - 1) as nat);
    } else {
        reveal_with_fuel(after_failures, 2);
    }
}

/// A wrong password is answered as such, lets nobody in, and kicks exactly if the address has now
/// reached the limit.
pub proof fn wrong_password_is_counted(m: AppModel, who: CallerModel, now: u64)
    ensures
        ({
            let (after, step) = login_with(m, who, false, now);
            &&& after == after_failure(m, who.ip, m.cfg.max_login_tries)
            &&& after.authed == m.authed
            &&& step matches StepModel::Done(reply)
            &&& !reply.success
            &&& reply.text == m.cfg.message("login.wrong"@)
            &&& reply.kick is Some <==> failure_count(m, who.ip) + 1 >= m.cfg.max_login_tries
        }),
{
}

/// Reconnecting does not help: a player whose address has reached the limit is kicked again by the
/// next wrong password, whatever joins and leaves come in between.
pub proof fn reconnecting_keeps_the_limit(
    m: AppModel,
    who: CallerModel,
    left: Seq<char>,
    joined: u64,
    now: u64,
)
    requires
        failure_count(m, who.ip) >= m.cfg.max_login_tries,
    ensures
        login_with(after_join(after_kick(m, left), who, joined), who, false, now).1 matches
            StepModel::Done(reply) && reply.kick == Some(m.cfg.message("login.rate_limited"@)),
{
}

/// A joining player's name is taken, whatever the join led to, and a second join with that name in
/// any case is then denied; a player who left has freed the name.
pub proof fn joining_takes_the_name(m: AppModel, who: CallerModel, now: u64, other: Seq<char>)
    ensures
        occupied(after_join(m, who, now), lowercase(who.name)),
        !occupied(after_kick(m, lowercase(who.name)), lowercase(who.name)),
        other != lowercase(who.name) ==> occupied(after_join(m, who, now), other) == occupied(
            m,
            other,
        ) && occupied(after_kick(m, lowercase(who.name)), other) == occupied(m, other),
{
}

/// No command frees a name that is taken, and a player who logs out or deletes the account keeps the
/// name: the connection is still live.
pub proof fn commands_keep_names_taken(
    m: AppModel,
    req: Request,
    writes: Seq<bool>,
    name: Seq<char>,
)
    requires
        occupied(m, name),
    ensures
        performed(m, req, writes) matches Some((after, _)) ==> occupied(after, name),
{
    only_success_changes_who_is_in(m, req, writes);
    only_logouts_change_join_times(m, req, writes);
}

/// A player who logged out or deleted the account is frozen again: every event is cancelled, and the
/// first one later than the timeout, counted from then, kicks.
pub proof fn logouts_freeze_again(
    m: AppModel,
    req: Request,
    writes: Seq<bool>,
    command: Seq<char>,
    now: u64,
)
    requires
        logs_out(req) is Some,
        performed(m, req, writes) matches Some((_, reply)) && reply.success,
    ensures
        ({
            let n = logs_out(req)->0;
            let (after, _) = performed(m, req, writes)->0;
            let late = now > logs_out_at(req) + m.cfg.timeout_secs;
            &&& occupied(after, n)
            &&& cancels(freeze_decision(after, n, now), false)
            &&& freeze_decision(after, n, now) is Kick <==> late
            &&& command_decision(after, n, command, now) is Kick <==> late
        }),
{
    only_success_changes_who_is_in(m, req, writes);
    only_logouts_change_join_times(m, req, writes);
}

/// Every event of an unauthenticated player is cancelled, whether or not a kick works, and no event
/// of an authenticated player is.
pub proof fn freeze_is_complete(m: AppModel, name: Seq<char>, now: u64, kicked: bool)
    ensures
        cancels(freeze_decision(m, name, now), kicked) <==> !m.authed.contains(name),
{
}

/// An unauthenticated player's command line passes exactly if its first word is on the allowlist
/// and the player is not kicked for the timeout; an authenticated player's always passes. The
/// timeout kicks whatever the command is.
pub proof fn frozen_players_run_allowed_commands_only(
    m: AppModel,
    name: Seq<char>,
    command: Seq<char>,
    now: u64,
    kicked: bool,
)
    ensures
        cancels(command_decision(m, name, command, now), kicked) <==> !m.authed.contains(name) && (
        !command_allowed(command) || sweep_kicks(m, name, now) && kicked),
        command_decision(m, name, command, now) is Kick <==> !m.authed.contains(name)
            && sweep_kicks(m, name, now),
{
}

/// A player who was frozen on joining is kicked by the first event or command later than the
/// timeout, whatever the command is, and by none before; a clock that ran backwards kicks nobody.
pub proof fn timeout_counts_from_the_join(
    m: AppModel,
    who: CallerModel,
    joined: u64,
    command: Seq<char>,
    now: u64,
)
    requires
        !after_join(m, who, joined).authed.contains(lowercase(who.name)),
    ensures
        freeze_decision(after_join(m, who, joined), lowercase(who.name), now) is Kick <==> now
            > joined + m.cfg.timeout_secs,
        command_decision(after_join(m, who, joined), lowercase(who.name), command, now) is Kick
            <==> now > joined + m.cfg.timeout_secs,
        now <= joined ==> !timed_out(joined, now, m.cfg.timeout_secs),
{
}

/// Whether lowercasing a name twice gives what lowercasing it once gives. The store lowercases the
/// names that it is given, so that such a player's entries are found under the lowercase name too.
pub open spec fn stable(name: Seq<char>) -> bool {
    lowercase(lowercase(name)) == lowercase(name)
}

/// ASCII names are stable, and so are all names that registration and premium claims accept.
pub proof fn accepted_names_are_stable(name: Seq<char>)
    ensures
        is_ascii_chars(name) ==> stable(name),
        name_error(name) is None ==> stable(name),
{
    if name_error(name) is None {
        accepted_names_are_ascii(name);
    }
    if is_ascii_chars(name) {
        lowercase_is_idempotent(name);
    }
}

/// An accepted registration, once both writes succeed, creates the account, remembers the login and
/// lets the player in.
pub proof fn registration_lets_in(
    m: AppModel,
    who: CallerModel,
    password: Seq<char>,
    h: Seq<char>,
    now: u64,
)
    requires
        register_refusal(m, who, Some(password), Some(password)) is None,
    ensures
        ({
            let req = Request::Register {
                who,
                password: Some(password),
                confirm: Some(password),
                hash: Ok(h),
                now,
            };
            &&& performed(m, req, seq![true, true]) matches Some((after, reply))
            &&& reply.success
            &&& reply.text == m.cfg.message("register.ok"@)
            &&& after.authed.contains(lowercase(who.name))
            &&& after.store.find_account(who.name) == Ok::<Option<AccountModel>, Seq<char>>(
                Some(new_account(who, None, h, now)),
            )
            &&& after.store.find_session(who.name) == Ok::<Option<SessionModel>, Seq<char>>(
                Some(new_session(who, now, m.cfg)),
            )
        }),
{
    reveal_with_fuel(finished, 3);
    assert(seq![true, true].drop_first() =~= seq![true]);
}

/// A registered player can log in with the password, in any later state that still has the account,
/// and with no password that the stored hash does not accept.
pub proof fn registered_password_logs_in(
    m: AppModel,
    who: CallerModel,
    password: Seq<char>,
    h: Seq<char>,
    now: u64,
    later: AppModel,
    again: CallerModel,
    given: Seq<char>,
    then: u64,
)
    requires
        register_refusal(m, who, Some(password), Some(password)) is None,
        password_matches(h, password),
        ({
            let req = Request::Register {
                who,
                password: Some(password),
                confirm: Some(password),
                hash: Ok(h),
                now,
            };
            let (registered, _) = performed(m, req, seq![true, true])->0;
            later.store.find_account(who.name) == registered.store.find_account(who.name)
        }),
        lowercase(again.name) == lowercase(who.name),
    ensures
        ({
            let req = Request::Login { who: again, password: Some(given), now: then };
            &&& performed(later, req, seq![true]) matches Some((after, reply))
            &&& given == password ==> reply.success
            &&& reply.success <==> password_matches(h, given)
            &&& reply.success ==> after.authed.contains(lowercase(who.name))
            &&& !reply.success ==> after.authed == later.authed && reply.text == later.cfg.message(
                "login.wrong"@,
            )
        }),
{
    reveal_with_fuel(finished, 2);
    registration_lets_in(m, who, password, h, now);
    accepted_names_are_stable(who.name);
}

/// A player who logged in can leave and, until the session expires and from the same address, is
/// let in again on joining without a password; later or from elsewhere the player is asked for it.
/// This is for accounts that are not premium: those are let in by their id alone.
pub proof fn relog_resumes_the_session(
    m: AppModel,
    who: CallerModel,
    password: Seq<char>,
    now: u64,
    again: CallerModel,
    then: u64,
)
    requires
        stable(who.name),
        !m.store.poisoned,
        m.store.find_account(lowercase(who.name)) matches Ok(Some(account))
            && account.premium_id is None && password_matches(account.hash, password),
        lowercase(again.name) == lowercase(who.name),
        expiry_fits(now, m.cfg),
    ensures
        ({
            let req = Request::Login { who, password: Some(password), now };
            let n = lowercase(who.name);
            &&& performed(m, req, seq![true]) matches Some((after, reply))
            &&& reply.success
            &&& {
                let rejoined = after_join(after_kick(after, n), again, then);
                let sent = join_messages(after_kick(after, n), again, then);
                if then < now + m.cfg.session_minutes * 60 && again.ip == who.ip {
                    rejoined.authed.contains(n) && sent == seq![m.cfg.message("session.resume"@)]
                } else {
                    !rejoined.authed.contains(n) && sent == seq![m.cfg.message("join.login"@)]
                }
            }
        }),
{
    reveal_with_fuel(finished, 2);
}

/// After a logout the next join asks for a login again, whatever the address and the time. This is
/// for accounts that are not premium: those are let in by their id.
pub proof fn logout_forgets_the_session(
    m: AppModel,
    who: CallerModel,
    now: u64,
    again: CallerModel,
    then: u64,
)
    requires
        stable(who.name),
        !m.store.poisoned,
        m.authed.contains(lowercase(who.name)),
        m.store.find_account(lowercase(who.name)) matches Ok(Some(account))
            && account.premium_id is None,
        lowercase(again.name) == lowercase(who.name),
    ensures
        ({
            let n = lowercase(who.name);
            &&& performed(m, Request::Logout { who, now }, seq![true]) matches Some((after, reply))
            &&& reply.success
            &&& !after.authed.contains(n)
            &&& !after_join(after, again, then).authed.contains(n)
            &&& join_messages(after, again, then) == seq![m.cfg.message("join.login"@)]
        }),
{
    reveal_with_fuel(finished, 2);
}

/// A deleted account is gone with its session: the player is out, the next join offers a choice,
/// and a login is refused.
pub proof fn deletion_is_complete(
    m: AppModel,
    who: CallerModel,
    password: Seq<char>,
    now: u64,
    again: CallerModel,
    given: Seq<char>,
    then: u64,
)
    requires
        !m.store.poisoned,
        m.authed.contains(lowercase(who.name)),
        m.store.find_account(lowercase(who.name)) matches Ok(Some(account)) && password_matches(
            account.hash,
            password,
        ),
        lowercase(again.name) == lowercase(who.name),
    ensures
        ({
            let n = lowercase(who.name);
            let req = Request::Unregister { who, password: Some(password), now };
            &&& performed(m, req, seq![true, true]) matches Some((after, reply))
            &&& reply.success
            &&& !after.authed.contains(n)
            &&& after.store.find_account(n) == Ok::<Option<AccountModel>, Seq<char>>(None)
            &&& after.store.find_session(n) == Ok::<Option<SessionModel>, Seq<char>>(None)
            &&& join_messages(after, again, then) == seq![m.cfg.message("join.choice"@)]
            &&& login(after, again, Some(given), then) == (
                after,
                StepModel::Done(
                    ReplyModel { success: false, text: "You are not registered."@, kick: None },
                ),
            )
        }),
{
    reveal_with_fuel(finished, 3);
    assert(seq![true, true].drop_first() =~= seq![true]);
}

/// Registration and premium claims never change an account that exists, not even where they are
/// refused half-way.
pub proof fn existing_accounts_are_never_converted(
    m: AppModel,
    req: Request,
    writes: Seq<bool>,
    key: Seq<char>,
)
    requires
        req is Register || req is Premium && name_error(req->Premium_who.name) is None,
        m.store.accounts.contains_key(key),
    ensures
        performed(m, req, writes) matches Some((after, _)) ==> after.store.accounts.contains_key(
            key,
        ) && after.store.accounts[key] == m.store.accounts[key],
{
    reveal_with_fuel(finished, 4);
    match req {
        Request::Register { who, .. } => {
            accepted_names_are_stable(who.name);
        },
        Request::Premium { who, .. } => {
            accepted_names_are_stable(who.name);
        },
        _ => {},
    }
}

/// A premium claim succeeds only for a verified name whose id the client presented, and the account
/// then carries that id and no password.
pub proof fn premium_claims_need_the_id(
    m: AppModel,
    who: CallerModel,
    outcome: Result<(bool, Option<Seq<char>>), Seq<char>>,
    now: u64,
    writes: Seq<bool>,
)
    ensures
        performed(m, Request::Premium { who, outcome, now }, writes) matches Some((after, reply))
            ==> reply.success ==> {
            &&& outcome matches Ok((premium, Some(id)))
            &&& premium
            &&& ids_match(who.uuid, id)
            &&& after.store.find_account(who.name) == Ok::<Option<AccountModel>, Seq<char>>(
                Some(new_account(who, Some(id), Seq::empty(), now)),
            )
        },
{
    reveal_with_fuel(finished, 4);
}

/// A lookup that failed changes nothing and is not remembered.
pub proof fn failed_lookups_are_not_remembered(
    m: AppModel,
    who: CallerModel,
    e: Seq<char>,
    now: u64,
)
    ensures
        claim_with(m, who, Err(e), now).0 == m,
        claim_with(m, who, Err(e), now).1 == StepModel::Done(
            ReplyModel {
                success: false,
                text: m.cfg.message("premium.unavailable"@),
                kick: None,
            },
        ),
{
}

/// From a lookup to the account: a premium claim succeeds only if one of the replies was a 200 with
/// an id, and the client presented that very id.
pub proof fn claims_rest_on_a_reply(
    m: AppModel,
    who: CallerModel,
    replies: Seq<Result<(u16, Seq<char>), Seq<char>>>,
    now: u64,
    writes: Seq<bool>,
)
    requires
        lookup_end(fresh_lookup(who.name), replies) is Some,
    ensures
        ({
            let outcome = lookup_end(fresh_lookup(who.name), replies)->0;
            performed(m, Request::Premium { who, outcome, now }, writes) matches Some((_, reply))
                ==> reply.success ==> exists|i: int, id: Seq<char>|
                0 <= i < replies.len() && #[trigger] settled_by(replies[i]) == Some((true, Some(id)))
                    && #[trigger] ids_match(who.uuid, id)
        }),
{
    let outcome = lookup_end(fresh_lookup(who.name), replies)->0;
    premium_claims_need_the_id(m, who, outcome, now, writes);
    verdict_comes_from_a_reply(fresh_lookup(who.name), replies);
}

/// Without a network every claim is refused as unavailable, and nothing changes.
pub proof fn no_network_fails_closed(
    m: AppModel,
    who: CallerModel,
    replies: Seq<Result<(u16, Seq<char>), Seq<char>>>,
    now: u64,
)
    requires
        replies.len() >= 3,
        forall|i: int| 0 <= i < replies.len() ==> #[trigger] replies[i] is Err,
    ensures
        lookup_end(fresh_lookup(who.name), replies) matches Some(outcome) && claim_with(
            m,
            who,
            outcome,
            now,
        ) == (
            m,
            StepModel::Done(
                ReplyModel {
                    success: false,
                    text: m.cfg.message("premium.unavailable"@),
                    kick: None,
                },
            ),
        ),
{
    fresh_lookup_fetches_three_times(who.name, replies);
    verdict_comes_from_a_reply(fresh_lookup(who.name), replies);
}

/// A player of a premium account is let in on joining exactly if the client presents its id. Other
/// clients are told so, frozen and asked to log in, even if a session is remembered.
pub proof fn premium_names_need_the_id(
    m: AppModel,
    who: CallerModel,
    now: u64,
    id: Seq<char>,
)
    requires
        m.store.find_account(lowercase(who.name)) matches Ok(Some(account)) && account.premium_id
            == Some(id),
    ensures
        after_join(m, who, now).authed.contains(lowercase(who.name)) <==> ids_match(who.uuid, id),
        join_messages(m, who, now) == (if ids_match(who.uuid, id) {
            seq![m.cfg.message("premium.auto"@)]
        } else {
            seq![m.cfg.message("premium.uuid_mismatch"@), m.cfg.message("join.login"@)]
        }),
{
}

/// A player who claimed a premium name is let in by later joins with the same client.
pub proof fn claimed_name_is_recognised(
    m: AppModel,
    who: CallerModel,
    outcome: Result<(bool, Option<Seq<char>>), Seq<char>>,
    now: u64,
    writes: Seq<bool>,
    again: CallerModel,
    then: u64,
)
    requires
        stable(who.name),
        performed(m, Request::Premium { who, outcome, now }, writes) matches Some((_, reply))
            && reply.success,
        lowercase(again.name) == lowercase(who.name),
        again.uuid == who.uuid,
    ensures
        ({
            let n = lowercase(who.name);
            let (after, _) = performed(m, Request::Premium { who, outcome, now }, writes)->0;
            after_join(after_kick(after, n), again, then).authed.contains(n)
        }),
{
    premium_claims_need_the_id(m, who, outcome, now, writes);
}

/// Only a matching session or a matching premium id lets a player in on joining.
pub proof fn joins_fail_closed(m: AppModel, who: CallerModel, now: u64)
    ensures
        after_join(m, who, now).authed.contains(lowercase(who.name)) ==> {
            &&& m.store.find_account(lowercase(who.name)) matches Ok(Some(account))
            &&& match account.premium_id {
                Some(id) => ids_match(who.uuid, id),
                None => m.store.find_session(lowercase(who.name)) matches Ok(Some(sess))
                    && session_valid(sess, now, who.ip),
            }
        },
{
}

/// Joining changes neither the store nor the verdict cache: a premium name is never resolved at
/// join time.
pub proof fn joins_only_keep_book(m: AppModel, who: CallerModel, now: u64)
    ensures
        after_join(m, who, now).store == m.store,
        after_join(m, who, now).premium == m.premium,
        after_join(m, who, now).cfg == m.cfg,
{
}

/// Whether every account can be entered again: by a password or by a premium id.
pub open spec fn all_reachable(s: StoreModel) -> bool {
    forall|k: Seq<char>| #[trigger]
        s.accounts.contains_key(k) ==> s.accounts[k].hash.len() > 0
            || s.accounts[k].premium_id is Some
}

/// The hash and the password that a command brings along, if it brings them.
pub open spec fn brought_hash(req: Request) -> Option<(Seq<char>, Seq<char>)> {
    match req {
        Request::Register { password: Some(p), hash: Ok(h), .. } => Some((h, p)),
        Request::ChangePassword { new_password: Some(p), hash: Ok(h), .. } => Some((h, p)),
        _ => None,
    }
}

/// No command leaves an account without both password and premium id, as long as hashes accept the
/// passwords that they were made of.
pub proof fn commands_keep_accounts_reachable(m: AppModel, req: Request, writes: Seq<bool>)
    requires
        all_reachable(m.store),
        brought_hash(req) matches Some((h, p)) ==> password_matches(h, p),
    ensures
        performed(m, req, writes) matches Some((after, _)) ==> all_reachable(after.store),
{
    reveal_with_fuel(finished, 4);
    if let Some((h, p)) = brought_hash(req) {
        accepting_hash_is_not_empty(h, p);
    }
}

/// Every command keeps accounts and sessions under the lowercase of their names.
pub proof fn commands_keep_keys(m: AppModel, req: Request, writes: Seq<bool>)
    requires
        keyed_by_name(m.store),
    ensures
        performed(m, req, writes) matches Some((after, _)) ==> keyed_by_name(after.store),
{
    reveal_with_fuel(finished, 4);
}

/// The name that a command is about.
pub open spec fn subject(req: Request) -> Option<Seq<char>> {
    match req {
        Request::Register { who, .. } => Some(who.name),
        Request::Login { who, .. } => Some(who.name),
        Request::Logout { who, .. } => Some(who.name),
        Request::ChangePassword { who, .. } => Some(who.name),
        Request::Unregister { who, .. } => Some(who.name),
        Request::Premium { who, .. } => Some(who.name),
        Request::SetPremium { name, .. } => name,
        Request::ForceLogin { name } => name,
    }
}

/// A command leaves the accounts and sessions of all other players as they were.
pub proof fn commands_concern_one_player(
    m: AppModel,
    req: Request,
    writes: Seq<bool>,
    key: Seq<char>,
)
    requires
        keyed_by_name(m.store),
        subject(req) matches Some(name) ==> key != lowercase(name) && key != lowercase(
            lowercase(name),
        ),
    ensures
        performed(m, req, writes) matches Some((after, _)) ==> {
            &&& after.store.accounts.contains_key(key) == m.store.accounts.contains_key(key)
            &&& m.store.accounts.contains_key(key) ==> after.store.accounts[key]
                == m.store.accounts[key]
            &&& after.store.sessions.contains_key(key) == m.store.sessions.contains_key(key)
            &&& m.store.sessions.contains_key(key) ==> after.store.sessions[key]
                == m.store.sessions[key]
        },
{
    reveal_with_fuel(finished, 4);
}

/// After a successful change of password the account accepts the new password, and all else of the
/// account is as it was.
pub proof fn changed_password_is_accepted(
    m: AppModel,
    who: CallerModel,
    old_password: Seq<char>,
    new_password: Seq<char>,
    h: Seq<char>,
)
    requires
        keyed_by_name(m.store),
        full_change_refusal(m, who, Some(old_password), Some(new_password)) is None,
        password_matches(h, new_password),
    ensures
        ({
            let n = lowercase(who.name);
            let req = Request::ChangePassword {
                who,
                old_password: Some(old_password),
                new_password: Some(new_password),
                hash: Ok(h),
            };
            &&& performed(m, req, seq![true]) matches Some((after, reply))
            &&& reply.success
            &&& after.store.find_account(n) == Ok::<Option<AccountModel>, Seq<char>>(
                Some(AccountModel { hash: h, ..found_account(m, n) }),
            )
            &&& password_matches(found_account(after, n).hash, new_password)
        }),
{
    reveal_with_fuel(finished, 2);
}

/// A forced login lets a player of an account without password in, and that player can then set a
/// password without knowing one.
pub proof fn stuck_accounts_can_be_recovered(
    m: AppModel,
    who: CallerModel,
    old_password: Seq<char>,
    new_password: Seq<char>,
)
    requires
        m.store.find_account(lowercase(who.name)) matches Ok(Some(account)) && account.hash.len()
            == 0,
        password_error(new_password, lowercase(who.name), m.cfg) is None,
    ensures
        ({
            let req = Request::ForceLogin { name: Some(who.name) };
            &&& performed(m, req, Seq::empty()) matches Some((after, reply))
            &&& reply.success
            &&& full_change_refusal(after, who, Some(old_password), Some(new_password)) is None
        }),
{
}

/// An account without password cannot be logged in to with a password.
pub proof fn no_password_no_login(m: AppModel, who: CallerModel, password: Seq<char>, now: u64)
    requires
        m.store.find_account(lowercase(who.name)) matches Ok(Some(account)) && account.hash.len()
            == 0,
    ensures
        login(m, who, Some(password), now) == login_with(m, who, false, now),
{
    let account = found_account(m, lowercase(who.name));
    assert(account.hash =~= Seq::empty());
    empty_hash_accepts_nothing(password);
}

/// Hyphens never matter to the comparison of ids. The case of an ASCII id does not matter either, and
/// such an id may be brought into its bare form first. Nothing is said of the case of other ids: what
/// lowercasing makes of them is only named.
pub proof fn hyphens_and_case_do_not_matter(a: Seq<char>, b: Seq<char>)
    ensures
        ids_match(without_hyphens(a), b) == ids_match(a, b),
        ids_match(b, without_hyphens(a)) == ids_match(b, a),
        is_ascii_chars(a) ==> {
            &&& ids_match(lowercase(a), b) == ids_match(a, b)
            &&& ids_match(bare_id(a), b) == ids_match(a, b)
            &&& ids_match(b, bare_id(a)) == ids_match(b, a)
        },
{
    hyphens_are_dropped_once(a);
    if is_ascii_chars(a) {
        hyphens_and_case_commute(a);
        hyphens_and_case_commute(without_hyphens(a));
        lowercase_is_idempotent(a);
        lowercase_is_idempotent(without_hyphens(a));
    }
}

} // verus!
