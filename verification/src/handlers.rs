//! Join and leave handling, the freeze of unauthenticated players, and the login timeout.
//!
//! Fail-closed rules enforced here:
//! - store errors on join count as "unauthenticated": the player is asked to log in and frozen,
//! - a session is resumed only if it is unexpired and of the same address,
//! - players that exceed the login timeout are kicked,
//! - frozen players can only run the commands of the allowlist,
//! - a premium name is never resolved at join time.
//!
//! Handlers take the player's data as plain values and say what is to be done: which messages to
//! send, whether to cancel the event, whether to kick. Whether a kick worked is reported back.

use crate::premium::{ids_match, uuid_matches_mojang_id};
use crate::session::{is_session_valid, session_valid};
use crate::state::{AppModel, AppState};
use crate::storage::SessionModel;
use crate::text::{
    command_word, first_word, first_word_is_between_slashes_and_space, lowercase, same_text,
    slashes, to_lower, white_space,
};
use crate::validation::normalize_name;
use vstd::prelude::*;

verus! {

/// What is known of a player.
pub struct Caller {
    pub name: String,
    pub uuid: String,
    pub ip: String,
}

/// The content of a player's data.
#[verifier::ext_equal]
pub struct CallerModel {
    pub name: Seq<char>,
    pub uuid: Seq<char>,
    pub ip: Seq<char>,
}

impl View for Caller {
    type V = CallerModel;

    open spec fn view(&self) -> CallerModel {
        CallerModel { name: self.name@, uuid: self.uuid@, ip: self.ip@ }
    }
}

/// The content of a list of messages.
pub open spec fn texts(v: Seq<String>) -> Seq<Seq<char>> {
    v.map_values(|s: String| s@)
}

/// Config-driven message lookup.
pub fn message(state: &AppState, key: &str) -> (r: String)
    ensures
        r@ == state@.cfg.message(key@),
{
    state.cfg.message(key)
}

/// True if the player with this (already normalized) name is authenticated.
pub fn is_authed(state: &AppState, normalized: &str) -> (r: bool)
    ensures
        r == state@.authed.contains(normalized@),
{
    state.authed.contains(normalized)
}

/// Which join prompt the player should get.
pub enum AccountStatus {
    /// No stored account: prompt the premium-or-cracked choice.
    Missing,
    /// Stored account: prompt /login.
    Exists,
    /// Store error: fail closed as unauthenticated, but prompt /login, as an existing account would
    /// be pointed at the wrong command otherwise.
    Unknown,
}

/// The message key of the join prompt.
pub open spec fn prompt_key(status: AccountStatus) -> Seq<char> {
    match status {
        AccountStatus::Missing => "join.choice"@,
        AccountStatus::Exists => "join.login"@,
        AccountStatus::Unknown => "join.login"@,
    }
}

/// Message key for the join prompt, per account status.
pub fn join_prompt_key(status: AccountStatus) -> (r: &'static str)
    ensures
        r@ == prompt_key(status),
{
    match status {
        AccountStatus::Missing => "join.choice",
        AccountStatus::Exists | AccountStatus::Unknown => "join.login",
    }
}

/// Failed logins recorded for an address.
pub open spec fn failure_count(m: AppModel, ip: Seq<char>) -> nat {
    if m.failures.contains_key(ip) {
        m.failures[ip] as nat
    } else {
        0
    }
}

/// The number of failures after one more, capped at the limit.
pub open spec fn bumped(count: nat, max_tries: u32) -> u32 {
    if count + 1 <= max_tries {
        (count + 1) as u32
    } else {
        max_tries
    }
}

/// The state after a failed login from an address.
pub open spec fn after_failure(m: AppModel, ip: Seq<char>, max_tries: u32) -> AppModel {
    AppModel { failures: m.failures.insert(ip, bumped(failure_count(m, ip), max_tries)), ..m }
}

/// Records a failed login for `ip` and reports whether the limit is now reached. Caps the stored
/// counter so it cannot wrap.
pub fn record_failure(state: &mut AppState, ip: &str, max_tries: u32) -> (r: bool)
    ensures
        final(state)@ == after_failure(old(state)@, ip@, max_tries),
        r == (failure_count(final(state)@, ip@) >= max_tries),
{
    let before: u32 = match state.failures.get(ip) {
        Some(n) => *n,
        None => 0,
    };
    let bumped: u32 = before.saturating_add(1);
    let count: u32 = if bumped < max_tries {
        bumped
    } else {
        max_tries
    };
    state.failures.insert(ip.to_owned(), count);
    is_rate_limited(count, max_tries)
}

/// True when `attempts` reached the configured kick threshold.
pub fn is_rate_limited(attempts: u32, max_tries: u32) -> (r: bool)
    ensures
        r == (attempts >= max_tries),
{
    attempts >= max_tries
}

/// The state after a player was kicked.
pub open spec fn after_kick(m: AppModel, normalized: Seq<char>) -> AppModel {
    AppModel {
        joined_at: m.joined_at.remove(normalized),
        authed: m.authed.remove(normalized),
        ..m
    }
}

/// Cleans up the join bookkeeping of a player who was to be kicked for too many failed logins, if
/// the kick worked. Returns whether it did.
pub fn kick_rate_limited(state: &mut AppState, normalized: &str, kicked: bool) -> (r: bool)
    ensures
        final(state)@ == (if kicked {
            after_kick(old(state)@, normalized@)
        } else {
            old(state)@
        }),
        r == kicked,
{
    if kicked {
        state.joined_at.remove(normalized);
        state.authed.remove(normalized);
    }
    kicked
}

/// The state after a player was let in.
pub open spec fn admitted(m: AppModel, normalized: Seq<char>) -> AppModel {
    AppModel {
        authed: m.authed.insert(normalized),
        joined_at: m.joined_at.remove(normalized),
        ..m
    }
}

/// Marks the player as authenticated and clears their login-timeout bookkeeping.
pub fn mark_authed(state: &mut AppState, normalized: &str)
    ensures
        final(state)@ == admitted(old(state)@, normalized@),
{
    state.authed.insert(normalized.to_owned());
    state.joined_at.remove(normalized);
}

/// Marks the player as unauthenticated.
pub fn mark_unauthed(state: &mut AppState, normalized: &str)
    ensures
        final(state)@ == (AppModel {
            authed: old(state)@.authed.remove(normalized@),
            ..old(state)@
        }),
{
    state.authed.remove(normalized);
}

/// Whether a player who joined at `joined_at` has exceeded the timeout.
pub open spec fn timed_out(joined_at: u64, now: u64, timeout_secs: u64) -> bool {
    now > joined_at + timeout_secs
}

/// True if the player joined more than `timeout_secs` ago.
pub fn is_timed_out(joined_at: u64, now: u64, timeout_secs: u64) -> (r: bool)
    ensures
        r == timed_out(joined_at, now, timeout_secs),
{
    now.saturating_sub(joined_at) > timeout_secs
}

/// Cleans up the join bookkeeping of a player who was to be kicked for the timeout, if the kick
/// worked. Returns whether it did.
pub fn kick_timeout(state: &mut AppState, normalized: &str, kicked: bool) -> (r: bool)
    ensures
        final(state)@ == (if kicked {
            after_kick(old(state)@, normalized@)
        } else {
            old(state)@
        }),
        r == kicked,
{
    if kicked {
        state.joined_at.remove(normalized);
        state.authed.remove(normalized);
    }
    kicked
}

/// Whether the timeout sweep is to kick a player.
pub open spec fn sweep_kicks(m: AppModel, normalized: Seq<char>, now: u64) -> bool {
    m.joined_at.contains_key(normalized) && timed_out(
        m.joined_at[normalized],
        now,
        m.cfg.timeout_secs,
    )
}

/// Runs the timeout sweep for a player: the kick message if they exceeded the login timeout.
pub fn timeout_sweep(state: &AppState, normalized: &str, now: u64) -> (r: Option<String>)
    ensures
        match r {
            Some(text) => sweep_kicks(state@, normalized@, now) && text@ == state@.cfg.message(
                "timeout.kick"@,
            ),
            None => !sweep_kicks(state@, normalized@, now),
        },
{
    match state.joined_at.get(normalized) {
        Some(joined_at) => {
            if is_timed_out(*joined_at, now, state.cfg.timeout_secs) {
                Some(message(state, "timeout.kick"))
            } else {
                None
            }
        },
        None => None,
    }
}

/// The commands that an unauthenticated player may still run.
pub open spec fn allowed_word(word: Seq<char>) -> bool {
    ||| word == "login"@
    ||| word == "register"@
    ||| word == "logout"@
    ||| word == "l"@
    ||| word == "log"@
    ||| word == "changepassword"@
    ||| word == "unregister"@
    ||| word == "setpremium"@
    ||| word == "premium"@
}

/// Whether a command line is allowed for frozen players: its first word, in any case and with or
/// without leading slashes, is on the allowlist.
pub open spec fn command_allowed(command: Seq<char>) -> bool {
    allowed_word(lowercase(command_word(command)))
}

/// True if the command line is allowed for frozen (unauthenticated) players.
pub fn is_command_allowed(command: &str) -> (r: bool)
    ensures
        r == command_allowed(command@),
{
    let first = first_word(command);
    let lowered = to_lower(first.as_str());
    let w: &str = lowered.as_str();
    same_text(w, "login") || same_text(w, "register") || same_text(w, "logout") || same_text(w, "l")
        || same_text(w, "log") || same_text(w, "changepassword") || same_text(w, "unregister")
        || same_text(w, "setpremium") || same_text(w, "premium")
}

/// Whether a name has a live connection, authenticated or still frozen.
pub open spec fn occupied(m: AppModel, normalized: Seq<char>) -> bool {
    m.authed.contains(normalized) || m.joined_at.contains_key(normalized)
}

/// Single-session rule.
pub struct PreLoginHandler;

impl PreLoginHandler {
    /// Denies a second simultaneous join with the same name while the first is live, whether the
    /// first player is authenticated or still frozen. Returns the message of the denial.
    pub fn handle(state: &AppState, player_name: &str) -> (r: Option<String>)
        ensures
            match r {
                Some(text) => occupied(state@, lowercase(player_name@)) && text@
                    == state@.cfg.message("login.duplicate"@),
                None => !occupied(state@, lowercase(player_name@)),
            },
    {
        let normalized = normalize_name(player_name);
        if state.authed.contains(normalized.as_str()) || state.joined_at.contains_key(
            normalized.as_str(),
        ) {
            Some(message(state, "login.duplicate"))
        } else {
            None
        }
    }
}

/// What a join leads to.
pub enum JoinPath {
    /// The client presented the id of a premium account.
    PremiumMatch,
    /// The client presented another id than that of the premium account.
    PremiumMismatch,
    /// A remembered login is resumed.
    Resume,
    /// The player has to authenticate.
    Prompt(AccountStatus),
}

/// Whether a lookup brought a session that lets its player back in.
pub open spec fn resumable(
    found: Result<Option<SessionModel>, Seq<char>>,
    now: u64,
    ip: Seq<char>,
) -> bool {
    found matches Ok(Some(sess)) && session_valid(sess, now, ip)
}

/// Where a join leads, given the stored account. Only a matching id lets a premium account in; the
/// session is not consulted for a client with another id.
pub open spec fn join_path(m: AppModel, who: CallerModel, now: u64) -> JoinPath {
    let n = lowercase(who.name);
    match m.store.find_account(n) {
        Err(_) => JoinPath::Prompt(AccountStatus::Unknown),
        Ok(None) => JoinPath::Prompt(AccountStatus::Missing),
        Ok(Some(account)) => match account.premium_id {
            Some(id) => if ids_match(who.uuid, id) {
                JoinPath::PremiumMatch
            } else {
                JoinPath::PremiumMismatch
            },
            None => if resumable(m.store.find_session(n), now, who.ip) {
                JoinPath::Resume
            } else {
                JoinPath::Prompt(AccountStatus::Exists)
            },
        },
    }
}

/// The state with a player frozen from `now` on.
pub open spec fn frozen(m: AppModel, normalized: Seq<char>, now: u64) -> AppModel {
    AppModel {
        joined_at: m.joined_at.insert(normalized, now),
        authed: m.authed.remove(normalized),
        ..m
    }
}

/// The state after a join.
pub open spec fn after_join(m: AppModel, who: CallerModel, now: u64) -> AppModel {
    let n = lowercase(who.name);
    match join_path(m, who, now) {
        JoinPath::PremiumMatch | JoinPath::Resume => admitted(m, n),
        JoinPath::PremiumMismatch | JoinPath::Prompt(_) => frozen(m, n, now),
    }
}

/// The messages that a joining player is sent.
pub open spec fn join_messages(m: AppModel, who: CallerModel, now: u64) -> Seq<Seq<char>> {
    match join_path(m, who, now) {
        JoinPath::PremiumMatch => seq![m.cfg.message("premium.auto"@)],
        JoinPath::Resume => seq![m.cfg.message("session.resume"@)],
        JoinPath::PremiumMismatch => seq![
            m.cfg.message("premium.uuid_mismatch"@),
            m.cfg.message("join.login"@),
        ],
        JoinPath::Prompt(status) => seq![m.cfg.message(prompt_key(status))],
    }
}

/// Join handling.
pub struct JoinHandler;

impl JoinHandler {
    /// Lets a joining player in, or freezes and prompts them. Returns the messages to send.
    pub fn handle(state: &mut AppState, who: &Caller, now: u64) -> (r: Vec<String>)
        ensures
            final(state)@ == after_join(old(state)@, who@, now),
            texts(r@) == join_messages(old(state)@, who@, now),
    {
        let normalized = normalize_name(who.name.as_str());
        let mut out: Vec<String> = Vec::new();
        let status = match state.store.get_account(normalized.as_str()) {
            Ok(Some(account)) => {
                match &account.premium_id {
                    Some(mojang_id) => {
                        if uuid_matches_mojang_id(who.uuid.as_str(), mojang_id.as_str()) {
                            mark_authed(state, normalized.as_str());
                            out.push(message(state, "premium.auto"));
                            assert(texts(out@) =~= join_messages(old(state)@, who@, now));
                            return out;
                        }
                        out.push(message(state, "premium.uuid_mismatch"));
                    },
                    None => {
                        let resumed = match state.store.get_session(normalized.as_str()) {
                            Ok(Some(session)) => is_session_valid(&session, now, who.ip.as_str()),
                            Ok(None) => false,
                            Err(_) => false,
                        };
                        if resumed {
                            mark_authed(state, normalized.as_str());
                            out.push(message(state, "session.resume"));
                            assert(texts(out@) =~= join_messages(old(state)@, who@, now));
                            return out;
                        }
                    },
                }
                AccountStatus::Exists
            },
            Ok(None) => AccountStatus::Missing,
            Err(_) => AccountStatus::Unknown,
        };
        let prompt = message(state, join_prompt_key(status));
        state.authed.remove(normalized.as_str());
        state.joined_at.insert(normalized, now);
        out.push(prompt);
        assert(texts(out@) =~= join_messages(old(state)@, who@, now));
        out
    }
}

/// Leave handling.
pub struct LeaveHandler;

impl LeaveHandler {
    /// Forgets that a player is connected. Failed logins stay on record, so that reconnecting does
    /// not reset the rate limit, and the session is kept, so that a relog resumes.
    pub fn handle(state: &mut AppState, player_name: &str)
        ensures
            final(state)@ == after_kick(old(state)@, lowercase(player_name@)),
    {
        let normalized = normalize_name(player_name);
        state.joined_at.remove(normalized.as_str());
        mark_unauthed(state, normalized.as_str());
    }
}

/// What is to be done with an event of a player.
pub enum Freeze {
    /// The event takes place.
    Pass,
    /// The event is cancelled.
    Cancel,
    /// The player is to be kicked with this message. The event is cancelled if the kick works, and
    /// otherwise too if `always` holds.
    Kick { text: String, always: bool },
}

/// The content of a freeze decision.
pub enum FreezeModel {
    Pass,
    Cancel,
    Kick { text: Seq<char>, always: bool },
}

impl View for Freeze {
    type V = FreezeModel;

    open spec fn view(&self) -> FreezeModel {
        match *self {
            Freeze::Pass => FreezeModel::Pass,
            Freeze::Cancel => FreezeModel::Cancel,
            Freeze::Kick { text, always } => FreezeModel::Kick { text: text@, always },
        }
    }
}

/// The freeze decision for an event of a player.
pub open spec fn freeze_decision(m: AppModel, normalized: Seq<char>, now: u64) -> FreezeModel {
    if m.authed.contains(normalized) {
        FreezeModel::Pass
    } else if sweep_kicks(m, normalized, now) {
        FreezeModel::Kick { text: m.cfg.message("timeout.kick"@), always: true }
    } else {
        FreezeModel::Cancel
    }
}

/// Shared freeze logic: an unauthenticated player's event is cancelled, and a timed-out player is
/// to be kicked besides.
pub fn freeze_check(state: &AppState, normalized: &str, now: u64) -> (r: Freeze)
    ensures
        r@ == freeze_decision(state@, normalized@, now),
{
    if is_authed(state, normalized) {
        return Freeze::Pass;
    }
    match timeout_sweep(state, normalized, now) {
        Some(text) => Freeze::Kick { text, always: true },
        None => Freeze::Cancel,
    }
}

/// Whether an event is cancelled by a decision, given whether the kick worked.
pub open spec fn cancels(f: FreezeModel, kicked: bool) -> bool {
    match f {
        FreezeModel::Pass => false,
        FreezeModel::Cancel => true,
        FreezeModel::Kick { always, .. } => always || kicked,
    }
}

/// Concludes a freeze decision: cleans up after a kick that worked and tells whether the event is
/// cancelled.
pub fn conclude_freeze(
    state: &mut AppState,
    player_name: &str,
    decision: &Freeze,
    kicked: bool,
) -> (r: bool)
    ensures
        r == cancels(decision@, kicked),
        final(state)@ == (if decision is Kick && kicked {
            after_kick(old(state)@, lowercase(player_name@))
        } else {
            old(state)@
        }),
{
    match decision {
        Freeze::Pass => false,
        Freeze::Cancel => true,
        Freeze::Kick { text: _, always } => {
            let normalized = normalize_name(player_name);
            kick_timeout(state, normalized.as_str(), kicked) || *always
        },
    }
}

/// Movement of an unauthenticated player.
pub struct FreezeMoveHandler;

impl FreezeMoveHandler {
    /// Decides on a movement.
    pub fn handle(state: &AppState, player_name: &str, now: u64) -> (r: Freeze)
        ensures
            r@ == freeze_decision(state@, lowercase(player_name@), now),
    {
        freeze_check(state, normalize_name(player_name).as_str(), now)
    }
}

/// Chat of an unauthenticated player.
pub struct FreezeChatHandler;

impl FreezeChatHandler {
    /// Decides on a chat message.
    pub fn handle(state: &AppState, player_name: &str, now: u64) -> (r: Freeze)
        ensures
            r@ == freeze_decision(state@, lowercase(player_name@), now),
    {
        freeze_check(state, normalize_name(player_name).as_str(), now)
    }
}

/// Commands of an unauthenticated player.
pub struct FreezeCommandHandler;

/// The freeze decision for a command line of a player. The timeout reaches every command line; one
/// that is not allowed is cancelled even if the kick does not work.
pub open spec fn command_decision(
    m: AppModel,
    normalized: Seq<char>,
    command: Seq<char>,
    now: u64,
) -> FreezeModel {
    if m.authed.contains(normalized) {
        FreezeModel::Pass
    } else if sweep_kicks(m, normalized, now) {
        FreezeModel::Kick {
            text: m.cfg.message("timeout.kick"@),
            always: !command_allowed(command),
        }
    } else if !command_allowed(command) {
        FreezeModel::Cancel
    } else {
        FreezeModel::Pass
    }
}

impl FreezeCommandHandler {
    /// Decides on a command line.
    pub fn handle(state: &AppState, player_name: &str, command: &str, now: u64) -> (r: Freeze)
        ensures
            r@ == command_decision(state@, lowercase(player_name@), command@, now),
    {
        let normalized = normalize_name(player_name);
        if is_authed(state, normalized.as_str()) {
            return Freeze::Pass;
        }
        let allowed = is_command_allowed(command);
        match timeout_sweep(state, normalized.as_str(), now) {
            Some(text) => Freeze::Kick { text, always: !allowed },
            None => {
                if allowed {
                    Freeze::Pass
                } else {
                    Freeze::Cancel
                }
            },
        }
    }
}

/// Block breaking by an unauthenticated player.
pub struct FreezeBlockBreakHandler;

impl FreezeBlockBreakHandler {
    /// Decides on a broken block. A break that no player caused is left alone.
    pub fn handle(state: &AppState, player_name: Option<&str>, now: u64) -> (r: Freeze)
        ensures
            r@ == (match player_name {
                Some(name) => freeze_decision(state@, lowercase(name@), now),
                None => FreezeModel::Pass,
            }),
    {
        match player_name {
            Some(name) => freeze_check(state, normalize_name(name).as_str(), now),
            None => Freeze::Pass,
        }
    }
}

/// Block placing by an unauthenticated player.
pub struct FreezeBlockPlaceHandler;

impl FreezeBlockPlaceHandler {
    /// Decides on a placed block.
    pub fn handle(state: &AppState, player_name: &str, now: u64) -> (r: Freeze)
        ensures
            r@ == freeze_decision(state@, lowercase(player_name@), now),
    {
        freeze_check(state, normalize_name(player_name).as_str(), now)
    }
}

/// Interaction of an unauthenticated player.
pub struct FreezeInteractHandler;

impl FreezeInteractHandler {
    /// Decides on an interaction.
    pub fn handle(state: &AppState, player_name: &str, now: u64) -> (r: Freeze)
        ensures
            r@ == freeze_decision(state@, lowercase(player_name@), now),
    {
        freeze_check(state, normalize_name(player_name).as_str(), now)
    }
}

/// Item drops of an unauthenticated player.
pub struct FreezeDropItemHandler;

impl FreezeDropItemHandler {
    /// Decides on a dropped item.
    pub fn handle(state: &AppState, player_name: &str, now: u64) -> (r: Freeze)
        ensures
            r@ == freeze_decision(state@, lowercase(player_name@), now),
    {
        freeze_check(state, normalize_name(player_name).as_str(), now)
    }
}

/// Attacks of an unauthenticated player. The event names the damager by entity id only, so that it
/// is looked up among the players online.
pub struct FreezeAttackHandler;

/// A player online.
pub struct OnlinePlayer {
    pub entity_id: i32,
    pub name: String,
}

/// The first player online with an entity id.
pub open spec fn damager(players: Seq<OnlinePlayer>, id: i32) -> Option<int>
    decreases players.len(),
{
    if players.len() == 0 {
        None
    } else if players[0].entity_id == id {
        Some(0)
    } else {
        match damager(players.drop_first(), id) {
            Some(i) => Some(i + 1),
            None => None,
        }
    }
}

impl FreezeAttackHandler {
    /// Decides on damage dealt by the entity `damager_id`, and names the player it belongs to by
    /// the place among the players online. Damage that no player online dealt is left alone.
    pub fn handle(
        state: &AppState,
        players: &Vec<OnlinePlayer>,
        damager_id: i32,
        now: u64,
    ) -> (r: (Freeze, Option<usize>))
        ensures
            match r.1 {
                Some(i) => damager(players@, damager_id) == Some(i as int) && i < players@.len()
                    && r.0@ == freeze_decision(state@, lowercase(players@[i as int].name@), now)
                    && players@[i as int].entity_id == damager_id && forall|j: int|
                    0 <= j < i ==> (#[trigger] players@[j]).entity_id != damager_id,
                None => damager(players@, damager_id) is None && r.0@ == FreezeModel::Pass
                    && forall|j: int|
                    0 <= j < players@.len() ==> (#[trigger] players@[j]).entity_id != damager_id,
            },
    {
        let mut i: usize = 0;
        assert(players@.skip(0) =~= players@);
        while i < players.len()
            invariant
                i <= players@.len(),
                damager(players@, damager_id) == (match damager(
                    players@.skip(i as int),
                    damager_id,
                ) {
                    Some(k) => Some(k + i),
                    None => None,
                }),
            decreases players@.len() - i,
        {
            assert(players@.skip(i as int).drop_first() =~= players@.skip(i + 1));
            if players[i].entity_id == damager_id {
                proof {
                    damager_is_the_first_with_the_id(players@, damager_id);
                }
                let normalized = normalize_name(players[i].name.as_str());
                return (freeze_check(state, normalized.as_str(), now), Some(i));
            }
            i = i + 1;
        }
        proof {
            damager_is_the_first_with_the_id(players@, damager_id);
        }
        (Freeze::Pass, None)
    }
}

/// A failed login raises the count of its address by one, up to the limit, and touches nothing else.
pub proof fn failures_are_counted_one_by_one(
    m: AppModel,
    ip: Seq<char>,
    max_tries: u32,
    other: Seq<char>,
)
    ensures
        ({
            let before = if m.failures.contains_key(ip) {
                m.failures[ip] as int
            } else {
                0
            };
            let after = after_failure(m, ip, max_tries);
            &&& failure_count(m, ip) == before
            &&& after.failures.contains_key(ip)
            &&& after.failures[ip] == (if before + 1 < max_tries {
                before + 1
            } else {
                max_tries as int
            })
            &&& other != ip ==> after.failures.contains_key(other) == m.failures.contains_key(other)
                && (m.failures.contains_key(other) ==> after.failures[other] == m.failures[other])
            &&& after.authed == m.authed && after.joined_at == m.joined_at
            &&& after.store == m.store && after.cfg == m.cfg && after.premium == m.premium
        }),
{
}

/// What is kept of a player: a kick or a leave forgets that the player is authenticated or frozen, an
/// admission leaves the player authenticated and not frozen, a freeze leaves the player frozen since
/// then and not authenticated. Other players and all else stay as they are.
pub proof fn bookkeeping_concerns_one_player(
    m: AppModel,
    n: Seq<char>,
    now: u64,
    other: Seq<char>,
)
    ensures
        ({
            let gone = after_kick(m, n);
            &&& !gone.authed.contains(n) && !gone.joined_at.contains_key(n)
        }),
        ({
            let inside = admitted(m, n);
            &&& inside.authed.contains(n) && !inside.joined_at.contains_key(n)
        }),
        ({
            let cold = frozen(m, n, now);
            &&& !cold.authed.contains(n)
            &&& cold.joined_at.contains_key(n)
            &&& cold.joined_at[n] == now
        }),
        forall|after: AppModel|
            after == after_kick(m, n) || after == admitted(m, n) || after == frozen(m, n, now)
                ==> #[trigger] only_concerns(m, after, n, other),
{
}

/// Whether two states differ in what is kept of the player `n` at most, as seen by another one.
pub open spec fn only_concerns(
    m: AppModel,
    after: AppModel,
    n: Seq<char>,
    other: Seq<char>,
) -> bool {
    &&& after.store == m.store && after.cfg == m.cfg
    &&& after.failures == m.failures && after.premium == m.premium
    &&& other != n ==> {
        &&& after.authed.contains(other) == m.authed.contains(other)
        &&& after.joined_at.contains_key(other) == m.joined_at.contains_key(other)
        &&& m.joined_at.contains_key(other) ==> after.joined_at[other] == m.joined_at[other]
    }
}

/// A name is taken exactly if its player is authenticated or frozen.
pub proof fn taken_names_are_live(m: AppModel, n: Seq<char>)
    ensures
        occupied(m, n) <==> m.authed.contains(n) || m.joined_at.contains_key(n),
{
}

/// A command line is allowed for frozen players exactly if what stands between its leading slashes
/// and the first white space is, in any case, one of nine words.
pub proof fn nine_words_are_allowed(n: nat, word: Seq<char>, rest: Seq<char>)
    requires
        forall|i: int| 0 <= i < word.len() ==> !white_space(#[trigger] word[i]),
        word.len() > 0 ==> word[0] != '/',
        rest.len() > 0 ==> white_space(rest[0]),
    ensures
        command_allowed(slashes(n) + word + rest) <==> {
            let w = lowercase(word);
            ||| w == "login"@ || w == "l"@ || w == "log"@
            ||| w == "register"@ || w == "premium"@ || w == "logout"@
            ||| w == "changepassword"@ || w == "unregister"@ || w == "setpremium"@
        },
{
    first_word_is_between_slashes_and_space(n, word, rest);
}

/// A joining player is let in exactly if the account is premium and the client presents its id, or
/// if it is not premium and an unexpired session of the same address is on record. All others are
/// frozen from the join on. Nobody else is affected.
pub proof fn joins_let_in_by_id_or_session(
    m: AppModel,
    who: CallerModel,
    now: u64,
    other: Seq<char>,
)
    ensures
        ({
            let n = lowercase(who.name);
            let after = after_join(m, who, now);
            let welcome = match m.store.find_account(n) {
                Ok(Some(account)) => match account.premium_id {
                    Some(id) => ids_match(who.uuid, id),
                    None => m.store.find_session(n) matches Ok(Some(sess)) && now < sess.expires_at
                        && sess.ip == who.ip,
                },
                _ => false,
            };
            &&& after.authed.contains(n) <==> welcome
            &&& after.joined_at.contains_key(n) <==> !welcome
            &&& !welcome ==> after.joined_at[n] == now
            &&& only_concerns(m, after, n, other)
        }),
{
}

/// What a joining player is told: welcome by id or by session, else the prompt that fits the account,
/// and a client with a foreign id is told so first.
pub proof fn joins_are_answered(m: AppModel, who: CallerModel, now: u64)
    ensures
        ({
            let sent = join_messages(m, who, now);
            match m.store.find_account(lowercase(who.name)) {
                Err(_) => sent == seq![m.cfg.message("join.login"@)],
                Ok(None) => sent == seq![m.cfg.message("join.choice"@)],
                Ok(Some(account)) => match account.premium_id {
                    Some(id) => if ids_match(who.uuid, id) {
                        sent == seq![m.cfg.message("premium.auto"@)]
                    } else {
                        sent == seq![
                            m.cfg.message("premium.uuid_mismatch"@),
                            m.cfg.message("join.login"@),
                        ]
                    },
                    None => if m.store.find_session(lowercase(who.name)) matches Ok(Some(sess))
                        && now < sess.expires_at && sess.ip == who.ip {
                        sent == seq![m.cfg.message("session.resume"@)]
                    } else {
                        sent == seq![m.cfg.message("join.login"@)]
                    },
                },
            }
        }),
{
}

/// An event of an authenticated player passes. Any other is cancelled, and kicks with the timeout
/// message exactly if the player has been frozen for longer than the timeout.
pub proof fn events_pass_for_the_authenticated_only(m: AppModel, n: Seq<char>, now: u64)
    ensures
        ({
            let late = m.joined_at.contains_key(n) && now > m.joined_at[n] + m.cfg.timeout_secs;
            let f = freeze_decision(m, n, now);
            &&& f is Pass <==> m.authed.contains(n)
            &&& f is Kick <==> !m.authed.contains(n) && late
            &&& f matches FreezeModel::Kick { text, always } ==> always && text == m.cfg.message(
                "timeout.kick"@,
            )
            &&& sweep_kicks(m, n, now) <==> late
        }),
{
}

/// A command line of an authenticated player passes. Any other kicks with the timeout message exactly
/// if the player has been frozen for longer than the timeout; until then it passes exactly if it is
/// allowed. One that is not allowed is cancelled even if the kick does not work.
pub proof fn command_lines_pass_if_allowed(
    m: AppModel,
    n: Seq<char>,
    command: Seq<char>,
    now: u64,
)
    ensures
        ({
            let late = m.joined_at.contains_key(n) && now > m.joined_at[n] + m.cfg.timeout_secs;
            let f = command_decision(m, n, command, now);
            &&& f is Kick <==> !m.authed.contains(n) && late
            &&& f is Pass <==> m.authed.contains(n) || !late && command_allowed(command)
            &&& f matches FreezeModel::Kick { text, always } ==> text == m.cfg.message(
                "timeout.kick"@,
            ) && always == !command_allowed(command)
        }),
{
}

/// An event is cancelled by a cancellation, by a kick that worked, and by one that cancels always.
pub proof fn cancellations_follow_the_decision(f: FreezeModel, kicked: bool)
    ensures
        f is Pass ==> !cancels(f, kicked),
        f is Cancel ==> cancels(f, kicked),
        f matches FreezeModel::Kick { always, .. } ==> (cancels(f, kicked) <==> always || kicked),
{
}

/// The damager is the first player online with its id; there is none exactly if nobody online has
/// that id.
pub proof fn damager_is_the_first_with_the_id(players: Seq<OnlinePlayer>, id: i32)
    ensures
        match damager(players, id) {
            Some(i) => {
                &&& 0 <= i < players.len()
                &&& players[i].entity_id == id
                &&& forall|j: int| 0 <= j < i ==> (#[trigger] players[j]).entity_id != id
            },
            None => forall|j: int| 0 <= j < players.len() ==> (#[trigger] players[j]).entity_id
                != id,
        },
    decreases players.len(),
{
    if players.len() > 0 && players[0].entity_id != id {
        let rest = players.drop_first();
        damager_is_the_first_with_the_id(rest, id);
        match damager(players, id) {
            Some(i) => {
                assert(rest[i - 1] == players[i]);
                assert forall|j: int| 0 <= j < i implies (#[trigger] players[j]).entity_id != id by {
                    if j > 0 {
                        assert(rest[j - 1] == players[j]);
                    }
                }
            },
            None => {
                assert forall|j: int| 0 <= j < players.len() implies (
                #[trigger] players[j]).entity_id != id by {
                    if j > 0 {
                        assert(rest[j - 1] == players[j]);
                    }
                }
            },
        }
    }
}

/// The models of players, messages and decisions show all of them.
pub proof fn handler_models_are_complete(
    c: Caller,
    v: Seq<String>,
    i: int,
    f: Freeze,
    status: AccountStatus,
)
    ensures
        c@.name == c.name@ && c@.uuid == c.uuid@ && c@.ip == c.ip@,
        texts(v).len() == v.len(),
        0 <= i < v.len() ==> texts(v)[i] == v[i]@,
        f@ is Pass <==> f is Pass,
        f@ is Cancel <==> f is Cancel,
        f matches Freeze::Kick { text, always } ==> f@ == (FreezeModel::Kick {
            text: text@,
            always,
        }),
        status is Missing ==> prompt_key(status) == "join.choice"@,
        !(status is Missing) ==> prompt_key(status) == "join.login"@,
{
}

} // verus!
