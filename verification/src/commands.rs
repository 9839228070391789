//! Auth commands: register, login, premium, logout, changepassword and unregister, and for admins
//! setpremium and forcelogin.
//!
//! Fail-closed rules enforced here:
//! - hash, save and session failures are answered with an error and never let the player in,
//! - wrong passwords increment the failure counter of the address and never let the player in,
//! - store lookup failures abort the action with a generic error.
//!
//! A command that changes the store runs in steps. It changes the tables, asks for them to be
//! written to disk with [`Step::Save`], and goes on in [`resume`] with the result of the write.

use crate::config::{ConfigModel, PluginConfig};
use crate::handlers::{
    after_failure, failure_count, message, record_failure, Caller, CallerModel,
};
use crate::hash::{
    fresh_hash, hash_password, hash_result, password_matches, verify_password, HashError,
};
use crate::premium::{
    fresh_lookup, ids_match, uuid_matches_mojang_id, verdict_content, LookupModel, PremiumLookup,
    Verdict,
};
use crate::session::{can_expire, expiry, expiry_fits, new_expiry};
use crate::state::{AppModel, AppState};
use crate::storage::{opt_text, Account, AccountModel, Session, SessionModel, StoreModel};
use crate::text::{join3, lowercase, same_text};
use crate::validation::{
    new_name_error, normalize_name, password_error, validate_new_name, validate_password,
};
use vstd::prelude::*;

verus! {

/// The answer to a command.
pub struct Reply {
    /// Whether the command did what was asked.
    pub success: bool,
    pub text: String,
    /// The message with which the player is to be kicked, if they are to be kicked.
    pub kick: Option<String>,
}

/// The content of an answer.
#[verifier::ext_equal]
pub struct ReplyModel {
    pub success: bool,
    pub text: Seq<char>,
    pub kick: Option<Seq<char>>,
}

impl View for Reply {
    type V = ReplyModel;

    open spec fn view(&self) -> ReplyModel {
        ReplyModel { success: self.success, text: self.text@, kick: opt_text(self.kick) }
    }
}

impl Reply {
    /// The status that the command returns to the server: 0 for success.
    pub fn status(&self) -> (r: i32)
        ensures
            r == (if self@.success {
                0i32
            } else {
                1i32
            }),
    {
        if self.success {
            0
        } else {
            1
        }
    }
}

/// What is left of a command once the store has been written to disk.
pub enum Pending {
    /// A new account was saved; its session comes next.
    Account { session: Session, normalized: String, welcome: String },
    /// A session was saved; the player is let in next, and the failures of an address are forgiven.
    Session { normalized: String, forgive: Option<String>, welcome: String },
    /// A session was cleared; the player is logged out next.
    Logout { normalized: String, now: u64 },
    /// An account was changed; the answer comes next.
    Change { done: String },
    /// An account was deleted; its session goes next.
    Deletion { normalized: String, now: u64 },
    /// The session of a deleted account was cleared; the player is logged out next.
    Cleanup { normalized: String, now: u64 },
}

/// The content of what is left of a command.
pub enum PendingModel {
    Account { session: SessionModel, normalized: Seq<char>, welcome: Seq<char> },
    Session { normalized: Seq<char>, forgive: Option<Seq<char>>, welcome: Seq<char> },
    Logout { normalized: Seq<char>, now: u64 },
    Change { done: Seq<char> },
    Deletion { normalized: Seq<char>, now: u64 },
    Cleanup { normalized: Seq<char>, now: u64 },
}

impl View for Pending {
    type V = PendingModel;

    open spec fn view(&self) -> PendingModel {
        match *self {
            Pending::Account { session, normalized, welcome } => PendingModel::Account {
                session: session@,
                normalized: normalized@,
                welcome: welcome@,
            },
            Pending::Session { normalized, forgive, welcome } => PendingModel::Session {
                normalized: normalized@,
                forgive: opt_text(forgive),
                welcome: welcome@,
            },
            Pending::Logout { normalized, now } => PendingModel::Logout {
                normalized: normalized@,
                now,
            },
            Pending::Change { done } => PendingModel::Change { done: done@ },
            Pending::Deletion { normalized, now } => PendingModel::Deletion {
                normalized: normalized@,
                now,
            },
            Pending::Cleanup { normalized, now } => PendingModel::Cleanup {
                normalized: normalized@,
                now,
            },
        }
    }
}

/// How a command goes on.
pub enum Step {
    /// The command is over.
    Done(Reply),
    /// The store is to be written to disk; the rest follows.
    Save(Pending),
}

/// The content of a step.
pub enum StepModel {
    Done(ReplyModel),
    Save(PendingModel),
}

impl View for Step {
    type V = StepModel;

    open spec fn view(&self) -> StepModel {
        match *self {
            Step::Done(reply) => StepModel::Done(reply@),
            Step::Save(pending) => StepModel::Save(pending@),
        }
    }
}

/// A refusal.
pub open spec fn refused(text: Seq<char>) -> StepModel {
    StepModel::Done(ReplyModel { success: false, text, kick: None })
}

/// A success.
pub open spec fn granted(text: Seq<char>) -> StepModel {
    StepModel::Done(ReplyModel { success: true, text, kick: None })
}

/// The answer to a command of somebody who is no player.
pub open spec fn player_only() -> Seq<char> {
    "This command can only be used by players."@
}

/// The answer to a command that failed on the store.
pub open spec fn store_error() -> Seq<char> {
    "Internal error, action was not completed."@
}

/// The refusal with this text.
fn refuse(text: String) -> (r: Step)
    ensures
        r@ == refused(text@),
{
    Step::Done(Reply { success: false, text, kick: None })
}

/// The success with this text.
fn grant(text: String) -> (r: Step)
    ensures
        r@ == granted(text@),
{
    Step::Done(Reply { success: true, text, kick: None })
}

/// The refusal of a command that failed on the store.
fn refuse_store() -> (r: Step)
    ensures
        r@ == refused(store_error()),
{
    refuse("Internal error, action was not completed.".to_owned())
}

/// The refusal of a command of somebody who is no player.
fn refuse_console() -> (r: Step)
    ensures
        r@ == refused(player_only()),
{
    refuse("This command can only be used by players.".to_owned())
}

/// The state with another store.
pub open spec fn with_store(m: AppModel, store: StoreModel) -> AppModel {
    AppModel { store, ..m }
}

/// A session saved for a player who logs in.
pub open spec fn open_session(
    m: AppModel,
    session: SessionModel,
    normalized: Seq<char>,
    forgive: Option<Seq<char>>,
    welcome: Seq<char>,
) -> (AppModel, StepModel) {
    if m.store.poisoned {
        (m, refused(store_error()))
    } else {
        (
            with_store(m, m.store.with_session(session)),
            StepModel::Save(PendingModel::Session { normalized, forgive, welcome }),
        )
    }
}

/// Saves a session for a player who logs in.
fn save_session(
    state: &mut AppState,
    session: &Session,
    normalized: String,
    forgive: Option<String>,
    welcome: String,
) -> (r: Step)
    ensures
        (final(state)@, r@) == open_session(
            old(state)@,
            session@,
            normalized@,
            opt_text(forgive),
            welcome@,
        ),
{
    match state.store.set_session(session) {
        Err(_) => refuse_store(),
        Ok(()) => Step::Save(Pending::Session { normalized, forgive, welcome }),
    }
}

/// The state with a player let in by a command.
pub open spec fn let_in(m: AppModel, normalized: Seq<char>, forgive: Option<Seq<char>>) -> AppModel {
    AppModel {
        authed: m.authed.insert(normalized),
        failures: match forgive {
            Some(ip) => m.failures.remove(ip),
            None => m.failures,
        },
        ..m
    }
}

/// The state with a player logged out, who is frozen again from `now` on.
pub open spec fn logged_out(m: AppModel, normalized: Seq<char>, now: u64) -> AppModel {
    AppModel {
        authed: m.authed.remove(normalized),
        joined_at: m.joined_at.insert(normalized, now),
        ..m
    }
}

/// Logs a player out, who is frozen again from `now` on.
fn log_out(state: &mut AppState, normalized: String, now: u64)
    ensures
        final(state)@ == logged_out(old(state)@, normalized@, now),
{
    state.authed.remove(normalized.as_str());
    state.joined_at.insert(normalized, now);
}

/// How a command goes on once the store was written, or could not be written.
pub open spec fn resumed(m: AppModel, pending: PendingModel, written: bool) -> (
    AppModel,
    StepModel,
) {
    match pending {
        PendingModel::Account { session, normalized, welcome } => if written {
            open_session(m, session, normalized, None, welcome)
        } else {
            (m, refused(store_error()))
        },
        PendingModel::Session { normalized, forgive, welcome } => if written {
            (let_in(m, normalized, forgive), granted(welcome))
        } else {
            (m, refused(store_error()))
        },
        PendingModel::Logout { normalized, now } => if written {
            (logged_out(m, normalized, now), granted("Logged out."@))
        } else {
            (m, refused(store_error()))
        },
        PendingModel::Change { done } => if written {
            (m, granted(done))
        } else {
            (m, refused(store_error()))
        },
        PendingModel::Deletion { normalized, now } => if !written {
            (m, refused(store_error()))
        } else if m.store.poisoned {
            (logged_out(m, normalized, now), granted("Account deleted."@))
        } else {
            (
                with_store(m, m.store.without_session(normalized)),
                StepModel::Save(PendingModel::Cleanup { normalized, now }),
            )
        },
        PendingModel::Cleanup { normalized, now } => (
            logged_out(m, normalized, now),
            granted("Account deleted."@),
        ),
    }
}

/// Goes on with a command, given whether the store was written to disk.
pub fn resume(state: &mut AppState, pending: Pending, written: bool) -> (r: Step)
    ensures
        (final(state)@, r@) == resumed(old(state)@, pending@, written),
{
    match pending {
        Pending::Account { session, normalized, welcome } => {
            if !written {
                return refuse_store();
            }
            save_session(state, &session, normalized, None, welcome)
        },
        Pending::Session { normalized, forgive, welcome } => {
            if !written {
                return refuse_store();
            }
            state.authed.insert(normalized);
            match &forgive {
                Some(ip) => {
                    state.failures.remove(ip.as_str());
                },
                None => {},
            }
            grant(welcome)
        },
        Pending::Logout { normalized, now } => {
            if !written {
                return refuse_store();
            }
            log_out(state, normalized, now);
            grant("Logged out.".to_owned())
        },
        Pending::Change { done } => {
            if !written {
                return refuse_store();
            }
            grant(done)
        },
        Pending::Deletion { normalized, now } => {
            if !written {
                return refuse_store();
            }
            match state.store.clear_session(normalized.as_str()) {
                Ok(()) => Step::Save(Pending::Cleanup { normalized, now }),
                Err(_) => {
                    log_out(state, normalized, now);
                    grant("Account deleted.".to_owned())
                },
            }
        },
        Pending::Cleanup { normalized, now } => {
            log_out(state, normalized, now);
            grant("Account deleted.".to_owned())
        },
    }
}

/// A new account.
pub open spec fn new_account(
    who: CallerModel,
    premium_id: Option<Seq<char>>,
    hash: Seq<char>,
    now: u64,
) -> AccountModel {
    AccountModel {
        name: who.name,
        uuid: who.uuid,
        premium_id,
        hash,
        last_ip: who.ip,
        last_seen: now as i64,
        created: now as i64,
    }
}

/// The session of a player who logs in.
pub open spec fn new_session(who: CallerModel, now: u64, cfg: ConfigModel) -> SessionModel {
    SessionModel { name: who.name, ip: who.ip, expires_at: expiry(now, cfg) }
}

/// An account created for a player.
pub open spec fn create_account(
    m: AppModel,
    who: CallerModel,
    premium_id: Option<Seq<char>>,
    hash: Seq<char>,
    welcome: Seq<char>,
    now: u64,
) -> (AppModel, StepModel) {
    if m.store.poisoned {
        (m, refused(store_error()))
    } else {
        (
            with_store(m, m.store.with_account(new_account(who, premium_id, hash, now))),
            StepModel::Save(
                PendingModel::Account {
                    session: new_session(who, now, m.cfg),
                    normalized: lowercase(who.name),
                    welcome,
                },
            ),
        )
    }
}

/// The session of a player who logs in.
fn session_for(who: &Caller, now: u64, cfg: &PluginConfig) -> (r: Session)
    requires
        expiry_fits(now, cfg@),
    ensures
        r@ == new_session(who@, now, cfg@),
{
    Session { name: who.name.clone(), ip: who.ip.clone(), expires_at: new_expiry(now, cfg) }
}

/// Creates an account for a player.
fn save_new_account(
    state: &mut AppState,
    who: &Caller,
    premium_id: Option<String>,
    hash: String,
    welcome: String,
    now: u64,
) -> (r: Step)
    requires
        expiry_fits(now, old(state)@.cfg),
    ensures
        (final(state)@, r@) == create_account(
            old(state)@,
            who@,
            opt_text(premium_id),
            hash@,
            welcome@,
            now,
        ),
{
    let account = Account {
        name: who.name.clone(),
        uuid: who.uuid.clone(),
        premium_id,
        hash,
        last_ip: who.ip.clone(),
        last_seen: now as i64,
        created: now as i64,
    };
    match state.store.save_account(&account) {
        Err(_) => refuse_store(),
        Ok(()) => {
            let session = session_for(who, now, &state.cfg);
            let normalized = normalize_name(who.name.as_str());
            Step::Save(Pending::Account { session, normalized, welcome })
        },
    }
}

/// Why the account of a player cannot be had, if it cannot.
pub open spec fn lookup_refusal(m: AppModel, name: Seq<char>) -> Option<Seq<char>> {
    match m.store.find_account(name) {
        Ok(Some(_)) => None,
        Ok(None) => Some("Unknown account."@),
        Err(_) => Some(store_error()),
    }
}

/// The account of a player, or the text of the refusal.
pub fn lookup_or_report(state: &AppState, normalized: &str) -> (r: Result<Account, String>)
    ensures
        match r {
            Ok(a) => state@.store.find_account(normalized@) == Ok::<
                Option<AccountModel>,
                Seq<char>,
            >(Some(a@)),
            Err(text) => lookup_refusal(state@, normalized@) == Some(text@),
        },
{
    match state.store.get_account(normalized) {
        Ok(Some(account)) => Ok(account),
        Ok(None) => Err("Unknown account.".to_owned()),
        Err(_) => Err("Internal error, action was not completed.".to_owned()),
    }
}

/// Why a registration is refused before anything is hashed, if it is refused. The rules are tried
/// in this order.
pub open spec fn register_refusal(
    m: AppModel,
    who: CallerModel,
    password: Option<Seq<char>>,
    confirm: Option<Seq<char>>,
) -> Option<Seq<char>> {
    let n = lowercase(who.name);
    if password is None || confirm is None {
        Some("Usage: /register <password> <confirm>"@)
    } else if m.authed.contains(n) {
        Some(m.cfg.message("login.already"@))
    } else if m.store.find_account(n) is Err {
        Some(store_error())
    } else if m.store.find_account(n)->Ok_0 is Some {
        Some(m.cfg.message("register.exists"@))
    } else if new_name_error(who.name, m.cfg) is Some {
        new_name_error(who.name, m.cfg)
    } else if password_error(password->0, n, m.cfg) is Some {
        password_error(password->0, n, m.cfg)
    } else if password != confirm {
        Some(m.cfg.message("register.mismatch"@))
    } else {
        None
    }
}

/// What a registration does with the hash of the password.
pub open spec fn register_with(
    m: AppModel,
    who: CallerModel,
    hash: Result<Seq<char>, HashError>,
    now: u64,
) -> (AppModel, StepModel) {
    match hash {
        Err(_) => (m, refused("Registration failed, please try again."@)),
        Ok(h) => create_account(m, who, None, h, m.cfg.message("register.ok"@), now),
    }
}

/// What a registration does. The hash only matters if the registration is not refused.
pub open spec fn register(
    m: AppModel,
    who: CallerModel,
    password: Option<Seq<char>>,
    confirm: Option<Seq<char>>,
    hash: Result<Seq<char>, HashError>,
    now: u64,
) -> (AppModel, StepModel) {
    match register_refusal(m, who, password, confirm) {
        Some(text) => (m, refused(text)),
        None => register_with(m, who, hash, now),
    }
}

/// Whether `hash` is a possible hash of a password, if one is asked for.
pub open spec fn hash_if(
    asked: bool,
    password: Option<Seq<char>>,
    hash: Result<Seq<char>, HashError>,
) -> bool {
    asked ==> password is Some && fresh_hash(password->0, hash)
}

/// The content of an optional argument.
pub open spec fn arg(o: Option<&str>) -> Option<Seq<char>> {
    match o {
        Some(s) => Some(s@),
        None => None,
    }
}

/// The content of an optional player.
pub open spec fn caller_model(o: Option<&Caller>) -> Option<CallerModel> {
    match o {
        Some(who) => Some(who@),
        None => None,
    }
}

/// Whether a registration gets as far as opening a session.
pub open spec fn register_proceeds(
    m: AppModel,
    caller: Option<CallerModel>,
    password: Option<Seq<char>>,
    confirm: Option<Seq<char>>,
) -> bool {
    caller matches Some(who) && register_refusal(m, who, password, confirm) is None
}

/// What a registration by anybody does, with some hash that a fresh salt gives.
pub open spec fn registers(
    m: AppModel,
    caller: Option<CallerModel>,
    password: Option<Seq<char>>,
    confirm: Option<Seq<char>>,
    now: u64,
    result: (AppModel, StepModel),
) -> bool {
    match caller {
        None => result == (m, refused(player_only())),
        Some(who) => exists|h: Result<Seq<char>, HashError>| #[trigger]
            hash_if(register_refusal(m, who, password, confirm) is None, password, h) && result
                == register(m, who, password, confirm, h, now),
    }
}

/// `/register <password> <confirm>`
pub struct RegisterHandler;

impl RegisterHandler {
    /// The refusal of a registration, if it is refused before anything is hashed.
    pub fn check(
        state: &AppState,
        who: &Caller,
        password: Option<&str>,
        confirm: Option<&str>,
    ) -> (r: Option<String>)
        ensures
            opt_text(r) == register_refusal(state@, who@, arg(password), arg(confirm)),
    {
        let normalized = normalize_name(who.name.as_str());
        match (password, confirm) {
            (Some(password), Some(confirm)) => {
                if state.authed.contains(normalized.as_str()) {
                    return Some(message(state, "login.already"));
                }
                match state.store.get_account(normalized.as_str()) {
                    Ok(Some(_)) => {
                        return Some(message(state, "register.exists"));
                    },
                    Ok(None) => {},
                    Err(_) => {
                        return Some("Internal error, action was not completed.".to_owned());
                    },
                }
                match validate_new_name(who.name.as_str(), &state.cfg) {
                    Err(e) => {
                        return Some(e);
                    },
                    Ok(()) => {},
                }
                match validate_password(password, normalized.as_str(), &state.cfg) {
                    Err(e) => {
                        return Some(e);
                    },
                    Ok(()) => {},
                }
                if !same_text(password, confirm) {
                    return Some(message(state, "register.mismatch"));
                }
                None
            },
            _ => Some("Usage: /register <password> <confirm>".to_owned()),
        }
    }

    /// Creates the account of an accepted registration, given the hash of the password.
    pub fn conclude(
        state: &mut AppState,
        who: &Caller,
        hash: Result<String, HashError>,
        now: u64,
    ) -> (r: Step)
        requires
            hash is Ok ==> expiry_fits(now, old(state)@.cfg),
        ensures
            (final(state)@, r@) == register_with(old(state)@, who@, hash_result(hash), now),
    {
        match hash {
            Err(_) => refuse("Registration failed, please try again.".to_owned()),
            Ok(h) => {
                let welcome = message(state, "register.ok");
                save_new_account(state, who, None, h, welcome, now)
            },
        }
    }

    /// Creates an account with a password for the calling player and logs them in. The hash that is
    /// stored accepts the password; which salt it has, and whether one could be drawn, rests on the
    /// machine.
    pub fn handle(
        state: &mut AppState,
        caller: Option<&Caller>,
        password: Option<&str>,
        confirm: Option<&str>,
        now: u64,
    ) -> (r: Step)
        requires
            register_proceeds(
                old(state)@,
                caller_model(caller),
                arg(password),
                arg(confirm),
            ) ==> expiry_fits(now, old(state)@.cfg),
        ensures
            registers(
                old(state)@,
                caller_model(caller),
                arg(password),
                arg(confirm),
                now,
                (final(state)@, r@),
            ),
    {
        let who = match caller {
            Some(who) => who,
            None => {
                return refuse_console();
            },
        };
        let ghost asked = register_refusal(state@, who@, arg(password), arg(confirm)) is None;
        assert(!asked ==> hash_if(asked, arg(password), Err(HashError::Password)));
        match RegisterHandler::check(state, who, password, confirm) {
            Some(text) => refuse(text),
            None => {
                let hash = match password {
                    Some(password) => hash_password(password),
                    None => Err(HashError::Password),
                };
                assert(hash_if(asked, arg(password), hash_result(hash)));
                RegisterHandler::conclude(state, who, hash, now)
            },
        }
    }

    /// Runs a registration at any time: `None`, with nothing changed, if the registration is not
    /// refused and the expiry of its session does not fit the clock's range.
    pub fn try_handle(
        state: &mut AppState,
        caller: Option<&Caller>,
        password: Option<&str>,
        confirm: Option<&str>,
        now: u64,
    ) -> (r: Option<Step>)
        ensures
            r is None <==> register_proceeds(
                old(state)@,
                caller_model(caller),
                arg(password),
                arg(confirm),
            ) && !expiry_fits(now, old(state)@.cfg),
            match r {
                None => final(state)@ == old(state)@,
                Some(step) => registers(
                    old(state)@,
                    caller_model(caller),
                    arg(password),
                    arg(confirm),
                    now,
                    (final(state)@, step@),
                ),
            },
    {
        if !can_expire(now, &state.cfg) {
            if let Some(who) = caller {
                if RegisterHandler::check(state, who, password, confirm).is_none() {
                    return None;
                }
            }
        }
        Some(RegisterHandler::handle(state, caller, password, confirm, now))
    }
}

/// What a login does once the password was checked.
pub open spec fn login_with(m: AppModel, who: CallerModel, accepted: bool, now: u64) -> (
    AppModel,
    StepModel,
) {
    if accepted {
        open_session(
            m,
            new_session(who, now, m.cfg),
            lowercase(who.name),
            Some(who.ip),
            m.cfg.message("login.ok"@),
        )
    } else {
        let after = after_failure(m, who.ip, m.cfg.max_login_tries);
        (
            after,
            StepModel::Done(
                ReplyModel {
                    success: false,
                    text: m.cfg.message("login.wrong"@),
                    kick: if failure_count(after, who.ip) >= m.cfg.max_login_tries {
                        Some(m.cfg.message("login.rate_limited"@))
                    } else {
                        None
                    },
                },
            ),
        )
    }
}

/// What a login does.
pub open spec fn login(m: AppModel, who: CallerModel, password: Option<Seq<char>>, now: u64) -> (
    AppModel,
    StepModel,
) {
    match password {
        None => (m, refused("Usage: /login <password>"@)),
        Some(password) => match m.store.find_account(lowercase(who.name)) {
            Err(_) => (m, refused(store_error())),
            Ok(None) => (m, refused("You are not registered."@)),
            Ok(Some(account)) => login_with(
                m,
                who,
                password_matches(account.hash, password),
                now,
            ),
        },
    }
}

/// Whether a login gets as far as opening a session.
pub open spec fn login_proceeds(
    m: AppModel,
    caller: Option<CallerModel>,
    password: Option<Seq<char>>,
) -> bool {
    &&& caller matches Some(who)
    &&& password is Some
    &&& m.store.find_account(lowercase(who.name)) matches Ok(Some(account))
    &&& password_matches(account.hash, password->0)
}

/// What a login by anybody does.
pub open spec fn logs_in(
    m: AppModel,
    caller: Option<CallerModel>,
    password: Option<Seq<char>>,
    now: u64,
) -> (AppModel, StepModel) {
    match caller {
        None => (m, refused(player_only())),
        Some(who) => login(m, who, password, now),
    }
}

/// `/login <password>`
pub struct LoginHandler;

impl LoginHandler {
    /// Logs a registered player in whose password was accepted, or records the failure and kicks
    /// the player once the limit is reached.
    pub fn conclude(state: &mut AppState, who: &Caller, accepted: bool, now: u64) -> (r: Step)
        requires
            accepted ==> expiry_fits(now, old(state)@.cfg),
        ensures
            (final(state)@, r@) == login_with(old(state)@, who@, accepted, now),
    {
        if !accepted {
            let text = message(state, "login.wrong");
            let tries: u32 = state.cfg.max_login_tries;
            let kick = if record_failure(state, who.ip.as_str(), tries) {
                Some(message(state, "login.rate_limited"))
            } else {
                None
            };
            return Step::Done(Reply { success: false, text, kick });
        }
        let session = session_for(who, now, &state.cfg);
        let welcome = message(state, "login.ok");
        let normalized = normalize_name(who.name.as_str());
        save_session(state, &session, normalized, Some(who.ip.clone()), welcome)
    }

    /// Logs the calling player in with their password.
    pub fn handle(
        state: &mut AppState,
        caller: Option<&Caller>,
        password: Option<&str>,
        now: u64,
    ) -> (r: Step)
        requires
            login_proceeds(old(state)@, caller_model(caller), arg(password)) ==> expiry_fits(
                now,
                old(state)@.cfg,
            ),
        ensures
            (final(state)@, r@) == logs_in(old(state)@, caller_model(caller), arg(password), now),
    {
        let who = match caller {
            Some(who) => who,
            None => {
                return refuse_console();
            },
        };
        let normalized = normalize_name(who.name.as_str());
        match password {
            None => refuse("Usage: /login <password>".to_owned()),
            Some(password) => match state.store.get_account(normalized.as_str()) {
                Ok(Some(account)) => {
                    let accepted = verify_password(account.hash.as_str(), password);
                    LoginHandler::conclude(state, who, accepted, now)
                },
                Ok(None) => refuse("You are not registered.".to_owned()),
                Err(_) => refuse_store(),
            },
        }
    }

    /// Decides whether a login gets as far as opening a session.
    fn proceeds(state: &AppState, caller: Option<&Caller>, password: Option<&str>) -> (r: bool)
        ensures
            r == login_proceeds(state@, caller_model(caller), arg(password)),
    {
        match (caller, password) {
            (Some(who), Some(password)) => {
                let normalized = normalize_name(who.name.as_str());
                match state.store.get_account(normalized.as_str()) {
                    Ok(Some(account)) => verify_password(account.hash.as_str(), password),
                    _ => false,
                }
            },
            _ => false,
        }
    }

    /// Runs a login at any time: `None`, with nothing changed, if the password is accepted and the
    /// expiry of the session does not fit the clock's range.
    pub fn try_handle(
        state: &mut AppState,
        caller: Option<&Caller>,
        password: Option<&str>,
        now: u64,
    ) -> (r: Option<Step>)
        ensures
            r is None <==> login_proceeds(old(state)@, caller_model(caller), arg(password))
                && !expiry_fits(now, old(state)@.cfg),
            match r {
                None => final(state)@ == old(state)@,
                Some(step) => (final(state)@, step@) == logs_in(
                    old(state)@,
                    caller_model(caller),
                    arg(password),
                    now,
                ),
            },
    {
        if !can_expire(now, &state.cfg) && LoginHandler::proceeds(state, caller, password) {
            return None;
        }
        Some(LoginHandler::handle(state, caller, password, now))
    }
}

/// What a logout does.
pub open spec fn logout(m: AppModel, who: CallerModel, now: u64) -> (AppModel, StepModel) {
    let n = lowercase(who.name);
    if !m.authed.contains(n) {
        (m, refused("You are not logged in."@))
    } else if m.store.poisoned {
        (m, refused(store_error()))
    } else {
        (
            with_store(m, m.store.without_session(n)),
            StepModel::Save(PendingModel::Logout { normalized: n, now }),
        )
    }
}

/// `/logout`
pub struct LogoutHandler;

impl LogoutHandler {
    /// Logs the calling player out: the player is frozen again, and the next join asks for a login.
    pub fn handle(state: &mut AppState, caller: Option<&Caller>, now: u64) -> (r: Step)
        ensures
            (final(state)@, r@) == (match caller {
                None => (old(state)@, refused(player_only())),
                Some(who) => logout(old(state)@, who@, now),
            }),
    {
        let who = match caller {
            Some(who) => who,
            None => {
                return refuse_console();
            },
        };
        let normalized = normalize_name(who.name.as_str());
        if !state.authed.contains(normalized.as_str()) {
            return refuse("You are not logged in.".to_owned());
        }
        match state.store.clear_session(normalized.as_str()) {
            Err(_) => refuse_store(),
            Ok(()) => Step::Save(Pending::Logout { normalized, now }),
        }
    }
}

/// Why a change of password is refused before the old one is checked, if it is refused.
pub open spec fn change_refusal(
    m: AppModel,
    who: CallerModel,
    old_password: Option<Seq<char>>,
    new_password: Option<Seq<char>>,
) -> Option<Seq<char>> {
    let n = lowercase(who.name);
    if old_password is None || new_password is None {
        Some("Usage: /changepassword <old> <new>"@)
    } else if !m.authed.contains(n) {
        Some("You must be logged in to change your password."@)
    } else {
        lookup_refusal(m, n)
    }
}

/// Why a change of password is refused once the old one was checked, if it is refused.
pub open spec fn new_password_refusal(
    m: AppModel,
    who: CallerModel,
    accepted: bool,
    new_password: Seq<char>,
) -> Option<Seq<char>> {
    if !accepted {
        Some(m.cfg.message("login.wrong"@))
    } else {
        password_error(new_password, lowercase(who.name), m.cfg)
    }
}

/// Whether the old password that a player gave allows a change. An account without password has
/// none to give: its first password is set by being logged in.
pub open spec fn old_password_accepted(account: AccountModel, old_password: Seq<char>) -> bool {
    account.hash.len() == 0 || password_matches(account.hash, old_password)
}

/// What a change of password does with the hash of the new one.
pub open spec fn change_with(
    m: AppModel,
    account: AccountModel,
    hash: Result<Seq<char>, HashError>,
) -> (AppModel, StepModel) {
    match hash {
        Err(_) => (m, refused("Password change failed, please try again."@)),
        Ok(h) => if m.store.poisoned {
            (m, refused(store_error()))
        } else {
            (
                with_store(m, m.store.with_account(AccountModel { hash: h, ..account })),
                StepModel::Save(PendingModel::Change { done: "Password changed."@ }),
            )
        },
    }
}

/// The account that a lookup found.
pub open spec fn found_account(m: AppModel, name: Seq<char>) -> AccountModel {
    m.store.find_account(name)->Ok_0->0
}

/// What a change of password does. The hash only matters if the change is not refused.
pub open spec fn change_password(
    m: AppModel,
    who: CallerModel,
    old_password: Option<Seq<char>>,
    new_password: Option<Seq<char>>,
    hash: Result<Seq<char>, HashError>,
) -> (AppModel, StepModel) {
    match full_change_refusal(m, who, old_password, new_password) {
        Some(text) => (m, refused(text)),
        None => change_with(m, found_account(m, lowercase(who.name)), hash),
    }
}

/// Why a change of password is refused before anything is hashed, if it is refused.
pub open spec fn full_change_refusal(
    m: AppModel,
    who: CallerModel,
    old_password: Option<Seq<char>>,
    new_password: Option<Seq<char>>,
) -> Option<Seq<char>> {
    let account = found_account(m, lowercase(who.name));
    match change_refusal(m, who, old_password, new_password) {
        Some(text) => Some(text),
        None => new_password_refusal(
            m,
            who,
            old_password_accepted(account, old_password->0),
            new_password->0,
        ),
    }
}

/// `/changepassword <old> <new>`
pub struct ChangePasswordHandler;

impl ChangePasswordHandler {
    /// The account whose password is to be changed, or the refusal.
    pub fn check(
        state: &AppState,
        who: &Caller,
        old_password: Option<&str>,
        new_password: Option<&str>,
    ) -> (r: Result<Account, String>)
        ensures
            match r {
                Ok(a) => change_refusal(state@, who@, arg(old_password), arg(new_password)) is None
                    && a@ == found_account(state@, lowercase(who@.name)),
                Err(text) => change_refusal(state@, who@, arg(old_password), arg(new_password))
                    == Some(text@),
            },
    {
        let normalized = normalize_name(who.name.as_str());
        if old_password.is_none() || new_password.is_none() {
            return Err("Usage: /changepassword <old> <new>".to_owned());
        }
        if !state.authed.contains(normalized.as_str()) {
            return Err("You must be logged in to change your password.".to_owned());
        }
        lookup_or_report(state, normalized.as_str())
    }

    /// The refusal of a new password, given whether the old one was accepted.
    pub fn check_new(state: &AppState, who: &Caller, accepted: bool, new_password: &str) -> (r:
        Option<String>)
        ensures
            opt_text(r) == new_password_refusal(state@, who@, accepted, new_password@),
    {
        if !accepted {
            return Some(message(state, "login.wrong"));
        }
        let normalized = normalize_name(who.name.as_str());
        match validate_password(new_password, normalized.as_str(), &state.cfg) {
            Err(e) => Some(e),
            Ok(()) => None,
        }
    }

    /// Stores the hash of an accepted new password.
    pub fn conclude(state: &mut AppState, account: &Account, hash: Result<String, HashError>) -> (r:
        Step)
        ensures
            (final(state)@, r@) == change_with(old(state)@, account@, hash_result(hash)),
    {
        match hash {
            Err(_) => refuse("Password change failed, please try again.".to_owned()),
            Ok(h) => {
                let mut updated = account.clone();
                updated.hash = h;
                match state.store.save_account(&updated) {
                    Err(_) => refuse_store(),
                    Ok(()) => Step::Save(Pending::Change { done: "Password changed.".to_owned() }),
                }
            },
        }
    }

    /// Changes the password of the calling player. The hash that is stored accepts the new
    /// password; which salt it has, and whether one could be drawn, rests on the machine.
    pub fn handle(
        state: &mut AppState,
        caller: Option<&Caller>,
        old_password: Option<&str>,
        new_password: Option<&str>,
    ) -> (r: Step)
        ensures
            match caller {
                None => (final(state)@, r@) == (old(state)@, refused(player_only())),
                Some(who) => exists|h: Result<Seq<char>, HashError>| #[trigger]
                    hash_if(
                        full_change_refusal(
                            old(state)@,
                            who@,
                            arg(old_password),
                            arg(new_password),
                        ) is None,
                        arg(new_password),
                        h,
                    ) && (final(state)@, r@) == change_password(
                        old(state)@,
                        who@,
                        arg(old_password),
                        arg(new_password),
                        h,
                    ),
            },
    {
        let who = match caller {
            Some(who) => who,
            None => {
                return refuse_console();
            },
        };
        let ghost asked = full_change_refusal(
            state@,
            who@,
            arg(old_password),
            arg(new_password),
        ) is None;
        assert(!asked ==> hash_if(asked, arg(new_password), Err(HashError::Password)));
        match ChangePasswordHandler::check(state, who, old_password, new_password) {
            Err(text) => refuse(text),
            Ok(account) => match (old_password, new_password) {
                (Some(old_password), Some(new_password)) => {
                    let accepted = account.hash.as_str().is_empty() || verify_password(
                        account.hash.as_str(),
                        old_password,
                    );
                    match ChangePasswordHandler::check_new(state, who, accepted, new_password) {
                        Some(text) => refuse(text),
                        None => {
                            let hash = hash_password(new_password);
                            assert(hash_if(asked, Some(new_password@), hash_result(hash)));
                            ChangePasswordHandler::conclude(state, &account, hash)
                        },
                    }
                },
                _ => refuse("Usage: /changepassword <old> <new>".to_owned()),
            },
        }
    }
}

/// What the deletion of an account does once the password was checked.
pub open spec fn unregister_with(m: AppModel, who: CallerModel, accepted: bool, now: u64) -> (
    AppModel,
    StepModel,
) {
    let n = lowercase(who.name);
    if !accepted {
        (m, refused(m.cfg.message("login.wrong"@)))
    } else if m.store.poisoned {
        (m, refused(store_error()))
    } else {
        (
            with_store(m, m.store.without_account(n)),
            StepModel::Save(PendingModel::Deletion { normalized: n, now }),
        )
    }
}

/// What the deletion of an account does.
pub open spec fn unregister(
    m: AppModel,
    who: CallerModel,
    password: Option<Seq<char>>,
    now: u64,
) -> (AppModel, StepModel) {
    let n = lowercase(who.name);
    if password is None {
        (m, refused("Usage: /unregister <password>"@))
    } else if !m.authed.contains(n) {
        (m, refused("You must be logged in to delete your account."@))
    } else if lookup_refusal(m, n) is Some {
        (m, refused(lookup_refusal(m, n)->0))
    } else {
        unregister_with(m, who, password_matches(found_account(m, n).hash, password->0), now)
    }
}

/// `/unregister <password>`
pub struct UnregisterHandler;

impl UnregisterHandler {
    /// Deletes the account of a logged-in player whose password was accepted.
    pub fn conclude(state: &mut AppState, who: &Caller, accepted: bool, now: u64) -> (r: Step)
        ensures
            (final(state)@, r@) == unregister_with(old(state)@, who@, accepted, now),
    {
        let normalized = normalize_name(who.name.as_str());
        if !accepted {
            return refuse(message(state, "login.wrong"));
        }
        match state.store.delete_account(normalized.as_str()) {
            Err(_) => refuse_store(),
            Ok(()) => Step::Save(Pending::Deletion { normalized, now }),
        }
    }

    /// Deletes the account of the calling player, who is frozen again.
    pub fn handle(
        state: &mut AppState,
        caller: Option<&Caller>,
        password: Option<&str>,
        now: u64,
    ) -> (r: Step)
        ensures
            (final(state)@, r@) == (match caller {
                None => (old(state)@, refused(player_only())),
                Some(who) => unregister(old(state)@, who@, arg(password), now),
            }),
    {
        let who = match caller {
            Some(who) => who,
            None => {
                return refuse_console();
            },
        };
        let normalized = normalize_name(who.name.as_str());
        match password {
            None => refuse("Usage: /unregister <password>".to_owned()),
            Some(password) => {
                if !state.authed.contains(normalized.as_str()) {
                    return refuse("You must be logged in to delete your account.".to_owned());
                }
                match lookup_or_report(state, normalized.as_str()) {
                    Err(text) => refuse(text),
                    Ok(account) => {
                        let accepted = verify_password(account.hash.as_str(), password);
                        UnregisterHandler::conclude(state, who, accepted, now)
                    },
                }
            },
        }
    }
}

/// What a premium claim does before Mojang is asked.
pub enum ClaimModel {
    /// The claim is over.
    Done(ReplyModel),
    /// The name is to be looked up.
    Lookup(LookupModel),
}

/// What a premium claim does before Mojang is asked: the answer, or the lookup to be made.
pub enum Claim {
    /// The claim is over.
    Done(Reply),
    /// The name is to be looked up.
    Lookup(PremiumLookup),
}

impl View for Claim {
    type V = ClaimModel;

    open spec fn view(&self) -> ClaimModel {
        match *self {
            Claim::Done(reply) => ClaimModel::Done(reply@),
            Claim::Lookup(lookup) => ClaimModel::Lookup(lookup@),
        }
    }
}

/// Why a premium claim is refused without asking Mojang, if it is refused. The rules are tried in
/// this order.
pub open spec fn claim_refusal(m: AppModel, who: CallerModel, now: u64) -> Option<Seq<char>> {
    let found = m.store.find_account(lowercase(who.name));
    if found is Err {
        Some(store_error())
    } else if found->Ok_0 is Some {
        Some(m.cfg.message("premium.exists"@))
    } else if new_name_error(who.name, m.cfg) is Some {
        new_name_error(who.name, m.cfg)
    } else if !m.cfg.premium_check_enabled {
        Some(m.cfg.message("premium.unavailable"@))
    } else if m.premium.verdict(who.name, now) == Some(false) {
        Some(m.cfg.message("premium.not"@))
    } else {
        None
    }
}

/// What a premium claim does with the outcome of the lookup. A lookup that failed is not
/// remembered. An account that exists by now is left as it is.
pub open spec fn claim_with(
    m: AppModel,
    who: CallerModel,
    outcome: Result<(bool, Option<Seq<char>>), Seq<char>>,
    now: u64,
) -> (AppModel, StepModel) {
    match outcome {
        Err(_) => (m, refused(m.cfg.message("premium.unavailable"@))),
        Ok((true, None)) => (m, refused(m.cfg.message("premium.unavailable"@))),
        Ok((false, _)) => (
            AppModel { premium: m.premium.remember(who.name, false, now), ..m },
            refused(m.cfg.message("premium.not"@)),
        ),
        Ok((true, Some(id))) => {
            let known = AppModel { premium: m.premium.remember(who.name, true, now), ..m };
            match m.store.find_account(lowercase(who.name)) {
                Err(_) => (known, refused(store_error())),
                Ok(Some(_)) => (known, refused(m.cfg.message("premium.exists"@))),
                Ok(None) => if ids_match(who.uuid, id) {
                    create_account(
                        known,
                        who,
                        Some(id),
                        Seq::empty(),
                        m.cfg.message("premium.ok"@),
                        now,
                    )
                } else {
                    (known, refused(m.cfg.message("premium.uuid_wrong"@)))
                },
            }
        },
    }
}

/// The content of the outcome of a lookup.
pub open spec fn lookup_outcome(r: Result<Verdict, String>) -> Result<
    (bool, Option<Seq<char>>),
    Seq<char>,
> {
    match r {
        Ok(v) => Ok(verdict_content(v)),
        Err(e) => Err(e@),
    }
}

/// `/premium`
pub struct PremiumHandler;

impl PremiumHandler {
    /// Starts a premium claim of the calling player: refuses it, or asks for a lookup.
    pub fn begin(state: &AppState, caller: Option<&Caller>, now: u64) -> (r: Claim)
        ensures
            r@ == (match caller {
                None => ClaimModel::Done(
                    ReplyModel { success: false, text: player_only(), kick: None },
                ),
                Some(who) => match claim_refusal(state@, who@, now) {
                    Some(text) => ClaimModel::Done(
                        ReplyModel { success: false, text, kick: None },
                    ),
                    None => ClaimModel::Lookup(fresh_lookup(who@.name)),
                },
            }),
    {
        let who = match caller {
            Some(who) => who,
            None => {
                let text = "This command can only be used by players.".to_owned();
                return Claim::Done(Reply { success: false, text, kick: None });
            },
        };
        let normalized = normalize_name(who.name.as_str());
        let text = match state.store.get_account(normalized.as_str()) {
            Err(_) => "Internal error, action was not completed.".to_owned(),
            Ok(Some(_)) => message(state, "premium.exists"),
            Ok(None) => match validate_new_name(who.name.as_str(), &state.cfg) {
                Err(e) => e,
                Ok(()) => {
                    if !state.cfg.premium_check_enabled {
                        message(state, "premium.unavailable")
                    } else {
                        match state.premium.get(who.name.as_str(), now) {
                            Some(false) => message(state, "premium.not"),
                            _ => {
                                return Claim::Lookup(PremiumLookup::new(who.name.as_str()));
                            },
                        }
                    }
                },
            },
        };
        Claim::Done(Reply { success: false, text, kick: None })
    }

    /// Concludes a premium claim with the outcome of the lookup.
    pub fn conclude(
        state: &mut AppState,
        who: &Caller,
        outcome: Result<Verdict, String>,
        now: u64,
    ) -> (r: Step)
        requires
            outcome matches Ok((true, Some(_))) ==> expiry_fits(now, old(state)@.cfg),
        ensures
            (final(state)@, r@) == claim_with(old(state)@, who@, lookup_outcome(outcome), now),
    {
        let normalized = normalize_name(who.name.as_str());
        match outcome {
            Err(_) => refuse(message(state, "premium.unavailable")),
            Ok((false, _)) => {
                state.premium.put(who.name.clone(), false, now);
                refuse(message(state, "premium.not"))
            },
            Ok((true, None)) => refuse(message(state, "premium.unavailable")),
            Ok((true, Some(id))) => {
                state.premium.put(who.name.clone(), true, now);
                match state.store.get_account(normalized.as_str()) {
                    Err(_) => refuse_store(),
                    Ok(Some(_)) => refuse(message(state, "premium.exists")),
                    Ok(None) => {
                        if !uuid_matches_mojang_id(who.uuid.as_str(), id.as_str()) {
                            return refuse(message(state, "premium.uuid_wrong"));
                        }
                        let welcome = message(state, "premium.ok");
                        save_new_account(state, who, Some(id), String::new(), welcome, now)
                    },
                }
            },
        }
    }
}

/// What setting the premium flag of an account does.
pub open spec fn set_premium(m: AppModel, enable: bool, name: Option<Seq<char>>) -> (
    AppModel,
    StepModel,
) {
    match name {
        None => (m, refused("Usage: /setpremium <name> <on|off>"@)),
        Some(name) => {
            let n = lowercase(name);
            let account = found_account(m, n);
            if lookup_refusal(m, n) is Some {
                (m, refused(lookup_refusal(m, n)->0))
            } else if !enable && account.hash.len() == 0 {
                (m, refused(m.cfg.message("premium.nopass"@)))
            } else {
                let premium_id = if enable {
                    Some(account.uuid)
                } else {
                    None
                };
                let done = if enable {
                    "Premium enabled for "@ + account.name + "."@
                } else {
                    "Premium disabled for "@ + account.name + "."@
                };
                (
                    with_store(m, m.store.with_account(AccountModel { premium_id, ..account })),
                    StepModel::Save(PendingModel::Change { done }),
                )
            }
        },
    }
}

/// `/setpremium <name> <on|off>`
pub struct SetPremiumHandler {
    pub enable: bool,
}

impl SetPremiumHandler {
    /// Sets or clears the premium flag of an account. An account without password keeps it: nobody
    /// could log in to it any more.
    pub fn handle(&self, state: &mut AppState, name: Option<&str>) -> (r: Step)
        ensures
            (final(state)@, r@) == set_premium(old(state)@, self.enable, arg(name)),
    {
        let target = match name {
            Some(target) => target,
            None => {
                return refuse("Usage: /setpremium <name> <on|off>".to_owned());
            },
        };
        let normalized = normalize_name(target);
        match lookup_or_report(state, normalized.as_str()) {
            Err(text) => refuse(text),
            Ok(account) => {
                if !self.enable && account.hash.as_str().is_empty() {
                    return refuse(message(state, "premium.nopass"));
                }
                let mut account = account;
                account.premium_id = if self.enable {
                    Some(account.uuid.clone())
                } else {
                    None
                };
                match state.store.save_account(&account) {
                    Err(_) => refuse_store(),
                    Ok(()) => {
                        let done = if self.enable {
                            join3("Premium enabled for ", account.name.as_str(), ".")
                        } else {
                            join3("Premium disabled for ", account.name.as_str(), ".")
                        };
                        Step::Save(Pending::Change { done })
                    },
                }
            },
        }
    }
}

/// What a forced login does.
pub open spec fn force_login(m: AppModel, name: Option<Seq<char>>) -> (AppModel, StepModel) {
    match name {
        None => (m, refused("Usage: /forcelogin <name>"@)),
        Some(name) => {
            let n = lowercase(name);
            if lookup_refusal(m, n) is Some {
                (m, refused(lookup_refusal(m, n)->0))
            } else {
                (let_in(m, n, None), granted("Force-logged in "@ + name + "."@))
            }
        },
    }
}

/// `/forcelogin <name>`
pub struct ForceLoginHandler;

impl ForceLoginHandler {
    /// Marks a registered player as logged in.
    pub fn handle(state: &mut AppState, name: Option<&str>) -> (r: Step)
        ensures
            (final(state)@, r@) == force_login(old(state)@, arg(name)),
    {
        let target = match name {
            Some(target) => target,
            None => {
                return refuse("Usage: /forcelogin <name>".to_owned());
            },
        };
        let normalized = normalize_name(target);
        match lookup_or_report(state, normalized.as_str()) {
            Err(text) => refuse(text),
            Ok(_) => {
                state.authed.insert(normalized);
                grant(join3("Force-logged in ", target, "."))
            },
        }
    }
}

} // verus!
