//! Accounts and remembered logins.
//!
//! The store is a pair of tables keyed by the lowercase of the player's name. Writing them to disk
//! is left to the caller, who does it after each change.

use crate::table::Table;
use crate::text::{join3, lowercase, to_lower};
use vstd::prelude::*;

verus! {

/// A registered player.
#[derive(Debug)]
pub struct Account {
    pub name: String,
    pub uuid: String,
    /// The Mojang id, if the account is premium.
    pub premium_id: Option<String>,
    /// The password hash; empty if the account has no password.
    pub hash: String,
    pub last_ip: String,
    pub last_seen: i64,
    pub created: i64,
}

/// A remembered login.
#[derive(Debug)]
pub struct Session {
    pub name: String,
    pub ip: String,
    pub expires_at: u64,
}

/// The mathematical content of an account.
#[verifier::ext_equal]
pub struct AccountModel {
    pub name: Seq<char>,
    pub uuid: Seq<char>,
    pub premium_id: Option<Seq<char>>,
    pub hash: Seq<char>,
    pub last_ip: Seq<char>,
    pub last_seen: i64,
    pub created: i64,
}

/// The mathematical content of a session.
#[verifier::ext_equal]
pub struct SessionModel {
    pub name: Seq<char>,
    pub ip: Seq<char>,
    pub expires_at: u64,
}

/// The content of an optional text.
pub open spec fn opt_text(o: Option<String>) -> Option<Seq<char>> {
    match o {
        Some(s) => Some(s@),
        None => None,
    }
}

impl View for Account {
    type V = AccountModel;

    open spec fn view(&self) -> AccountModel {
        AccountModel {
            name: self.name@,
            uuid: self.uuid@,
            premium_id: opt_text(self.premium_id),
            hash: self.hash@,
            last_ip: self.last_ip@,
            last_seen: self.last_seen,
            created: self.created,
        }
    }
}

impl View for Session {
    type V = SessionModel;

    open spec fn view(&self) -> SessionModel {
        SessionModel { name: self.name@, ip: self.ip@, expires_at: self.expires_at }
    }
}

impl Clone for Account {
    fn clone(&self) -> (r: Self)
        ensures
            r@ == self@,
    {
        Account {
            name: self.name.clone(),
            uuid: self.uuid.clone(),
            premium_id: match &self.premium_id {
                Some(id) => Some(id.clone()),
                None => None,
            },
            hash: self.hash.clone(),
            last_ip: self.last_ip.clone(),
            last_seen: self.last_seen,
            created: self.created,
        }
    }
}

impl Clone for Session {
    fn clone(&self) -> (r: Self)
        ensures
            r@ == self@,
    {
        Session { name: self.name.clone(), ip: self.ip.clone(), expires_at: self.expires_at }
    }
}

/// What a store file holds.
pub struct StoreData {
    pub accounts: Table<Account>,
    pub sessions: Table<Session>,
}

/// Accounts and sessions by player.
pub struct AuthStore {
    data: StoreData,
    poisoned: bool,
}

/// The mathematical content of a store. A poisoned store answers every request with an error.
#[verifier::ext_equal]
pub struct StoreModel {
    pub accounts: Map<Seq<char>, AccountModel>,
    pub sessions: Map<Seq<char>, SessionModel>,
    pub poisoned: bool,
}

impl View for AuthStore {
    type V = StoreModel;

    closed spec fn view(&self) -> StoreModel {
        StoreModel {
            accounts: self.data.accounts@,
            sessions: self.data.sessions@,
            poisoned: self.poisoned,
        }
    }
}

/// The error of a poisoned store.
pub open spec fn lock_error() -> Seq<char> {
    "store lock poisoned"@
}

/// A store without accounts and sessions.
pub open spec fn empty_store() -> StoreModel {
    StoreModel { accounts: Map::empty(), sessions: Map::empty(), poisoned: false }
}

/// The store that a file with these tables holds.
pub open spec fn stored(
    accounts: Map<Seq<char>, AccountModel>,
    sessions: Map<Seq<char>, SessionModel>,
) -> StoreModel {
    StoreModel { accounts, sessions, poisoned: false }
}

/// The answer to a request for an account.
pub open spec fn account_answer(r: Result<Option<Account>, String>) -> Result<
    Option<AccountModel>,
    Seq<char>,
> {
    match r {
        Ok(Some(a)) => Ok(Some(a@)),
        Ok(None) => Ok(None),
        Err(e) => Err(e@),
    }
}

/// The answer to a request for a session.
pub open spec fn session_answer(r: Result<Option<Session>, String>) -> Result<
    Option<SessionModel>,
    Seq<char>,
> {
    match r {
        Ok(Some(s)) => Ok(Some(s@)),
        Ok(None) => Ok(None),
        Err(e) => Err(e@),
    }
}

/// The answer to a change.
pub open spec fn change_answer(r: Result<(), String>) -> Result<(), Seq<char>> {
    match r {
        Ok(()) => Ok(()),
        Err(e) => Err(e@),
    }
}

impl StoreModel {
    /// The account of a player.
    pub open spec fn find_account(self, name: Seq<char>) -> Result<
        Option<AccountModel>,
        Seq<char>,
    > {
        if self.poisoned {
            Err(lock_error())
        } else if self.accounts.contains_key(lowercase(name)) {
            Ok(Some(self.accounts[lowercase(name)]))
        } else {
            Ok(None)
        }
    }

    /// The session of a player.
    pub open spec fn find_session(self, name: Seq<char>) -> Result<
        Option<SessionModel>,
        Seq<char>,
    > {
        if self.poisoned {
            Err(lock_error())
        } else if self.sessions.contains_key(lowercase(name)) {
            Ok(Some(self.sessions[lowercase(name)]))
        } else {
            Ok(None)
        }
    }

    /// Whether a change is carried out.
    pub open spec fn writable(self) -> Result<(), Seq<char>> {
        if self.poisoned {
            Err(lock_error())
        } else {
            Ok(())
        }
    }

    /// The store with an account saved.
    pub open spec fn with_account(self, acct: AccountModel) -> StoreModel {
        if self.poisoned {
            self
        } else {
            StoreModel { accounts: self.accounts.insert(lowercase(acct.name), acct), ..self }
        }
    }

    /// The store without the account of a player.
    pub open spec fn without_account(self, name: Seq<char>) -> StoreModel {
        if self.poisoned {
            self
        } else {
            StoreModel { accounts: self.accounts.remove(lowercase(name)), ..self }
        }
    }

    /// The store with a session saved.
    pub open spec fn with_session(self, s: SessionModel) -> StoreModel {
        if self.poisoned {
            self
        } else {
            StoreModel { sessions: self.sessions.insert(lowercase(s.name), s), ..self }
        }
    }

    /// The store without the session of a player.
    pub open spec fn without_session(self, name: Seq<char>) -> StoreModel {
        if self.poisoned {
            self
        } else {
            StoreModel { sessions: self.sessions.remove(lowercase(name)), ..self }
        }
    }
}

impl AuthStore {
    /// A store with no backing file.
    pub fn open_in_memory() -> (r: Self)
        ensures
            r@ == empty_store(),
    {
        AuthStore {
            data: StoreData { accounts: Table::new(), sessions: Table::new() },
            poisoned: false,
        }
    }

    /// The store for the file at `path`, given what reading it brought: nothing if there is no such
    /// file, else its content or the reason why it could not be parsed. A corrupt file is an error:
    /// it is never taken for an empty store.
    pub fn open(path: &str, content: Option<Result<StoreData, String>>) -> (r: Result<Self, String>)
        ensures
            match content {
                None => r matches Ok(s) && s@ == empty_store(),
                Some(Ok(data)) => r matches Ok(s) && s@ == stored(data.accounts@, data.sessions@),
                Some(Err(why)) => r matches Err(e) && e@ == "store file "@ + path@
                    + " is corrupt: "@ + why@,
            },
    {
        match content {
            None => Ok(AuthStore::open_in_memory()),
            Some(Ok(data)) => Ok(AuthStore { data, poisoned: false }),
            Some(Err(why)) => Err(
                join3("store file ", path, " is corrupt: ").concat(why.as_str()),
            ),
        }
    }

    /// The content to write to the store file.
    pub fn data(&self) -> (r: &StoreData)
        ensures
            r.accounts@ == self@.accounts,
            r.sessions@ == self@.sessions,
    {
        &self.data
    }

    /// Records that a holder of the store failed while changing it. From then on every request is
    /// answered with an error.
    pub fn poison(&mut self)
        ensures
            final(self)@ == (StoreModel { poisoned: true, ..old(self)@ }),
    {
        self.poisoned = true;
    }

    /// Refuses access to a poisoned store.
    fn lock(&self) -> (r: Result<(), String>)
        ensures
            change_answer(r) == self@.writable(),
    {
        if self.poisoned {
            Err("store lock poisoned".to_owned())
        } else {
            Ok(())
        }
    }

    /// The account of the player `name`, in any case.
    pub fn get_account(&self, name: &str) -> (r: Result<Option<Account>, String>)
        ensures
            account_answer(r) == self@.find_account(name@),
    {
        let key = to_lower(name);
        self.lock()?;
        match self.data.accounts.get(key.as_str()) {
            Some(a) => Ok(Some(a.clone())),
            None => Ok(None),
        }
    }

    /// Saves an account, in place of an account saved for that player before.
    pub fn save_account(&mut self, acct: &Account) -> (r: Result<(), String>)
        ensures
            final(self)@ == old(self)@.with_account(acct@),
            change_answer(r) == old(self)@.writable(),
    {
        self.lock()?;
        let key = to_lower(acct.name.as_str());
        self.data.accounts.insert(key, acct.clone());
        Ok(())
    }

    /// Deletes the account of the player `name`, if there is one.
    pub fn delete_account(&mut self, name: &str) -> (r: Result<(), String>)
        ensures
            final(self)@ == old(self)@.without_account(name@),
            change_answer(r) == old(self)@.writable(),
    {
        self.lock()?;
        let key = to_lower(name);
        self.data.accounts.remove(key.as_str());
        Ok(())
    }

    /// The session of the player `name`, in any case.
    pub fn get_session(&self, name: &str) -> (r: Result<Option<Session>, String>)
        ensures
            session_answer(r) == self@.find_session(name@),
    {
        let key = to_lower(name);
        self.lock()?;
        match self.data.sessions.get(key.as_str()) {
            Some(s) => Ok(Some(s.clone())),
            None => Ok(None),
        }
    }

    /// Saves a session, in place of a session saved for that player before.
    pub fn set_session(&mut self, s: &Session) -> (r: Result<(), String>)
        ensures
            final(self)@ == old(self)@.with_session(s@),
            change_answer(r) == old(self)@.writable(),
    {
        self.lock()?;
        let key = to_lower(s.name.as_str());
        self.data.sessions.insert(key, s.clone());
        Ok(())
    }

    /// Deletes the session of the player `name`, if there is one.
    pub fn clear_session(&mut self, name: &str) -> (r: Result<(), String>)
        ensures
            final(self)@ == old(self)@.without_session(name@),
            change_answer(r) == old(self)@.writable(),
    {
        self.lock()?;
        let key = to_lower(name);
        self.data.sessions.remove(key.as_str());
        Ok(())
    }
}

/// A read gives back what the last write for that player wrote, in any case of the name, and a
/// write for one player leaves the others as they were.
pub proof fn account_read_after_write(s: StoreModel, acct: AccountModel, name: Seq<char>)
    requires
        !s.poisoned,
    ensures
        lowercase(name) == lowercase(acct.name) ==> s.with_account(acct).find_account(name) == Ok::<
            Option<AccountModel>,
            Seq<char>,
        >(Some(acct)),
        lowercase(name) != lowercase(acct.name) ==> s.with_account(acct).find_account(name)
            == s.find_account(name),
        s.with_account(acct).find_session(name) == s.find_session(name),
{
}

/// A deleted account is gone, in any case of the name, and the others are as they were.
pub proof fn account_read_after_delete(s: StoreModel, gone: Seq<char>, name: Seq<char>)
    requires
        !s.poisoned,
    ensures
        lowercase(name) == lowercase(gone) ==> s.without_account(gone).find_account(name) == Ok::<
            Option<AccountModel>,
            Seq<char>,
        >(None),
        lowercase(name) != lowercase(gone) ==> s.without_account(gone).find_account(name)
            == s.find_account(name),
        s.without_account(gone).find_session(name) == s.find_session(name),
{
}

/// A read gives back the session that the last write for that player wrote, and a write for one
/// player leaves the others and all accounts as they were.
pub proof fn session_read_after_write(s: StoreModel, sess: SessionModel, name: Seq<char>)
    requires
        !s.poisoned,
    ensures
        lowercase(name) == lowercase(sess.name) ==> s.with_session(sess).find_session(name) == Ok::<
            Option<SessionModel>,
            Seq<char>,
        >(Some(sess)),
        lowercase(name) != lowercase(sess.name) ==> s.with_session(sess).find_session(name)
            == s.find_session(name),
        s.with_session(sess).find_account(name) == s.find_account(name),
{
}

/// A cleared session is gone, and the others and all accounts are as they were.
pub proof fn session_read_after_clear(s: StoreModel, gone: Seq<char>, name: Seq<char>)
    requires
        !s.poisoned,
    ensures
        lowercase(name) == lowercase(gone) ==> s.without_session(gone).find_session(name) == Ok::<
            Option<SessionModel>,
            Seq<char>,
        >(None),
        lowercase(name) != lowercase(gone) ==> s.without_session(gone).find_session(name)
            == s.find_session(name),
        s.without_session(gone).find_account(name) == s.find_account(name),
{
}

/// A store that is opened again on the tables that it was written with answers every request as it
/// did before.
pub proof fn reopened_store_answers_alike(s: StoreModel, data: StoreData, name: Seq<char>)
    requires
        !s.poisoned,
        data.accounts@ == s.accounts,
        data.sessions@ == s.sessions,
    ensures
        stored(data.accounts@, data.sessions@).find_account(name) == s.find_account(name),
        stored(data.accounts@, data.sessions@).find_session(name) == s.find_session(name),
        stored(data.accounts@, data.sessions@) == s,
{
}

/// A store that was opened without a file knows nobody, and neither does one that is opened again on
/// its tables.
pub proof fn fresh_store_knows_nobody(name: Seq<char>)
    ensures
        empty_store().find_account(name) == Ok::<Option<AccountModel>, Seq<char>>(None),
        empty_store().find_session(name) == Ok::<Option<SessionModel>, Seq<char>>(None),
        stored(empty_store().accounts, empty_store().sessions) == empty_store(),
{
}

/// A poisoned store answers every request with an error and is never changed.
pub proof fn poisoned_store_fails_closed(
    s: StoreModel,
    acct: AccountModel,
    sess: SessionModel,
    name: Seq<char>,
)
    requires
        s.poisoned,
    ensures
        s.find_account(name) is Err,
        s.find_session(name) is Err,
        s.writable() is Err,
        s.with_account(acct) == s,
        s.without_account(name) == s,
        s.with_session(sess) == s,
        s.without_session(name) == s,
{
}

/// Whether every account stands under the lowercase of its own name, and every session too.
pub open spec fn keyed_by_name(s: StoreModel) -> bool {
    &&& forall|k: Seq<char>| #[trigger]
        s.accounts.contains_key(k) ==> lowercase(s.accounts[k].name) == k
    &&& forall|k: Seq<char>| #[trigger]
        s.sessions.contains_key(k) ==> lowercase(s.sessions[k].name) == k
}

/// Every operation keeps accounts and sessions under the lowercase of their names.
pub proof fn operations_keep_keys(
    s: StoreModel,
    acct: AccountModel,
    sess: SessionModel,
    name: Seq<char>,
)
    requires
        keyed_by_name(s),
    ensures
        keyed_by_name(empty_store()),
        keyed_by_name(s.with_account(acct)),
        keyed_by_name(s.without_account(name)),
        keyed_by_name(s.with_session(sess)),
        keyed_by_name(s.without_session(name)),
{
}

/// A lookup finds exactly what the tables hold under the lowercase name, and fails exactly if the
/// store is poisoned.
pub proof fn lookups_read_the_tables(s: StoreModel, name: Seq<char>)
    ensures
        s.find_account(name) is Err <==> s.poisoned,
        s.find_session(name) is Err <==> s.poisoned,
        s.writable() is Err <==> s.poisoned,
        !s.poisoned ==> {
            &&& s.find_account(name)->Ok_0 is Some <==> s.accounts.contains_key(lowercase(name))
            &&& s.find_session(name)->Ok_0 is Some <==> s.sessions.contains_key(lowercase(name))
            &&& s.accounts.contains_key(lowercase(name)) ==> s.find_account(name)->Ok_0->0
                == s.accounts[lowercase(name)]
            &&& s.sessions.contains_key(lowercase(name)) ==> s.find_session(name)->Ok_0->0
                == s.sessions[lowercase(name)]
        },
{
}

/// A change touches the entry of its player in its own table, and nothing else.
pub proof fn changes_touch_one_entry(
    s: StoreModel,
    acct: AccountModel,
    sess: SessionModel,
    name: Seq<char>,
)
    requires
        !s.poisoned,
    ensures
        s.with_account(acct).accounts == s.accounts.insert(lowercase(acct.name), acct),
        s.without_account(name).accounts == s.accounts.remove(lowercase(name)),
        s.with_session(sess).sessions == s.sessions.insert(lowercase(sess.name), sess),
        s.without_session(name).sessions == s.sessions.remove(lowercase(name)),
        s.with_account(acct).sessions == s.sessions,
        s.without_account(name).sessions == s.sessions,
        s.with_session(sess).accounts == s.accounts,
        s.without_session(name).accounts == s.accounts,
        !s.with_account(acct).poisoned && !s.without_account(name).poisoned,
        !s.with_session(sess).poisoned && !s.without_session(name).poisoned,
{
}

/// The models of accounts, sessions and answers show every field.
pub proof fn storage_models_are_complete(
    a: Account,
    s: Session,
    accounts: Result<Option<Account>, String>,
    sessions: Result<Option<Session>, String>,
    change: Result<(), String>,
    text: Option<String>,
)
    ensures
        a@.name == a.name@ && a@.uuid == a.uuid@ && a@.hash == a.hash@ && a@.last_ip == a.last_ip@,
        a@.premium_id is Some <==> a.premium_id is Some,
        a.premium_id matches Some(id) ==> a@.premium_id == Some(id@),
        a@.last_seen == a.last_seen && a@.created == a.created,
        s@.name == s.name@ && s@.ip == s.ip@ && s@.expires_at == s.expires_at,
        accounts matches Ok(Some(x)) ==> account_answer(accounts) == Ok::<
            Option<AccountModel>,
            Seq<char>,
        >(Some(x@)),
        accounts matches Ok(None) ==> account_answer(accounts) == Ok::<
            Option<AccountModel>,
            Seq<char>,
        >(None),
        accounts matches Err(e) ==> account_answer(accounts) == Err::<
            Option<AccountModel>,
            Seq<char>,
        >(e@),
        sessions matches Ok(Some(x)) ==> session_answer(sessions) == Ok::<
            Option<SessionModel>,
            Seq<char>,
        >(Some(x@)),
        sessions matches Ok(None) ==> session_answer(sessions) == Ok::<
            Option<SessionModel>,
            Seq<char>,
        >(None),
        sessions matches Err(e) ==> session_answer(sessions) == Err::<
            Option<SessionModel>,
            Seq<char>,
        >(e@),
        change is Ok <==> change_answer(change) is Ok,
        change matches Err(e) ==> change_answer(change) == Err::<(), Seq<char>>(e@),
        text is Some <==> opt_text(text) is Some,
        text matches Some(t) ==> opt_text(text) == Some(t@),
{
}

} // verus!
