use gln_auth::storage::{Account, AuthStore, Session, StoreData};
use gln_auth::table::Table;

fn steve() -> Account {
    Account {
        name: "steve".into(),
        uuid: "uuid-1".into(),
        premium_id: None,
        hash: "h".into(),
        last_ip: "1.2.3.4".into(),
        last_seen: 1,
        created: 1,
    }
}

#[test]
fn account_and_session_roundtrip() {
    let mut store = AuthStore::open("auth.json", None).expect("open");
    let acct = steve();
    store.save_account(&acct).expect("save");
    assert_eq!(store.get_account("STEVE").unwrap().unwrap().uuid, "uuid-1");
    store
        .set_session(&Session {
            name: "steve".into(),
            ip: "1.2.3.4".into(),
            expires_at: 999,
        })
        .unwrap();
    assert_eq!(store.get_session("steve").unwrap().unwrap().ip, "1.2.3.4");
    store.clear_session("steve").unwrap();
    assert!(store.get_session("steve").unwrap().is_none());
}

#[test]
fn corrupt_content_fails_closed() {
    let opened = AuthStore::open("auth.json", Some(Err("expected value".to_string())));
    assert_eq!(
        opened.err(),
        Some("store file auth.json is corrupt: expected value".to_string())
    );
}

#[test]
fn stored_content_is_restored() {
    let mut accounts: Table<Account> = Table::new();
    accounts.insert("steve".to_string(), steve());
    let data = StoreData { accounts, sessions: Table::new() };
    let store = AuthStore::open("auth.json", Some(Ok(data))).unwrap();
    assert_eq!(store.get_account("Steve").unwrap().unwrap().hash, "h");
    assert!(store.get_account("alex").unwrap().is_none());
    assert_eq!(store.data().accounts.len(), 1);
    assert_eq!(store.data().sessions.len(), 0);
    let (key, account) = store.data().accounts.entry(0);
    assert_eq!(key, "steve");
    assert_eq!(account.last_ip, "1.2.3.4");
}

#[test]
fn reopened_store_answers_alike() {
    let mut store = AuthStore::open_in_memory();
    store.save_account(&steve()).unwrap();
    let s = Session { name: "Steve".into(), ip: "1.2.3.4".into(), expires_at: 9 };
    store.set_session(&s).unwrap();
    let mut accounts: Table<Account> = Table::new();
    let mut sessions: Table<Session> = Table::new();
    for i in 0..store.data().accounts.len() {
        let (key, account) = store.data().accounts.entry(i);
        accounts.insert(key.clone(), account.clone());
    }
    for i in 0..store.data().sessions.len() {
        let (key, session) = store.data().sessions.entry(i);
        sessions.insert(key.clone(), session.clone());
    }
    let again = AuthStore::open("auth.json", Some(Ok(StoreData { accounts, sessions }))).unwrap();
    for name in ["steve", "STEVE", "alex"] {
        assert_eq!(
            format!("{:?}", again.get_account(name)),
            format!("{:?}", store.get_account(name))
        );
        assert_eq!(
            format!("{:?}", again.get_session(name)),
            format!("{:?}", store.get_session(name))
        );
    }
}

#[test]
fn saving_replaces_and_deleting_removes() {
    let mut store = AuthStore::open_in_memory();
    store.save_account(&steve()).unwrap();
    let mut other = steve();
    other.name = "STEVE".into();
    other.uuid = "uuid-2".into();
    store.save_account(&other).unwrap();
    assert_eq!(store.get_account("steve").unwrap().unwrap().uuid, "uuid-2");
    assert_eq!(store.data().accounts.len(), 1);
    let mut alex = steve();
    alex.name = "alex".into();
    store.save_account(&alex).unwrap();
    store.delete_account("StEvE").unwrap();
    assert!(store.get_account("steve").unwrap().is_none());
    assert!(store.get_account("alex").unwrap().is_some());
    store.delete_account("nobody").unwrap();
    assert_eq!(store.data().accounts.len(), 1);
}

#[test]
fn poisoned_store_refuses_everything() {
    let mut store = AuthStore::open_in_memory();
    store.save_account(&steve()).unwrap();
    store.poison();
    let e = Err("store lock poisoned".to_string());
    assert_eq!(store.get_account("steve").err(), Some("store lock poisoned".to_string()));
    assert_eq!(store.get_session("steve").err(), Some("store lock poisoned".to_string()));
    assert_eq!(store.save_account(&steve()), e);
    assert_eq!(store.delete_account("steve"), e);
    assert_eq!(store.clear_session("steve"), e);
    let s = Session { name: "steve".into(), ip: "1.2.3.4".into(), expires_at: 1 };
    assert_eq!(store.set_session(&s), e);
    assert_eq!(store.data().accounts.len(), 1);
    assert_eq!(store.data().sessions.len(), 0);
}

#[test]
fn tables_keep_the_order_of_their_entries() {
    let mut t: Table<String> = Table::new();
    t.insert("a".to_string(), "1".to_string());
    t.insert("b".to_string(), "2".to_string());
    t.insert("c".to_string(), "3".to_string());
    t.insert("a".to_string(), "4".to_string());
    t.remove("b");
    assert_eq!(t.len(), 2);
    assert_eq!(t.entry(0), (&"a".to_string(), &"4".to_string()));
    assert_eq!(t.entry(1), (&"c".to_string(), &"3".to_string()));
    assert_eq!(t.get("b"), None);
    assert!(!t.contains_key("b"));
}
