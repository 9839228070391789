//! The state that handlers and commands share.

use crate::config::{ConfigModel, PluginConfig};
use crate::premium::{CacheModel, PremiumCache};
use crate::storage::{AuthStore, StoreModel};
use vstd::hash_map::StringHashMap;
use vstd::hash_set::StringHashSet;
use vstd::prelude::*;

verus! {

/// The shared state. Players are known by their lowercase names.
pub struct AppState {
    pub store: AuthStore,
    pub cfg: PluginConfig,
    /// Players who are authenticated.
    pub authed: StringHashSet,
    /// Failed logins by address.
    pub failures: StringHashMap<u32>,
    /// Since when connected players have been asked to authenticate.
    pub joined_at: StringHashMap<u64>,
    pub premium: PremiumCache,
}

/// The mathematical content of the shared state.
#[verifier::ext_equal]
pub struct AppModel {
    pub store: StoreModel,
    pub cfg: ConfigModel,
    pub authed: Set<Seq<char>>,
    pub failures: Map<Seq<char>, u32>,
    pub joined_at: Map<Seq<char>, u64>,
    pub premium: CacheModel,
}

impl View for AppState {
    type V = AppModel;

    open spec fn view(&self) -> AppModel {
        AppModel {
            store: self.store@,
            cfg: self.cfg@,
            authed: self.authed@,
            failures: self.failures@,
            joined_at: self.joined_at@,
            premium: self.premium@,
        }
    }
}

/// The state after loading, before anybody has joined.
pub open spec fn initial_state(store: StoreModel, cfg: ConfigModel) -> AppModel {
    AppModel {
        store,
        cfg,
        authed: Set::empty(),
        failures: Map::empty(),
        joined_at: Map::empty(),
        premium: CacheModel {
            ttl: (cfg.premium_cache_minutes * 60) as u64,
            verdicts: Map::empty(),
        },
    }
}

impl AppState {
    /// The state after loading, before anybody has joined.
    pub fn new(store: AuthStore, cfg: PluginConfig) -> (r: Self)
        requires
            cfg@.premium_cache_minutes * 60 <= u64::MAX,
        ensures
            r@ == initial_state(store@, cfg@),
    {
        let ttl: u64 = cfg.premium_cache_minutes * 60;
        AppState {
            store,
            cfg,
            authed: StringHashSet::new(),
            failures: StringHashMap::new(),
            joined_at: StringHashMap::new(),
            premium: PremiumCache::new(ttl),
        }
    }
}

/// The model of the shared state shows all of it.
pub proof fn state_model_is_complete(s: AppState)
    ensures
        s@.store == s.store@,
        s@.cfg == s.cfg@,
        s@.authed == s.authed@,
        s@.failures == s.failures@,
        s@.joined_at == s.joined_at@,
        s@.premium == s.premium@,
{
}

/// After loading nobody is authenticated, frozen or on record, no verdict is remembered, and verdicts
/// live for the configured number of minutes.
pub proof fn loading_starts_with_nobody(store: StoreModel, cfg: ConfigModel, name: Seq<char>)
    requires
        cfg.premium_cache_minutes * 60 <= u64::MAX,
    ensures
        ({
            let m = initial_state(store, cfg);
            &&& m.store == store && m.cfg == cfg
            &&& !m.authed.contains(name)
            &&& !m.failures.contains_key(name)
            &&& !m.joined_at.contains_key(name)
            &&& !m.premium.verdicts.contains_key(name)
            &&& m.premium.ttl == cfg.premium_cache_minutes * 60
        }),
{
}

} // verus!
