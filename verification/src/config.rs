//! Plugin configuration.

use crate::messages::{default_messages, default_wording};
use crate::table::Table;
use crate::text::join3;
use vstd::prelude::*;

verus! {

/// The settings that an owner can change.
pub struct PluginConfig {
    /// Seconds that an unauthenticated player may stay.
    pub timeout_secs: u64,
    /// Minutes that a login is remembered.
    pub session_minutes: u64,
    /// Failed logins from one address before the player is kicked.
    pub max_login_tries: u32,
    /// Least password length in bytes.
    pub pw_min_len: usize,
    /// Greatest password length in bytes.
    pub pw_max_len: usize,
    /// The regular expression that new names must match.
    pub name_regex: String,
    /// Whether names may be looked up with Mojang.
    pub premium_check_enabled: bool,
    /// Minutes that a premium verdict is remembered.
    pub premium_cache_minutes: u64,
    /// Reworded messages, by message key.
    pub messages: Table<String>,
}

/// The mathematical content of a configuration.
#[verifier::ext_equal]
pub struct ConfigModel {
    pub timeout_secs: u64,
    pub session_minutes: u64,
    pub max_login_tries: u32,
    pub pw_min_len: usize,
    pub pw_max_len: usize,
    pub name_regex: Seq<char>,
    pub premium_check_enabled: bool,
    pub premium_cache_minutes: u64,
    pub messages: Map<Seq<char>, Seq<char>>,
}

impl View for PluginConfig {
    type V = ConfigModel;

    open spec fn view(&self) -> ConfigModel {
        ConfigModel {
            timeout_secs: self.timeout_secs,
            session_minutes: self.session_minutes,
            max_login_tries: self.max_login_tries,
            pw_min_len: self.pw_min_len,
            pw_max_len: self.pw_max_len,
            name_regex: self.name_regex@,
            premium_check_enabled: self.premium_check_enabled,
            premium_cache_minutes: self.premium_cache_minutes,
            messages: self.messages@,
        }
    }
}

impl ConfigModel {
    /// The wording of a message: the owner's, else the default one, else nothing.
    pub open spec fn message(self, key: Seq<char>) -> Seq<char> {
        if self.messages.contains_key(key) {
            self.messages[key]
        } else if default_wording().contains_key(key) {
            default_wording()[key]
        } else {
            Seq::empty()
        }
    }
}

/// The configuration of a fresh installation.
pub open spec fn default_config() -> ConfigModel {
    ConfigModel {
        timeout_secs: 120,
        session_minutes: 120,
        max_login_tries: 5,
        pw_min_len: 8,
        pw_max_len: 64,
        name_regex: "^[a-zA-Z0-9_]{3,16}$"@,
        premium_check_enabled: true,
        premium_cache_minutes: 45,
        messages: default_wording(),
    }
}

impl Default for PluginConfig {
    fn default() -> (r: Self)
        ensures
            r@ == default_config(),
    {
        PluginConfig {
            timeout_secs: 120,
            session_minutes: 120,
            max_login_tries: 5,
            pw_min_len: 8,
            pw_max_len: 64,
            name_regex: "^[a-zA-Z0-9_]{3,16}$".to_owned(),
            premium_check_enabled: true,
            premium_cache_minutes: 45,
            messages: default_messages(),
        }
    }
}

impl PluginConfig {
    /// The wording of the message with this key.
    pub fn message(&self, key: &str) -> (r: String)
        ensures
            r@ == self@.message(key@),
    {
        match self.messages.get(key) {
            Some(wording) => wording.clone(),
            None => match default_messages().get(key) {
                Some(wording) => wording.clone(),
                None => String::new(),
            },
        }
    }
}

/// The configuration, given what reading the file at `path` brought: nothing if there is no such
/// file, else its settings or the reason why they could not be parsed. Without a file the defaults
/// hold. A malformed file is an error: it is never taken for the defaults.
pub fn load_config(path: &str, content: Option<Result<PluginConfig, String>>) -> (r: Result<
    PluginConfig,
    String,
>)
    ensures
        match content {
            None => r matches Ok(cfg) && cfg@ == default_config(),
            Some(Ok(given)) => r matches Ok(cfg) && cfg@ == given@,
            Some(Err(why)) => r matches Err(e) && e@ == "config file "@ + path@
                + " is malformed: "@ + why@,
        },
{
    match content {
        None => Ok(PluginConfig::default()),
        Some(Ok(given)) => Ok(given),
        Some(Err(why)) => Err(
            join3("config file ", path, " is malformed: ").concat(why.as_str()),
        ),
    }
}

/// Rewording one message changes that message and no other.
pub proof fn rewording_is_local(c: ConfigModel, key: Seq<char>, wording: Seq<char>, other: Seq<char>)
    ensures
        ({
            let d = ConfigModel { messages: c.messages.insert(key, wording), ..c };
            &&& d.message(key) == wording
            &&& other != key ==> d.message(other) == c.message(other)
        }),
{
}

/// A message that the owner left out keeps its default wording, whatever else was reworded.
pub proof fn omitted_messages_keep_their_default(c: ConfigModel, key: Seq<char>)
    requires
        !c.messages.contains_key(key),
        default_wording().contains_key(key),
    ensures
        c.message(key) == default_wording()[key],
{
}

/// A message is worded as the owner has it, else as the table of defaults has it, and a message that
/// neither of them knows is empty.
pub proof fn wording_has_three_sources(c: ConfigModel, key: Seq<char>)
    ensures
        c.messages.contains_key(key) ==> c.message(key) == c.messages[key],
        !c.messages.contains_key(key) && default_wording().contains_key(key) ==> c.message(key)
            == default_wording()[key],
        !c.messages.contains_key(key) && !default_wording().contains_key(key) ==> c.message(
            key,
        ).len() == 0,
{
}

/// The model of a configuration shows every setting.
pub proof fn config_model_is_complete(c: PluginConfig)
    ensures
        c@.timeout_secs == c.timeout_secs,
        c@.session_minutes == c.session_minutes,
        c@.max_login_tries == c.max_login_tries,
        c@.pw_min_len == c.pw_min_len,
        c@.pw_max_len == c.pw_max_len,
        c@.name_regex == c.name_regex@,
        c@.premium_check_enabled == c.premium_check_enabled,
        c@.premium_cache_minutes == c.premium_cache_minutes,
        c@.messages == c.messages@,
{
}

} // verus!
