//! Names and passwords that are accepted.

use crate::config::{ConfigModel, PluginConfig};
use crate::text::{
    byte_len, chars_of, contains_text, decimal, decimal_text, lowercase, occurring_is_standing_between,
    occurs_in, to_lower,
};
use vstd::prelude::*;
use vstd::utf8::{encode_utf8, is_ascii_chars};

verus! {

/// The form of a name under which a player is known.
pub fn normalize_name(name: &str) -> (r: String)
    ensures
        r@ == lowercase(name@),
{
    to_lower(name)
}

/// Whether a character may stand in a name.
pub open spec fn name_char(c: char) -> bool {
    ||| 'a' <= c && c <= 'z'
    ||| 'A' <= c && c <= 'Z'
    ||| '0' <= c && c <= '9'
    ||| c == '_'
}

/// Whether every character of a text may stand in a name.
pub open spec fn name_chars(s: Seq<char>) -> bool {
    forall|i: int| 0 <= i < s.len() ==> name_char(#[trigger] s[i])
}

/// What is wrong with a name, if anything.
pub open spec fn name_error(name: Seq<char>) -> Option<Seq<char>> {
    if encode_utf8(name).len() < 3 || encode_utf8(name).len() > 16 {
        Some("Name must be 3-16 chars."@)
    } else if !name_chars(name) {
        Some("Name may only contain a-z A-Z 0-9 _."@)
    } else {
        None
    }
}

/// An error of the pattern compiler.
#[verifier::external_type_specification]
#[verifier::external_body]
pub struct ExPatternError(regex::Error);

/// Whether `Regex::is_match` finds a pattern in a text; `None` where `Regex::new` refuses the
/// pattern.
pub uninterp spec fn pattern_matches(pattern: Seq<char>, text: Seq<char>) -> Option<bool>;

/// Compiles a pattern with `Regex::new` and calls `Regex::is_match`. The result depends on the
/// pattern and the text alone.
#[verifier::external_body]
fn match_pattern(pattern: &str, text: &str) -> (r: Result<bool, regex::Error>)
    ensures
        match r {
            Ok(b) => pattern_matches(pattern@, text@) == Some(b),
            Err(_) => pattern_matches(pattern@, text@) is None,
        },
{
    regex::Regex::new(pattern).map(|re| re.is_match(text))
}

/// What is wrong with a name that was held against the configured pattern, if anything. A pattern
/// that does not compile is matched by no name.
pub open spec fn pattern_error(matched: Option<bool>) -> Option<Seq<char>> {
    if matched == Some(true) {
        None
    } else {
        Some("Name does not match the required pattern."@)
    }
}

/// What is wrong with the name of a new account, if anything: besides the fixed rules, it has to
/// match the configured pattern.
pub open spec fn new_name_error(name: Seq<char>, cfg: ConfigModel) -> Option<Seq<char>> {
    if name_error(name) is Some {
        name_error(name)
    } else {
        pattern_error(pattern_matches(cfg.name_regex, name))
    }
}

/// The outcome of a validation, as a model.
pub open spec fn outcome(r: Result<(), String>) -> Option<Seq<char>> {
    match r {
        Ok(()) => None,
        Err(e) => Some(e@),
    }
}

/// Decides whether a character may stand in a name.
fn is_name_char(c: char) -> (r: bool)
    ensures
        r == name_char(c),
{
    ('a' <= c && c <= 'z') || ('A' <= c && c <= 'Z') || ('0' <= c && c <= '9') || c == '_'
}

/// Accepts a name of 3 to 16 bytes made of ASCII letters, digits and underscores.
pub fn validate_name(name: &str) -> (r: Result<(), String>)
    ensures
        outcome(r) == name_error(name@),
{
    let n: usize = byte_len(name);
    if n < 3 || n > 16 {
        return Err("Name must be 3-16 chars.".to_owned());
    }
    let cs = chars_of(name);
    let mut i: usize = 0;
    while i < cs.len()
        invariant
            i <= cs@.len(),
            cs@ == name@,
            forall|j: int| 0 <= j < i ==> name_char(#[trigger] name@[j]),
            3 <= encode_utf8(name@).len() <= 16,
        decreases cs@.len() - i,
    {
        if !is_name_char(cs[i]) {
            assert(!name_char(name@[i as int]));
            return Err("Name may only contain a-z A-Z 0-9 _.".to_owned());
        }
        i = i + 1;
    }
    Ok(())
}

/// Accepts a name that was found to match the configured pattern.
pub fn judge_match(matched: Option<bool>) -> (r: Result<(), String>)
    ensures
        outcome(r) == pattern_error(matched),
{
    match matched {
        Some(true) => Ok(()),
        _ => Err("Name does not match the required pattern.".to_owned()),
    }
}

/// Accepts the name of a new account: one that follows the fixed rules and matches the configured
/// pattern.
pub fn validate_new_name(name: &str, cfg: &PluginConfig) -> (r: Result<(), String>)
    ensures
        outcome(r) == new_name_error(name@, cfg@),
{
    match validate_name(name) {
        Err(e) => Err(e),
        Ok(()) => match match_pattern(cfg.name_regex.as_str(), name) {
            Ok(b) => judge_match(Some(b)),
            Err(_) => judge_match(None),
        },
    }
}

/// The refusal of a password whose length is out of bounds.
pub open spec fn length_refusal(cfg: ConfigModel) -> Seq<char> {
    "Password must be "@ + decimal(cfg.pw_min_len as nat) + "-"@ + decimal(cfg.pw_max_len as nat)
        + " chars."@
}

/// What is wrong with a password for the player `name`, if anything.
pub open spec fn password_error(
    pw: Seq<char>,
    name: Seq<char>,
    cfg: ConfigModel,
) -> Option<Seq<char>> {
    if encode_utf8(pw).len() < cfg.pw_min_len || encode_utf8(pw).len() > cfg.pw_max_len {
        Some(length_refusal(cfg))
    } else if occurs_in(lowercase(name), lowercase(pw)) {
        Some("Password must not contain your name."@)
    } else {
        None
    }
}

/// Accepts a password whose length in bytes lies within the configured bounds and that does not
/// contain the player's name in any case.
pub fn validate_password(pw: &str, name: &str, cfg: &PluginConfig) -> (r: Result<(), String>)
    ensures
        outcome(r) == password_error(pw@, name@, cfg@),
{
    let n: usize = byte_len(pw);
    if n < cfg.pw_min_len || n > cfg.pw_max_len {
        let lo = decimal_text(cfg.pw_min_len as u64);
        let hi = decimal_text(cfg.pw_max_len as u64);
        let text = "Password must be ".to_owned().concat(lo.as_str()).concat("-").concat(
            hi.as_str(),
        ).concat(" chars.");
        return Err(text);
    }
    if contains_text(to_lower(pw).as_str(), to_lower(name).as_str()) {
        return Err("Password must not contain your name.".to_owned());
    }
    Ok(())
}

/// An accepted name is ASCII, so that lowercasing is stable on it.
pub proof fn accepted_names_are_ascii(name: Seq<char>)
    requires
        name_error(name) is None,
    ensures
        is_ascii_chars(name),
{
    assert forall|i: int| 0 <= i < name.len() implies '\0' <= #[trigger] name[i] <= '\u{7f}' by {
        assert(name_char(name[i]));
    }
}

/// A name is accepted exactly if it has 3 to 16 bytes and every character is an ASCII letter, a
/// digit or an underscore; a name of another length is refused for its length.
pub proof fn names_are_short_and_plain(name: Seq<char>)
    ensures
        name_error(name) is None <==> 3 <= encode_utf8(name).len() <= 16 && forall|i: int|
            0 <= i < name.len() ==> {
                let c = #[trigger] name[i];
                'a' <= c <= 'z' || 'A' <= c <= 'Z' || '0' <= c <= '9' || c == '_'
            },
        !(3 <= encode_utf8(name).len() <= 16) ==> name_error(name) == Some(
            "Name must be 3-16 chars."@,
        ),
        3 <= encode_utf8(name).len() <= 16 && name_error(name) is Some ==> name_error(name) == Some(
            "Name may only contain a-z A-Z 0-9 _."@,
        ),
{
    if name_error(name) is None {
        assert forall|i: int| 0 <= i < name.len() implies {
            let c = #[trigger] name[i];
            'a' <= c <= 'z' || 'A' <= c <= 'Z' || '0' <= c <= '9' || c == '_'
        } by {
            assert(name_char(name[i]));
        }
    }
    if forall|i: int|
        0 <= i < name.len() ==> {
            let c = #[trigger] name[i];
            'a' <= c <= 'z' || 'A' <= c <= 'Z' || '0' <= c <= '9' || c == '_'
        } {
        assert(name_chars(name));
    }
}

/// The name of a new account is accepted exactly if it is an accepted name and the configured
/// pattern was found in it.
pub proof fn new_names_match_the_pattern(name: Seq<char>, cfg: ConfigModel)
    ensures
        new_name_error(name, cfg) is None <==> name_error(name) is None && pattern_matches(
            cfg.name_regex,
            name,
        ) == Some(true),
        name_error(name) is Some ==> new_name_error(name, cfg) == name_error(name),
        name_error(name) is None && new_name_error(name, cfg) is Some ==> new_name_error(name, cfg)
            == Some("Name does not match the required pattern."@),
{
}

/// A matched pattern is the one thing that is accepted.
pub proof fn only_a_match_is_accepted(matched: Option<bool>)
    ensures
        pattern_error(matched) is None <==> matched == Some(true),
{
}

/// A password is accepted exactly if its bytes number at least the configured minimum and at most
/// the configured maximum and it does not hold the name, both taken in lowercase. A password of
/// another length is refused with the two bounds.
pub proof fn passwords_are_bounded_and_free_of_the_name(
    pw: Seq<char>,
    name: Seq<char>,
    cfg: ConfigModel,
)
    ensures
        password_error(pw, name, cfg) is None <==> {
            &&& cfg.pw_min_len <= encode_utf8(pw).len() <= cfg.pw_max_len
            &&& !exists|before: Seq<char>, after: Seq<char>|
                lowercase(pw) == #[trigger] (before + lowercase(name) + after)
        },
        !(cfg.pw_min_len <= encode_utf8(pw).len() <= cfg.pw_max_len) ==> password_error(
            pw,
            name,
            cfg,
        ) == Some(
            "Password must be "@ + decimal(cfg.pw_min_len as nat) + "-"@ + decimal(
                cfg.pw_max_len as nat,
            ) + " chars."@,
        ),
        cfg.pw_min_len <= encode_utf8(pw).len() <= cfg.pw_max_len && password_error(
            pw,
            name,
            cfg,
        ) is Some ==> password_error(pw, name, cfg) == Some(
            "Password must not contain your name."@,
        ),
{
    occurring_is_standing_between(lowercase(name), lowercase(pw));
}

/// The model of a validation shows whether it failed, and with which text.
pub proof fn outcome_is_complete(e: String)
    ensures
        outcome(Ok(())) is None,
        outcome(Err(e)) == Some(e@),
{
}

} // verus!
