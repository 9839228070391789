//! Password hashing with Argon2.
//!
//! A hash is a text in the PHC string format. It names the cost settings, the salt and the digest,
//! so that checking a password needs the hash alone.

use crate::text::starts_with;
use argon2::password_hash::rand_core::RngCore;
use argon2::{PasswordHasher, PasswordVerifier};
use vstd::prelude::*;
use vstd::utf8::encode_utf8;

verus! {

/// An error of the `password_hash` interface.
#[verifier::external_type_specification]
#[verifier::external_body]
pub struct ExPasswordHashError(argon2::password_hash::Error);

/// An error of the system's random number generator.
#[verifier::external_type_specification]
#[verifier::external_body]
pub struct ExRandError(argon2::password_hash::rand_core::Error);

/// Number of random bytes in a salt.
pub const SALT_LEN: usize = 16;

/// The B64 notation that `SaltString::encode_b64` gives to the bytes of a salt; `None` where it
/// refuses them.
pub uninterp spec fn salt_text(bytes: Seq<u8>) -> Option<Seq<char>>;

/// The PHC string that `Argon2::hash_password` makes of a password and a salt in B64 notation under
/// the default settings; `None` where it refuses them.
pub uninterp spec fn argon2_hash(password: Seq<char>, salt: Seq<char>) -> Option<Seq<char>>;

/// Whether `Argon2::verify_password` accepts a password for a PHC string.
pub uninterp spec fn argon2_accepts(hash: Seq<char>, password: Seq<char>) -> bool;

/// Whether a text is a PHC string with the default cost settings, by its beginning.
pub open spec fn default_cost(hash: Seq<char>) -> bool {
    "$argon2id$v=19$m=19456,t=2,p=1$"@.is_prefix_of(hash)
}

/// Calls `OsRng::try_fill_bytes` for `n` bytes. Only their number is claimed: the bytes, and
/// whether the system has any to give, rest on the machine.
#[verifier::external_body]
pub(crate) fn random_bytes(n: usize) -> (r: Result<Vec<u8>, argon2::password_hash::rand_core::Error>)
    requires
        n <= 1024,
    ensures
        r matches Ok(v) ==> v@.len() == n,
{
    let mut bytes = vec![0u8; n];
    argon2::password_hash::rand_core::OsRng.try_fill_bytes(&mut bytes).map(|_| bytes)
}

/// Calls `SaltString::encode_b64`. The result depends on the bytes alone, and bytes of the usual
/// number are not refused.
#[verifier::external_body]
fn encode_salt(bytes: &[u8]) -> (r: Result<String, argon2::password_hash::Error>)
    ensures
        match r {
            Ok(s) => salt_text(bytes@) == Some(s@),
            Err(_) => salt_text(bytes@) is None && bytes@.len() != SALT_LEN,
        },
{
    argon2::password_hash::SaltString::encode_b64(bytes).map(|s| s.as_str().to_string())
}

/// Whether a text is the B64 notation of a salt of the usual length.
pub open spec fn is_salt(text: Seq<char>) -> bool {
    exists|bytes: Seq<u8>| bytes.len() == SALT_LEN && #[trigger] salt_text(bytes) == Some(text)
}

/// Whether a password is short enough for Argon2.
pub open spec fn hashable(password: Seq<char>) -> bool {
    encode_utf8(password).len() <= 0xffff_ffff
}

/// Calls `Argon2::hash_password` with the default settings and writes the hash out as a PHC string.
/// The result depends on the password and the salt alone; it begins with the default cost settings,
/// and verification accepts the same password for it. A password that is short enough is not
/// refused with a salt of the usual length.
#[verifier::external_body]
fn run_hash(password: &str, salt: &str) -> (r: Result<String, argon2::password_hash::Error>)
    ensures
        match r {
            Ok(h) => argon2_hash(password@, salt@) == Some(h@) && default_cost(h@)
                && argon2_accepts(h@, password@),
            Err(_) => argon2_hash(password@, salt@) is None && !(is_salt(salt@) && hashable(
                password@,
            )),
        },
{
    let salt = argon2::password_hash::Salt::from_b64(salt)?;
    Ok(argon2::Argon2::default().hash_password(password.as_bytes(), salt)?.to_string())
}

/// Parses a PHC string with `PasswordHash::new` and calls `Argon2::verify_password`; a text that
/// does not parse accepts no password. The result depends on the two texts alone. Other cost
/// settings than the default ones are left out: some of them make the computation fail for want of
/// memory.
#[verifier::external_body]
fn run_verify(hash: &str, password: &str) -> (r: bool)
    requires
        default_cost(hash@),
    ensures
        r == argon2_accepts(hash@, password@),
{
    match argon2::PasswordHash::new(hash) {
        Ok(parsed) => argon2::Argon2::default().verify_password(password.as_bytes(), &parsed).is_ok(),
        Err(_) => false,
    }
}

/// Why no hash was made.
#[derive(Debug)]
pub enum HashError {
    /// The system gave no random bytes.
    NoEntropy,
    /// The salt was refused.
    Salt,
    /// The password was refused.
    Password,
}

/// The content of a hashing result.
pub open spec fn hash_result(r: Result<String, HashError>) -> Result<Seq<char>, HashError> {
    match r {
        Ok(h) => Ok(h@),
        Err(e) => Err(e),
    }
}

/// The hash of a password under a given salt.
pub open spec fn salted_hash(password: Seq<char>, salt: Seq<u8>) -> Result<Seq<char>, HashError> {
    match salt_text(salt) {
        None => Err(HashError::Salt),
        Some(text) => match argon2_hash(password, text) {
            None => Err(HashError::Password),
            Some(h) => Ok(h),
        },
    }
}

/// Whether a text is a hash that accepts this password.
pub open spec fn password_matches(hash: Seq<char>, password: Seq<char>) -> bool {
    default_cost(hash) && argon2_accepts(hash, password)
}

/// Hashes a password under a given salt. The hash accepts that password. With a salt of the usual
/// length every password is hashed that is short enough.
pub fn hash_with_salt(password: &str, salt: &[u8]) -> (r: Result<String, HashError>)
    ensures
        hash_result(r) == salted_hash(password@, salt@),
        r matches Ok(h) ==> password_matches(h@, password@),
        salt@.len() == SALT_LEN && hashable(password@) ==> r is Ok,
{
    match encode_salt(salt) {
        Err(_) => Err(HashError::Salt),
        Ok(text) => match run_hash(password, text.as_str()) {
            Err(_) => Err(HashError::Password),
            Ok(h) => Ok(h),
        },
    }
}

/// Whether the system gave this draw when it was asked for a salt: random bytes, or none.
pub closed spec fn drawn(draw: Option<Seq<u8>>) -> bool {
    exists|r: Result<Vec<u8>, argon2::password_hash::rand_core::Error>|
        {
            &&& #[trigger] call_ensures(random_bytes, (SALT_LEN,), r)
            &&& draw == match r {
                Ok(bytes) => Some(bytes@),
                Err(_) => None,
            }
        }
}

/// What hashing a password makes of a draw.
pub open spec fn hash_of_draw(password: Seq<char>, draw: Option<Seq<u8>>) -> Result<
    Seq<char>,
    HashError,
> {
    match draw {
        None => Err(HashError::NoEntropy),
        Some(salt) => salted_hash(password, salt),
    }
}

/// Whether `r` comes of hashing `password` under a fresh salt: the system gave a draw, and `r` is
/// the hash under it.
pub open spec fn fresh_hash(password: Seq<char>, r: Result<Seq<char>, HashError>) -> bool {
    &&& exists|draw: Option<Seq<u8>>|
        {
            &&& #[trigger] drawn(draw)
            &&& draw matches Some(salt) ==> salt.len() == SALT_LEN
            &&& r == hash_of_draw(password, draw)
        }
    &&& r matches Ok(h) ==> password_matches(h, password)
    &&& hashable(password) && r is Err ==> r->Err_0 is NoEntropy
}

/// Hashes a password under a fresh random salt. The hash accepts that password. Whether the system
/// gives random bytes, and which, rests on the machine; nothing else stops a password from being
/// hashed that is short enough.
pub fn hash_password(password: &str) -> (r: Result<String, HashError>)
    ensures
        fresh_hash(password@, hash_result(r)),
{
    let draw = random_bytes(SALT_LEN);
    match draw {
        Err(_) => {
            assert(drawn(None));
            Err(HashError::NoEntropy)
        },
        Ok(salt) => {
            assert(drawn(Some(salt@)));
            hash_with_salt(password, salt.as_slice())
        },
    }
}

/// Decides whether a stored hash accepts a password. A text that is no hash, such as the empty one
/// of an account without password, accepts none.
pub fn verify_password(hash: &str, password: &str) -> (r: bool)
    ensures
        r == password_matches(hash@, password@),
{
    starts_with(hash, "$argon2id$v=19$m=19456,t=2,p=1$") && run_verify(hash, password)
}

/// An account without password accepts no password.
pub proof fn empty_hash_accepts_nothing(password: Seq<char>)
    ensures
        !password_matches(Seq::empty(), password),
{
    reveal_strlit("$argon2id$v=19$m=19456,t=2,p=1$");
}

/// A hash that accepts a password is not empty.
pub proof fn accepting_hash_is_not_empty(hash: Seq<char>, password: Seq<char>)
    requires
        password_matches(hash, password),
    ensures
        hash.len() > 0,
{
    reveal_strlit("$argon2id$v=19$m=19456,t=2,p=1$");
}

/// A stored text accepts a password exactly if it is an Argon2 hash with the default cost settings
/// for which verification accepts that password.
pub proof fn only_argon2_accepts(hash: Seq<char>, password: Seq<char>)
    ensures
        password_matches(hash, password) <==> argon2_accepts(hash, password)
            && "$argon2id$v=19$m=19456,t=2,p=1$"@.is_prefix_of(hash),
{
}

/// A hash under a salt is what Argon2 makes of the password and the salt's notation, and without
/// one of the two there is none.
pub proof fn salted_hash_comes_from_argon2(password: Seq<char>, salt: Seq<u8>, h: Seq<char>)
    ensures
        salted_hash(password, salt) == Ok::<Seq<char>, HashError>(h) <==> exists|text: Seq<char>|
            salt_text(salt) == Some(text) && #[trigger] argon2_hash(password, text) == Some(h),
        salt_text(salt) is None <==> salted_hash(password, salt) == Err::<Seq<char>, HashError>(
            HashError::Salt,
        ),
        salted_hash(password, salt) != Err::<Seq<char>, HashError>(HashError::NoEntropy),
{
}

/// A fresh hash is made of 16 bytes that the system drew, it accepts the password, and a password of
/// less than four gibibytes is hashed whenever the system has bytes to draw.
pub proof fn fresh_hashes_rest_on_a_draw(password: Seq<char>, r: Result<Seq<char>, HashError>)
    requires
        fresh_hash(password, r),
    ensures
        r matches Ok(h) ==> password_matches(h, password) && exists|salt: Seq<u8>|
            {
                &&& #[trigger] drawn(Some(salt))
                &&& salt.len() == 16
                &&& salted_hash(password, salt) == r
            },
        r == Err::<Seq<char>, HashError>(HashError::NoEntropy) ==> drawn(None),
        r is Err && encode_utf8(password).len() <= 0xffff_ffff ==> drawn(None),
{
    let draw = choose|draw: Option<Seq<u8>>|
        {
            &&& #[trigger] drawn(draw)
            &&& draw matches Some(salt) ==> salt.len() == SALT_LEN
            &&& r == hash_of_draw(password, draw)
        };
    if let Some(salt) = draw {
        assert(drawn(Some(salt)));
    }
}

/// The model of a hashing result shows the hash or the error.
pub proof fn hash_result_is_complete(h: String, e: HashError)
    ensures
        hash_result(Ok(h)) == Ok::<Seq<char>, HashError>(h@),
        hash_result(Err(e)) == Err::<Seq<char>, HashError>(e),
{
}

/// A draw comes of asking the system for 16 random bytes: those bytes, or none if it had none.
pub(crate) proof fn draws_come_of_the_system(draw: Option<Seq<u8>>)
    requires
        drawn(draw),
    ensures
        exists|r: Result<Vec<u8>, argon2::password_hash::rand_core::Error>|
            {
                &&& #[trigger] call_ensures(random_bytes, (16usize,), r)
                &&& r matches Ok(bytes) ==> draw == Some(bytes@)
                &&& r is Err ==> draw is None
            },
{
}

} // verus!
