//! Remembered logins: the clock, expiry times and the resume rule.

use crate::config::{ConfigModel, PluginConfig};
use crate::storage::{Session, SessionModel};
use crate::text::same_text;
use vstd::prelude::*;

verus! {

/// A reading of the system's clock.
#[verifier::external_type_specification]
#[verifier::external_body]
pub struct ExSystemTime(std::time::SystemTime);

/// The error of a clock reading before the Unix epoch.
#[verifier::external_type_specification]
#[verifier::external_body]
pub struct ExSystemTimeError(std::time::SystemTimeError);

/// `SystemTime::now` reads the system's clock. Nothing is claimed of the reading: it rests on the
/// machine.
pub assume_specification[ std::time::SystemTime::now ]() -> std::time::SystemTime;

/// Calls `SystemTime::duration_since` for the time from the Unix epoch to a reading. Nothing is
/// claimed of the result: a reading cannot be looked into.
#[verifier::external_body]
pub(crate) fn since_epoch(reading: std::time::SystemTime) -> (r: Result<
    std::time::Duration,
    std::time::SystemTimeError,
>) {
    reading.duration_since(std::time::UNIX_EPOCH)
}

/// `Duration::as_secs` gives the whole seconds of a span. Nothing is claimed of them: a span cannot
/// be looked into.
pub assume_specification[ std::time::Duration::as_secs ](span: &std::time::Duration) -> u64;

/// The time that a clock reading stands for: a clock before the epoch counts as the epoch.
pub fn reading_secs(reading: Option<u64>) -> (r: u64)
    ensures
        r == (match reading {
            Some(secs) => secs,
            None => 0,
        }),
{
    match reading {
        Some(secs) => secs,
        None => 0,
    }
}

/// Whether `secs` comes of reading the clock: there was a reading, and `secs` are the whole seconds
/// from the epoch to it, or 0 if it stood before the epoch.
pub closed spec fn clock_gives(secs: u64) -> bool {
    exists|
        reading: std::time::SystemTime,
        span: Result<std::time::Duration, std::time::SystemTimeError>,
    |
        {
            &&& call_ensures(std::time::SystemTime::now, (), reading)
            &&& #[trigger] call_ensures(since_epoch, (reading,), span)
            &&& match span {
                Ok(elapsed) => call_ensures(std::time::Duration::as_secs, (&elapsed,), secs),
                Err(_) => secs == 0,
            }
        }
}

/// The current time in seconds since the Unix epoch. Which reading the clock gives rests on the
/// machine.
pub fn now_secs() -> (r: u64)
    ensures
        clock_gives(r),
{
    match since_epoch(std::time::SystemTime::now()) {
        Ok(elapsed) => reading_secs(Some(elapsed.as_secs())),
        Err(_) => reading_secs(None),
    }
}

/// Whether the expiry of a session that starts at `now` fits the clock's range.
pub open spec fn expiry_fits(now: u64, cfg: ConfigModel) -> bool {
    now + cfg.session_minutes * 60 <= u64::MAX
}

/// The expiry of a session that starts at `now`.
pub open spec fn expiry(now: u64, cfg: ConfigModel) -> u64 {
    (now + cfg.session_minutes * 60) as u64
}

/// Decides whether the expiry of a session that starts at `now` fits the clock's range.
pub fn can_expire(now: u64, cfg: &PluginConfig) -> (r: bool)
    ensures
        r == expiry_fits(now, cfg@),
{
    match cfg.session_minutes.checked_mul(60) {
        Some(span) => now.checked_add(span).is_some(),
        None => false,
    }
}

/// The expiry of a session that starts at `now`: the configured minutes later.
pub fn new_expiry(now: u64, cfg: &PluginConfig) -> (r: u64)
    requires
        expiry_fits(now, cfg@),
    ensures
        r == now + cfg@.session_minutes * 60,
        r == expiry(now, cfg@),
{
    now + cfg.session_minutes * 60
}

/// Whether a session lets its player back in: it is unexpired and of the same address.
pub open spec fn session_valid(sess: SessionModel, now: u64, ip: Seq<char>) -> bool {
    now < sess.expires_at && sess.ip == ip
}

/// Decides whether a session lets its player back in.
pub fn is_session_valid(sess: &Session, now: u64, ip: &str) -> (r: bool)
    ensures
        r == session_valid(sess@, now, ip@),
{
    now < sess.expires_at && same_text(sess.ip.as_str(), ip)
}

/// A session is good for exactly the configured span, and only from its own address.
pub proof fn session_lasts_the_configured_span(
    sess: SessionModel,
    start: u64,
    cfg: ConfigModel,
    now: u64,
    ip: Seq<char>,
)
    requires
        expiry_fits(start, cfg),
        sess.expires_at == expiry(start, cfg),
    ensures
        session_valid(sess, now, ip) <==> now < start + cfg.session_minutes * 60 && ip == sess.ip,
{
}

/// A session lets its player back in exactly before its expiry and from its own address, and the
/// expiry of a new one is the configured number of minutes later, as far as the clock goes.
pub proof fn sessions_go_by_time_and_address(
    sess: SessionModel,
    now: u64,
    ip: Seq<char>,
    cfg: ConfigModel,
)
    ensures
        session_valid(sess, now, ip) <==> now < sess.expires_at && ip == sess.ip,
        expiry_fits(now, cfg) <==> now + 60 * cfg.session_minutes <= u64::MAX,
        now + 60 * cfg.session_minutes <= u64::MAX ==> expiry(now, cfg) == now + 60
            * cfg.session_minutes,
{
}

/// A time that the clock gives comes of a reading: it is the whole seconds of the span from the epoch
/// to that reading, or 0 where there is no such span.
pub(crate) proof fn times_come_of_a_reading(secs: u64)
    requires
        clock_gives(secs),
    ensures
        exists|
            reading: std::time::SystemTime,
            span: Result<std::time::Duration, std::time::SystemTimeError>,
        |
            {
                &&& call_ensures(std::time::SystemTime::now, (), reading)
                &&& #[trigger] call_ensures(since_epoch, (reading,), span)
                &&& span matches Ok(elapsed) ==> call_ensures(
                    std::time::Duration::as_secs,
                    (&elapsed,),
                    secs,
                )
                &&& span is Err ==> secs == 0
            },
{
}

} // verus!
