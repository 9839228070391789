//! Premium lookups with Mojang: the attempt plan, the reading of replies, and the verdict cache.
//!
//! Fetching is left to the caller. A [`PremiumLookup`] says what to fetch next and takes in what
//! came back, until it knows the verdict or gives up.

use crate::storage::opt_text;
use crate::text::{
    decimal, decimal_text, hyphens_and_case_commute, hyphens_are_dropped_once, join3, lowercase,
    lowercasing_goes_by_character, same_text, strip_hyphens, to_lower, without_hyphens,
};
use vstd::hash_map::StringHashMap;
use vstd::prelude::*;
use vstd::utf8::is_ascii_chars;

verus! {

/// Number of lookup endpoints.
pub const ENDPOINTS: usize = 2;

/// Total attempts, shared across both endpoints and all kinds of failure.
pub const MAX_ATTEMPTS: u32 = 3;

/// Milliseconds between an attempt that failed and the next one.
pub const RETRY_DELAY_MS: u64 = 500;

/// The address of a lookup endpoint. Endpoints are tried in order.
pub open spec fn endpoint_url(endpoint: int) -> Seq<char> {
    if endpoint == 0 {
        "https://api.minecraftservices.com/minecraft/profile/lookup/name/"@
    } else {
        "https://api.mojang.com/users/profiles/minecraft/"@
    }
}

/// The address of a lookup endpoint.
fn profile_url(endpoint: usize) -> (r: &'static str)
    requires
        endpoint < ENDPOINTS,
    ensures
        r@ == endpoint_url(endpoint as int),
{
    if endpoint == 0 {
        "https://api.minecraftservices.com/minecraft/profile/lookup/name/"
    } else {
        "https://api.mojang.com/users/profiles/minecraft/"
    }
}

/// What a completed fetch tells the plan.
#[derive(Debug, PartialEq, Eq, Structural)]
pub enum FetchOutcome {
    /// 200 without a parsable id: give up on this endpoint, try the next.
    NextEndpoint,
    /// 429, an unexpected status or a transport error: retry the same endpoint.
    RetrySame,
}

/// Shared attempt budget across the endpoint list.
pub struct FetchPlan {
    budget: u32,
    spent: u32,
    endpoint: usize,
}

/// The mathematical content of a plan.
pub struct PlanModel {
    pub budget: nat,
    pub spent: nat,
    pub endpoint: nat,
}

impl View for FetchPlan {
    type V = PlanModel;

    closed spec fn view(&self) -> PlanModel {
        PlanModel {
            budget: self.budget as nat,
            spent: self.spent as nat,
            endpoint: self.endpoint as nat,
        }
    }
}

impl PlanModel {
    /// The endpoint to fetch from, `None` once the budget or the endpoints are used up.
    pub open spec fn next(self) -> Option<nat> {
        if self.spent >= self.budget || self.endpoint >= ENDPOINTS {
            None
        } else {
            Some(self.endpoint)
        }
    }

    /// The plan after one more attempt.
    pub open spec fn record(self, outcome: FetchOutcome) -> PlanModel {
        PlanModel {
            budget: self.budget,
            spent: self.spent + 1,
            endpoint: if outcome is NextEndpoint {
                self.endpoint + 1
            } else {
                self.endpoint
            },
        }
    }
}

/// A plan that has not started yet.
pub open spec fn fresh_plan(budget: nat) -> PlanModel {
    PlanModel { budget, spent: 0, endpoint: 0 }
}

impl FetchPlan {
    /// A plan with an attempt budget.
    pub fn new(budget: u32) -> (r: Self)
        ensures
            r@ == fresh_plan(budget as nat),
    {
        FetchPlan { budget, spent: 0, endpoint: 0 }
    }

    /// The endpoint to fetch from, or `None` when the plan is spent.
    pub fn next(&self) -> (r: Option<usize>)
        ensures
            r == (match self@.next() {
                Some(e) => Some(e as usize),
                None => None,
            }),
    {
        if self.spent >= self.budget {
            return None;
        }
        if self.endpoint >= ENDPOINTS {
            return None;
        }
        Some(self.endpoint)
    }

    /// Takes in the outcome of an attempt.
    pub fn record(&mut self, outcome: FetchOutcome)
        requires
            old(self)@.spent < u32::MAX,
            old(self)@.endpoint < usize::MAX,
        ensures
            final(self)@ == old(self)@.record(outcome),
    {
        self.spent = self.spent + 1;
        if outcome == FetchOutcome::NextEndpoint {
            self.endpoint = self.endpoint + 1;
        }
    }
}

/// The plan after a run of attempts.
pub open spec fn after_attempts(p: PlanModel, outcomes: Seq<FetchOutcome>) -> PlanModel
    decreases outcomes.len(),
{
    if outcomes.len() == 0 {
        p
    } else {
        after_attempts(p.record(outcomes[0]), outcomes.drop_first())
    }
}

/// The budget caps the attempts across all endpoints: after as many attempts as the budget allows
/// nothing is fetched any more, whatever their outcomes were.
pub proof fn budget_caps_attempts(p: PlanModel, outcomes: Seq<FetchOutcome>)
    requires
        p.spent + outcomes.len() >= p.budget,
    ensures
        after_attempts(p, outcomes).next() is None,
{
    attempts_are_counted(p, outcomes);
}

/// Every attempt is counted once, and none changes the budget.
pub proof fn attempts_are_counted(p: PlanModel, outcomes: Seq<FetchOutcome>)
    ensures
        after_attempts(p, outcomes).spent == p.spent + outcomes.len(),
        after_attempts(p, outcomes).budget == p.budget,
    decreases outcomes.len(),
{
    if outcomes.len() > 0 {
        attempts_are_counted(p.record(outcomes[0]), outcomes.drop_first());
    }
}

/// Remembered premium verdicts.
pub struct PremiumCache {
    ttl: u64,
    inner: StringHashMap<(bool, u64)>,
}

/// The mathematical content of a cache: verdicts with the time at which they were taken.
#[verifier::ext_equal]
pub struct CacheModel {
    pub ttl: u64,
    pub verdicts: Map<Seq<char>, (bool, u64)>,
}

impl View for PremiumCache {
    type V = CacheModel;

    closed spec fn view(&self) -> CacheModel {
        CacheModel { ttl: self.ttl, verdicts: self.inner@ }
    }
}

/// Seconds from `at` to `now`; none if the clock ran backwards.
pub open spec fn age(at: u64, now: u64) -> int {
    if now >= at {
        now - at
    } else {
        0
    }
}

impl CacheModel {
    /// The verdict remembered for a name, if it is fresh.
    pub open spec fn verdict(self, name: Seq<char>, now: u64) -> Option<bool> {
        let k = lowercase(name);
        if self.verdicts.contains_key(k) && age(self.verdicts[k].1, now) < self.ttl {
            Some(self.verdicts[k].0)
        } else {
            None
        }
    }

    /// The cache with a verdict remembered.
    pub open spec fn remember(self, name: Seq<char>, is_premium: bool, now: u64) -> CacheModel {
        CacheModel { verdicts: self.verdicts.insert(lowercase(name), (is_premium, now)), ..self }
    }
}

impl PremiumCache {
    /// An empty cache whose verdicts live for `ttl_secs` seconds.
    pub fn new(ttl_secs: u64) -> (r: Self)
        ensures
            r@ == (CacheModel { ttl: ttl_secs, verdicts: Map::empty() }),
    {
        PremiumCache { ttl: ttl_secs, inner: StringHashMap::new() }
    }

    /// Cached premium verdict for `name` in any case, `None` if absent or expired.
    pub fn get(&self, name: &str, now: u64) -> (r: Option<bool>)
        ensures
            r == self@.verdict(name@, now),
    {
        let key = to_lower(name);
        match self.inner.get(key.as_str()) {
            Some(entry) => {
                if now.saturating_sub(entry.1) < self.ttl {
                    Some(entry.0)
                } else {
                    None
                }
            },
            None => None,
        }
    }

    /// Remembers a verdict, in place of one remembered for that name before.
    pub fn put(&mut self, name: String, is_premium: bool, now: u64)
        ensures
            final(self)@ == old(self)@.remember(name@, is_premium, now),
    {
        let key = to_lower(name.as_str());
        self.inner.insert(key, (is_premium, now));
    }
}

/// A verdict, premium or not, is found again in any case of the name until its time is up, and not
/// afterwards. The last verdict wins, and other names are not affected.
pub proof fn verdict_lives_for_its_ttl(
    c: CacheModel,
    name: Seq<char>,
    is_premium: bool,
    at: u64,
    asked: Seq<char>,
    now: u64,
)
    ensures
        ({
            let d = c.remember(name, is_premium, at);
            &&& lowercase(asked) == lowercase(name) ==> d.verdict(asked, now) == (if age(at, now)
                < c.ttl {
                Some(is_premium)
            } else {
                None
            })
            &&& lowercase(asked) != lowercase(name) ==> d.verdict(asked, now) == c.verdict(
                asked,
                now,
            )
        }),
{
}

/// A JSON value as `serde_json` parses it.
#[verifier::external_type_specification]
#[verifier::external_body]
pub struct ExJsonValue(serde_json::Value);

/// An error of the JSON parser.
#[verifier::external_type_specification]
#[verifier::external_body]
pub struct ExJsonError(serde_json::Error);

/// The members of a JSON object by key, each with its text if it is a string. Any other JSON value
/// has no members.
pub uninterp spec fn value_members(v: serde_json::Value) -> Map<Seq<char>, Option<Seq<char>>>;

/// The members of the JSON value that `serde_json::from_str` reads in a text; `None` where it finds
/// no JSON value.
pub uninterp spec fn json_members(text: Seq<char>) -> Option<Map<Seq<char>, Option<Seq<char>>>>;

/// Calls `serde_json::from_str` for a JSON value. What it reads depends on the text alone.
#[verifier::external_body]
fn parse_json(text: &str) -> (r: Result<serde_json::Value, serde_json::Error>)
    ensures
        match r {
            Ok(v) => json_members(text@) == Some(value_members(v)),
            Err(_) => json_members(text@) is None,
        },
{
    serde_json::from_str(text)
}

/// Calls `Value::get` with a key and `Value::as_str` on the member. A value that is no object, a
/// missing member and a member that is no string all give `None`.
#[verifier::external_body]
fn member_text(v: &serde_json::Value, key: &str) -> (r: Option<String>)
    ensures
        opt_text(r) == (if value_members(*v).contains_key(key@) {
            value_members(*v)[key@]
        } else {
            None
        }),
{
    v.get(key).and_then(|m| m.as_str()).map(|s| s.to_string())
}

/// The `id` among the members of a profile.
pub open spec fn id_member(members: Option<Map<Seq<char>, Option<Seq<char>>>>) -> Option<
    Seq<char>,
> {
    match members {
        Some(m) => if m.contains_key("id"@) {
            m["id"@]
        } else {
            None
        },
        None => None,
    }
}

/// The premium id that a reply carries: the profile's `id` if the status is 200.
pub open spec fn profile_id(status: u16, id: Option<Seq<char>>) -> Option<Seq<char>> {
    if status == 200 {
        id
    } else {
        None
    }
}

/// The premium id of a reply whose body has this `id` member.
pub fn id_of_profile(status: u16, id: Option<String>) -> (r: Option<String>)
    ensures
        opt_text(r) == profile_id(status, opt_text(id)),
{
    if status == 200 {
        id
    } else {
        None
    }
}

/// Maps a profile-lookup reply to the premium id.
///
/// 200 with a JSON `id` string gives that id; 204, 404 and anything malformed or unexpected give
/// `None`.
pub fn parse_mojang_profile_response(status: u16, body: &str) -> (r: Option<String>)
    ensures
        opt_text(r) == profile_id(status, id_member(json_members(body@))),
{
    if status != 200 {
        return None;
    }
    match parse_json(body) {
        Ok(v) => id_of_profile(status, member_text(&v, "id")),
        Err(_) => None,
    }
}

/// The form in which unique ids are compared: lowercase, without hyphens.
pub open spec fn bare_id(id: Seq<char>) -> Seq<char> {
    lowercase(without_hyphens(id))
}

/// Whether the id that a client presented is the Mojang id.
pub open spec fn ids_match(client: Seq<char>, mojang: Seq<char>) -> bool {
    &&& bare_id(client).len() > 0
    &&& bare_id(client) == bare_id(mojang)
}

/// Compares the id that a client presented at login with the Mojang id of the name.
///
/// Mojang serves the id without hyphens, clients present it with them. Empty ids never match.
pub fn uuid_matches_mojang_id(client_uuid: &str, mojang_id: &str) -> (r: bool)
    ensures
        r == ids_match(client_uuid@, mojang_id@),
{
    let c = to_lower(strip_hyphens(client_uuid).as_str());
    let m = to_lower(strip_hyphens(mojang_id).as_str());
    !c.as_str().is_empty() && !m.as_str().is_empty() && same_text(c.as_str(), m.as_str())
}

/// Matching is symmetric, and an id without characters besides hyphens matches nothing.
pub proof fn matching_is_symmetric(a: Seq<char>, b: Seq<char>)
    ensures
        ids_match(a, b) == ids_match(b, a),
        without_hyphens(a).len() == 0 ==> !ids_match(a, b) && !ids_match(b, a),
{
    if without_hyphens(a).len() == 0 {
        assert(crate::text::ascii_lowercase(without_hyphens(a)).len() == 0);
    }
}

/// A reply to a fetch: status and body, or the reason why there is none.
pub type FetchReply = Result<(u16, String), String>;

/// The content of a reply.
pub open spec fn reply_content(r: FetchReply) -> Result<(u16, Seq<char>), Seq<char>> {
    match r {
        Ok((status, body)) => Ok((status, body@)),
        Err(e) => Err(e@),
    }
}

/// What a lookup finds: whether the name is premium, and under which id.
pub type Verdict = (bool, Option<String>);

/// The content of a verdict.
pub open spec fn verdict_content(v: Verdict) -> (bool, Option<Seq<char>>) {
    (v.0, opt_text(v.1))
}

/// How a lookup goes on after a reply.
pub enum Progress {
    /// The verdict is known.
    Settled(Verdict),
    /// Another fetch is due, after a pause of so many milliseconds.
    Continue(u64),
}

/// The content of a progress report.
pub enum ProgressModel {
    Settled((bool, Option<Seq<char>>)),
    Continue(u64),
}

impl View for Progress {
    type V = ProgressModel;

    open spec fn view(&self) -> ProgressModel {
        match *self {
            Progress::Settled(v) => ProgressModel::Settled(verdict_content(v)),
            Progress::Continue(ms) => ProgressModel::Continue(ms),
        }
    }
}

/// A premium lookup under way.
pub struct PremiumLookup {
    name: String,
    plan: FetchPlan,
    last_err: String,
}

/// The mathematical content of a lookup.
#[verifier::ext_equal]
pub struct LookupModel {
    pub name: Seq<char>,
    pub plan: PlanModel,
    pub last_err: Seq<char>,
}

impl View for PremiumLookup {
    type V = LookupModel;

    closed spec fn view(&self) -> LookupModel {
        LookupModel { name: self.name@, plan: self.plan@, last_err: self.last_err@ }
    }
}

/// A lookup that has not fetched anything yet.
pub open spec fn fresh_lookup(name: Seq<char>) -> LookupModel {
    LookupModel { name, plan: fresh_plan(MAX_ATTEMPTS as nat), last_err: Seq::empty() }
}

/// The verdict that a reply settles, if it settles one: a 200 with an id is premium, 204 and 404
/// are not.
pub open spec fn settled_by(reply: Result<(u16, Seq<char>), Seq<char>>) -> Option<
    (bool, Option<Seq<char>>),
> {
    match reply {
        Ok((status, body)) => {
            let id = profile_id(status, id_member(json_members(body)));
            if status == 200 && id is Some {
                Some((true, id))
            } else if status == 204 || status == 404 {
                Some((false, None))
            } else {
                None
            }
        },
        Err(_) => None,
    }
}

/// What a reply that settles nothing tells the plan: only a 200 moves on to the next endpoint.
pub open spec fn outcome_of(reply: Result<(u16, Seq<char>), Seq<char>>) -> FetchOutcome {
    match reply {
        Ok((status, _)) => if status == 200 {
            FetchOutcome::NextEndpoint
        } else {
            FetchOutcome::RetrySame
        },
        Err(_) => FetchOutcome::RetrySame,
    }
}

/// The error that a reply from the endpoint at `url` leaves behind, given the one before.
pub open spec fn error_after(
    before: Seq<char>,
    url: Seq<char>,
    reply: Result<(u16, Seq<char>), Seq<char>>,
) -> Seq<char> {
    match reply {
        Ok((status, _)) => if status == 200 {
            before
        } else if status == 429 {
            url + ": rate limited (429)"@
        } else {
            url + ": unexpected status "@ + decimal(status as nat)
        },
        Err(e) => e,
    }
}

impl LookupModel {
    /// The address to fetch, or the error with which the lookup gives up.
    pub open spec fn due(self) -> Result<Seq<char>, Seq<char>> {
        match self.plan.next() {
            Some(e) => Ok(endpoint_url(e as int) + self.name),
            None => Err(
                "0gln-auth: premium lookup failed for "@ + self.name + ": "@ + self.last_err,
            ),
        }
    }

    /// The lookup after a reply.
    pub open spec fn after(self, reply: Result<(u16, Seq<char>), Seq<char>>) -> LookupModel {
        if settled_by(reply) is Some {
            self
        } else {
            LookupModel {
                name: self.name,
                plan: self.plan.record(outcome_of(reply)),
                last_err: error_after(
                    self.last_err,
                    endpoint_url(self.plan.endpoint as int),
                    reply,
                ),
            }
        }
    }

    /// How the lookup goes on after a reply. A retry that is still to come waits.
    pub open spec fn progress(self, reply: Result<(u16, Seq<char>), Seq<char>>) -> ProgressModel {
        match settled_by(reply) {
            Some(v) => ProgressModel::Settled(v),
            None => if outcome_of(reply) is RetrySame && self.after(reply).plan.next() is Some {
                ProgressModel::Continue(RETRY_DELAY_MS)
            } else {
                ProgressModel::Continue(0)
            },
        }
    }
}

impl PremiumLookup {
    /// Starts a lookup of `name`.
    pub fn new(name: &str) -> (r: Self)
        ensures
            r@ == fresh_lookup(name@),
    {
        PremiumLookup {
            name: name.to_owned(),
            plan: FetchPlan::new(MAX_ATTEMPTS),
            last_err: String::new(),
        }
    }

    /// The address to fetch next, or the error with which the lookup gives up.
    pub fn due(&self) -> (r: Result<String, String>)
        ensures
            match r {
                Ok(url) => self@.due() == Ok::<Seq<char>, Seq<char>>(url@),
                Err(e) => self@.due() == Err::<Seq<char>, Seq<char>>(e@),
            },
    {
        match self.plan.next() {
            Some(e) => Ok(profile_url(e).to_owned().concat(self.name.as_str())),
            None => Err(
                join3("0gln-auth: premium lookup failed for ", self.name.as_str(), ": ").concat(
                    self.last_err.as_str(),
                ),
            ),
        }
    }

    /// Takes in the reply to the fetch that was due.
    pub fn take_reply(&mut self, reply: FetchReply) -> (r: Progress)
        requires
            old(self)@.due() is Ok,
        ensures
            final(self)@ == old(self)@.after(reply_content(reply)),
            r@ == old(self)@.progress(reply_content(reply)),
    {
        let url: &'static str = match self.plan.next() {
            Some(e) => profile_url(e),
            None => "",
        };
        let outcome = match reply {
            Ok((status, body)) => {
                if status == 200 {
                    let id = parse_mojang_profile_response(200, body.as_str());
                    if id.is_some() {
                        return Progress::Settled((true, id));
                    }
                    FetchOutcome::NextEndpoint
                } else if status == 204 || status == 404 {
                    return Progress::Settled((false, None));
                } else if status == 429 {
                    self.last_err = url.to_owned().concat(": rate limited (429)");
                    FetchOutcome::RetrySame
                } else {
                    let number = decimal_text(status as u64);
                    self.last_err = join3(url, ": unexpected status ", number.as_str());
                    FetchOutcome::RetrySame
                }
            },
            Err(e) => {
                self.last_err = e;
                FetchOutcome::RetrySame
            },
        };
        let retrying = outcome == FetchOutcome::RetrySame;
        self.plan.record(outcome);
        if retrying && self.plan.next().is_some() {
            Progress::Continue(RETRY_DELAY_MS)
        } else {
            Progress::Continue(0)
        }
    }
}

/// How a lookup ends when the fetches bring these replies; `None` while more replies are needed.
pub open spec fn lookup_end(
    l: LookupModel,
    replies: Seq<Result<(u16, Seq<char>), Seq<char>>>,
) -> Option<Result<(bool, Option<Seq<char>>), Seq<char>>>
    decreases replies.len(),
{
    match l.due() {
        Err(e) => Some(Err(e)),
        Ok(_) => if replies.len() == 0 {
            None
        } else {
            match settled_by(replies[0]) {
                Some(v) => Some(Ok(v)),
                None => lookup_end(l.after(replies[0]), replies.drop_first()),
            }
        },
    }
}

/// A lookup ends after at most as many fetches as its plan has attempts left.
pub proof fn lookup_ends_within_budget(
    l: LookupModel,
    replies: Seq<Result<(u16, Seq<char>), Seq<char>>>,
)
    requires
        l.plan.spent + replies.len() >= l.plan.budget,
    ensures
        lookup_end(l, replies) is Some,
    decreases replies.len(),
{
    if l.due() is Ok && replies.len() > 0 && settled_by(replies[0]) is None {
        lookup_ends_within_budget(l.after(replies[0]), replies.drop_first());
    }
}

/// A fresh lookup fetches at most three times.
pub proof fn fresh_lookup_fetches_three_times(
    name: Seq<char>,
    replies: Seq<Result<(u16, Seq<char>), Seq<char>>>,
)
    requires
        replies.len() >= 3,
    ensures
        lookup_end(fresh_lookup(name), replies) is Some,
        lookup_end(fresh_lookup(name), replies) == lookup_end(
            fresh_lookup(name),
            replies.take(3),
        ),
{
    lookup_ends_within_budget(fresh_lookup(name), replies);
    lookup_ends_within_budget(fresh_lookup(name), replies.take(3));
    later_replies_do_not_matter(fresh_lookup(name), replies, 3);
}

/// Once a lookup has ended, replies that would have come later do not matter.
pub proof fn later_replies_do_not_matter(
    l: LookupModel,
    replies: Seq<Result<(u16, Seq<char>), Seq<char>>>,
    n: int,
)
    requires
        0 <= n <= replies.len(),
        lookup_end(l, replies.take(n)) is Some,
    ensures
        lookup_end(l, replies) == lookup_end(l, replies.take(n)),
    decreases n,
{
    if l.due() is Ok && n > 0 && settled_by(replies[0]) is None {
        assert(replies.take(n).drop_first() =~= replies.drop_first().take(n - 1));
        later_replies_do_not_matter(l.after(replies[0]), replies.drop_first(), n - 1);
    }
}

/// A lookup fails closed: a name is found premium only if some reply was a 200 with that id, and
/// found not premium only if some reply was a 204 or a 404.
pub proof fn verdict_comes_from_a_reply(
    l: LookupModel,
    replies: Seq<Result<(u16, Seq<char>), Seq<char>>>,
)
    ensures
        lookup_end(l, replies) matches Some(Ok(v)) ==> exists|i: int|
            0 <= i < replies.len() && #[trigger] settled_by(replies[i]) == Some(v),
    decreases replies.len(),
{
    if l.due() is Ok && replies.len() > 0 {
        if settled_by(replies[0]) is None {
            let rest = replies.drop_first();
            verdict_comes_from_a_reply(l.after(replies[0]), rest);
            if let Some(Ok(v)) = lookup_end(l, replies) {
                let i = choose|i: int|
                    0 <= i < rest.len() && #[trigger] settled_by(rest[i]) == Some(v);
                assert(settled_by(replies[i + 1]) == Some(v));
            }
        }
    }
}

/// A verdict has an id exactly if it is premium.
pub proof fn verdicts_are_consistent(reply: Result<(u16, Seq<char>), Seq<char>>)
    ensures
        settled_by(reply) matches Some(v) ==> (v.0 <==> v.1 is Some),
{
}

/// Two ids match exactly if they are left with the same text, and not an empty one, once hyphens are
/// dropped and the rest is lowercased.
pub proof fn ids_match_without_hyphens(a: Seq<char>, b: Seq<char>)
    ensures
        ({
            let x = a.filter(|c: char| c != '-');
            let y = b.filter(|c: char| c != '-');
            ids_match(a, b) <==> lowercase(x).len() > 0 && lowercase(x) == lowercase(y)
        }),
{
}

/// Two ASCII ids match exactly if, hyphens apart, the first has a character, both have as many of
/// them, and each is the same as its counterpart or differs from it in case only.
pub proof fn ascii_ids_match_up_to_case(a: Seq<char>, b: Seq<char>)
    requires
        is_ascii_chars(a),
        is_ascii_chars(b),
    ensures
        ({
            let x = a.filter(|c: char| c != '-');
            let y = b.filter(|c: char| c != '-');
            ids_match(a, b) <==> {
                &&& x.len() > 0
                &&& x.len() == y.len()
                &&& forall|i: int|
                    0 <= i < x.len() ==> {
                        ||| #[trigger] x[i] == y[i]
                        ||| 'A' <= x[i] <= 'Z' && y[i] as u32 == x[i] as u32 + 32
                        ||| 'A' <= y[i] <= 'Z' && x[i] as u32 == y[i] as u32 + 32
                    }
            }
        }),
{
    let x = a.filter(|c: char| c != '-');
    let y = b.filter(|c: char| c != '-');
    hyphens_and_case_commute(a);
    hyphens_and_case_commute(b);
    assert(x == without_hyphens(a));
    assert(y == without_hyphens(b));
    let p = lowercase(x);
    let q = lowercase(y);
    lowercasing_goes_by_character(x);
    lowercasing_goes_by_character(y);
    if p == q {
        assert forall|i: int| 0 <= i < x.len() implies {
            ||| #[trigger] x[i] == y[i]
            ||| 'A' <= x[i] <= 'Z' && y[i] as u32 == x[i] as u32 + 32
            ||| 'A' <= y[i] <= 'Z' && x[i] as u32 == y[i] as u32 + 32
        } by {
            assert('\0' <= x[i] <= '\u{7f}');
            assert('\0' <= y[i] <= '\u{7f}');
            assert(p[i] == q[i]);
        }
    }
    if x.len() == y.len() && forall|i: int|
        0 <= i < x.len() ==> {
            ||| #[trigger] x[i] == y[i]
            ||| 'A' <= x[i] <= 'Z' && y[i] as u32 == x[i] as u32 + 32
            ||| 'A' <= y[i] <= 'Z' && x[i] as u32 == y[i] as u32 + 32
        } {
        assert forall|i: int| 0 <= i < p.len() implies p[i] == q[i] by {
            assert('\0' <= x[i] <= '\u{7f}');
            assert('\0' <= y[i] <= '\u{7f}');
            assert(x[i] == y[i] || 'A' <= x[i] <= 'Z' && y[i] as u32 == x[i] as u32 + 32 || 'A'
                <= y[i] <= 'Z' && x[i] as u32 == y[i] as u32 + 32);
        }
        assert(p =~= q);
    }
}

/// Every ASCII id with a character besides hyphens matches itself, with and without its hyphens.
pub proof fn ids_match_themselves(a: Seq<char>)
    requires
        is_ascii_chars(a),
        exists|i: int| 0 <= i < a.len() && a[i] != '-',
    ensures
        ids_match(a, a),
        ids_match(a, a.filter(|c: char| c != '-')),
        ids_match(a.filter(|c: char| c != '-'), a),
{
    broadcast use vstd::seq_lib::group_filter_ensures;

    let keep = |c: char| c != '-';
    let x = a.filter(keep);
    let i = choose|i: int| 0 <= i < a.len() && a[i] != '-';
    assert(keep(a[i]));
    assert(x.contains(a[i]));
    hyphens_and_case_commute(a);
    assert(x == without_hyphens(a));
    hyphens_are_dropped_once(a);
    assert(x.filter(|c: char| c != '-') == x);
    ascii_ids_match_up_to_case(a, a);
    ascii_ids_match_up_to_case(a, x);
    ascii_ids_match_up_to_case(x, a);
}

/// A plan fetches from its endpoint as long as attempts and endpoints are left, two of these; every
/// attempt is counted, and only an outcome that gives up on the endpoint moves to the next.
pub proof fn plans_count_attempts_and_endpoints(
    p: PlanModel,
    outcome: FetchOutcome,
    budget: nat,
    e: nat,
)
    ensures
        p.next() == Some(e) <==> p.spent < p.budget && p.endpoint < 2 && e == p.endpoint,
        p.record(outcome).spent == p.spent + 1,
        p.record(outcome).budget == p.budget,
        outcome is NextEndpoint ==> p.record(outcome).endpoint == p.endpoint + 1,
        outcome is RetrySame ==> p.record(outcome).endpoint == p.endpoint,
        fresh_plan(budget).budget == budget,
        fresh_plan(budget).spent == 0 && fresh_plan(budget).endpoint == 0,
{
}

/// A remembered verdict is found exactly while less time has gone by than it may live; a clock that
/// ran backwards counts as no time. Remembering one name leaves the others, and a cache keeps the
/// span that its verdicts live.
pub proof fn verdicts_are_found_while_fresh(
    c: CacheModel,
    name: Seq<char>,
    is_premium: bool,
    at: u64,
    now: u64,
)
    ensures
        ({
            let k = lowercase(name);
            let fresh = |t: u64| now < t + c.ttl && c.ttl > 0;
            &&& c.verdict(name, now) is Some <==> c.verdicts.contains_key(k) && fresh(
                c.verdicts[k].1,
            )
            &&& c.verdict(name, now) matches Some(v) ==> v == c.verdicts[k].0
            &&& c.remember(name, is_premium, at).verdicts == c.verdicts.insert(k, (is_premium, at))
            &&& c.remember(name, is_premium, at).ttl == c.ttl
        }),
{
}

/// A reply carries an id exactly if its status is 200 and its body is a JSON object whose `id` is
/// that text.
pub proof fn ids_come_from_profiles(status: u16, body: Seq<char>, id: Seq<char>)
    ensures
        profile_id(status, id_member(json_members(body))) == Some(id) <==> {
            &&& status == 200
            &&& json_members(body) matches Some(members)
            &&& members.contains_key("id"@)
            &&& members["id"@] == Some(id)
        },
        profile_id(status, Some(id)) == (if status == 200 {
            Some(id)
        } else {
            None
        }),
        profile_id(status, None) is None,
{
}

/// A reply settles a lookup in two ways: a 200 with an id finds the name premium under that id, a 204
/// or a 404 finds it not premium. No other reply settles anything.
pub proof fn two_kinds_of_replies_settle(
    reply: Result<(u16, Seq<char>), Seq<char>>,
    id: Option<Seq<char>>,
)
    ensures
        settled_by(reply) == Some((true, id)) <==> {
            &&& reply matches Ok((status, body))
            &&& status == 200
            &&& json_members(body) matches Some(members)
            &&& members.contains_key("id"@)
            &&& id is Some
            &&& members["id"@] == id
        },
        settled_by(reply) == Some((false, id)) <==> {
            &&& reply matches Ok((status, _))
            &&& status == 204 || status == 404
            &&& id is None
        },
{
}

/// A lookup fetches the profile of its name from the endpoint whose turn it is. A reply that settles
/// something ends it. Any other reply costs one attempt; after a 200 the next endpoint has its turn
/// at once, after anything else the same one after half a second, as long as there is a next fetch.
/// The last failure is what the lookup gives up with.
pub proof fn lookups_go_on_until_settled(
    l: LookupModel,
    name: Seq<char>,
    reply: Result<(u16, Seq<char>), Seq<char>>,
)
    ensures
        fresh_lookup(name).name == name && fresh_lookup(name).last_err.len() == 0,
        fresh_lookup(name).plan == fresh_plan(3),
        l.due() is Ok <==> l.plan.spent < l.plan.budget && l.plan.endpoint < 2,
        l.due() matches Ok(url) ==> url == (if l.plan.endpoint == 0 {
            "https://api.minecraftservices.com/minecraft/profile/lookup/name/"@
        } else {
            "https://api.mojang.com/users/profiles/minecraft/"@
        }) + l.name,
        l.due() matches Err(e) ==> e == "0gln-auth: premium lookup failed for "@ + l.name + ": "@
            + l.last_err,
        settled_by(reply) matches Some(v) ==> l.progress(reply) == ProgressModel::Settled(v)
            && l.after(reply) == l,
        settled_by(reply) is None ==> {
            let next = l.after(reply);
            let moves = reply matches Ok((status, _)) && status == 200;
            let url = if l.plan.endpoint == 0 {
                "https://api.minecraftservices.com/minecraft/profile/lookup/name/"@
            } else {
                "https://api.mojang.com/users/profiles/minecraft/"@
            };
            &&& next.name == l.name
            &&& next.plan.budget == l.plan.budget
            &&& next.plan.spent == l.plan.spent + 1
            &&& next.plan.endpoint == (if moves {
                l.plan.endpoint + 1
            } else {
                l.plan.endpoint
            })
            &&& l.progress(reply) == ProgressModel::Continue(
                if !moves && next.due() is Ok {
                    500
                } else {
                    0
                },
            )
            &&& next.last_err == match reply {
                Ok((status, _)) => if status == 200 {
                    l.last_err
                } else if status == 429 {
                    url + ": rate limited (429)"@
                } else {
                    url + ": unexpected status "@ + decimal(status as nat)
                },
                Err(e) => e,
            }
        },
{
}

/// The models of replies, findings and progress show all of them.
pub proof fn premium_models_are_complete(reply: FetchReply, v: Verdict, ms: u64)
    ensures
        reply matches Ok((status, body)) ==> reply_content(reply) == Ok::<
            (u16, Seq<char>),
            Seq<char>,
        >((status, body@)),
        reply matches Err(e) ==> reply_content(reply) == Err::<(u16, Seq<char>), Seq<char>>(e@),
        verdict_content(v).0 == v.0,
        v.1 is None ==> verdict_content(v).1 is None,
        v.1 matches Some(id) ==> verdict_content(v).1 == Some(id@),
        Progress::Settled(v)@ == ProgressModel::Settled(verdict_content(v)),
        Progress::Continue(ms)@ == ProgressModel::Continue(ms),
{
}

} // verus!
