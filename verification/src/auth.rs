//! Session handling: the refresh-token cookie, refresh-token rotation with
//! replay detection, and logout.

use vstd::prelude::*;
use crate::api_error::{ApiError, ErrorKind, is_error};
use crate::clock::{Instant, plus};

verus! {

/// The cookie carrying the refresh token: its attributes as set on the
/// response. It is always `HttpOnly` and `SameSite=Lax`.
#[derive(Debug, Clone)]
pub struct RefreshCookie {
    pub name: String,
    pub value: String,
    pub http_only: bool,
    pub same_site_lax: bool,
    pub path: String,
    /// `Max-Age` in seconds.
    pub max_age_secs: i64,
}

/// The cookie's name.
pub open spec fn cookie_name() -> Seq<char> {
    "refresh_token"@
}

/// The only path the cookie is sent to.
pub open spec fn cookie_path() -> Seq<char> {
    "/v1/auth"@
}

/// `c` carries `value` for `max_age` seconds, scoped to the auth endpoints
/// and hidden from scripts.
pub open spec fn is_refresh_cookie(c: RefreshCookie, value: Seq<char>, max_age: int) -> bool {
    &&& c.name@ == cookie_name()
    &&& c.value@ == value
    &&& c.http_only
    &&& c.same_site_lax
    &&& c.path@ == cookie_path()
    &&& c.max_age_secs == max_age
}

/// The cookie set alongside a login or refresh answer, living as long as
/// the refresh token (`expiry_minutes`).
pub fn refresh_token_cookie(raw_refresh: &str, expiry_minutes: i64) -> (c: RefreshCookie)
    requires
        i64::MIN <= expiry_minutes * 60 <= i64::MAX,
    ensures
        is_refresh_cookie(c, raw_refresh@, expiry_minutes * 60),
{
    RefreshCookie {
        name: String::from_str("refresh_token"),
        value: String::from_str(raw_refresh),
        http_only: true,
        same_site_lax: true,
        path: String::from_str("/v1/auth"),
        max_age_secs: expiry_minutes * 60,
    }
}

/// The cookie that clears the refresh-token cookie: empty, expiring at once.
pub fn cleared_refresh_token_cookie() -> (c: RefreshCookie)
    ensures
        is_refresh_cookie(c, ""@, 0),
{
    RefreshCookie {
        name: String::from_str("refresh_token"),
        value: String::from_str(""),
        http_only: true,
        same_site_lax: true,
        path: String::from_str("/v1/auth"),
        max_age_secs: 0,
    }
}

/// The clearing cookie has the name and path of the cookie it clears, so
/// a browser replaces that cookie instead of keeping both.
pub proof fn cleared_cookie_replaces(set: RefreshCookie, cleared: RefreshCookie, value: Seq<char>, max_age: int)
    requires
        is_refresh_cookie(set, value, max_age),
        is_refresh_cookie(cleared, ""@, 0),
    ensures
        cleared.name@ == set.name@,
        cleared.path@ == set.path@,
        cleared.max_age_secs == 0,
{
}

/// The text of the answer when no refresh token was presented.
pub open spec fn missing_token_message() -> Seq<char> {
    "Missing refresh token (provide it in the body or cookie)"@
}

/// The refresh token presented: the body's when it has one, else the
/// cookie's; a bad request when neither carries one.
pub fn presented_refresh_token(body: Option<String>, cookie: Option<String>) -> (r: Result<String, ApiError>)
    ensures
        match body {
            Some(b) => r matches Ok(t) && t@ == b@,
            None => match cookie {
                Some(c) => r matches Ok(t) && t@ == c@,
                None => r matches Err(e) && is_error(e, ErrorKind::BadRequest, missing_token_message()),
            },
        },
{
    match body {
        Some(b) => Ok(b),
        None => match cookie {
            Some(c) => Ok(c),
            None => Err(ApiError::from_str(
                ErrorKind::BadRequest,
                "Missing refresh token (provide it in the body or cookie)",
            )),
        },
    }
}

/// When a refresh token issued now expires.
pub fn refresh_expiry(now: Instant, expiry_minutes: i64) -> (r: Instant)
    requires
        i64::MIN <= now.secs + expiry_minutes * 60 <= i64::MAX,
        i64::MIN <= expiry_minutes * 60 <= i64::MAX,
    ensures
        r == plus(now, expiry_minutes * 60),
{
    Instant { secs: now.secs + expiry_minutes * 60, nanos: now.nanos }
}

/// A stored refresh token as the rotation reads it.
#[derive(Debug, Clone, Copy, PartialEq, Eq, Structural)]
pub struct StoredRefreshToken {
    pub id: u128,
    pub user_id: u128,
    /// The token was revoked (rotated or logged out) before.
    pub revoked: bool,
    /// The token is past its expiry.
    pub expired: bool,
}

/// Why a refresh was refused.
#[derive(Debug, Clone)]
pub enum RefreshRefusal {
    /// Unknown, already used, or lost a rotation race.
    Revoked,
    /// Past its expiry.
    Expired,
    /// The account is not active; the message names its status.
    Forbidden(String),
}

/// The HTTP status of a refusal: 401 for a revoked or expired token, 403
/// for an inactive account.
pub fn refusal_status(r: &RefreshRefusal) -> (s: u16)
    ensures
        s == match r {
            RefreshRefusal::Forbidden(_) => 403u16,
            _ => 401u16,
        },
{
    match r {
        RefreshRefusal::Forbidden(_) => 403,
        _ => 401,
    }
}

/// The next step of a refresh.
#[derive(Debug, Clone)]
pub enum RefreshStep {
    /// Refuse the refresh.
    Refuse(RefreshRefusal),
    /// Revoke every token of the user, then refuse.
    RevokeAllThenRefuse(u128, RefreshRefusal),
    /// Revoke this token, then refuse.
    RevokeThenRefuse(u128, RefreshRefusal),
    /// Revoke this token, unless a concurrent refresh already did.
    TryRevoke(StoredRefreshToken),
    /// Load the account of this user.
    LoadUser(u128),
    /// Issue a new access and refresh token for this user.
    Issue(u128),
}

/// The step after the presented token was looked up (by hash, revoked or
/// not): unknown tokens are refused; a revoked one is a replay, so every
/// token of its user is revoked; an expired one is revoked; a live one is
/// consumed.
pub open spec fn lookup_step(stored: Option<StoredRefreshToken>) -> RefreshStep {
    match stored {
        None => RefreshStep::Refuse(RefreshRefusal::Revoked),
        Some(t) => if t.revoked {
            RefreshStep::RevokeAllThenRefuse(t.user_id, RefreshRefusal::Revoked)
        } else if t.expired {
            RefreshStep::RevokeThenRefuse(t.id, RefreshRefusal::Expired)
        } else {
            RefreshStep::TryRevoke(t)
        },
    }
}

/// Decides the step after the token lookup.
pub fn on_token_lookup(stored: Option<StoredRefreshToken>) -> (r: RefreshStep)
    ensures
        r == lookup_step(stored),
{
    match stored {
        None => RefreshStep::Refuse(RefreshRefusal::Revoked),
        Some(t) => if t.revoked {
            RefreshStep::RevokeAllThenRefuse(t.user_id, RefreshRefusal::Revoked)
        } else if t.expired {
            RefreshStep::RevokeThenRefuse(t.id, RefreshRefusal::Expired)
        } else {
            RefreshStep::TryRevoke(t)
        },
    }
}

/// The step after the race-safe revoke: the loser of a concurrent rotation
/// is refused, the winner goes on with its account.
pub open spec fn revoke_step(token: StoredRefreshToken, won: bool) -> RefreshStep {
    if won {
        RefreshStep::LoadUser(token.user_id)
    } else {
        RefreshStep::Refuse(RefreshRefusal::Revoked)
    }
}

/// Decides the step after the race-safe revoke.
pub fn on_try_revoke(token: StoredRefreshToken, won: bool) -> (r: RefreshStep)
    ensures
        r == revoke_step(token, won),
{
    if won {
        RefreshStep::LoadUser(token.user_id)
    } else {
        RefreshStep::Refuse(RefreshRefusal::Revoked)
    }
}

/// The forbidden message for an account in `status`.
pub open spec fn inactive_message(status: Seq<char>) -> Seq<char> {
    "account is "@ + status
}

/// `r` is the step after loading the account: an active account is issued
/// new tokens; any other has all its tokens revoked and is refused.
pub open spec fn is_user_step(r: RefreshStep, user_id: u128, active: bool, status: Seq<char>) -> bool {
    if active {
        r == RefreshStep::Issue(user_id)
    } else {
        r matches RefreshStep::RevokeAllThenRefuse(u, RefreshRefusal::Forbidden(m))
            && u == user_id && m@ == inactive_message(status)
    }
}

/// Decides the step after the account was loaded.
pub fn on_user_loaded(user_id: u128, active: bool, status: &str) -> (r: RefreshStep)
    ensures
        is_user_step(r, user_id, active, status@),
{
    if active {
        RefreshStep::Issue(user_id)
    } else {
        let mut m = String::from_str("account is ");
        m.append(status);
        RefreshStep::RevokeAllThenRefuse(user_id, RefreshRefusal::Forbidden(m))
    }
}

/// A refresh reaches issuing exactly when the presented token exists, was
/// never revoked, has not expired, was consumed by this very request (`won`)
/// and its account is active; `after_user` is the step the account check
/// gives for the token's user.
pub proof fn refresh_issues_only_for_live_tokens(
    stored: Option<StoredRefreshToken>,
    won: bool,
    active: bool,
    status: Seq<char>,
    after_user: RefreshStep,
)
    requires
        stored is Some ==> is_user_step(after_user, stored->0.user_id, active, status),
    ensures
        (lookup_step(stored) is TryRevoke && revoke_step(stored->0, won) is LoadUser && after_user is Issue)
            <==> (stored is Some && !stored->0.revoked && !stored->0.expired && won && active),
{
}

/// A replayed (revoked) token never reaches issuing: it revokes every token
/// of its user and is refused as revoked.
pub proof fn replay_revokes_all(token: StoredRefreshToken)
    requires
        token.revoked,
    ensures
        lookup_step(Some(token)) == RefreshStep::RevokeAllThenRefuse(token.user_id, RefreshRefusal::Revoked),
{
}

/// What logout revokes: the presented token when it exists and is not
/// revoked yet. Whatever the lookup found, logout answers success, so the
/// endpoint reveals nothing about which tokens exist.
pub fn logout_revocation(stored: Option<StoredRefreshToken>) -> (r: Option<u128>)
    ensures
        r == match stored {
            Some(t) => if !t.revoked { Some(t.id) } else { None },
            None => None::<u128>,
        },
{
    match stored {
        Some(t) => if !t.revoked { Some(t.id) } else { None },
        None => None,
    }
}

/// A change the refresh flow makes to the token store (rows keyed by token
/// id): the race-safe revoke, a plain revoke, revoking every token of a
/// user, and storing a newly issued token.
#[derive(Debug, Clone, Copy, PartialEq, Eq, Structural)]
pub enum StoreOp {
    TryRevoke(u128),
    Revoke(u128),
    RevokeAll(u128),
    Insert(StoredRefreshToken),
}

/// `t` marked revoked.
pub open spec fn revoked_row(t: StoredRefreshToken) -> StoredRefreshToken {
    StoredRefreshToken { id: t.id, user_id: t.user_id, revoked: true, expired: t.expired }
}

/// Each row is stored under its own token id.
pub open spec fn store_wf(store: Map<u128, StoredRefreshToken>) -> bool {
    forall|k: u128| #[trigger] store.contains_key(k) ==> store[k].id == k
}

/// What a lookup of token `id` finds, revoked or not.
pub open spec fn lookup(store: Map<u128, StoredRefreshToken>, id: u128) -> Option<StoredRefreshToken> {
    if store.contains_key(id) {
        Some(store[id])
    } else {
        None
    }
}

/// The race-safe revoke of `id` succeeds: the row is there and not yet
/// revoked.
pub open spec fn try_revoke_wins(store: Map<u128, StoredRefreshToken>, id: u128) -> bool {
    store.contains_key(id) && !store[id].revoked
}

/// The store after `op`.
pub open spec fn apply_op(store: Map<u128, StoredRefreshToken>, op: StoreOp) -> Map<u128, StoredRefreshToken> {
    match op {
        StoreOp::TryRevoke(id) => if store.contains_key(id) {
            store.insert(id, revoked_row(store[id]))
        } else {
            store
        },
        StoreOp::Revoke(id) => if store.contains_key(id) {
            store.insert(id, revoked_row(store[id]))
        } else {
            store
        },
        StoreOp::RevokeAll(u) => Map::new(
            |k: u128| store.contains_key(k),
            |k: u128| if store[k].user_id == u { revoked_row(store[k]) } else { store[k] },
        ),
        StoreOp::Insert(t) => store.insert(t.id, t),
    }
}

/// Every token stored by `ops`, applied in turn to `store`, has an id not
/// yet in the store: issued tokens are new.
pub open spec fn inserts_fresh(store: Map<u128, StoredRefreshToken>, ops: Seq<StoreOp>) -> bool
    decreases ops.len(),
{
    if ops.len() == 0 {
        true
    } else {
        &&& (ops[0] matches StoreOp::Insert(t) ==> !store.contains_key(t.id))
        &&& inserts_fresh(apply_op(store, ops[0]), ops.drop_first())
    }
}

/// How many race-safe revokes of `id` succeed when `ops` are applied in
/// turn to `store`.
pub open spec fn revoke_wins(store: Map<u128, StoredRefreshToken>, ops: Seq<StoreOp>, id: u128) -> nat
    decreases ops.len(),
{
    if ops.len() == 0 {
        0
    } else {
        let w: nat = if ops[0] == StoreOp::TryRevoke(id) && try_revoke_wins(store, id) { 1 } else { 0 };
        w + revoke_wins(apply_op(store, ops[0]), ops.drop_first(), id)
    }
}

proof fn revoke_wins_bound(store: Map<u128, StoredRefreshToken>, ops: Seq<StoreOp>, id: u128)
    requires
        inserts_fresh(store, ops),
    ensures
        revoke_wins(store, ops, id) <= (if store.contains_key(id) && store[id].revoked { 0nat } else { 1nat }),
    decreases ops.len(),
{
    if ops.len() > 0 {
        let next = apply_op(store, ops[0]);
        revoke_wins_bound(next, ops.drop_first(), id);
        if store.contains_key(id) && store[id].revoked {
            assert(next.contains_key(id) && next[id].revoked);
        } else if ops[0] == StoreOp::TryRevoke(id) && try_revoke_wins(store, id) {
            assert(next.contains_key(id) && next[id].revoked);
        }
    }
}

/// Each refresh token yields at most one new session, however refreshes
/// of it interleave: a refresh issues only after its race-safe revoke of
/// the token succeeded, and over any sequence of store changes (issued
/// tokens being new) that revoke succeeds at most once per token; of two
/// concurrent refreshes of a live token, exactly one wins it.
pub proof fn refresh_token_is_single_use(store: Map<u128, StoredRefreshToken>, ops: Seq<StoreOp>, id: u128)
    requires
        inserts_fresh(store, ops),
    ensures
        revoke_wins(store, ops, id) <= 1,
        store.contains_key(id) && store[id].revoked ==> revoke_wins(store, ops, id) == 0,
        try_revoke_wins(store, id) ==> revoke_wins(store, seq![StoreOp::TryRevoke(id), StoreOp::TryRevoke(id)], id) == 1,
{
    revoke_wins_bound(store, ops, id);
    let two = seq![StoreOp::TryRevoke(id), StoreOp::TryRevoke(id)];
    if try_revoke_wins(store, id) {
        let s1 = apply_op(store, StoreOp::TryRevoke(id));
        assert(s1[id].revoked);
        assert(two.drop_first() == seq![StoreOp::TryRevoke(id)]);
        let one = seq![StoreOp::TryRevoke(id)];
        assert(one.drop_first().len() == 0);
        assert(!try_revoke_wins(s1, id));
        assert(revoke_wins(apply_op(s1, one[0]), one.drop_first(), id) == 0);
        assert(revoke_wins(s1, one, id) == 0);
    }
}

/// One refresh of token `id` run against `store`, the account being
/// `active`, issuing the new token `fresh_id` on success: the store
/// afterwards and whether a new session was issued. Each step is the one
/// the step functions decide.
pub open spec fn refresh_run(store: Map<u128, StoredRefreshToken>, id: u128, active: bool, fresh_id: u128)
    -> (Map<u128, StoredRefreshToken>, bool)
{
    match lookup_step(lookup(store, id)) {
        RefreshStep::RevokeAllThenRefuse(u, _) => (apply_op(store, StoreOp::RevokeAll(u)), false),
        RefreshStep::RevokeThenRefuse(t, _) => (apply_op(store, StoreOp::Revoke(t)), false),
        RefreshStep::TryRevoke(t) => {
            let won = try_revoke_wins(store, t.id);
            let after = apply_op(store, StoreOp::TryRevoke(t.id));
            match revoke_step(t, won) {
                RefreshStep::LoadUser(u) => if active {
                    let issued = StoredRefreshToken { id: fresh_id, user_id: u, revoked: false, expired: false };
                    (apply_op(after, StoreOp::Insert(issued)), true)
                } else {
                    (apply_op(after, StoreOp::RevokeAll(u)), false)
                },
                _ => (after, false),
            }
        },
        _ => (store, false),
    }
}

/// Rotation is single use, and a replay kills the chain: once a refresh of
/// `id` has issued `fresh_id`, refreshing `id` again issues nothing and
/// revokes every token of the user, after which refreshing `fresh_id` is
/// refused too.
pub proof fn replayed_rotation_kills_chain(
    store: Map<u128, StoredRefreshToken>,
    id: u128,
    fresh_id: u128,
    active: bool,
    later_active: bool,
    fresh2: u128,
    fresh3: u128,
)
    requires
        store_wf(store),
        !store.contains_key(fresh_id),
        refresh_run(store, id, active, fresh_id).1,
    ensures
        ({
            let s1 = refresh_run(store, id, active, fresh_id).0;
            let s2 = refresh_run(s1, id, later_active, fresh2);
            let s3 = refresh_run(s2.0, fresh_id, later_active, fresh3);
            &&& s1.contains_key(fresh_id) && !s1[fresh_id].revoked
            &&& !s2.1
            &&& s2.0.contains_key(fresh_id) && s2.0[fresh_id].revoked
            &&& lookup_step(lookup(s2.0, fresh_id)) is RevokeAllThenRefuse
            &&& !s3.1
        }),
{
    assert(store.contains_key(id));
    let t = store[id];
    assert(t.id == id);
    assert(lookup_step(lookup(store, id)) == RefreshStep::TryRevoke(t));
    assert(id != fresh_id);
    let s1 = refresh_run(store, id, active, fresh_id).0;
    let after = apply_op(store, StoreOp::TryRevoke(id));
    assert(try_revoke_wins(store, id));
    assert(revoke_step(t, true) == RefreshStep::LoadUser(t.user_id));
    assert(active);
    let issued = StoredRefreshToken { id: fresh_id, user_id: t.user_id, revoked: false, expired: false };
    assert(s1 == after.insert(fresh_id, issued));
    assert(after[id] == revoked_row(t));
    assert(s1.contains_key(id) && s1[id].revoked && s1[id].user_id == t.user_id);
    assert(s1[fresh_id].user_id == t.user_id);
    let s2 = refresh_run(s1, id, later_active, fresh2);
    assert(lookup_step(lookup(s1, id)) == RefreshStep::RevokeAllThenRefuse(t.user_id, RefreshRefusal::Revoked));
    assert(s2.0 == apply_op(s1, StoreOp::RevokeAll(t.user_id)));
    assert(s2.0[fresh_id] == revoked_row(s1[fresh_id]));
}

} // verus!
