use portal_api::api_error::ErrorKind;
use portal_api::auth::{
    cleared_refresh_token_cookie, logout_revocation, on_token_lookup, on_try_revoke, on_user_loaded,
    presented_refresh_token, refresh_expiry, refresh_token_cookie, refusal_status, RefreshRefusal, RefreshStep,
    StoredRefreshToken,
};
use portal_api::clock::Instant;

fn token(revoked: bool, expired: bool) -> StoredRefreshToken {
    StoredRefreshToken { id: 11, user_id: 22, revoked, expired }
}

#[test]
fn the_cookie_is_scoped_and_hidden_from_scripts() {
    let c = refresh_token_cookie("raw-token", 43200);
    assert_eq!(c.name, "refresh_token");
    assert_eq!(c.value, "raw-token");
    assert!(c.http_only);
    assert!(c.same_site_lax);
    assert_eq!(c.path, "/v1/auth");
    assert_eq!(c.max_age_secs, 43200 * 60);
}

#[test]
fn clearing_cookie_replaces_the_session_cookie() {
    let set = refresh_token_cookie("x", 10);
    let cleared = cleared_refresh_token_cookie();
    assert_eq!(cleared.name, set.name);
    assert_eq!(cleared.path, set.path);
    assert_eq!(cleared.value, "");
    assert_eq!(cleared.max_age_secs, 0);
}

#[test]
fn the_body_token_wins_over_the_cookie() {
    assert_eq!(presented_refresh_token(Some("body".to_string()), Some("cookie".to_string())).unwrap(), "body");
    assert_eq!(presented_refresh_token(None, Some("cookie".to_string())).unwrap(), "cookie");
    let e = presented_refresh_token(None, None).unwrap_err();
    assert_eq!(e.kind, ErrorKind::BadRequest);
    assert_eq!(e.message, "Missing refresh token (provide it in the body or cookie)");
}

#[test]
fn refresh_expiry_adds_the_lifetime() {
    let now = Instant { secs: 1000, nanos: 5 };
    assert_eq!(refresh_expiry(now, 60), Instant { secs: 1000 + 3600, nanos: 5 });
}

#[test]
fn unknown_tokens_are_refused_as_revoked() {
    assert!(matches!(on_token_lookup(None), RefreshStep::Refuse(RefreshRefusal::Revoked)));
}

#[test]
fn replayed_tokens_revoke_the_whole_chain() {
    match on_token_lookup(Some(token(true, false))) {
        RefreshStep::RevokeAllThenRefuse(user, RefreshRefusal::Revoked) => assert_eq!(user, 22),
        other => panic!("unexpected {:?}", other),
    }
    // Even an expired replayed token is treated as a replay first.
    assert!(matches!(on_token_lookup(Some(token(true, true))), RefreshStep::RevokeAllThenRefuse(22, _)));
}

#[test]
fn expired_tokens_are_revoked_and_refused() {
    match on_token_lookup(Some(token(false, true))) {
        RefreshStep::RevokeThenRefuse(id, RefreshRefusal::Expired) => assert_eq!(id, 11),
        other => panic!("unexpected {:?}", other),
    }
    assert_eq!(refusal_status(&RefreshRefusal::Expired), 401);
    assert_eq!(refusal_status(&RefreshRefusal::Revoked), 401);
    assert_eq!(refusal_status(&RefreshRefusal::Forbidden("x".to_string())), 403);
}

#[test]
fn the_rotation_race_has_one_winner() {
    let t = token(false, false);
    assert!(matches!(on_token_lookup(Some(t)), RefreshStep::TryRevoke(_)));
    assert!(matches!(on_try_revoke(t, true), RefreshStep::LoadUser(22)));
    assert!(matches!(on_try_revoke(t, false), RefreshStep::Refuse(RefreshRefusal::Revoked)));
}

#[test]
fn inactive_accounts_lose_every_session() {
    assert!(matches!(on_user_loaded(22, true, "active"), RefreshStep::Issue(22)));
    match on_user_loaded(22, false, "banned") {
        RefreshStep::RevokeAllThenRefuse(22, RefreshRefusal::Forbidden(m)) => assert_eq!(m, "account is banned"),
        other => panic!("unexpected {:?}", other),
    }
}

#[test]
fn logout_revokes_only_live_tokens() {
    assert_eq!(logout_revocation(Some(token(false, false))), Some(11));
    assert_eq!(logout_revocation(Some(token(false, true))), Some(11));
    assert_eq!(logout_revocation(Some(token(true, false))), None);
    assert_eq!(logout_revocation(None), None);
}
