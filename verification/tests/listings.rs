use portal_api::api_error::ErrorKind;
use portal_api::awards::{
    check_stat_key, clamp_limit, custom_award_fields, leaderboard_qualifier, min_demos, min_rounds,
    parse_player_stats_sort, player_stats_limit, qualifier_pair, stat_key_needs_catalog, PlayerStatsSort,
    QualifierKind,
};
use portal_api::league_teams::{
    archived_listing_gate, require_captain_or_admin, resolve_roster_lock_override, roster_addition_outcome,
    roster_with,
};
use portal_api::leagues::{
    default_page, default_per_page, entry_requirements_outcome, join_texts, league_game_filter, member_window,
    page_window,
};
use portal_api::player_game_profiles::{
    game_ref, no_mm_stats, no_profile, parse_profile_player_id, shown_ratings, GameRef, MatchHistoryQuery,
    RatingHistoryQuery,
};
use portal_api::players::{
    default_page as player_default_page, default_per_page as player_default_per_page, match_profiles,
    require_availability_owner, search_game_filter, PaginationParams, PlayerSearchParams,
};

const A: &str = "0190a1b2-c3d4-7e5f-8a9b-0c1d2e3f4a5b";
const A_ID: u128 = 0x0190a1b2_c3d4_7e5f_8a9b_0c1d2e3f4a5b;

fn search(page: u32, per_page: u32) -> PlayerSearchParams {
    PlayerSearchParams { q: String::new(), game_id: None, team_status: None, country_code: None, page, per_page }
}

#[test]
fn player_search_paging() {
    assert_eq!(player_default_page(), 1);
    assert_eq!(player_default_per_page(), 20);
    let p = search(3, 20);
    assert_eq!(p.offset(), 40);
    assert_eq!(p.limit(), 20);
    assert_eq!(search(0, 500).offset(), 0);
    assert_eq!(search(1, 500).limit(), 100);
    assert_eq!(p.as_pagination(), PaginationParams { page: 3, per_page: 20 });
}

#[test]
fn player_search_filters_and_profiles() {
    assert_eq!(search_game_filter(Some(A)).unwrap(), Some(A_ID));
    assert_eq!(search_game_filter(Some("x")).unwrap_err().message, "Invalid game_id format \u{2014} expected UUID");
    // Player 5 has two profiles: the later one is kept; a repeated result gets none.
    assert_eq!(match_profiles(&vec![5, 6, 5], &vec![5, 9, 5]), vec![Some(2), None, None]);
    assert!(require_availability_owner(Some(1), 1, "modify").is_ok());
    let e = require_availability_owner(None, 1, "delete").unwrap_err();
    assert_eq!(e.kind, ErrorKind::Forbidden);
    assert_eq!(e.message, "Cannot delete another player's availability");
}

#[test]
fn league_pages_are_clamped() {
    assert_eq!(default_page(), 1);
    assert_eq!(default_per_page(), 20);
    let w = page_window(3, 50);
    assert_eq!(w.pagination, PaginationParams { page: 3, per_page: 50 });
    assert_eq!((w.limit, w.offset), (50, 100));
    let w = page_window(-4, 1000);
    assert_eq!(w.pagination, PaginationParams { page: 1, per_page: 100 });
    assert_eq!((w.limit, w.offset), (100, 0));
    assert_eq!(page_window(2, 0).offset, 1);
    assert_eq!(member_window(PaginationParams { page: 2, per_page: 500 }), (100, 500));
}

#[test]
fn consecutive_pages_tile() {
    for per_page in [1i64, 20, 100, 250] {
        let a = page_window(4, per_page);
        let b = page_window(5, per_page);
        assert_eq!(b.offset, a.offset + a.limit);
    }
}

#[test]
fn entry_requirements_join_every_violation() {
    assert!(entry_requirements_outcome(&vec![]).is_ok());
    let v = vec!["rating too low".to_string(), "account too new".to_string()];
    assert_eq!(
        entry_requirements_outcome(&v).unwrap_err().message,
        "You do not meet the entry requirements: rating too low; account too new"
    );
    assert_eq!(roster_addition_outcome(&v).unwrap_err().message, "League entry requirements not met: rating too low; account too new");
    assert_eq!(join_texts(&vec!["a".to_string()], ", "), "a");
    assert_eq!(league_game_filter(Some("x")).unwrap_err().message, "Invalid game ID format");
    assert_eq!(roster_with(&vec![1, 2], 3), vec![1, 2, 3]);
}

#[test]
fn roster_lock_overrides() {
    assert!(resolve_roster_lock_override(false, false, None, "r", 1).unwrap().is_none());
    assert_eq!(
        resolve_roster_lock_override(true, false, None, "r", 1).unwrap_err().message,
        "Only platform team admins can override a roster lock"
    );
    assert_eq!(
        resolve_roster_lock_override(true, true, Some("  too short ".to_string()), "r", 1).unwrap_err().message,
        "override_reason is required when overriding the roster lock and must be at least 10 characters"
    );
    let o = resolve_roster_lock_override(true, true, Some("  player moved region  ".to_string()), "req-1", 7).unwrap().unwrap();
    assert_eq!(o.overridden_by, 7);
    assert_eq!(o.reason, "player moved region");
    assert_eq!(o.request_id.as_deref(), Some("req-1"));
    let o = resolve_roster_lock_override(true, true, Some("0123456789".to_string()), "unknown", 7).unwrap().unwrap();
    assert_eq!(o.request_id, None);
    assert_eq!(require_captain_or_admin(false, false, "add members").unwrap_err().message, "Only captains or platform admins can add members");
    assert!(require_captain_or_admin(true, false, "x").is_ok());
    assert_eq!(archived_listing_gate(true, false).unwrap_err().message, "Missing required permission: league.settings.manage");
    assert!(archived_listing_gate(false, false).is_ok());
}

#[test]
fn award_limits_and_qualifiers() {
    assert_eq!(clamp_limit(None), 10);
    assert_eq!(clamp_limit(Some(0)), 1);
    assert_eq!(clamp_limit(Some(1000)), 100);
    assert_eq!(clamp_limit(Some(37)), 37);
    assert_eq!(player_stats_limit(None), 100);
    assert_eq!(player_stats_limit(Some(999)), 200);
    assert_eq!(min_demos(Some(-3)), 1);
    assert_eq!(min_rounds(Some(-3)), 0);
    assert_eq!(min_rounds(None), 0);
    assert_eq!(leaderboard_qualifier(Some(1), Some(1)).unwrap_err().message, "min_matches and min_rounds are mutually exclusive");
    assert_eq!(leaderboard_qualifier(Some(0), None).unwrap_err().message, "Qualifier thresholds must be >= 1");
    assert_eq!(leaderboard_qualifier(None, Some(30)).unwrap(), Some((QualifierKind::Rounds, 30)));
    assert_eq!(leaderboard_qualifier(None, None).unwrap(), None);
}

#[test]
fn custom_award_fields_and_stat_keys() {
    assert_eq!(custom_award_fields(None, None).unwrap_err().message, "name is required for custom awards");
    assert_eq!(custom_award_fields(Some("MVP".to_string()), None).unwrap_err().message, "stat_key is required for custom awards");
    assert_eq!(qualifier_pair(Some("matches"), None::<i32>).unwrap_err().message, "min_qualifier_type and min_qualifier_value must be provided together");
    assert_eq!(qualifier_pair(Some("matches"), Some(3)).unwrap(), Some(("matches", 3)));
    assert!(!stat_key_needs_catalog("kills.weapon.awp"));
    assert!(check_stat_key("kills.weapon.awp", &vec![]).is_ok());
    assert!(check_stat_key("adr", &vec!["adr".to_string()]).is_ok());
    assert_eq!(check_stat_key("adr", &vec![]).unwrap_err().message, "Unknown stat key 'adr' for this game's stat catalog");
}

#[test]
fn player_stats_sorts() {
    assert_eq!(parse_player_stats_sort(None).unwrap(), PlayerStatsSort::Kills);
    assert_eq!(parse_player_stats_sort(Some("total_damage")).unwrap(), PlayerStatsSort::TotalDamage);
    assert_eq!(
        parse_player_stats_sort(Some("rating")).unwrap_err().message,
        "Invalid sort 'rating'; expected one of kills, deaths, assists, total_damage, adr"
    );
}

#[test]
fn profile_queries() {
    assert_eq!(RatingHistoryQuery { limit: None }.effective_limit(), Some(100));
    assert_eq!(RatingHistoryQuery { limit: Some(5000) }.effective_limit(), Some(5000));
    assert_eq!(MatchHistoryQuery { limit: None, offset: None }.window(), (20, 0));
    assert_eq!(MatchHistoryQuery { limit: Some(500), offset: Some(40) }.window(), (100, 40));
    assert_eq!(game_ref(A), GameRef::Id(A_ID));
    assert_eq!(game_ref("cs2"), GameRef::Slug);
    assert_eq!(parse_profile_player_id("x").unwrap_err().message, "Invalid player ID format");
    assert_eq!(no_profile(A_ID, "cs2").message, format!("No game profile found for player {A} in game cs2"));
    assert_eq!(no_mm_stats().kind, ErrorKind::NotFound);
    assert_eq!(shown_ratings(None), (0, 0));
    assert_eq!(shown_ratings(Some((15000, 17000))), (15000, 17000));
}
