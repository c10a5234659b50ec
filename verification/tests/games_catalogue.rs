use portal_api::api_error::ErrorKind;
use portal_api::games::{
    add_map, catalog_source, fallback_match_formats, remove_map, require_games_admin, set_map_pool, update_map,
    update_team_size, validate_rank_tiers, CatalogSource, GamesAdminAction, MapInfo, MapPatch, RankTier,
    TeamSizeConfig,
};

fn map(id: &str) -> MapInfo {
    MapInfo {
        id: id.to_string(),
        display_name: id.to_uppercase(),
        image_url: None,
        game_modes: vec!["competitive".to_string()],
        external_id: None,
        external_url: None,
    }
}

fn ids(maps: &[MapInfo]) -> Vec<String> {
    maps.iter().map(|m| m.id.clone()).collect()
}

fn tier(id: &str, min: i32, max: Option<i32>) -> RankTier {
    RankTier { id: id.to_string(), display_name: id.to_string(), min_rating: min, max_rating: max, color: None, icon_url: None, order: 0 }
}

#[test]
fn adding_a_map_appends_it() {
    let mut maps = vec![map("de_dust2")];
    add_map(&mut maps, map("de_inferno")).unwrap();
    assert_eq!(ids(&maps), vec!["de_dust2", "de_inferno"]);
    let e = add_map(&mut maps, map("de_dust2")).unwrap_err();
    assert_eq!(e.kind, ErrorKind::Conflict);
    assert_eq!(e.message, "Map with ID 'de_dust2' already exists");
    assert_eq!(maps.len(), 2);
}

#[test]
fn updating_a_map_changes_only_given_fields() {
    let mut maps = vec![map("a"), map("b")];
    let patch = MapPatch {
        display_name: Some("Bee".to_string()),
        image_url: Some("http://img".to_string()),
        game_modes: None,
        external_id: None,
        external_url: None,
    };
    let updated = update_map(&mut maps, "b", patch).unwrap();
    assert_eq!(updated.display_name, "Bee");
    assert_eq!(updated.image_url.as_deref(), Some("http://img"));
    assert_eq!(updated.game_modes, vec!["competitive".to_string()]);
    assert_eq!(maps[1].display_name, "Bee");
    assert_eq!(maps[0].display_name, "A");
    let none = MapPatch { display_name: None, image_url: None, game_modes: None, external_id: None, external_url: None };
    assert_eq!(update_map(&mut maps, "zzz", none).unwrap_err().message, "Map not found: zzz");
}

#[test]
fn removing_a_map_drops_every_copy() {
    let mut maps = vec![map("a"), map("b"), map("a")];
    remove_map(&mut maps, "a").unwrap();
    assert_eq!(ids(&maps), vec!["b"]);
    let e = remove_map(&mut maps, "a").unwrap_err();
    assert_eq!(e.kind, ErrorKind::NotFound);
    assert_eq!(e.message, "Map not found: a");
    assert_eq!(ids(&maps), vec!["b"]);
}

#[test]
fn a_map_pool_keeps_catalogue_order() {
    let cat = vec![map("a"), map("b"), map("c")];
    let pool = set_map_pool(&cat, &vec!["c".to_string(), "a".to_string()], Some(true)).unwrap();
    assert_eq!(ids(&pool), vec!["a", "c"]);
    let pool = set_map_pool(&cat, &vec!["b".to_string()], None).unwrap();
    assert_eq!(ids(&pool), vec!["b"]);
    let e = set_map_pool(&cat, &vec!["a".to_string(), "x".to_string(), "y".to_string()], Some(true)).unwrap_err();
    assert_eq!(e.message, "Unknown map: x");
    let e = set_map_pool(&cat, &vec!["a".to_string()], Some(false)).unwrap_err();
    assert_eq!(e.message, "This game does not support custom map pools");
}

#[test]
fn rank_tiers_must_not_overlap() {
    assert!(validate_rank_tiers(&vec![tier("silver", 0, Some(999)), tier("gold", 1000, Some(1999)), tier("elite", 2000, None)]).is_ok());
    let e = validate_rank_tiers(&vec![tier("silver", 0, Some(1000)), tier("gold", 1000, None)]).unwrap_err();
    assert_eq!(e.message, "Tier 'gold' min_rating (1000) overlaps with previous tier max_rating (1000)");
    let e = validate_rank_tiers(&vec![tier("odd", 50, Some(-5))]).unwrap_err();
    assert_eq!(e.message, "Tier 'odd' max_rating (-5) must be >= min_rating (50)");
    // An open-ended tier puts no bound on the next one.
    assert!(validate_rank_tiers(&vec![tier("a", 10, None), tier("b", 0, Some(5))]).is_ok());
}

#[test]
fn team_sizes_stay_ordered() {
    let cur = TeamSizeConfig { min: 1, max: 5, default: 5 };
    assert_eq!(update_team_size(cur, Some(2), None, None).unwrap(), TeamSizeConfig { min: 2, max: 5, default: 5 });
    assert_eq!(update_team_size(cur, Some(6), None, None).unwrap_err().message, "min (6) must be <= default (5)");
    assert_eq!(update_team_size(cur, None, Some(4), None).unwrap_err().message, "default (5) must be <= max (4)");
}

#[test]
fn catalogue_sources_and_defaults() {
    assert_eq!(catalog_source(Some(3), true), CatalogSource::Stored);
    assert_eq!(catalog_source(Some(0), true), CatalogSource::PluginDefaults);
    assert_eq!(catalog_source(None, false), CatalogSource::Empty);
    let (formats, default) = fallback_match_formats();
    assert_eq!(formats, vec!["bo1", "bo3", "bo5"]);
    assert_eq!(default, "bo1");
}

#[test]
fn game_admin_refusals_name_the_action() {
    assert!(require_games_admin(Some(true), GamesAdminAction::ManageGames).is_ok());
    let e = require_games_admin(None, GamesAdminAction::UpdateMapPool).unwrap_err();
    assert_eq!(e.kind, ErrorKind::Forbidden);
    assert_eq!(e.message, "Admin permission required to update map pool");
    assert_eq!(require_games_admin(Some(false), GamesAdminAction::DisableGame).unwrap_err().message, "Admin permission required to disable games");
}
