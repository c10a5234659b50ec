use portal_api::clock::Instant;
use portal_api::internal::{
    after_effect, auto_link_enabled, claim_status, default_demo_limit, default_limit, demo_match_date,
    first_enrich_step, game_not_found, is_cs2_plugin, match_stats_plan, parse_discovered_match_id,
    parse_tracking_id, player_outcome, premier_ratings, rating_recorded_at, recent_demo_responses,
    steam_id_64, tracking_for, DemoPlayerRating, EnrichEffect, EnrichStep, EnrichedRow, MatchOutcome,
    TrackingRow, accumulate_flags, AccumulateFlags,
};
use portal_api::json::{Json, JsonNumber};

fn obj(members: Vec<(&str, Json)>) -> Json {
    Json::Object(members.into_iter().map(|(k, v)| (k.to_string(), v)).collect())
}

fn num(v: i64) -> Json {
    if v >= 0 {
        Json::Number(JsonNumber::PosInt(v as u64))
    } else {
        Json::Number(JsonNumber::NegInt(v))
    }
}

fn text(s: &str) -> Json {
    Json::Str(s.to_string())
}

const MAY_FIRST_NOON: i64 = 1_714_564_800;

#[test]
fn defaults_of_the_enricher_queries() {
    assert_eq!(default_limit(), 10);
    assert_eq!(default_demo_limit(), 5);
    assert_eq!(claim_status(true), 200);
    assert_eq!(claim_status(false), 409);
    assert_eq!(game_not_found("cs2").message, "Game not found: cs2");
    assert_eq!(parse_tracking_id("x").unwrap_err().message, "Invalid tracking_id");
    assert_eq!(parse_discovered_match_id("x").unwrap_err().message, "Invalid match ID");
}

#[test]
fn steam32_converts_to_steam64() {
    assert_eq!(steam_id_64(0), 76561197960265728);
    assert_eq!(steam_id_64(123456789), 76561198083722517);
    assert_eq!(steam_id_64(u32::MAX), 76561202255233023);
}

#[test]
fn only_ranked_premier_ratings_are_kept() {
    let r = |t, id| DemoPlayerRating { account_id: 1, rank_id: id, rank_type_id: t, wins: 0 };
    let kept = premier_ratings(&vec![r(11, 15000), r(6, 12), r(11, 0), r(11, 9000), r(7, 3)]);
    assert_eq!(kept, vec![r(11, 15000), r(11, 9000)]);
}

#[test]
fn rating_time_prefers_the_gc_match_time() {
    let now = Instant { secs: 9, nanos: 0 };
    let enriched = Some(Instant { secs: 5, nanos: 0 });
    let gc = Some(Json::Array(vec![obj(vec![("match_time", text("2024-05-01T14:00:00+02:00"))])]));
    assert_eq!(rating_recorded_at(&gc, enriched, now), Instant { secs: MAY_FIRST_NOON, nanos: 0 });
    let bad = Some(Json::Array(vec![obj(vec![("match_time", text("yesterday"))])]));
    assert_eq!(rating_recorded_at(&bad, enriched, now), Instant { secs: 5, nanos: 0 });
    assert_eq!(rating_recorded_at(&None, None, now), now);
    assert_eq!(demo_match_date(Some("2024-05-01T12:00:00Z")), Some(Instant { secs: MAY_FIRST_NOON, nanos: 0 }));
    assert_eq!(demo_match_date(Some("2024-05-01")), None);
}

#[test]
fn outcomes_follow_the_team_scores() {
    let scores = vec![13, 7];
    assert_eq!(player_outcome(true, &scores), MatchOutcome::Win);
    assert_eq!(player_outcome(false, &scores), MatchOutcome::Loss);
    assert_eq!(player_outcome(true, &vec![8, 8]), MatchOutcome::Draw);
    assert_eq!(player_outcome(false, &vec![13]), MatchOutcome::Draw);
    assert_eq!(MatchOutcome::Win.as_str(), "win");
    assert_eq!(MatchOutcome::Loss.as_str(), "loss");
    assert_eq!(MatchOutcome::Draw.as_str(), "draw");
}

#[test]
fn opposite_teams_get_opposite_outcomes() {
    for scores in [vec![16, 4], vec![2, 13], vec![9, 9], vec![]] {
        let a = player_outcome(true, &scores);
        let b = player_outcome(false, &scores);
        let flipped = match a {
            MatchOutcome::Win => MatchOutcome::Loss,
            MatchOutcome::Loss => MatchOutcome::Win,
            MatchOutcome::Draw => MatchOutcome::Draw,
        };
        assert_eq!(b, flipped);
    }
}

#[test]
fn match_stats_are_read_from_the_first_match() {
    let players = Json::Array(vec![
        obj(vec![("account_id", num(100)), ("team", num(1)), ("kills", num(21)), ("deaths", num(14))]),
        obj(vec![("account_id", num(200)), ("team", num(2)), ("kills", num(4294967297)), ("mvps", text("x"))]),
        obj(vec![("account_id", num(0)), ("team", num(1))]),
        obj(vec![("team", num(2))]),
    ]);
    let info = obj(vec![
        ("players", players),
        ("team_scores", Json::Array(vec![num(13), text("?"), num(9)])),
        ("match_time", text("2024-05-01T12:00:00Z")),
        ("match_duration_secs", num(2100)),
        ("map", text("de_nuke")),
    ]);
    let gc = Some(Json::Array(vec![info]));
    let plan = match_stats_plan(&gc, Some("")).unwrap();
    assert_eq!(plan.map, "de_nuke");
    assert_eq!(plan.team_scores, vec![13, 9]);
    assert_eq!(plan.stored_scores, vec![13, 9]);
    assert_eq!(plan.duration_secs, 2100);
    assert_eq!(plan.match_time, Some(Instant { secs: MAY_FIRST_NOON, nanos: 0 }));
    assert_eq!(plan.lines.len(), 2);
    assert_eq!(plan.lines[0].account_id, 100);
    assert_eq!(plan.lines[0].steam_id_64, 76561197960265828);
    assert_eq!(plan.lines[0].outcome, MatchOutcome::Win);
    assert_eq!(plan.lines[0].kills, 21);
    assert_eq!(plan.lines[0].deaths, 14);
    assert_eq!(plan.lines[0].assists, 0);
    assert_eq!(plan.lines[1].outcome, MatchOutcome::Loss);
    // 2^32 + 1 keeps its low 32 bits.
    assert_eq!(plan.lines[1].kills, 1);
    assert_eq!(plan.lines[1].mvps, 0);
    let with_demo_map = match_stats_plan(&gc, Some("de_ancient")).unwrap();
    assert_eq!(with_demo_map.map, "de_ancient");
}

#[test]
fn nothing_is_recorded_without_players() {
    assert!(match_stats_plan(&None, None).is_none());
    assert!(match_stats_plan(&Some(Json::Array(vec![])), None).is_none());
    let empty = Some(Json::Array(vec![obj(vec![("players", Json::Array(vec![]))])]));
    assert!(match_stats_plan(&empty, None).is_none());
}

#[test]
fn enrichment_writes_its_marker_last() {
    assert_eq!(first_enrich_step(true), EnrichStep::Apply(EnrichEffect::Ratings));
    assert_eq!(first_enrich_step(false), EnrichStep::Apply(EnrichEffect::Stats));
    assert_eq!(after_effect(EnrichEffect::Ratings, Ok(())), EnrichStep::Apply(EnrichEffect::Stats));
    assert_eq!(after_effect(EnrichEffect::Stats, Ok(())), EnrichStep::MarkEnriched);
    assert_eq!(
        after_effect(EnrichEffect::Ratings, Err("db down".to_string())),
        EnrichStep::MarkFailed("db down".to_string())
    );
}

#[test]
fn recent_demos_list_only_rows_with_a_url() {
    let rows = vec![
        EnrichedRow { id: 1, share_code: "CSGO-a".to_string(), demo_url: None, enriched_at: None },
        EnrichedRow {
            id: 0x0190a1b2_c3d4_7e5f_8a9b_0c1d2e3f4a5b,
            share_code: "CSGO-b".to_string(),
            demo_url: Some("http://replay/b.dem.bz2".to_string()),
            enriched_at: Some(Instant { secs: MAY_FIRST_NOON, nanos: 0 }),
        },
    ];
    let r = recent_demo_responses(&rows);
    assert_eq!(r.len(), 1);
    assert_eq!(r[0].id, "0190a1b2-c3d4-7e5f-8a9b-0c1d2e3f4a5b");
    assert_eq!(r[0].share_code, "CSGO-b");
    assert_eq!(r[0].demo_url, "http://replay/b.dem.bz2");
    assert_eq!(r[0].enriched_at.as_deref(), Some("2024-05-01T12:00:00+00:00"));
}

#[test]
fn tracking_filter_takes_the_first_entry() {
    let rows = vec![TrackingRow { id: 1, steam_id_64: 7 }, TrackingRow { id: 2, steam_id_64: 8 }, TrackingRow { id: 3, steam_id_64: 8 }];
    assert_eq!(tracking_for(&rows, Some(8)), Some(2));
    assert_eq!(tracking_for(&rows, Some(9)), None);
    assert_eq!(tracking_for(&rows, None), None);
}

#[test]
fn demo_stats_settings() {
    assert!(is_cs2_plugin(Some("cs2")));
    assert!(!is_cs2_plugin(Some("aoe4")));
    assert!(!is_cs2_plugin(None));
    assert!(auto_link_enabled(None));
    assert!(!auto_link_enabled(Some(false)));
}

#[test]
fn aggregates_take_a_match_once_with_one_result() {
    assert_eq!(accumulate_flags(false, MatchOutcome::Win), None);
    assert_eq!(
        accumulate_flags(true, MatchOutcome::Win),
        Some(AccumulateFlags { is_win: true, is_loss: false, is_draw: false })
    );
    assert_eq!(
        accumulate_flags(true, MatchOutcome::Loss),
        Some(AccumulateFlags { is_win: false, is_loss: true, is_draw: false })
    );
    assert_eq!(
        accumulate_flags(true, MatchOutcome::Draw),
        Some(AccumulateFlags { is_win: false, is_loss: false, is_draw: true })
    );
}
