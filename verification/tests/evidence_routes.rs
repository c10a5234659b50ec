use portal_api::api_error::ErrorKind;
use portal_api::demos::{
    batch_catalog_result, cs2_counters, include_hidden, parse_demo_id, parse_demo_match_id, require_admin,
    CatalogOutcome,
};
use portal_api::evidence_flow::{
    catalog_demo_ref, check_local_upload, claimed_game_number, claimed_scores, demo_external_id, demo_not_found,
    discovery_cap, evidence_key_prefix, evidence_on_match, find_discovered, first_evidence_id, is_s3_storage,
    link_demo_id, link_route, merge_discovered, no_evidence_support, no_plugin_for_game, participant_context,
    present_registrations, stats_demo_title, steam_id_list, team_name_pair, EvidenceKind, LinkRoute,
    match_participant_or_admin, participant_gate_start,
};
use portal_api::json::{Json, JsonNumber};

const A: &str = "0190a1b2-c3d4-7e5f-8a9b-0c1d2e3f4a5b";
const A_ID: u128 = 0x0190a1b2_c3d4_7e5f_8a9b_0c1d2e3f4a5b;

fn strings(v: &[&str]) -> Vec<String> {
    v.iter().map(|x| x.to_string()).collect()
}

fn obj(members: Vec<(&str, Json)>) -> Json {
    Json::Object(members.into_iter().map(|(k, v)| (k.to_string(), v)).collect())
}

#[test]
fn evidence_keys_are_readable() {
    assert_eq!(
        evidence_key_prefix(Some("summer-league"), "cup-1", EvidenceKind::Demo, 1, 3),
        "summer-league/cup-1/evidence/demos/R1M3"
    );
    assert_eq!(evidence_key_prefix(None, "cup-1", EvidenceKind::Screenshot, 2, 1), "cup-1/evidence/screenshots/R2M1");
    assert_eq!(evidence_key_prefix(None, "t", EvidenceKind::ServerLog, 0, 12), "t/evidence/logs/R0M12");
}

#[test]
fn link_requests_route_by_their_external_id() {
    assert_eq!(link_route(&format!("catalog:{A}")).unwrap(), LinkRoute::Catalog(A_ID));
    assert_eq!(link_route("catalog:nope").unwrap_err().message, "Invalid catalog demo ID");
    assert_eq!(link_route("s3:bucket/key").unwrap(), LinkRoute::Plugin);
    assert_eq!(find_discovered(&strings(&["a", "b", "b"]), "b").unwrap(), 1);
    let e = find_discovered(&strings(&["a"]), "z").unwrap_err();
    assert_eq!(e.kind, ErrorKind::NotFound);
    assert_eq!(e.message, "No discovered evidence with external_id 'z'");
    assert_eq!(no_evidence_support().message, "Game plugin does not support evidence");
    assert_eq!(no_plugin_for_game("CS2", "cs2").message, "No plugin registered for game 'CS2' (plugin_id: 'cs2')");
}

#[test]
fn catalogue_finds_join_without_duplicates() {
    assert_eq!(merge_discovered(&strings(&["x", "y"]), &strings(&["y", "z", "z"])), vec![1, 2]);
    assert_eq!(discovery_cap(Some(-2)), Some(0));
    assert_eq!(discovery_cap(Some(7)), Some(7));
    assert_eq!(discovery_cap(None), None);
}

#[test]
fn validation_inputs() {
    assert_eq!(first_evidence_id(&vec![]).unwrap_err().message, "At least one evidence ID is required");
    assert_eq!(first_evidence_id(&vec![4, 5]).unwrap(), 4);
    assert_eq!(evidence_on_match(1, 2).unwrap_err().message, "Evidence not found on this match");
    assert!(evidence_on_match(2, 2).is_ok());
    assert_eq!(claimed_scores(Some(13), Some(11)).unwrap(), (13, 11));
    assert_eq!(
        claimed_scores(Some(13), None).unwrap_err().message,
        "expected_participant1_score and expected_participant2_score are required to validate evidence against a result"
    );
    assert_eq!(catalog_demo_ref(&obj(vec![("catalog_demo_id", Json::Str(A.to_string()))])), Some(A_ID));
    assert_eq!(catalog_demo_ref(&obj(vec![("catalog_demo_id", Json::Null)])), None);
    assert_eq!(catalog_demo_ref(&Json::Null), None);
    assert_eq!(claimed_game_number(None), 1);
}

#[test]
fn demo_links() {
    assert_eq!(demo_external_id("match.dem"), "demo:match.dem");
    assert_eq!(stats_demo_title("de_anubis"), "CS2 Demo: de_anubis");
    assert_eq!(demo_not_found("x.dem").message, "Demo not found: x.dem");
    assert_eq!(link_demo_id(Some("bad")).unwrap_err().message, "Invalid demo_id format");
    assert_eq!(link_demo_id(None).unwrap(), None);
    assert_eq!(team_name_pair(&strings(&["A", "B", "C"])), ("A".to_string(), "B".to_string()));
    assert_eq!(team_name_pair(&strings(&["A"])), ("Team 1".to_string(), "Team 2".to_string()));
}

#[test]
fn steam_id_lists_split_on_commas() {
    assert_eq!(steam_id_list(Some(" 7656, 7657 ,7658")), strings(&["7656", "7657", "7658"]));
    assert_eq!(steam_id_list(Some("")), strings(&[""]));
    assert_eq!(steam_id_list(Some("a,,b")), strings(&["a", "", "b"]));
    assert_eq!(steam_id_list(None), Vec::<String>::new());
}

#[test]
fn participant_contexts() {
    let c = participant_context(1, "Team A".to_string(), Some(9), Some("7656".to_string()));
    assert_eq!(c.player_ids, vec![9]);
    assert_eq!(c.steam_ids, strings(&["7656"]));
    let c = participant_context(1, "Team A".to_string(), None, Some("7656".to_string()));
    assert!(c.player_ids.is_empty() && c.steam_ids.is_empty());
    assert_eq!(present_registrations(None, Some(2)), vec![2]);
    assert_eq!(present_registrations(Some(1), Some(2)), vec![1, 2]);
}

#[test]
fn local_uploads_are_checked_in_order() {
    assert!(is_s3_storage(Some("S3")));
    assert!(!is_s3_storage(Some("local")));
    assert!(!is_s3_storage(None));
    assert_eq!(check_local_upload(true, 1, "a").unwrap_err().kind, ErrorKind::NotFound);
    assert_eq!(check_local_upload(false, 67108865, "a").unwrap_err().message, "Upload too large (67108865 bytes; max 67108864)");
    assert_eq!(check_local_upload(false, 1, "/etc/x").unwrap_err().message, "Absolute paths not allowed");
    assert_eq!(check_local_upload(false, 1, "a/../../x").unwrap_err().message, "Parent directory components not allowed");
    assert_eq!(check_local_upload(false, 1, "..").unwrap_err().message, "Parent directory components not allowed");
    assert_eq!(check_local_upload(false, 1, "").unwrap_err().message, "Empty path");
    assert!(check_local_upload(false, 67108864, "evidence/a..b/file.dem").is_ok());
}

#[test]
fn demo_catalogue_gates() {
    assert!(require_admin(Some(true)).is_ok());
    assert_eq!(require_admin(None).unwrap_err().message, "Admin access required");
    assert!(!include_hidden(true, Some(false)));
    assert!(include_hidden(true, Some(true)));
    assert!(!include_hidden(false, Some(true)));
    assert_eq!(parse_demo_id("x").unwrap_err().message, "Invalid demo ID");
    assert_eq!(parse_demo_match_id("x").unwrap_err().message, "Invalid match ID");
}

#[test]
fn cs2_counters_default_to_zero() {
    let stats = obj(vec![("kills", Json::Number(JsonNumber::PosInt(25))), ("adr", Json::Number(JsonNumber::Float))]);
    let c = cs2_counters(&stats);
    assert_eq!(c.kills, 25);
    assert_eq!(c.deaths, 0);
    assert_eq!(c.headshot_kills, 0);
}

#[test]
fn batches_answer_every_entry_in_order() {
    let r = batch_catalog_result(vec![
        CatalogOutcome::Created(1),
        CatalogOutcome::Failed("k1".to_string(), "boom".to_string()),
        CatalogOutcome::Existing(2),
        CatalogOutcome::Created(3),
    ]);
    assert_eq!(r.created, vec![1, 3]);
    assert_eq!(r.existing, vec![2]);
    assert_eq!(r.errors, vec![("k1".to_string(), "boom".to_string())]);
}

#[test]
fn participant_gate_admits_admins_and_registrants_only() {
    assert!(match_participant_or_admin(true, &vec![], 7).is_ok());
    assert!(match_participant_or_admin(false, &vec![Some(3), Some(7)], 7).is_ok());
    assert!(match_participant_or_admin(false, &vec![None, Some(7)], 7).is_ok());
    let e = match_participant_or_admin(false, &vec![Some(3), None], 7).unwrap_err();
    assert_eq!(e.kind, ErrorKind::Forbidden);
    assert_eq!(e.message, "User is not a participant in this match");
    assert!(match_participant_or_admin(false, &vec![], 7).is_err());
}

#[test]
fn participant_gate_loads_the_match_unless_overridden() {
    assert!(participant_gate_start(true, Err("down".to_string())).unwrap().is_none());
    assert_eq!(participant_gate_start(false, Ok(Some((Some(1), None)))).unwrap(), Some(vec![1]));
    assert_eq!(participant_gate_start(false, Ok(Some((Some(1), Some(2))))).unwrap(), Some(vec![1, 2]));
    let e = participant_gate_start(false, Ok(None)).unwrap_err();
    assert_eq!(e.kind, ErrorKind::NotFound);
    assert_eq!(e.message, "Match not found");
    let e = participant_gate_start(false, Err("timeout".to_string())).unwrap_err();
    assert_eq!(e.kind, ErrorKind::Internal);
    assert_eq!(e.message, "Failed to load match: timeout");
}
