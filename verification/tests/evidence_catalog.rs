use portal_api::evidence::{
    team_of, validate_against_catalog, Confidence, DemoPlayerRow, DemoResultMeta, ParticipantSteamIds,
};

fn meta(t1: i32, t2: i32) -> DemoResultMeta {
    DemoResultMeta {
        map_name: "de_mirage".to_string(),
        team1_name: "Alpha".to_string(),
        team2_name: "Bravo".to_string(),
        team1_score: t1,
        team2_score: t2,
        duration_seconds: Some(2400),
    }
}

fn row(id: &str, team: &str) -> DemoPlayerRow {
    DemoPlayerRow { steam_id: id.to_string(), team_name: Some(team.to_string()) }
}

fn ids(v: &[&str]) -> ParticipantSteamIds {
    ParticipantSteamIds { steam_ids: v.iter().map(|x| x.to_string()).collect() }
}

fn roster() -> Vec<DemoPlayerRow> {
    vec![row("1", "Alpha"), row("2", "Alpha"), row("3", "Bravo"), row("4", "Bravo")]
}

#[test]
fn team_is_the_strict_majority() {
    assert_eq!(team_of(&ids(&["1", "2", "3"]), &roster()), Some("Alpha".to_string()));
    assert_eq!(team_of(&ids(&["1", "3"]), &roster()), None);
    assert_eq!(team_of(&ids(&[]), &roster()), None);
}

#[test]
fn mapped_sides_orient_the_scores() {
    // Participant 1 played as Bravo, so the demo's 10-13 reads 13-10.
    let v = validate_against_catalog(&meta(10, 13), &roster(), &vec![ids(&["3", "4"]), ids(&["1", "2"])], 13, 10);
    assert!(v.is_valid);
    assert_eq!(v.confidence, Confidence::CatalogExact);
    assert_eq!(v.extracted_result.participant1_score, 13);
    assert_eq!(v.extracted_result.participant2_score, 10);
    assert_eq!(v.extracted_result.duration_seconds, 2400);
    assert!(v.warnings.is_empty());
}

#[test]
fn mapped_sides_refuse_a_swapped_claim() {
    let v = validate_against_catalog(&meta(10, 13), &roster(), &vec![ids(&["3", "4"]), ids(&["1", "2"])], 10, 13);
    assert!(!v.is_valid);
    assert_eq!(v.confidence, Confidence::Contradicted);
    assert_eq!(v.errors, vec!["Demo on de_mirage records 13 - 10, but the claimed result is 10 - 13".to_string()]);
}

#[test]
fn unmapped_sides_accept_either_order_with_a_warning() {
    let v = validate_against_catalog(&meta(16, 9), &roster(), &vec![ids(&["9"]), ids(&["8"])], 9, 16);
    assert!(v.is_valid);
    assert_eq!(v.confidence, Confidence::SidesSwapped);
    assert_eq!(v.warnings.len(), 2);
    assert_eq!(
        v.warnings[0],
        "Could not map demo teams to match participants by Steam ID; scores compared without side assignment"
    );
    assert_eq!(v.warnings[1], "Demo scores 16-9 match the claim 9-16 only with sides swapped");
    let exact = validate_against_catalog(&meta(16, 9), &roster(), &vec![ids(&["9"]), ids(&["8"])], 16, 9);
    assert!(exact.is_valid);
    assert_eq!(exact.confidence, Confidence::CatalogExact);
    assert_eq!(exact.warnings.len(), 1);
}

#[test]
fn a_wrong_score_contradicts() {
    let v = validate_against_catalog(&meta(16, 9), &roster(), &vec![ids(&["1"]), ids(&["3"])], 16, 8);
    assert!(!v.is_valid);
    assert_eq!(v.errors.len(), 1);
}
