use portal_api::api_error::ErrorKind;
use portal_api::clock::Instant;
use portal_api::dispute::{parse_dispute_id, raise_dispute_ids};
use portal_api::results::{
    acknowledging_registration, acknowledgment_outcome, auto_confirm_time, claim_orientation, confirmation_view,
    display_name_for, no_pending_claim, no_review_for_match, orient_result, parse_claim_ids, parse_game_ids,
    parse_id_list, review_not_found, review_orientation, AcknowledgeParams, GameResultIds, Orientation,
    SagaOutcome,
};

const A: &str = "0190a1b2-c3d4-7e5f-8a9b-0c1d2e3f4a5b";
const A_ID: u128 = 0x0190a1b2_c3d4_7e5f_8a9b_0c1d2e3f4a5b;

fn strings(v: &[&str]) -> Vec<String> {
    v.iter().map(|x| x.to_string()).collect()
}

#[test]
fn results_are_oriented_around_the_winner() {
    assert_eq!(orient_result(Some(1), Some(2), 1, 2, 1), Some(Orientation { loser_registration_id: 2, winner_score: 2, loser_score: 1 }));
    assert_eq!(orient_result(Some(1), Some(2), 2, 0, 2), Some(Orientation { loser_registration_id: 1, winner_score: 2, loser_score: 0 }));
    assert_eq!(orient_result(Some(1), None, 1, 2, 0), None);
    let e = claim_orientation(Some(1), None, 1, 2, 0).unwrap_err();
    assert_eq!(e.kind, ErrorKind::Internal);
    assert_eq!(e.message, "Loser participant not found on match");
}

#[test]
fn swapping_sides_gives_the_same_orientation() {
    for winner in [1u128, 2] {
        assert_eq!(orient_result(Some(1), Some(2), winner, 16, 9), orient_result(Some(2), Some(1), winner, 9, 16));
    }
}

#[test]
fn a_cleared_review_needs_a_winner_and_a_loser() {
    assert_eq!(review_orientation(Some(1), Some(2), None, 1, 0).unwrap_err(), "Match has no winner set");
    assert_eq!(review_orientation(None, Some(2), Some(2), 1, 0).unwrap_err(), "Match has no loser participant");
    let (w, o) = review_orientation(Some(1), Some(2), Some(2), 1, 0).unwrap();
    assert_eq!(w, 2);
    assert_eq!(o, Orientation { loser_registration_id: 1, winner_score: 0, loser_score: 1 });
}

#[test]
fn the_confirmation_reports_the_saga() {
    let v = confirmation_view(SagaOutcome::Paused { review_id: Some(A_ID) });
    assert_eq!(v.match_status, "completed");
    assert!(!v.bracket_advanced);
    assert_eq!(v.review_pending, Some(true));
    assert_eq!(v.review_id.as_deref(), Some(A));
    let v = confirmation_view(SagaOutcome::Completed { winner_advanced: true });
    assert!(v.bracket_advanced);
    assert_eq!(v.review_pending, None);
    let v = confirmation_view(SagaOutcome::Failed);
    assert_eq!(v.match_status, "completed");
    assert!(!v.bracket_advanced);
}

#[test]
fn claim_ids_report_the_first_bad_one() {
    assert_eq!(parse_id_list(&strings(&[A, A]), "bad").unwrap(), vec![A_ID, A_ID]);
    assert_eq!(parse_id_list(&strings(&[A, "x"]), "bad").unwrap_err().message, "bad");
    let g = GameResultIds { evidence_ids: strings(&["x"]), demo_link_id: Some("y".to_string()) };
    assert_eq!(parse_game_ids(&g).unwrap_err().message, "Invalid demo link ID format");
    let g = GameResultIds { evidence_ids: strings(&["x"]), demo_link_id: Some(A.to_string()) };
    assert_eq!(parse_game_ids(&g).unwrap_err().message, "Invalid evidence ID format");
    let e = parse_claim_ids("w", &vec![], &vec![], &vec![]).unwrap_err();
    assert_eq!(e.message, "Invalid winner registration ID format");
    let ok = parse_claim_ids(A, &vec![GameResultIds { evidence_ids: strings(&[A]), demo_link_id: None }], &strings(&[A]), &vec![]).unwrap();
    assert_eq!(ok.winner_registration_id, A_ID);
    assert_eq!(ok.games[0].evidence_ids, vec![A_ID]);
    assert_eq!(parse_claim_ids(A, &vec![], &vec![], &strings(&["z"])).unwrap_err().message, "Invalid demo link ID format");
}

#[test]
fn claim_answers() {
    let now = Instant { secs: 3, nanos: 0 };
    assert_eq!(auto_confirm_time(None, now), now);
    assert_eq!(auto_confirm_time(Some(Instant { secs: 9, nanos: 0 }), now).secs, 9);
    assert_eq!(no_pending_claim().message, "No pending result claim for this match");
    let names = vec![(1, "old".to_string()), (2, "bo".to_string()), (1, "new".to_string())];
    assert_eq!(display_name_for(&names, 1).as_deref(), Some("new"));
    assert_eq!(display_name_for(&names, 3), None);
}

#[test]
fn review_acknowledgments() {
    assert_eq!(acknowledging_registration(&AcknowledgeParams { registration_id: "x".to_string() }).unwrap_err().message, "Invalid registration ID format");
    assert_eq!(no_review_for_match(A_ID).message, format!("No result review found for match {A}"));
    assert_eq!(review_not_found(A_ID).message, format!("Result review {A} not found"));
    let (m, resume) = acknowledgment_outcome(true, true);
    assert_eq!(m, "Both captains have acknowledged the roster mismatch");
    assert!(resume);
    let (m, resume) = acknowledgment_outcome(false, true);
    assert_eq!(m, "Acknowledgment recorded. Waiting for the other captain.");
    assert!(!resume);
    assert!(!acknowledgment_outcome(true, false).1);
}

#[test]
fn dispute_ids_in_endpoint_order() {
    assert_eq!(parse_dispute_id("x").unwrap_err().message, "Invalid dispute ID format");
    assert_eq!(raise_dispute_ids("x", "y", Some("r"), None, &vec![]).unwrap_err().message, "Invalid match ID format");
    assert_eq!(raise_dispute_ids(A, "y", Some("r"), None, &vec![]).unwrap_err().message, "Invalid registration ID format");
    assert_eq!(raise_dispute_ids(A, A, Some("unknown reason"), Some("c"), &vec![]).unwrap_err().message, "Invalid dispute reason: unknown reason");
    assert_eq!(raise_dispute_ids(A, A, None, Some("c"), &vec![]).unwrap_err().message, "Invalid result claim ID format");
    assert_eq!(raise_dispute_ids(A, A, None, None, &strings(&["e"])).unwrap_err().message, "Invalid evidence ID format");
    let d = raise_dispute_ids(A, A, None, Some(A), &strings(&[A])).unwrap();
    assert_eq!(d.result_claim_id, Some(A_ID));
    assert_eq!(d.evidence_ids, vec![A_ID]);
}
