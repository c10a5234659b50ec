use portal_api::api_error::ErrorKind;
use portal_api::json::{Json, JsonNumber};
use portal_api::match_server::{
    connect_view, is_participant, live_score, no_reservation, participant_gate, ReservationPhase, ServerDetails,
    SideRegistration,
};
use portal_api::server_admin::{
    booking_reason_ok, booking_tournament, create_server_violations, gotv_update, parse_booking_id,
    parse_server_game_id, update_server_violations, violations_outcome, CreateGameServerRequest,
    UpdateGameServerRequest,
};
use portal_api::substitutions::{
    approve_substitution, cancel_substitution, options_side, parse_substitution_id, reject_substitution,
    substitution_not_found, substitution_players, CreateSubstitutionRequest, SubstitutionStatus,
};

const A: &str = "0190a1b2-c3d4-7e5f-8a9b-0c1d2e3f4a5b";
const A_ID: u128 = 0x0190a1b2_c3d4_7e5f_8a9b_0c1d2e3f4a5b;

fn server() -> ServerDetails {
    ServerDetails { name: "EU-1".to_string(), ip_address: "10.0.0.5".to_string(), port: 27015, gotv_port: Some(27020) }
}

fn obj(members: Vec<(&str, Json)>) -> Json {
    Json::Object(members.into_iter().map(|(k, v)| (k.to_string(), v)).collect())
}

#[test]
fn participants_come_from_solo_or_team_registrations() {
    let regs = vec![
        SideRegistration { player_id: Some(5), members: None },
        SideRegistration { player_id: None, members: Some(vec![7, 8]) },
    ];
    assert!(is_participant(&regs, 5));
    assert!(is_participant(&regs, 8));
    assert!(!is_participant(&regs, 9));
    assert!(participant_gate(true, false).is_ok());
    let e = participant_gate(false, false).unwrap_err();
    assert_eq!(e.message, "only match participants and admins may view this");
    assert_eq!(no_reservation().kind, ErrorKind::NotFound);
}

#[test]
fn spectators_see_gotv_only_once_live() {
    let v = connect_view(false, ReservationPhase::Live, Some(server()), "pw".to_string(), Some("tv".to_string()));
    assert_eq!(v.server_name.as_deref(), Some("EU-1"));
    assert!(v.ip_address.is_none() && v.port.is_none() && v.connect_password.is_none());
    assert_eq!(v.gotv_port, Some(27020));
    assert_eq!(v.gotv_password.as_deref(), Some("tv"));
    let v = connect_view(false, ReservationPhase::Ready, Some(server()), "pw".to_string(), Some("tv".to_string()));
    assert!(v.gotv_port.is_none() && v.gotv_password.is_none());
}

#[test]
fn participants_get_connect_details_when_ready() {
    let v = connect_view(true, ReservationPhase::Ready, Some(server()), "pw".to_string(), None);
    assert_eq!(v.ip_address.as_deref(), Some("10.0.0.5"));
    assert_eq!(v.port, Some(27015));
    assert_eq!(v.connect_password.as_deref(), Some("pw"));
    assert_eq!(v.gotv_port, Some(27020));
    let v = connect_view(true, ReservationPhase::Other, Some(server()), "pw".to_string(), None);
    assert!(v.connect_password.is_none());
}

#[test]
fn live_scores_read_the_round_end_payload() {
    let payload = obj(vec![
        ("team1", obj(vec![("score", Json::Number(JsonNumber::PosInt(9)))])),
        ("team2", obj(vec![("score", Json::Number(JsonNumber::PosInt(3_000_000_000)))])),
    ]);
    let s = live_score(&payload, Some(1), Some(12));
    assert_eq!(s.map_number, 1);
    assert_eq!(s.team1_score, 9);
    assert_eq!(s.team2_score, 0);
    assert_eq!(s.round_number, Some(12));
    assert_eq!(live_score(&obj(vec![]), None, None).map_number, 0);
}

#[test]
fn substitution_requests_parse_both_players() {
    let ok = CreateSubstitutionRequest { player_out_id: A.to_string(), player_in_id: None };
    assert_eq!(substitution_players(&ok).unwrap(), (A_ID, None));
    let bad_out = CreateSubstitutionRequest { player_out_id: "x".to_string(), player_in_id: Some("y".to_string()) };
    assert_eq!(substitution_players(&bad_out).unwrap_err().message, "invalid player_out_id");
    let bad_in = CreateSubstitutionRequest { player_out_id: A.to_string(), player_in_id: Some("y".to_string()) };
    assert_eq!(substitution_players(&bad_in).unwrap_err().message, "invalid player_in_id");
    assert_eq!(parse_substitution_id("x").unwrap_err().message, "invalid substitution id");
    assert_eq!(substitution_not_found().message, "substitution not found");
}

#[test]
fn cancelling_needs_the_requester_before_it_applies() {
    assert_eq!(cancel_substitution(SubstitutionStatus::Pending, 1, 2, false).unwrap_err().message, "only the requester can cancel");
    assert_eq!(cancel_substitution(SubstitutionStatus::Pending, 1, 1, false).unwrap(), SubstitutionStatus::Cancelled);
    assert_eq!(cancel_substitution(SubstitutionStatus::Pending, 1, 2, true).unwrap(), SubstitutionStatus::Cancelled);
    assert_eq!(
        cancel_substitution(SubstitutionStatus::Applied, 1, 1, false).unwrap_err().message,
        "the substitution has already been applied"
    );
    assert!(cancel_substitution(SubstitutionStatus::Failed, 1, 1, true).is_err());
}

#[test]
fn approval_and_rejection_follow_the_lifecycle() {
    assert_eq!(approve_substitution(SubstitutionStatus::AwaitingApproval).unwrap(), SubstitutionStatus::Pending);
    assert_eq!(approve_substitution(SubstitutionStatus::Pending).unwrap_err().message, "substitution is not awaiting approval");
    for s in [SubstitutionStatus::Pending, SubstitutionStatus::AwaitingApproval, SubstitutionStatus::Applying] {
        assert_eq!(reject_substitution(s).unwrap(), SubstitutionStatus::Rejected);
    }
    for s in [SubstitutionStatus::Applied, SubstitutionStatus::Failed, SubstitutionStatus::Cancelled, SubstitutionStatus::Rejected] {
        assert_eq!(
            reject_substitution(s).unwrap_err().message,
            "only pending/awaiting/applying substitutions can be rejected"
        );
    }
}

#[test]
fn picker_options_mark_active_players_with_steam() {
    let side = options_side(A_ID, "Team A".to_string(), vec![(A_ID, "ana".to_string())], vec![(1, "bo".to_string(), false)]);
    assert_eq!(side.registration_id, A);
    assert_eq!(side.active[0].player_id, A);
    assert!(side.active[0].has_steam);
    assert_eq!(side.bench[0].player_id, "00000000-0000-0000-0000-000000000001");
    assert!(!side.bench[0].has_steam);
}

#[test]
fn server_fields_follow_their_rules() {
    let ok = CreateGameServerRequest {
        name: "EU-1".to_string(),
        game_id: A.to_string(),
        ip_address: "10.0.0.5".to_string(),
        port: 27015,
        gotv_port: Some(27020),
        region: "eu".to_string(),
    };
    assert!(create_server_violations(&ok).is_empty());
    let bad = CreateGameServerRequest { name: String::new(), port: 0, gotv_port: Some(0), region: "x".repeat(33), ..ok };
    let v = create_server_violations(&bad);
    assert_eq!(v.len(), 4);
    assert_eq!(v[0], "name: name must be 1-128 characters");
    assert_eq!(v[3], "region: region must be 1-32 characters");
    let e = violations_outcome(&v).unwrap_err();
    assert_eq!(e.kind, ErrorKind::BadRequest);
    assert!(e.message.contains('\n'));
    let upd = UpdateGameServerRequest { name: None, ip_address: None, port: Some(0), gotv_port: None, region: None, enabled: None };
    assert_eq!(update_server_violations(&upd), vec!["port: port must be 1-65535".to_string()]);
    assert!(violations_outcome(&Vec::new()).is_ok());
}

#[test]
fn server_ids_and_bookings() {
    assert_eq!(parse_server_game_id("g").unwrap_err().message, "invalid game id: g");
    assert_eq!(parse_booking_id("b").unwrap_err().message, "invalid booking id: b");
    assert_eq!(booking_tournament(Some("t")).unwrap_err().message, "invalid tournament id");
    assert_eq!(booking_tournament(Some(A)).unwrap(), Some(A_ID));
    assert_eq!(gotv_update(Some(27020)), Some(Some(27020)));
    assert_eq!(gotv_update(None), None);
    assert!(booking_reason_ok(Some(&"r".repeat(255))));
    assert!(!booking_reason_ok(Some(&"r".repeat(256))));
}
