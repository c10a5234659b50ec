use portal_api::api_error::{ApiError, ErrorKind};
use portal_api::bans::{admit_ban_change, unknown_ban_type};
use portal_api::dispute::dispute_page_window;
use portal_api::demos::{admin_demo_target, requested_link_type};
use portal_api::forfeit::forfeit_type_refusal;
use portal_api::ids::{parse_field_id, parse_id_pair, refusal_message, IdField};
use portal_api::platform_stats::{platform_stats, stats_fetch_failure, StoredCounts};
use portal_api::progression::progression_history_refusal;

const ID_A: &str = "550e8400-e29b-41d4-a716-446655440000";
const ID_B: &str = "6ba7b810-9dad-11d1-80b4-00c04fd430c8";
const VAL_A: u128 = 0x550e8400_e29b_41d4_a716_446655440000;
const VAL_B: u128 = 0x6ba7b810_9dad_11d1_80b4_00c04fd430c8;

fn bad(e: ApiError, msg: &str) {
    assert_eq!(e.kind, ErrorKind::BadRequest);
    assert_eq!(e.message, msg);
}

#[test]
fn field_ids_parse_or_carry_their_message() {
    assert_eq!(parse_field_id(ID_A, IdField::Ban).unwrap(), VAL_A);
    bad(parse_field_id("nope", IdField::Ban).unwrap_err(), "Invalid ban ID");
    bad(parse_field_id("nope", IdField::TeamSeason).unwrap_err(), "Invalid team season ID format");
    bad(parse_field_id("", IdField::Invitation).unwrap_err(), "Invalid invitation ID format");
    assert_eq!(refusal_message(IdField::LoserRegistration), "Invalid loser registration ID format");
    assert_eq!(refusal_message(IdField::Application), "Invalid application ID format");
}

#[test]
fn id_pairs_refuse_the_first_bad_id_first() {
    assert_eq!(
        parse_id_pair(ID_A, IdField::WinnerRegistration, ID_B, IdField::LoserRegistration).unwrap(),
        (VAL_A, VAL_B)
    );
    bad(
        parse_id_pair("x", IdField::WinnerRegistration, "y", IdField::LoserRegistration).unwrap_err(),
        "Invalid winner registration ID format",
    );
    bad(
        parse_id_pair(ID_A, IdField::League, "y", IdField::Application).unwrap_err(),
        "Invalid application ID format",
    );
}

#[test]
fn ban_changes_validate_before_the_admin_check() {
    assert!(admit_ban_change(None, Some(true)).is_ok());
    let e = admit_ban_change(Some("reason: length".to_string()), Some(false)).unwrap_err();
    bad(e, "reason: length");
    let e = admit_ban_change(None, Some(false)).unwrap_err();
    assert_eq!(e.kind, ErrorKind::Forbidden);
    assert_eq!(e.message, "Admin access required");
    assert_eq!(admit_ban_change(None, None).unwrap_err().kind, ErrorKind::Forbidden);
    bad(unknown_ban_type(), "Invalid ban type");
}

#[test]
fn progression_history_is_not_implemented() {
    let e = progression_history_refusal();
    assert_eq!(e.kind, ErrorKind::NotImplemented);
    assert_eq!(e.message, "Viewing progression history requires progression log storage (coming soon)");
}

#[test]
fn forfeit_type_refusal_carries_the_parse_error() {
    bad(forfeit_type_refusal("unknown forfeit type: abc"), "Invalid forfeit type: unknown forfeit type: abc");
}

#[test]
fn platform_counts_are_shown_unsigned() {
    let c = StoredCounts {
        total_users: 10,
        total_players: 8,
        total_teams: 3,
        active_games: 2,
        active_bans: 0,
        users_last_24h: 1,
        users_last_7d: 4,
        teams_last_7d: 1,
    };
    let s = platform_stats(c);
    assert_eq!(s.total_users, 10);
    assert_eq!(s.total_players, 8);
    assert_eq!(s.total_teams, 3);
    assert_eq!(s.active_games, 2);
    assert_eq!(s.active_bans, 0);
    assert_eq!(s.users_last_24h, 1);
    assert_eq!(s.users_last_7d, 4);
    assert_eq!(s.teams_last_7d, 1);
    let e = stats_fetch_failure("db down");
    assert_eq!(e.kind, ErrorKind::Internal);
    assert_eq!(e.message, "Failed to fetch stats: db down");
}

#[test]
fn admin_demo_changes_check_body_then_id_then_admin() {
    assert_eq!(admin_demo_target(None, ID_A, Some(true)).unwrap(), VAL_A);
    let body = ApiError { kind: ErrorKind::BadRequest, message: "match_id: required".to_string() };
    bad(admin_demo_target(Some(body), "x", Some(false)).unwrap_err(), "match_id: required");
    bad(admin_demo_target(None, "x", Some(false)).unwrap_err(), "Invalid demo ID");
    let e = admin_demo_target(None, ID_A, Some(false)).unwrap_err();
    assert_eq!(e.kind, ErrorKind::Forbidden);
    assert_eq!(e.message, "Admin access required");
}

#[test]
fn demo_links_default_to_manual() {
    assert_eq!(requested_link_type(None), "manual");
    assert_eq!(requested_link_type(Some("auto".to_string())), "auto");
}

#[test]
fn dispute_queue_pages_step_by_page_size() {
    assert_eq!(dispute_page_window(1, 20), (20, 0));
    assert_eq!(dispute_page_window(3, 25), (25, 50));
}

#[test]
fn overturn_reads_the_dispute_before_the_new_winner() {
    bad(
        parse_id_pair("x", IdField::Dispute, "y", IdField::Registration).unwrap_err(),
        "Invalid dispute ID format",
    );
    bad(
        parse_id_pair(ID_B, IdField::Dispute, "y", IdField::Registration).unwrap_err(),
        "Invalid registration ID format",
    );
}
