use portal_api::api_error::ErrorKind;
use portal_api::pug_socket::{
    check_first_frame, handshake_answer, invalid_token_reason, on_live_event, open_after_send, socket_pug_id,
    text_contains, AuthFrame, FirstFrame, LiveAction, LiveEvent, LobbyFrame,
};
use portal_api::pugs::{
    game_filter, is_participant, join_code_visible, my_role, pug_team_size, registration_slot, rematch_check,
    rematch_roster, slots_total, team_move_target, validate_maps_in_catalog, LobbyChange, LobbyPlayer, PugRole,
};

const PUG: &str = "0190a1b2-c3d4-7e5f-8a9b-0c1d2e3f4a5b";

fn p(id: u128, team: Option<i16>, captain: bool) -> LobbyPlayer {
    LobbyPlayer { player_id: id, team, is_captain: captain }
}

fn auth_error_text(f: &LobbyFrame) -> &str {
    match f {
        LobbyFrame::AuthError(t) => t.as_str(),
        other => panic!("unexpected {:?}", other),
    }
}

#[test]
fn roles_and_the_invite_code() {
    assert_eq!(my_role(Some(1), 1, false), Some(PugRole::Creator));
    assert_eq!(my_role(Some(2), 1, true), Some(PugRole::Player));
    assert_eq!(my_role(Some(2), 1, false), None);
    assert_eq!(my_role(None, 1, true), None);
    assert_eq!(PugRole::Creator.as_str(), "creator");
    assert!(join_code_visible(Some(PugRole::Creator), false));
    assert!(join_code_visible(Some(PugRole::Player), true));
    assert!(!join_code_visible(None, false));
}

#[test]
fn participation_and_registration_slot() {
    let players = vec![p(1, Some(1), true), p(2, Some(2), false), p(3, None, false)];
    assert!(is_participant(&players, Some(2)));
    assert!(!is_participant(&players, Some(9)));
    assert!(!is_participant(&players, None));
    assert_eq!(registration_slot(&players, Some(1), true), Some(1));
    assert_eq!(registration_slot(&players, Some(2), true), Some(2));
    assert_eq!(registration_slot(&players, Some(3), true), None);
    assert_eq!(registration_slot(&players, Some(1), false), None);
}

#[test]
fn nominations_must_be_in_the_catalogue() {
    let cat = vec!["de_dust2".to_string(), "de_nuke".to_string()];
    assert!(validate_maps_in_catalog(&cat, &vec!["de_nuke".to_string()]).is_ok());
    let e = validate_maps_in_catalog(&cat, &vec!["de_nuke".to_string(), "cs_office".to_string()]).unwrap_err();
    assert_eq!(e.message, "map \"cs_office\" is not in this game's catalog");
}

#[test]
fn lobby_sizes_and_targets() {
    assert_eq!(pug_team_size(None, 5), 5);
    assert_eq!(pug_team_size(Some(2), 5), 2);
    assert_eq!(slots_total(5), 10);
    assert_eq!(team_move_target(None, 7).unwrap(), 7);
    assert_eq!(team_move_target(Some("bad"), 7).unwrap_err().message, "invalid player id");
    assert_eq!(game_filter(None).unwrap(), None);
    assert_eq!(game_filter(Some("x")).unwrap_err().message, "invalid game id");
}

#[test]
fn rematches_need_the_creator_and_an_ended_lobby() {
    assert_eq!(rematch_check(false, true).unwrap_err().kind, ErrorKind::Forbidden);
    assert_eq!(rematch_check(false, false).unwrap_err().message, "Only the PUG creator can rematch");
    assert_eq!(rematch_check(true, false).unwrap_err().message, "Finish or cancel this PUG first");
    assert!(rematch_check(true, true).is_ok());
}

#[test]
fn a_rematch_carries_the_roster_over() {
    let players = vec![p(1, Some(2), false), p(2, Some(1), true), p(3, None, false)];
    let r = rematch_roster(&players, 1);
    assert_eq!(r.others, vec![p(2, Some(1), true), p(3, None, false)]);
    assert_eq!(r.creator_team, Some(Some(2)));
    assert_eq!(rematch_roster(&players, 9).creator_team, None);
    assert_eq!(LobbyChange::TeamsSwapped.reason(), "teams_swapped");
}

#[test]
fn the_socket_handshake() {
    assert_eq!(auth_error_text(&socket_pug_id("nope").unwrap_err()), "invalid pug id");
    assert!(socket_pug_id(PUG).is_ok());
    assert_eq!(auth_error_text(&check_first_frame(FirstFrame::NoText).unwrap_err()), "authentication timeout");
    assert_eq!(auth_error_text(&check_first_frame(FirstFrame::Text(None)).unwrap_err()), "first message must be auth");
    let wrong = AuthFrame { kind: "subscribe".to_string(), token: "t".to_string(), code: None };
    assert_eq!(auth_error_text(&check_first_frame(FirstFrame::Text(Some(wrong))).unwrap_err()), "first message must be auth");
    let ok = AuthFrame { kind: "auth".to_string(), token: "t".to_string(), code: Some("c".to_string()) };
    assert_eq!(check_first_frame(FirstFrame::Text(Some(ok))).unwrap().token, "t");
    assert_eq!(invalid_token_reason("expired"), "invalid token: expired");
    let (frame, open) = handshake_answer(Ok(()), PUG);
    assert!(open);
    assert!(matches!(frame, LobbyFrame::AuthSuccess(ref id) if id == PUG));
    let (frame, open) = handshake_answer(Err("not a participant".to_string()), PUG);
    assert!(!open);
    assert_eq!(auth_error_text(&frame), "not a participant");
}

#[test]
fn live_sockets_only_answer_pings() {
    assert!(matches!(on_live_event(LiveEvent::IncomingText("{\"type\":\"ping\"}".to_string())), LiveAction::Send(LobbyFrame::Pong)));
    assert!(matches!(on_live_event(LiveEvent::IncomingText("{\"type\":\"kick\"}".to_string())), LiveAction::Ignore));
    assert!(matches!(on_live_event(LiveEvent::IncomingClose), LiveAction::Close));
    assert!(matches!(on_live_event(LiveEvent::IncomingError), LiveAction::Close));
    assert!(matches!(on_live_event(LiveEvent::IncomingOther), LiveAction::Ignore));
    assert!(matches!(on_live_event(LiveEvent::Lagged), LiveAction::Send(LobbyFrame::Resync)));
    assert!(matches!(on_live_event(LiveEvent::BroadcastClosed), LiveAction::Close));
    assert!(matches!(on_live_event(LiveEvent::Broadcast(None)), LiveAction::Ignore));
    assert!(matches!(on_live_event(LiveEvent::Broadcast(Some("{}".to_string()))), LiveAction::Send(LobbyFrame::Event(_))));
    assert!(matches!(on_live_event(LiveEvent::PingTick), LiveAction::SendPing));
    assert!(!open_after_send(false));
}

#[test]
fn substring_search() {
    assert!(text_contains("abc\"ping\"def", "\"ping\""));
    assert!(!text_contains("ping", "\"ping\""));
    assert!(text_contains("anything", ""));
    assert!(!text_contains("", "a"));
}
