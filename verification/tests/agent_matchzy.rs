use portal_api::agent::{
    agent_identity, demo_upload_url, heartbeat_is_ours, is_heartbeat, json_match_id, normalize_serial,
    read_heartbeat, stored_player_count, AgentIdentity, HeartbeatFrame, LiveReservationLookup,
    mark_offline_on_close, on_agent_socket_event, AgentSocketAction, AgentSocketEvent,
};
use portal_api::api_error::ErrorKind;
use portal_api::clock::Instant;
use portal_api::json::{Json, JsonNumber};
use portal_api::matchzy::{
    backup_match_id, backup_prefix, backup_token_verdict, backup_upload, config_fetch_verdict, demo_upload,
    event_disposition, event_matchzy_id, linked_game_number, sanitize_demo_filename, EventDisposition,
};

fn obj(members: Vec<(&str, Json)>) -> Json {
    Json::Object(members.into_iter().map(|(k, v)| (k.to_string(), v)).collect())
}

fn num(v: i64) -> Json {
    if v >= 0 {
        Json::Number(JsonNumber::PosInt(v as u64))
    } else {
        Json::Number(JsonNumber::NegInt(v))
    }
}

fn text(s: &str) -> Json {
    Json::Str(s.to_string())
}

#[test]
fn decimal_serial_becomes_even_hex() {
    assert_eq!(normalize_serial("255"), "ff");
    assert_eq!(normalize_serial(" 4096 "), "1000");
    assert_eq!(normalize_serial("10"), "0a");
    assert_eq!(normalize_serial("1"), "01");
}

#[test]
fn hex_serial_is_only_lowered() {
    assert_eq!(normalize_serial("0A1B"), "0a1b");
    assert_eq!(normalize_serial("  DEADBEEF "), "deadbeef");
    // Too large for u128: kept as text.
    assert_eq!(
        normalize_serial("999999999999999999999999999999999999999999"),
        "999999999999999999999999999999999999999999"
    );
}

#[test]
fn serial_normalization_is_not_idempotent_on_digit_hex() {
    // "16" reads as decimal and becomes "10", which reads as decimal again.
    let once = normalize_serial("16");
    assert_eq!(once, "10");
    assert_eq!(normalize_serial(&once), "0a");
}

#[test]
fn upload_url_trims_trailing_slashes() {
    assert_eq!(demo_upload_url("https://portal.example/"), "https://portal.example/v1/gameserver/demos");
    assert_eq!(demo_upload_url("https://portal.example"), "https://portal.example/v1/gameserver/demos");
}

#[test]
fn agent_identity_prefers_the_verified_certificate() {
    match agent_identity(Some(b"1"), Some(b"255"), true, Some(b"x")).unwrap() {
        AgentIdentity::Serial(s) => assert_eq!(s, "ff"),
        other => panic!("unexpected {:?}", other),
    }
    match agent_identity(None, None, true, Some(b"0190a1b2-c3d4-7e5f-8a9b-0c1d2e3f4a5b")).unwrap() {
        AgentIdentity::DevServer(id) => assert_eq!(id, 0x0190a1b2_c3d4_7e5f_8a9b_0c1d2e3f4a5bu128),
        other => panic!("unexpected {:?}", other),
    }
    let e = agent_identity(None, None, true, Some(b"nope")).unwrap_err();
    assert_eq!(e.kind, ErrorKind::BadRequest);
    assert_eq!(e.message, "invalid dev server id");
    let e = agent_identity(Some(b"0"), Some(b"255"), false, None).unwrap_err();
    assert_eq!(e.kind, ErrorKind::Unauthorized);
    assert_eq!(e.message, "agent authentication requires a verified client certificate");
}

#[test]
fn match_ids_read_from_numbers_or_strings() {
    assert_eq!(json_match_id(Some(&num(12))), Some(12));
    assert_eq!(json_match_id(Some(&text("34"))), Some(34));
    assert_eq!(json_match_id(Some(&text("x"))), None);
    assert_eq!(json_match_id(None), None);
}

#[test]
fn heartbeat_reads_gamestate_and_match() {
    let frame = HeartbeatFrame {
        frame_type: "heartbeat".to_string(),
        agent_version: Some("0.2.0".to_string()),
        rcon_ok: Some(true),
        get5_status: Some(obj(vec![("gamestate", text("live")), ("matchid", text("77"))])),
        status_output: None,
    };
    assert!(is_heartbeat(&frame));
    let r = read_heartbeat(&frame);
    assert_eq!(r.gamestate.as_deref(), Some("live"));
    assert_eq!(r.reported_matchzy_id, Some(77));
    assert_eq!(stored_player_count(usize::MAX), i32::MAX);
    assert_eq!(stored_player_count(9), 9);
    assert!(heartbeat_is_ours(LiveReservationLookup::Found(77), Some(77)));
    assert!(!heartbeat_is_ours(LiveReservationLookup::Found(77), Some(78)));
    assert!(heartbeat_is_ours(LiveReservationLookup::Found(77), None));
    assert!(!heartbeat_is_ours(LiveReservationLookup::NotFound, None));
    assert!(heartbeat_is_ours(LiveReservationLookup::Failed, Some(1)));
}

#[test]
fn demo_file_names_are_sanitized() {
    assert_eq!(sanitize_demo_filename("../../etc/passwd"), "passwd");
    assert_eq!(sanitize_demo_filename("C:\\demos\\match 1.dem"), "match1.dem");
    assert_eq!(sanitize_demo_filename("///"), "upload.dem");
    assert_eq!(sanitize_demo_filename("ok-name_1.dem"), "ok-name_1.dem");
}

#[test]
fn sanitizing_twice_changes_nothing() {
    for raw in ["a/b/c d.dem", "", "x\\y", "%%%", "plain.dem"] {
        let once = sanitize_demo_filename(raw);
        assert_eq!(sanitize_demo_filename(&once), once);
        assert!(!once.is_empty());
    }
}

#[test]
fn events_need_their_token() {
    let payload = obj(vec![("matchid", num(5))]);
    assert_eq!(event_matchzy_id(&payload).unwrap(), 5);
    assert_eq!(event_matchzy_id(&obj(vec![])).unwrap_err().message, "event has no matchid");
    assert_eq!(event_disposition(false, false).unwrap_err().kind, ErrorKind::Unauthorized);
    assert_eq!(event_disposition(true, true).unwrap(), EventDisposition::IgnoreLate);
    assert_eq!(event_disposition(true, false).unwrap(), EventDisposition::Ingest);
}

#[test]
fn config_and_backup_tokens() {
    assert_eq!(config_fetch_verdict(false, true, true).unwrap_err().message, "invalid config token");
    assert_eq!(config_fetch_verdict(true, false, true).unwrap_err().kind, ErrorKind::Forbidden);
    assert_eq!(config_fetch_verdict(true, true, false).unwrap_err().kind, ErrorKind::Internal);
    assert!(config_fetch_verdict(true, true, true).is_ok());
    let now = Instant { secs: 100, nanos: 0 };
    let later = Instant { secs: 101, nanos: 0 };
    assert!(backup_token_verdict(true, later, now).is_ok());
    assert_eq!(backup_token_verdict(true, now, now).unwrap_err().message, "invalid or expired token");
    assert!(backup_token_verdict(false, later, now).is_err());
}

#[test]
fn demo_upload_headers() {
    let u = demo_upload(Some(b"../x.dem"), Some(b"12"), Some(b"0"), 10).unwrap();
    assert_eq!(u.file_name, "x.dem");
    assert_eq!(u.matchzy_id, Some(12));
    assert_eq!(u.map_number, Some(0));
    assert_eq!(u.size, 10);
    assert_eq!(demo_upload(None, None, None, 10).unwrap_err().message, "missing MatchZy-FileName header");
    assert_eq!(demo_upload(Some(b"a.dem"), None, None, 0).unwrap_err().message, "empty demo upload");
    assert_eq!(linked_game_number(Some(0)), Some(1));
    assert_eq!(linked_game_number(None), None);
}

#[test]
fn backup_upload_headers() {
    assert_eq!(backup_match_id(Some(b"42")).unwrap(), 42);
    assert_eq!(backup_match_id(Some(b"x")).unwrap_err().message, "missing MatchZy-MatchId header");
    let b = backup_upload(42, Some(b"round05.txt"), Some(b"1"), Some(b"5")).unwrap();
    assert_eq!(b.file_name, "round05.txt");
    assert_eq!(b.round_number, Some(5));
    assert_eq!(backup_prefix(42), "matchzy-backups/42");
    assert_eq!(backup_prefix(-3), "matchzy-backups/-3");
}

#[test]
fn agent_socket_forwards_queued_frames_and_handles_text() {
    assert_eq!(
        on_agent_socket_event(AgentSocketEvent::Outbound(Some("{\"cmd\":1}".to_string()))),
        AgentSocketAction::Send("{\"cmd\":1}".to_string())
    );
    assert_eq!(
        on_agent_socket_event(AgentSocketEvent::IncomingText("hb".to_string())),
        AgentSocketAction::Handle("hb".to_string())
    );
    assert_eq!(on_agent_socket_event(AgentSocketEvent::IncomingControl), AgentSocketAction::Ignore);
}

#[test]
fn agent_socket_closes_when_superseded_or_gone() {
    assert_eq!(on_agent_socket_event(AgentSocketEvent::Outbound(None)), AgentSocketAction::Close);
    assert_eq!(on_agent_socket_event(AgentSocketEvent::IncomingEnd), AgentSocketAction::Close);
}

#[test]
fn agent_goes_offline_only_when_no_newer_connection() {
    assert!(mark_offline_on_close(false));
    assert!(!mark_offline_on_close(true));
}
