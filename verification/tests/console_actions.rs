use portal_api::api_error::ErrorKind;
use portal_api::clock::Instant;
use portal_api::console::{
    action_audit_kind, action_effect, action_output, action_quote_input, agent_info, audited_command,
    catalogue_target, custom_target, exec_all_outcome, find_catalogue_map, history_limit, is_practice_hold,
    map_change_reservation, map_change_source, map_hold_minutes, map_hold_reason, plan_console_action,
    practice_hold_reason, raw_command_verdict, require_connected, status_source, wants_live_fetch,
    ActionEffect, CatalogueMap, ConsoleAction, ConsoleActionArgs, MapChangeSource,
    console_player, lookup_keys, steam_lookup_key, ConsolePlayerLink, StatusPlayer,
};

const MATCH: u128 = 0x0190a1b2_c3d4_7e5f_8a9b_0c1d2e3f4a5b;

fn no_args() -> ConsoleActionArgs {
    ConsoleActionArgs { message: None, userid: None, reason: None, until: None }
}

fn s(v: &[&str]) -> Vec<String> {
    v.iter().map(|x| x.to_string()).collect()
}

#[test]
fn action_names_and_confirmation() {
    assert_eq!(ConsoleAction::ForceStart.name(), "force_start");
    assert_eq!(ConsoleAction::PracticeStop.name(), "practice_stop");
    assert!(ConsoleAction::EndMatch.needs_confirm());
    assert!(ConsoleAction::KickPlayer.needs_confirm());
    assert!(!ConsoleAction::Pause.needs_confirm());
}

#[test]
fn destructive_actions_are_refused_unconfirmed() {
    let e = action_quote_input(ConsoleAction::EndMatch, false, &no_args()).unwrap_err();
    assert_eq!(e.message, "end_match needs confirm: true");
    let e = action_quote_input(ConsoleAction::KickPlayer, false, &no_args()).unwrap_err();
    assert_eq!(e.message, "kick_player needs confirm: true");
    assert!(action_quote_input(ConsoleAction::EndMatch, true, &no_args()).unwrap().is_none());
}

#[test]
fn broadcast_and_kick_arguments() {
    let mut a = no_args();
    assert_eq!(action_quote_input(ConsoleAction::Broadcast, false, &a).unwrap_err().message, "broadcast needs args.message");
    a.message = Some("  hello  ".to_string());
    assert_eq!(action_quote_input(ConsoleAction::Broadcast, false, &a).unwrap(), Some("hello".to_string()));
    a.message = Some("x".repeat(201));
    assert_eq!(
        action_quote_input(ConsoleAction::Broadcast, false, &a).unwrap_err().message,
        "message must be at most 200 characters"
    );
    let mut k = no_args();
    assert_eq!(action_quote_input(ConsoleAction::KickPlayer, true, &k).unwrap_err().message, "kick_player needs args.userid");
    k.userid = Some(3);
    assert_eq!(action_quote_input(ConsoleAction::KickPlayer, true, &k).unwrap(), Some("Kicked by an admin".to_string()));
}

#[test]
fn plans_name_their_console_lines() {
    let now = Instant { secs: 1_000_000, nanos: 0 };
    let p = plan_console_action(ConsoleAction::Pause, &no_args(), None, None, now).unwrap();
    assert_eq!(p.commands, s(&["css_forcepause"]));
    let p = plan_console_action(ConsoleAction::RestartWarmup, &no_args(), Some(false), None, now).unwrap();
    assert_eq!(p.commands, s(&["css_restart"]));
    let p = plan_console_action(ConsoleAction::RestartWarmup, &no_args(), None, None, now).unwrap();
    assert_eq!(p.commands, s(&["mp_warmup_start", "mp_restartgame 1"]));
    let mut k = no_args();
    k.userid = Some(7);
    let p = plan_console_action(ConsoleAction::KickPlayer, &k, None, Some(Ok("\"bye\"".to_string())), now).unwrap();
    assert_eq!(p.commands, s(&["kickid 7 \"bye\""]));
    let e = plan_console_action(ConsoleAction::Broadcast, &no_args(), None, Some(Err("bad quote".to_string())), now)
        .unwrap_err();
    assert_eq!(e.message, "bad quote");
}

#[test]
fn practice_holds_last_two_hours_by_default_and_at_most_twelve() {
    let now = Instant { secs: 1_000_000, nanos: 0 };
    let p = plan_console_action(ConsoleAction::PracticeStart, &no_args(), None, None, now).unwrap();
    assert_eq!(p.hold_until, Some(Instant { secs: 1_000_000 + 7200, nanos: 0 }));
    assert_eq!(p.commands, s(&["matchzy_kick_when_no_match_loaded false", "css_prac"]));
    let mut a = no_args();
    a.until = Some(Instant { secs: 1_000_000 + 43_201, nanos: 0 });
    assert_eq!(
        plan_console_action(ConsoleAction::PracticeStart, &a, None, None, now).unwrap_err().message,
        "a practice hold can last at most 12 hours"
    );
    a.until = Some(now);
    assert_eq!(
        plan_console_action(ConsoleAction::PracticeStart, &a, None, None, now).unwrap_err().message,
        "args.until must be in the future"
    );
    a.until = Some(Instant { secs: 1_000_000 + 43_200, nanos: 0 });
    assert!(plan_console_action(ConsoleAction::PracticeStart, &a, None, None, now).is_ok());
}

#[test]
fn end_match_cancels_or_ends() {
    let mut cmds: Vec<String> = Vec::new();
    match action_effect(ConsoleAction::EndMatch, Some(MATCH), None, &mut cmds).unwrap() {
        ActionEffect::CancelMatch(m) => assert_eq!(m, MATCH),
        other => panic!("unexpected {:?}", other),
    }
    assert!(cmds.is_empty());
    assert!(matches!(action_effect(ConsoleAction::EndMatch, None, None, &mut cmds).unwrap(), ActionEffect::Nothing));
    assert_eq!(cmds, s(&["css_endmatch"]));
    let e = action_effect(ConsoleAction::PracticeStart, Some(MATCH), None, &mut cmds).unwrap_err();
    assert_eq!(e.kind, ErrorKind::Conflict);
    assert_eq!(
        e.message,
        "server has a live reservation for match 0190a1b2-c3d4-7e5f-8a9b-0c1d2e3f4a5b; end it first"
    );
}

#[test]
fn transcripts_stop_at_the_first_failure() {
    let cmds = s(&["a", "b"]);
    let (ok, out) = exec_all_outcome(&cmds, &vec![(true, "one".to_string()), (false, "two".to_string())]);
    assert!(!ok);
    assert_eq!(out, "> a\none\n> b\ntwo");
    let (ok, out) = exec_all_outcome(&s(&["only"]), &vec![(true, "fine".to_string())]);
    assert!(ok);
    assert_eq!(out, "fine");
    let (ok, _) = exec_all_outcome(&cmds, &vec![(true, "one".to_string())]);
    assert!(!ok);
    let (ok, out) = action_output(&Vec::new(), &Vec::new());
    assert!(ok);
    assert_eq!(out, "reservation cancelled; match ended");
}

#[test]
fn audit_rows_and_holds() {
    assert_eq!(audited_command(&s(&["a", "b"])), "a\nb");
    assert_eq!(audited_command(&Vec::new()), "cancel_assignment");
    assert_eq!(action_audit_kind(ConsoleAction::KickBots), "action:kick_bots");
    assert_eq!(practice_hold_reason("ana"), "Practice (console) by ana");
    assert!(is_practice_hold(&Some(practice_hold_reason("ana"))));
    assert!(!is_practice_hold(&Some("Map change (console)".to_string())));
    assert!(!is_practice_hold(&None));
    assert_eq!(history_limit(None), 50);
    assert_eq!(history_limit(Some(0)), 1);
    assert_eq!(history_limit(Some(500)), 200);
}

#[test]
fn map_changes_pick_their_target() {
    let cat = vec![
        CatalogueMap { id: "de_dust2".to_string(), display_name: "Dust II".to_string(), external_id: None },
        CatalogueMap { id: "aim".to_string(), display_name: "Aim".to_string(), external_id: Some("123".to_string()) },
    ];
    assert!(matches!(map_change_source(&Some("aim".to_string()), &Some("x".to_string())).unwrap(), MapChangeSource::Catalogue(_)));
    assert!(matches!(map_change_source(&None, &Some("x".to_string())).unwrap(), MapChangeSource::Custom(_)));
    assert_eq!(map_change_source(&None, &None).unwrap_err().message, "map_id or custom is required");
    assert_eq!(find_catalogue_map(&cat, "aim").unwrap(), 1);
    assert_eq!(find_catalogue_map(&cat, "nuke").unwrap_err().message, "no map 'nuke' in the catalogue");
    let t = catalogue_target(&cat[1], "host_workshop_map 123", "aim");
    assert!(t.workshop);
    assert_eq!(t.engine_name, "123");
    let t = catalogue_target(&cat[0], "changelevel de_dust2", "de_dust2");
    assert!(!t.workshop);
    assert_eq!(t.engine_name, "de_dust2");
    let t = custom_target("host_workshop_map 999");
    assert!(t.workshop && t.map_id.is_none());
    assert_eq!(map_hold_minutes(true), 10);
    assert_eq!(map_hold_minutes(false), 5);
    assert_eq!(map_hold_reason("de_inferno", "bo"), "Map change (console) to de_inferno by bo");
    assert_eq!(map_change_reservation(Some(MATCH), true).unwrap(), Some(MATCH));
    assert_eq!(map_change_reservation(None, false).unwrap(), None);
    assert_eq!(map_change_reservation(Some(MATCH), false).unwrap_err().kind, ErrorKind::Conflict);
}

#[test]
fn status_snapshot_sources() {
    let now = Instant { secs: 5, nanos: 0 };
    let old = Instant { secs: 1, nanos: 0 };
    assert!(!wants_live_fetch(true, false));
    let r = status_source(Some("stored".to_string()), Some(old), true, false, None, now);
    assert_eq!(r.live_error.as_deref(), Some("no agent connected for this server"));
    let r = status_source(Some("stored".to_string()), Some(old), true, true, Some(Ok("fresh".to_string())), now);
    assert!(r.live);
    assert_eq!(r.raw.as_deref(), Some("fresh"));
    assert_eq!(r.status_at, Some(now));
    let r = status_source(Some("stored".to_string()), Some(old), true, true, Some(Err("rcon down".to_string())), now);
    assert!(!r.live);
    assert_eq!(r.raw.as_deref(), Some("stored"));
    assert_eq!(r.live_error.as_deref(), Some("rcon down"));
    let a = agent_info(true, None, Some("t".to_string()), true, false);
    assert_eq!(a.rcon_ok, Some(false));
    assert_eq!(agent_info(false, None, None, false, false).rcon_ok, None);
}

#[test]
fn raw_commands_and_connection() {
    assert!(raw_command_verdict(None).is_ok());
    let e = raw_command_verdict(Some("blocked".to_string())).unwrap_err();
    assert_eq!(e.kind, ErrorKind::BadRequest);
    assert!(require_connected(true).is_ok());
    assert!(require_connected(false).is_err());
}

fn status_row(userid: u32, steam: Option<u64>) -> StatusPlayer {
    StatusPlayer {
        userid,
        name: format!("p{userid}"),
        steam_id64: steam,
        bot: steam.is_none(),
        connected_secs: Some(30),
        ping: Some(12),
        loss: Some(0),
        state: Some("active".to_string()),
    }
}

#[test]
fn steam_ids_beyond_the_signed_range_are_not_looked_up() {
    assert_eq!(steam_lookup_key(76561198000000000), Some(76561198000000000));
    assert_eq!(steam_lookup_key(i64::MAX as u64), Some(i64::MAX));
    assert_eq!(steam_lookup_key(i64::MAX as u64 + 1), None);
}

#[test]
fn each_steam_id_is_looked_up_once() {
    let rows = vec![
        status_row(1, Some(76561198000000001)),
        status_row(2, None),
        status_row(3, Some(76561198000000002)),
        status_row(4, Some(76561198000000001)),
        status_row(5, Some(u64::MAX)),
    ];
    assert_eq!(lookup_keys(&rows), vec![76561198000000001, 76561198000000002]);
    assert!(lookup_keys(&Vec::new()).is_empty());
}

#[test]
fn status_rows_show_steam_ids_as_text() {
    let link = ConsolePlayerLink { id: "abc".to_string(), display_name: "Alice".to_string() };
    let p = console_player(status_row(7, Some(76561198012345678)), Some(link));
    assert_eq!(p.userid, 7);
    assert_eq!(p.name, "p7");
    assert_eq!(p.steam_id64.as_deref(), Some("76561198012345678"));
    assert_eq!(p.player.as_ref().map(|l| l.display_name.as_str()), Some("Alice"));
    assert_eq!(p.ping, Some(12));
    let bot = console_player(status_row(8, None), None);
    assert!(bot.steam_id64.is_none());
    assert!(bot.bot);
    assert!(bot.player.is_none());
}
