use portal_api::api_error::{ApiError, ErrorKind};
use portal_api::clock::Instant;
use portal_api::console::{next_line, ActionEffect, ConsoleAction};
use portal_api::console_flow::{
    action_effect_outcome, map_change_outcome, on_console_event, ConsoleEvent, ConsoleFlow, ConsoleStep,
    EffectOutcome,
};
use portal_api::games::{game_update_change, UpdateGameRequest};
use portal_api::internal::{
    first_stats_step, next_stats_step, AccumulateFlags, MatchOutcome, MatchStatsPlan, PlayerMatchLine, StatsEvent,
    StatsStep,
};
use portal_api::json::{Json, JsonNumber};
use portal_api::match_server::{live_score_of, live_score_shown, ReservationPhase, RoundEnd};

fn conflict() -> ApiError {
    ApiError { kind: ErrorKind::Conflict, message: "busy".to_string() }
}

fn run(flow: ConsoleFlow, events: &[ConsoleEvent]) -> Vec<ConsoleStep> {
    events.iter().map(|e| on_console_event(flow, *e)).collect()
}

#[test]
fn console_refusals_stop_before_anything_is_touched() {
    let flow = ConsoleFlow::Action(ConsoleAction::Pause);
    assert_eq!(on_console_event(flow, ConsoleEvent::Prepared { ok: false, connected: true }), ConsoleStep::Refuse);
    assert_eq!(on_console_event(flow, ConsoleEvent::Prepared { ok: true, connected: false }), ConsoleStep::Refuse);
    assert_eq!(
        on_console_event(flow, ConsoleEvent::Prepared { ok: true, connected: true }),
        ConsoleStep::LookUpReservation
    );
    assert_eq!(on_console_event(flow, ConsoleEvent::EffectDecided(EffectOutcome::Refused)), ConsoleStep::Refuse);
    assert_eq!(on_console_event(flow, ConsoleEvent::CancelDone(false)), ConsoleStep::Refuse);
}

#[test]
fn end_match_cancels_before_the_lines_and_audits_once() {
    let flow = ConsoleFlow::Action(ConsoleAction::EndMatch);
    let steps = run(
        flow,
        &[
            ConsoleEvent::Prepared { ok: true, connected: true },
            ConsoleEvent::EffectDecided(EffectOutcome::Cancel(7)),
            ConsoleEvent::CancelDone(true),
            ConsoleEvent::LinesDone(true),
            ConsoleEvent::Audited,
        ],
    );
    assert_eq!(
        steps,
        vec![
            ConsoleStep::LookUpReservation,
            ConsoleStep::CancelMatch(7),
            ConsoleStep::RunLines,
            ConsoleStep::WriteAudit,
            ConsoleStep::Respond
        ]
    );
}

#[test]
fn practice_stop_releases_holds_even_when_lines_fail() {
    let flow = ConsoleFlow::Action(ConsoleAction::PracticeStop);
    assert_eq!(on_console_event(flow, ConsoleEvent::LinesDone(false)), ConsoleStep::ReleasePracticeHolds);
    assert_eq!(on_console_event(flow, ConsoleEvent::HoldsReleased), ConsoleStep::WriteAudit);
    let other = ConsoleFlow::Action(ConsoleAction::PracticeStart);
    assert_eq!(on_console_event(other, ConsoleEvent::EffectDecided(EffectOutcome::Hold)), ConsoleStep::PlaceHold);
    assert_eq!(on_console_event(other, ConsoleEvent::HoldPlaced), ConsoleStep::RunLines);
    assert_eq!(on_console_event(other, ConsoleEvent::LinesDone(false)), ConsoleStep::WriteAudit);
}

#[test]
fn map_changes_cancel_then_hold_then_send() {
    let f = ConsoleFlow::MapChange;
    assert_eq!(on_console_event(f, ConsoleEvent::EffectDecided(EffectOutcome::Nothing)), ConsoleStep::PlaceHold);
    assert_eq!(on_console_event(f, ConsoleEvent::EffectDecided(EffectOutcome::Cancel(3))), ConsoleStep::CancelMatch(3));
    assert_eq!(on_console_event(f, ConsoleEvent::CancelDone(true)), ConsoleStep::PlaceHold);
    assert_eq!(on_console_event(f, ConsoleEvent::HoldPlaced), ConsoleStep::RunLines);
    assert_eq!(on_console_event(f, ConsoleEvent::LinesDone(true)), ConsoleStep::WriteAudit);
    assert_eq!(on_console_event(f, ConsoleEvent::Audited), ConsoleStep::Respond);
}

#[test]
fn reservation_checks_become_outcomes() {
    assert_eq!(action_effect_outcome(&Err(conflict())), EffectOutcome::Refused);
    assert_eq!(action_effect_outcome(&Ok(ActionEffect::CancelMatch(5))), EffectOutcome::Cancel(5));
    assert_eq!(
        action_effect_outcome(&Ok(ActionEffect::PlaceHold(Instant { secs: 10, nanos: 0 }))),
        EffectOutcome::Hold
    );
    assert_eq!(action_effect_outcome(&Ok(ActionEffect::Nothing)), EffectOutcome::Nothing);
    assert_eq!(map_change_outcome(&Err(conflict())), EffectOutcome::Refused);
    assert_eq!(map_change_outcome(&Ok(Some(9))), EffectOutcome::Cancel(9));
    assert_eq!(map_change_outcome(&Ok(None)), EffectOutcome::Nothing);
}

#[test]
fn lines_stop_at_the_first_failure() {
    assert!(next_line(0, false, 2));
    assert!(next_line(1, true, 2));
    assert!(!next_line(1, false, 2));
    assert!(!next_line(2, true, 2));
    assert!(!next_line(0, true, 0));
}

fn score_payload() -> Json {
    let score = |v: u64| Json::Object(vec![("score".to_string(), Json::Number(JsonNumber::PosInt(v)))]);
    Json::Object(vec![("team1".to_string(), score(8)), ("team2".to_string(), score(5))])
}

#[test]
fn live_score_only_while_live() {
    assert!(live_score_shown(ReservationPhase::Live));
    assert!(!live_score_shown(ReservationPhase::Ready));
    let ev = Some(RoundEnd { payload: score_payload(), map_number: Some(0), round_number: Some(13) });
    let s = live_score_of(ReservationPhase::Live, &ev).unwrap();
    assert_eq!((s.team1_score, s.team2_score, s.round_number), (8, 5, Some(13)));
    assert!(live_score_of(ReservationPhase::Ready, &ev).is_none());
    assert!(live_score_of(ReservationPhase::Live, &None).is_none());
}

#[test]
fn game_edits_touch_only_presentation() {
    let c = game_update_change(UpdateGameRequest {
        display_name: Some("Counter-Strike 2".to_string()),
        short_name: None,
        description: Some("desc".to_string()),
        icon_url: None,
        is_featured: Some(true),
        sort_order: Some(3),
    });
    assert_eq!(c.display_name.as_deref(), Some("Counter-Strike 2"));
    assert!(c.short_name.is_none());
    assert_eq!(c.description.as_deref(), Some("desc"));
    assert_eq!(c.is_featured, Some(true));
    assert_eq!(c.sort_order, Some(3));
    assert!(c.available_maps.is_none() && c.default_map_pool.is_none() && c.rank_tiers.is_none());
    assert!(c.team_size_min.is_none() && c.team_size_max.is_none() && c.team_size_default.is_none());
}

fn line(outcome: MatchOutcome) -> PlayerMatchLine {
    PlayerMatchLine {
        account_id: 1,
        steam_id_64: 76561197960265729,
        team: 1,
        outcome,
        kills: 0,
        deaths: 0,
        assists: 0,
        score: 0,
        headshots: 0,
        mvps: 0,
        entry_3k: 0,
        entry_4k: 0,
        entry_5k: 0,
    }
}

fn plan(lines: Vec<PlayerMatchLine>) -> MatchStatsPlan {
    MatchStatsPlan {
        map: "de_dust2".to_string(),
        match_time: None,
        team_scores: vec![13, 7],
        stored_scores: vec![13, 7],
        duration_secs: 0,
        lines,
    }
}

#[test]
fn stats_recording_skips_unknown_players_and_counts_once() {
    let p = plan(vec![line(MatchOutcome::Win), line(MatchOutcome::Loss)]);
    assert_eq!(first_stats_step(&p), StatsStep::LookUp(0));
    assert_eq!(first_stats_step(&plan(vec![])), StatsStep::Done);
    assert_eq!(next_stats_step(&p, StatsStep::LookUp(0), StatsEvent::PlayerFound(None)), StatsStep::LookUp(1));
    assert_eq!(next_stats_step(&p, StatsStep::LookUp(1), StatsEvent::PlayerFound(Some(4))), StatsStep::Record(1, 4));
    assert_eq!(
        next_stats_step(&p, StatsStep::Record(1, 4), StatsEvent::HistoryRecorded(true)),
        StatsStep::Accumulate(1, 4, AccumulateFlags { is_win: false, is_loss: true, is_draw: false })
    );
    assert_eq!(next_stats_step(&p, StatsStep::Record(0, 4), StatsEvent::HistoryRecorded(false)), StatsStep::LookUp(1));
    assert_eq!(
        next_stats_step(&p, StatsStep::Accumulate(1, 4, AccumulateFlags { is_win: false, is_loss: true, is_draw: false }),
            StatsEvent::Accumulated),
        StatsStep::Done
    );
    assert_eq!(next_stats_step(&p, StatsStep::LookUp(0), StatsEvent::Failed), StatsStep::Fail);
}
