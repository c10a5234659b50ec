//! The order in which a console action and a map change touch the world:
//! check, reserve, cancel, hold, send, release, audit, answer. Each step is
//! decided from the outcome of the one before; the caller performs it.

use vstd::prelude::*;
use crate::api_error::ApiError;
use crate::console::{ConsoleAction, ActionEffect};

verus! {

/// Which console request is running.
#[derive(Debug, Clone, Copy, PartialEq, Eq, Structural)]
pub enum ConsoleFlow {
    Action(ConsoleAction),
    MapChange,
}

/// The next thing a console request does.
#[derive(Debug, Clone, Copy, PartialEq, Eq, Structural)]
pub enum ConsoleStep {
    /// Answer with the refusal just produced; nothing more is done.
    Refuse,
    /// Look up the server's live reservation.
    LookUpReservation,
    /// Cancel the assignment of this match.
    CancelMatch(u128),
    /// Place the hold that keeps the allocator off the server.
    PlaceHold,
    /// Send the console lines.
    RunLines,
    /// Release the console's practice holds.
    ReleasePracticeHolds,
    /// Write the one audit row of the request.
    WriteAudit,
    /// Answer the request.
    Respond,
}

/// What the reservation check decided.
#[derive(Debug, Clone, Copy, PartialEq, Eq, Structural)]
pub enum EffectOutcome {
    /// Refused (a practice start, or a map change without force, under a
    /// live reservation).
    Refused,
    /// Cancel this match's assignment first.
    Cancel(u128),
    /// Place a practice hold first.
    Hold,
    /// Nothing before the lines.
    Nothing,
}

/// What just happened.
#[derive(Debug, Clone, Copy, PartialEq, Eq, Structural)]
pub enum ConsoleEvent {
    /// The plan (or map target) was built, or refused, and the agent's
    /// connection checked.
    Prepared { ok: bool, connected: bool },
    /// The reservation check decided.
    EffectDecided(EffectOutcome),
    /// The cancellation ran; whether it succeeded.
    CancelDone(bool),
    /// The hold was placed (a failed placement is only logged).
    HoldPlaced,
    /// The lines ran; whether all succeeded.
    LinesDone(bool),
    /// The practice holds were released (failures are only logged).
    HoldsReleased,
    /// The audit row was written.
    Audited,
}

/// The step after `ev`. A refused plan or an unconnected agent stops the
/// request before anything is touched; a refused reservation check or a
/// failed cancellation stops it before any line is sent. A map change
/// always holds the server before its line; a practice stop releases its
/// holds after the lines whatever they returned; the audit row follows and
/// the answer comes last.
pub open spec fn console_step(flow: ConsoleFlow, ev: ConsoleEvent) -> ConsoleStep {
    match ev {
        ConsoleEvent::Prepared { ok, connected } => if ok && connected {
            ConsoleStep::LookUpReservation
        } else {
            ConsoleStep::Refuse
        },
        ConsoleEvent::EffectDecided(e) => match e {
            EffectOutcome::Refused => ConsoleStep::Refuse,
            EffectOutcome::Cancel(m) => ConsoleStep::CancelMatch(m),
            EffectOutcome::Hold => ConsoleStep::PlaceHold,
            EffectOutcome::Nothing => if flow == ConsoleFlow::MapChange {
                ConsoleStep::PlaceHold
            } else {
                ConsoleStep::RunLines
            },
        },
        ConsoleEvent::CancelDone(ok) => if !ok {
            ConsoleStep::Refuse
        } else if flow == ConsoleFlow::MapChange {
            ConsoleStep::PlaceHold
        } else {
            ConsoleStep::RunLines
        },
        ConsoleEvent::HoldPlaced => ConsoleStep::RunLines,
        ConsoleEvent::LinesDone(_) => if flow == ConsoleFlow::Action(ConsoleAction::PracticeStop) {
            ConsoleStep::ReleasePracticeHolds
        } else {
            ConsoleStep::WriteAudit
        },
        ConsoleEvent::HoldsReleased => ConsoleStep::WriteAudit,
        ConsoleEvent::Audited => ConsoleStep::Respond,
    }
}

/// Decides the step after `ev`.
pub fn on_console_event(flow: ConsoleFlow, ev: ConsoleEvent) -> (r: ConsoleStep)
    ensures
        r == console_step(flow, ev),
{
    match ev {
        ConsoleEvent::Prepared { ok, connected } => if ok && connected {
            ConsoleStep::LookUpReservation
        } else {
            ConsoleStep::Refuse
        },
        ConsoleEvent::EffectDecided(e) => match e {
            EffectOutcome::Refused => ConsoleStep::Refuse,
            EffectOutcome::Cancel(m) => ConsoleStep::CancelMatch(m),
            EffectOutcome::Hold => ConsoleStep::PlaceHold,
            EffectOutcome::Nothing => if flow == ConsoleFlow::MapChange {
                ConsoleStep::PlaceHold
            } else {
                ConsoleStep::RunLines
            },
        },
        ConsoleEvent::CancelDone(ok) => if !ok {
            ConsoleStep::Refuse
        } else if flow == ConsoleFlow::MapChange {
            ConsoleStep::PlaceHold
        } else {
            ConsoleStep::RunLines
        },
        ConsoleEvent::HoldPlaced => ConsoleStep::RunLines,
        ConsoleEvent::LinesDone(_) => if flow == ConsoleFlow::Action(ConsoleAction::PracticeStop) {
            ConsoleStep::ReleasePracticeHolds
        } else {
            ConsoleStep::WriteAudit
        },
        ConsoleEvent::HoldsReleased => ConsoleStep::WriteAudit,
        ConsoleEvent::Audited => ConsoleStep::Respond,
    }
}

/// The reservation check of a console action as an outcome.
pub fn action_effect_outcome(effect: &Result<ActionEffect, ApiError>) -> (r: EffectOutcome)
    ensures
        r == match *effect {
            Err(_) => EffectOutcome::Refused,
            Ok(ActionEffect::CancelMatch(m)) => EffectOutcome::Cancel(m),
            Ok(ActionEffect::PlaceHold(_)) => EffectOutcome::Hold,
            Ok(ActionEffect::Nothing) => EffectOutcome::Nothing,
        },
{
    match effect {
        Err(_) => EffectOutcome::Refused,
        Ok(ActionEffect::CancelMatch(m)) => EffectOutcome::Cancel(*m),
        Ok(ActionEffect::PlaceHold(_)) => EffectOutcome::Hold,
        Ok(ActionEffect::Nothing) => EffectOutcome::Nothing,
    }
}

/// The reservation check of a map change as an outcome.
pub fn map_change_outcome(checked: &Result<Option<u128>, ApiError>) -> (r: EffectOutcome)
    ensures
        r == match *checked {
            Err(_) => EffectOutcome::Refused,
            Ok(Some(m)) => EffectOutcome::Cancel(m),
            Ok(None) => EffectOutcome::Nothing,
        },
{
    match checked {
        Err(_) => EffectOutcome::Refused,
        Ok(Some(m)) => EffectOutcome::Cancel(*m),
        Ok(None) => EffectOutcome::Nothing,
    }
}

/// The steps a request takes from `step` on, given the reservation check,
/// whether a cancellation succeeds and whether the lines succeed.
pub open spec fn run_from(
    flow: ConsoleFlow,
    step: ConsoleStep,
    effect: EffectOutcome,
    cancel_ok: bool,
    lines_ok: bool,
    fuel: nat,
) -> Seq<ConsoleStep>
    decreases fuel,
{
    if fuel == 0 {
        seq![step]
    } else {
        let next = match step {
            ConsoleStep::LookUpReservation => Some(console_step(flow, ConsoleEvent::EffectDecided(effect))),
            ConsoleStep::CancelMatch(_) => Some(console_step(flow, ConsoleEvent::CancelDone(cancel_ok))),
            ConsoleStep::PlaceHold => Some(console_step(flow, ConsoleEvent::HoldPlaced)),
            ConsoleStep::RunLines => Some(console_step(flow, ConsoleEvent::LinesDone(lines_ok))),
            ConsoleStep::ReleasePracticeHolds => Some(console_step(flow, ConsoleEvent::HoldsReleased)),
            ConsoleStep::WriteAudit => Some(console_step(flow, ConsoleEvent::Audited)),
            _ => None,
        };
        match next {
            Some(n) => seq![step] + run_from(flow, n, effect, cancel_ok, lines_ok, (fuel - 1) as nat),
            None => seq![step],
        }
    }
}

/// The whole run of a request.
pub open spec fn console_run(
    flow: ConsoleFlow,
    prepared_ok: bool,
    connected: bool,
    effect: EffectOutcome,
    cancel_ok: bool,
    lines_ok: bool,
) -> Seq<ConsoleStep> {
    run_from(
        flow,
        console_step(flow, ConsoleEvent::Prepared { ok: prepared_ok, connected }),
        effect,
        cancel_ok,
        lines_ok,
        8,
    )
}

/// The tail of a run once the lines are sent.
pub open spec fn after_lines(flow: ConsoleFlow) -> Seq<ConsoleStep> {
    if flow == ConsoleFlow::Action(ConsoleAction::PracticeStop) {
        seq![ConsoleStep::RunLines, ConsoleStep::ReleasePracticeHolds, ConsoleStep::WriteAudit, ConsoleStep::Respond]
    } else {
        seq![ConsoleStep::RunLines, ConsoleStep::WriteAudit, ConsoleStep::Respond]
    }
}

/// A refusal touches nothing: a refused plan or map target, or an agent
/// that is not connected, ends the request before the reservation is even
/// looked up; a refused reservation check or a failed cancellation ends it
/// before any hold, line or audit row.
pub proof fn console_refusal_touches_nothing(
    flow: ConsoleFlow,
    prepared_ok: bool,
    connected: bool,
    effect: EffectOutcome,
    cancel_ok: bool,
    lines_ok: bool,
)
    ensures
        !(prepared_ok && connected) ==> console_run(flow, prepared_ok, connected, effect, cancel_ok, lines_ok)
            == seq![ConsoleStep::Refuse],
        prepared_ok && connected && effect == EffectOutcome::Refused
            ==> console_run(flow, prepared_ok, connected, effect, cancel_ok, lines_ok)
            == seq![ConsoleStep::LookUpReservation, ConsoleStep::Refuse],
        (prepared_ok && connected && effect is Cancel && !cancel_ok)
            ==> console_run(flow, prepared_ok, connected, effect, cancel_ok, lines_ok)
            == seq![ConsoleStep::LookUpReservation, ConsoleStep::CancelMatch(effect->0), ConsoleStep::Refuse],
{
    reveal_with_fuel(run_from, 3);
}

/// The order of a console action that goes ahead: the reservation is looked
/// up; a live match is cancelled, or a practice hold placed, before any
/// line is sent; a practice stop releases its holds after the lines,
/// whether or not they succeeded; exactly one audit row is written after
/// the lines, and the answer comes last.
pub proof fn action_run_order(action: ConsoleAction, effect: EffectOutcome, lines_ok: bool)
    requires
        effect != EffectOutcome::Refused,
    ensures
        console_run(ConsoleFlow::Action(action), true, true, effect, true, lines_ok) == seq![ConsoleStep::LookUpReservation]
            + match effect {
                EffectOutcome::Cancel(m) => seq![ConsoleStep::CancelMatch(m)],
                EffectOutcome::Hold => seq![ConsoleStep::PlaceHold],
                _ => Seq::<ConsoleStep>::empty(),
            }
            + after_lines(ConsoleFlow::Action(action)),
{
    reveal_with_fuel(run_from, 8);
    let flow = ConsoleFlow::Action(action);
    let tail = match effect {
        EffectOutcome::Cancel(m) => seq![ConsoleStep::CancelMatch(m)],
        EffectOutcome::Hold => seq![ConsoleStep::PlaceHold],
        _ => Seq::<ConsoleStep>::empty(),
    };
    assert(console_run(flow, true, true, effect, true, lines_ok) =~= seq![ConsoleStep::LookUpReservation] + tail
        + after_lines(flow));
}

/// The order of a map change that goes ahead: a live match (with force) is
/// cancelled before the hold, the hold is placed before the map command,
/// then exactly one audit row and the answer.
pub proof fn map_change_run_order(effect: EffectOutcome, lines_ok: bool)
    requires
        effect == EffectOutcome::Nothing || effect is Cancel,
    ensures
        console_run(ConsoleFlow::MapChange, true, true, effect, true, lines_ok) == seq![ConsoleStep::LookUpReservation]
            + match effect {
                EffectOutcome::Cancel(m) => seq![ConsoleStep::CancelMatch(m)],
                _ => Seq::<ConsoleStep>::empty(),
            }
            + seq![ConsoleStep::PlaceHold, ConsoleStep::RunLines, ConsoleStep::WriteAudit, ConsoleStep::Respond],
{
    reveal_with_fuel(run_from, 8);
    let tail = match effect {
        EffectOutcome::Cancel(m) => seq![ConsoleStep::CancelMatch(m)],
        _ => Seq::<ConsoleStep>::empty(),
    };
    assert(console_run(ConsoleFlow::MapChange, true, true, effect, true, lines_ok) =~= seq![ConsoleStep::LookUpReservation]
        + tail + seq![ConsoleStep::PlaceHold, ConsoleStep::RunLines, ConsoleStep::WriteAudit, ConsoleStep::Respond]);
}

} // verus!
