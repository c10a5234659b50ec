//! Result claims and result reviews: the ids a claim carries, how a
//! confirmed result is oriented into winner and loser for the completion
//! saga, what the caller is told about the saga, and the acknowledgment of
//! a roster review.

use vstd::prelude::*;
use crate::api_error::{ApiError, ErrorKind, is_error};
use crate::clock::Instant;
use crate::ids::{uuid_from_text, uuid_text, uuid_string, parse_id};

verus! {

/// Every text of `raw` reads as a UUID.
pub open spec fn all_ids(raw: Seq<String>) -> bool {
    forall|k: int| 0 <= k < raw.len() ==> (#[trigger] uuid_from_text(raw[k]@)) is Some
}

/// `ids` are the values of the UUID texts `raw`, in order.
pub open spec fn parsed_ids(raw: Seq<String>, ids: Seq<u128>) -> bool {
    &&& ids.len() == raw.len()
    &&& forall|k: int| 0 <= k < raw.len() ==> uuid_from_text(raw[k]@) == Some(#[trigger] ids[k])
}

/// Parses a list of ids, answering a bad request with `message` at the
/// first text that is no UUID.
pub fn parse_id_list(raw: &Vec<String>, message: &str) -> (r: Result<Vec<u128>, ApiError>)
    ensures
        all_ids(raw@) ==> (r matches Ok(ids) && parsed_ids(raw@, ids@)),
        !all_ids(raw@) ==> (r matches Err(e) && is_error(e, ErrorKind::BadRequest, message@)),
{
    let n = raw.len();
    let mut out: Vec<u128> = Vec::new();
    let mut i: usize = 0;
    while i < n
        invariant
            n == raw@.len(),
            0 <= i <= n,
            out@.len() == i,
            forall|k: int| 0 <= k < i ==> uuid_from_text(raw@[k]@) == Some(#[trigger] out@[k]),
        decreases n - i,
    {
        match parse_id(raw[i].as_str(), message) {
            Ok(v) => out.push(v),
            Err(e) => {
                assert(!all_ids(raw@));
                return Err(e);
            }
        }
        i += 1;
    }
    assert(all_ids(raw@)) by {
        assert forall|k: int| 0 <= k < raw@.len() implies (#[trigger] uuid_from_text(raw@[k]@)) is Some by {
            assert(uuid_from_text(raw@[k]@) == Some(out@[k]));
        }
    }
    Ok(out)
}

/// The ids one game of a claim refers to.
#[derive(Debug, Clone)]
pub struct GameResultIds {
    pub evidence_ids: Vec<String>,
    pub demo_link_id: Option<String>,
}

/// The parsed ids of one game.
#[derive(Debug, Clone)]
pub struct ParsedGameIds {
    pub evidence_ids: Vec<u128>,
    pub demo_link_id: Option<u128>,
}

/// The answer for an evidence id that is no UUID.
pub open spec fn bad_evidence() -> Seq<char> {
    "Invalid evidence ID format"@
}

/// The answer for a demo link id that is no UUID.
pub open spec fn bad_demo_link() -> Seq<char> {
    "Invalid demo link ID format"@
}

/// What is wrong with a game's ids: a bad demo link id is reported before
/// a bad evidence id of the same game.
pub open spec fn game_fault(g: GameResultIds) -> Option<Seq<char>> {
    if g.demo_link_id matches Some(d) && uuid_from_text(d@) is None {
        Some(bad_demo_link())
    } else if !all_ids(g.evidence_ids@) {
        Some(bad_evidence())
    } else {
        None
    }
}

/// `p` holds the parsed ids of `g`.
pub open spec fn parsed_game(g: GameResultIds, p: ParsedGameIds) -> bool {
    &&& parsed_ids(g.evidence_ids@, p.evidence_ids@)
    &&& p.demo_link_id == match g.demo_link_id {
        Some(d) => uuid_from_text(d@),
        None => None::<u128>,
    }
}

/// Parses the ids of one game.
pub fn parse_game_ids(g: &GameResultIds) -> (r: Result<ParsedGameIds, ApiError>)
    ensures
        match game_fault(*g) {
            Some(m) => r matches Err(e) && is_error(e, ErrorKind::BadRequest, m),
            None => r matches Ok(p) && parsed_game(*g, p),
        },
{
    let evidence = parse_id_list(&g.evidence_ids, "Invalid evidence ID format");
    let demo_link_id = match &g.demo_link_id {
        Some(d) => match parse_id(d.as_str(), "Invalid demo link ID format") {
            Ok(v) => Some(v),
            Err(e) => return Err(e),
        },
        None => None,
    };
    match evidence {
        Ok(ids) => Ok(ParsedGameIds { evidence_ids: ids, demo_link_id }),
        Err(e) => Err(e),
    }
}

/// The fault of the first game whose ids are wrong.
pub open spec fn games_fault(games: Seq<GameResultIds>) -> Option<Seq<char>>
    decreases games.len(),
{
    if games.len() == 0 {
        None
    } else {
        match game_fault(games[0]) {
            Some(m) => Some(m),
            None => games_fault(games.drop_first()),
        }
    }
}

/// The first fault of a claim's ids, in the order they are read: the
/// claimed winner, each game, the claim's evidence, its demo links.
pub open spec fn claim_fault(
    winner: Seq<char>,
    games: Seq<GameResultIds>,
    evidence_ids: Seq<String>,
    demo_link_ids: Seq<String>,
) -> Option<Seq<char>> {
    if uuid_from_text(winner) is None {
        Some("Invalid winner registration ID format"@)
    } else if games_fault(games) is Some {
        games_fault(games)
    } else if !all_ids(evidence_ids) {
        Some(bad_evidence())
    } else if !all_ids(demo_link_ids) {
        Some(bad_demo_link())
    } else {
        None
    }
}

/// The ids of a result claim, parsed.
#[derive(Debug, Clone)]
pub struct ParsedClaimIds {
    pub winner_registration_id: u128,
    pub games: Vec<ParsedGameIds>,
    pub evidence_ids: Vec<u128>,
    pub demo_link_ids: Vec<u128>,
}

/// Parses the ids of a result claim; the first bad id is answered.
pub fn parse_claim_ids(
    winner: &str,
    games: &Vec<GameResultIds>,
    evidence_ids: &Vec<String>,
    demo_link_ids: &Vec<String>,
) -> (r: Result<ParsedClaimIds, ApiError>)
    ensures
        match claim_fault(winner@, games@, evidence_ids@, demo_link_ids@) {
            Some(m) => r matches Err(e) && is_error(e, ErrorKind::BadRequest, m),
            None => r matches Ok(p) && {
                &&& uuid_from_text(winner@) == Some(p.winner_registration_id)
                &&& p.games@.len() == games@.len()
                &&& forall|k: int| 0 <= k < games@.len() ==> parsed_game(#[trigger] games@[k], p.games@[k])
                &&& parsed_ids(evidence_ids@, p.evidence_ids@)
                &&& parsed_ids(demo_link_ids@, p.demo_link_ids@)
            },
        },
{
    let w = match parse_id(winner, "Invalid winner registration ID format") {
        Ok(v) => v,
        Err(e) => return Err(e),
    };
    let n = games.len();
    let mut parsed: Vec<ParsedGameIds> = Vec::new();
    let mut i: usize = 0;
    assert(games@.subrange(0, n as int) =~= games@);
    while i < n
        invariant
            n == games@.len(),
            0 <= i <= n,
            parsed@.len() == i,
            uuid_from_text(winner@) == Some(w),
            games_fault(games@) == games_fault(games@.subrange(i as int, n as int)),
            forall|k: int| 0 <= k < i ==> parsed_game(#[trigger] games@[k], parsed@[k]),
        decreases n - i,
    {
        let ghost rest = games@.subrange(i as int, n as int);
        assert(rest.drop_first() =~= games@.subrange(i + 1, n as int));
        assert(rest[0] == games@[i as int]);
        match parse_game_ids(&games[i]) {
            Ok(p) => parsed.push(p),
            Err(e) => return Err(e),
        }
        i += 1;
    }
    assert(games_fault(games@.subrange(n as int, n as int)) is None);
    let ev = match parse_id_list(evidence_ids, "Invalid evidence ID format") {
        Ok(v) => v,
        Err(e) => return Err(e),
    };
    let dl = match parse_id_list(demo_link_ids, "Invalid demo link ID format") {
        Ok(v) => v,
        Err(e) => return Err(e),
    };
    Ok(ParsedClaimIds { winner_registration_id: w, games: parsed, evidence_ids: ev, demo_link_ids: dl })
}

/// When an unconfirmed claim confirms itself: its own time, else now.
pub fn auto_confirm_time(claim_time: Option<Instant>, now: Instant) -> (r: Instant)
    ensures
        r == match claim_time {
            Some(t) => t,
            None => now,
        },
{
    match claim_time {
        Some(t) => t,
        None => now,
    }
}

/// A confirmed result as the completion saga takes it.
#[derive(Debug, Clone, Copy, PartialEq, Eq, Structural)]
pub struct Orientation<S> {
    pub loser_registration_id: u128,
    pub winner_score: S,
    pub loser_score: S,
}

/// Orients a result around its winner: when the winner is the first
/// participant, the loser is the second and the scores stay in order;
/// otherwise the loser is the first participant and the scores swap. None
/// when that loser slot is empty.
pub open spec fn orient_spec<S>(p1: Option<u128>, p2: Option<u128>, winner: u128, s1: S, s2: S) -> Option<Orientation<S>> {
    if p1 == Some(winner) {
        match p2 {
            Some(l) => Some(Orientation { loser_registration_id: l, winner_score: s1, loser_score: s2 }),
            None => None,
        }
    } else {
        match p1 {
            Some(l) => Some(Orientation { loser_registration_id: l, winner_score: s2, loser_score: s1 }),
            None => None,
        }
    }
}

/// Orients a result around its winner.
pub fn orient_result<S: Copy>(p1: Option<u128>, p2: Option<u128>, winner: u128, s1: S, s2: S) -> (r: Option<Orientation<S>>)
    ensures
        r == orient_spec(p1, p2, winner, s1, s2),
{
    if p1 == Some(winner) {
        match p2 {
            Some(l) => Some(Orientation { loser_registration_id: l, winner_score: s1, loser_score: s2 }),
            None => None,
        }
    } else {
        match p1 {
            Some(l) => Some(Orientation { loser_registration_id: l, winner_score: s2, loser_score: s1 }),
            None => None,
        }
    }
}

/// The orientation of a confirmed claim; an internal error when the
/// match has no loser participant.
pub fn claim_orientation(p1: Option<u128>, p2: Option<u128>, winner: u128, s1: i32, s2: i32) -> (r: Result<Orientation<i32>, ApiError>)
    ensures
        match orient_spec(p1, p2, winner, s1, s2) {
            Some(o) => r == Ok::<Orientation<i32>, ApiError>(o),
            None => r matches Err(e) && is_error(e, ErrorKind::Internal, "Loser participant not found on match"@),
        },
{
    match orient_result(p1, p2, winner, s1, s2) {
        Some(o) => Ok(o),
        None => Err(ApiError::from_str(ErrorKind::Internal, "Loser participant not found on match")),
    }
}

/// The orientation of a match whose review was cleared: its stored winner
/// and scores; refused when it has no winner or no loser participant.
pub fn review_orientation<S: Copy>(p1: Option<u128>, p2: Option<u128>, winner: Option<u128>, s1: S, s2: S) -> (r: Result<(u128, Orientation<S>), String>)
    ensures
        match winner {
            None => r matches Err(m) && m@ == "Match has no winner set"@,
            Some(w) => match orient_spec(p1, p2, w, s1, s2) {
                Some(o) => r == Ok::<(u128, Orientation<S>), String>((w, o)),
                None => r matches Err(m) && m@ == "Match has no loser participant"@,
            },
        },
{
    let w = match winner {
        Some(w) => w,
        None => return Err(String::from_str("Match has no winner set")),
    };
    match orient_result(p1, p2, w, s1, s2) {
        Some(o) => Ok((w, o)),
        None => Err(String::from_str("Match has no loser participant")),
    }
}

/// Orientation is faithful: the winner keeps its own score and the loser
/// is the other participant, whichever side the winner played on.
pub proof fn orientation_is_faithful<S>(p1: u128, p2: u128, winner: u128, s1: S, s2: S)
    requires
        p1 != p2,
        winner == p1 || winner == p2,
    ensures
        orient_spec(Some(p1), Some(p2), winner, s1, s2) matches Some(o) && {
            &&& (winner == p1 ==> o.loser_registration_id == p2 && o.winner_score == s1 && o.loser_score == s2)
            &&& (winner == p2 ==> o.loser_registration_id == p1 && o.winner_score == s2 && o.loser_score == s1)
        },
        orient_spec(Some(p2), Some(p1), winner, s2, s1) == orient_spec(Some(p1), Some(p2), winner, s1, s2),
{
}

/// How the completion saga ended.
#[derive(Debug, Clone, Copy, PartialEq, Eq, Structural)]
pub enum SagaOutcome {
    /// Paused for a result review.
    Paused { review_id: Option<u128> },
    /// Completed; whether the winner moved on to a next match.
    Completed { winner_advanced: bool },
    /// Failed after the claim was confirmed; it is re-driven later.
    Failed,
}

/// What the confirmation answer says about the match.
#[derive(Debug, Clone)]
pub struct ConfirmationView {
    pub match_status: String,
    pub bracket_advanced: bool,
    pub review_pending: Option<bool>,
    pub review_id: Option<String>,
}

/// The confirmation answer for each saga outcome. The match is completed
/// in every case, since the claim itself was confirmed; the bracket only
/// advanced when the saga completed and moved the winner on.
pub fn confirmation_view(saga: SagaOutcome) -> (r: ConfirmationView)
    ensures
        r.match_status@ == "completed"@,
        r.bracket_advanced == (saga matches SagaOutcome::Completed { winner_advanced } && winner_advanced),
        r.review_pending == (if saga is Paused { Some(true) } else { None::<bool> }),
        match saga {
            SagaOutcome::Paused { review_id } => match review_id {
                Some(id) => r.review_id matches Some(t) && t@ == uuid_text(id),
                None => r.review_id is None,
            },
            _ => r.review_id is None,
        },
{
    let status = String::from_str("completed");
    match saga {
        SagaOutcome::Paused { review_id } => ConfirmationView {
            match_status: status,
            bracket_advanced: false,
            review_pending: Some(true),
            review_id: match review_id {
                Some(id) => Some(uuid_string(id)),
                None => None,
            },
        },
        SagaOutcome::Completed { winner_advanced } => ConfirmationView {
            match_status: status,
            bracket_advanced: winner_advanced,
            review_pending: None,
            review_id: None,
        },
        SagaOutcome::Failed => ConfirmationView {
            match_status: status,
            bracket_advanced: false,
            review_pending: None,
            review_id: None,
        },
    }
}

/// The not-found answer when a match has no pending claim.
pub fn no_pending_claim() -> (e: ApiError)
    ensures
        is_error(e, ErrorKind::NotFound, "No pending result claim for this match"@),
{
    ApiError::from_str(ErrorKind::NotFound, "No pending result claim for this match")
}

/// The display name of a user among `names` (user id, name): the last
/// pair for that user, as when the pairs are collected into a map.
pub open spec fn name_of(names: Seq<(u128, String)>, user: u128) -> Option<Seq<char>>
    decreases names.len(),
{
    if names.len() == 0 {
        None
    } else if names.last().0 == user {
        Some(names.last().1@)
    } else {
        name_of(names.drop_last(), user)
    }
}

/// Looks a user's display name up.
pub fn display_name_for(names: &Vec<(u128, String)>, user: u128) -> (r: Option<String>)
    ensures
        match name_of(names@, user) {
            Some(t) => r matches Some(s) && s@ == t,
            None => r is None,
        },
{
    let mut i: usize = names.len();
    assert(names@.subrange(0, i as int) =~= names@);
    while i > 0
        invariant
            0 <= i <= names@.len(),
            name_of(names@, user) == name_of(names@.subrange(0, i as int), user),
        decreases i,
    {
        let ghost pre = names@.subrange(0, i as int);
        assert(pre.drop_last() =~= names@.subrange(0, i - 1));
        assert(pre.last() == names@[i - 1]);
        if names[i - 1].0 == user {
            return Some(names[i - 1].1.clone());
        }
        i -= 1;
    }
    None
}

/// The acknowledgment query of a roster review.
#[derive(Debug, Clone)]
pub struct AcknowledgeParams {
    pub registration_id: String,
}

/// The registration acknowledging; `Invalid registration ID format` otherwise.
pub fn acknowledging_registration(params: &AcknowledgeParams) -> (r: Result<u128, ApiError>)
    ensures
        match uuid_from_text(params.registration_id@) {
            Some(v) => r == Ok::<u128, ApiError>(v),
            None => r matches Err(e) && is_error(e, ErrorKind::BadRequest, "Invalid registration ID format"@),
        },
{
    parse_id(params.registration_id.as_str(), "Invalid registration ID format")
}

/// The not-found answer for a match without a review.
pub fn no_review_for_match(match_id: u128) -> (e: ApiError)
    ensures
        is_error(e, ErrorKind::NotFound, "No result review found for match "@ + uuid_text(match_id)),
{
    let mut m = String::from_str("No result review found for match ");
    let id = uuid_string(match_id);
    m.append(id.as_str());
    ApiError::new(ErrorKind::NotFound, m)
}

/// The not-found answer for an unknown review id.
pub fn review_not_found(review_id: u128) -> (e: ApiError)
    ensures
        is_error(e, ErrorKind::NotFound, "Result review "@ + uuid_text(review_id) + " not found"@),
{
    let mut m = String::from_str("Result review ");
    let id = uuid_string(review_id);
    m.append(id.as_str());
    m.append(" not found");
    ApiError::new(ErrorKind::NotFound, m)
}

/// The answer to an acknowledgment, and whether the paused saga resumes:
/// only once both captains acknowledged a review about the roster alone.
pub fn acknowledgment_outcome(both_acknowledged: bool, roster_only: bool) -> (r: (String, bool))
    ensures
        r.0@ == (if both_acknowledged {
            "Both captains have acknowledged the roster mismatch"@
        } else {
            "Acknowledgment recorded. Waiting for the other captain."@
        }),
        r.1 == (both_acknowledged && roster_only),
{
    let message = if both_acknowledged {
        String::from_str("Both captains have acknowledged the roster mismatch")
    } else {
        String::from_str("Acknowledgment recorded. Waiting for the other captain.")
    };
    (message, both_acknowledged && roster_only)
}

} // verus!
