//! Endpoints for first-party services: Steam tracking, discovered matches
//! and their enrichment from Game Coordinator data, and demo statistics.

use vstd::prelude::*;
use crate::api_error::{ApiError, ErrorKind, is_error};
use crate::clock::{Instant, rfc3339_time, parse_instant, rfc3339_text, format_rfc3339, writable_instant};
use crate::ids::{uuid_from_text, uuid_text, uuid_string, parse_id};
use crate::json::{Json, get_spec, at_spec, as_i64_spec, oget, oi64, ou64, ostr};
use crate::text::str_eq;

verus! {

/// Query of the active-tracking endpoint.
#[derive(Debug, Clone)]
pub struct ActiveTrackingQuery {
    /// Game slug (e.g. "cs2").
    pub game: String,
}

/// A Steam tracking entry as the poller sees it.
#[derive(Debug, Clone)]
pub struct InternalSteamTrackingEntry {
    pub id: String,
    pub player_id: String,
    pub steam_id_64: i64,
    pub game_auth_code: String,
    pub last_known_code: Option<String>,
    pub poll_errors: i32,
}

/// Body of a poll-result update.
#[derive(Debug, Clone)]
pub struct UpdatePollResultRequest {
    /// The newest share code discovered, if any.
    pub last_known_code: Option<String>,
    /// Error message when the poll failed.
    pub error: Option<String>,
}

/// A batch of matches the poller discovered.
#[derive(Debug, Clone)]
pub struct SubmitDiscoveredMatchesRequest {
    pub tracking_id: String,
    pub game: String,
    pub matches: Vec<DiscoveredMatchEntry>,
}

/// One discovered match.
#[derive(Debug, Clone)]
pub struct DiscoveredMatchEntry {
    pub share_code: String,
    pub match_id: i64,
    pub outcome_id: i64,
    pub token: i32,
}

/// A stored discovered match.
#[derive(Debug, Clone)]
pub struct DiscoveredMatchResponse {
    pub id: String,
    pub share_code: String,
    pub status: String,
}

/// Query of the pending-matches endpoint.
#[derive(Debug, Clone)]
pub struct PendingMatchesQuery {
    pub game: String,
    pub limit: i64,
}

/// How many pending matches are handed out when the query names no limit.
pub fn default_limit() -> (r: i64)
    ensures
        r == 10,
{
    10
}

/// A pending match for the enricher.
#[derive(Debug, Clone)]
pub struct PendingMatchResponse {
    pub id: String,
    pub share_code: String,
    pub match_id: i64,
    pub outcome_id: i64,
    pub token: i32,
    pub retry_count: i32,
}

/// Query of the recent-demo-matches endpoint.
#[derive(Debug, Clone)]
pub struct RecentDemoMatchesQuery {
    pub game: String,
    /// Restrict to the tracking entry of this SteamID64.
    pub steam_id_64: Option<i64>,
    pub limit: i64,
}

/// How many recent demo matches are listed when the query names no limit.
pub fn default_demo_limit() -> (r: i64)
    ensures
        r == 5,
{
    5
}

/// An enriched match that has a demo URL.
#[derive(Debug, Clone)]
pub struct EnrichedMatchWithDemoResponse {
    pub id: String,
    pub share_code: String,
    pub demo_url: String,
    pub enriched_at: Option<String>,
}

/// Body of a failed-enrichment report.
#[derive(Debug, Clone)]
pub struct FailedMatchRequest {
    pub error: String,
}

/// The not-found answer for an unknown game slug.
pub fn game_not_found(slug: &str) -> (e: ApiError)
    ensures
        is_error(e, ErrorKind::NotFound, "Game not found: "@ + slug@),
{
    let mut m = String::from_str("Game not found: ");
    m.append(slug);
    ApiError::new(ErrorKind::NotFound, m)
}

/// The tracking id of a discovered-match batch; `Invalid tracking_id` otherwise.
pub fn parse_tracking_id(raw: &str) -> (r: Result<u128, ApiError>)
    ensures
        match uuid_from_text(raw@) {
            Some(v) => r == Ok::<u128, ApiError>(v),
            None => r matches Err(e) && is_error(e, ErrorKind::BadRequest, "Invalid tracking_id"@),
        },
{
    parse_id(raw, "Invalid tracking_id")
}

/// A discovered-match id from the path; `Invalid match ID` otherwise.
pub fn parse_discovered_match_id(raw: &str) -> (r: Result<u128, ApiError>)
    ensures
        match uuid_from_text(raw@) {
            Some(v) => r == Ok::<u128, ApiError>(v),
            None => r matches Err(e) && is_error(e, ErrorKind::BadRequest, "Invalid match ID"@),
        },
{
    parse_id(raw, "Invalid match ID")
}

/// The status a claim answers: 200 when this caller won the claim, 409 when
/// another enricher holds the match.
pub fn claim_status(claimed: bool) -> (r: u16)
    ensures
        claimed ==> r == 200,
        !claimed ==> r == 409,
{
    if claimed { 200 } else { 409 }
}

// ---------------------------------------------------------------------------
// Recent matches with a demo URL
// ---------------------------------------------------------------------------

/// A tracking entry as the recent-demo lookup reads it.
#[derive(Debug, Clone, Copy, PartialEq, Eq, Structural)]
pub struct TrackingRow {
    pub id: u128,
    pub steam_id_64: i64,
}

/// The id of the first entry tracking `steam_id_64`.
pub open spec fn first_tracking(rows: Seq<TrackingRow>, steam_id_64: i64) -> Option<u128>
    decreases rows.len(),
{
    if rows.len() == 0 {
        None
    } else if rows[0].steam_id_64 == steam_id_64 {
        Some(rows[0].id)
    } else {
        first_tracking(rows.drop_first(), steam_id_64)
    }
}

/// The tracking entry the recent-demo listing is restricted to: none when
/// the query names no SteamID64, else the first active entry that tracks it.
pub fn tracking_for(rows: &Vec<TrackingRow>, steam_id_64: Option<i64>) -> (r: Option<u128>)
    ensures
        match steam_id_64 {
            Some(s) => r == first_tracking(rows@, s),
            None => r is None,
        },
{
    let s = match steam_id_64 {
        Some(s) => s,
        None => return None,
    };
    let n = rows.len();
    let mut i: usize = 0;
    assert(rows@.subrange(0, n as int) =~= rows@);
    while i < n
        invariant
            n == rows@.len(),
            0 <= i <= n,
            steam_id_64 == Some(s),
            first_tracking(rows@, s) == first_tracking(rows@.subrange(i as int, n as int), s),
        decreases n - i,
    {
        let ghost rest = rows@.subrange(i as int, n as int);
        assert(rest.drop_first() =~= rows@.subrange(i + 1, n as int));
        assert(rest[0] == rows@[i as int]);
        if rows[i].steam_id_64 == s {
            return Some(rows[i].id);
        }
        i += 1;
    }
    None
}

/// A discovered match read back for the recent-demo listing.
#[derive(Debug, Clone)]
pub struct EnrichedRow {
    pub id: u128,
    pub share_code: String,
    pub demo_url: Option<String>,
    pub enriched_at: Option<Instant>,
}

/// The rows that have a demo URL, in order.
pub open spec fn with_demo_url(rows: Seq<EnrichedRow>) -> Seq<EnrichedRow>
    decreases rows.len(),
{
    if rows.len() == 0 {
        rows
    } else if rows.last().demo_url is Some {
        with_demo_url(rows.drop_last()).push(rows.last())
    } else {
        with_demo_url(rows.drop_last())
    }
}

/// `resp` lists `row`: its id as UUID text, its share code and demo URL, and
/// its enrichment time in RFC 3339 where it has one (always, for a time
/// chrono can write).
pub open spec fn lists_row(row: EnrichedRow, resp: EnrichedMatchWithDemoResponse) -> bool {
    &&& resp.id@ == uuid_text(row.id)
    &&& resp.share_code@ == row.share_code@
    &&& row.demo_url matches Some(u) && resp.demo_url@ == u@
    &&& row.enriched_at is None ==> resp.enriched_at is None
    &&& (row.enriched_at matches Some(at) && writable_instant(at)) ==> resp.enriched_at is Some
    &&& resp.enriched_at matches Some(t) ==> (row.enriched_at matches Some(at)
        && t@ == rfc3339_text(at.secs, at.nanos))
}

/// The listing of recent enriched matches: those without a demo URL are
/// left out, the others listed in order.
pub fn recent_demo_responses(rows: &Vec<EnrichedRow>) -> (r: Vec<EnrichedMatchWithDemoResponse>)
    ensures
        r@.len() == with_demo_url(rows@).len(),
        forall|k: int| 0 <= k < r@.len() ==> lists_row(with_demo_url(rows@)[k], #[trigger] r@[k]),
{
    let mut out: Vec<EnrichedMatchWithDemoResponse> = Vec::new();
    let n = rows.len();
    let mut i: usize = 0;
    while i < n
        invariant
            n == rows@.len(),
            0 <= i <= n,
            out@.len() == with_demo_url(rows@.subrange(0, i as int)).len(),
            forall|k: int| 0 <= k < out@.len()
                ==> lists_row(with_demo_url(rows@.subrange(0, i as int))[k], #[trigger] out@[k]),
        decreases n - i,
    {
        let ghost pre = rows@.subrange(0, i + 1);
        let ghost old_out = out@;
        assert(pre.drop_last() =~= rows@.subrange(0, i as int));
        assert(pre.last() == rows@[i as int]);
        let row = &rows[i];
        match &row.demo_url {
            Some(url) => {
                let enriched_at = match row.enriched_at {
                    Some(t) => format_rfc3339(t),
                    None => None,
                };
                let resp = EnrichedMatchWithDemoResponse {
                    id: uuid_string(row.id),
                    share_code: row.share_code.clone(),
                    demo_url: url.clone(),
                    enriched_at,
                };
                out.push(resp);
                assert forall|k: int| 0 <= k < out@.len() implies lists_row(
                    with_demo_url(pre)[k],
                    #[trigger] out@[k],
                ) by {
                    if k < old_out.len() {
                        assert(out@[k] == old_out[k]);
                    }
                }
            }
            None => {}
        }
        i += 1;
    }
    assert(rows@.subrange(0, n as int) =~= rows@);
    out
}

// ---------------------------------------------------------------------------
// Enrichment: ratings read from the demo
// ---------------------------------------------------------------------------

/// The SteamID64 of a Steam32 account id.
pub open spec fn steam64_spec(account_id: u32) -> int {
    account_id + 76561197960265728
}

/// Converts a Steam32 account id to its SteamID64.
pub fn steam_id_64(account_id: u32) -> (r: i64)
    ensures
        r == steam64_spec(account_id),
{
    account_id as i64 + 76561197960265728i64
}

/// A player's rank as the demo records it (the rating change it also
/// carries is only logged, and is not kept here).
#[derive(Debug, Clone, Copy, PartialEq, Eq, Structural)]
pub struct DemoPlayerRating {
    /// Steam32 account id.
    pub account_id: u32,
    /// New rank: the CS Rating for Premier, 1-18 otherwise.
    pub rank_id: i32,
    /// 6 Competitive, 7 Wingman, 11 Premier.
    pub rank_type_id: u32,
    pub wins: u32,
}

/// A Premier rating with a rank: the only ratings that are stored.
pub open spec fn is_premier(r: DemoPlayerRating) -> bool {
    r.rank_type_id == 11 && r.rank_id > 0
}

/// The Premier ratings of `s`, in order.
pub open spec fn premier_only(s: Seq<DemoPlayerRating>) -> Seq<DemoPlayerRating>
    decreases s.len(),
{
    if s.len() == 0 {
        s
    } else if is_premier(s.last()) {
        premier_only(s.drop_last()).push(s.last())
    } else {
        premier_only(s.drop_last())
    }
}

/// Keeps the Premier ratings with a non-zero rank.
pub fn premier_ratings(ratings: &Vec<DemoPlayerRating>) -> (r: Vec<DemoPlayerRating>)
    ensures
        r@ == premier_only(ratings@),
{
    let mut out: Vec<DemoPlayerRating> = Vec::new();
    let n = ratings.len();
    let mut i: usize = 0;
    while i < n
        invariant
            n == ratings@.len(),
            0 <= i <= n,
            out@ == premier_only(ratings@.subrange(0, i as int)),
        decreases n - i,
    {
        let ghost pre = ratings@.subrange(0, i + 1);
        assert(pre.drop_last() =~= ratings@.subrange(0, i as int));
        let r = ratings[i];
        if r.rank_type_id == 11 && r.rank_id > 0 {
            out.push(r);
        }
        i += 1;
    }
    assert(ratings@.subrange(0, n as int) =~= ratings@);
    out
}

/// The `match_time` text of the first match of the GC data.
pub open spec fn gc_match_time(gc: Option<Json>) -> Option<Seq<char>> {
    match gc {
        Some(g) => ostr(oget(at_spec(g, 0), "match_time"@)),
        None => None,
    }
}

/// An optional text read as an RFC 3339 instant.
pub open spec fn parsed_time(text: Option<Seq<char>>) -> Option<Instant> {
    match text {
        Some(t) => rfc3339_time(t),
        None => None,
    }
}

/// When a rating was recorded: the GC match time, else the enrichment
/// time, else now.
pub open spec fn recorded_at_spec(gc: Option<Json>, enriched_at: Option<Instant>, now: Instant) -> Instant {
    match parsed_time(gc_match_time(gc)) {
        Some(t) => t,
        None => match enriched_at {
            Some(e) => e,
            None => now,
        },
    }
}

/// The view of an optional text.
pub open spec fn opt_text(s: Option<&str>) -> Option<Seq<char>> {
    match s {
        Some(t) => Some(t@),
        None => None,
    }
}

fn first_match_time(gc: &Option<Json>) -> (r: Option<&str>)
    ensures
        opt_text(r) == gc_match_time(*gc),
{
    match gc {
        Some(g) => match g.at(0) {
            Some(m) => match m.get("match_time") {
                Some(v) => v.as_str(),
                None => None,
            },
            None => None,
        },
        None => None,
    }
}

/// Reads an optional text as an RFC 3339 instant.
pub fn parse_time(text: Option<&str>) -> (r: Option<Instant>)
    ensures
        r == parsed_time(opt_text(text)),
{
    match text {
        Some(t) => parse_instant(t),
        None => None,
    }
}

/// The time a demo rating is recorded at.
pub fn rating_recorded_at(gc_data: &Option<Json>, enriched_at: Option<Instant>, now: Instant) -> (r: Instant)
    ensures
        r == recorded_at_spec(*gc_data, enriched_at, now),
{
    match parse_time(first_match_time(gc_data)) {
        Some(t) => t,
        None => match enriched_at {
            Some(e) => e,
            None => now,
        },
    }
}

// ---------------------------------------------------------------------------
// Enrichment: per-player match statistics from the GC data
// ---------------------------------------------------------------------------

/// How a match ended for one player.
#[derive(Debug, Clone, Copy, PartialEq, Eq, Structural)]
pub enum MatchOutcome {
    Win,
    Loss,
    Draw,
}

/// The result counters a player's aggregate stats gain from one match.
#[derive(Debug, Clone, Copy, PartialEq, Eq, Structural)]
pub struct AccumulateFlags {
    pub is_win: bool,
    pub is_loss: bool,
    pub is_draw: bool,
}

/// The counters `accumulate_flags` gives.
pub open spec fn accumulate_spec(is_new: bool, outcome: MatchOutcome) -> Option<AccumulateFlags> {
    if is_new {
        Some(AccumulateFlags {
            is_win: outcome == MatchOutcome::Win,
            is_loss: outcome == MatchOutcome::Loss,
            is_draw: outcome == MatchOutcome::Draw,
        })
    } else {
        None
    }
}

/// Whether, and with which result counter, a player's aggregate stats take
/// a match: only when the match's history row was newly inserted
/// (`is_new`, the per-match ledger), so a re-delivered enrichment is not
/// counted twice; and then exactly one of win, loss and draw is set.
pub fn accumulate_flags(is_new: bool, outcome: MatchOutcome) -> (r: Option<AccumulateFlags>)
    ensures
        r == accumulate_spec(is_new, outcome),
        !is_new ==> r is None,
        is_new ==> (r matches Some(f)
            && f.is_win == (outcome == MatchOutcome::Win)
            && f.is_loss == (outcome == MatchOutcome::Loss)
            && f.is_draw == (outcome == MatchOutcome::Draw)),
        r matches Some(f) ==> ((f.is_win && !f.is_loss && !f.is_draw) || (!f.is_win && f.is_loss && !f.is_draw)
            || (!f.is_win && !f.is_loss && f.is_draw)),
{
    if !is_new {
        return None;
    }
    Some(AccumulateFlags {
        is_win: outcome == MatchOutcome::Win,
        is_loss: outcome == MatchOutcome::Loss,
        is_draw: outcome == MatchOutcome::Draw,
    })
}

/// The outcome of `own` rounds against `other`.
pub open spec fn compare_outcome(own: int, other: int) -> MatchOutcome {
    if own > other {
        MatchOutcome::Win
    } else if own < other {
        MatchOutcome::Loss
    } else {
        MatchOutcome::Draw
    }
}

/// A player's outcome from the team scores: team 1 owns the first score;
/// with fewer than two scores every player drew.
pub open spec fn outcome_spec(is_team1: bool, scores: Seq<i64>) -> MatchOutcome {
    if scores.len() >= 2 {
        if is_team1 {
            compare_outcome(scores[0] as int, scores[1] as int)
        } else {
            compare_outcome(scores[1] as int, scores[0] as int)
        }
    } else {
        MatchOutcome::Draw
    }
}

impl MatchOutcome {
    /// The stored name of the outcome.
    pub open spec fn text(self) -> Seq<char> {
        match self {
            MatchOutcome::Win => "win"@,
            MatchOutcome::Loss => "loss"@,
            MatchOutcome::Draw => "draw"@,
        }
    }

    /// `win`, `loss` or `draw`.
    pub fn as_str(&self) -> (r: &'static str)
        ensures
            r@ == self.text(),
    {
        match self {
            MatchOutcome::Win => "win",
            MatchOutcome::Loss => "loss",
            MatchOutcome::Draw => "draw",
        }
    }
}

/// The outcome of a player on team 1 (or on the other team).
pub fn player_outcome(is_team1: bool, team_scores: &Vec<i64>) -> (r: MatchOutcome)
    ensures
        r == outcome_spec(is_team1, team_scores@),
{
    if team_scores.len() >= 2 {
        let (own, other) = if is_team1 {
            (team_scores[0], team_scores[1])
        } else {
            (team_scores[1], team_scores[0])
        };
        if own > other {
            MatchOutcome::Win
        } else if own < other {
            MatchOutcome::Loss
        } else {
            MatchOutcome::Draw
        }
    } else {
        MatchOutcome::Draw
    }
}

/// Every player gets exactly one of win, loss and draw, and two players on
/// opposite teams get opposite outcomes (or both a draw).
pub proof fn outcomes_are_opposite(scores: Seq<i64>)
    ensures
        outcome_spec(true, scores) == MatchOutcome::Win <==> outcome_spec(false, scores) == MatchOutcome::Loss,
        outcome_spec(true, scores) == MatchOutcome::Loss <==> outcome_spec(false, scores) == MatchOutcome::Win,
        outcome_spec(true, scores) == MatchOutcome::Draw <==> outcome_spec(false, scores) == MatchOutcome::Draw,
{
}

/// A statistic of a GC player entry: its integer value truncated to 32
/// bits, 0 when missing or not an integer.
pub open spec fn stat_spec(p: Json, key: Seq<char>) -> i32 {
    match oi64(get_spec(p, key)) {
        Some(v) => v as i32,
        None => 0,
    }
}

/// Reads a statistic of a player entry (see `stat_spec`).
pub fn json_int_stat(p: &Json, key: &str) -> (r: i32)
    ensures
        r == stat_spec(*p, key@),
{
    match p.get(key) {
        Some(v) => match v.as_i64() {
            Some(n) => n as i32,
            None => 0,
        },
        None => 0,
    }
}

/// The team of a GC player entry (1 when missing), truncated to a byte.
pub open spec fn team_spec(p: Json) -> u8 {
    match ou64(get_spec(p, "team"@)) {
        Some(t) => t as u8,
        None => 1,
    }
}

/// One player's line of a match: who, which team, how it ended, and the
/// counters stored for the match.
#[derive(Debug, Clone, Copy, PartialEq, Eq, Structural)]
pub struct PlayerMatchLine {
    pub account_id: u32,
    pub steam_id_64: i64,
    pub team: u8,
    pub outcome: MatchOutcome,
    pub kills: i32,
    pub deaths: i32,
    pub assists: i32,
    pub score: i32,
    pub headshots: i32,
    pub mvps: i32,
    pub entry_3k: i32,
    pub entry_4k: i32,
    pub entry_5k: i32,
}

/// The line of a GC player entry, `None` without a positive account id.
pub open spec fn line_spec(p: Json, scores: Seq<i64>) -> Option<PlayerMatchLine> {
    match ou64(get_spec(p, "account_id"@)) {
        Some(id) => if id > 0 {
            let account_id = id as u32;
            let team = team_spec(p);
            Some(PlayerMatchLine {
                account_id,
                steam_id_64: steam64_spec(account_id) as i64,
                team,
                outcome: outcome_spec(team == 1, scores),
                kills: stat_spec(p, "kills"@),
                deaths: stat_spec(p, "deaths"@),
                assists: stat_spec(p, "assists"@),
                score: stat_spec(p, "score"@),
                headshots: stat_spec(p, "headshots"@),
                mvps: stat_spec(p, "mvps"@),
                entry_3k: stat_spec(p, "entry_3k"@),
                entry_4k: stat_spec(p, "entry_4k"@),
                entry_5k: stat_spec(p, "entry_5k"@),
            })
        } else {
            None
        },
        None => None,
    }
}

/// The lines of the player entries that have one, in order.
pub open spec fn lines_spec(ps: Seq<Json>, scores: Seq<i64>) -> Seq<PlayerMatchLine>
    decreases ps.len(),
{
    if ps.len() == 0 {
        seq![]
    } else {
        match line_spec(ps.last(), scores) {
            Some(l) => lines_spec(ps.drop_last(), scores).push(l),
            None => lines_spec(ps.drop_last(), scores),
        }
    }
}

/// Reads the line of one GC player entry.
pub fn player_line(p: &Json, team_scores: &Vec<i64>) -> (r: Option<PlayerMatchLine>)
    ensures
        r == line_spec(*p, team_scores@),
{
    let id = match p.get("account_id") {
        Some(v) => match v.as_u64() {
            Some(id) => id,
            None => return None,
        },
        None => return None,
    };
    if id == 0 {
        return None;
    }
    let account_id = id as u32;
    let team: u8 = match p.get("team") {
        Some(v) => match v.as_u64() {
            Some(t) => t as u8,
            None => 1,
        },
        None => 1,
    };
    Some(PlayerMatchLine {
        account_id,
        steam_id_64: steam_id_64(account_id),
        team,
        outcome: player_outcome(team == 1, team_scores),
        kills: json_int_stat(p, "kills"),
        deaths: json_int_stat(p, "deaths"),
        assists: json_int_stat(p, "assists"),
        score: json_int_stat(p, "score"),
        headshots: json_int_stat(p, "headshots"),
        mvps: json_int_stat(p, "mvps"),
        entry_3k: json_int_stat(p, "entry_3k"),
        entry_4k: json_int_stat(p, "entry_4k"),
        entry_5k: json_int_stat(p, "entry_5k"),
    })
}

/// The integers among `vs`, in order.
pub open spec fn ints_of(vs: Seq<Json>) -> Seq<i64>
    decreases vs.len(),
{
    if vs.len() == 0 {
        seq![]
    } else {
        match as_i64_spec(vs.last()) {
            Some(n) => ints_of(vs.drop_last()).push(n),
            None => ints_of(vs.drop_last()),
        }
    }
}

/// The team scores of a GC match entry (empty when missing).
pub open spec fn team_scores_spec(info: Json) -> Seq<i64> {
    match get_spec(info, "team_scores"@) {
        Some(Json::Array(a)) => ints_of(a@),
        _ => seq![],
    }
}

/// Reads the team scores of a GC match entry.
pub fn team_scores_of(info: &Json) -> (r: Vec<i64>)
    ensures
        r@ == team_scores_spec(*info),
{
    let mut out: Vec<i64> = Vec::new();
    match info.get("team_scores") {
        Some(Json::Array(vs)) => {
            let n = vs.len();
            let mut i: usize = 0;
            while i < n
                invariant
                    n == vs@.len(),
                    0 <= i <= n,
                    out@ == ints_of(vs@.subrange(0, i as int)),
                decreases n - i,
            {
                let ghost pre = vs@.subrange(0, i + 1);
                assert(pre.drop_last() =~= vs@.subrange(0, i as int));
                match vs[i].as_i64() {
                    Some(x) => out.push(x),
                    None => {}
                }
                i += 1;
            }
            assert(vs@.subrange(0, n as int) =~= vs@);
        }
        _ => {}
    }
    out
}

/// The scores as stored with each match line, truncated to 32 bits.
pub open spec fn stored_scores_spec(scores: Seq<i64>) -> Seq<i32> {
    scores.map_values(|s: i64| s as i32)
}

/// The match entry and its players, when the GC data has a first match
/// with a non-empty player list.
pub open spec fn players_of(gc: Option<Json>) -> Option<(Json, Seq<Json>)> {
    match gc {
        Some(g) => match at_spec(g, 0) {
            Some(info) => match get_spec(info, "players"@) {
                Some(Json::Array(ps)) => if ps@.len() > 0 { Some((info, ps@)) } else { None },
                _ => None,
            },
            None => None,
        },
        None => None,
    }
}

/// The map of the GC match entry, empty when missing.
pub open spec fn gc_map(info: Json) -> Seq<char> {
    match ostr(get_spec(info, "map"@)) {
        Some(m) => m,
        None => seq![],
    }
}

/// The map a match is stored under: the one read from the demo when it is
/// non-empty, else the GC one.
pub open spec fn map_spec(info: Json, demo_map: Option<Seq<char>>) -> Seq<char> {
    match demo_map {
        Some(m) => if m.len() > 0 { m } else { gc_map(info) },
        None => gc_map(info),
    }
}

/// The match duration in seconds, truncated to 32 bits, 0 when missing.
pub open spec fn duration_spec(info: Json) -> i32 {
    match oi64(get_spec(info, "match_duration_secs"@)) {
        Some(d) => d as i32,
        None => 0,
    }
}

/// The match-wide part of the statistics and one line per player with an
/// account id.
#[derive(Debug, Clone)]
pub struct MatchStatsPlan {
    pub map: String,
    pub match_time: Option<Instant>,
    pub team_scores: Vec<i64>,
    pub stored_scores: Vec<i32>,
    pub duration_secs: i32,
    pub lines: Vec<PlayerMatchLine>,
}

/// `plan` is what the match entry `info` with players `ps` records.
pub open spec fn plans(plan: MatchStatsPlan, info: Json, ps: Seq<Json>, demo_map: Option<Seq<char>>) -> bool {
    let scores = team_scores_spec(info);
    &&& plan.map@ == map_spec(info, demo_map)
    &&& plan.match_time == parsed_time(ostr(get_spec(info, "match_time"@)))
    &&& plan.team_scores@ == scores
    &&& plan.stored_scores@ == stored_scores_spec(scores)
    &&& plan.duration_secs == duration_spec(info)
    &&& plan.lines@ == lines_spec(ps, scores)
}

/// Reads the statistics of the first match of the GC data. Nothing is
/// recorded when there is no first match or it lists no players.
pub fn match_stats_plan(gc_data: &Option<Json>, map_name: Option<&str>) -> (r: Option<MatchStatsPlan>)
    ensures
        match players_of(*gc_data) {
            None => r is None,
            Some((info, ps)) => r matches Some(p) && plans(p, info, ps, opt_text(map_name)),
        },
{
    let g = match gc_data {
        Some(g) => g,
        None => return None,
    };
    let info = match g.at(0) {
        Some(i) => i,
        None => return None,
    };
    let ps = match info.get("players") {
        Some(Json::Array(ps)) => ps,
        _ => return None,
    };
    if ps.len() == 0 {
        return None;
    }
    let team_scores = team_scores_of(info);
    let match_time = match info.get("match_time") {
        Some(v) => parse_time(v.as_str()),
        None => None,
    };
    let duration_secs: i32 = match info.get("match_duration_secs") {
        Some(v) => match v.as_i64() {
            Some(d) => d as i32,
            None => 0,
        },
        None => 0,
    };
    let gc_map_text: &str = match info.get("map") {
        Some(v) => match v.as_str() {
            Some(m) => m,
            None => "",
        },
        None => "",
    };
    proof {
        reveal_strlit("");
    }
    let map = match map_name {
        Some(m) => if m.unicode_len() > 0 { String::from_str(m) } else { String::from_str(gc_map_text) },
        None => String::from_str(gc_map_text),
    };
    let mut stored_scores: Vec<i32> = Vec::new();
    let mut j: usize = 0;
    while j < team_scores.len()
        invariant
            0 <= j <= team_scores@.len(),
            stored_scores@ == stored_scores_spec(team_scores@.subrange(0, j as int)),
        decreases team_scores@.len() - j,
    {
        let ghost pre = team_scores@.subrange(0, j + 1);
        assert(stored_scores_spec(pre) =~= stored_scores_spec(team_scores@.subrange(0, j as int)).push(
            team_scores@[j as int] as i32,
        ));
        stored_scores.push(team_scores[j] as i32);
        j += 1;
    }
    assert(team_scores@.subrange(0, team_scores@.len() as int) =~= team_scores@);
    let n = ps.len();
    let mut lines: Vec<PlayerMatchLine> = Vec::new();
    let mut i: usize = 0;
    while i < n
        invariant
            n == ps@.len(),
            0 <= i <= n,
            lines@ == lines_spec(ps@.subrange(0, i as int), team_scores@),
        decreases n - i,
    {
        let ghost pre = ps@.subrange(0, i + 1);
        assert(pre.drop_last() =~= ps@.subrange(0, i as int));
        match player_line(&ps[i], &team_scores) {
            Some(l) => lines.push(l),
            None => {}
        }
        i += 1;
    }
    assert(ps@.subrange(0, n as int) =~= ps@);
    assert(players_of(*gc_data) == Some((*info, ps@)));
    assert(map@ == map_spec(*info, opt_text(map_name)));
    assert(match_time == parsed_time(ostr(get_spec(*info, "match_time"@))));
    assert(duration_secs == duration_spec(*info));
    Some(MatchStatsPlan { map, match_time, team_scores, stored_scores, duration_secs, lines })
}

// ---------------------------------------------------------------------------
// Enrichment: the order of effects
// ---------------------------------------------------------------------------

/// An effect of an enrichment submission.
#[derive(Debug, Clone, Copy, PartialEq, Eq, Structural)]
pub enum EnrichEffect {
    /// Store the Premier ratings read from the demo.
    Ratings,
    /// Store the per-player match statistics.
    Stats,
}

/// What the enrichment handler does next.
#[derive(Debug, Clone, PartialEq, Eq)]
pub enum EnrichStep {
    Apply(EnrichEffect),
    /// Leave the match retryable, recording the error.
    MarkFailed(String),
    /// Write the `enriched` marker: every effect has been applied.
    MarkEnriched,
}

/// The first step of an enrichment: the ratings when the submission has
/// any, else the statistics.
pub fn first_enrich_step(has_ratings: bool) -> (r: EnrichStep)
    ensures
        has_ratings ==> r == EnrichStep::Apply(EnrichEffect::Ratings),
        !has_ratings ==> r == EnrichStep::Apply(EnrichEffect::Stats),
{
    if has_ratings {
        EnrichStep::Apply(EnrichEffect::Ratings)
    } else {
        EnrichStep::Apply(EnrichEffect::Stats)
    }
}

/// The step after an effect ran: a failure marks the match failed at once;
/// the ratings are followed by the statistics; the marker is written only
/// after the statistics succeeded.
pub fn after_effect(effect: EnrichEffect, outcome: Result<(), String>) -> (r: EnrichStep)
    ensures
        match outcome {
            Err(e) => r matches EnrichStep::MarkFailed(m) && m@ == e@,
            Ok(_) => match effect {
                EnrichEffect::Ratings => r == EnrichStep::Apply(EnrichEffect::Stats),
                EnrichEffect::Stats => r is MarkEnriched,
            },
        },
        r is MarkEnriched ==> effect == EnrichEffect::Stats && outcome is Ok,
{
    match outcome {
        Err(e) => EnrichStep::MarkFailed(e),
        Ok(_) => match effect {
            EnrichEffect::Ratings => EnrichStep::Apply(EnrichEffect::Stats),
            EnrichEffect::Stats => EnrichStep::MarkEnriched,
        },
    }
}

// ---------------------------------------------------------------------------
// Demo statistics
// ---------------------------------------------------------------------------

/// The match date of submitted demo statistics, when it reads as RFC 3339.
pub fn demo_match_date(text: Option<&str>) -> (r: Option<Instant>)
    ensures
        r == parsed_time(opt_text(text)),
{
    parse_time(text)
}

/// Whether the demo's game runs on the CS2 plugin, whose per-player
/// statistics are extracted; a failed game lookup counts as not CS2.
pub fn is_cs2_plugin(plugin_id: Option<&str>) -> (r: bool)
    ensures
        r == (opt_text(plugin_id) == Some("cs2"@)),
{
    match plugin_id {
        Some(p) => str_eq(p, "cs2"),
        None => false,
    }
}

/// Whether demos are linked automatically: the setting when it could be
/// read, else on, so that a failed read does not block ingestion.
pub fn auto_link_enabled(setting: Option<bool>) -> (r: bool)
    ensures
        r == match setting {
            Some(b) => b,
            None => true,
        },
{
    match setting {
        Some(b) => b,
        None => true,
    }
}

/// Where the recording of a match's player lines stands.
#[derive(Debug, Clone, Copy, PartialEq, Eq, Structural)]
pub enum StatsStep {
    /// Look up the portal player of line `k` by its Steam ID64.
    LookUp(usize),
    /// Record line `k`'s history row for this player.
    Record(usize, u128),
    /// Add line `k` to this player's aggregate stats with these counters.
    Accumulate(usize, u128, AccumulateFlags),
    /// Every line was handled.
    Done,
    /// A store call failed; recording stops with that error.
    Fail,
}

/// What the store answered for the current step.
#[derive(Debug, Clone, Copy, PartialEq, Eq, Structural)]
pub enum StatsEvent {
    /// The player lookup found this player, or none.
    PlayerFound(Option<u128>),
    /// The history row was written; whether it was new.
    HistoryRecorded(bool),
    /// The aggregate stats were updated.
    Accumulated,
    /// The store call failed.
    Failed,
}

/// The step after line `k`: the next line, or done after the last.
pub open spec fn after_line(k: int, n: int) -> StatsStep {
    if k + 1 < n { StatsStep::LookUp((k + 1) as usize) } else { StatsStep::Done }
}

/// The first step over `n` lines.
pub open spec fn first_stats_spec(n: int) -> StatsStep {
    if n > 0 { StatsStep::LookUp(0) } else { StatsStep::Done }
}

/// The step after `ev` at `at`, over `lines`: a player the portal does not
/// know is skipped and the rest carry on; a known player gets a history
/// row, and its aggregates are added to only when that row is new; any
/// store failure stops the recording.
pub open spec fn stats_step(lines: Seq<PlayerMatchLine>, at: StatsStep, ev: StatsEvent) -> StatsStep {
    let n = lines.len() as int;
    match (at, ev) {
        (_, StatsEvent::Failed) => StatsStep::Fail,
        (StatsStep::LookUp(k), StatsEvent::PlayerFound(None)) => after_line(k as int, n),
        (StatsStep::LookUp(k), StatsEvent::PlayerFound(Some(p))) => StatsStep::Record(k, p),
        (StatsStep::Record(k, p), StatsEvent::HistoryRecorded(is_new)) =>
            if 0 <= k < n {
                match accumulate_spec(is_new, lines[k as int].outcome) {
                    Some(f) => StatsStep::Accumulate(k, p, f),
                    None => after_line(k as int, n),
                }
            } else {
                StatsStep::Fail
            },
        (StatsStep::Accumulate(k, _, _), StatsEvent::Accumulated) => after_line(k as int, n),
        _ => StatsStep::Fail,
    }
}

/// The first step of recording a plan's lines.
pub fn first_stats_step(plan: &MatchStatsPlan) -> (r: StatsStep)
    ensures
        r == first_stats_spec(plan.lines@.len() as int),
{
    if plan.lines.len() > 0 { StatsStep::LookUp(0) } else { StatsStep::Done }
}

/// Decides the step after `ev` at `at`.
pub fn next_stats_step(plan: &MatchStatsPlan, at: StatsStep, ev: StatsEvent) -> (r: StatsStep)
    ensures
        r == stats_step(plan.lines@, at, ev),
{
    let n = plan.lines.len();
    match (at, ev) {
        (_, StatsEvent::Failed) => StatsStep::Fail,
        (StatsStep::LookUp(k), StatsEvent::PlayerFound(None)) => {
            if k < n && k + 1 < n { StatsStep::LookUp(k + 1) } else { StatsStep::Done }
        },
        (StatsStep::LookUp(k), StatsEvent::PlayerFound(Some(p))) => StatsStep::Record(k, p),
        (StatsStep::Record(k, p), StatsEvent::HistoryRecorded(is_new)) => {
            if k < n {
                match accumulate_flags(is_new, plan.lines[k].outcome) {
                    Some(f) => StatsStep::Accumulate(k, p, f),
                    None => if k + 1 < n { StatsStep::LookUp(k + 1) } else { StatsStep::Done },
                }
            } else {
                StatsStep::Fail
            }
        },
        (StatsStep::Accumulate(k, _, _), StatsEvent::Accumulated) => {
            if k < n && k + 1 < n { StatsStep::LookUp(k + 1) } else { StatsStep::Done }
        },
        _ => StatsStep::Fail,
    }
}

/// Recording goes on past players the portal does not know, and a match
/// delivered again adds nothing: an unknown player moves straight on to
/// the next line (or finishes), and a history row that already existed
/// moves on without touching the aggregates; a new one adds exactly one
/// of win, loss and draw.
pub proof fn stats_loop_skips_and_counts_once(lines: Seq<PlayerMatchLine>, k: usize, p: u128)
    requires
        k < lines.len(),
    ensures
        stats_step(lines, StatsStep::LookUp(k), StatsEvent::PlayerFound(None))
            == (if k + 1 < lines.len() { StatsStep::LookUp((k + 1) as usize) } else { StatsStep::Done }),
        stats_step(lines, StatsStep::Record(k, p), StatsEvent::HistoryRecorded(false))
            == (if k + 1 < lines.len() { StatsStep::LookUp((k + 1) as usize) } else { StatsStep::Done }),
        stats_step(lines, StatsStep::Record(k, p), StatsEvent::HistoryRecorded(true)) matches StatsStep::Accumulate(j, q, f)
            && j == k && q == p
            && f.is_win == (lines[k as int].outcome == MatchOutcome::Win)
            && f.is_loss == (lines[k as int].outcome == MatchOutcome::Loss)
            && f.is_draw == (lines[k as int].outcome == MatchOutcome::Draw),
{
}

/// The integer at `key` of a player entry as a 32-bit counter, 0 when the
/// key is missing or not an integer.
pub open spec fn counter_at(p: Json, key: Seq<char>) -> i32 {
    match get_spec(p, key) {
        Some(v) => match oi64(Some(v)) {
            Some(n) => n as i32,
            None => 0,
        },
        None => 0,
    }
}

/// Each counter of a player's line is read from the entry's key of the same
/// name: kills from `kills`, headshots from `headshots`, MVPs from `mvps`,
/// and so on; an entry gets a line exactly when its `account_id` is a
/// positive integer, which the line keeps with its SteamID64 (the account
/// id plus 76561197960265728); the team is the entry's `team`, 1 when
/// missing.
pub proof fn line_counters_read_their_own_keys(p: Json, scores: Seq<i64>)
    ensures
        line_spec(p, scores) is Some <==> (ou64(get_spec(p, "account_id"@)) matches Some(id) && id > 0),
        line_spec(p, scores) matches Some(l) ==> {
            &&& l.account_id as u64 == ou64(get_spec(p, "account_id"@))->0 as u32 as u64
            &&& l.steam_id_64 == l.account_id + 76561197960265728
            &&& l.team == (match ou64(get_spec(p, "team"@)) { Some(t) => t as u8, None => 1u8 })
            &&& l.kills == counter_at(p, "kills"@)
            &&& l.deaths == counter_at(p, "deaths"@)
            &&& l.assists == counter_at(p, "assists"@)
            &&& l.score == counter_at(p, "score"@)
            &&& l.headshots == counter_at(p, "headshots"@)
            &&& l.mvps == counter_at(p, "mvps"@)
            &&& l.entry_3k == counter_at(p, "entry_3k"@)
            &&& l.entry_4k == counter_at(p, "entry_4k"@)
            &&& l.entry_5k == counter_at(p, "entry_5k"@)
        },
{
    reveal_strlit("account_id");
}

} // verus!
