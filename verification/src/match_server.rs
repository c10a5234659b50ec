//! What a match's server reservation shows to whom, the live score, and
//! who counts as a participant of a match.

use vstd::prelude::*;
use crate::api_error::{ApiError, ErrorKind, is_error};
use crate::json::{Json, get_spec, oget, oi64};

verus! {

/// The live per-map score.
#[derive(Debug, Clone, Copy, PartialEq, Eq, Structural)]
pub struct LiveScoreResponse {
    /// 0-based map number (MatchZy convention).
    pub map_number: i64,
    pub team1_score: i32,
    pub team2_score: i32,
    pub round_number: Option<i64>,
}

/// Body of a backup restore.
#[derive(Debug, Clone, Copy, PartialEq, Eq, Structural)]
pub struct RestoreBackupRequest {
    /// Restore the newest backup at or before this round; none for the latest.
    pub before_round: Option<i32>,
}

/// The backup file that was loaded.
#[derive(Debug, Clone)]
pub struct RestoreBackupResponse {
    pub filename: String,
}

/// The not-found answer for a match without a reservation.
pub fn no_reservation() -> (e: ApiError)
    ensures
        is_error(e, ErrorKind::NotFound, "this match has no server reservation"@),
{
    ApiError::from_str(ErrorKind::NotFound, "this match has no server reservation")
}

/// A registration of one side of a match, as far as participation goes.
#[derive(Debug, Clone)]
pub struct SideRegistration {
    /// The solo player of the registration.
    pub player_id: Option<u128>,
    /// The members of the registered team, when it is a team and they
    /// could be listed.
    pub members: Option<Vec<u128>>,
}

/// `player` plays for the registration: as its solo player or as a member.
pub open spec fn plays_for(reg: SideRegistration, player: u128) -> bool {
    reg.player_id == Some(player)
        || (reg.members matches Some(ms) && ms@.contains(player))
}

/// Whether the player plays in the match through any of its (readable)
/// registrations.
pub fn is_participant(regs: &Vec<SideRegistration>, player: u128) -> (r: bool)
    ensures
        r == exists|k: int| 0 <= k < regs@.len() && plays_for(#[trigger] regs@[k], player),
{
    let n = regs.len();
    let mut i: usize = 0;
    while i < n
        invariant
            n == regs@.len(),
            0 <= i <= n,
            forall|k: int| 0 <= k < i ==> !plays_for(#[trigger] regs@[k], player),
        decreases n - i,
    {
        let reg = &regs[i];
        if reg.player_id == Some(player) {
            assert(plays_for(regs@[i as int], player));
            return true;
        }
        match &reg.members {
            Some(ms) => {
                let m = ms.len();
                let mut j: usize = 0;
                while j < m
                    invariant
                        m == ms@.len(),
                        0 <= j <= m,
                        i < regs@.len(),
                        regs@[i as int].members matches Some(v) && v@ == ms@,
                        forall|t: int| 0 <= t < j ==> ms@[t] != player,
                    decreases m - j,
                {
                    if ms[j] == player {
                        assert(ms@.contains(player));
                        assert(plays_for(regs@[i as int], player));
                        return true;
                    }
                    j += 1;
                }
                assert(!ms@.contains(player));
            }
            None => {}
        }
        i += 1;
    }
    false
}

/// Admits admins and participants to a match's details.
pub fn participant_gate(is_admin: bool, is_participant: bool) -> (r: Result<(), ApiError>)
    ensures
        (is_admin || is_participant) ==> r is Ok,
        !(is_admin || is_participant) ==> (r matches Err(e)
            && is_error(e, ErrorKind::Forbidden, "only match participants and admins may view this"@)),
{
    if is_admin || is_participant {
        Ok(())
    } else {
        Err(ApiError::from_str(ErrorKind::Forbidden, "only match participants and admins may view this"))
    }
}

/// The phase of a reservation, as far as visibility goes.
#[derive(Debug, Clone, Copy, PartialEq, Eq, Structural)]
pub enum ReservationPhase {
    /// Requested, assigning, or ended.
    Other,
    /// The server is configured and waiting for players.
    Ready,
    /// The match is being played.
    Live,
}

/// The server as a reservation shows it.
#[derive(Debug, Clone)]
pub struct ServerDetails {
    pub name: String,
    pub ip_address: String,
    pub port: u16,
    pub gotv_port: Option<u16>,
}

/// The connection details of a reservation, masked for the caller.
#[derive(Debug, Clone)]
pub struct ConnectView {
    pub server_name: Option<String>,
    pub ip_address: Option<String>,
    pub port: Option<u16>,
    pub connect_password: Option<String>,
    pub gotv_port: Option<u16>,
    pub gotv_password: Option<String>,
}

/// Connect details are shown to participants (admins count as such) once
/// the server is ready or live.
pub open spec fn connect_visible(participant: bool, phase: ReservationPhase) -> bool {
    participant && (phase == ReservationPhase::Ready || phase == ReservationPhase::Live)
}

/// GOTV is shown to everyone once the match is live, and with the connect
/// details before that.
pub open spec fn gotv_visible(participant: bool, phase: ReservationPhase) -> bool {
    phase == ReservationPhase::Live || connect_visible(participant, phase)
}

/// Masks a reservation's connection details for the caller.
pub fn connect_view(
    participant: bool,
    phase: ReservationPhase,
    server: Option<ServerDetails>,
    connect_password: String,
    gotv_password: Option<String>,
) -> (r: ConnectView)
    ensures
        r.server_name == match server { Some(s) => Some(s.name), None => None::<String> },
        connect_visible(participant, phase) ==> {
            &&& r.ip_address == match server { Some(s) => Some(s.ip_address), None => None::<String> }
            &&& r.port == match server { Some(s) => Some(s.port), None => None::<u16> }
            &&& r.connect_password == Some(connect_password)
        },
        !connect_visible(participant, phase) ==> r.ip_address is None && r.port is None && r.connect_password is None,
        gotv_visible(participant, phase) ==> {
            &&& r.gotv_port == match server { Some(s) => s.gotv_port, None => None::<u16> }
            &&& r.gotv_password == gotv_password
        },
        !gotv_visible(participant, phase) ==> r.gotv_port is None && r.gotv_password is None,
{
    let connect = participant && (phase == ReservationPhase::Ready || phase == ReservationPhase::Live);
    let gotv = phase == ReservationPhase::Live || connect;
    match server {
        Some(s) => ConnectView {
            server_name: Some(s.name),
            ip_address: if connect { Some(s.ip_address) } else { None },
            port: if connect { Some(s.port) } else { None },
            connect_password: if connect { Some(connect_password) } else { None },
            gotv_port: if gotv { s.gotv_port } else { None },
            gotv_password: if gotv { gotv_password } else { None },
        },
        None => ConnectView {
            server_name: None,
            ip_address: None,
            port: None,
            connect_password: if connect { Some(connect_password) } else { None },
            gotv_port: None,
            gotv_password: if gotv { gotv_password } else { None },
        },
    }
}

/// A spectator never learns how to join the server: without being a
/// participant or admin, the address, port and password stay hidden in
/// every phase, while GOTV opens to everyone once live.
pub proof fn spectators_never_see_connect(phase: ReservationPhase)
    ensures
        !connect_visible(false, phase),
        gotv_visible(false, phase) <==> phase == ReservationPhase::Live,
        connect_visible(true, phase) ==> gotv_visible(true, phase),
{
}

/// A team's score in a round-end payload: `<team>.score` when it is an
/// integer that fits 32 bits, else 0.
pub open spec fn team_score_spec(payload: Json, team: Seq<char>) -> i32 {
    match oi64(oget(get_spec(payload, team), "score"@)) {
        Some(s) => if i32::MIN <= s <= i32::MAX { s as i32 } else { 0 },
        None => 0,
    }
}

fn team_score(payload: &Json, team: &str) -> (r: i32)
    ensures
        r == team_score_spec(*payload, team@),
{
    match payload.get(team) {
        Some(t) => match t.get("score") {
            Some(v) => match v.as_i64() {
                Some(s) => if -2147483648i64 <= s && s <= 2147483647i64 { s as i32 } else { 0 },
                None => 0,
            },
            None => 0,
        },
        None => 0,
    }
}

/// The live score read from the latest round-end event.
pub fn live_score(payload: &Json, map_number: Option<i32>, round_number: Option<i32>) -> (r: LiveScoreResponse)
    ensures
        r.map_number == match map_number { Some(m) => m as i64, None => 0i64 },
        r.team1_score == team_score_spec(*payload, "team1"@),
        r.team2_score == team_score_spec(*payload, "team2"@),
        r.round_number == match round_number { Some(n) => Some(n as i64), None => None::<i64> },
{
    LiveScoreResponse {
        map_number: match map_number { Some(m) => m as i64, None => 0 },
        team1_score: team_score(payload, "team1"),
        team2_score: team_score(payload, "team2"),
        round_number: match round_number { Some(n) => Some(n as i64), None => None },
    }
}

/// Whether a reservation's view carries the live score, so the latest
/// round-end event is read: only while the match is live.
pub fn live_score_shown(phase: ReservationPhase) -> (r: bool)
    ensures
        r == (phase == ReservationPhase::Live),
{
    phase == ReservationPhase::Live
}

/// The latest round-end event of a reservation.
#[derive(Debug)]
pub struct RoundEnd {
    pub payload: Json,
    pub map_number: Option<i32>,
    pub round_number: Option<i32>,
}

/// The live score of a reservation's view: none unless the match is live
/// and a round-end event was read; otherwise the score that event shows.
pub fn live_score_of(phase: ReservationPhase, latest: &Option<RoundEnd>) -> (r: Option<LiveScoreResponse>)
    ensures
        (phase != ReservationPhase::Live || latest is None) ==> r is None,
        phase == ReservationPhase::Live ==> match *latest {
            Some(ev) => r matches Some(s)
                && s.map_number == match ev.map_number { Some(m) => m as i64, None => 0i64 }
                && s.team1_score == team_score_spec(ev.payload, "team1"@)
                && s.team2_score == team_score_spec(ev.payload, "team2"@)
                && s.round_number == match ev.round_number { Some(n) => Some(n as i64), None => None::<i64> },
            None => r is None,
        },
{
    if !live_score_shown(phase) {
        return None;
    }
    match latest {
        Some(ev) => Some(live_score(&ev.payload, ev.map_number, ev.round_number)),
        None => None,
    }
}

/// A participant can always get into a match that can be joined: the
/// address, port and password are shown to a participant exactly while the
/// server is ready or the match is live, and GOTV with them.
pub proof fn participants_see_connect_while_joinable(phase: ReservationPhase)
    ensures
        connect_visible(true, phase) <==> (phase == ReservationPhase::Ready || phase == ReservationPhase::Live),
        (phase == ReservationPhase::Ready || phase == ReservationPhase::Live) ==> gotv_visible(true, phase),
{
}

} // verus!
