//! PUG lobbies: who sees the invite code, the viewer's registration in the
//! materialized match, map nominations against the catalogue, and what a
//! rematch carries over.

use vstd::prelude::*;
use crate::api_error::{ApiError, ErrorKind, is_error};
use crate::ids::{uuid_from_text, parse_id, parse_player_id};
use crate::text::str_eq;

verus! {

/// How many lobbies a feed lists.
pub const FEED_LIMIT: i64 = 50;

/// Move a player to a team or the bench.
#[derive(Debug, Clone)]
pub struct SetTeamRequest {
    /// The player to move; none means the caller.
    pub player_id: Option<String>,
    /// 1 or 2; none is the bench.
    pub team: Option<i16>,
}

/// Set or clear a captain (creator only).
#[derive(Debug, Clone)]
pub struct SetCaptainRequest {
    pub player_id: String,
    pub is_captain: bool,
}

/// Kick a player (creator only).
#[derive(Debug, Clone)]
pub struct KickPlayerRequest {
    pub player_id: String,
}

/// Nominate a map for the wheel.
#[derive(Debug, Clone)]
pub struct WheelEntryRequest {
    pub map_id: String,
}

/// Lock the lobby and start map selection.
#[derive(Debug, Clone, Default)]
pub struct LockPugRequest {
    /// Allow uneven or short-handed teams.
    pub force: bool,
}

/// How a share-link viewer identifies: the invite code.
#[derive(Debug, Clone, Default)]
pub struct PugViewQuery {
    pub code: Option<String>,
}

/// Filter of the open-lobby browser.
#[derive(Debug, Clone, Default)]
pub struct OpenPugsQuery {
    pub game_id: Option<String>,
}

/// A player of a lobby.
#[derive(Debug, Clone)]
pub struct PugPlayerResponse {
    pub player_id: String,
    pub display_name: String,
    pub avatar_url: Option<String>,
    /// Players without a linked Steam id cannot enter the game server.
    pub has_steam_id: bool,
    pub team: Option<i16>,
    pub is_captain: bool,
    pub joined_at: String,
}

/// A wheel nomination.
#[derive(Debug, Clone)]
pub struct PugWheelEntryResponse {
    pub player_id: String,
    pub player_name: String,
    pub map_id: String,
}

/// A freshly rotated invite code.
#[derive(Debug, Clone)]
pub struct JoinCodeResponse {
    pub join_code: String,
}

/// Draft the next bench player.
#[derive(Debug, Clone)]
pub struct DraftPickRequest {
    pub player_id: String,
}

/// The team a draft pick landed on.
#[derive(Debug, Clone)]
pub struct DraftPickResponse {
    pub player_id: String,
    pub team: i16,
}

/// The viewer's relation to a lobby.
#[derive(Debug, Clone, Copy, PartialEq, Eq, Structural)]
pub enum PugRole {
    Creator,
    Player,
}

impl PugRole {
    /// `creator` or `player`.
    pub fn as_str(&self) -> (r: &'static str)
        ensures
            r@ == (match self {
                PugRole::Creator => "creator"@,
                PugRole::Player => "player"@,
            }),
    {
        match self {
            PugRole::Creator => "creator",
            PugRole::Player => "player",
        }
    }
}

/// The viewer's role: none without a viewer; the creator when the viewer's
/// user created the lobby; a player when the viewer takes part.
pub open spec fn role_spec(viewer_user: Option<u128>, creator_user: u128, is_participant: bool) -> Option<PugRole> {
    match viewer_user {
        None => None,
        Some(u) => if u == creator_user {
            Some(PugRole::Creator)
        } else if is_participant {
            Some(PugRole::Player)
        } else {
            None
        },
    }
}

/// Decides the viewer's role.
pub fn my_role(viewer_user: Option<u128>, creator_user: u128, is_participant: bool) -> (r: Option<PugRole>)
    ensures
        r == role_spec(viewer_user, creator_user, is_participant),
{
    match viewer_user {
        None => None,
        Some(u) => if u == creator_user {
            Some(PugRole::Creator)
        } else if is_participant {
            Some(PugRole::Player)
        } else {
            None
        },
    }
}

/// Whether the invite code is shown: to participants and to the creator.
pub fn join_code_visible(role: Option<PugRole>, is_participant: bool) -> (r: bool)
    ensures
        r == (is_participant || role == Some(PugRole::Creator)),
{
    is_participant || role == Some(PugRole::Creator)
}

/// The invite code reaches only the lobby's creator and its participants: a
/// signed-out viewer, or one who neither created nor joined, never sees it.
pub proof fn join_code_stays_private(viewer_user: Option<u128>, creator_user: u128, is_participant: bool)
    ensures
        ({
            let role = role_spec(viewer_user, creator_user, is_participant);
            (is_participant || role == Some(PugRole::Creator))
                ==> (is_participant || viewer_user == Some(creator_user))
        }),
{
}

/// A lobby member as the handlers read it.
#[derive(Debug, Clone, Copy, PartialEq, Eq, Structural)]
pub struct LobbyPlayer {
    pub player_id: u128,
    pub team: Option<i16>,
    pub is_captain: bool,
}

/// `player` is among `players`.
pub open spec fn in_lobby(players: Seq<LobbyPlayer>, player: u128) -> bool {
    exists|k: int| 0 <= k < players.len() && (#[trigger] players[k]).player_id == player
}

/// Whether the viewer is in the lobby (no viewer is not).
pub fn is_participant(players: &Vec<LobbyPlayer>, viewer: Option<u128>) -> (r: bool)
    ensures
        r == (viewer matches Some(v) && in_lobby(players@, v)),
{
    let v = match viewer {
        Some(v) => v,
        None => return false,
    };
    let n = players.len();
    let mut i: usize = 0;
    while i < n
        invariant
            n == players@.len(),
            0 <= i <= n,
            viewer == Some(v),
            forall|k: int| 0 <= k < i ==> (#[trigger] players@[k]).player_id != v,
        decreases n - i,
    {
        if players[i].player_id == v {
            assert(players@[i as int].player_id == v);
            return true;
        }
        i += 1;
    }
    false
}

/// The team of the first lobby entry of `player`, none when absent or
/// benched.
pub open spec fn team_of(players: Seq<LobbyPlayer>, player: u128) -> Option<i16>
    decreases players.len(),
{
    if players.len() == 0 {
        None
    } else if players[0].player_id == player {
        players[0].team
    } else {
        team_of(players.drop_first(), player)
    }
}

/// Which registration of the materialized match is the viewer's: team 1
/// is the first participant, any other team the second. None when the
/// lobby is not materialized, there is no viewer, or the viewer is on no
/// team.
pub fn registration_slot(players: &Vec<LobbyPlayer>, viewer: Option<u128>, materialized: bool) -> (r: Option<u8>)
    ensures
        r == (if materialized && viewer is Some {
            match team_of(players@, viewer->0) {
                Some(t) => Some(if t == 1 { 1u8 } else { 2u8 }),
                None => None,
            }
        } else {
            None
        }),
{
    if !materialized {
        return None;
    }
    let v = match viewer {
        Some(v) => v,
        None => return None,
    };
    let n = players.len();
    let mut i: usize = 0;
    assert(players@.subrange(0, n as int) =~= players@);
    while i < n
        invariant
            n == players@.len(),
            0 <= i <= n,
            materialized,
            viewer == Some(v),
            team_of(players@, v) == team_of(players@.subrange(i as int, n as int), v),
        decreases n - i,
    {
        let ghost rest = players@.subrange(i as int, n as int);
        assert(rest.drop_first() =~= players@.subrange(i + 1, n as int));
        assert(rest[0] == players@[i as int]);
        if players[i].player_id == v {
            return match players[i].team {
                Some(t) => Some(if t == 1 { 1u8 } else { 2u8 }),
                None => None,
            };
        }
        i += 1;
    }
    None
}

/// The answer for a map outside the game's catalogue.
pub open spec fn not_in_catalog_message(map: Seq<char>) -> Seq<char> {
    "map \""@ + map + "\" is not in this game's catalog"@
}

/// `m` names a map of the catalogue.
pub open spec fn catalog_has(catalog: Seq<String>, m: Seq<char>) -> bool {
    exists|j: int| 0 <= j < catalog.len() && (#[trigger] catalog[j])@ == m
}

/// Checks maps against the game's catalogue: the first unknown one is refused.
pub fn validate_maps_in_catalog(catalog: &Vec<String>, maps: &Vec<String>) -> (r: Result<(), ApiError>)
    ensures
        r is Ok <==> forall|k: int| 0 <= k < maps@.len() ==> catalog_has(catalog@, (#[trigger] maps@[k])@),
        r matches Err(e) ==> exists|k: int| {
            &&& 0 <= k < maps@.len()
            &&& !catalog_has(catalog@, (#[trigger] maps@[k])@)
            &&& forall|j: int| 0 <= j < k ==> catalog_has(catalog@, (#[trigger] maps@[j])@)
            &&& is_error(e, ErrorKind::BadRequest, not_in_catalog_message(maps@[k]@))
        },
{
    let n = maps.len();
    let mut i: usize = 0;
    while i < n
        invariant
            n == maps@.len(),
            0 <= i <= n,
            forall|j: int| 0 <= j < i ==> catalog_has(catalog@, (#[trigger] maps@[j])@),
        decreases n - i,
    {
        let c = catalog.len();
        let mut t: usize = 0;
        let mut found = false;
        while t < c && !found
            invariant
                c == catalog@.len(),
                0 <= t <= c,
                i < maps@.len(),
                found ==> catalog_has(catalog@, maps@[i as int]@),
                !found ==> forall|j: int| 0 <= j < t ==> (#[trigger] catalog@[j])@ != maps@[i as int]@,
            decreases c - t,
        {
            if str_eq(catalog[t].as_str(), maps[i].as_str()) {
                found = true;
            }
            t += 1;
        }
        if !found {
            let mut m = String::from_str("map \"");
            m.append(maps[i].as_str());
            m.append("\" is not in this game's catalog");
            assert(!catalog_has(catalog@, maps@[i as int]@));
            return Err(ApiError::new(ErrorKind::BadRequest, m));
        }
        i += 1;
    }
    Ok(())
}

/// The team size of a new lobby: the requested one, else the game's default.
pub fn pug_team_size(requested: Option<i32>, game_default: i32) -> (r: i32)
    ensures
        r == match requested {
            Some(t) => t,
            None => game_default,
        },
{
    match requested {
        Some(t) => t,
        None => game_default,
    }
}

/// The seats of a lobby: two teams of `team_size`.
pub fn slots_total(team_size: i32) -> (r: i64)
    ensures
        r == 2 * team_size,
{
    team_size as i64 * 2
}

/// The player a team move targets: the named one, or the caller.
pub fn team_move_target(requested: Option<&str>, me: u128) -> (r: Result<u128, ApiError>)
    ensures
        match requested {
            None => r == Ok::<u128, ApiError>(me),
            Some(raw) => match uuid_from_text(raw@) {
                Some(id) => r == Ok::<u128, ApiError>(id),
                None => r matches Err(e) && is_error(e, ErrorKind::BadRequest, "invalid player id"@),
            },
        },
{
    match requested {
        None => Ok(me),
        Some(raw) => parse_player_id(raw),
    }
}

/// The game filter of the open-lobby browser; `invalid game id` when given
/// and no UUID.
pub fn game_filter(raw: Option<&str>) -> (r: Result<Option<u128>, ApiError>)
    ensures
        match raw {
            None => r == Ok::<Option<u128>, ApiError>(None),
            Some(t) => match uuid_from_text(t@) {
                Some(id) => r == Ok::<Option<u128>, ApiError>(Some(id)),
                None => r matches Err(e) && is_error(e, ErrorKind::BadRequest, "invalid game id"@),
            },
        },
{
    match raw {
        None => Ok(None),
        Some(t) => match parse_id(t, "invalid game id") {
            Ok(id) => Ok(Some(id)),
            Err(e) => Err(e),
        },
    }
}

/// Who may start a rematch: only the creator, and only once the lobby has
/// finished or was cancelled.
pub fn rematch_check(is_creator: bool, is_terminal: bool) -> (r: Result<(), ApiError>)
    ensures
        !is_creator ==> (r matches Err(e) && is_error(e, ErrorKind::Forbidden, "Only the PUG creator can rematch"@)),
        is_creator && !is_terminal ==> (r matches Err(e) && is_error(e, ErrorKind::BadRequest, "Finish or cancel this PUG first"@)),
        is_creator && is_terminal ==> r is Ok,
{
    if !is_creator {
        return Err(ApiError::from_str(ErrorKind::Forbidden, "Only the PUG creator can rematch"));
    }
    if !is_terminal {
        return Err(ApiError::from_str(ErrorKind::BadRequest, "Finish or cancel this PUG first"));
    }
    Ok(())
}

/// The members of `players` other than `me`, in order.
pub open spec fn others(players: Seq<LobbyPlayer>, me: u128) -> Seq<LobbyPlayer>
    decreases players.len(),
{
    if players.len() == 0 {
        players
    } else if players.last().player_id == me {
        others(players.drop_last(), me)
    } else {
        others(players.drop_last(), me).push(players.last())
    }
}

/// What a rematch carries over into the new lobby.
#[derive(Debug, Clone)]
pub struct RematchRoster {
    /// Re-added, each with the team and captain flag they had.
    pub others: Vec<LobbyPlayer>,
    /// The creator's old team, when the creator was in the old lobby.
    pub creator_team: Option<Option<i16>>,
}

/// `me`'s first entry among `players`.
pub open spec fn entry_of(players: Seq<LobbyPlayer>, me: u128) -> Option<LobbyPlayer>
    decreases players.len(),
{
    if players.len() == 0 {
        None
    } else if players[0].player_id == me {
        Some(players[0])
    } else {
        entry_of(players.drop_first(), me)
    }
}

fn creator_entry_team(players: &Vec<LobbyPlayer>, me: u128) -> (r: Option<Option<i16>>)
    ensures
        r == match entry_of(players@, me) {
            Some(p) => Some(p.team),
            None => None::<Option<i16>>,
        },
{
    let n = players.len();
    let mut j: usize = 0;
    assert(players@.subrange(0, n as int) =~= players@);
    while j < n
        invariant
            n == players@.len(),
            0 <= j <= n,
            entry_of(players@, me) == entry_of(players@.subrange(j as int, n as int), me),
        decreases n - j,
    {
        let ghost rest = players@.subrange(j as int, n as int);
        assert(rest.drop_first() =~= players@.subrange(j + 1, n as int));
        assert(rest[0] == players@[j as int]);
        if players[j].player_id == me {
            return Some(players[j].team);
        }
        j += 1;
    }
    None
}

/// The roster of a rematch: everyone but the creator (who joins the new
/// lobby by creating it), and the creator's old team.
pub fn rematch_roster(players: &Vec<LobbyPlayer>, me: u128) -> (r: RematchRoster)
    ensures
        r.others@ == others(players@, me),
        r.creator_team == match entry_of(players@, me) {
            Some(p) => Some(p.team),
            None => None::<Option<i16>>,
        },
{
    let n = players.len();
    let mut out: Vec<LobbyPlayer> = Vec::new();
    let mut i: usize = 0;
    while i < n
        invariant
            n == players@.len(),
            0 <= i <= n,
            out@ == others(players@.subrange(0, i as int), me),
        decreases n - i,
    {
        let ghost pre = players@.subrange(0, i + 1);
        assert(pre.drop_last() =~= players@.subrange(0, i as int));
        let p = players[i];
        if p.player_id != me {
            out.push(p);
        }
        i += 1;
    }
    assert(players@.subrange(0, n as int) =~= players@);
    let creator_team = creator_entry_team(players, me);
    RematchRoster { others: out, creator_team }
}

/// A rematch keeps the rest of the roster as it was: every other member is
/// carried over with the same team and captain flag, and the creator is
/// not added twice.
pub proof fn rematch_keeps_roster(players: Seq<LobbyPlayer>, me: u128)
    ensures
        forall|k: int| 0 <= k < players.len() && (#[trigger] players[k]).player_id != me
            ==> others(players, me).contains(players[k]),
        forall|k: int| 0 <= k < others(players, me).len() ==> (#[trigger] others(players, me)[k]).player_id != me,
    decreases players.len(),
{
    if players.len() > 0 {
        let init = players.drop_last();
        rematch_keeps_roster(init, me);
        let o = others(players, me);
        assert forall|k: int| 0 <= k < players.len() && (#[trigger] players[k]).player_id != me implies o.contains(players[k]) by {
            if k < players.len() - 1 {
                assert(players[k] == init[k]);
                let i = choose|i: int| 0 <= i < others(init, me).len() && others(init, me)[i] == init[k];
                assert(o[i] == init[k]);
            } else {
                assert(o[o.len() - 1] == players[k]);
            }
        }
        assert forall|k: int| 0 <= k < o.len() implies (#[trigger] o[k]).player_id != me by {
            if k < others(init, me).len() {
                assert(o[k] == others(init, me)[k]);
            }
        }
    }
}

/// A change the lobby's subscribers are told of.
#[derive(Debug, Clone, Copy, PartialEq, Eq, Structural)]
pub enum LobbyChange {
    PlayerJoined,
    CodeRotated,
    PlayerLeft,
    PlayerKicked,
    TeamsChanged,
    CaptainChanged,
    TeamsShuffled,
    TeamsSwapped,
    PlayerDrafted,
    NominationChanged,
    Locked,
    Cancelled,
}

impl LobbyChange {
    /// The reason the doorbell carries.
    pub open spec fn reason_text(self) -> Seq<char> {
        match self {
            LobbyChange::PlayerJoined => "player_joined"@,
            LobbyChange::CodeRotated => "code_rotated"@,
            LobbyChange::PlayerLeft => "player_left"@,
            LobbyChange::PlayerKicked => "player_kicked"@,
            LobbyChange::TeamsChanged => "teams_changed"@,
            LobbyChange::CaptainChanged => "captain_changed"@,
            LobbyChange::TeamsShuffled => "teams_shuffled"@,
            LobbyChange::TeamsSwapped => "teams_swapped"@,
            LobbyChange::PlayerDrafted => "player_drafted"@,
            LobbyChange::NominationChanged => "nomination_changed"@,
            LobbyChange::Locked => "locked"@,
            LobbyChange::Cancelled => "cancelled"@,
        }
    }

    /// The reason text of the change.
    pub fn reason(&self) -> (r: &'static str)
        ensures
            r@ == self.reason_text(),
    {
        match self {
            LobbyChange::PlayerJoined => "player_joined",
            LobbyChange::CodeRotated => "code_rotated",
            LobbyChange::PlayerLeft => "player_left",
            LobbyChange::PlayerKicked => "player_kicked",
            LobbyChange::TeamsChanged => "teams_changed",
            LobbyChange::CaptainChanged => "captain_changed",
            LobbyChange::TeamsShuffled => "teams_shuffled",
            LobbyChange::TeamsSwapped => "teams_swapped",
            LobbyChange::PlayerDrafted => "player_drafted",
            LobbyChange::NominationChanged => "nomination_changed",
            LobbyChange::Locked => "locked",
            LobbyChange::Cancelled => "cancelled",
        }
    }
}

/// The lobby's creator always sees it as its creator, whether or not it
/// has also joined; any other signed-in viewer is a player exactly when it
/// takes part, and a signed-out viewer has no role.
pub proof fn creator_keeps_creator_role(creator_user: u128, other_user: u128, is_participant: bool)
    requires
        other_user != creator_user,
    ensures
        role_spec(Some(creator_user), creator_user, is_participant) == Some(PugRole::Creator),
        role_spec(Some(other_user), creator_user, is_participant)
            == (if is_participant { Some(PugRole::Player) } else { None }),
        role_spec(None, creator_user, is_participant) is None,
{
}

} // verus!
