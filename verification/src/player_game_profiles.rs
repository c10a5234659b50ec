//! Player game profiles: how a game is named in the path, history limits,
//! and the answers for missing profiles and statistics.

use vstd::prelude::*;
use crate::api_error::{ApiError, ErrorKind, is_error};
use crate::ids::{uuid_from_text, uuid_text, uuid_string, parse_id};

verus! {

/// Query of the rating history.
#[derive(Debug, Clone, Copy, PartialEq, Eq, Structural)]
pub struct RatingHistoryQuery {
    /// Most entries returned (100 by default).
    pub limit: Option<i64>,
}

/// Query of the match history.
#[derive(Debug, Clone, Copy, PartialEq, Eq, Structural)]
pub struct MatchHistoryQuery {
    /// Most entries returned (20 by default, at most 100).
    pub limit: Option<i64>,
    /// Entries skipped.
    pub offset: Option<i64>,
}

impl RatingHistoryQuery {
    /// The limit passed on: the one asked for, else 100 (no upper clamp).
    pub fn effective_limit(&self) -> (r: Option<i64>)
        ensures
            r == Some(match self.limit {
                Some(l) => l,
                None => 100i64,
            }),
    {
        match self.limit {
            Some(l) => Some(l),
            None => Some(100),
        }
    }
}

impl MatchHistoryQuery {
    /// The limit and offset passed on: 20 rows by default and at most 100;
    /// offset 0 by default.
    pub fn window(&self) -> (r: (i64, i64))
        ensures
            r.0 == (match self.limit {
                Some(l) => if l < 100 { l } else { 100i64 },
                None => 20i64,
            }),
            r.1 == (match self.offset {
                Some(o) => o,
                None => 0i64,
            }),
    {
        let l = match self.limit {
            Some(l) => if l < 100 { l } else { 100 },
            None => 20,
        };
        let o = match self.offset {
            Some(o) => o,
            None => 0,
        };
        (l, o)
    }
}

/// How a path names a game.
#[derive(Debug, Clone, Copy, PartialEq, Eq, Structural)]
pub enum GameRef {
    /// By id, when the text is a UUID.
    Id(u128),
    /// By slug otherwise.
    Slug,
}

/// A game named in a path: its id when the text is a UUID, else a slug.
pub fn game_ref(game_id_or_slug: &str) -> (r: GameRef)
    ensures
        r == match uuid_from_text(game_id_or_slug@) {
            Some(id) => GameRef::Id(id),
            None => GameRef::Slug,
        },
{
    match parse_id(game_id_or_slug, "") {
        Ok(id) => GameRef::Id(id),
        Err(_) => GameRef::Slug,
    }
}

/// A player id of the profile endpoints; `Invalid player ID format` otherwise.
pub fn parse_profile_player_id(raw: &str) -> (r: Result<u128, ApiError>)
    ensures
        match uuid_from_text(raw@) {
            Some(v) => r == Ok::<u128, ApiError>(v),
            None => r matches Err(e) && is_error(e, ErrorKind::BadRequest, "Invalid player ID format"@),
        },
{
    parse_id(raw, "Invalid player ID format")
}

/// The not-found answer for a missing profile.
pub fn no_profile(player_id: u128, game_id_or_slug: &str) -> (e: ApiError)
    ensures
        is_error(e, ErrorKind::NotFound, "No game profile found for player "@ + uuid_text(player_id) + " in game "@
            + game_id_or_slug@),
{
    let mut m = String::from_str("No game profile found for player ");
    let p = uuid_string(player_id);
    m.append(p.as_str());
    m.append(" in game ");
    m.append(game_id_or_slug);
    ApiError::new(ErrorKind::NotFound, m)
}

/// The not-found answer for a player without matchmaking statistics.
pub fn no_mm_stats() -> (e: ApiError)
    ensures
        is_error(e, ErrorKind::NotFound, "No public matchmaking stats found for this player"@),
{
    ApiError::from_str(ErrorKind::NotFound, "No public matchmaking stats found for this player")
}

/// The current and peak rating shown with matchmaking statistics: from the
/// rating history, 0 and 0 without one.
pub fn shown_ratings(stats: Option<(i32, i32)>) -> (r: (i32, i32))
    ensures
        r == match stats {
            Some(s) => s,
            None => (0i32, 0i32),
        },
{
    match stats {
        Some(s) => s,
        None => (0, 0),
    }
}

/// The rank type of an admin rating submission: Premier.
pub const ADMIN_RATING_RANK_TYPE: i32 = 11;

} // verus!
