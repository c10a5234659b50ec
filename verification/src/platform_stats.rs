//! Platform statistics for the admin dashboard: the counts as the store
//! keeps them (signed) and as the dashboard shows them (unsigned).

use vstd::prelude::*;
use crate::api_error::{ApiError, ErrorKind, is_error};

verus! {

/// The counts as the statistics store returns them.
#[derive(Debug, Clone, Copy)]
pub struct StoredCounts {
    pub total_users: i64,
    pub total_players: i64,
    pub total_teams: i64,
    pub active_games: i64,
    pub active_bans: i64,
    pub users_last_24h: i64,
    pub users_last_7d: i64,
    pub teams_last_7d: i64,
}

/// The counts the dashboard receives.
#[derive(Debug, Clone, Copy)]
pub struct PlatformStats {
    pub total_users: u64,
    pub total_players: u64,
    pub total_teams: u64,
    pub active_games: u64,
    pub active_bans: u64,
    pub users_last_24h: u64,
    pub users_last_7d: u64,
    pub teams_last_7d: u64,
}

/// Each count converted with `as u64`: a count, never negative, keeps its
/// value.
pub fn platform_stats(c: StoredCounts) -> (r: PlatformStats)
    ensures
        r.total_users == c.total_users as u64,
        r.total_players == c.total_players as u64,
        r.total_teams == c.total_teams as u64,
        r.active_games == c.active_games as u64,
        r.active_bans == c.active_bans as u64,
        r.users_last_24h == c.users_last_24h as u64,
        r.users_last_7d == c.users_last_7d as u64,
        r.teams_last_7d == c.teams_last_7d as u64,
{
    PlatformStats {
        total_users: c.total_users as u64,
        total_players: c.total_players as u64,
        total_teams: c.total_teams as u64,
        active_games: c.active_games as u64,
        active_bans: c.active_bans as u64,
        users_last_24h: c.users_last_24h as u64,
        users_last_7d: c.users_last_7d as u64,
        teams_last_7d: c.teams_last_7d as u64,
    }
}

/// The answer when the statistics store fails, carrying its error text.
pub fn stats_fetch_failure(detail: &str) -> (e: ApiError)
    ensures
        is_error(e, ErrorKind::Internal, "Failed to fetch stats: "@ + detail@),
{
    let mut m = String::from_str("Failed to fetch stats: ");
    m.append(detail);
    ApiError::new(ErrorKind::Internal, m)
}

} // verus!
