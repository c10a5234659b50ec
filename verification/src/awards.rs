//! Awards and stat leaderboards: row limits, qualifier thresholds, the
//! fields of a custom award, stat keys against a game's catalogue, and the
//! sort of the combined player-stats board.

use vstd::prelude::*;
use crate::api_error::{ApiError, ErrorKind, is_error};
use crate::text::{starts_with, str_eq, str_starts_with};

verus! {

/// Rows of a standings or leaderboard read when none are asked for.
pub const DEFAULT_LIMIT: i64 = 10;

/// The most rows a standings or leaderboard read returns.
pub const MAX_LIMIT: i64 = 100;

/// Rows of the player-stats board when none are asked for.
pub const PLAYER_STATS_DEFAULT_LIMIT: i64 = 100;

/// The most rows the player-stats board returns.
pub const PLAYER_STATS_MAX_LIMIT: i64 = 200;

/// `v` clamped into `lo..=hi`.
pub open spec fn clamped(v: int, lo: int, hi: int) -> int {
    if v < lo {
        lo
    } else if v > hi {
        hi
    } else {
        v
    }
}

/// The row limit of a standings or leaderboard read: 10 by default,
/// clamped into 1..=100.
pub fn clamp_limit(limit: Option<i64>) -> (r: i64)
    ensures
        r == clamped(match limit { Some(l) => l as int, None => 10 }, 1, 100),
{
    let l = match limit {
        Some(l) => l,
        None => DEFAULT_LIMIT,
    };
    if l < 1 {
        1
    } else if l > MAX_LIMIT {
        MAX_LIMIT
    } else {
        l
    }
}

/// The row limit of the player-stats board: 100 by default, clamped into
/// 1..=200.
pub fn player_stats_limit(limit: Option<i64>) -> (r: i64)
    ensures
        r == clamped(match limit { Some(l) => l as int, None => 100 }, 1, 200),
{
    let l = match limit {
        Some(l) => l,
        None => PLAYER_STATS_DEFAULT_LIMIT,
    };
    if l < 1 {
        1
    } else if l > PLAYER_STATS_MAX_LIMIT {
        PLAYER_STATS_MAX_LIMIT
    } else {
        l
    }
}

/// The fewest demos a player needs on the player-stats board: at least 1.
pub fn min_demos(requested: Option<i32>) -> (r: i64)
    ensures
        r == match requested {
            Some(v) => if v < 1 { 1 } else { v as int },
            None => 1,
        },
{
    let v = match requested {
        Some(v) => v,
        None => 1,
    };
    if v < 1 { 1 } else { v as i64 }
}

/// The fewest rounds a player needs on the player-stats board: at least 0.
pub fn min_rounds(requested: Option<i32>) -> (r: i32)
    ensures
        r == match requested {
            Some(v) => if v < 0 { 0 } else { v },
            None => 0,
        },
{
    let v = match requested {
        Some(v) => v,
        None => 0,
    };
    if v < 0 { 0 } else { v }
}

/// What a leaderboard's minimum counts.
#[derive(Debug, Clone, Copy, PartialEq, Eq, Structural)]
pub enum QualifierKind {
    Matches,
    Rounds,
}

/// The qualifier of a leaderboard: at most one of a match or a round
/// minimum, and it must be at least 1.
pub fn leaderboard_qualifier(min_matches: Option<i64>, min_rounds: Option<i64>) -> (r: Result<Option<(QualifierKind, i64)>, ApiError>)
    ensures
        match (min_matches, min_rounds) {
            (Some(_), Some(_)) => r matches Err(e)
                && is_error(e, ErrorKind::BadRequest, "min_matches and min_rounds are mutually exclusive"@),
            (Some(v), None) => if v < 1 {
                r matches Err(e) && is_error(e, ErrorKind::BadRequest, "Qualifier thresholds must be >= 1"@)
            } else {
                r == Ok::<Option<(QualifierKind, i64)>, ApiError>(Some((QualifierKind::Matches, v)))
            },
            (None, Some(v)) => if v < 1 {
                r matches Err(e) && is_error(e, ErrorKind::BadRequest, "Qualifier thresholds must be >= 1"@)
            } else {
                r == Ok::<Option<(QualifierKind, i64)>, ApiError>(Some((QualifierKind::Rounds, v)))
            },
            (None, None) => r == Ok::<Option<(QualifierKind, i64)>, ApiError>(None),
        },
{
    let q = match (min_matches, min_rounds) {
        (Some(_), Some(_)) => {
            return Err(ApiError::from_str(ErrorKind::BadRequest, "min_matches and min_rounds are mutually exclusive"));
        }
        (Some(v), None) => (QualifierKind::Matches, v),
        (None, Some(v)) => (QualifierKind::Rounds, v),
        (None, None) => return Ok(None),
    };
    if q.1 < 1 {
        return Err(ApiError::from_str(ErrorKind::BadRequest, "Qualifier thresholds must be >= 1"));
    }
    Ok(Some(q))
}

/// The name and stat key of a custom award, both required.
pub fn custom_award_fields(name: Option<String>, stat_key: Option<String>) -> (r: Result<(String, String), ApiError>)
    ensures
        match name {
            None => r matches Err(e) && is_error(e, ErrorKind::BadRequest, "name is required for custom awards"@),
            Some(n) => match stat_key {
                None => r matches Err(e) && is_error(e, ErrorKind::BadRequest, "stat_key is required for custom awards"@),
                Some(k) => r matches Ok(p) && p.0@ == n@ && p.1@ == k@,
            },
        },
{
    let n = match name {
        Some(n) => n,
        None => return Err(ApiError::from_str(ErrorKind::BadRequest, "name is required for custom awards")),
    };
    match stat_key {
        Some(k) => Ok((n, k)),
        None => Err(ApiError::from_str(ErrorKind::BadRequest, "stat_key is required for custom awards")),
    }
}

/// The minimum qualifier of a custom award: its type and value come
/// together or not at all.
pub fn qualifier_pair<V>(qualifier_type: Option<&str>, value: Option<V>) -> (r: Result<Option<(&str, V)>, ApiError>)
    ensures
        match (qualifier_type, value) {
            (Some(t), Some(v)) => r matches Ok(Some(p)) && p.0@ == t@ && p.1 == v,
            (None, None) => r matches Ok(None),
            _ => r matches Err(e) && is_error(e, ErrorKind::BadRequest,
                "min_qualifier_type and min_qualifier_value must be provided together"@),
        },
{
    match (qualifier_type, value) {
        (Some(t), Some(v)) => Ok(Some((t, v))),
        (None, None) => Ok(None),
        _ => Err(ApiError::from_str(
            ErrorKind::BadRequest,
            "min_qualifier_type and min_qualifier_value must be provided together",
        )),
    }
}

/// Stat keys under `kills.weapon.` are always accepted: the weapon space is
/// open.
pub open spec fn is_weapon_key(key: Seq<char>) -> bool {
    starts_with(key, "kills.weapon."@)
}

/// Whether a stat key must be looked up in the game's catalogue.
pub fn stat_key_needs_catalog(key: &str) -> (r: bool)
    ensures
        r == !is_weapon_key(key@),
{
    !str_starts_with(key, "kills.weapon.")
}

/// The catalogue lists `key`.
pub open spec fn catalog_lists(catalog: Seq<String>, key: Seq<char>) -> bool {
    exists|j: int| 0 <= j < catalog.len() && (#[trigger] catalog[j])@ == key
}

/// Checks a stat key: weapon keys pass; any other must be in the game's
/// stat catalogue.
pub fn check_stat_key(key: &str, catalog: &Vec<String>) -> (r: Result<(), ApiError>)
    ensures
        (is_weapon_key(key@) || catalog_lists(catalog@, key@)) ==> r is Ok,
        !(is_weapon_key(key@) || catalog_lists(catalog@, key@)) ==> (r matches Err(e) && is_error(e, ErrorKind::BadRequest,
            "Unknown stat key '"@ + key@ + "' for this game's stat catalog"@)),
{
    if !stat_key_needs_catalog(key) {
        return Ok(());
    }
    let n = catalog.len();
    let mut i: usize = 0;
    while i < n
        invariant
            n == catalog@.len(),
            0 <= i <= n,
            forall|j: int| 0 <= j < i ==> (#[trigger] catalog@[j])@ != key@,
        decreases n - i,
    {
        if str_eq(catalog[i].as_str(), key) {
            assert(catalog@[i as int]@ == key@);
            return Ok(());
        }
        i += 1;
    }
    let mut m = String::from_str("Unknown stat key '");
    m.append(key);
    m.append("' for this game's stat catalog");
    Err(ApiError::new(ErrorKind::BadRequest, m))
}

/// The column the player-stats board sorts by.
#[derive(Debug, Clone, Copy, PartialEq, Eq, Structural)]
pub enum PlayerStatsSort {
    Kills,
    Deaths,
    Assists,
    TotalDamage,
    Adr,
}

/// The sort named by `raw` (kills when none).
pub open spec fn sort_spec(raw: Option<Seq<char>>) -> Option<PlayerStatsSort> {
    match raw {
        None => Some(PlayerStatsSort::Kills),
        Some(s) => if s == "kills"@ {
            Some(PlayerStatsSort::Kills)
        } else if s == "deaths"@ {
            Some(PlayerStatsSort::Deaths)
        } else if s == "assists"@ {
            Some(PlayerStatsSort::Assists)
        } else if s == "total_damage"@ {
            Some(PlayerStatsSort::TotalDamage)
        } else if s == "adr"@ {
            Some(PlayerStatsSort::Adr)
        } else {
            None
        },
    }
}

/// Reads the sort of the player-stats board.
pub fn parse_player_stats_sort(raw: Option<&str>) -> (r: Result<PlayerStatsSort, ApiError>)
    ensures
        match sort_spec(match raw { Some(s) => Some(s@), None => None }) {
            Some(s) => r == Ok::<PlayerStatsSort, ApiError>(s),
            None => r matches Err(e) && is_error(e, ErrorKind::BadRequest,
                "Invalid sort '"@ + raw->0@ + "'; expected one of kills, deaths, assists, total_damage, adr"@),
        },
{
    let s = match raw {
        None => return Ok(PlayerStatsSort::Kills),
        Some(s) => s,
    };
    if str_eq(s, "kills") {
        Ok(PlayerStatsSort::Kills)
    } else if str_eq(s, "deaths") {
        Ok(PlayerStatsSort::Deaths)
    } else if str_eq(s, "assists") {
        Ok(PlayerStatsSort::Assists)
    } else if str_eq(s, "total_damage") {
        Ok(PlayerStatsSort::TotalDamage)
    } else if str_eq(s, "adr") {
        Ok(PlayerStatsSort::Adr)
    } else {
        let mut m = String::from_str("Invalid sort '");
        m.append(s);
        m.append("'; expected one of kills, deaths, assists, total_damage, adr");
        Err(ApiError::new(ErrorKind::BadRequest, m))
    }
}

/// Every limit lands in its range, whatever was asked for.
pub proof fn limits_are_bounded(limit: Option<i64>)
    ensures
        1 <= clamped(match limit { Some(l) => l as int, None => 10 }, 1, 100) <= 100,
        1 <= clamped(match limit { Some(l) => l as int, None => 100 }, 1, 200) <= 200,
        (limit is Some && 1 <= limit->0 <= 100) ==> clamped(limit->0 as int, 1, 100) == limit->0,
{
}

/// The column name of a sort.
pub open spec fn sort_column(s: PlayerStatsSort) -> Seq<char> {
    match s {
        PlayerStatsSort::Kills => "kills"@,
        PlayerStatsSort::Deaths => "deaths"@,
        PlayerStatsSort::Assists => "assists"@,
        PlayerStatsSort::TotalDamage => "total_damage"@,
        PlayerStatsSort::Adr => "adr"@,
    }
}

/// Each sort name gives the sort of the column of that name: every sort is
/// reached by its own name, an accepted name is always the name of the sort
/// it gives (so distinct names give distinct sorts), and no name gives
/// kills by default.
pub proof fn sort_names_are_their_columns(s: PlayerStatsSort, raw: Seq<char>)
    ensures
        sort_spec(Some(sort_column(s))) == Some(s),
        sort_spec(Some(raw)) matches Some(t) ==> raw == sort_column(t),
        sort_spec(None) == Some(PlayerStatsSort::Kills),
{
    reveal_strlit("kills");
    reveal_strlit("deaths");
    reveal_strlit("assists");
    reveal_strlit("total_damage");
    reveal_strlit("adr");
    assert("kills"@.len() == 5);
    assert("deaths"@.len() == 6);
    assert("assists"@.len() == 7);
    assert("total_damage"@.len() == 12);
    assert("adr"@.len() == 3);
}

} // verus!
