//! League teams: listing queries, the roster-lock override, entry
//! requirements for a roster addition, and who may manage a team season.

use vstd::prelude::*;
use crate::api_error::{ApiError, ErrorKind, is_error};
use crate::leagues::{join_with, requirements_outcome};
use crate::text::{trim, trim_str, str_eq};

verus! {

/// Query of the season listing.
#[derive(Debug, Clone)]
pub struct ListSeasonsParams {
    /// The league whose seasons are listed.
    pub league_id: String,
}

/// Query of the team listing of a league.
#[derive(Debug, Clone)]
pub struct ListLeagueTeamsParams {
    pub search: Option<String>,
    /// 1-based page.
    pub page: i64,
    pub per_page: i64,
}

/// Query of the team listing of a season.
#[derive(Debug, Clone)]
pub struct ListTeamSeasonsParams {
    /// 1-based page.
    pub page: i64,
    pub per_page: i64,
    /// Include archived teams (needs `league.settings.manage`).
    pub include_archived: bool,
}

/// The page a listing shows when none is asked for.
pub fn default_page() -> (r: i64)
    ensures
        r == 1,
{
    1
}

/// The page size when none is asked for.
pub fn default_per_page() -> (r: i64)
    ensures
        r == 20,
{
    20
}

/// The query flags of a roster change that overrides a roster lock.
#[derive(Debug, Clone, Default)]
pub struct RosterLockOverrideParams {
    pub override_roster_lock: bool,
    /// Why; required with the override, at least ten characters once trimmed.
    pub override_reason: Option<String>,
}

/// The shortest override reason accepted, in characters.
pub const MIN_OVERRIDE_REASON_LEN: usize = 10;

/// An override of a roster lock, as the roster change records it.
#[derive(Debug, Clone)]
pub struct RosterLockOverride {
    pub overridden_by: u128,
    pub reason: String,
    /// The request id, when the caller sent one.
    pub request_id: Option<String>,
}

/// The refusal of an override reason that is missing or too short.
pub open spec fn short_reason_message() -> Seq<char> {
    "override_reason is required when overriding the roster lock and must be at least 10 characters"@
}

/// Resolves a roster-lock override: none unless asked for; only platform
/// team admins may ask; the reason, trimmed, must have at least ten
/// characters. The request id is kept unless it is the `unknown` stand-in.
pub fn resolve_roster_lock_override(
    requested: bool,
    is_team_admin: bool,
    reason: Option<String>,
    request_id: &str,
    player: u128,
) -> (r: Result<Option<RosterLockOverride>, ApiError>)
    ensures
        !requested ==> r matches Ok(None),
        requested && !is_team_admin ==> (r matches Err(e)
            && is_error(e, ErrorKind::Forbidden, "Only platform team admins can override a roster lock"@)),
        requested && is_team_admin ==> ({
            let text = trim(match reason { Some(t) => t@, None => seq![] });
            &&& text.len() < 10 ==> (r matches Err(e) && is_error(e, ErrorKind::BadRequest, short_reason_message()))
            &&& text.len() >= 10 ==> (r matches Ok(Some(o)) && o.overridden_by == player && o.reason@ == text
                && (request_id@ == "unknown"@ ==> o.request_id is None)
                && (request_id@ != "unknown"@ ==> (o.request_id is Some && o.request_id->0@ == request_id@)))
        }),
{
    if !requested {
        return Ok(None);
    }
    if !is_team_admin {
        return Err(ApiError::from_str(ErrorKind::Forbidden, "Only platform team admins can override a roster lock"));
    }
    let raw = match reason {
        Some(t) => t,
        None => String::new(),
    };
    let text = trim_str(raw.as_str());
    if text.as_str().unicode_len() < MIN_OVERRIDE_REASON_LEN {
        return Err(ApiError::from_str(
            ErrorKind::BadRequest,
            "override_reason is required when overriding the roster lock and must be at least 10 characters",
        ));
    }
    let rid = if str_eq(request_id, "unknown") { None } else { Some(String::from_str(request_id)) };
    Ok(Some(RosterLockOverride { overridden_by: player, reason: text, request_id: rid }))
}

/// The roster a team-wide cap is checked against: the members and the
/// joining player.
pub fn roster_with(members: &Vec<u128>, joining: u128) -> (r: Vec<u128>)
    ensures
        r@ == members@.push(joining),
{
    let mut roster = members.clone();
    assert(roster@ =~= members@);
    roster.push(joining);
    roster
}

/// The answer to a roster addition: refused with every violated entry
/// requirement, joined by `; `.
pub fn roster_addition_outcome(violations: &Vec<String>) -> (r: Result<(), ApiError>)
    ensures
        violations@.len() == 0 ==> r is Ok,
        violations@.len() > 0 ==> (r matches Err(e) && is_error(e, ErrorKind::BadRequest,
            "League entry requirements not met: "@ + join_with(violations@, "; "@))),
{
    requirements_outcome("League entry requirements not met: ", violations)
}

/// Admits a captain of the team season or a platform team admin to
/// `action`.
pub fn require_captain_or_admin(is_captain: bool, is_team_admin: bool, action: &str) -> (r: Result<(), ApiError>)
    ensures
        (is_captain || is_team_admin) ==> r is Ok,
        !(is_captain || is_team_admin) ==> (r matches Err(e)
            && is_error(e, ErrorKind::Forbidden, "Only captains or platform admins can "@ + action@)),
{
    if is_captain || is_team_admin {
        return Ok(());
    }
    let mut m = String::from_str("Only captains or platform admins can ");
    m.append(action);
    Err(ApiError::new(ErrorKind::Forbidden, m))
}

/// Whether a listing of archived teams may go on to the permission check:
/// asking for archived teams needs a signed-in caller.
pub fn archived_listing_gate(include_archived: bool, signed_in: bool) -> (r: Result<(), ApiError>)
    ensures
        (!include_archived || signed_in) ==> r is Ok,
        (include_archived && !signed_in) ==> (r matches Err(e)
            && is_error(e, ErrorKind::Forbidden, "Missing required permission: league.settings.manage"@)),
{
    if include_archived && !signed_in {
        return Err(ApiError::from_str(ErrorKind::Forbidden, "Missing required permission: league.settings.manage"));
    }
    Ok(())
}

} // verus!
