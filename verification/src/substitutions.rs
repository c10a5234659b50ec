//! Mid-series substitutions: request parsing, the picker's options, and
//! which status changes the cancel, approve and reject endpoints allow.

use vstd::prelude::*;
use crate::api_error::{ApiError, ErrorKind, is_error};
use crate::ids::{uuid_from_text, uuid_text, uuid_string, parse_id};

verus! {

/// Request a substitution.
#[derive(Debug, Clone)]
pub struct CreateSubstitutionRequest {
    /// The player leaving the match.
    pub player_out_id: String,
    /// The player coming in; none plays short-handed.
    pub player_in_id: Option<String>,
}

/// The players of a substitution request; a bad request naming the field
/// that is no UUID (the leaving player checked first).
pub fn substitution_players(req: &CreateSubstitutionRequest) -> (r: Result<(u128, Option<u128>), ApiError>)
    ensures
        match uuid_from_text(req.player_out_id@) {
            None => r matches Err(e) && is_error(e, ErrorKind::BadRequest, "invalid player_out_id"@),
            Some(out) => match req.player_in_id {
                None => r == Ok::<(u128, Option<u128>), ApiError>((out, None)),
                Some(raw) => match uuid_from_text(raw@) {
                    Some(inp) => r == Ok::<(u128, Option<u128>), ApiError>((out, Some(inp))),
                    None => r matches Err(e) && is_error(e, ErrorKind::BadRequest, "invalid player_in_id"@),
                },
            },
        },
{
    let out = match parse_id(req.player_out_id.as_str(), "invalid player_out_id") {
        Ok(v) => v,
        Err(e) => return Err(e),
    };
    match &req.player_in_id {
        None => Ok((out, None)),
        Some(raw) => match parse_id(raw.as_str(), "invalid player_in_id") {
            Ok(v) => Ok((out, Some(v))),
            Err(e) => Err(e),
        },
    }
}

/// A substitution id from the path; `invalid substitution id` otherwise.
pub fn parse_substitution_id(raw: &str) -> (r: Result<u128, ApiError>)
    ensures
        match uuid_from_text(raw@) {
            Some(v) => r == Ok::<u128, ApiError>(v),
            None => r matches Err(e) && is_error(e, ErrorKind::BadRequest, "invalid substitution id"@),
        },
{
    parse_id(raw, "invalid substitution id")
}

/// The not-found answer for an unknown substitution.
pub fn substitution_not_found() -> (e: ApiError)
    ensures
        is_error(e, ErrorKind::NotFound, "substitution not found"@),
{
    ApiError::from_str(ErrorKind::NotFound, "substitution not found")
}

/// Where a substitution is in its life.
#[derive(Debug, Clone, Copy, PartialEq, Eq, Structural)]
pub enum SubstitutionStatus {
    /// Waiting for an admin (the `admin_approval` policy).
    AwaitingApproval,
    /// Approved, waiting to apply from its game.
    Pending,
    /// Being applied to the roster.
    Applying,
    /// The roster edit stands.
    Applied,
    /// Applying it failed.
    Failed,
    Cancelled,
    Rejected,
}

/// The status a cancel leads to: only the requester or an admin may
/// cancel, and only before the substitution applied or failed.
pub open spec fn cancel_spec(status: SubstitutionStatus, is_requester: bool, is_admin: bool) -> Result<SubstitutionStatus, (ErrorKind, Seq<char>)> {
    if !is_requester && !is_admin {
        Err((ErrorKind::Forbidden, "only the requester can cancel"@))
    } else if status == SubstitutionStatus::Applied || status == SubstitutionStatus::Failed {
        Err((ErrorKind::BadRequest, "the substitution has already been applied"@))
    } else {
        Ok(SubstitutionStatus::Cancelled)
    }
}

/// `r` answers as `spec` says.
pub open spec fn answers(r: Result<SubstitutionStatus, ApiError>, spec: Result<SubstitutionStatus, (ErrorKind, Seq<char>)>) -> bool {
    match spec {
        Ok(s) => r == Ok::<SubstitutionStatus, ApiError>(s),
        Err((k, m)) => r matches Err(e) && is_error(e, k, m),
    }
}

/// Decides a cancel.
pub fn cancel_substitution(status: SubstitutionStatus, requested_by: u128, user: u128, is_admin: bool) -> (r: Result<SubstitutionStatus, ApiError>)
    ensures
        answers(r, cancel_spec(status, requested_by == user, is_admin)),
{
    if requested_by != user && !is_admin {
        return Err(ApiError::from_str(ErrorKind::Forbidden, "only the requester can cancel"));
    }
    if status == SubstitutionStatus::Applied || status == SubstitutionStatus::Failed {
        return Err(ApiError::from_str(ErrorKind::BadRequest, "the substitution has already been applied"));
    }
    Ok(SubstitutionStatus::Cancelled)
}

/// The status an approval leads to: only a substitution awaiting approval
/// is approved, and it becomes pending.
pub open spec fn approve_spec(status: SubstitutionStatus) -> Result<SubstitutionStatus, (ErrorKind, Seq<char>)> {
    if status == SubstitutionStatus::AwaitingApproval {
        Ok(SubstitutionStatus::Pending)
    } else {
        Err((ErrorKind::BadRequest, "substitution is not awaiting approval"@))
    }
}

/// Decides an approval (the caller is an admin).
pub fn approve_substitution(status: SubstitutionStatus) -> (r: Result<SubstitutionStatus, ApiError>)
    ensures
        answers(r, approve_spec(status)),
{
    if status == SubstitutionStatus::AwaitingApproval {
        Ok(SubstitutionStatus::Pending)
    } else {
        Err(ApiError::from_str(ErrorKind::BadRequest, "substitution is not awaiting approval"))
    }
}

/// The status a rejection leads to: only a pending, awaiting or applying
/// substitution is rejected.
pub open spec fn reject_spec(status: SubstitutionStatus) -> Result<SubstitutionStatus, (ErrorKind, Seq<char>)> {
    if status == SubstitutionStatus::Pending || status == SubstitutionStatus::AwaitingApproval
        || status == SubstitutionStatus::Applying {
        Ok(SubstitutionStatus::Rejected)
    } else {
        Err((ErrorKind::BadRequest, "only pending/awaiting/applying substitutions can be rejected"@))
    }
}

/// Decides a rejection (the caller is an admin).
pub fn reject_substitution(status: SubstitutionStatus) -> (r: Result<SubstitutionStatus, ApiError>)
    ensures
        answers(r, reject_spec(status)),
{
    if status == SubstitutionStatus::Pending || status == SubstitutionStatus::AwaitingApproval
        || status == SubstitutionStatus::Applying {
        Ok(SubstitutionStatus::Rejected)
    } else {
        Err(ApiError::from_str(
            ErrorKind::BadRequest,
            "only pending/awaiting/applying substitutions can be rejected",
        ))
    }
}

/// An applied substitution is history: nobody can cancel or reject it, and
/// it cannot be approved again.
pub proof fn applied_substitution_stands(is_requester: bool, is_admin: bool)
    ensures
        cancel_spec(SubstitutionStatus::Applied, is_requester, is_admin) is Err,
        reject_spec(SubstitutionStatus::Applied) is Err,
        approve_spec(SubstitutionStatus::Applied) is Err,
{
}

/// Every allowed change ends in a cancelled, pending or rejected
/// substitution; approving is the only way to pending, and only from
/// awaiting approval.
pub proof fn substitution_transitions(status: SubstitutionStatus, is_requester: bool, is_admin: bool)
    ensures
        cancel_spec(status, is_requester, is_admin) matches Ok(s) ==> s == SubstitutionStatus::Cancelled,
        approve_spec(status) is Ok ==> status == SubstitutionStatus::AwaitingApproval,
        reject_spec(status) matches Ok(s) ==> s == SubstitutionStatus::Rejected,
        reject_spec(status) is Ok ==> cancel_spec(status, true, false) is Ok,
{
}

/// A player the picker offers.
#[derive(Debug, Clone)]
pub struct SubstitutionPlayerOption {
    pub player_id: String,
    pub display_name: String,
    /// Bench players without a linked Steam id cannot come in.
    pub has_steam: bool,
}

/// One side's options.
#[derive(Debug, Clone)]
pub struct SubstitutionOptionsSide {
    pub registration_id: String,
    pub participant_name: String,
    /// Players listed on the server now.
    pub active: Vec<SubstitutionPlayerOption>,
    /// Rostered players not listed.
    pub bench: Vec<SubstitutionPlayerOption>,
}

/// `o` offers the player `id` named `name`.
pub open spec fn offers(o: SubstitutionPlayerOption, id: u128, name: String, has_steam: bool) -> bool {
    o.player_id@ == uuid_text(id) && o.display_name@ == name@ && o.has_steam == has_steam
}

/// The picker's options for one side. Players on the server are in game,
/// so they count as having Steam; bench players carry their own flag.
pub fn options_side(
    registration_id: u128,
    participant_name: String,
    active: Vec<(u128, String)>,
    bench: Vec<(u128, String, bool)>,
) -> (r: SubstitutionOptionsSide)
    ensures
        r.registration_id@ == uuid_text(registration_id),
        r.participant_name@ == participant_name@,
        r.active@.len() == active@.len(),
        forall|k: int| 0 <= k < active@.len() ==> offers(#[trigger] r.active@[k], active@[k].0, active@[k].1, true),
        r.bench@.len() == bench@.len(),
        forall|k: int| 0 <= k < bench@.len() ==> offers(#[trigger] r.bench@[k], bench@[k].0, bench@[k].1, bench@[k].2),
{
    let mut a: Vec<SubstitutionPlayerOption> = Vec::new();
    let n = active.len();
    let mut i: usize = 0;
    while i < n
        invariant
            n == active@.len(),
            0 <= i <= n,
            a@.len() == i,
            forall|k: int| 0 <= k < i ==> offers(#[trigger] a@[k], active@[k].0, active@[k].1, true),
        decreases n - i,
    {
        let (id, name) = (active[i].0, active[i].1.clone());
        a.push(SubstitutionPlayerOption { player_id: uuid_string(id), display_name: name, has_steam: true });
        i += 1;
    }
    let mut b: Vec<SubstitutionPlayerOption> = Vec::new();
    let m = bench.len();
    let mut j: usize = 0;
    while j < m
        invariant
            m == bench@.len(),
            0 <= j <= m,
            b@.len() == j,
            forall|k: int| 0 <= k < j ==> offers(#[trigger] b@[k], bench@[k].0, bench@[k].1, bench@[k].2),
        decreases m - j,
    {
        let (id, name, steam) = (bench[j].0, bench[j].1.clone(), bench[j].2);
        b.push(SubstitutionPlayerOption { player_id: uuid_string(id), display_name: name, has_steam: steam });
        j += 1;
    }
    SubstitutionOptionsSide {
        registration_id: uuid_string(registration_id),
        participant_name,
        active: a,
        bench: b,
    }
}

} // verus!
