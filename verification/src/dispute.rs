//! Disputes: the ids a dispute request carries, checked in the order the
//! endpoint reads them.

use vstd::prelude::*;
use crate::api_error::{ApiError, ErrorKind, is_error};
use crate::ids::{uuid_from_text, parse_id};
use crate::results::{all_ids, parsed_ids, parse_id_list};

verus! {

/// A dispute id from the path; `Invalid dispute ID format` otherwise.
pub fn parse_dispute_id(raw: &str) -> (r: Result<u128, ApiError>)
    ensures
        match uuid_from_text(raw@) {
            Some(v) => r == Ok::<u128, ApiError>(v),
            None => r matches Err(e) && is_error(e, ErrorKind::BadRequest, "Invalid dispute ID format"@),
        },
{
    parse_id(raw, "Invalid dispute ID format")
}

/// The ids of a new dispute.
#[derive(Debug, Clone)]
pub struct DisputeIds {
    pub match_id: u128,
    pub registration_id: u128,
    pub result_claim_id: Option<u128>,
    pub evidence_ids: Vec<u128>,
}

/// The first fault of a dispute request, in the order the endpoint checks:
/// the match id, the registration id, the reason (`reason_error` is what
/// reading the reason reported), the claim id, then the evidence ids.
pub open spec fn dispute_fault(
    match_id: Seq<char>,
    registration_id: Seq<char>,
    reason_error: Option<Seq<char>>,
    claim: Option<Seq<char>>,
    evidence: Seq<String>,
) -> Option<Seq<char>> {
    if uuid_from_text(match_id) is None {
        Some("Invalid match ID format"@)
    } else if uuid_from_text(registration_id) is None {
        Some("Invalid registration ID format"@)
    } else if reason_error is Some {
        Some("Invalid dispute reason: "@ + reason_error->0)
    } else if claim matches Some(c) && uuid_from_text(c) is None {
        Some("Invalid result claim ID format"@)
    } else if !all_ids(evidence) {
        Some("Invalid evidence ID format"@)
    } else {
        None
    }
}

/// Reads the ids of a dispute request; the first fault is a bad request.
pub fn raise_dispute_ids(
    match_id: &str,
    registration_id: &str,
    reason_error: Option<&str>,
    result_claim_id: Option<&str>,
    evidence_ids: &Vec<String>,
) -> (r: Result<DisputeIds, ApiError>)
    ensures
        match dispute_fault(
            match_id@,
            registration_id@,
            match reason_error { Some(e) => Some(e@), None => None },
            match result_claim_id { Some(c) => Some(c@), None => None },
            evidence_ids@,
        ) {
            Some(m) => r matches Err(e) && is_error(e, ErrorKind::BadRequest, m),
            None => r matches Ok(d) && uuid_from_text(match_id@) == Some(d.match_id)
                && uuid_from_text(registration_id@) == Some(d.registration_id)
                && d.result_claim_id == match result_claim_id { Some(c) => uuid_from_text(c@), None => None::<u128> }
                && parsed_ids(evidence_ids@, d.evidence_ids@),
        },
{
    let m = match parse_id(match_id, "Invalid match ID format") {
        Ok(v) => v,
        Err(e) => return Err(e),
    };
    let reg = match parse_id(registration_id, "Invalid registration ID format") {
        Ok(v) => v,
        Err(e) => return Err(e),
    };
    match reason_error {
        Some(e) => {
            let mut msg = String::from_str("Invalid dispute reason: ");
            msg.append(e);
            return Err(ApiError::new(ErrorKind::BadRequest, msg));
        }
        None => {}
    }
    let claim = match result_claim_id {
        Some(c) => match parse_id(c, "Invalid result claim ID format") {
            Ok(v) => Some(v),
            Err(e) => return Err(e),
        },
        None => None,
    };
    let ev = match parse_id_list(evidence_ids, "Invalid evidence ID format") {
        Ok(v) => v,
        Err(e) => return Err(e),
    };
    Ok(DisputeIds { match_id: m, registration_id: reg, result_claim_id: claim, evidence_ids: ev })
}

/// The rows of the admin's dispute queue page: `page_size` rows from
/// `(page - 1) * page_size`.
pub fn dispute_page_window(page: u32, page_size: u32) -> (r: (i64, i64))
    requires
        page >= 1,
        (page - 1) * page_size <= u32::MAX,
    ensures
        r.0 == page_size,
        r.1 == (page - 1) * page_size,
{
    let offset: u32 = (page - 1) * page_size;
    (page_size as i64, offset as i64)
}

} // verus!
