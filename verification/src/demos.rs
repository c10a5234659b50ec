//! The demo catalogue: admin gates, hidden demos, batch cataloguing, and
//! the typed CS2 counters read from a player's stats document.

use vstd::prelude::*;
use crate::api_error::{ApiError, ErrorKind, is_error};
use crate::ids::{uuid_from_text, parse_id};
use crate::internal::{stat_spec, json_int_stat};
use crate::json::Json;

verus! {

/// Admits admins; a failed permission check counts as no.
pub fn require_admin(is_admin: Option<bool>) -> (r: Result<(), ApiError>)
    ensures
        is_admin == Some(true) ==> r is Ok,
        is_admin != Some(true) ==> (r matches Err(e) && is_error(e, ErrorKind::Forbidden, "Admin access required"@)),
{
    if is_admin == Some(true) {
        Ok(())
    } else {
        Err(ApiError::from_str(ErrorKind::Forbidden, "Admin access required"))
    }
}

/// Whether a listing includes hidden demos: only when asked for and the
/// caller is an admin.
pub fn include_hidden(requested: bool, is_admin: Option<bool>) -> (r: bool)
    ensures
        r == (requested && is_admin == Some(true)),
{
    requested && is_admin == Some(true)
}

/// A demo id from the path; `Invalid demo ID` otherwise.
pub fn parse_demo_id(raw: &str) -> (r: Result<u128, ApiError>)
    ensures
        match uuid_from_text(raw@) {
            Some(v) => r == Ok::<u128, ApiError>(v),
            None => r matches Err(e) && is_error(e, ErrorKind::BadRequest, "Invalid demo ID"@),
        },
{
    parse_id(raw, "Invalid demo ID")
}

/// The demo an admin's change to a demo applies to: the request body's
/// validation error comes first, then the id, then the admin check.
pub fn admin_demo_target(validation_error: Option<ApiError>, raw_id: &str, is_admin: Option<bool>) -> (r: Result<u128, ApiError>)
    ensures
        validation_error is Some ==> r == Err::<u128, ApiError>(validation_error->0),
        validation_error is None ==> match uuid_from_text(raw_id@) {
            None => r matches Err(e) && is_error(e, ErrorKind::BadRequest, "Invalid demo ID"@),
            Some(v) => if is_admin == Some(true) {
                r == Ok::<u128, ApiError>(v)
            } else {
                r matches Err(e) && is_error(e, ErrorKind::Forbidden, "Admin access required"@)
            },
        },
{
    if let Some(e) = validation_error {
        return Err(e);
    }
    let id = match parse_demo_id(raw_id) {
        Ok(v) => v,
        Err(e) => return Err(e),
    };
    match require_admin(is_admin) {
        Ok(()) => Ok(id),
        Err(e) => Err(e),
    }
}

/// The link type a demo-to-match link asks for: `manual` when none is
/// given.
pub fn requested_link_type(requested: Option<String>) -> (r: String)
    ensures
        r@ == match requested {
            Some(t) => t@,
            None => "manual"@,
        },
{
    match requested {
        Some(t) => t,
        None => String::from_str("manual"),
    }
}

/// A match id of the demo endpoints; `Invalid match ID` otherwise.
pub fn parse_demo_match_id(raw: &str) -> (r: Result<u128, ApiError>)
    ensures
        match uuid_from_text(raw@) {
            Some(v) => r == Ok::<u128, ApiError>(v),
            None => r matches Err(e) && is_error(e, ErrorKind::BadRequest, "Invalid match ID"@),
        },
{
    parse_id(raw, "Invalid match ID")
}

/// The integer CS2 counters of a player's stats document (the rates stay
/// with the document).
#[derive(Debug, Clone, Copy, PartialEq, Eq, Structural)]
pub struct Cs2Counters {
    pub kills: i32,
    pub deaths: i32,
    pub assists: i32,
    pub damage: i32,
    pub headshot_kills: i32,
}

/// Reads the counters; a missing or non-integer one is 0, and each is
/// truncated to 32 bits.
pub fn cs2_counters(stats: &Json) -> (r: Cs2Counters)
    ensures
        r.kills == stat_spec(*stats, "kills"@),
        r.deaths == stat_spec(*stats, "deaths"@),
        r.assists == stat_spec(*stats, "assists"@),
        r.damage == stat_spec(*stats, "damage"@),
        r.headshot_kills == stat_spec(*stats, "headshot_kills"@),
{
    Cs2Counters {
        kills: json_int_stat(stats, "kills"),
        deaths: json_int_stat(stats, "deaths"),
        assists: json_int_stat(stats, "assists"),
        damage: json_int_stat(stats, "damage"),
        headshot_kills: json_int_stat(stats, "headshot_kills"),
    }
}

/// How cataloguing one demo went.
#[derive(Debug, Clone)]
pub enum CatalogOutcome<D> {
    Created(D),
    Existing(D),
    /// The S3 key of the entry and the error text.
    Failed(String, String),
}

/// The result of a batch: new demos, demos already catalogued, failures.
#[derive(Debug, Clone)]
pub struct BatchCatalogResult<D> {
    pub created: Vec<D>,
    pub existing: Vec<D>,
    pub errors: Vec<(String, String)>,
}

/// The created demos among the outcomes, in order.
pub open spec fn created_of<D>(s: Seq<CatalogOutcome<D>>) -> Seq<D>
    decreases s.len(),
{
    if s.len() == 0 {
        seq![]
    } else {
        match s.last() {
            CatalogOutcome::Created(d) => created_of(s.drop_last()).push(d),
            _ => created_of(s.drop_last()),
        }
    }
}

/// The existing demos among the outcomes, in order.
pub open spec fn existing_of<D>(s: Seq<CatalogOutcome<D>>) -> Seq<D>
    decreases s.len(),
{
    if s.len() == 0 {
        seq![]
    } else {
        match s.last() {
            CatalogOutcome::Existing(d) => existing_of(s.drop_last()).push(d),
            _ => existing_of(s.drop_last()),
        }
    }
}

/// The failures among the outcomes, in order.
pub open spec fn failures_of<D>(s: Seq<CatalogOutcome<D>>) -> Seq<(String, String)>
    decreases s.len(),
{
    if s.len() == 0 {
        seq![]
    } else {
        match s.last() {
            CatalogOutcome::Failed(k, e) => failures_of(s.drop_last()).push((k, e)),
            _ => failures_of(s.drop_last()),
        }
    }
}

/// Sorts a batch's outcomes into the three lists of its answer, keeping
/// the order of the batch. One failing entry does not stop the others.
pub fn batch_catalog_result<D>(outcomes: Vec<CatalogOutcome<D>>) -> (r: BatchCatalogResult<D>)
    ensures
        r.created@ == created_of(outcomes@),
        r.existing@ == existing_of(outcomes@),
        r.errors@ == failures_of(outcomes@),
{
    let mut created: Vec<D> = Vec::new();
    let mut existing: Vec<D> = Vec::new();
    let mut errors: Vec<(String, String)> = Vec::new();
    let ghost all = outcomes@;
    let mut rest = outcomes;
    let mut rev: Vec<CatalogOutcome<D>> = Vec::new();
    // Reverse once so that popping yields the batch in order.
    while rest.len() > 0
        invariant
            all.len() == rest@.len() + rev@.len(),
            forall|k: int| 0 <= k < rest@.len() ==> rest@[k] == all[k],
            forall|k: int| 0 <= k < rev@.len() ==> rev@[k] == all[all.len() - 1 - k],
        decreases rest@.len(),
    {
        let x = rest.pop().unwrap();
        rev.push(x);
    }
    let n = rev.len();
    let mut i: usize = 0;
    while rev.len() > 0
        invariant
            n == all.len(),
            rev@.len() + i == n,
            forall|k: int| 0 <= k < rev@.len() ==> rev@[k] == all[n - 1 - k],
            created@ == created_of(all.subrange(0, i as int)),
            existing@ == existing_of(all.subrange(0, i as int)),
            errors@ == failures_of(all.subrange(0, i as int)),
        decreases rev@.len(),
    {
        let ghost pre = all.subrange(0, i + 1);
        assert(pre.drop_last() =~= all.subrange(0, i as int));
        assert(rev@[rev@.len() - 1] == all[i as int]);
        let x = rev.pop().unwrap();
        assert(pre.last() == x);
        match x {
            CatalogOutcome::Created(d) => created.push(d),
            CatalogOutcome::Existing(d) => existing.push(d),
            CatalogOutcome::Failed(k, e) => errors.push((k, e)),
        }
        i += 1;
    }
    assert(all.subrange(0, n as int) =~= all);
    BatchCatalogResult { created, existing, errors }
}

/// Every entry of a batch is answered exactly once: the three lists
/// together are as long as the batch.
pub proof fn batch_accounts_for_every_entry<D>(s: Seq<CatalogOutcome<D>>)
    ensures
        created_of(s).len() + existing_of(s).len() + failures_of(s).len() == s.len(),
    decreases s.len(),
{
    if s.len() > 0 {
        batch_accounts_for_every_entry(s.drop_last());
    }
}

} // verus!
