//! League listings: query defaults, the page window of a listing, and the
//! answer when a player does not meet a league's entry requirements.

use vstd::prelude::*;
use crate::api_error::{ApiError, ErrorKind, is_error};
use crate::ids::{uuid_from_text, parse_id};
use crate::players::PaginationParams;

verus! {

/// Query of the league listing.
#[derive(Debug, Clone)]
pub struct ListLeaguesParams {
    /// Restrict to one game.
    pub game_id: Option<String>,
    /// 1-based page.
    pub page: i64,
    pub per_page: i64,
}

/// The page a listing shows when none is asked for.
pub fn default_page() -> (r: i64)
    ensures
        r == 1,
{
    1
}

/// The page size when none is asked for.
pub fn default_per_page() -> (r: i64)
    ensures
        r == 20,
{
    20
}

/// The page of a listing, at least 1, as the 32-bit page number it is
/// carried as (the cast keeps the low 32 bits).
pub open spec fn page_u32(page: i64) -> u32 {
    (if page < 1 { 1i64 } else { page }) as u32
}

/// The page size, clamped to 1..=100.
pub open spec fn per_page_u32(per_page: i64) -> u32 {
    (if per_page < 1 { 1i64 } else if per_page > 100 { 100i64 } else { per_page }) as u32
}

/// A page window: the page and size shown, and the rows it asks for.
#[derive(Debug, Clone, Copy, PartialEq, Eq, Structural)]
pub struct PageWindow {
    pub pagination: PaginationParams,
    pub limit: i64,
    pub offset: i64,
}

/// The window of a listing: page at least 1, size clamped to 1..=100, the
/// offset skipping the earlier pages. The page number is carried in 32
/// bits; a page that wraps to 0 there, or an offset past 32 bits, is left
/// out, as the offset computation fails on it.
pub fn page_window(page: i64, per_page: i64) -> (r: PageWindow)
    requires
        page_u32(page) >= 1,
        (page_u32(page) - 1) * per_page_u32(per_page) <= u32::MAX,
    ensures
        r.pagination.page == page_u32(page),
        r.pagination.per_page == per_page_u32(per_page),
        1 <= r.limit <= 100,
        r.limit == per_page_u32(per_page),
        r.offset == (page_u32(page) - 1) * per_page_u32(per_page),
{
    let p: i64 = if page < 1 { 1 } else { page };
    let s: i64 = if per_page < 1 { 1 } else if per_page > 100 { 100 } else { per_page };
    let page32 = p as u32;
    let per32 = s as u32;
    let offset = ((page32 - 1) * per32) as i64;
    PageWindow {
        pagination: PaginationParams { page: page32, per_page: per32 },
        limit: per32 as i64,
        offset,
    }
}

/// A window over pages already carried in 32 bits (the member listing):
/// the limit is clamped to 1..=100, while the offset steps by the size as
/// given.
pub fn member_window(params: PaginationParams) -> (r: (i64, i64))
    requires
        (if params.page < 1 { 0 } else { params.page - 1 }) * params.per_page <= u32::MAX,
    ensures
        r.0 == (if params.per_page < 1 { 1 } else if params.per_page > 100 { 100 } else { params.per_page as int }),
        r.1 == (if params.page < 1 { 0 } else { params.page - 1 }) * params.per_page,
{
    let p: u32 = if params.page < 1 { 1 } else { params.page };
    let offset = ((p - 1) * params.per_page) as i64;
    let s: u32 = if params.per_page < 1 { 1 } else if params.per_page > 100 { 100 } else { params.per_page };
    (s as i64, offset)
}

/// The rows a page window starts at.
pub open spec fn window_offset(page: i64, per_page: i64) -> int {
    (page_u32(page) - 1) * per_page_u32(per_page)
}

/// Page windows tile a listing: each page starts where the one before it
/// ended, and none holds more than 100 rows.
pub proof fn windows_tile(page: i64, per_page: i64)
    requires
        1 <= page < u32::MAX,
    ensures
        window_offset((page + 1) as i64, per_page) == window_offset(page, per_page) + per_page_u32(per_page),
        1 <= per_page_u32(per_page) <= 100,
{
    assert(page_u32(page) == page);
    assert(page_u32((page + 1) as i64) == page + 1);
    let s = per_page_u32(per_page) as int;
    assert((page + 1 - 1) * s == (page - 1) * s + s) by (nonlinear_arith);
}

/// The game filter of the listing; `Invalid game ID format` otherwise.
pub fn league_game_filter(raw: Option<&str>) -> (r: Result<Option<u128>, ApiError>)
    ensures
        match raw {
            None => r == Ok::<Option<u128>, ApiError>(None),
            Some(t) => match uuid_from_text(t@) {
                Some(id) => r == Ok::<Option<u128>, ApiError>(Some(id)),
                None => r matches Err(e) && is_error(e, ErrorKind::BadRequest, "Invalid game ID format"@),
            },
        },
{
    match raw {
        None => Ok(None),
        Some(t) => match parse_id(t, "Invalid game ID format") {
            Ok(id) => Ok(Some(id)),
            Err(e) => Err(e),
        },
    }
}

/// `parts` joined with `sep` between them.
pub open spec fn join_with(parts: Seq<String>, sep: Seq<char>) -> Seq<char>
    decreases parts.len(),
{
    if parts.len() == 0 {
        seq![]
    } else if parts.len() == 1 {
        parts[0]@
    } else {
        join_with(parts.drop_last(), sep) + sep + parts.last()@
    }
}

/// Joins texts with a separator (`[String]::join`).
pub fn join_texts(parts: &Vec<String>, sep: &str) -> (r: String)
    ensures
        r@ == join_with(parts@, sep@),
{
    let mut out = String::new();
    let n = parts.len();
    let mut i: usize = 0;
    while i < n
        invariant
            n == parts@.len(),
            0 <= i <= n,
            out@ == join_with(parts@.subrange(0, i as int), sep@),
        decreases n - i,
    {
        let ghost pre = parts@.subrange(0, i + 1);
        assert(pre.drop_last() =~= parts@.subrange(0, i as int));
        if i > 0 {
            out.append(sep);
        }
        out.append(parts[i].as_str());
        proof {
            if i == 0 {
                assert(out@ =~= join_with(pre, sep@));
            }
        }
        i += 1;
    }
    assert(parts@.subrange(0, n as int) =~= parts@);
    out
}

/// Refuses entry with every violated requirement, joined by `; ` after
/// `prefix`; admits when none was violated.
pub fn requirements_outcome(prefix: &str, violations: &Vec<String>) -> (r: Result<(), ApiError>)
    ensures
        violations@.len() == 0 ==> r is Ok,
        violations@.len() > 0 ==> (r matches Err(e)
            && is_error(e, ErrorKind::BadRequest, prefix@ + join_with(violations@, "; "@))),
{
    if violations.len() == 0 {
        return Ok(());
    }
    let mut m = String::from_str(prefix);
    let j = join_texts(violations, "; ");
    m.append(j.as_str());
    Err(ApiError::new(ErrorKind::BadRequest, m))
}

/// The answer to a player who does not meet a league's entry requirements.
pub fn entry_requirements_outcome(violations: &Vec<String>) -> (r: Result<(), ApiError>)
    ensures
        violations@.len() == 0 ==> r is Ok,
        violations@.len() > 0 ==> (r matches Err(e) && is_error(e, ErrorKind::BadRequest,
            "You do not meet the entry requirements: "@ + join_with(violations@, "; "@))),
{
    requirements_outcome("You do not meet the entry requirements: ", violations)
}

} // verus!
