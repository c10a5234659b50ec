//! Player search: paging, the game filter, which game profile enriches
//! which result, and who may change a player's availability.

use vstd::prelude::*;
use crate::api_error::{ApiError, ErrorKind, is_error};
use crate::ids::{uuid_from_text, parse_id};

verus! {

/// Page selection sent to list endpoints (1-indexed page).
#[derive(Debug, Clone, Copy, PartialEq, Eq, Structural)]
pub struct PaginationParams {
    pub page: u32,
    pub per_page: u32,
}

/// Query parameters for player search.
#[derive(Debug)]
pub struct PlayerSearchParams {
    /// Search query for display name.
    pub q: String,
    /// Filter by game id (UUID text).
    pub game_id: Option<String>,
    /// `has_team`, `no_team` or `lft`.
    pub team_status: Option<String>,
    /// ISO 3166-1 alpha-2 country code.
    pub country_code: Option<String>,
    /// Page number (1-indexed).
    pub page: u32,
    /// Items per page.
    pub per_page: u32,
}

/// The page used when the query names none.
pub fn default_page() -> (r: u32)
    ensures
        r == 1,
{
    1
}

/// The page size used when the query names none.
pub fn default_per_page() -> (r: u32)
    ensures
        r == 20,
{
    20
}

impl PlayerSearchParams {
    /// Rows skipped: `(page - 1) * per_page`, page 0 read as page 1.
    pub fn offset(&self) -> (r: i64)
        requires
            (if self.page == 0 { 0 } else { self.page - 1 }) * self.per_page <= u32::MAX,
        ensures
            r == (if self.page == 0 { 0 } else { self.page - 1 }) * self.per_page,
    {
        let prev: u32 = if self.page == 0 { 0 } else { self.page - 1 };
        (prev * self.per_page) as i64
    }

    /// Rows fetched: `per_page`, at most 100.
    pub fn limit(&self) -> (r: i64)
        ensures
            r == (if self.per_page < 100 { self.per_page as int } else { 100 }),
    {
        if self.per_page < 100 { self.per_page as i64 } else { 100 }
    }

    /// The page and page size as sent, for the response envelope.
    pub fn as_pagination(&self) -> (r: PaginationParams)
        ensures
            r.page == self.page,
            r.per_page == self.per_page,
    {
        PaginationParams { page: self.page, per_page: self.per_page }
    }
}

/// The game filter of a search; a bad request when it is no UUID.
pub fn search_game_filter(raw: Option<&str>) -> (r: Result<Option<u128>, ApiError>)
    ensures
        match raw {
            None => r == Ok::<Option<u128>, ApiError>(None),
            Some(t) => match uuid_from_text(t@) {
                Some(id) => r == Ok::<Option<u128>, ApiError>(Some(id)),
                None => r matches Err(e) && is_error(e, ErrorKind::BadRequest, "Invalid game_id format \u{2014} expected UUID"@),
            },
        },
{
    match raw {
        None => Ok(None),
        Some(t) => match parse_id(t, "Invalid game_id format \u{2014} expected UUID") {
            Ok(id) => Ok(Some(id)),
            Err(e) => Err(e),
        },
    }
}

/// The last position of `id` among the profiles' players: the profile a
/// lookup map keyed by player keeps.
pub open spec fn last_profile(profiles: Seq<u128>, id: u128) -> Option<int>
    decreases profiles.len(),
{
    if profiles.len() == 0 {
        None
    } else if profiles.last() == id {
        Some(profiles.len() - 1)
    } else {
        last_profile(profiles.drop_last(), id)
    }
}

/// The profile that enriches the result at `i`: the kept profile of its
/// player, unless an earlier result of the same player already took it.
pub open spec fn profile_for(results: Seq<u128>, profiles: Seq<u128>, i: int) -> Option<int> {
    if exists|j: int| 0 <= j < i && results[j] == results[i] {
        None
    } else {
        last_profile(profiles, results[i])
    }
}

fn find_last(profiles: &Vec<u128>, id: u128) -> (r: Option<usize>)
    ensures
        match last_profile(profiles@, id) {
            Some(k) => r == Some(k as usize),
            None => r is None,
        },
{
    let mut i: usize = profiles.len();
    assert(profiles@.subrange(0, i as int) =~= profiles@);
    while i > 0
        invariant
            0 <= i <= profiles@.len(),
            last_profile(profiles@, id) == last_profile(profiles@.subrange(0, i as int), id),
        decreases i,
    {
        let ghost pre = profiles@.subrange(0, i as int);
        assert(pre.drop_last() =~= profiles@.subrange(0, i - 1));
        if profiles[i - 1] == id {
            return Some(i - 1);
        }
        i -= 1;
    }
    None
}

/// Which profile enriches each search result (by position among the
/// profiles), following the lookup map the results are matched against:
/// each profile is used at most once.
pub fn match_profiles(results: &Vec<u128>, profiles: &Vec<u128>) -> (r: Vec<Option<usize>>)
    ensures
        r@.len() == results@.len(),
        forall|i: int| 0 <= i < results@.len() ==> match profile_for(results@, profiles@, i) {
            Some(k) => #[trigger] r@[i] == Some(k as usize),
            None => r@[i] is None,
        },
{
    let n = results.len();
    let mut out: Vec<Option<usize>> = Vec::new();
    let mut i: usize = 0;
    while i < n
        invariant
            n == results@.len(),
            0 <= i <= n,
            out@.len() == i,
            forall|t: int| 0 <= t < i ==> match profile_for(results@, profiles@, t) {
                Some(k) => #[trigger] out@[t] == Some(k as usize),
                None => out@[t] is None,
            },
        decreases n - i,
    {
        let id = results[i];
        let mut seen = false;
        let mut j: usize = 0;
        while j < i
            invariant
                n == results@.len(),
                0 <= j <= i < n,
                id == results@[i as int],
                seen <==> exists|t: int| 0 <= t < j && results@[t] == id,
            decreases i - j,
        {
            if results[j] == id {
                seen = true;
            }
            j += 1;
        }
        if seen {
            out.push(None);
        } else {
            out.push(find_last(profiles, id));
        }
        i += 1;
    }
    out
}

/// Only the owner of an availability entry may change it; `action` is
/// `modify` or `delete` in the refusal.
pub fn require_availability_owner(owner: Option<u128>, me: u128, action: &str) -> (r: Result<(), ApiError>)
    ensures
        owner == Some(me) ==> r is Ok,
        owner != Some(me) ==> (r matches Err(e)
            && is_error(e, ErrorKind::Forbidden, "Cannot "@ + action@ + " another player's availability"@)),
{
    if owner == Some(me) {
        return Ok(());
    }
    let mut m = String::from_str("Cannot ");
    m.append(action);
    m.append(" another player's availability");
    Err(ApiError::new(ErrorKind::Forbidden, m))
}

} // verus!
