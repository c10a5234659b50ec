//! MatchZy-facing endpoints: bearer tokens, match ids, demo and backup
//! uploads and their file names.

use vstd::prelude::*;
use crate::api_error::{ApiError, ErrorKind, is_error};
use crate::agent::{json_match_id, match_id_of};
use crate::clock::{Instant, before, is_before};
use crate::json::{Json, get_spec};
use crate::request::{header_text, header_text_spec};
use crate::text::{push_char, parse_i64, parse_i32, parse_i64_spec, parse_i32_spec, decimal_text, decimal_string};

verus! {

/// A path separator `sanitize_demo_filename` cuts at.
pub open spec fn is_sep(c: char) -> bool {
    c == '/' || c == '\\'
}

/// What follows the last separator of `s` (all of `s` when there is none).
pub open spec fn after_last_sep(s: Seq<char>) -> Seq<char>
    decreases s.len(),
{
    if s.len() == 0 {
        s
    } else if is_sep(s.last()) {
        seq![]
    } else {
        after_last_sep(s.drop_last()).push(s.last())
    }
}

/// A character kept in a stored file name: ASCII letter or digit, `.`, `-`, `_`.
pub open spec fn safe_char(c: char) -> bool {
    ('a' <= c && c <= 'z') || ('A' <= c && c <= 'Z') || ('0' <= c && c <= '9') || c == '.' || c == '-' || c == '_'
}

/// The safe characters of `s`, in order.
pub open spec fn keep_safe(s: Seq<char>) -> Seq<char>
    decreases s.len(),
{
    if s.len() == 0 {
        s
    } else if safe_char(s.last()) {
        keep_safe(s.drop_last()).push(s.last())
    } else {
        keep_safe(s.drop_last())
    }
}

/// The stored name of an uploaded file: the safe characters of its
/// basename, or `upload.dem` when none remain.
pub open spec fn sanitized(raw: Seq<char>) -> Seq<char> {
    let k = keep_safe(after_last_sep(raw));
    if k.len() == 0 { "upload.dem"@ } else { k }
}

proof fn lemma_after_last_sep_from(s: Seq<char>, j: int, m: int)
    requires
        0 <= j <= m <= s.len(),
        j == 0 || is_sep(s[j - 1]),
        forall|k: int| j <= k < m ==> !is_sep(#[trigger] s[k]),
    ensures
        after_last_sep(s.subrange(0, m)) == s.subrange(j, m),
    decreases m - j,
{
    if m == j {
        if j == 0 {
            assert(s.subrange(0, 0) =~= Seq::<char>::empty());
        } else {
            let t = s.subrange(0, m);
            assert(t.last() == s[j - 1]);
        }
        assert(s.subrange(j, m) =~= Seq::<char>::empty());
    } else {
        lemma_after_last_sep_from(s, j, m - 1);
        let t = s.subrange(0, m);
        assert(t.drop_last() =~= s.subrange(0, m - 1));
        assert(t.last() == s[m - 1]);
        assert(s.subrange(j, m - 1).push(s[m - 1]) =~= s.subrange(j, m));
    }
}

/// Keep only the basename of an uploaded file name, restricted to a safe
/// charset; `upload.dem` when nothing is left.
pub fn sanitize_demo_filename(raw: &str) -> (r: String)
    ensures
        r@ == sanitized(raw@),
{
    let n = raw.unicode_len();
    let mut j: usize = n;
    while j > 0 && !(raw.get_char(j - 1) == '/' || raw.get_char(j - 1) == '\\')
        invariant
            n == raw@.len(),
            0 <= j <= n,
            forall|k: int| j <= k < n ==> !is_sep(#[trigger] raw@[k]),
        decreases j,
    {
        j -= 1;
    }
    proof {
        lemma_after_last_sep_from(raw@, j as int, n as int);
        assert(raw@.subrange(0, n as int) =~= raw@);
    }
    let ghost base = raw@.subrange(j as int, n as int);
    let mut out = String::new();
    let mut i: usize = j;
    assert(base.subrange(0, 0) =~= Seq::<char>::empty());
    while i < n
        invariant
            n == raw@.len(),
            0 <= j <= i <= n,
            base == raw@.subrange(j as int, n as int),
            out@ == keep_safe(base.subrange(0, i - j)),
        decreases n - i,
    {
        let c = raw.get_char(i);
        let ghost pre = base.subrange(0, i - j + 1);
        assert(pre.drop_last() =~= base.subrange(0, i - j));
        assert(pre.last() == c);
        if ('a' <= c && c <= 'z') || ('A' <= c && c <= 'Z') || ('0' <= c && c <= '9') || c == '.' || c == '-' || c == '_' {
            push_char(&mut out, c);
        }
        i += 1;
    }
    assert(base.subrange(0, n - j) =~= base);
    if out.as_str().unicode_len() == 0 {
        String::from_str("upload.dem")
    } else {
        out
    }
}

proof fn lemma_keep_safe_all_safe(s: Seq<char>)
    ensures
        forall|i: int| 0 <= i < keep_safe(s).len() ==> safe_char(#[trigger] keep_safe(s)[i]),
    decreases s.len(),
{
    if s.len() > 0 {
        let p = s.drop_last();
        lemma_keep_safe_all_safe(p);
        if safe_char(s.last()) {
            let k = keep_safe(s);
            assert(k == keep_safe(p).push(s.last()));
            assert forall|i: int| 0 <= i < k.len() implies safe_char(#[trigger] k[i]) by {
                if i < keep_safe(p).len() {
                    assert(k[i] == keep_safe(p)[i]);
                }
            }
        }
    }
}

proof fn lemma_keep_safe_identity(s: Seq<char>)
    requires
        forall|i: int| 0 <= i < s.len() ==> safe_char(#[trigger] s[i]),
    ensures
        keep_safe(s) == s,
    decreases s.len(),
{
    if s.len() > 0 {
        lemma_keep_safe_identity(s.drop_last());
        assert(safe_char(s[s.len() - 1]));
        assert(s.drop_last().push(s.last()) =~= s);
    }
}

proof fn lemma_after_last_sep_identity(s: Seq<char>)
    requires
        forall|i: int| 0 <= i < s.len() ==> !is_sep(#[trigger] s[i]),
    ensures
        after_last_sep(s) == s,
    decreases s.len(),
{
    if s.len() > 0 {
        lemma_after_last_sep_identity(s.drop_last());
        assert(!is_sep(s[s.len() - 1]));
        assert(s.drop_last().push(s.last()) =~= s);
    }
}

/// Sanitizing is idempotent: a stored name sanitizes to itself, so looking a
/// stored backup up by the sanitized request name finds it.
pub proof fn sanitize_is_idempotent(raw: Seq<char>)
    ensures
        sanitized(sanitized(raw)) == sanitized(raw),
        sanitized(raw).len() > 0,
        forall|i: int| 0 <= i < sanitized(raw).len() ==> safe_char(#[trigger] sanitized(raw)[i]),
{
    let x = sanitized(raw);
    reveal_strlit("upload.dem");
    lemma_keep_safe_all_safe(after_last_sep(raw));
    assert(forall|i: int| 0 <= i < x.len() ==> safe_char(#[trigger] x[i]));
    assert(forall|i: int| 0 <= i < x.len() ==> !is_sep(#[trigger] x[i]));
    lemma_after_last_sep_identity(x);
    lemma_keep_safe_identity(x);
}

/// The MatchZy match id an event carries in `matchid`.
pub fn event_matchzy_id(payload: &Json) -> (r: Result<i64, ApiError>)
    ensures
        match match_id_of(get_spec(*payload, "matchid"@)) {
            Some(id) => r == Ok::<i64, ApiError>(id),
            None => r matches Err(e) && is_error(e, ErrorKind::BadRequest, "event has no matchid"@),
        },
{
    match json_match_id(payload.get("matchid")) {
        Some(id) => Ok(id),
        None => Err(ApiError::from_str(ErrorKind::BadRequest, "event has no matchid")),
    }
}

/// What becomes of an event whose token checked out.
#[derive(Debug, Clone, Copy, PartialEq, Eq)]
pub enum EventDisposition {
    /// Record and process it.
    Ingest,
    /// A late event after completion or cancellation: acknowledge, ignore.
    IgnoreLate,
}

/// An event needs the reservation's event token; after the reservation
/// ended it is acknowledged and ignored.
pub fn event_disposition(token_matches: bool, reservation_terminal: bool) -> (r: Result<EventDisposition, ApiError>)
    ensures
        !token_matches ==> (r matches Err(e) && is_error(e, ErrorKind::Unauthorized, "invalid event token"@)),
        token_matches && reservation_terminal ==> r == Ok::<EventDisposition, ApiError>(EventDisposition::IgnoreLate),
        token_matches && !reservation_terminal ==> r == Ok::<EventDisposition, ApiError>(EventDisposition::Ingest),
{
    if !token_matches {
        return Err(ApiError::from_str(ErrorKind::Unauthorized, "invalid event token"));
    }
    if reservation_terminal { Ok(EventDisposition::IgnoreLate) } else { Ok(EventDisposition::Ingest) }
}

/// The match config is served to the holder of the config token while the
/// reservation is loading and the token is fresh.
pub fn config_fetch_verdict(token_matches: bool, fetchable: bool, has_config: bool) -> (r: Result<(), ApiError>)
    ensures
        !token_matches ==> (r matches Err(e) && is_error(e, ErrorKind::Unauthorized, "invalid config token"@)),
        token_matches && !fetchable ==> (r matches Err(e)
            && is_error(e, ErrorKind::Forbidden, "config token expired or reservation is not loading"@)),
        token_matches && fetchable && !has_config ==> (r matches Err(e)
            && is_error(e, ErrorKind::Internal, "reservation has no stored config"@)),
        token_matches && fetchable && has_config ==> r is Ok,
{
    if !token_matches {
        return Err(ApiError::from_str(ErrorKind::Unauthorized, "invalid config token"));
    }
    if !fetchable {
        return Err(ApiError::from_str(ErrorKind::Forbidden, "config token expired or reservation is not loading"));
    }
    if !has_config {
        return Err(ApiError::from_str(ErrorKind::Internal, "reservation has no stored config"));
    }
    Ok(())
}

/// A stored backup is served with the reservation's config token before it
/// expires.
pub fn backup_token_verdict(token_matches: bool, expires_at: Instant, now: Instant) -> (r: Result<(), ApiError>)
    ensures
        (token_matches && before(now, expires_at)) ==> r is Ok,
        !(token_matches && before(now, expires_at)) ==> (r matches Err(e)
            && is_error(e, ErrorKind::Unauthorized, "invalid or expired token"@)),
{
    if !token_matches || !is_before(now, expires_at) {
        return Err(ApiError::from_str(ErrorKind::Unauthorized, "invalid or expired token"));
    }
    Ok(())
}

/// A header value as text, when present and visible ASCII.
pub open spec fn header_spec(h: Option<Seq<u8>>) -> Option<Seq<char>> {
    match h {
        Some(v) => header_text_spec(v),
        None => None,
    }
}

/// The raw bytes of an optional header.
pub open spec fn raw(h: Option<&[u8]>) -> Option<Seq<u8>> {
    match h {
        Some(v) => Some(v@),
        None => None,
    }
}

fn header_string(h: Option<&[u8]>) -> (r: Option<String>)
    ensures
        match header_spec(raw(h)) {
            Some(t) => r matches Some(s) && s@ == t,
            None => r is None,
        },
{
    match h {
        Some(v) => header_text(v),
        None => None,
    }
}

/// A numeric header as `i64`, when present and numeric.
pub open spec fn header_i64(h: Option<Seq<u8>>) -> Option<i64> {
    match header_spec(h) {
        Some(t) => parse_i64_spec(t),
        None => None,
    }
}

/// A numeric header as `i32`, when present and numeric.
pub open spec fn header_i32(h: Option<Seq<u8>>) -> Option<i32> {
    match header_spec(h) {
        Some(t) => parse_i32_spec(t),
        None => None,
    }
}

fn header_int64(h: Option<&[u8]>) -> (r: Option<i64>)
    ensures
        r == header_i64(raw(h)),
{
    match header_string(h) {
        Some(t) => parse_i64(t.as_str()),
        None => None,
    }
}

fn header_int32(h: Option<&[u8]>) -> (r: Option<i32>)
    ensures
        r == header_i32(raw(h)),
{
    match header_string(h) {
        Some(t) => parse_i32(t.as_str()),
        None => None,
    }
}

/// A demo upload as its headers describe it.
#[derive(Debug)]
pub struct DemoUpload {
    pub file_name: String,
    pub matchzy_id: Option<i64>,
    /// 0-indexed map number of the series.
    pub map_number: Option<i32>,
    /// The body size, saturated at `i64::MAX`.
    pub size: i64,
}

/// Read a demo upload's correlation headers (`MatchZy-FileName`,
/// `MatchZy-MatchId`, `MatchZy-MapNumber`) and refuse an empty body.
pub fn demo_upload(
    file_name: Option<&[u8]>,
    matchid: Option<&[u8]>,
    map_number: Option<&[u8]>,
    body_len: usize,
) -> (r: Result<DemoUpload, ApiError>)
    ensures
        match header_spec(raw(file_name)) {
            None => r matches Err(e) && is_error(e, ErrorKind::BadRequest, "missing MatchZy-FileName header"@),
            Some(f) => if body_len == 0 {
                r matches Err(e) && is_error(e, ErrorKind::BadRequest, "empty demo upload"@)
            } else {
                r matches Ok(u) && u.file_name@ == sanitized(f)
                    && u.matchzy_id == header_i64(raw(matchid))
                    && u.map_number == header_i32(raw(map_number))
                    && u.size == (if body_len <= i64::MAX { body_len as i64 } else { i64::MAX })
            },
        },
{
    let name = match header_string(file_name) {
        Some(f) => sanitize_demo_filename(f.as_str()),
        None => return Err(ApiError::from_str(ErrorKind::BadRequest, "missing MatchZy-FileName header")),
    };
    let id = header_int64(matchid);
    let map = header_int32(map_number);
    if body_len == 0 {
        return Err(ApiError::from_str(ErrorKind::BadRequest, "empty demo upload"));
    }
    let size: i64 = if body_len as u128 <= 9223372036854775807u128 { body_len as i64 } else { i64::MAX };
    Ok(DemoUpload { file_name: name, matchzy_id: id, map_number: map, size })
}

/// The game number a demo is linked at: MatchZy counts maps from 0, the
/// portal from 1.
pub fn linked_game_number(map_number: Option<i32>) -> (r: Option<i32>)
    requires
        map_number != Some(i32::MAX),
    ensures
        r == match map_number {
            Some(n) => Some((n + 1) as i32),
            None => None::<i32>,
        },
{
    match map_number {
        Some(n) => Some(n + 1),
        None => None,
    }
}

/// A round backup as its headers describe it.
#[derive(Debug)]
pub struct BackupUpload {
    pub matchzy_id: i64,
    pub file_name: String,
    pub map_number: Option<i32>,
    pub round_number: Option<i32>,
}

/// The match id of a round backup (`MatchZy-MatchId`), needed before the
/// reservation is looked up.
pub fn backup_match_id(matchid: Option<&[u8]>) -> (r: Result<i64, ApiError>)
    ensures
        match header_i64(raw(matchid)) {
            Some(id) => r == Ok::<i64, ApiError>(id),
            None => r matches Err(e) && is_error(e, ErrorKind::BadRequest, "missing MatchZy-MatchId header"@),
        },
{
    match header_int64(matchid) {
        Some(id) => Ok(id),
        None => Err(ApiError::from_str(ErrorKind::BadRequest, "missing MatchZy-MatchId header")),
    }
}

/// The rest of a round backup's headers, read once its token checked out.
pub fn backup_upload(
    matchzy_id: i64,
    file_name: Option<&[u8]>,
    map_number: Option<&[u8]>,
    round_number: Option<&[u8]>,
) -> (r: Result<BackupUpload, ApiError>)
    ensures
        match header_spec(raw(file_name)) {
            None => r matches Err(e) && is_error(e, ErrorKind::BadRequest, "missing MatchZy-FileName header"@),
            Some(f) => r matches Ok(u) && u.matchzy_id == matchzy_id && u.file_name@ == sanitized(f)
                && u.map_number == header_i32(raw(map_number))
                && u.round_number == header_i32(raw(round_number)),
        },
{
    let name = match header_string(file_name) {
        Some(f) => sanitize_demo_filename(f.as_str()),
        None => return Err(ApiError::from_str(ErrorKind::BadRequest, "missing MatchZy-FileName header")),
    };
    Ok(BackupUpload {
        matchzy_id,
        file_name: name,
        map_number: header_int32(map_number),
        round_number: header_int32(round_number),
    })
}

/// The storage prefix of a match's round backups.
pub fn backup_prefix(matchzy_id: i64) -> (r: String)
    ensures
        r@ == "matchzy-backups/"@ + decimal_text(matchzy_id as int),
{
    let mut s = String::from_str("matchzy-backups/");
    let d = decimal_string(matchzy_id as i128);
    s.append(d.as_str());
    s
}

} // verus!
