//! Game-server administration: the field rules of server and booking
//! requests, the ids they carry, and what an update changes.

use vstd::prelude::*;
use crate::api_error::{ApiError, ErrorKind, is_error};
use crate::ids::{uuid_from_text, parse_id};
use crate::leagues::{join_with, join_texts};

verus! {

/// Register a game server.
#[derive(Debug, Clone)]
pub struct CreateGameServerRequest {
    /// 1 to 128 characters.
    pub name: String,
    pub game_id: String,
    pub ip_address: String,
    /// 1 to 65535.
    pub port: u16,
    /// 1 to 65535 when given.
    pub gotv_port: Option<u16>,
    /// 1 to 32 characters.
    pub region: String,
}

/// Change a game server; only the fields given change.
#[derive(Debug, Clone)]
pub struct UpdateGameServerRequest {
    pub name: Option<String>,
    pub ip_address: Option<String>,
    pub port: Option<u16>,
    pub gotv_port: Option<u16>,
    pub region: Option<String>,
    pub enabled: Option<bool>,
}

/// A freshly minted enrollment token.
#[derive(Debug, Clone)]
pub struct EnrollmentTokenResponse {
    pub token: String,
    pub expires_at: String,
}

/// How many agent certificates a revocation invalidated.
#[derive(Debug, Clone, Copy, PartialEq, Eq, Structural)]
pub struct RevokeAgentResponse {
    pub revoked_count: u64,
}

/// A booking of a server.
#[derive(Debug, Clone)]
pub struct ServerBookingResponse {
    pub id: String,
    pub server_id: String,
    pub tournament_id: Option<String>,
    pub reason: Option<String>,
    pub starts_at: String,
    pub ends_at: String,
    pub created_by: String,
    pub created_at: String,
}

/// The rule text of the name.
pub open spec fn name_rule() -> Seq<char> {
    "name: name must be 1-128 characters"@
}

/// The rule text of the port.
pub open spec fn port_rule() -> Seq<char> {
    "port: port must be 1-65535"@
}

/// The rule text of the GOTV port.
pub open spec fn gotv_rule() -> Seq<char> {
    "gotv_port: gotv_port must be 1-65535"@
}

/// The rule text of the region.
pub open spec fn region_rule() -> Seq<char> {
    "region: region must be 1-32 characters"@
}

/// The rules a server's fields break, in field order: a name of 1 to 128
/// characters, ports from 1, a region of 1 to 32 characters.
pub open spec fn server_violations(name: Option<Seq<char>>, port: Option<u16>, gotv: Option<u16>, region: Option<Seq<char>>) -> Seq<Seq<char>> {
    let a = if name matches Some(n) && !(1 <= n.len() <= 128) { seq![name_rule()] } else { seq![] };
    let b = if port == Some(0u16) { seq![port_rule()] } else { seq![] };
    let c = if gotv == Some(0u16) { seq![gotv_rule()] } else { seq![] };
    let d = if region matches Some(r) && !(1 <= r.len() <= 32) { seq![region_rule()] } else { seq![] };
    a + b + c + d
}

fn check_fields(name: Option<&str>, port: Option<u16>, gotv: Option<u16>, region: Option<&str>) -> (r: Vec<String>)
    ensures
        r@.len() == server_violations(
            match name { Some(n) => Some(n@), None => None },
            port,
            gotv,
            match region { Some(g) => Some(g@), None => None },
        ).len(),
        forall|k: int| 0 <= k < r@.len() ==> (#[trigger] r@[k])@ == server_violations(
            match name { Some(n) => Some(n@), None => None },
            port,
            gotv,
            match region { Some(g) => Some(g@), None => None },
        )[k],
{
    let ghost nv = match name { Some(n) => Some(n@), None => None::<Seq<char>> };
    let ghost rv = match region { Some(g) => Some(g@), None => None::<Seq<char>> };
    let mut out: Vec<String> = Vec::new();
    let ghost mut acc: Seq<Seq<char>> = seq![];
    match name {
        Some(n) => {
            let len = n.unicode_len();
            if !(1 <= len && len <= 128) {
                out.push(String::from_str("name: name must be 1-128 characters"));
                proof { acc = acc.push(name_rule()); }
            }
        }
        None => {}
    }
    assert(acc =~= (if nv matches Some(n) && !(1 <= n.len() <= 128) { seq![name_rule()] } else { seq![] }));
    let ghost a = acc;
    if port == Some(0u16) {
        out.push(String::from_str("port: port must be 1-65535"));
        proof { acc = acc.push(port_rule()); }
    }
    assert(acc =~= a + (if port == Some(0u16) { seq![port_rule()] } else { seq![] }));
    let ghost ab = acc;
    if gotv == Some(0u16) {
        out.push(String::from_str("gotv_port: gotv_port must be 1-65535"));
        proof { acc = acc.push(gotv_rule()); }
    }
    assert(acc =~= ab + (if gotv == Some(0u16) { seq![gotv_rule()] } else { seq![] }));
    let ghost abc = acc;
    match region {
        Some(g) => {
            let len = g.unicode_len();
            if !(1 <= len && len <= 32) {
                out.push(String::from_str("region: region must be 1-32 characters"));
                proof { acc = acc.push(region_rule()); }
            }
        }
        None => {}
    }
    assert(acc =~= abc + (if rv matches Some(r) && !(1 <= r.len() <= 32) { seq![region_rule()] } else { seq![] }));
    assert(acc =~= server_violations(nv, port, gotv, rv));
    assert(out@.len() == acc.len());
    assert forall|k: int| 0 <= k < out@.len() implies (#[trigger] out@[k])@ == acc[k] by {}
    out
}

/// The rules a registration breaks.
pub fn create_server_violations(req: &CreateGameServerRequest) -> (r: Vec<String>)
    ensures
        r@.len() == server_violations(Some(req.name@), Some(req.port), req.gotv_port, Some(req.region@)).len(),
        forall|k: int| 0 <= k < r@.len()
            ==> (#[trigger] r@[k])@ == server_violations(Some(req.name@), Some(req.port), req.gotv_port, Some(req.region@))[k],
{
    check_fields(Some(req.name.as_str()), Some(req.port), req.gotv_port, Some(req.region.as_str()))
}

/// The rules an update breaks; absent fields break none.
pub fn update_server_violations(req: &UpdateGameServerRequest) -> (r: Vec<String>)
    ensures
        r@.len() == server_violations(
            match req.name { Some(n) => Some(n@), None => None },
            req.port,
            req.gotv_port,
            match req.region { Some(g) => Some(g@), None => None },
        ).len(),
        forall|k: int| 0 <= k < r@.len() ==> (#[trigger] r@[k])@ == server_violations(
            match req.name { Some(n) => Some(n@), None => None },
            req.port,
            req.gotv_port,
            match req.region { Some(g) => Some(g@), None => None },
        )[k],
{
    let name = match &req.name { Some(n) => Some(n.as_str()), None => None };
    let region = match &req.region { Some(g) => Some(g.as_str()), None => None };
    check_fields(name, req.port, req.gotv_port, region)
}

/// Refuses a request that breaks rules, listing them one per line.
pub fn violations_outcome(violations: &Vec<String>) -> (r: Result<(), ApiError>)
    ensures
        violations@.len() == 0 ==> r is Ok,
        violations@.len() > 0 ==> (r matches Err(e)
            && is_error(e, ErrorKind::BadRequest, join_with(violations@, "\n"@))),
{
    if violations.len() == 0 {
        return Ok(());
    }
    let m = join_texts(violations, "\n");
    Err(ApiError::new(ErrorKind::BadRequest, m))
}

/// The GOTV port an update writes: a given port replaces the stored one;
/// an absent one leaves it (it cannot be cleared this way).
pub fn gotv_update(gotv_port: Option<u16>) -> (r: Option<Option<u16>>)
    ensures
        r == match gotv_port {
            Some(p) => Some(Some(p)),
            None => None::<Option<u16>>,
        },
{
    match gotv_port {
        Some(p) => Some(Some(p)),
        None => None,
    }
}

/// The game of a new server; `invalid game id: <id>` otherwise.
pub fn parse_server_game_id(raw: &str) -> (r: Result<u128, ApiError>)
    ensures
        match uuid_from_text(raw@) {
            Some(v) => r == Ok::<u128, ApiError>(v),
            None => r matches Err(e) && is_error(e, ErrorKind::BadRequest, "invalid game id: "@ + raw@),
        },
{
    match parse_id(raw, "") {
        Ok(v) => Ok(v),
        Err(_) => {
            let mut m = String::from_str("invalid game id: ");
            m.append(raw);
            Err(ApiError::new(ErrorKind::BadRequest, m))
        }
    }
}

/// A booking id from the path; `invalid booking id: <id>` otherwise.
pub fn parse_booking_id(raw: &str) -> (r: Result<u128, ApiError>)
    ensures
        match uuid_from_text(raw@) {
            Some(v) => r == Ok::<u128, ApiError>(v),
            None => r matches Err(e) && is_error(e, ErrorKind::BadRequest, "invalid booking id: "@ + raw@),
        },
{
    match parse_id(raw, "") {
        Ok(v) => Ok(v),
        Err(_) => {
            let mut m = String::from_str("invalid booking id: ");
            m.append(raw);
            Err(ApiError::new(ErrorKind::BadRequest, m))
        }
    }
}

/// The tournament a booking is for, if any; `invalid tournament id` otherwise.
pub fn booking_tournament(raw: Option<&str>) -> (r: Result<Option<u128>, ApiError>)
    ensures
        match raw {
            None => r == Ok::<Option<u128>, ApiError>(None),
            Some(t) => match uuid_from_text(t@) {
                Some(v) => r == Ok::<Option<u128>, ApiError>(Some(v)),
                None => r matches Err(e) && is_error(e, ErrorKind::BadRequest, "invalid tournament id"@),
            },
        },
{
    match raw {
        None => Ok(None),
        Some(t) => match parse_id(t, "invalid tournament id") {
            Ok(v) => Ok(Some(v)),
            Err(e) => Err(e),
        },
    }
}

/// A booking reason may have at most 255 characters.
pub fn booking_reason_ok(reason: Option<&str>) -> (r: bool)
    ensures
        r == match reason {
            Some(t) => t@.len() <= 255,
            None => true,
        },
{
    match reason {
        Some(t) => t.unicode_len() <= 255,
        None => true,
    }
}

} // verus!
