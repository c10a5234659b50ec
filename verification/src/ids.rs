//! Identifiers: every portal id is a UUID, carried here as its 128-bit value.

use vstd::prelude::*;
use crate::api_error::{ApiError, ErrorKind, is_error};
use crate::text::digit_char;
use vstd::arithmetic::power::pow;

verus! {

/// The UUID that `uuid::Uuid::parse_str` reads from `text`, as its 128-bit
/// value (`Uuid::as_u128`), or `None` when the text is no UUID.
pub uninterp spec fn uuid_from_text(text: Seq<char>) -> Option<u128>;

/// Calls `uuid::Uuid::parse_str`; the result is its value as `u128`, and
/// equals `uuid_from_text` of the text. What text it accepts is left to the
/// uuid crate.
#[verifier::external_body]
fn uuid_parse(text: &str) -> (r: Option<u128>)
    ensures
        r == uuid_from_text(text@),
{
    match uuid::Uuid::parse_str(text) {
        Ok(u) => Some(u.as_u128()),
        Err(_) => None,
    }
}

/// The `k`-th of the 32 hexadecimal digits of `id`, most significant first.
pub open spec fn uuid_nibble(id: u128, k: int) -> nat {
    (((id as int) / pow(16, (31 - k) as nat)) % 16) as nat
}

/// The 32 lowercase hexadecimal digits of `id`, zero-padded.
pub open spec fn uuid_hex(id: u128) -> Seq<char> {
    Seq::new(32, |k: int| digit_char(uuid_nibble(id, k)))
}

/// The hyphenated text of a UUID (`Uuid::to_string`): its digits in groups
/// of 8, 4, 4, 4 and 12, joined by hyphens (36 characters).
pub open spec fn uuid_text(id: u128) -> Seq<char> {
    let h = uuid_hex(id);
    h.subrange(0, 8) + seq!['-'] + h.subrange(8, 12) + seq!['-'] + h.subrange(12, 16) + seq!['-']
        + h.subrange(16, 20) + seq!['-'] + h.subrange(20, 32)
}

/// Calls `uuid::Uuid::from_u128(id).to_string()`, which writes the value's
/// lowercase hyphenated form; the result is `uuid_text(id)`.
#[verifier::external_body]
pub(crate) fn uuid_string(id: u128) -> (r: String)
    ensures
        r@ == uuid_text(id),
{
    uuid::Uuid::from_u128(id).to_string()
}

/// The outcome of an id parse: the id, or a bad request with `message`.
pub fn id_result(parsed: Option<u128>, message: &str) -> (r: Result<u128, ApiError>)
    ensures
        match parsed {
            Some(v) => r == Ok::<u128, ApiError>(v),
            None => r matches Err(e) && is_error(e, ErrorKind::BadRequest, message@),
        },
{
    match parsed {
        Some(v) => Ok(v),
        None => Err(ApiError::from_str(ErrorKind::BadRequest, message)),
    }
}

/// Parses an id, answering a bad request with `message` when it is no UUID.
pub fn parse_id(raw: &str, message: &str) -> (r: Result<u128, ApiError>)
    ensures
        match uuid_from_text(raw@) {
            Some(v) => r == Ok::<u128, ApiError>(v),
            None => r matches Err(e) && is_error(e, ErrorKind::BadRequest, message@),
        },
{
    id_result(uuid_parse(raw), message)
}

/// A game-server id from the path; `invalid game server id: <id>` otherwise.
pub fn parse_server_id(id: &str) -> (r: Result<u128, ApiError>)
    ensures
        match uuid_from_text(id@) {
            Some(v) => r == Ok::<u128, ApiError>(v),
            None => r matches Err(e)
                && is_error(e, ErrorKind::BadRequest, "invalid game server id: "@ + id@),
        },
{
    match uuid_parse(id) {
        Some(v) => Ok(v),
        None => {
            let mut m = String::from_str("invalid game server id: ");
            m.append(id);
            Err(ApiError::new(ErrorKind::BadRequest, m))
        }
    }
}

/// A PUG id; `invalid pug id` otherwise.
pub fn parse_pug_id(raw: &str) -> (r: Result<u128, ApiError>)
    ensures
        match uuid_from_text(raw@) {
            Some(v) => r == Ok::<u128, ApiError>(v),
            None => r matches Err(e) && is_error(e, ErrorKind::BadRequest, "invalid pug id"@),
        },
{
    parse_id(raw, "invalid pug id")
}

/// A player id; `invalid player id` otherwise.
pub fn parse_player_id(raw: &str) -> (r: Result<u128, ApiError>)
    ensures
        match uuid_from_text(raw@) {
            Some(v) => r == Ok::<u128, ApiError>(v),
            None => r matches Err(e) && is_error(e, ErrorKind::BadRequest, "invalid player id"@),
        },
{
    parse_id(raw, "invalid player id")
}

/// A tournament-match id; `invalid match id` otherwise.
pub fn parse_match_id(raw: &str) -> (r: Result<u128, ApiError>)
    ensures
        match uuid_from_text(raw@) {
            Some(v) => r == Ok::<u128, ApiError>(v),
            None => r matches Err(e) && is_error(e, ErrorKind::BadRequest, "invalid match id"@),
        },
{
    parse_id(raw, "invalid match id")
}

/// The ids the handlers read from paths and bodies, each refused with a
/// message of its own.
#[derive(Debug, Clone, Copy, PartialEq, Eq, Structural)]
pub enum IdField {
    Ban,
    Team,
    Invitation,
    TeamSeason,
    League,
    Application,
    User,
    Player,
    Match,
    Registration,
    Dispute,
    WinnerRegistration,
    LoserRegistration,
}

/// The bad-request message for an id of `f` that is no UUID.
pub open spec fn refusal_text(f: IdField) -> Seq<char> {
    match f {
        IdField::Ban => "Invalid ban ID"@,
        IdField::Team => "Invalid team ID format"@,
        IdField::Invitation => "Invalid invitation ID format"@,
        IdField::TeamSeason => "Invalid team season ID format"@,
        IdField::League => "Invalid league ID format"@,
        IdField::Application => "Invalid application ID format"@,
        IdField::User => "Invalid user ID format"@,
        IdField::Player => "Invalid player ID format"@,
        IdField::Match => "Invalid match ID format"@,
        IdField::Registration => "Invalid registration ID format"@,
        IdField::Dispute => "Invalid dispute ID format"@,
        IdField::WinnerRegistration => "Invalid winner registration ID format"@,
        IdField::LoserRegistration => "Invalid loser registration ID format"@,
    }
}

/// The message for `f`, as text.
pub fn refusal_message(f: IdField) -> (r: &'static str)
    ensures
        r@ == refusal_text(f),
{
    match f {
        IdField::Ban => "Invalid ban ID",
        IdField::Team => "Invalid team ID format",
        IdField::Invitation => "Invalid invitation ID format",
        IdField::TeamSeason => "Invalid team season ID format",
        IdField::League => "Invalid league ID format",
        IdField::Application => "Invalid application ID format",
        IdField::User => "Invalid user ID format",
        IdField::Player => "Invalid player ID format",
        IdField::Match => "Invalid match ID format",
        IdField::Registration => "Invalid registration ID format",
        IdField::Dispute => "Invalid dispute ID format",
        IdField::WinnerRegistration => "Invalid winner registration ID format",
        IdField::LoserRegistration => "Invalid loser registration ID format",
    }
}

/// Parses an id of `f`, refusing a text that is no UUID with the message
/// of `f`.
pub fn parse_field_id(raw: &str, f: IdField) -> (r: Result<u128, ApiError>)
    ensures
        match uuid_from_text(raw@) {
            Some(v) => r == Ok::<u128, ApiError>(v),
            None => r matches Err(e) && is_error(e, ErrorKind::BadRequest, refusal_text(f)),
        },
{
    parse_id(raw, refusal_message(f))
}

/// Parses two ids in turn: the first that is no UUID is refused with the
/// message of its field, the first id before the second.
pub fn parse_id_pair(a: &str, fa: IdField, b: &str, fb: IdField) -> (r: Result<(u128, u128), ApiError>)
    ensures
        match (uuid_from_text(a@), uuid_from_text(b@)) {
            (Some(x), Some(y)) => r == Ok::<(u128, u128), ApiError>((x, y)),
            (None, _) => r matches Err(e) && is_error(e, ErrorKind::BadRequest, refusal_text(fa)),
            (Some(_), None) => r matches Err(e) && is_error(e, ErrorKind::BadRequest, refusal_text(fb)),
        },
{
    let x = match parse_field_id(a, fa) {
        Ok(v) => v,
        Err(e) => return Err(e),
    };
    let y = match parse_field_id(b, fb) {
        Ok(v) => v,
        Err(e) => return Err(e),
    };
    Ok((x, y))
}

} // verus!
