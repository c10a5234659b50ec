//! Bans: what an administrator's request to create or lift a ban must pass
//! before the ban service sees it.

use vstd::prelude::*;
use crate::api_error::{ApiError, ErrorKind, is_error};

verus! {

/// A ban created or lifted: the body's validation comes first (the error
/// text is the one the validator gave), then the admin check, where a
/// failed permission lookup counts as no.
pub fn admit_ban_change(validation_error: Option<String>, is_admin: Option<bool>) -> (r: Result<(), ApiError>)
    ensures
        match validation_error {
            Some(m) => r matches Err(e) && is_error(e, ErrorKind::BadRequest, m@),
            None => if is_admin == Some(true) {
                r is Ok
            } else {
                r matches Err(e) && is_error(e, ErrorKind::Forbidden, "Admin access required"@)
            },
        },
{
    match validation_error {
        Some(m) => Err(ApiError::new(ErrorKind::BadRequest, m)),
        None => {
            if is_admin == Some(true) {
                Ok(())
            } else {
                Err(ApiError::from_str(ErrorKind::Forbidden, "Admin access required"))
            }
        },
    }
}

/// The answer for a ban type the domain does not know.
pub fn unknown_ban_type() -> (e: ApiError)
    ensures
        is_error(e, ErrorKind::BadRequest, "Invalid ban type"@),
{
    ApiError::from_str(ErrorKind::BadRequest, "Invalid ban type")
}

} // verus!
