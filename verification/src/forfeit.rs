//! Forfeits: the refusal of a forfeit type the domain does not know.

use vstd::prelude::*;
use crate::api_error::{ApiError, ErrorKind, is_error};

verus! {

/// The answer for a forfeit type that did not parse, carrying the parse
/// error's text.
pub fn forfeit_type_refusal(detail: &str) -> (e: ApiError)
    ensures
        is_error(e, ErrorKind::BadRequest, "Invalid forfeit type: "@ + detail@),
{
    let mut m = String::from_str("Invalid forfeit type: ");
    m.append(detail);
    ApiError::new(ErrorKind::BadRequest, m)
}

} // verus!
