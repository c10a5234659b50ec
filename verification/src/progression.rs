//! Bracket progression: the answer for the history view, which has no
//! storage yet.

use vstd::prelude::*;
use crate::api_error::{ApiError, ErrorKind, is_error};

verus! {

/// Progression history is not kept, so viewing it is answered as not
/// implemented, whatever the match.
pub fn progression_history_refusal() -> (e: ApiError)
    ensures
        is_error(
            e,
            ErrorKind::NotImplemented,
            "Viewing progression history requires progression log storage (coming soon)"@,
        ),
{
    ApiError::from_str(
        ErrorKind::NotImplemented,
        "Viewing progression history requires progression log storage (coming soon)",
    )
}

} // verus!
