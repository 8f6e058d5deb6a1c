use vstd::prelude::*;
use crate::error::UpdateError;
use crate::record::result_view;
use crate::text::{lemma_trimmed_is_trimmed, trim, trimmed};

verus! {

/// Whether an HTTP status code is in the success range.
pub open spec fn is_success_status(status: u16) -> bool {
    200 <= status <= 299
}

/// The public address that a lookup answered with `status` and `body`
/// (`None` where the body could not be read as text) stands for.
pub open spec fn resolved_ip(status: u16, body: Option<Seq<char>>) -> Result<Seq<char>, UpdateError> {
    match body {
        Some(text) => if is_success_status(status) {
            Ok(trimmed(text))
        } else {
            Err(UpdateError::Network)
        },
        None => Err(UpdateError::Network),
    }
}

/// A body seen through the string's view.
pub open spec fn body_view(body: Option<&str>) -> Option<Seq<char>> {
    match body {
        Some(b) => Some(b@),
        None => None,
    }
}

/// Reads the public address out of the lookup service's answer: the body,
/// trimmed, on a success status; a network error otherwise.
pub fn get_my_ip(status: u16, body: Option<&str>) -> (r: Result<String, UpdateError>)
    ensures
        result_view(r) == resolved_ip(status, body_view(body)),
        r is Ok ==> trimmed(r->Ok_0@) == r->Ok_0@,
{
    match body {
        Some(text) => if 200 <= status && status <= 299 {
            proof {
                lemma_trimmed_is_trimmed(text@);
            }
            Ok(trim(text).to_string())
        } else {
            Err(UpdateError::Network)
        },
        None => Err(UpdateError::Network),
    }
}

} // verus!
