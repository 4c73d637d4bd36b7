//! The wall clock, as far as a job record needs it.

use vstd::prelude::*;

verus! {

/// The current UTC time in RFC 3339 form, from `chrono::Utc::now` and
/// `DateTime::to_rfc3339`. Nothing is claimed of the text: it differs from
/// call to call.
#[verifier::external_body]
pub(crate) fn now_rfc3339() -> (stamp: String) {
    chrono::Utc::now().to_rfc3339()
}

} // verus!
