//! The wall clock. Random-key mode binds the current time as associated
//! data.

use vstd::prelude::*;

verus! {

/// Relies on chrono's Utc::now and its Display form, "year-month-day
/// hour:minute:second.fraction UTC": ASCII throughout, the year at most
/// six digits and the fraction at most nine, so well under 64 characters.
/// Nothing is assumed about which time comes back.
#[verifier::external_body]
pub(crate) fn utc_now_text() -> (r: String)
    ensures
        vstd::utf8::is_ascii_chars(r@),
        r@.len() <= 64,
{
    chrono::Utc::now().to_string()
}

} // verus!
