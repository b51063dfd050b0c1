//! The local time, as text.

use vstd::prelude::*;

verus! {

/// The pattern of the timestamps that memos carry.
pub const TIMESTAMP_FORMAT: &'static str = "%Y-%m-%d %H:%M:%S";

/// Relies on chrono's `Local::now` and `DateTime::format`: the local time now,
/// rendered with the pattern `fmt`. Nothing is promised of the text, which
/// depends on the clock. Rendering fails (and `to_string` panics) only on an
/// invalid pattern, so only the timestamp pattern is admitted.
#[verifier::external_body]
pub(crate) fn local_time_text(fmt: &str) -> (r: String)
    requires
        fmt@ == TIMESTAMP_FORMAT@,
{
    chrono::Local::now().format(fmt).to_string()
}

} // verus!
