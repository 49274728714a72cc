//! Instants and their wire rendering.
//!
//! The library measures time as non-leap milliseconds since the Unix epoch.
//! Rendering an instant as an RFC 3339 string, and reading the wall clock,
//! are done by the `chrono` crate behind the trusted items below.

use vstd::prelude::*;

verus! {

/// Largest instant (epoch milliseconds) the RFC 3339 rendering accepts; it
/// stays well below the roughly 262,000-year range `chrono` can represent.
pub const MAX_RENDERABLE_MS: u64 = 8000000000000000;

/// The RFC 3339 rendering of an instant given as non-leap milliseconds since
/// the Unix epoch, in UTC.  The rendering depends on the instant alone.
pub uninterp spec fn rfc3339_of(ms: u64) -> Seq<char>;

/// Relies on chrono's `DateTime::<Utc>::from_timestamp_millis` and
/// `DateTime::to_rfc3339`: the rendering of an epoch-millisecond instant in
/// UTC is a function of that instant alone.  `from_timestamp_millis` returns
/// `None` only for instants more than about 262,000 years from the common
/// era; the bound required here stays under that, so the conversion cannot
/// fail and the fallback arm is never taken.
#[verifier::external_body]
pub(crate) fn render_rfc3339(ms: u64) -> (r: String)
    requires
        ms < MAX_RENDERABLE_MS,
    ensures
        r@ == rfc3339_of(ms),
{
    match chrono::DateTime::<chrono::Utc>::from_timestamp_millis(ms as i64) {
        Some(dt) => dt.to_rfc3339(),
        None => String::new(),
    }
}

/// Relies on chrono's `Utc::now` and `DateTime::timestamp_millis`: the number
/// of non-leap milliseconds since the Unix epoch at the moment of the call.
/// Nothing is assumed of the value: the wall clock decides it.
#[verifier::external_body]
pub(crate) fn current_time_ms() -> i64 {
    chrono::Utc::now().timestamp_millis()
}

/// Clamp a wall-clock reading to the renderable range, so that a reading
/// taken now (or any plausible one) can be rendered.  In range it is the
/// identity.
pub fn clamp_instant(t: i64) -> (ms: u64)
    ensures
        ms < MAX_RENDERABLE_MS,
        0 <= t < MAX_RENDERABLE_MS ==> ms == t,
        t < 0 ==> ms == 0,
        t >= MAX_RENDERABLE_MS ==> ms == MAX_RENDERABLE_MS - 1,
{
    if t < 0 {
        0
    } else if t >= 8000000000000000 {
        8000000000000000 - 1
    } else {
        t as u64
    }
}

} // verus!
