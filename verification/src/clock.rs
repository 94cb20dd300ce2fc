//! Wall-clock readings and time formatting, modelled as plain milliseconds
//! since the Unix epoch and carried out by chrono behind trusted wrappers.

use vstd::prelude::*;

verus! {

/// Largest magnitude, in milliseconds since the Unix epoch, that a civil
/// timestamp handled here may have. chrono confines every `DateTime` to
/// about 262,000 years on either side of the common era, which lies well
/// inside this bound.
pub const TIME_BOUND_MILLIS: i64 = 10_000_000_000_000_000;

/// A timestamp (or clock reading) the service can work with: within
/// `TIME_BOUND_MILLIS` of the epoch, so that differences of two such
/// instants fit comfortably in an `i64`.
pub open spec fn valid_time(t: int) -> bool {
    -(TIME_BOUND_MILLIS as int) <= t <= TIME_BOUND_MILLIS as int
}

/// Relies on chrono's `Local::now` and `DateTime::timestamp_millis`: the
/// current instant as milliseconds since the Unix epoch. chrono keeps every
/// `DateTime` within about 262,000 years of the epoch (roughly 8.3e15
/// milliseconds), so the reading lies within `TIME_BOUND_MILLIS`.
#[verifier::external_body]
pub(crate) fn now_millis() -> (t: i64)
    ensures
        valid_time(t as int),
{
    chrono::Local::now().timestamp_millis()
}

/// The absolute, time-zone-normalized text for an instant: what chrono
/// displays for the UTC naive form of the timestamp with this many
/// milliseconds since the epoch (empty for instants outside chrono's
/// calendar). A function of the millisecond value alone.
pub uninterp spec fn utc_text(millis: int) -> Seq<char>;

/// Relies on chrono: `DateTime::from_timestamp_millis`, then `naive_utc`
/// and its `Display`. The text depends on the millisecond value alone;
/// out-of-range instants render as the empty string.
#[verifier::external_body]
pub(crate) fn format_utc(millis: i64) -> (r: String)
    ensures
        r@ == utc_text(millis as int),
{
    match chrono::DateTime::from_timestamp_millis(millis) {
        Some(dt) => dt.naive_utc().to_string(),
        None => String::new(),
    }
}

/// The rough English phrase for a signed duration of this many milliseconds
/// (negative for the past, e.g. "an hour ago"). A function of the duration
/// alone.
pub uninterp spec fn relative_text(delta_millis: int) -> Seq<char>;

/// Relies on chrono_humanize: `HumanTime`'s `Display` renders a
/// `chrono::TimeDelta` as a rough English phrase, a pure function of the
/// duration. `TimeDelta::milliseconds` panics only when given less than
/// `-i64::MAX`, so `i64::MIN` is excluded.
#[verifier::external_body]
pub(crate) fn format_relative(delta_millis: i64) -> (r: String)
    requires
        delta_millis != i64::MIN,
    ensures
        r@ == relative_text(delta_millis as int),
{
    chrono_humanize::HumanTime::from(chrono::TimeDelta::milliseconds(delta_millis)).to_string()
}

} // verus!
