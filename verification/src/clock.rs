use vstd::prelude::*;

verus! {

/// `std::time::Instant`: a moment of the clock, carried as an opaque value.
#[verifier::external_type_specification]
#[verifier::external_body]
pub struct ExInstant(std::time::Instant);

/// The present moment, from `std::time::Instant::now`. Nothing is known of it.
#[verifier::external_body]
pub(crate) fn instant_now() -> (r: std::time::Instant)
{
    std::time::Instant::now()
}

/// The whole seconds that have passed since a moment, from
/// `std::time::Instant::elapsed`. Nothing is known of their number.
#[verifier::external_body]
pub(crate) fn elapsed_seconds(since: &std::time::Instant) -> (r: u64)
{
    since.elapsed().as_secs()
}

/// The present time in seconds since the epoch, from `chrono::Utc::now`.
/// Nothing is known of it.
#[verifier::external_body]
pub(crate) fn unix_now() -> (r: i64)
{
    chrono::Utc::now().timestamp()
}

} // verus!
