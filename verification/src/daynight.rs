//! Day/night resolution: whether the observation instant falls between
//! sunrise and sunset, deciding which icon variant applies.
//!
//! All three instants are Unix epoch seconds. Converting them to the same
//! local timezone does not change their relative order, so the comparison
//! is done directly on the epoch values.

use vstd::prelude::*;

verus! {

/// Day holds from the sunrise instant up to, but excluding, the sunset
/// instant. When the provider reports neither sunrise nor sunset (both
/// zero), day is assumed.
pub open spec fn spec_is_daytime(observed: int, sunrise: int, sunset: int) -> bool {
    if sunrise == 0 && sunset == 0 {
        true
    } else {
        sunrise <= observed < sunset
    }
}

/// Decide whether the day icon variant applies at `observed_at`.
pub fn is_daytime(observed_at: i64, sunrise: i64, sunset: i64) -> (r: bool)
    ensures
        r == spec_is_daytime(observed_at as int, sunrise as int, sunset as int),
{
    if sunrise == 0 && sunset == 0 {
        true
    } else {
        observed_at >= sunrise && observed_at < sunset
    }
}

/// The interval is half-open: the sunrise instant itself is day, the
/// sunset instant itself is already night. Stated for real days, where
/// sunrise precedes sunset; on a degenerate day whose sunrise and sunset
/// coincide no instant is day.
pub proof fn lemma_daytime_boundaries(sunrise: int, sunset: int)
    requires
        sunrise < sunset,
    ensures
        spec_is_daytime(sunrise, sunrise, sunset),
        !spec_is_daytime(sunset, sunrise, sunset),
{
}

/// When the provider reports neither sunrise nor sunset, every instant
/// resolves to day.
pub proof fn lemma_default_to_day(observed: int)
    ensures
        spec_is_daytime(observed, 0, 0),
{
}

} // verus!
