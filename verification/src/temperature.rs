//! Temperature severity bands and their display colours.
//!
//! Temperatures are carried as milli-degrees Celsius in an `i64`, so the
//! thresholds 0, 28 and 35 degrees become 0, 28000 and 35000.

use vstd::prelude::*;

verus! {

/// Severity band of a Celsius temperature. Each band has a fixed ANSI
/// colour used when the temperature is rendered.
#[derive(Clone, Copy, PartialEq, Eq, Structural, Debug)]
pub enum TemperatureBand {
    Freezing,
    Mild,
    Warm,
    Hot,
}

/// The band of a temperature in milli-degrees Celsius: below 0 degrees is
/// freezing, up to 28 mild, up to 35 warm, and hot from there on.
pub open spec fn spec_band(t: int) -> TemperatureBand {
    if t < 0 {
        TemperatureBand::Freezing
    } else if t < 28000 {
        TemperatureBand::Mild
    } else if t < 35000 {
        TemperatureBand::Warm
    } else {
        TemperatureBand::Hot
    }
}

/// Classify a temperature, given in milli-degrees Celsius, into its band.
pub fn band(temp_milli: i64) -> (b: TemperatureBand)
    ensures
        b == spec_band(temp_milli as int),
{
    if temp_milli < 0 {
        TemperatureBand::Freezing
    } else if temp_milli < 28000 {
        TemperatureBand::Mild
    } else if temp_milli < 35000 {
        TemperatureBand::Warm
    } else {
        TemperatureBand::Hot
    }
}

/// The four bands partition the temperature axis with no gaps and no
/// overlaps: every temperature falls in exactly the band whose half-open
/// interval contains it, with boundaries at 0, 28 and 35 degrees.
pub proof fn lemma_band_partition(t: int)
    ensures
        (spec_band(t) == TemperatureBand::Freezing) <==> t < 0,
        (spec_band(t) == TemperatureBand::Mild) <==> (0 <= t < 28000),
        (spec_band(t) == TemperatureBand::Warm) <==> (28000 <= t < 35000),
        (spec_band(t) == TemperatureBand::Hot) <==> t >= 35000,
{
}

/// The ANSI colour escape that introduces a temperature of the given band.
pub open spec fn band_color(b: TemperatureBand) -> Seq<char> {
    match b {
        TemperatureBand::Freezing => "\u{1b}[46;30m"@,
        TemperatureBand::Mild => "\u{1b}[42;30m"@,
        TemperatureBand::Warm => "\u{1b}[43;30m"@,
        TemperatureBand::Hot => "\u{1b}[41;30m"@,
    }
}

/// The colour escape for a temperature in milli-degrees Celsius.
pub fn get_temp_range_color(temp_milli: i64) -> (r: &'static str)
    ensures
        r@ == band_color(spec_band(temp_milli as int)),
{
    if temp_milli < 0 {
        "\u{1b}[46;30m"
    } else if temp_milli < 28000 {
        "\u{1b}[42;30m"
    } else if temp_milli < 35000 {
        "\u{1b}[43;30m"
    } else {
        "\u{1b}[41;30m"
    }
}

} // verus!
