//! The icon set: one day glyph and one night glyph per weather category,
//! drawn from a private icon font, so each glyph is a fixed codepoint.
//!
//! Some categories deliberately show the same glyph day and night (for
//! instance Tornado and the atmospheric conditions); the unknown category
//! falls back to a generic glyph for both variants.

use crate::category::WeatherCategory;
use vstd::prelude::*;

verus! {

/// The day glyph of a category.
pub open spec fn icon_day_view(c: WeatherCategory) -> Seq<char> {
    match c {
        WeatherCategory::ThunderstormWithRain => "\u{e30f}"@,
        WeatherCategory::Thunderstorm => "\u{e305}"@,
        WeatherCategory::ThunderstormWithDrizzle => "\u{e30e}"@,
        WeatherCategory::Drizzle => "\u{e309}"@,
        WeatherCategory::Rain => "\u{e308}"@,
        WeatherCategory::Snow => "\u{e30a}"@,
        WeatherCategory::RainAndSnow => "\u{e306}"@,
        WeatherCategory::Mist => "\u{e373}"@,
        WeatherCategory::Smoke => "\u{e35c}"@,
        WeatherCategory::Haze => "\u{e3ae}"@,
        WeatherCategory::SandDustWhirls => "\u{e37a}"@,
        WeatherCategory::Fog => "\u{e303}"@,
        WeatherCategory::Sand => "\u{e37a}"@,
        WeatherCategory::Dust => "\u{e35d}"@,
        WeatherCategory::Ash => "\u{e3c0}"@,
        WeatherCategory::Squall => "\u{e31e}"@,
        WeatherCategory::Tornado => "\u{f0f38}"@,
        WeatherCategory::Clear => "\u{f0599}"@,
        WeatherCategory::FewClouds => "\u{f0595}"@,
        WeatherCategory::ScatteredClouds => "\u{e302}"@,
        WeatherCategory::BrokenClouds => "\u{e376}"@,
        WeatherCategory::OvercastClouds => "\u{e312}"@,
        WeatherCategory::Unknown => "\u{f128}"@,
    }
}

/// The night glyph of a category. Tornado, the atmospheric conditions,
/// overcast and the unknown fallback reuse their day glyph.
pub open spec fn icon_night_view(c: WeatherCategory) -> Seq<char> {
    match c {
        WeatherCategory::ThunderstormWithRain => "\u{e338}"@,
        WeatherCategory::Thunderstorm => "\u{e330}"@,
        WeatherCategory::ThunderstormWithDrizzle => "\u{e366}"@,
        WeatherCategory::Drizzle => "\u{e336}"@,
        WeatherCategory::Rain => "\u{e333}"@,
        WeatherCategory::Snow => "\u{e335}"@,
        WeatherCategory::RainAndSnow => "\u{e331}"@,
        WeatherCategory::Mist => "\u{e373}"@,
        WeatherCategory::Smoke => "\u{e35c}"@,
        WeatherCategory::Haze => "\u{e3ae}"@,
        WeatherCategory::SandDustWhirls => "\u{e37a}"@,
        WeatherCategory::Fog => "\u{e303}"@,
        WeatherCategory::Sand => "\u{e37a}"@,
        WeatherCategory::Dust => "\u{e35d}"@,
        WeatherCategory::Ash => "\u{e3c0}"@,
        WeatherCategory::Squall => "\u{e31e}"@,
        WeatherCategory::Tornado => "\u{f0f38}"@,
        WeatherCategory::Clear => "\u{f0594}"@,
        WeatherCategory::FewClouds => "\u{f0f31}"@,
        WeatherCategory::ScatteredClouds => "\u{e37e}"@,
        WeatherCategory::BrokenClouds => "\u{e37e}"@,
        WeatherCategory::OvercastClouds => "\u{e312}"@,
        WeatherCategory::Unknown => "\u{f128}"@,
    }
}

/// The glyph of a category for the given variant: the day glyph when
/// `is_day` holds, the night glyph otherwise.
pub open spec fn icon_view(c: WeatherCategory, is_day: bool) -> Seq<char> {
    if is_day {
        icon_day_view(c)
    } else {
        icon_night_view(c)
    }
}

/// The day icon of a category.
pub fn get_icon_day(code: &WeatherCategory) -> (r: String)
    ensures
        r@ == icon_day_view(*code),
{
    let s: &str = match code {
        WeatherCategory::ThunderstormWithRain => "\u{e30f}",
        WeatherCategory::Thunderstorm => "\u{e305}",
        WeatherCategory::ThunderstormWithDrizzle => "\u{e30e}",
        WeatherCategory::Drizzle => "\u{e309}",
        WeatherCategory::Rain => "\u{e308}",
        WeatherCategory::Snow => "\u{e30a}",
        WeatherCategory::RainAndSnow => "\u{e306}",
        WeatherCategory::Mist => "\u{e373}",
        WeatherCategory::Smoke => "\u{e35c}",
        WeatherCategory::Haze => "\u{e3ae}",
        WeatherCategory::SandDustWhirls => "\u{e37a}",
        WeatherCategory::Fog => "\u{e303}",
        WeatherCategory::Sand => "\u{e37a}",
        WeatherCategory::Dust => "\u{e35d}",
        WeatherCategory::Ash => "\u{e3c0}",
        WeatherCategory::Squall => "\u{e31e}",
        WeatherCategory::Tornado => "\u{f0f38}",
        WeatherCategory::Clear => "\u{f0599}",
        WeatherCategory::FewClouds => "\u{f0595}",
        WeatherCategory::ScatteredClouds => "\u{e302}",
        WeatherCategory::BrokenClouds => "\u{e376}",
        WeatherCategory::OvercastClouds => "\u{e312}",
        WeatherCategory::Unknown => "\u{f128}",
    };
    String::from_str(s)
}

/// The night icon of a category.
pub fn get_icon_night(code: &WeatherCategory) -> (r: String)
    ensures
        r@ == icon_night_view(*code),
{
    let s: &str = match code {
        WeatherCategory::ThunderstormWithRain => "\u{e338}",
        WeatherCategory::Thunderstorm => "\u{e330}",
        WeatherCategory::ThunderstormWithDrizzle => "\u{e366}",
        WeatherCategory::Drizzle => "\u{e336}",
        WeatherCategory::Rain => "\u{e333}",
        WeatherCategory::Snow => "\u{e335}",
        WeatherCategory::RainAndSnow => "\u{e331}",
        WeatherCategory::Mist => "\u{e373}",
        WeatherCategory::Smoke => "\u{e35c}",
        WeatherCategory::Haze => "\u{e3ae}",
        WeatherCategory::SandDustWhirls => "\u{e37a}",
        WeatherCategory::Fog => "\u{e303}",
        WeatherCategory::Sand => "\u{e37a}",
        WeatherCategory::Dust => "\u{e35d}",
        WeatherCategory::Ash => "\u{e3c0}",
        WeatherCategory::Squall => "\u{e31e}",
        WeatherCategory::Tornado => "\u{f0f38}",
        WeatherCategory::Clear => "\u{f0594}",
        WeatherCategory::FewClouds => "\u{f0f31}",
        WeatherCategory::ScatteredClouds => "\u{e37e}",
        WeatherCategory::BrokenClouds => "\u{e37e}",
        WeatherCategory::OvercastClouds => "\u{e312}",
        WeatherCategory::Unknown => "\u{f128}",
    };
    String::from_str(s)
}

/// The icon of a category in the variant selected by `is_day`.
pub fn get_icon(code: &WeatherCategory, is_day: bool) -> (r: String)
    ensures
        r@ == icon_view(*code, is_day),
{
    if is_day {
        get_icon_day(code)
    } else {
        get_icon_night(code)
    }
}

} // verus!
