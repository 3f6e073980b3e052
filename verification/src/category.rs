//! The weather-code registry: mapping the provider's numeric weather codes
//! to semantic categories, and each category to its display label.
//!
//! Classification is total and lossy on purpose: several provider codes
//! collapse into one category, and any code outside the documented set maps
//! to `Unknown` rather than failing.

use vstd::prelude::*;

verus! {

/// Semantic grouping of one or more provider weather codes that share a
/// display treatment (label and icon pair).
#[derive(Clone, Copy, PartialEq, Eq, Structural, Debug)]
pub enum WeatherCategory {
    ThunderstormWithRain,
    Thunderstorm,
    ThunderstormWithDrizzle,
    Drizzle,
    Rain,
    Snow,
    RainAndSnow,
    Mist,
    Smoke,
    Haze,
    SandDustWhirls,
    Fog,
    Sand,
    Dust,
    Ash,
    Squall,
    Tornado,
    Clear,
    FewClouds,
    ScatteredClouds,
    BrokenClouds,
    OvercastClouds,
    Unknown,
}

/// The provider's documented set of weather codes: the thunderstorm family
/// (200s), drizzle (300s), rain (500s), snow (600s), atmospheric conditions
/// (700s), and clear or clouds (800-804).
pub open spec fn known_code(code: u16) -> bool {
    ||| 200 <= code <= 202
    ||| code == 210 || code == 211 || code == 212 || code == 221
    ||| 230 <= code <= 232
    ||| 300 <= code <= 302
    ||| 310 <= code <= 314 || code == 321
    ||| 500 <= code <= 504
    ||| code == 511 || 520 <= code <= 522 || code == 531
    ||| 600 <= code <= 602
    ||| 611 <= code <= 613
    ||| code == 615 || code == 616 || 620 <= code <= 622
    ||| code == 701 || code == 711 || code == 721 || code == 731
    ||| code == 741 || code == 751 || code == 761 || code == 762
    ||| code == 771 || code == 781
    ||| 800 <= code <= 804
}

/// The category of each provider code. Codes outside the documented set,
/// and only those, map to `Unknown`.
pub open spec fn spec_classify(code: u16) -> WeatherCategory {
    if 200 <= code <= 202 {
        WeatherCategory::ThunderstormWithRain
    } else if code == 210 || code == 211 || code == 212 || code == 221 {
        WeatherCategory::Thunderstorm
    } else if 230 <= code <= 232 {
        WeatherCategory::ThunderstormWithDrizzle
    } else if 300 <= code <= 302 || 310 <= code <= 314 || code == 321 {
        WeatherCategory::Drizzle
    } else if 500 <= code <= 504 || code == 511 || 520 <= code <= 522 || code == 531 {
        WeatherCategory::Rain
    } else if 600 <= code <= 602 || code == 611 {
        WeatherCategory::Snow
    } else if code == 612 || code == 613 || code == 615 || code == 616 || 620 <= code <= 622 {
        WeatherCategory::RainAndSnow
    } else if code == 701 {
        WeatherCategory::Mist
    } else if code == 711 {
        WeatherCategory::Smoke
    } else if code == 721 {
        WeatherCategory::Haze
    } else if code == 731 {
        WeatherCategory::SandDustWhirls
    } else if code == 741 {
        WeatherCategory::Fog
    } else if code == 751 {
        WeatherCategory::Sand
    } else if code == 761 {
        WeatherCategory::Dust
    } else if code == 762 {
        WeatherCategory::Ash
    } else if code == 771 {
        WeatherCategory::Squall
    } else if code == 781 {
        WeatherCategory::Tornado
    } else if code == 800 {
        WeatherCategory::Clear
    } else if code == 801 {
        WeatherCategory::FewClouds
    } else if code == 802 {
        WeatherCategory::ScatteredClouds
    } else if code == 803 {
        WeatherCategory::BrokenClouds
    } else if code == 804 {
        WeatherCategory::OvercastClouds
    } else {
        WeatherCategory::Unknown
    }
}

/// Map a provider weather code to its category. Total: any 16-bit code is
/// accepted, unrecognised codes resolve to `Unknown` rather than an error.
pub fn to_weather_code(code: u16) -> (c: WeatherCategory)
    ensures
        c == spec_classify(code),
{
    match code {
        200..=202 => WeatherCategory::ThunderstormWithRain,
        210 | 211 | 212 | 221 => WeatherCategory::Thunderstorm,
        230..=232 => WeatherCategory::ThunderstormWithDrizzle,
        300..=302 | 310..=314 | 321 => WeatherCategory::Drizzle,
        500..=504 | 511 | 520..=522 | 531 => WeatherCategory::Rain,
        600..=602 | 611 => WeatherCategory::Snow,
        612 | 613 | 615 | 616 | 620..=622 => WeatherCategory::RainAndSnow,
        701 => WeatherCategory::Mist,
        711 => WeatherCategory::Smoke,
        721 => WeatherCategory::Haze,
        731 => WeatherCategory::SandDustWhirls,
        741 => WeatherCategory::Fog,
        751 => WeatherCategory::Sand,
        761 => WeatherCategory::Dust,
        762 => WeatherCategory::Ash,
        771 => WeatherCategory::Squall,
        781 => WeatherCategory::Tornado,
        800 => WeatherCategory::Clear,
        801 => WeatherCategory::FewClouds,
        802 => WeatherCategory::ScatteredClouds,
        803 => WeatherCategory::BrokenClouds,
        804 => WeatherCategory::OvercastClouds,
        _ => WeatherCategory::Unknown,
    }
}

/// Classification covers exactly the documented set: every code in it gets
/// a category other than `Unknown`, and every other 16-bit code gets
/// `Unknown`.
pub proof fn lemma_classify_total(code: u16)
    ensures
        known_code(code) <==> (spec_classify(code) != WeatherCategory::Unknown),
{
}

/// Classification is deterministic and pure: any two results obtained for
/// the same code are the same category.
pub proof fn lemma_classify_deterministic(code: u16, c1: WeatherCategory, c2: WeatherCategory)
    requires
        c1 == spec_classify(code),
        c2 == spec_classify(code),
    ensures
        c1 == c2,
{
}

/// The fixed human-readable phrase shown for a category.
pub open spec fn label_view(c: WeatherCategory) -> Seq<char> {
    match c {
        WeatherCategory::ThunderstormWithRain => "Thunderstorm With Rain"@,
        WeatherCategory::Thunderstorm => "Thunderstorm"@,
        WeatherCategory::ThunderstormWithDrizzle => "Thunderstorm With Drizzle"@,
        WeatherCategory::Drizzle => "Drizzle"@,
        WeatherCategory::Rain => "Rain"@,
        WeatherCategory::Snow => "Snow"@,
        WeatherCategory::RainAndSnow => "Rain And Snow"@,
        WeatherCategory::Mist => "mist"@,
        WeatherCategory::Smoke => "Smoke"@,
        WeatherCategory::Haze => "Haze"@,
        WeatherCategory::SandDustWhirls => "Sand or Dust Whirls"@,
        WeatherCategory::Fog => "Fog"@,
        WeatherCategory::Sand => "Sand"@,
        WeatherCategory::Dust => "Dust"@,
        WeatherCategory::Ash => "Ash (volcanic)"@,
        WeatherCategory::Squall => "Squall"@,
        WeatherCategory::Tornado => "Tornado"@,
        WeatherCategory::Clear => "Clear"@,
        WeatherCategory::FewClouds => "Few Cloud"@,
        WeatherCategory::ScatteredClouds => "Scattered Clouds"@,
        WeatherCategory::BrokenClouds => "Broken Clouds"@,
        WeatherCategory::OvercastClouds => "Overcast Clouds"@,
        WeatherCategory::Unknown => "UNKNOWN CODE"@,
    }
}

impl WeatherCategory {
    /// The fixed human-readable phrase for this category.
    pub fn label(&self) -> (r: &'static str)
        ensures
            r@ == label_view(*self),
    {
        match self {
            WeatherCategory::ThunderstormWithRain => "Thunderstorm With Rain",
            WeatherCategory::Thunderstorm => "Thunderstorm",
            WeatherCategory::ThunderstormWithDrizzle => "Thunderstorm With Drizzle",
            WeatherCategory::Drizzle => "Drizzle",
            WeatherCategory::Rain => "Rain",
            WeatherCategory::Snow => "Snow",
            WeatherCategory::RainAndSnow => "Rain And Snow",
            WeatherCategory::Mist => "mist",
            WeatherCategory::Smoke => "Smoke",
            WeatherCategory::Haze => "Haze",
            WeatherCategory::SandDustWhirls => "Sand or Dust Whirls",
            WeatherCategory::Fog => "Fog",
            WeatherCategory::Sand => "Sand",
            WeatherCategory::Dust => "Dust",
            WeatherCategory::Ash => "Ash (volcanic)",
            WeatherCategory::Squall => "Squall",
            WeatherCategory::Tornado => "Tornado",
            WeatherCategory::Clear => "Clear",
            WeatherCategory::FewClouds => "Few Cloud",
            WeatherCategory::ScatteredClouds => "Scattered Clouds",
            WeatherCategory::BrokenClouds => "Broken Clouds",
            WeatherCategory::OvercastClouds => "Overcast Clouds",
            WeatherCategory::Unknown => "UNKNOWN CODE",
        }
    }
}

} // verus!
