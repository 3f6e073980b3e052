use weather_line::category::WeatherCategory;
use weather_line::category::to_weather_code;
use weather_line::daynight::is_daytime;
use weather_line::icons::{get_icon, get_icon_day, get_icon_night};
use weather_line::temperature::{band, get_temp_range_color, TemperatureBand};

fn known_codes() -> Vec<u16> {
    let mut v: Vec<u16> = Vec::new();
    v.extend(200..=202);
    v.extend([210, 211, 212, 221]);
    v.extend(230..=232);
    v.extend(300..=302);
    v.extend(310..=314);
    v.push(321);
    v.extend(500..=504);
    v.push(511);
    v.extend(520..=522);
    v.push(531);
    v.extend(600..=602);
    v.extend([611, 612, 613, 615, 616]);
    v.extend(620..=622);
    v.extend([701, 711, 721, 731, 741, 751, 761, 762, 771, 781]);
    v.extend(800..=804);
    v
}

#[test]
fn classify_covers_documented_set_and_nothing_else() {
    let known = known_codes();
    for code in 0..=u16::MAX {
        let category = to_weather_code(code);
        if known.contains(&code) {
            assert!(category != WeatherCategory::Unknown, "code {code} should be known");
        } else {
            assert!(category == WeatherCategory::Unknown, "code {code} should be unknown");
        }
    }
}

#[test]
fn classify_is_deterministic() {
    for code in 0..=u16::MAX {
        assert_eq!(to_weather_code(code), to_weather_code(code));
    }
}

#[test]
fn classify_groups_codes() {
    assert_eq!(to_weather_code(200), WeatherCategory::ThunderstormWithRain);
    assert_eq!(to_weather_code(201), WeatherCategory::ThunderstormWithRain);
    assert_eq!(to_weather_code(202), WeatherCategory::ThunderstormWithRain);
    assert_eq!(to_weather_code(211), WeatherCategory::Thunderstorm);
    assert_eq!(to_weather_code(231), WeatherCategory::ThunderstormWithDrizzle);
    assert_eq!(to_weather_code(301), WeatherCategory::Drizzle);
    assert_eq!(to_weather_code(511), WeatherCategory::Rain);
    assert_eq!(to_weather_code(600), WeatherCategory::Snow);
    assert_eq!(to_weather_code(611), WeatherCategory::Snow);
    assert_eq!(to_weather_code(613), WeatherCategory::RainAndSnow);
    assert_eq!(to_weather_code(616), WeatherCategory::RainAndSnow);
    assert_eq!(to_weather_code(701), WeatherCategory::Mist);
    assert_eq!(to_weather_code(781), WeatherCategory::Tornado);
    assert_eq!(to_weather_code(800), WeatherCategory::Clear);
    assert_eq!(to_weather_code(804), WeatherCategory::OvercastClouds);
    assert_eq!(to_weather_code(0), WeatherCategory::Unknown);
    assert_eq!(to_weather_code(614), WeatherCategory::Unknown);
    assert_eq!(to_weather_code(999), WeatherCategory::Unknown);
}

#[test]
fn labels_are_the_fixed_phrases() {
    assert_eq!(WeatherCategory::ThunderstormWithRain.label(), "Thunderstorm With Rain");
    assert_eq!(WeatherCategory::Thunderstorm.label(), "Thunderstorm");
    assert_eq!(WeatherCategory::Drizzle.label(), "Drizzle");
    assert_eq!(WeatherCategory::Mist.label(), "mist");
    assert_eq!(WeatherCategory::SandDustWhirls.label(), "Sand or Dust Whirls");
    assert_eq!(WeatherCategory::Ash.label(), "Ash (volcanic)");
    assert_eq!(WeatherCategory::FewClouds.label(), "Few Cloud");
    assert_eq!(WeatherCategory::Unknown.label(), "UNKNOWN CODE");
}

#[test]
fn icons_match_the_glyph_table() {
    assert_eq!(get_icon_day(&WeatherCategory::Clear), "\u{f0599}");
    assert_eq!(get_icon_night(&WeatherCategory::Clear), "\u{f0594}");
    assert_eq!(get_icon_day(&WeatherCategory::FewClouds), "\u{f0595}");
    assert_eq!(get_icon_night(&WeatherCategory::FewClouds), "\u{f0f31}");
    assert_eq!(get_icon_day(&WeatherCategory::Rain), "\u{e308}");
    assert_eq!(get_icon_night(&WeatherCategory::Rain), "\u{e333}");
    assert_eq!(get_icon_day(&WeatherCategory::Snow), "\u{e30a}");
    assert_eq!(get_icon_night(&WeatherCategory::Snow), "\u{e335}");
}

#[test]
fn tornado_uses_the_same_glyph_day_and_night() {
    assert_eq!(
        get_icon_day(&WeatherCategory::Tornado),
        get_icon_night(&WeatherCategory::Tornado)
    );
    assert_eq!(get_icon_day(&WeatherCategory::Tornado), "\u{f0f38}");
}

#[test]
fn unknown_category_falls_back_to_generic_glyph() {
    assert_eq!(get_icon_day(&WeatherCategory::Unknown), "\u{f128}");
    assert_eq!(get_icon_night(&WeatherCategory::Unknown), "\u{f128}");
}

#[test]
fn get_icon_selects_the_variant() {
    assert_eq!(get_icon(&WeatherCategory::Clear, true), "\u{f0599}");
    assert_eq!(get_icon(&WeatherCategory::Clear, false), "\u{f0594}");
}

#[test]
fn band_boundaries_have_no_gaps_or_overlaps() {
    assert_eq!(band(-100), TemperatureBand::Freezing);
    assert_eq!(band(0), TemperatureBand::Mild);
    assert_eq!(band(27999), TemperatureBand::Mild);
    assert_eq!(band(28000), TemperatureBand::Warm);
    assert_eq!(band(34999), TemperatureBand::Warm);
    assert_eq!(band(35000), TemperatureBand::Hot);
}

#[test]
fn band_colors_are_the_fixed_escapes() {
    assert_eq!(get_temp_range_color(-100), "\u{1b}[46;30m");
    assert_eq!(get_temp_range_color(0), "\u{1b}[42;30m");
    assert_eq!(get_temp_range_color(28000), "\u{1b}[43;30m");
    assert_eq!(get_temp_range_color(35000), "\u{1b}[41;30m");
}

#[test]
fn daytime_boundaries_are_half_open() {
    let sunrise = 1_700_000_000;
    let sunset = 1_700_040_000;
    assert!(is_daytime(sunrise, sunrise, sunset));
    assert!(!is_daytime(sunset, sunrise, sunset));
    assert!(is_daytime(sunset - 1, sunrise, sunset));
    assert!(!is_daytime(sunrise - 1, sunrise, sunset));
}

#[test]
fn daytime_defaults_to_day_without_sun_times() {
    assert!(is_daytime(0, 0, 0));
    assert!(is_daytime(1_700_000_000, 0, 0));
}
