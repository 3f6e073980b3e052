//! Assembly of the one-line weather summary: icon, provider description,
//! colour-coded temperature, and sunrise/sunset as local "HH:MM", joined
//! with fixed ANSI colour escapes.

use crate::category::{spec_classify, to_weather_code};
use crate::daynight::{is_daytime, spec_is_daytime};
use crate::decimal::{append_temp, temp_view};
use crate::icons::{get_icon, icon_view};
use crate::temperature::{band_color, get_temp_range_color, spec_band};
use chrono::TimeZone;
use vstd::prelude::*;

verus! {

/// A decimal digit as it appears on a zero-padded clock reading.
pub open spec fn is_clock_digit(c: char) -> bool {
    '0' as u32 <= c as u32 <= '9' as u32
}

/// The numeric reading of a zero-padded two-digit clock field.
pub open spec fn clock_field(tens: char, ones: char) -> int {
    (tens as u32 - '0' as u32) * 10 + (ones as u32 - '0' as u32)
}

/// A wall-clock time of day in the shape "HH:MM": a two-digit hour below
/// 24, a colon, and a two-digit minute below 60.
pub open spec fn is_hhmm(s: Seq<char>) -> bool {
    &&& s.len() == 5
    &&& is_clock_digit(s[0])
    &&& is_clock_digit(s[1])
    &&& s[2] == ':'
    &&& is_clock_digit(s[3])
    &&& is_clock_digit(s[4])
    &&& clock_field(s[0], s[1]) < 24
    &&& clock_field(s[3], s[4]) < 60
}

/// Relies on chrono: `Local.timestamp_opt(t, 0)` maps every in-range epoch
/// second to a single local instant, and formatting that instant with
/// "%H:%M" yields the zero-padded two-digit hour (below 24), a colon, and
/// the zero-padded two-digit minute (below 60; with nanosecond 0 there is
/// no leap second). The text depends on the machine's timezone, so nothing
/// more than its shape is stated. The bound keeps the instant well inside
/// chrono's representable years, where the conversion cannot come back
/// empty.
#[verifier::external_body]
fn local_hhmm(t: i64) -> (r: String)
    requires
        -8000000000000 <= t <= 8000000000000,
    ensures
        is_hhmm(r@),
{
    chrono::Local.timestamp_opt(t, 0).unwrap().format("%H:%M").to_string()
}

/// The summary line assembled from its rendered pieces: the icon and the
/// provider description on a white block, the temperature on its severity
/// colour between thermometer and degree glyphs, and the sunrise and
/// sunset readings on their own coloured blocks.
pub open spec fn line_view(
    icon: Seq<char>,
    desc: Seq<char>,
    color: Seq<char>,
    temp: Seq<char>,
    sunrise_hm: Seq<char>,
    sunset_hm: Seq<char>,
) -> Seq<char> {
    "\u{1b}[47;30m "@ + icon + " "@ + desc + " \u{1b}[0m "@ + color + " \u{f2c9}"@ + temp
        + "\u{f0504} \u{1b}[0m \u{1b}[30;43m \u{e34c}"@ + sunrise_hm
        + " \u{1b}[0m \u{1b}[30;44m \u{e34d}"@ + sunset_hm + " \u{1b}[0m"@
}

/// Assemble the summary line from the provider code, its verbatim
/// description, the temperature in milli-degrees Celsius, the day/night
/// choice, and the two already-formatted "HH:MM" readings.
pub fn format_short_weather(
    code: u16,
    description: &str,
    temp_milli: i64,
    is_day: bool,
    sunrise_hm: &str,
    sunset_hm: &str,
) -> (r: String)
    requires
        temp_milli > i64::MIN,
    ensures
        r@ == line_view(
            icon_view(spec_classify(code), is_day),
            description@,
            band_color(spec_band(temp_milli as int)),
            temp_view(temp_milli as int),
            sunrise_hm@,
            sunset_hm@,
        ),
{
    let category = to_weather_code(code);
    let icon = get_icon(&category, is_day);
    let color = get_temp_range_color(temp_milli);
    let mut r = String::from_str("\u{1b}[47;30m ");
    r.append(icon.as_str());
    r.append(" ");
    r.append(description);
    r.append(" \u{1b}[0m ");
    r.append(color);
    r.append(" \u{f2c9}");
    append_temp(&mut r, temp_milli);
    r.append("\u{f0504} \u{1b}[0m \u{1b}[30;43m \u{e34c}");
    r.append(sunrise_hm);
    r.append(" \u{1b}[0m \u{1b}[30;44m \u{e34d}");
    r.append(sunset_hm);
    r.append(" \u{1b}[0m");
    proof {
        assert(r@ =~= line_view(
            icon_view(spec_classify(code), is_day),
            description@,
            band_color(spec_band(temp_milli as int)),
            temp_view(temp_milli as int),
            sunrise_hm@,
            sunset_hm@,
        ));
    }
    r
}

/// The whole render pass: classify the code, resolve day or night from
/// the observation instant, format sunrise and sunset as local wall-clock
/// readings, and assemble the line. The two readings come from the
/// machine's timezone, so they are pinned only to the "HH:MM" shape.
pub fn render_weather_line(
    code: u16,
    description: &str,
    observed_at: i64,
    sunrise: i64,
    sunset: i64,
    temp_milli: i64,
) -> (r: String)
    requires
        -8000000000000 <= sunrise <= 8000000000000,
        -8000000000000 <= sunset <= 8000000000000,
        temp_milli > i64::MIN,
    ensures
        exists|sr: Seq<char>, ss: Seq<char>|
            is_hhmm(sr) && is_hhmm(ss) && r@ == line_view(
                icon_view(
                    spec_classify(code),
                    spec_is_daytime(observed_at as int, sunrise as int, sunset as int),
                ),
                description@,
                band_color(spec_band(temp_milli as int)),
                temp_view(temp_milli as int),
                sr,
                ss,
            ),
{
    let day = is_daytime(observed_at, sunrise, sunset);
    let sunrise_hm = local_hhmm(sunrise);
    let sunset_hm = local_hhmm(sunset);
    let r = format_short_weather(
        code,
        description,
        temp_milli,
        day,
        sunrise_hm.as_str(),
        sunset_hm.as_str(),
    );
    proof {
        assert(is_hhmm(sunrise_hm@) && is_hhmm(sunset_hm@) && r@ == line_view(
            icon_view(
                spec_classify(code),
                spec_is_daytime(observed_at as int, sunrise as int, sunset as int),
            ),
            description@,
            band_color(spec_band(temp_milli as int)),
            temp_view(temp_milli as int),
            sunrise_hm@,
            sunset_hm@,
        ));
    }
    r
}

} // verus!
