//! Weather condition codes and what the display shows for them.
use vstd::prelude::*;

verus! {

/// A weather condition, grouped by the hundreds of its code.
#[derive(Clone, Copy, Debug, PartialEq, Eq, Structural)]
pub enum WeatherCondition {
    Thunderstorm(ThunderstormType),
    Drizzle(DrizzleType),
    Rain(RainType),
    Snow(SnowType),
    Atmosphere(AtmosphereType),
    Clear,
    Clouds(CloudsType),
    Unknown(u16),
}

/// The condition that a code stands for.
pub open spec fn condition_of(code: u16) -> WeatherCondition {
    if 200 <= code <= 299 {
        WeatherCondition::Thunderstorm(thunderstorm_type_of(code))
    } else if 300 <= code <= 399 {
        WeatherCondition::Drizzle(drizzle_type_of(code))
    } else if 500 <= code <= 599 {
        WeatherCondition::Rain(rain_type_of(code))
    } else if 600 <= code <= 699 {
        WeatherCondition::Snow(snow_type_of(code))
    } else if 700 <= code <= 799 {
        WeatherCondition::Atmosphere(atmosphere_type_of(code))
    } else if code == 800 {
        WeatherCondition::Clear
    } else if 801 <= code <= 899 {
        WeatherCondition::Clouds(clouds_type_of(code))
    } else {
        WeatherCondition::Unknown(code)
    }
}

impl From<u16> for WeatherCondition {
    fn from(data: u16) -> Self {
        if 200 <= data && data <= 299 {
            WeatherCondition::Thunderstorm(ThunderstormType::from(data))
        } else if 300 <= data && data <= 399 {
            WeatherCondition::Drizzle(DrizzleType::from(data))
        } else if 500 <= data && data <= 599 {
            WeatherCondition::Rain(RainType::from(data))
        } else if 600 <= data && data <= 699 {
            WeatherCondition::Snow(SnowType::from(data))
        } else if 700 <= data && data <= 799 {
            WeatherCondition::Atmosphere(AtmosphereType::from(data))
        } else if data == 800 {
            WeatherCondition::Clear
        } else if 801 <= data && data <= 899 {
            WeatherCondition::Clouds(CloudsType::from(data))
        } else {
            WeatherCondition::Unknown(data)
        }
    }
}

impl vstd::std_specs::convert::FromSpecImpl<u16> for WeatherCondition {
    open spec fn obeys_from_spec() -> bool {
        true
    }

    open spec fn from_spec(v: u16) -> Self {
        condition_of(v)
    }
}

/// Thunderstorm subtypes, from their condition codes.
#[derive(Clone, Copy, Debug, PartialEq, Eq, Structural)]
pub enum ThunderstormType {
    ThunderstormWithLightRain,
    ThunderstormWithRain,
    ThunderstormWithHeavyRain,
    LightThunderstorm,
    Thunderstorm,
    HeavyThunderstorm,
    RaggedThunderstorm,
    ThunderstormWithLightDrizzle,
    ThunderstormWithDrizzle,
    ThunderstormWithHeavyDrizzle,
    Unknown(u16),
}

/// The subtype that a code stands for.
pub open spec fn thunderstorm_type_of(code: u16) -> ThunderstormType {
    if code == 200 {
        ThunderstormType::ThunderstormWithLightRain
    } else if code == 201 {
        ThunderstormType::ThunderstormWithRain
    } else if code == 202 {
        ThunderstormType::ThunderstormWithHeavyRain
    } else if code == 210 {
        ThunderstormType::LightThunderstorm
    } else if code == 211 {
        ThunderstormType::Thunderstorm
    } else if code == 212 {
        ThunderstormType::HeavyThunderstorm
    } else if code == 221 {
        ThunderstormType::RaggedThunderstorm
    } else if code == 230 {
        ThunderstormType::ThunderstormWithLightDrizzle
    } else if code == 231 {
        ThunderstormType::ThunderstormWithDrizzle
    } else if code == 232 {
        ThunderstormType::ThunderstormWithHeavyDrizzle
    } else {
        ThunderstormType::Unknown(code)
    }
}

impl From<u16> for ThunderstormType {
    fn from(data: u16) -> Self {
        match data {
            200 => ThunderstormType::ThunderstormWithLightRain,
            201 => ThunderstormType::ThunderstormWithRain,
            202 => ThunderstormType::ThunderstormWithHeavyRain,
            210 => ThunderstormType::LightThunderstorm,
            211 => ThunderstormType::Thunderstorm,
            212 => ThunderstormType::HeavyThunderstorm,
            221 => ThunderstormType::RaggedThunderstorm,
            230 => ThunderstormType::ThunderstormWithLightDrizzle,
            231 => ThunderstormType::ThunderstormWithDrizzle,
            232 => ThunderstormType::ThunderstormWithHeavyDrizzle,
            _ => ThunderstormType::Unknown(data),
        }
    }
}

impl vstd::std_specs::convert::FromSpecImpl<u16> for ThunderstormType {
    open spec fn obeys_from_spec() -> bool {
        true
    }

    open spec fn from_spec(v: u16) -> Self {
        thunderstorm_type_of(v)
    }
}

/// Drizzle subtypes, from their condition codes.
#[derive(Clone, Copy, Debug, PartialEq, Eq, Structural)]
pub enum DrizzleType {
    LightIntensityDrizzle,
    Drizzle,
    HeavyIntensityDrizzle,
    LightIntensityDrizzleRain,
    DrizzleRain,
    HeavyIntensityDrizzleRain,
    ShowerRainAndDrizzle,
    HeavyShowerRainAndDrizzle,
    ShowerDrizzle,
    Unknown(u16),
}

/// The subtype that a code stands for.
pub open spec fn drizzle_type_of(code: u16) -> DrizzleType {
    if code == 300 {
        DrizzleType::LightIntensityDrizzle
    } else if code == 301 {
        DrizzleType::Drizzle
    } else if code == 302 {
        DrizzleType::HeavyIntensityDrizzle
    } else if code == 310 {
        DrizzleType::LightIntensityDrizzleRain
    } else if code == 311 {
        DrizzleType::DrizzleRain
    } else if code == 312 {
        DrizzleType::HeavyIntensityDrizzleRain
    } else if code == 313 {
        DrizzleType::ShowerRainAndDrizzle
    } else if code == 314 {
        DrizzleType::HeavyShowerRainAndDrizzle
    } else if code == 321 {
        DrizzleType::ShowerDrizzle
    } else {
        DrizzleType::Unknown(code)
    }
}

impl From<u16> for DrizzleType {
    fn from(data: u16) -> Self {
        match data {
            300 => DrizzleType::LightIntensityDrizzle,
            301 => DrizzleType::Drizzle,
            302 => DrizzleType::HeavyIntensityDrizzle,
            310 => DrizzleType::LightIntensityDrizzleRain,
            311 => DrizzleType::DrizzleRain,
            312 => DrizzleType::HeavyIntensityDrizzleRain,
            313 => DrizzleType::ShowerRainAndDrizzle,
            314 => DrizzleType::HeavyShowerRainAndDrizzle,
            321 => DrizzleType::ShowerDrizzle,
            _ => DrizzleType::Unknown(data),
        }
    }
}

impl vstd::std_specs::convert::FromSpecImpl<u16> for DrizzleType {
    open spec fn obeys_from_spec() -> bool {
        true
    }

    open spec fn from_spec(v: u16) -> Self {
        drizzle_type_of(v)
    }
}

/// Rain subtypes, from their condition codes.
#[derive(Clone, Copy, Debug, PartialEq, Eq, Structural)]
pub enum RainType {
    LightRain,
    ModerateRain,
    HeavyIntensityRain,
    VeryHeavyRain,
    ExtremeRain,
    FreezingRain,
    LightIntensityShowerRain,
    ShowerRain,
    HeavyIntensityShowerRain,
    RaggedShowerRain,
    Unknown(u16),
}

/// The subtype that a code stands for.
pub open spec fn rain_type_of(code: u16) -> RainType {
    if code == 500 {
        RainType::LightRain
    } else if code == 501 {
        RainType::ModerateRain
    } else if code == 502 {
        RainType::HeavyIntensityRain
    } else if code == 503 {
        RainType::VeryHeavyRain
    } else if code == 504 {
        RainType::ExtremeRain
    } else if code == 511 {
        RainType::FreezingRain
    } else if code == 520 {
        RainType::LightIntensityShowerRain
    } else if code == 521 {
        RainType::ShowerRain
    } else if code == 522 {
        RainType::HeavyIntensityShowerRain
    } else if code == 531 {
        RainType::RaggedShowerRain
    } else {
        RainType::Unknown(code)
    }
}

impl From<u16> for RainType {
    fn from(data: u16) -> Self {
        match data {
            500 => RainType::LightRain,
            501 => RainType::ModerateRain,
            502 => RainType::HeavyIntensityRain,
            503 => RainType::VeryHeavyRain,
            504 => RainType::ExtremeRain,
            511 => RainType::FreezingRain,
            520 => RainType::LightIntensityShowerRain,
            521 => RainType::ShowerRain,
            522 => RainType::HeavyIntensityShowerRain,
            531 => RainType::RaggedShowerRain,
            _ => RainType::Unknown(data),
        }
    }
}

impl vstd::std_specs::convert::FromSpecImpl<u16> for RainType {
    open spec fn obeys_from_spec() -> bool {
        true
    }

    open spec fn from_spec(v: u16) -> Self {
        rain_type_of(v)
    }
}

/// Snow subtypes, from their condition codes.
#[derive(Clone, Copy, Debug, PartialEq, Eq, Structural)]
pub enum SnowType {
    LightSnow,
    Snow,
    HeavySnow,
    Sleet,
    LightShowerSleet,
    ShowerSleet,
    LightRainAndSnow,
    RainAndSnow,
    LightShowerSnow,
    ShowerSnow,
    HeavyShowerSnow,
    Unknown(u16),
}

/// The subtype that a code stands for.
pub open spec fn snow_type_of(code: u16) -> SnowType {
    if code == 600 {
        SnowType::LightSnow
    } else if code == 601 {
        SnowType::Snow
    } else if code == 602 {
        SnowType::HeavySnow
    } else if code == 611 {
        SnowType::Sleet
    } else if code == 612 {
        SnowType::LightShowerSleet
    } else if code == 613 {
        SnowType::ShowerSleet
    } else if code == 615 {
        SnowType::LightRainAndSnow
    } else if code == 616 {
        SnowType::RainAndSnow
    } else if code == 620 {
        SnowType::LightShowerSnow
    } else if code == 621 {
        SnowType::ShowerSnow
    } else if code == 622 {
        SnowType::HeavyShowerSnow
    } else {
        SnowType::Unknown(code)
    }
}

impl From<u16> for SnowType {
    fn from(data: u16) -> Self {
        match data {
            600 => SnowType::LightSnow,
            601 => SnowType::Snow,
            602 => SnowType::HeavySnow,
            611 => SnowType::Sleet,
            612 => SnowType::LightShowerSleet,
            613 => SnowType::ShowerSleet,
            615 => SnowType::LightRainAndSnow,
            616 => SnowType::RainAndSnow,
            620 => SnowType::LightShowerSnow,
            621 => SnowType::ShowerSnow,
            622 => SnowType::HeavyShowerSnow,
            _ => SnowType::Unknown(data),
        }
    }
}

impl vstd::std_specs::convert::FromSpecImpl<u16> for SnowType {
    open spec fn obeys_from_spec() -> bool {
        true
    }

    open spec fn from_spec(v: u16) -> Self {
        snow_type_of(v)
    }
}

/// Atmosphere subtypes, from their condition codes.
#[derive(Clone, Copy, Debug, PartialEq, Eq, Structural)]
pub enum AtmosphereType {
    Mist,
    Smoke,
    Haze,
    SandDustWhirls,
    Fog,
    Sand,
    Dust,
    VolcanicAsh,
    Squalls,
    Tornado,
    Unknown(u16),
}

/// The subtype that a code stands for.
pub open spec fn atmosphere_type_of(code: u16) -> AtmosphereType {
    if code == 701 {
        AtmosphereType::Mist
    } else if code == 711 {
        AtmosphereType::Smoke
    } else if code == 721 {
        AtmosphereType::Haze
    } else if code == 731 {
        AtmosphereType::SandDustWhirls
    } else if code == 741 {
        AtmosphereType::Fog
    } else if code == 751 {
        AtmosphereType::Sand
    } else if code == 761 {
        AtmosphereType::Dust
    } else if code == 762 {
        AtmosphereType::VolcanicAsh
    } else if code == 771 {
        AtmosphereType::Squalls
    } else if code == 781 {
        AtmosphereType::Tornado
    } else {
        AtmosphereType::Unknown(code)
    }
}

impl From<u16> for AtmosphereType {
    fn from(data: u16) -> Self {
        match data {
            701 => AtmosphereType::Mist,
            711 => AtmosphereType::Smoke,
            721 => AtmosphereType::Haze,
            731 => AtmosphereType::SandDustWhirls,
            741 => AtmosphereType::Fog,
            751 => AtmosphereType::Sand,
            761 => AtmosphereType::Dust,
            762 => AtmosphereType::VolcanicAsh,
            771 => AtmosphereType::Squalls,
            781 => AtmosphereType::Tornado,
            _ => AtmosphereType::Unknown(data),
        }
    }
}

impl vstd::std_specs::convert::FromSpecImpl<u16> for AtmosphereType {
    open spec fn obeys_from_spec() -> bool {
        true
    }

    open spec fn from_spec(v: u16) -> Self {
        atmosphere_type_of(v)
    }
}

/// Cloud subtypes, from their condition codes.
#[derive(Clone, Copy, Debug, PartialEq, Eq, Structural)]
pub enum CloudsType {
    FewClouds,
    ScatteredClouds,
    BrokenClouds,
    OvercastClouds,
    Unknown(u16),
}

/// The subtype that a code stands for.
pub open spec fn clouds_type_of(code: u16) -> CloudsType {
    if code == 801 {
        CloudsType::FewClouds
    } else if code == 802 {
        CloudsType::ScatteredClouds
    } else if code == 803 {
        CloudsType::BrokenClouds
    } else if code == 804 {
        CloudsType::OvercastClouds
    } else {
        CloudsType::Unknown(code)
    }
}

impl From<u16> for CloudsType {
    fn from(data: u16) -> Self {
        match data {
            801 => CloudsType::FewClouds,
            802 => CloudsType::ScatteredClouds,
            803 => CloudsType::BrokenClouds,
            804 => CloudsType::OvercastClouds,
            _ => CloudsType::Unknown(data),
        }
    }
}

impl vstd::std_specs::convert::FromSpecImpl<u16> for CloudsType {
    open spec fn obeys_from_spec() -> bool {
        true
    }

    open spec fn from_spec(v: u16) -> Self {
        clouds_type_of(v)
    }
}

/// The arrow that points the way a wind from `direction` degrees blows from:
/// one of eight, each covering 45 degrees around its heading.
pub open spec fn arrow_of(direction: u16) -> Seq<char> {
    if 23 <= direction <= 67 {
        "\u{21d7}"@
    } else if 68 <= direction <= 112 {
        "\u{21d2}"@
    } else if 113 <= direction <= 157 {
        "\u{21d8}"@
    } else if 158 <= direction <= 202 {
        "\u{21d3}"@
    } else if 203 <= direction <= 247 {
        "\u{21d9}"@
    } else if 248 <= direction <= 292 {
        "\u{21d0}"@
    } else if 293 <= direction <= 337 {
        "\u{21d6}"@
    } else {
        "\u{21d1}"@
    }
}

/// The wind arrow for a direction in degrees.
pub fn arrow(direction: u16) -> (glyph: &'static str)
    ensures
        glyph@ == arrow_of(direction),
{
    if 23 <= direction && direction <= 67 {
        "\u{21d7}"
    } else if 68 <= direction && direction <= 112 {
        "\u{21d2}"
    } else if 113 <= direction && direction <= 157 {
        "\u{21d8}"
    } else if 158 <= direction && direction <= 202 {
        "\u{21d3}"
    } else if 203 <= direction && direction <= 247 {
        "\u{21d9}"
    } else if 248 <= direction && direction <= 292 {
        "\u{21d0}"
    } else if 293 <= direction && direction <= 337 {
        "\u{21d6}"
    } else {
        "\u{21d1}"
    }
}

/// The icons that stand for the weather.
#[derive(Clone, Copy, Debug, PartialEq, Eq, Structural)]
pub enum WeatherIcon {
    Thunder,
    Thunderstorm,
    SunAndRain,
    Rain,
    Umbrella,
    Sleet,
    Hail,
    Snow,
    Snowflake,
    Tornado,
    Windy,
    DayFog,
    NightFog,
    Sun,
    Moon,
    SunAndClouds,
    MoonAndClouds,
    Clouds,
    Thermometer,
}

/// Whether `time` lies strictly between sunrise and sunset, all in seconds
/// since the Unix epoch; without both it counts as day.
pub open spec fn daytime_at(time: i64, sunrise: Option<i64>, sunset: Option<i64>) -> bool {
    match (sunrise, sunset) {
        (Some(rise), Some(set)) => rise < time && time < set,
        _ => true,
    }
}

/// Whether the sky is at most half covered; without a cloud cover it is not.
pub open spec fn partly_cloudy(clouds: Option<u8>) -> bool {
    match clouds {
        Some(cover) => cover <= 50,
        None => false,
    }
}

/// The icon for a condition, by day or by night, under a cloud cover in percent.
pub open spec fn icon_of(condition: Option<WeatherCondition>, daytime: bool, clouds: Option<u8>) -> WeatherIcon {
    let partly = partly_cloudy(clouds);
    match condition {
        Some(WeatherCondition::Thunderstorm(kind)) => match kind {
            ThunderstormType::ThunderstormWithLightRain
            | ThunderstormType::ThunderstormWithRain
            | ThunderstormType::ThunderstormWithHeavyRain => WeatherIcon::Thunder,
            _ => WeatherIcon::Thunderstorm,
        },
        Some(WeatherCondition::Drizzle(_)) => if partly {
            WeatherIcon::SunAndRain
        } else {
            WeatherIcon::Rain
        },
        Some(WeatherCondition::Rain(kind)) => if kind == RainType::FreezingRain {
            WeatherIcon::Sleet
        } else {
            WeatherIcon::Umbrella
        },
        Some(WeatherCondition::Snow(kind)) => match kind {
            SnowType::Sleet | SnowType::LightShowerSleet | SnowType::ShowerSleet => WeatherIcon::Hail,
            SnowType::LightRainAndSnow
            | SnowType::RainAndSnow
            | SnowType::LightShowerSnow
            | SnowType::ShowerSnow
            | SnowType::HeavyShowerSnow => WeatherIcon::Sleet,
            SnowType::LightSnow => WeatherIcon::Snow,
            _ => WeatherIcon::Snowflake,
        },
        Some(WeatherCondition::Atmosphere(kind)) => match kind {
            AtmosphereType::Tornado => WeatherIcon::Tornado,
            AtmosphereType::Squalls => WeatherIcon::Windy,
            _ => if daytime {
                WeatherIcon::DayFog
            } else {
                WeatherIcon::NightFog
            },
        },
        Some(WeatherCondition::Clear) => if daytime {
            WeatherIcon::Sun
        } else {
            WeatherIcon::Moon
        },
        Some(WeatherCondition::Clouds(_)) => if partly && daytime {
            WeatherIcon::SunAndClouds
        } else if partly {
            WeatherIcon::MoonAndClouds
        } else {
            WeatherIcon::Clouds
        },
        _ => WeatherIcon::Thermometer,
    }
}

/// Whether `time` falls between sunrise and sunset.
pub fn is_daytime(time: i64, sunrise: Option<i64>, sunset: Option<i64>) -> (day: bool)
    ensures
        day == daytime_at(time, sunrise, sunset),
{
    match (sunrise, sunset) {
        (Some(rise), Some(set)) => rise < time && time < set,
        _ => true,
    }
}

/// The icon that shows a condition at a time of day and under a cloud cover.
pub fn weather_icon(condition: Option<WeatherCondition>, daytime: bool, clouds: Option<u8>) -> (icon: WeatherIcon)
    ensures
        icon == icon_of(condition, daytime, clouds),
{
    let partly = match clouds {
        Some(cover) => cover <= 50,
        None => false,
    };
    match condition {
        Some(WeatherCondition::Thunderstorm(kind)) => match kind {
            ThunderstormType::ThunderstormWithLightRain
            | ThunderstormType::ThunderstormWithRain
            | ThunderstormType::ThunderstormWithHeavyRain => WeatherIcon::Thunder,
            _ => WeatherIcon::Thunderstorm,
        },
        Some(WeatherCondition::Drizzle(_)) => if partly {
            WeatherIcon::SunAndRain
        } else {
            WeatherIcon::Rain
        },
        Some(WeatherCondition::Rain(kind)) => match kind {
            RainType::FreezingRain => WeatherIcon::Sleet,
            _ => WeatherIcon::Umbrella,
        },
        Some(WeatherCondition::Snow(kind)) => match kind {
            SnowType::Sleet | SnowType::LightShowerSleet | SnowType::ShowerSleet => WeatherIcon::Hail,
            SnowType::LightRainAndSnow
            | SnowType::RainAndSnow
            | SnowType::LightShowerSnow
            | SnowType::ShowerSnow
            | SnowType::HeavyShowerSnow => WeatherIcon::Sleet,
            SnowType::LightSnow => WeatherIcon::Snow,
            _ => WeatherIcon::Snowflake,
        },
        Some(WeatherCondition::Atmosphere(kind)) => match kind {
            AtmosphereType::Tornado => WeatherIcon::Tornado,
            AtmosphereType::Squalls => WeatherIcon::Windy,
            _ => if daytime {
                WeatherIcon::DayFog
            } else {
                WeatherIcon::NightFog
            },
        },
        Some(WeatherCondition::Clear) => if daytime {
            WeatherIcon::Sun
        } else {
            WeatherIcon::Moon
        },
        Some(WeatherCondition::Clouds(_)) => if partly && daytime {
            WeatherIcon::SunAndClouds
        } else if partly {
            WeatherIcon::MoonAndClouds
        } else {
            WeatherIcon::Clouds
        },
        _ => WeatherIcon::Thermometer,
    }
}

/// Whether the radar map goes on top on a day of the month: the layout flips
/// every day so that no part of the panel always shows the same thing.
pub fn radar_on_top(day_of_month: u8) -> (on_top: bool)
    ensures
        on_top == (day_of_month % 2 == 0),
{
    day_of_month % 2 == 0
}

/// Number of hourly forecasts shown.
pub const FORECAST_SLOTS: usize = 5;

/// Positions, in order, of the entries of `times` that lie after `now`.
pub open spec fn later_indices(times: Seq<i64>, now: i64) -> Seq<int>
    decreases times.len(),
{
    if times.len() == 0 {
        Seq::empty()
    } else {
        let rest = later_indices(times.drop_last(), now);
        if times.last() > now {
            rest.push(times.len() - 1)
        } else {
            rest
        }
    }
}

/// Number of forecasts shown out of `later` entries after the present one.
pub open spec fn slot_count(later: nat) -> nat {
    if (later + 1) / 2 < FORECAST_SLOTS {
        ((later + 1) / 2) as nat
    } else {
        FORECAST_SLOTS as nat
    }
}

/// The forecasts shown: every other entry after `now`, starting with the
/// first, at most `FORECAST_SLOTS` of them.
pub open spec fn forecast_of(times: Seq<i64>, now: i64) -> Seq<int> {
    let later = later_indices(times, now);
    Seq::new(slot_count(later.len()), |k: int| later[2 * k])
}

/// Picks the hourly forecasts to show from their times, in seconds since the
/// Unix epoch, given the time of the current conditions; returns their positions.
pub fn forecast_slots(times: &Vec<i64>, now: i64) -> (slots: Vec<usize>)
    ensures
        slots@.map_values(|i: usize| i as int) == forecast_of(times@, now),
{
    let mut slots: Vec<usize> = Vec::new();
    let mut count: usize = 0;
    let mut i: usize = 0;
    while i < times.len()
        invariant
            i <= times@.len(),
            count <= i,
            later_indices(times@.take(i as int), now).len() == count,
            forall|j: int|
                0 <= j < count ==> 0 <= #[trigger] later_indices(times@.take(i as int), now)[j] < i,
            slots@.map_values(|x: usize| x as int) =~= forecast_of(times@.take(i as int), now),
        decreases times@.len() - i,
    {
        let ghost before = later_indices(times@.take(i as int), now);
        let ghost old_slots = slots@;
        assert(times@.take(i + 1).drop_last() =~= times@.take(i as int));
        if times[i] > now {
            let ghost after = before.push(i as int);
            assert(later_indices(times@.take(i + 1), now) == after);
            if count % 2 == 0 && slots.len() < FORECAST_SLOTS {
                slots.push(i);
                assert(slots@.map_values(|x: usize| x as int) =~= old_slots.map_values(
                    |x: usize| x as int,
                ).push(i as int));
            }
            count = count + 1;
        } else {
            assert(later_indices(times@.take(i + 1), now) == before);
        }
        i = i + 1;
    }
    assert(times@.take(i as int) =~= times@);
    slots
}

} // verus!
