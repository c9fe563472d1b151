use weathervane::weather::{
    arrow, forecast_slots, is_daytime, radar_on_top, weather_icon, AtmosphereType, CloudsType,
    DrizzleType, RainType, SnowType, ThunderstormType, WeatherCondition, WeatherIcon,
};

#[test]
fn condition_groups_by_hundreds() {
    assert_eq!(
        WeatherCondition::from(201),
        WeatherCondition::Thunderstorm(ThunderstormType::ThunderstormWithRain)
    );
    assert_eq!(
        WeatherCondition::from(299),
        WeatherCondition::Thunderstorm(ThunderstormType::Unknown(299))
    );
    assert_eq!(WeatherCondition::from(321), WeatherCondition::Drizzle(DrizzleType::ShowerDrizzle));
    assert_eq!(WeatherCondition::from(511), WeatherCondition::Rain(RainType::FreezingRain));
    assert_eq!(WeatherCondition::from(622), WeatherCondition::Snow(SnowType::HeavyShowerSnow));
    assert_eq!(WeatherCondition::from(701), WeatherCondition::Atmosphere(AtmosphereType::Mist));
    assert_eq!(WeatherCondition::from(800), WeatherCondition::Clear);
    assert_eq!(WeatherCondition::from(804), WeatherCondition::Clouds(CloudsType::OvercastClouds));
    assert_eq!(WeatherCondition::from(899), WeatherCondition::Clouds(CloudsType::Unknown(899)));
    assert_eq!(WeatherCondition::from(450), WeatherCondition::Unknown(450));
    assert_eq!(WeatherCondition::from(900), WeatherCondition::Unknown(900));
    assert_eq!(WeatherCondition::from(0), WeatherCondition::Unknown(0));
}

#[test]
fn subtypes_from_codes() {
    assert_eq!(ThunderstormType::from(232), ThunderstormType::ThunderstormWithHeavyDrizzle);
    assert_eq!(DrizzleType::from(300), DrizzleType::LightIntensityDrizzle);
    assert_eq!(RainType::from(531), RainType::RaggedShowerRain);
    assert_eq!(SnowType::from(615), SnowType::LightRainAndSnow);
    assert_eq!(AtmosphereType::from(781), AtmosphereType::Tornado);
    assert_eq!(CloudsType::from(801), CloudsType::FewClouds);
    assert_eq!(SnowType::from(603), SnowType::Unknown(603));
}

#[test]
fn wind_arrows() {
    assert_eq!(arrow(0), "\u{21d1}");
    assert_eq!(arrow(22), "\u{21d1}");
    assert_eq!(arrow(23), "\u{21d7}");
    assert_eq!(arrow(90), "\u{21d2}");
    assert_eq!(arrow(135), "\u{21d8}");
    assert_eq!(arrow(180), "\u{21d3}");
    assert_eq!(arrow(225), "\u{21d9}");
    assert_eq!(arrow(270), "\u{21d0}");
    assert_eq!(arrow(337), "\u{21d6}");
    assert_eq!(arrow(338), "\u{21d1}");
    assert_eq!(arrow(360), "\u{21d1}");
}

#[test]
fn daytime_between_sunrise_and_sunset() {
    assert!(is_daytime(100, Some(50), Some(200)));
    assert!(!is_daytime(50, Some(50), Some(200)));
    assert!(!is_daytime(250, Some(50), Some(200)));
    assert!(is_daytime(250, None, Some(200)));
    assert!(is_daytime(250, Some(50), None));
}

#[test]
fn icons_for_conditions() {
    let c = |code: u16| Some(WeatherCondition::from(code));
    assert_eq!(weather_icon(c(200), true, None), WeatherIcon::Thunder);
    assert_eq!(weather_icon(c(211), true, None), WeatherIcon::Thunderstorm);
    assert_eq!(weather_icon(c(301), true, Some(50)), WeatherIcon::SunAndRain);
    assert_eq!(weather_icon(c(301), true, Some(51)), WeatherIcon::Rain);
    assert_eq!(weather_icon(c(511), true, None), WeatherIcon::Sleet);
    assert_eq!(weather_icon(c(500), true, None), WeatherIcon::Umbrella);
    assert_eq!(weather_icon(c(612), true, None), WeatherIcon::Hail);
    assert_eq!(weather_icon(c(616), true, None), WeatherIcon::Sleet);
    assert_eq!(weather_icon(c(600), true, None), WeatherIcon::Snow);
    assert_eq!(weather_icon(c(601), true, None), WeatherIcon::Snowflake);
    assert_eq!(weather_icon(c(781), false, None), WeatherIcon::Tornado);
    assert_eq!(weather_icon(c(771), false, None), WeatherIcon::Windy);
    assert_eq!(weather_icon(c(741), true, None), WeatherIcon::DayFog);
    assert_eq!(weather_icon(c(741), false, None), WeatherIcon::NightFog);
    assert_eq!(weather_icon(c(800), true, None), WeatherIcon::Sun);
    assert_eq!(weather_icon(c(800), false, None), WeatherIcon::Moon);
    assert_eq!(weather_icon(c(802), true, Some(40)), WeatherIcon::SunAndClouds);
    assert_eq!(weather_icon(c(802), false, Some(40)), WeatherIcon::MoonAndClouds);
    assert_eq!(weather_icon(c(804), true, Some(90)), WeatherIcon::Clouds);
    assert_eq!(weather_icon(c(804), true, None), WeatherIcon::Clouds);
    assert_eq!(weather_icon(c(950), true, None), WeatherIcon::Thermometer);
    assert_eq!(weather_icon(None, true, None), WeatherIcon::Thermometer);
}

#[test]
fn radar_flips_daily() {
    assert!(radar_on_top(2));
    assert!(!radar_on_top(1));
    assert!(!radar_on_top(31));
}

#[test]
fn forecasts_skip_the_past_and_every_other_hour() {
    let times: Vec<i64> = (0..48).map(|h| 1_000 + 3600 * h).collect();
    assert_eq!(forecast_slots(&times, 1_000), vec![1, 3, 5, 7, 9]);
    assert_eq!(forecast_slots(&times, 999), vec![0, 2, 4, 6, 8]);
    assert_eq!(forecast_slots(&times, 1_000 + 3600 * 44), vec![45, 47]);
    assert_eq!(forecast_slots(&times, 1_000 + 3600 * 47), Vec::<usize>::new());
    assert_eq!(forecast_slots(&vec![], 0), Vec::<usize>::new());
    assert_eq!(forecast_slots(&vec![5, 1, 6, 2, 7, 8], 4), vec![0, 4]);
}
