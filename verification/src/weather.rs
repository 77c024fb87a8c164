//! Weather data and the decisions around fetching it.
//!
//! The HTTP requests to the geocoding and forecast endpoints run outside
//! this crate; what lives here are the typed responses, the choice of city
//! identifier from a lookup answer, the acceptance test on a forecast, and
//! the summary lines the home page shows.

use vstd::prelude::*;
use vstd::string::StringExecFns;
use crate::textfmt::str_equal;

verus! {

/// A seven-day forecast answer.
#[derive(Debug, Clone)]
pub struct WeatherResponse {
    pub code: String,
    pub update_time: String,
    pub fx_link: String,
    pub daily: Vec<DailyWeather>,
    pub refer: Refer,
}

/// One day of the forecast.
#[derive(Debug, Clone)]
pub struct DailyWeather {
    pub fx_date: String,
    pub sunrise: String,
    pub sunset: String,
    pub moonrise: String,
    pub moonset: String,
    pub moon_phase: String,
    pub moon_phase_icon: String,
    pub temp_max: String,
    pub temp_min: String,
    pub icon_day: String,
    pub text_day: String,
    pub icon_night: String,
    pub text_night: String,
    pub wind360_day: String,
    pub wind_dir_day: String,
    pub wind_scale_day: String,
    pub wind_speed_day: String,
    pub wind360_night: String,
    pub wind_dir_night: String,
    pub wind_scale_night: String,
    pub wind_speed_night: String,
    pub humidity: String,
    pub precip: String,
    pub pressure: String,
    pub vis: String,
    pub cloud: String,
    pub uv_index: String,
}

/// Attribution carried by the forecast answer.
#[derive(Debug, Clone)]
pub struct Refer {
    pub sources: Vec<String>,
    pub license: Vec<String>,
}

/// A city-lookup answer.
#[derive(Debug, Clone)]
pub struct GeoResponse {
    pub code: String,
    pub location: Vec<Location>,
}

/// One city of a lookup answer.
#[derive(Debug, Clone)]
pub struct Location {
    pub name: String,
    pub id: String,
    pub lat: String,
    pub lon: String,
    pub adm2: String,
    pub adm1: String,
    pub country: String,
    pub tz: String,
}

/// Why a weather fetch was given up.
#[derive(Debug, Clone, Copy, PartialEq, Eq, Structural)]
pub enum WeatherError {
    /// The city lookup answered with an error code or no location.
    CityLookupFailed,
    /// The forecast answered with an error code.
    BadWeatherCode,
}

/// A weather client: which city it asks about, with which API key.
pub struct Weather {
    pub city: String,
    pub key: String,
}

impl Weather {
    /// A client for the given city and key.
    pub fn new(city: &str, key: &str) -> (r: Self)
        ensures
            r.city@ == city@,
            r.key@ == key@,
    {
        Weather { city: String::from_str(city), key: String::from_str(key) }
    }
}

/// A lookup answer names a usable city exactly when its code is `200` and
/// it lists at least one location.
pub open spec fn spec_geo_usable(geo: GeoResponse) -> bool {
    geo.code@ == "200"@ && geo.location@.len() > 0
}

/// Picks the city identifier from a lookup answer: the first listed
/// location's, exactly when the answer is usable.
pub fn pick_city_id(geo: &GeoResponse) -> (r: Result<String, WeatherError>)
    ensures
        r is Ok <==> spec_geo_usable(*geo),
        r matches Ok(id) ==> id@ == geo.location@[0].id@,
        r matches Err(e) ==> e == WeatherError::CityLookupFailed,
{
    proof {
        reveal_strlit("200");
    }
    if str_equal(geo.code.as_str(), "200") && geo.location.len() > 0 {
        Ok(geo.location[0].id.clone())
    } else {
        Err(WeatherError::CityLookupFailed)
    }
}

/// A forecast answer is accepted exactly when its code is `200`.
pub fn accept_weather(weather: &WeatherResponse) -> (r: bool)
    ensures
        r == (weather.code@ == "200"@),
{
    proof {
        reveal_strlit("200");
    }
    str_equal(weather.code.as_str(), "200")
}

/// The one-line summary of a forecast day the home page shows: the
/// temperature span and the day's text.
pub open spec fn spec_day_summary(day: DailyWeather) -> Seq<char> {
    day.temp_min@ + "-"@ + day.temp_max@ + " "@ + day.text_day@
}

/// Renders a forecast day's one-line summary.
pub fn day_summary(day: &DailyWeather) -> (r: String)
    ensures
        r@ == spec_day_summary(*day),
{
    proof {
        reveal_strlit("-");
        reveal_strlit(" ");
    }
    let mut out = day.temp_min.clone();
    out.append("-");
    out.append(day.temp_max.as_str());
    out.append(" ");
    out.append(day.text_day.as_str());
    out
}

impl WeatherResponse {
    /// The three summary lines the home page shows, one per day; nothing
    /// when the forecast is shorter than three days.
    pub fn get_ui_need_data(&self) -> (r: Option<[String; 3]>)
        ensures
            r is Some <==> self.daily@.len() >= 3,
            r matches Some(lines) ==> forall|i: int|
                0 <= i < 3 ==> (#[trigger] lines[i])@ == spec_day_summary(self.daily@[i]),
    {
        if self.daily.len() >= 3 {
            Some(
                [
                    day_summary(&self.daily[0]),
                    day_summary(&self.daily[1]),
                    day_summary(&self.daily[2]),
                ],
            )
        } else {
            None
        }
    }
}

} // verus!
