use vstd::prelude::*;
use crate::calendar::{day_label, day_label_of, ymd_date_of};
use crate::condition::{condition_label, condition_of, Condition};

verus! {

/// How many days the forecast shows, starting with tomorrow.
pub const FORECAST_DAYS: usize = 7;

/// How many daily entries a response must hold: today and the forecast days.
pub const DAILY_ENTRIES: usize = 8;

/// One day of the forecast. Temperatures are in tenths of a degree Celsius.
#[derive(Clone, Debug)]
pub struct ForecastDay {
    pub day_name: String,
    pub high_tenths: i64,
    pub low_tenths: i64,
    pub condition: Condition,
}

/// The weather as of one successful fetch: the current temperature (tenths
/// of a degree Celsius) and condition, and the forecast for the coming days
/// in chronological order.
#[derive(Clone, Debug)]
pub struct WeatherData {
    pub current_temp_tenths: i64,
    pub current_condition: Condition,
    pub forecast: Vec<ForecastDay>,
}

/// The decoded body of a forecast response. The daily series are indexed
/// alike, entry 0 being today; temperatures are in tenths of a degree Celsius.
#[derive(Clone, Debug)]
pub struct ForecastResponse {
    pub current_temp_tenths: i64,
    pub current_code: i64,
    pub time: Vec<String>,
    pub weather_code: Vec<i64>,
    pub temperature_max_tenths: Vec<i64>,
    pub temperature_min_tenths: Vec<i64>,
}

impl ForecastResponse {
    /// Every daily series holds today and all the forecast days.
    pub open spec fn is_complete(&self) -> bool {
        self.time@.len() >= DAILY_ENTRIES && self.weather_code@.len() >= DAILY_ENTRIES
            && self.temperature_max_tenths@.len() >= DAILY_ENTRIES
            && self.temperature_min_tenths@.len() >= DAILY_ENTRIES
    }
}

/// `d` is the forecast day built from daily entry `i` of `resp`.
pub open spec fn is_day_from(d: ForecastDay, resp: ForecastResponse, i: int) -> bool {
    &&& d.day_name@ == day_label_of(resp.time@[i]@)
    &&& d.high_tenths == resp.temperature_max_tenths@[i]
    &&& d.low_tenths == resp.temperature_min_tenths@[i]
    &&& d.condition == condition_of(resp.weather_code@[i] as int)
}

/// `w` is the weather that `resp` describes: its current values, and one
/// forecast day for each of the daily entries 1 to 7, in that order.
pub open spec fn is_weather_of(w: WeatherData, resp: ForecastResponse) -> bool {
    &&& w.current_temp_tenths == resp.current_temp_tenths
    &&& w.current_condition == condition_of(resp.current_code as int)
    &&& w.forecast@.len() == FORECAST_DAYS
    &&& forall|i: int| 0 <= i < FORECAST_DAYS ==> is_day_from(#[trigger] w.forecast@[i], resp, i + 1)
}

/// Builds the forecast day of daily entry `i` of `resp`.
pub fn forecast_day_at(resp: &ForecastResponse, i: usize) -> (d: ForecastDay)
    requires
        resp.is_complete(),
        i < DAILY_ENTRIES,
    ensures
        is_day_from(d, *resp, i as int),
{
    ForecastDay {
        day_name: day_label(resp.time[i].as_str()),
        high_tenths: resp.temperature_max_tenths[i],
        low_tenths: resp.temperature_min_tenths[i],
        condition: condition_label(resp.weather_code[i]),
    }
}

/// Reads a decoded response into the weather it describes, skipping today's
/// entry. A response whose daily series are too short gives `None`.
pub fn parse_forecast(resp: &ForecastResponse) -> (r: Option<WeatherData>)
    ensures
        r is Some <==> resp.is_complete(),
        r matches Some(w) ==> is_weather_of(w, *resp),
{
    if resp.time.len() < DAILY_ENTRIES || resp.weather_code.len() < DAILY_ENTRIES
        || resp.temperature_max_tenths.len() < DAILY_ENTRIES || resp.temperature_min_tenths.len()
        < DAILY_ENTRIES {
        return None;
    }
    let mut forecast: Vec<ForecastDay> = Vec::new();
    let mut i: usize = 1;
    while i < DAILY_ENTRIES
        invariant
            1 <= i <= DAILY_ENTRIES,
            resp.is_complete(),
            forecast@.len() == i - 1,
            forall|j: int| 0 <= j < forecast@.len() ==> is_day_from(#[trigger] forecast@[j], *resp, j + 1),
        decreases DAILY_ENTRIES - i,
    {
        let d = forecast_day_at(resp, i);
        forecast.push(d);
        i = i + 1;
    }
    Some(
        WeatherData {
            current_temp_tenths: resp.current_temp_tenths,
            current_condition: condition_label(resp.current_code),
            forecast,
        },
    )
}

/// A daily entry whose date text is no valid date still gives its forecast
/// day, labelled "???", and the response is read in full all the same.
pub proof fn lemma_unparsed_date_placeholder(w: WeatherData, resp: ForecastResponse, k: int)
    requires
        is_weather_of(w, resp),
        1 <= k < DAILY_ENTRIES,
        ymd_date_of(resp.time@[k]@) is None,
    ensures
        w.forecast@.len() == FORECAST_DAYS,
        w.forecast@[k - 1].day_name@ == "???"@,
        w.forecast@[k - 1].high_tenths == resp.temperature_max_tenths@[k],
        w.forecast@[k - 1].low_tenths == resp.temperature_min_tenths@[k],
        w.forecast@[k - 1].condition == condition_of(resp.weather_code@[k] as int),
{
    assert(is_day_from(w.forecast@[k - 1], resp, k));
}

} // verus!
