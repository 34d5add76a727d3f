use vstd::prelude::*;
use crate::calendar::{date_text, date_text_of, CalendarDate};
use crate::condition::condition_name;
use crate::forecast::{ForecastDay, WeatherData};
use crate::text::{
    int_text, push_int_text, push_two_digits, round_tenths, round_to_degrees, two_digit_text,
};

verus! {

/// The text of the clock: hours and minutes, two digits each, with a colon
/// between them when `show_colon` holds and a space of the same width else.
pub open spec fn time_text_of(hour: nat, minute: nat, show_colon: bool) -> Seq<char> {
    two_digit_text(hour) + (if show_colon {
        ":"@
    } else {
        " "@
    }) + two_digit_text(minute)
}

/// A temperature in tenths of a degree as whole degrees followed by "c".
pub open spec fn temperature_text_of(tenths: int) -> Seq<char> {
    int_text(round_tenths(tenths)) + "c"@
}

/// The line of one forecast day: "<day> <low>c/<high>c <condition>".
pub open spec fn forecast_line_of(d: ForecastDay) -> Seq<char> {
    d.day_name@ + " "@ + temperature_text_of(d.low_tenths as int) + "/"@ + temperature_text_of(
        d.high_tenths as int,
    ) + " "@ + condition_name(d.condition)
}

/// The lines of the forecast days, in order, joined by newlines.
pub open spec fn forecast_text_of(days: Seq<ForecastDay>) -> Seq<char>
    decreases days.len(),
{
    if days.len() == 0 {
        Seq::empty()
    } else if days.len() == 1 {
        forecast_line_of(days[0])
    } else {
        forecast_text_of(days.drop_last()) + "\n"@ + forecast_line_of(days.last())
    }
}

/// The text shown in the weather panel before any weather has come.
pub open spec fn loading_text() -> Seq<char> {
    "Loading..."@
}

/// The texts of the time panel.
#[derive(Clone, Debug)]
pub struct TimePanel {
    pub time: String,
    pub date: String,
}

/// The texts of the weather panel: a placeholder while no weather is known,
/// else the current temperature, the current condition and the forecast.
#[derive(Clone, Debug)]
pub enum WeatherPanel {
    Loading { text: String },
    Ready { current: String, condition: String, forecast: String },
}

/// The clock text for the given hour and minute.
pub fn time_text(hour: u32, minute: u32, show_colon: bool) -> (r: String)
    ensures
        r@ == time_text_of(hour as nat, minute as nat, show_colon),
{
    let mut s = String::new();
    push_two_digits(&mut s, hour);
    if show_colon {
        s.append(":");
    } else {
        s.append(" ");
    }
    push_two_digits(&mut s, minute);
    s
}

/// A temperature in tenths of a degree, rounded to whole degrees, with "c".
pub fn temperature_text(tenths: i64) -> (r: String)
    ensures
        r@ == temperature_text_of(tenths as int),
{
    let mut s = String::new();
    push_int_text(&mut s, round_to_degrees(tenths));
    s.append("c");
    s
}

/// The line shown for one forecast day.
pub fn forecast_line(d: &ForecastDay) -> (r: String)
    ensures
        r@ == forecast_line_of(*d),
{
    let mut s = d.day_name.clone();
    s.append(" ");
    s.append(temperature_text(d.low_tenths).as_str());
    s.append("/");
    s.append(temperature_text(d.high_tenths).as_str());
    s.append(" ");
    s.append(d.condition.name());
    s
}

/// The forecast lines of `days`, joined by newlines.
pub fn forecast_text(days: &Vec<ForecastDay>) -> (r: String)
    ensures
        r@ == forecast_text_of(days@),
{
    let mut s = String::new();
    let mut i: usize = 0;
    while i < days.len()
        invariant
            i <= days@.len(),
            s@ == forecast_text_of(days@.subrange(0, i as int)),
        decreases days@.len() - i,
    {
        if i > 0 {
            s.append("\n");
        }
        s.append(forecast_line(&days[i]).as_str());
        proof {
            let next = days@.subrange(0, i + 1);
            assert(next.drop_last() =~= days@.subrange(0, i as int));
            assert(next.last() == days@[i as int]);
        }
        i = i + 1;
    }
    assert(days@.subrange(0, days@.len() as int) =~= days@);
    s
}

/// The texts of the time panel for the given time of day and date.
pub fn time_panel(hour: u32, minute: u32, date: &CalendarDate, show_colon: bool) -> (r: TimePanel)
    ensures
        r.time@ == time_text_of(hour as nat, minute as nat, show_colon),
        r.date@ == date_text_of(*date),
{
    TimePanel { time: time_text(hour, minute, show_colon), date: date_text(date) }
}

/// The texts of the weather panel for the weather known so far, if any.
pub fn weather_panel(weather: Option<&WeatherData>) -> (r: WeatherPanel)
    ensures
        weather is None ==> (r matches WeatherPanel::Loading { text } && text@ == loading_text()),
        weather matches Some(w) ==> (r matches WeatherPanel::Ready { current, condition, forecast }
            && current@ == temperature_text_of(w.current_temp_tenths as int) && condition@
            == condition_name(w.current_condition) && forecast@ == forecast_text_of(w.forecast@)),
{
    match weather {
        None => WeatherPanel::Loading { text: String::from_str("Loading...") },
        Some(w) => WeatherPanel::Ready {
            current: temperature_text(w.current_temp_tenths),
            condition: String::from_str(w.current_condition.name()),
            forecast: forecast_text(&w.forecast),
        },
    }
}

} // verus!
