use vstd::prelude::*;
use crate::text::{nat_text, push_nat_text};

verus! {

/// A calendar date as plain values; `weekday` counts days from Monday (0)
/// to Sunday (6).
#[derive(Clone, Copy, Debug, PartialEq, Eq, Structural)]
pub struct CalendarDate {
    pub year: i32,
    pub month: u32,
    pub day: u32,
    pub weekday: u32,
}

impl CalendarDate {
    /// Month, day of month and weekday lie in their ranges.
    pub open spec fn wf(&self) -> bool {
        1 <= self.month <= 12 && 1 <= self.day <= 31 && self.weekday < 7
    }
}

/// The date that a "YYYY-MM-DD" text denotes, or `None` where it denotes none.
pub uninterp spec fn ymd_date_of(s: Seq<char>) -> Option<CalendarDate>;

/// Relies on chrono's `NaiveDate::parse_from_str` with the format "%Y-%m-%d":
/// the outcome depends on the text alone, and a parsed date has a month in
/// 1..=12, a day in 1..=31 and a weekday in 0..=6 (as chrono's `Datelike`
/// accessors and `Weekday::num_days_from_monday` document).
#[verifier::external_body]
fn parse_ymd(s: &str) -> (r: Option<CalendarDate>)
    ensures
        r == ymd_date_of(s@),
        r matches Some(d) ==> d.wf(),
{
    match chrono::NaiveDate::parse_from_str(s, "%Y-%m-%d") {
        Ok(d) => Some(CalendarDate {
            year: chrono::Datelike::year(&d),
            month: chrono::Datelike::month(&d),
            day: chrono::Datelike::day(&d),
            weekday: chrono::Datelike::weekday(&d).num_days_from_monday(),
        }),
        Err(_) => None,
    }
}

/// The three-letter English name of a weekday counted from Monday.
pub open spec fn weekday_short_name(w: int) -> Seq<char> {
    if w == 0 {
        "Mon"@
    } else if w == 1 {
        "Tue"@
    } else if w == 2 {
        "Wed"@
    } else if w == 3 {
        "Thu"@
    } else if w == 4 {
        "Fri"@
    } else if w == 5 {
        "Sat"@
    } else {
        "Sun"@
    }
}

/// The full English name of a weekday counted from Monday.
pub open spec fn weekday_full_name(w: int) -> Seq<char> {
    if w == 0 {
        "Monday"@
    } else if w == 1 {
        "Tuesday"@
    } else if w == 2 {
        "Wednesday"@
    } else if w == 3 {
        "Thursday"@
    } else if w == 4 {
        "Friday"@
    } else if w == 5 {
        "Saturday"@
    } else {
        "Sunday"@
    }
}

/// The full English name of a month counted from January as 1.
pub open spec fn month_full_name(m: int) -> Seq<char> {
    if m == 1 {
        "January"@
    } else if m == 2 {
        "February"@
    } else if m == 3 {
        "March"@
    } else if m == 4 {
        "April"@
    } else if m == 5 {
        "May"@
    } else if m == 6 {
        "June"@
    } else if m == 7 {
        "July"@
    } else if m == 8 {
        "August"@
    } else if m == 9 {
        "September"@
    } else if m == 10 {
        "October"@
    } else if m == 11 {
        "November"@
    } else {
        "December"@
    }
}

/// The label of a forecast day whose date text was parsed to `parsed`.
pub open spec fn label_of_parsed(parsed: Option<CalendarDate>) -> Seq<char> {
    match parsed {
        Some(d) => weekday_short_name(d.weekday as int),
        None => "???"@,
    }
}

/// The label of a forecast day given as a date text: its short weekday name,
/// or "???" where the text is no date.
pub open spec fn day_label_of(s: Seq<char>) -> Seq<char> {
    label_of_parsed(ymd_date_of(s))
}

/// The text "Weekday, Month D" of a date.
pub open spec fn date_text_of(d: CalendarDate) -> Seq<char> {
    weekday_full_name(d.weekday as int) + ", "@ + month_full_name(d.month as int) + " "@ + nat_text(
        d.day as nat,
    )
}

/// The three-letter English name of weekday `w`, counted from Monday.
pub fn weekday_short(w: u32) -> (r: &'static str)
    ensures
        r@ == weekday_short_name(w as int),
{
    if w == 0 {
        "Mon"
    } else if w == 1 {
        "Tue"
    } else if w == 2 {
        "Wed"
    } else if w == 3 {
        "Thu"
    } else if w == 4 {
        "Fri"
    } else if w == 5 {
        "Sat"
    } else {
        "Sun"
    }
}

/// The full English name of weekday `w`, counted from Monday.
pub fn weekday_full(w: u32) -> (r: &'static str)
    ensures
        r@ == weekday_full_name(w as int),
{
    if w == 0 {
        "Monday"
    } else if w == 1 {
        "Tuesday"
    } else if w == 2 {
        "Wednesday"
    } else if w == 3 {
        "Thursday"
    } else if w == 4 {
        "Friday"
    } else if w == 5 {
        "Saturday"
    } else {
        "Sunday"
    }
}

/// The full English name of month `m`, counted from January as 1.
pub fn month_full(m: u32) -> (r: &'static str)
    ensures
        r@ == month_full_name(m as int),
{
    if m == 1 {
        "January"
    } else if m == 2 {
        "February"
    } else if m == 3 {
        "March"
    } else if m == 4 {
        "April"
    } else if m == 5 {
        "May"
    } else if m == 6 {
        "June"
    } else if m == 7 {
        "July"
    } else if m == 8 {
        "August"
    } else if m == 9 {
        "September"
    } else if m == 10 {
        "October"
    } else if m == 11 {
        "November"
    } else {
        "December"
    }
}

/// The label of a forecast day from the outcome of parsing its date text.
pub fn label_from_parsed(parsed: Option<CalendarDate>) -> (r: String)
    ensures
        r@ == label_of_parsed(parsed),
{
    match parsed {
        Some(d) => String::from_str(weekday_short(d.weekday)),
        None => String::from_str("???"),
    }
}

/// The label of a forecast day from its "YYYY-MM-DD" date text: the short
/// weekday name, or "???" where the text is no valid date.
pub fn day_label(date: &str) -> (r: String)
    ensures
        r@ == day_label_of(date@),
{
    label_from_parsed(parse_ymd(date))
}

/// The long form of a date, as in "Saturday, January 4".
pub fn date_text(d: &CalendarDate) -> (r: String)
    ensures
        r@ == date_text_of(*d),
{
    let mut s = String::from_str(weekday_full(d.weekday));
    s.append(", ");
    s.append(month_full(d.month));
    s.append(" ");
    push_nat_text(&mut s, d.day as u64);
    s
}

} // verus!
