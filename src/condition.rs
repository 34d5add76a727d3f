use vstd::prelude::*;

verus! {

/// The closed set of conditions that a provider weather code is reduced to.
#[derive(Clone, Copy, Debug, PartialEq, Eq, Structural)]
pub enum Condition {
    Clear,
    Cloudy,
    Fog,
    Rain,
    Snow,
    Showers,
    Storm,
    Unknown,
}

/// The condition of a weather code: the first range of the table that holds
/// the code decides, and a code in no range is `Unknown`.
pub open spec fn condition_of(code: int) -> Condition {
    if code == 0 {
        Condition::Clear
    } else if 1 <= code <= 3 {
        Condition::Cloudy
    } else if 45 <= code <= 48 {
        Condition::Fog
    } else if 51 <= code <= 67 {
        Condition::Rain
    } else if 71 <= code <= 77 {
        Condition::Snow
    } else if 80 <= code <= 82 {
        Condition::Showers
    } else if 95 <= code <= 99 {
        Condition::Storm
    } else {
        Condition::Unknown
    }
}

/// The text shown for a condition.
pub open spec fn condition_name(c: Condition) -> Seq<char> {
    match c {
        Condition::Clear => "Clear"@,
        Condition::Cloudy => "Cloudy"@,
        Condition::Fog => "Fog"@,
        Condition::Rain => "Rain"@,
        Condition::Snow => "Snow"@,
        Condition::Showers => "Showers"@,
        Condition::Storm => "Storm"@,
        Condition::Unknown => "Unknown"@,
    }
}

impl Condition {
    /// The text shown for this condition.
    pub fn name(&self) -> (r: &'static str)
        ensures
            r@ == condition_name(*self),
    {
        match self {
            Condition::Clear => "Clear",
            Condition::Cloudy => "Cloudy",
            Condition::Fog => "Fog",
            Condition::Rain => "Rain",
            Condition::Snow => "Snow",
            Condition::Showers => "Showers",
            Condition::Storm => "Storm",
            Condition::Unknown => "Unknown",
        }
    }
}

/// Reduces any integer weather code to its condition.
pub fn condition_label(code: i64) -> (r: Condition)
    ensures
        r == condition_of(code as int),
{
    if code == 0 {
        Condition::Clear
    } else if 1 <= code && code <= 3 {
        Condition::Cloudy
    } else if 45 <= code && code <= 48 {
        Condition::Fog
    } else if 51 <= code && code <= 67 {
        Condition::Rain
    } else if 71 <= code && code <= 77 {
        Condition::Snow
    } else if 80 <= code && code <= 82 {
        Condition::Showers
    } else if 95 <= code && code <= 99 {
        Condition::Storm
    } else {
        Condition::Unknown
    }
}

/// The text of the condition of a one-byte weather code.
pub fn weather_code_to_condition(code: u8) -> (r: &'static str)
    ensures
        r@ == condition_name(condition_of(code as int)),
{
    condition_label(code as i64).name()
}

/// Every code outside 0 to 99 is `Unknown`.
pub proof fn lemma_outside_codes_unknown(code: int)
    requires
        code < 0 || code > 99,
    ensures
        condition_of(code) == Condition::Unknown,
{
}

/// Inside 0 to 99 a code is `Unknown` exactly when it lies in none of the
/// table's ranges, and otherwise takes the label of the one range holding it.
pub proof fn lemma_table_ranges(code: int)
    requires
        0 <= code <= 99,
    ensures
        (condition_of(code) == Condition::Clear) <==> code == 0,
        (condition_of(code) == Condition::Cloudy) <==> (1 <= code <= 3),
        (condition_of(code) == Condition::Fog) <==> (45 <= code <= 48),
        (condition_of(code) == Condition::Rain) <==> (51 <= code <= 67),
        (condition_of(code) == Condition::Snow) <==> (71 <= code <= 77),
        (condition_of(code) == Condition::Showers) <==> (80 <= code <= 82),
        (condition_of(code) == Condition::Storm) <==> (95 <= code <= 99),
        (condition_of(code) == Condition::Unknown) <==> !(code == 0 || (1 <= code <= 3) || (45
            <= code <= 48) || (51 <= code <= 67) || (71 <= code <= 77) || (80 <= code <= 82) || (95
            <= code <= 99)),
{
}

} // verus!
