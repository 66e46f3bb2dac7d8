//! The temperature converter's choice of direction.
//!
//! The selector names the unit to convert *to*: `"F"` reads the temperature
//! as Celsius and reports Fahrenheit (`f = c * 9/5 + 32`), `"C"` reads it as
//! Fahrenheit and reports Celsius (`c = (f - 32) * 5/9`). Any other selector
//! is not a valid input and nothing is converted. The floating-point formulas
//! themselves are applied by the console program.
use vstd::prelude::*;

verus! {

/// A direction of conversion.
#[derive(Clone, Copy, Debug, PartialEq, Eq, Structural)]
pub enum Conversion {
    /// From Celsius to Fahrenheit (selector `"F"`).
    ToFahrenheit,
    /// From Fahrenheit to Celsius (selector `"C"`).
    ToCelsius,
}

/// The direction that a selector asks for, if any.
pub open spec fn conversion_of(selector: Seq<char>) -> Option<Conversion> {
    if selector == seq!['F'] {
        Some(Conversion::ToFahrenheit)
    } else if selector == seq!['C'] {
        Some(Conversion::ToCelsius)
    } else {
        None
    }
}

/// Chooses the direction for a selector (already trimmed); `None` for
/// anything but `"F"` and `"C"`.
pub fn select_conversion(selector: &str) -> (r: Option<Conversion>)
    ensures
        r == conversion_of(selector@),
{
    if selector.unicode_len() != 1 {
        return None;
    }
    let c = selector.get_char(0);
    if c == 'F' {
        assert(selector@ =~= seq!['F']);
        Some(Conversion::ToFahrenheit)
    } else if c == 'C' {
        assert(selector@ =~= seq!['C']);
        Some(Conversion::ToCelsius)
    } else {
        None
    }
}

impl Conversion {
    /// The letter of the unit the temperature is read in.
    pub fn source_unit(&self) -> (r: char)
        ensures
            r == (match *self {
                Conversion::ToFahrenheit => 'C',
                Conversion::ToCelsius => 'F',
            }),
    {
        match self {
            Conversion::ToFahrenheit => 'C',
            Conversion::ToCelsius => 'F',
        }
    }

    /// The letter of the unit the result is reported in.
    pub fn target_unit(&self) -> (r: char)
        ensures
            r == (match *self {
                Conversion::ToFahrenheit => 'F',
                Conversion::ToCelsius => 'C',
            }),
    {
        match self {
            Conversion::ToFahrenheit => 'F',
            Conversion::ToCelsius => 'C',
        }
    }
}

} // verus!
