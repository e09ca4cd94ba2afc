//! The one record that every provider answers with, and the line it is
//! reported in.

use crate::text::{decimal, option_text, push_decimal};
use vstd::prelude::*;
use vstd::string::*;

verus! {

/// A temperature in the provider's own unit, held as the bit pattern of an
/// IEEE 754 single-precision number.
#[derive(Debug, Clone, Copy, PartialEq, Eq, Structural)]
pub struct Temperature {
    pub bits: u32,
}

impl Temperature {
    /// The temperature with the given bit pattern.
    pub fn from_bits(bits: u32) -> (t: Temperature)
        ensures
            t.bits == bits,
    {
        Temperature { bits }
    }

    pub fn to_bits(&self) -> (bits: u32)
        ensures
            bits == self.bits,
    {
        self.bits
    }
}

/// The weather at a place on a day.
#[derive(Debug, PartialEq, Eq)]
pub struct WeatherInfo {
    pub country: String,
    pub city: String,
    /// The day in ISO form.
    pub date: String,
    pub temperature: Temperature,
    /// Relative humidity in percent.
    pub humidity: u8,
    pub description: Option<String>,
}

/// The weather as plain values.
pub struct WeatherView {
    pub country: Seq<char>,
    pub city: Seq<char>,
    pub date: Seq<char>,
    pub temperature: Temperature,
    pub humidity: u8,
    pub description: Option<Seq<char>>,
}

impl View for WeatherInfo {
    type V = WeatherView;

    open spec fn view(&self) -> WeatherView {
        WeatherView {
            country: self.country@,
            city: self.city@,
            date: self.date@,
            temperature: self.temperature,
            humidity: self.humidity,
            description: option_text(self.description),
        }
    }
}

impl WeatherView {
    /// The description as it stands in the report: after a comma, or not at all.
    pub open spec fn description_part(self) -> Seq<char> {
        match self.description {
            Some(text) => ", "@ + text,
            None => Seq::empty(),
        }
    }

    /// The report line, given the temperature as text.
    pub open spec fn report(self, temperature: Seq<char>) -> Seq<char> {
        "Weather in '"@ + self.country + ", "@ + self.city + "': "@ + temperature + "°F"@
            + self.description_part() + ", Humidity: "@ + decimal(self.humidity as nat) + "%"@
    }
}

impl Clone for WeatherInfo {
    fn clone(&self) -> (copy: WeatherInfo)
        ensures
            copy@ == self@,
    {
        WeatherInfo {
            country: self.country.clone(),
            city: self.city.clone(),
            date: self.date.clone(),
            temperature: self.temperature,
            humidity: self.humidity,
            description: match &self.description {
                Some(text) => Some(text.clone()),
                None => None,
            },
        }
    }
}

impl WeatherInfo {
    /// Writes the report line. The temperature is handed in as text, with
    /// the digits that the caller wants shown.
    pub fn report(&self, temperature: &str) -> (line: String)
        ensures
            line@ == self@.report(temperature@),
    {
        let mut out = String::new();
        out.append("Weather in '");
        out.append(self.country.as_str());
        out.append(", ");
        out.append(self.city.as_str());
        out.append("': ");
        out.append(temperature);
        out.append("°F");
        match &self.description {
            Some(text) => {
                out.append(", ");
                out.append(text.as_str());
            },
            None => {},
        }
        assert(out@ =~= "Weather in '"@ + self.country@ + ", "@ + self.city@ + "': "@ + temperature@
            + "°F"@ + self@.description_part());
        out.append(", Humidity: ");
        push_decimal(&mut out, self.humidity as u64);
        out.append("%");
        assert(out@ =~= self@.report(temperature@));
        out
    }
}

} // verus!
