//! What the remote services answer, field by field as the providers read it.

use crate::weather::Temperature;
use vstd::prelude::*;

verus! {

/// The place that a current-conditions answer is about.
#[derive(Debug, PartialEq, Eq)]
pub struct WeatherApiLocation {
    pub name: String,
    pub country: String,
}

/// The wording of the current conditions.
#[derive(Debug, PartialEq, Eq)]
pub struct WeatherApiCondition {
    pub text: String,
}

/// The current conditions.
#[derive(Debug, PartialEq, Eq)]
pub struct WeatherApiCurrent {
    /// Degrees Fahrenheit.
    pub temp_f: Temperature,
    pub humidity: u8,
    pub condition: WeatherApiCondition,
}

/// The answer to a current-conditions query.
#[derive(Debug, PartialEq, Eq)]
pub struct WeatherApiResponse {
    pub location: WeatherApiLocation,
    pub current: WeatherApiCurrent,
}

/// One match of a geocoding query.
#[derive(Debug, PartialEq, Eq)]
pub struct OpenWeatherGeoResponse {
    pub name: String,
    /// The latitude in decimal notation, as it goes into the next query.
    pub lat: String,
    /// The longitude in decimal notation, as it goes into the next query.
    pub lon: String,
    pub country: String,
}

/// The humidity part of a daily summary.
#[derive(Debug, Clone, Copy, PartialEq, Eq, Structural)]
pub struct OpenWeatherHumidity {
    pub afternoon: u8,
}

/// The temperature part of a daily summary.
#[derive(Debug, Clone, Copy, PartialEq, Eq, Structural)]
pub struct OpenWeatherTemperature {
    pub afternoon: Temperature,
}

/// The answer to a daily-summary query.
#[derive(Debug, Clone, Copy, PartialEq, Eq, Structural)]
pub struct OpenWeatherResponse {
    pub temperature: OpenWeatherTemperature,
    pub humidity: OpenWeatherHumidity,
}

/// What is sent to the remote weather procedure.
#[derive(Debug, PartialEq, Eq)]
pub struct WeatherRequest {
    pub location: String,
    /// The day in ISO form.
    pub date: String,
}

/// What the remote weather procedure answers.
#[derive(Debug, PartialEq, Eq)]
pub struct WeatherReply {
    pub country: String,
    pub city: String,
    pub date: String,
    pub temperature: Temperature,
    pub humidity: i32,
    pub description: String,
}

} // verus!
