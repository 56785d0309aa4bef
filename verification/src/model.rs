//! The records of the two feeds and their mathematical views.
//!
//! This crate does no floating-point arithmetic and only carries
//! coordinates through, as the bit pattern of an IEEE-754 double. The weather
//! feed gives them as decimal text: a [`WeatherEntry`] holds that text, and
//! becomes an [`AirportWeather`] once its caller has read the numbers.

use vstd::prelude::*;

verus! {

/// One entry of the weather feed, as the feed words it.
#[derive(Debug, Clone, PartialEq, Eq)]
pub struct WeatherEntry {
    /// Airport identifier, the feed's key without its report-type marker.
    pub icao: String,
    /// Latitude in degrees, as the feed's decimal text.
    pub latitude: String,
    /// Longitude in degrees, as the feed's decimal text.
    pub longitude: String,
    /// Raw text of the weather report.
    pub report: String,
}

/// What a [`WeatherEntry`] is, with its texts as character sequences.
pub ghost struct WeatherEntryView {
    pub icao: Seq<char>,
    pub latitude: Seq<char>,
    pub longitude: Seq<char>,
    pub report: Seq<char>,
}

impl DeepView for WeatherEntry {
    type V = WeatherEntryView;

    open spec fn deep_view(&self) -> WeatherEntryView {
        WeatherEntryView {
            icao: self.icao@,
            latitude: self.latitude@,
            longitude: self.longitude@,
            report: self.report@,
        }
    }
}

/// One airport with its weather report.
#[derive(Debug, Clone, PartialEq, Eq)]
pub struct AirportWeather {
    /// Airport identifier.
    pub icao: String,
    /// Latitude in degrees, as the bits of a double.
    pub latitude: u64,
    /// Longitude in degrees, as the bits of a double.
    pub longitude: u64,
    /// Raw text of the weather report.
    pub report: String,
}

/// What an [`AirportWeather`] is, with its texts as character sequences.
pub ghost struct AirportView {
    pub icao: Seq<char>,
    pub latitude: u64,
    pub longitude: u64,
    pub report: Seq<char>,
}

impl DeepView for AirportWeather {
    type V = AirportView;

    open spec fn deep_view(&self) -> AirportView {
        AirportView {
            icao: self.icao@,
            latitude: self.latitude,
            longitude: self.longitude,
            report: self.report@,
        }
    }
}

/// The filed plan of a flight.
#[derive(Debug, Clone, PartialEq, Eq)]
pub struct FlightPlan {
    pub aircraft_short: String,
    pub departure: String,
    pub arrival: String,
    pub alternate: String,
    pub flight_rules: String,
    pub remarks: String,
    pub route: String,
}

/// What a [`FlightPlan`] is.
pub ghost struct PlanView {
    pub aircraft_short: Seq<char>,
    pub departure: Seq<char>,
    pub arrival: Seq<char>,
    pub alternate: Seq<char>,
    pub flight_rules: Seq<char>,
    pub remarks: Seq<char>,
    pub route: Seq<char>,
}

impl DeepView for FlightPlan {
    type V = PlanView;

    open spec fn deep_view(&self) -> PlanView {
        PlanView {
            aircraft_short: self.aircraft_short@,
            departure: self.departure@,
            arrival: self.arrival@,
            alternate: self.alternate@,
            flight_rules: self.flight_rules@,
            remarks: self.remarks@,
            route: self.route@,
        }
    }
}

/// One position report of the traffic feed.
#[derive(Debug, Clone, PartialEq, Eq)]
pub struct TrafficRecord {
    pub callsign: String,
    pub id: u32,
    pub name: String,
    /// Latitude in degrees, as the bits of a double.
    pub latitude: u64,
    /// Longitude in degrees, as the bits of a double.
    pub longitude: u64,
    pub altitude: i32,
    pub ground_speed: i32,
    pub heading: i32,
    /// Absent for a flight that filed no plan.
    pub flight_plan: Option<FlightPlan>,
}

/// What a [`TrafficRecord`] is.
pub ghost struct TrafficView {
    pub callsign: Seq<char>,
    pub id: u32,
    pub name: Seq<char>,
    pub latitude: u64,
    pub longitude: u64,
    pub altitude: i32,
    pub ground_speed: i32,
    pub heading: i32,
    pub flight_plan: Option<PlanView>,
}

impl DeepView for TrafficRecord {
    type V = TrafficView;

    open spec fn deep_view(&self) -> TrafficView {
        TrafficView {
            callsign: self.callsign@,
            id: self.id,
            name: self.name@,
            latitude: self.latitude,
            longitude: self.longitude,
            altitude: self.altitude,
            ground_speed: self.ground_speed,
            heading: self.heading,
            flight_plan: match self.flight_plan {
                Some(plan) => Some(plan.deep_view()),
                None => None,
            },
        }
    }
}

} // verus!
