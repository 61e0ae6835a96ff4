//! The two kinds of record that a feed yields.
//!
//! Every field is carried as the text found in the feed. Nothing here parses
//! or validates a number: that is left to the store, whose columns are typed.

use vstd::prelude::*;

verus! {

/// A road-side measurement site.
#[derive(Debug, Clone, PartialEq, Eq)]
pub struct StationData {
    /// The site's identifier: the key under which it is stored.
    pub id: String,
    pub name: String,
    pub road_number: String,
    pub county_number: String,
    pub latitude: String,
    pub longitude: String,
}

/// The mathematical value of a [`StationData`].
pub struct StationView {
    pub id: Seq<char>,
    pub name: Seq<char>,
    pub road_number: Seq<char>,
    pub county_number: Seq<char>,
    pub latitude: Seq<char>,
    pub longitude: Seq<char>,
}

impl StationView {
    /// The station that has this identifier and nothing else.
    pub open spec fn with_id(id: Seq<char>) -> StationView {
        StationView {
            id,
            name: Seq::empty(),
            road_number: Seq::empty(),
            county_number: Seq::empty(),
            latitude: Seq::empty(),
            longitude: Seq::empty(),
        }
    }
}

impl View for StationData {
    type V = StationView;

    open spec fn view(&self) -> StationView {
        StationView {
            id: self.id@,
            name: self.name@,
            road_number: self.road_number@,
            county_number: self.county_number@,
            latitude: self.latitude@,
            longitude: self.longitude@,
        }
    }
}

impl StationData {
    /// A station with the given identifier and every other field empty.
    pub fn with_id(id: String) -> (station: StationData)
        ensures
            station@ == StationView::with_id(id@),
    {
        StationData {
            id,
            name: String::new(),
            road_number: String::new(),
            county_number: String::new(),
            latitude: String::new(),
            longitude: String::new(),
        }
    }
}

/// A weather and road-surface observation made at a station.
#[derive(Debug, Clone, PartialEq, Eq)]
pub struct WeatherData {
    /// The identifier of the station that made the observation.
    pub station_id: String,
    pub timestamp: String,
    pub road_temperature: String,
    pub air_temperature: String,
    pub air_humidity: String,
    pub wind_speed: String,
    pub wind_direction: String,
}

/// The mathematical value of a [`WeatherData`].
pub struct WeatherView {
    pub station_id: Seq<char>,
    pub timestamp: Seq<char>,
    pub road_temperature: Seq<char>,
    pub air_temperature: Seq<char>,
    pub air_humidity: Seq<char>,
    pub wind_speed: Seq<char>,
    pub wind_direction: Seq<char>,
}

impl WeatherView {
    /// The reading that names this station and holds nothing else.
    pub open spec fn of_station(station_id: Seq<char>) -> WeatherView {
        WeatherView {
            station_id,
            timestamp: Seq::empty(),
            road_temperature: Seq::empty(),
            air_temperature: Seq::empty(),
            air_humidity: Seq::empty(),
            wind_speed: Seq::empty(),
            wind_direction: Seq::empty(),
        }
    }
}

impl View for WeatherData {
    type V = WeatherView;

    open spec fn view(&self) -> WeatherView {
        WeatherView {
            station_id: self.station_id@,
            timestamp: self.timestamp@,
            road_temperature: self.road_temperature@,
            air_temperature: self.air_temperature@,
            air_humidity: self.air_humidity@,
            wind_speed: self.wind_speed@,
            wind_direction: self.wind_direction@,
        }
    }
}

impl WeatherData {
    /// A reading for the given station with every other field empty.
    pub fn of_station(station_id: String) -> (reading: WeatherData)
        ensures
            reading@ == WeatherView::of_station(station_id@),
    {
        WeatherData {
            station_id,
            timestamp: String::new(),
            road_temperature: String::new(),
            air_temperature: String::new(),
            air_humidity: String::new(),
            wind_speed: String::new(),
            wind_direction: String::new(),
        }
    }
}

/// The values of a list of stations, in order.
pub open spec fn station_views(records: Seq<StationData>) -> Seq<StationView> {
    records.map_values(|s: StationData| s@)
}

/// The values of a list of readings, in order.
pub open spec fn weather_views(records: Seq<WeatherData>) -> Seq<WeatherView> {
    records.map_values(|r: WeatherData| r@)
}

} // verus!
