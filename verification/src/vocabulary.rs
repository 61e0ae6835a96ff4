//! The element names that the extractors recognize.
//!
//! An element is recognized by its local name: a namespace prefix, where the
//! feed writes one, takes no part in the comparison.

use vstd::prelude::*;
use vstd::slice::slice_subrange;

verus! {

/// The byte that ends a namespace prefix.
pub const COLON: u8 = 58;

/// The bytes of a text made of ASCII characters.
pub open spec fn ascii(text: Seq<char>) -> Seq<u8> {
    text.map_values(|c: char| c as u8)
}

/// Whether `i` is the place of the first colon in `name`.
pub open spec fn is_first_colon(name: Seq<u8>, i: int) -> bool {
    &&& 0 <= i < name.len()
    &&& name[i] == COLON
    &&& forall|j: int| 0 <= j < i ==> name[j] != COLON
}

/// The local part of a qualified name: what follows the first colon, or the
/// whole name where there is none.
pub open spec fn local_name(name: Seq<u8>) -> Seq<u8> {
    if exists|i: int| is_first_colon(name, i) {
        name.skip((choose|i: int| is_first_colon(name, i)) + 1)
    } else {
        name
    }
}

/// The local part of a qualified name.
pub fn local_part(name: &[u8]) -> (local: &[u8])
    ensures
        local@ == local_name(name@),
{
    let mut i: usize = 0;
    while i < name.len()
        invariant
            i <= name.len(),
            forall|j: int| 0 <= j < i ==> name@[j] != COLON,
        decreases name.len() - i,
    {
        if name[i] == COLON {
            proof {
                assert(is_first_colon(name@, i as int));
                let k = choose|k: int| is_first_colon(name@, k);
                assert(k == i);
            }
            let local = slice_subrange(name, i + 1, name.len());
            assert(local@ =~= name@.skip(i + 1));
            return local;
        }
        i += 1;
    }
    name
}

/// Whether `name` is `word` byte for byte.
pub fn is_word(name: &[u8], word: &str) -> (same: bool)
    requires
        word.is_ascii(),
    ensures
        same == (name@ == ascii(word@)),
{
    let bytes = word.as_bytes();
    assert(bytes@ =~= ascii(word@));
    if name.len() != bytes.len() {
        return false;
    }
    let mut i: usize = 0;
    while i < name.len()
        invariant
            i <= name.len(),
            name.len() == bytes.len(),
            bytes@ == ascii(word@),
            forall|j: int| 0 <= j < i ==> name@[j] == bytes@[j],
        decreases name.len() - i,
    {
        if name[i] != bytes[i] {
            return false;
        }
        i += 1;
    }
    assert(name@ =~= bytes@);
    true
}

/// A field of a station that a detail element fills.
#[derive(Debug, Clone, Copy, PartialEq, Eq, Structural)]
pub enum StationField {
    Name,
    RoadNumber,
    CountyNumber,
    Latitude,
    Longitude,
}

/// What a start element means to the station extractor.
#[derive(Debug, Clone, Copy, PartialEq, Eq, Structural)]
pub enum StationTag {
    /// The element that opens a new station.
    SiteRecord,
    /// A detail element, whose text fills a field of the open station.
    Detail(StationField),
    /// An element outside the vocabulary.
    Unknown,
}

/// The meaning of a local element name in a station feed.
pub open spec fn station_tag(local: Seq<u8>) -> StationTag {
    if local == ascii("measurementSiteRecord"@) {
        StationTag::SiteRecord
    } else if local == ascii("value"@) {
        StationTag::Detail(StationField::Name)
    } else if local == ascii("roadNumber"@) {
        StationTag::Detail(StationField::RoadNumber)
    } else if local == ascii("countyNumber"@) {
        StationTag::Detail(StationField::CountyNumber)
    } else if local == ascii("latitude"@) {
        StationTag::Detail(StationField::Latitude)
    } else if local == ascii("longitude"@) {
        StationTag::Detail(StationField::Longitude)
    } else {
        StationTag::Unknown
    }
}

/// Classifies the qualified name of a start element in a station feed.
pub fn classify_station(name: &[u8]) -> (tag: StationTag)
    ensures
        tag == station_tag(local_name(name@)),
{
    proof {
        reveal_strlit("measurementSiteRecord");
        reveal_strlit("value");
        reveal_strlit("roadNumber");
        reveal_strlit("countyNumber");
        reveal_strlit("latitude");
        reveal_strlit("longitude");
    }
    let local = local_part(name);
    if is_word(local, "measurementSiteRecord") {
        StationTag::SiteRecord
    } else if is_word(local, "value") {
        StationTag::Detail(StationField::Name)
    } else if is_word(local, "roadNumber") {
        StationTag::Detail(StationField::RoadNumber)
    } else if is_word(local, "countyNumber") {
        StationTag::Detail(StationField::CountyNumber)
    } else if is_word(local, "latitude") {
        StationTag::Detail(StationField::Latitude)
    } else if is_word(local, "longitude") {
        StationTag::Detail(StationField::Longitude)
    } else {
        StationTag::Unknown
    }
}

/// A field of a reading that a detail element fills.
#[derive(Debug, Clone, Copy, PartialEq, Eq, Structural)]
pub enum WeatherField {
    Timestamp,
    WindSpeed,
    WindDirection,
    AirTemperature,
    RoadTemperature,
    AirHumidity,
}

/// What a start element means to the reading extractor.
#[derive(Debug, Clone, Copy, PartialEq, Eq, Structural)]
pub enum WeatherTag {
    /// The element that opens a new reading and names its station.
    SiteReference,
    /// A detail element, whose text fills a field of the open reading.
    Detail(WeatherField),
    /// An element outside the vocabulary.
    Unknown,
}

/// The meaning of a local element name in a weather feed.
pub open spec fn weather_tag(local: Seq<u8>) -> WeatherTag {
    if local == ascii("measurementSiteReference"@) {
        WeatherTag::SiteReference
    } else if local == ascii("measurementTimeDefault"@) {
        WeatherTag::Detail(WeatherField::Timestamp)
    } else if local == ascii("windSpeed"@) {
        WeatherTag::Detail(WeatherField::WindSpeed)
    } else if local == ascii("directionCompass"@) {
        WeatherTag::Detail(WeatherField::WindDirection)
    } else if local == ascii("airTemperature"@) {
        WeatherTag::Detail(WeatherField::AirTemperature)
    } else if local == ascii("roadSurfaceTemperature"@) {
        WeatherTag::Detail(WeatherField::RoadTemperature)
    } else if local == ascii("humidity"@) {
        WeatherTag::Detail(WeatherField::AirHumidity)
    } else {
        WeatherTag::Unknown
    }
}

/// Classifies the qualified name of a start element in a weather feed.
pub fn classify_weather(name: &[u8]) -> (tag: WeatherTag)
    ensures
        tag == weather_tag(local_name(name@)),
{
    proof {
        reveal_strlit("measurementSiteReference");
        reveal_strlit("measurementTimeDefault");
        reveal_strlit("windSpeed");
        reveal_strlit("directionCompass");
        reveal_strlit("airTemperature");
        reveal_strlit("roadSurfaceTemperature");
        reveal_strlit("humidity");
    }
    let local = local_part(name);
    if is_word(local, "measurementSiteReference") {
        WeatherTag::SiteReference
    } else if is_word(local, "measurementTimeDefault") {
        WeatherTag::Detail(WeatherField::Timestamp)
    } else if is_word(local, "windSpeed") {
        WeatherTag::Detail(WeatherField::WindSpeed)
    } else if is_word(local, "directionCompass") {
        WeatherTag::Detail(WeatherField::WindDirection)
    } else if is_word(local, "airTemperature") {
        WeatherTag::Detail(WeatherField::AirTemperature)
    } else if is_word(local, "roadSurfaceTemperature") {
        WeatherTag::Detail(WeatherField::RoadTemperature)
    } else if is_word(local, "humidity") {
        WeatherTag::Detail(WeatherField::AirHumidity)
    } else {
        WeatherTag::Unknown
    }
}

} // verus!
