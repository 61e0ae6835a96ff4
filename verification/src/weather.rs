//! Extraction of readings from a weather feed.
//!
//! A measurement-site-reference element opens a new reading and names its
//! station. Until the next one, each detail element fills a field of that
//! reading with its text.

use crate::attributes::attributes_of;
use crate::attributes::id_of;
use crate::attributes::record_id;
use crate::attributes::tag_attributes;
use crate::error::ExtractError;
use crate::records::weather_views;
use crate::records::WeatherData;
use crate::records::WeatherView;
use crate::vocabulary::classify_weather;
use crate::vocabulary::local_name;
use crate::vocabulary::weather_tag;
use crate::vocabulary::WeatherField;
use crate::vocabulary::WeatherTag;
use crate::xml::complete;
use crate::xml::lemma_complete_rest;
use crate::xml::lemma_text_reading_rest;
use crate::xml::next_item;
use crate::xml::open_reader;
use crate::xml::pending;
use crate::xml::read_text;
use crate::xml::text_reading;
use crate::xml::xml_events;
use crate::xml::EventView;
use crate::xml::ItemView;
use crate::xml::XmlEvent;
use crate::xml::XmlItem;
use vstd::prelude::*;

verus! {

/// What the extractor does on an event of the feed.
#[derive(Debug, Clone, Copy, PartialEq, Eq, Structural)]
pub enum WeatherStep {
    /// Go on with the next event.
    Continue,
    /// Read the text of the element that the event opens, and store it in
    /// `field`.
    ReadText { field: WeatherField },
    /// The feed is at its end: the readings are complete.
    Finished,
    /// The feed cannot be extracted.
    Failed(ExtractError),
}

/// A reading with one field replaced.
pub open spec fn reading_with(
    reading: WeatherView,
    field: WeatherField,
    text: Seq<char>,
) -> WeatherView {
    match field {
        WeatherField::Timestamp => WeatherView { timestamp: text, ..reading },
        WeatherField::WindSpeed => WeatherView { wind_speed: text, ..reading },
        WeatherField::WindDirection => WeatherView { wind_direction: text, ..reading },
        WeatherField::AirTemperature => WeatherView { air_temperature: text, ..reading },
        WeatherField::RoadTemperature => WeatherView { road_temperature: text, ..reading },
        WeatherField::AirHumidity => WeatherView { air_humidity: text, ..reading },
    }
}

/// The state of a reading extraction.
pub struct WeatherState {
    /// The readings that are complete, in document order.
    pub finished: Seq<WeatherView>,
    /// The reading that is being filled.
    pub current: Option<WeatherView>,
}

impl WeatherState {
    /// The state in which an extraction starts.
    pub open spec fn initial() -> WeatherState {
        WeatherState { finished: Seq::empty(), current: None }
    }

    /// All readings so far, the open one last.
    pub open spec fn records(self) -> Seq<WeatherView> {
        match self.current {
            Some(reading) => self.finished.push(reading),
            None => self.finished,
        }
    }

    /// The state after a measurement-site-reference element that names this
    /// station.
    pub open spec fn begin(self, station_id: Seq<char>) -> WeatherState {
        WeatherState {
            finished: self.records(),
            current: Some(WeatherView::of_station(station_id)),
        }
    }

    /// The state after `text` was read for `field` of the open reading.
    pub open spec fn store(self, field: WeatherField, text: Seq<char>) -> WeatherState
        recommends
            self.current is Some,
    {
        WeatherState {
            finished: self.finished,
            current: Some(reading_with(self.current->0, field, text)),
        }
    }

    /// What an event of the feed calls for. Reading ends at the end of the
    /// input and fails at a fault. A measurement-site-reference element must
    /// give an identifier; a detail element is read, or fails for want of an
    /// open reading. Every other event is ignored.
    pub open spec fn item_step(self, item: ItemView) -> WeatherStep {
        match item.event {
            EventView::Eof => WeatherStep::Finished,
            EventView::Fault => WeatherStep::Failed(
                ExtractError::Malformed { position: item.offset },
            ),
            EventView::Start { name, tag } => match weather_tag(local_name(name)) {
                WeatherTag::SiteReference => match id_of(attributes_of(tag, name.len())) {
                    Some(_) => WeatherStep::Continue,
                    None => WeatherStep::Failed(ExtractError::Malformed { position: item.offset }),
                },
                WeatherTag::Detail(field) => {
                    if self.current is None {
                        WeatherStep::Failed(ExtractError::NoOpenRecord { position: item.offset })
                    } else {
                        WeatherStep::ReadText { field }
                    }
                },
                WeatherTag::Unknown => WeatherStep::Continue,
            },
            _ => WeatherStep::Continue,
        }
    }

    /// The state after an event of the feed, before any text is read: a
    /// measurement-site-reference element opens a reading, and nothing else
    /// changes the state.
    pub open spec fn after_item(self, item: ItemView) -> WeatherState {
        match item.event {
            EventView::Start { name, tag } => match weather_tag(local_name(name)) {
                WeatherTag::SiteReference => match id_of(attributes_of(tag, name.len())) {
                    Some(id) => self.begin(id),
                    None => self,
                },
                _ => self,
            },
            _ => self,
        }
    }
}

/// What the extraction of a complete stream of events comes to, from a given
/// state on: the events are taken one by one, and where the text of an
/// element is read, the events that the reading uses are passed by.
pub open spec fn weather_run(items: Seq<ItemView>, state: WeatherState) -> Result<
    Seq<WeatherView>,
    ExtractError,
>
    decreases items.len(),
    when complete(items)
{
    let item = items[0];
    let rest = items.skip(1);
    match state.item_step(item) {
        WeatherStep::Finished => Ok(state.records()),
        WeatherStep::Failed(error) => Err(error),
        WeatherStep::Continue => weather_run(rest, state.after_item(item)),
        WeatherStep::ReadText { field } => {
            let reading = text_reading(rest, item.event->Start_name);
            match reading.outcome {
                Ok(text) => {
                    proof {
                        lemma_complete_rest(items);
                        lemma_text_reading_rest(rest, item.event->Start_name);
                    }
                    weather_run(rest.skip(reading.used as int), state.store(field, text))
                },
                Err(position) => Err(ExtractError::Malformed { position }),
            }
        },
    }
}

/// What the extraction of a complete stream of events comes to: the readings
/// in document order, or the failure that ends the run.
pub open spec fn weather_records(items: Seq<ItemView>) -> Result<Seq<WeatherView>, ExtractError> {
    weather_run(items, WeatherState::initial())
}

/// The value of the outcome of a reading extraction.
pub open spec fn weather_outcome(outcome: Result<Vec<WeatherData>, ExtractError>) -> Result<
    Seq<WeatherView>,
    ExtractError,
> {
    match outcome {
        Ok(records) => Ok(weather_views(records@)),
        Err(e) => Err(e),
    }
}

/// A reading extraction in progress.
pub struct WeatherExtractor {
    finished: Vec<WeatherData>,
    current: Option<WeatherData>,
}

impl View for WeatherExtractor {
    type V = WeatherState;

    closed spec fn view(&self) -> WeatherState {
        WeatherState {
            finished: weather_views(self.finished@),
            current: match self.current {
                Some(reading) => Some(reading@),
                None => None,
            },
        }
    }
}

impl WeatherExtractor {
    /// An extraction that has seen nothing yet.
    pub fn new() -> (extractor: WeatherExtractor)
        ensures
            extractor@ == WeatherState::initial(),
    {
        let extractor = WeatherExtractor { finished: Vec::new(), current: None };
        assert(weather_views(extractor.finished@) =~= Seq::empty());
        extractor
    }

    /// Opens a new reading for the named station.
    pub fn begin(&mut self, station_id: String)
        ensures
            final(self)@ == old(self)@.begin(station_id@),
    {
        let previous = self.current.take();
        match previous {
            Some(reading) => {
                self.finished.push(reading);
                assert(weather_views(self.finished@) =~= weather_views(old(self).finished@).push(
                    reading@,
                ));
            },
            None => {},
        }
        self.current = Some(WeatherData::of_station(station_id));
    }

    /// Whether a reading is open, so that a detail can be stored.
    pub fn has_open_record(&self) -> (open: bool)
        ensures
            open == (self@.current is Some),
    {
        self.current.is_some()
    }

    /// Takes an event of the feed and says what it calls for. The state is
    /// changed as far as the event alone decides; a text that is to be read
    /// is stored afterwards, with [`WeatherExtractor::store`].
    pub fn on_item(&mut self, item: &XmlItem) -> (step: WeatherStep)
        ensures
            step == old(self)@.item_step(item@),
            final(self)@ == old(self)@.after_item(item@),
    {
        let position = item.offset;
        match &item.event {
            XmlEvent::Eof => WeatherStep::Finished,
            XmlEvent::Fault => WeatherStep::Failed(ExtractError::Malformed { position }),
            XmlEvent::Start { name, tag } => {
                match classify_weather(name.as_slice()) {
                    WeatherTag::SiteReference => {
                        let attrs = tag_attributes(tag.as_slice(), name.len());
                        match record_id(&attrs) {
                            Some(id) => {
                                self.begin(id);
                                WeatherStep::Continue
                            },
                            None => WeatherStep::Failed(ExtractError::Malformed { position }),
                        }
                    },
                    WeatherTag::Detail(field) => {
                        if self.has_open_record() {
                            WeatherStep::ReadText { field }
                        } else {
                            WeatherStep::Failed(ExtractError::NoOpenRecord { position })
                        }
                    },
                    WeatherTag::Unknown => WeatherStep::Continue,
                }
            },
            _ => WeatherStep::Continue,
        }
    }

    /// Stores the text read for `field` in the open reading.
    pub fn store(&mut self, field: WeatherField, text: String)
        requires
            old(self)@.current is Some,
        ensures
            final(self)@ == old(self)@.store(field, text@),
    {
        let mut reading = self.current.take().unwrap();
        match field {
            WeatherField::Timestamp => {
                reading.timestamp = text;
            },
            WeatherField::WindSpeed => {
                reading.wind_speed = text;
            },
            WeatherField::WindDirection => {
                reading.wind_direction = text;
            },
            WeatherField::AirTemperature => {
                reading.air_temperature = text;
            },
            WeatherField::RoadTemperature => {
                reading.road_temperature = text;
            },
            WeatherField::AirHumidity => {
                reading.air_humidity = text;
            },
        }
        self.current = Some(reading);
    }

    /// Ends the extraction and hands out the readings, in document order.
    pub fn finish(self) -> (records: Vec<WeatherData>)
        ensures
            weather_views(records@) == self@.records(),
    {
        let mut records = self.finished;
        match self.current {
            Some(reading) => {
                records.push(reading);
                assert(weather_views(records@) =~= weather_views(self.finished@).push(reading@));
            },
            None => {},
        }
        records
    }
}

/// Extracts the readings of a weather feed, in document order.
///
/// The feed is read in one forward pass. Elements outside the vocabulary and
/// events other than start tags are ignored. The run fails, and returns no
/// reading, where the markup is malformed or where a detail element comes
/// before any measurement-site-reference element.
pub fn parse_weather(xml: &[u8]) -> (outcome: Result<Vec<WeatherData>, ExtractError>)
    ensures
        weather_outcome(outcome) == weather_records(xml_events(xml@)),
{
    let mut reader = open_reader(xml);
    let mut extractor = WeatherExtractor::new();
    loop
        invariant
            complete(pending(reader)),
            weather_run(pending(reader), extractor@) == weather_records(xml_events(xml@)),
        decreases pending(reader).len(),
    {
        let ghost before = pending(reader);
        let item = next_item(&mut reader);
        proof {
            if !item@.event.is_terminal() {
                lemma_complete_rest(before);
            }
        }
        match extractor.on_item(&item) {
            WeatherStep::Continue => {},
            WeatherStep::Finished => {
                return Ok(extractor.finish());
            },
            WeatherStep::Failed(error) => {
                return Err(error);
            },
            WeatherStep::ReadText { field } => {
                if let XmlEvent::Start { name, .. } = &item.event {
                    proof {
                        lemma_text_reading_rest(pending(reader), name@);
                    }
                    match read_text(&mut reader, name.as_slice()) {
                        Ok(text) => {
                            extractor.store(field, text);
                        },
                        Err(position) => {
                            return Err(ExtractError::Malformed { position });
                        },
                    }
                }
            },
        }
    }
}

} // verus!
