//! Extraction of stations from a station feed.
//!
//! A site-record element opens a new station and gives it its identifier.
//! Until the next one, each detail element fills a field of that station
//! with its text. The feed writes the latitude and the longitude of a
//! station twice: a switch for each of the two fields, kept for the whole
//! feed, makes the extractor read one occurrence and pass over the next.

use crate::attributes::attributes_of;
use crate::attributes::id_of;
use crate::attributes::record_id;
use crate::attributes::tag_attributes;
use crate::error::ExtractError;
use crate::records::station_views;
use crate::records::StationData;
use crate::records::StationView;
use crate::vocabulary::classify_station;
use crate::vocabulary::local_name;
use crate::vocabulary::station_tag;
use crate::vocabulary::StationField;
use crate::vocabulary::StationTag;
use crate::xml::complete;
use crate::xml::lemma_complete_rest;
use crate::xml::lemma_text_reading_rest;
use crate::xml::next_item;
use crate::xml::open_reader;
use crate::xml::pending;
use crate::xml::read_text;
use crate::xml::text_reading;
use crate::xml::xml_events;
use crate::xml::EventView;
use crate::xml::ItemView;
use crate::xml::XmlEvent;
use crate::xml::XmlItem;
use vstd::prelude::*;

verus! {

/// What the extractor does on a detail element.
#[derive(Debug, Clone, Copy, PartialEq, Eq, Structural)]
pub enum DetailStep {
    /// The element repeats one that was read: it is passed over.
    PassOver,
    /// The text of the element is to be read and stored.
    ReadText,
    /// No station is open: the feed cannot be extracted.
    NoOpenRecord,
}

/// What the extractor does on an event of the feed.
#[derive(Debug, Clone, Copy, PartialEq, Eq, Structural)]
pub enum StationStep {
    /// Go on with the next event.
    Continue,
    /// Read the text of the element that the event opens, and store it in
    /// `field`.
    ReadText { field: StationField },
    /// The feed is at its end: the stations are complete.
    Finished,
    /// The feed cannot be extracted.
    Failed(ExtractError),
}

/// A station with one field replaced.
pub open spec fn station_with(
    station: StationView,
    field: StationField,
    text: Seq<char>,
) -> StationView {
    match field {
        StationField::Name => StationView { name: text, ..station },
        StationField::RoadNumber => StationView { road_number: text, ..station },
        StationField::CountyNumber => StationView { county_number: text, ..station },
        StationField::Latitude => StationView { latitude: text, ..station },
        StationField::Longitude => StationView { longitude: text, ..station },
    }
}

/// The state of a station extraction.
pub struct StationState {
    /// The stations that are complete, in document order.
    pub finished: Seq<StationView>,
    /// The station that is being filled.
    pub current: Option<StationView>,
    /// Whether the latitude was read and its repetition is still to come.
    pub latitude_seen: bool,
    /// Whether the longitude was read and its repetition is still to come.
    pub longitude_seen: bool,
}

impl StationState {
    /// The state in which an extraction starts.
    pub open spec fn initial() -> StationState {
        StationState {
            finished: Seq::empty(),
            current: None,
            latitude_seen: false,
            longitude_seen: false,
        }
    }

    /// All stations so far, the open one last.
    pub open spec fn records(self) -> Seq<StationView> {
        match self.current {
            Some(station) => self.finished.push(station),
            None => self.finished,
        }
    }

    /// The state after a site-record element with this identifier.
    pub open spec fn begin(self, id: Seq<char>) -> StationState {
        StationState {
            finished: self.records(),
            current: Some(StationView::with_id(id)),
            ..self
        }
    }

    /// What a detail element for `field` calls for.
    pub open spec fn detail_step(self, field: StationField) -> DetailStep {
        if field == StationField::Latitude && self.latitude_seen {
            DetailStep::PassOver
        } else if field == StationField::Longitude && self.longitude_seen {
            DetailStep::PassOver
        } else if self.current is None {
            DetailStep::NoOpenRecord
        } else {
            DetailStep::ReadText
        }
    }

    /// The state after a repeated element for `field` was passed over: the
    /// next one will be read again.
    pub open spec fn pass_over(self, field: StationField) -> StationState {
        match field {
            StationField::Latitude => StationState { latitude_seen: false, ..self },
            StationField::Longitude => StationState { longitude_seen: false, ..self },
            _ => self,
        }
    }

    /// The state after `text` was read for `field` of the open station.
    pub open spec fn store(self, field: StationField, text: Seq<char>) -> StationState
        recommends
            self.current is Some,
    {
        StationState {
            finished: self.finished,
            current: Some(station_with(self.current->0, field, text)),
            latitude_seen: self.latitude_seen || field == StationField::Latitude,
            longitude_seen: self.longitude_seen || field == StationField::Longitude,
        }
    }

    /// What an event of the feed calls for. Reading ends at the end of the
    /// input and fails at a fault. A site-record element must give an
    /// identifier; a detail element is passed over, is read, or fails for
    /// want of an open station. Every other event is ignored.
    pub open spec fn item_step(self, item: ItemView) -> StationStep {
        match item.event {
            EventView::Eof => StationStep::Finished,
            EventView::Fault => StationStep::Failed(
                ExtractError::Malformed { position: item.offset },
            ),
            EventView::Start { name, tag } => match station_tag(local_name(name)) {
                StationTag::SiteRecord => match id_of(attributes_of(tag, name.len())) {
                    Some(_) => StationStep::Continue,
                    None => StationStep::Failed(ExtractError::Malformed { position: item.offset }),
                },
                StationTag::Detail(field) => match self.detail_step(field) {
                    DetailStep::PassOver => StationStep::Continue,
                    DetailStep::ReadText => StationStep::ReadText { field },
                    DetailStep::NoOpenRecord => StationStep::Failed(
                        ExtractError::NoOpenRecord { position: item.offset },
                    ),
                },
                StationTag::Unknown => StationStep::Continue,
            },
            _ => StationStep::Continue,
        }
    }

    /// The state after an event of the feed, before any text is read: a
    /// site-record element opens a station, a detail element that is passed
    /// over sets its switch back, and nothing else changes the state.
    pub open spec fn after_item(self, item: ItemView) -> StationState {
        match item.event {
            EventView::Start { name, tag } => match station_tag(local_name(name)) {
                StationTag::SiteRecord => match id_of(attributes_of(tag, name.len())) {
                    Some(id) => self.begin(id),
                    None => self,
                },
                StationTag::Detail(field) => match self.detail_step(field) {
                    DetailStep::PassOver => self.pass_over(field),
                    _ => self,
                },
                StationTag::Unknown => self,
            },
            _ => self,
        }
    }
}

/// What the extraction of a complete stream of events comes to, from a given
/// state on: the events are taken one by one, and where the text of an
/// element is read, the events that the reading uses are passed by.
pub open spec fn station_run(items: Seq<ItemView>, state: StationState) -> Result<
    Seq<StationView>,
    ExtractError,
>
    decreases items.len(),
    when complete(items)
{
    let item = items[0];
    let rest = items.skip(1);
    match state.item_step(item) {
        StationStep::Finished => Ok(state.records()),
        StationStep::Failed(error) => Err(error),
        StationStep::Continue => station_run(rest, state.after_item(item)),
        StationStep::ReadText { field } => {
            let reading = text_reading(rest, item.event->Start_name);
            match reading.outcome {
                Ok(text) => {
                    proof {
                        lemma_complete_rest(items);
                        lemma_text_reading_rest(rest, item.event->Start_name);
                    }
                    station_run(rest.skip(reading.used as int), state.store(field, text))
                },
                Err(position) => Err(ExtractError::Malformed { position }),
            }
        },
    }
}

/// What the extraction of a complete stream of events comes to: the stations
/// in document order, or the failure that ends the run.
pub open spec fn station_records(items: Seq<ItemView>) -> Result<Seq<StationView>, ExtractError> {
    station_run(items, StationState::initial())
}

/// The value of the outcome of a station extraction.
pub open spec fn station_outcome(outcome: Result<Vec<StationData>, ExtractError>) -> Result<
    Seq<StationView>,
    ExtractError,
> {
    match outcome {
        Ok(records) => Ok(station_views(records@)),
        Err(e) => Err(e),
    }
}

/// A station extraction in progress.
pub struct StationExtractor {
    finished: Vec<StationData>,
    current: Option<StationData>,
    latitude_seen: bool,
    longitude_seen: bool,
}

impl View for StationExtractor {
    type V = StationState;

    closed spec fn view(&self) -> StationState {
        StationState {
            finished: station_views(self.finished@),
            current: match self.current {
                Some(station) => Some(station@),
                None => None,
            },
            latitude_seen: self.latitude_seen,
            longitude_seen: self.longitude_seen,
        }
    }
}

impl StationExtractor {
    /// An extraction that has seen nothing yet.
    pub fn new() -> (extractor: StationExtractor)
        ensures
            extractor@ == StationState::initial(),
    {
        let extractor = StationExtractor {
            finished: Vec::new(),
            current: None,
            latitude_seen: false,
            longitude_seen: false,
        };
        assert(station_views(extractor.finished@) =~= Seq::empty());
        extractor
    }

    /// Opens a new station with the given identifier.
    pub fn begin(&mut self, id: String)
        ensures
            final(self)@ == old(self)@.begin(id@),
    {
        let previous = self.current.take();
        match previous {
            Some(station) => {
                self.finished.push(station);
                assert(station_views(self.finished@) =~= station_views(old(self).finished@).push(
                    station@,
                ));
            },
            None => {},
        }
        self.current = Some(StationData::with_id(id));
    }

    /// Decides what a detail element for `field` calls for. Where the
    /// element is passed over, the switch of the field is set back.
    pub fn on_detail(&mut self, field: StationField) -> (step: DetailStep)
        ensures
            step == old(self)@.detail_step(field),
            step == DetailStep::PassOver ==> final(self)@ == old(self)@.pass_over(field),
            step != DetailStep::PassOver ==> final(self)@ == old(self)@,
    {
        match field {
            StationField::Latitude => {
                if self.latitude_seen {
                    self.latitude_seen = false;
                    return DetailStep::PassOver;
                }
            },
            StationField::Longitude => {
                if self.longitude_seen {
                    self.longitude_seen = false;
                    return DetailStep::PassOver;
                }
            },
            _ => {},
        }
        if self.current.is_none() {
            DetailStep::NoOpenRecord
        } else {
            DetailStep::ReadText
        }
    }

    /// Takes an event of the feed and says what it calls for. The state is
    /// changed as far as the event alone decides; a text that is to be read
    /// is stored afterwards, with [`StationExtractor::store`].
    pub fn on_item(&mut self, item: &XmlItem) -> (step: StationStep)
        ensures
            step == old(self)@.item_step(item@),
            final(self)@ == old(self)@.after_item(item@),
    {
        let position = item.offset;
        match &item.event {
            XmlEvent::Eof => StationStep::Finished,
            XmlEvent::Fault => StationStep::Failed(ExtractError::Malformed { position }),
            XmlEvent::Start { name, tag } => {
                match classify_station(name.as_slice()) {
                    StationTag::SiteRecord => {
                        let attrs = tag_attributes(tag.as_slice(), name.len());
                        match record_id(&attrs) {
                            Some(id) => {
                                self.begin(id);
                                StationStep::Continue
                            },
                            None => StationStep::Failed(ExtractError::Malformed { position }),
                        }
                    },
                    StationTag::Detail(field) => {
                        match self.on_detail(field) {
                            DetailStep::PassOver => StationStep::Continue,
                            DetailStep::ReadText => StationStep::ReadText { field },
                            DetailStep::NoOpenRecord => StationStep::Failed(
                                ExtractError::NoOpenRecord { position },
                            ),
                        }
                    },
                    StationTag::Unknown => StationStep::Continue,
                }
            },
            _ => StationStep::Continue,
        }
    }

    /// Stores the text read for `field` in the open station.
    pub fn store(&mut self, field: StationField, text: String)
        requires
            old(self)@.current is Some,
        ensures
            final(self)@ == old(self)@.store(field, text@),
    {
        let mut station = self.current.take().unwrap();
        match field {
            StationField::Name => {
                station.name = text;
            },
            StationField::RoadNumber => {
                station.road_number = text;
            },
            StationField::CountyNumber => {
                station.county_number = text;
            },
            StationField::Latitude => {
                station.latitude = text;
                self.latitude_seen = true;
            },
            StationField::Longitude => {
                station.longitude = text;
                self.longitude_seen = true;
            },
        }
        self.current = Some(station);
    }

    /// Ends the extraction and hands out the stations, in document order.
    pub fn finish(self) -> (records: Vec<StationData>)
        ensures
            station_views(records@) == self@.records(),
    {
        let mut records = self.finished;
        match self.current {
            Some(station) => {
                records.push(station);
                assert(station_views(records@) =~= station_views(self.finished@).push(station@));
            },
            None => {},
        }
        records
    }
}

/// Extracts the stations of a station feed, in document order.
///
/// The feed is read in one forward pass. Elements outside the vocabulary and
/// events other than start tags are ignored. The run fails, and returns no
/// station, where the markup is malformed or where a detail element comes
/// before any site-record element.
pub fn parse_station(xml: &[u8]) -> (outcome: Result<Vec<StationData>, ExtractError>)
    ensures
        station_outcome(outcome) == station_records(xml_events(xml@)),
{
    let mut reader = open_reader(xml);
    let mut extractor = StationExtractor::new();
    loop
        invariant
            complete(pending(reader)),
            station_run(pending(reader), extractor@) == station_records(xml_events(xml@)),
        decreases pending(reader).len(),
    {
        let ghost before = pending(reader);
        let item = next_item(&mut reader);
        proof {
            if !item@.event.is_terminal() {
                lemma_complete_rest(before);
            }
        }
        match extractor.on_item(&item) {
            StationStep::Continue => {},
            StationStep::Finished => {
                return Ok(extractor.finish());
            },
            StationStep::Failed(error) => {
                return Err(error);
            },
            StationStep::ReadText { field } => {
                if let XmlEvent::Start { name, .. } = &item.event {
                    proof {
                        lemma_text_reading_rest(pending(reader), name@);
                    }
                    match read_text(&mut reader, name.as_slice()) {
                        Ok(text) => {
                            extractor.store(field, text);
                        },
                        Err(position) => {
                            return Err(ExtractError::Malformed { position });
                        },
                    }
                }
            },
        }
    }
}

} // verus!
