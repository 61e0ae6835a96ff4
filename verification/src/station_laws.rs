//! What holds of every station extraction.

use crate::attributes::attributes_of;
use crate::attributes::id_of;
use crate::error::ExtractError;
use crate::records::StationView;
use crate::station::station_records;
use crate::station::station_run;
use crate::station::DetailStep;
use crate::station::StationState;
use crate::vocabulary::local_name;
use crate::vocabulary::station_tag;
use crate::vocabulary::StationField;
use crate::vocabulary::StationTag;
use crate::xml::complete;
use crate::xml::lemma_complete_prepend;
use crate::xml::EventView;
use crate::xml::ItemView;
use vstd::prelude::*;

verus! {

/// Whether the event is the start of a site-record element.
pub open spec fn opens_site(event: EventView) -> bool {
    event matches EventView::Start { name, .. } && station_tag(local_name(name))
        == StationTag::SiteRecord
}

/// Whether the event is the start of a detail element.
pub open spec fn opens_detail(event: EventView) -> bool {
    event matches EventView::Start { name, .. } && station_tag(local_name(name)) is Detail
}

/// Whether the extractor goes past the event without a change of state:
/// reading does not stop at it, and it starts no element of the vocabulary.
pub open spec fn ignorable(event: EventView) -> bool {
    !event.is_terminal() && !opens_site(event) && !opens_detail(event)
}

/// An ignorable event at the front of a stream changes nothing.
pub proof fn lemma_run_past_ignorable(item: ItemView, rest: Seq<ItemView>, state: StationState)
    requires
        complete(rest),
        ignorable(item.event),
    ensures
        complete(seq![item] + rest),
        station_run(seq![item] + rest, state) == station_run(rest, state),
{
    let all = seq![item] + rest;
    lemma_complete_prepend(seq![item], rest);
    assert(all[0] == item);
    assert(all.skip(1) =~= rest);
}

/// Without a site-record element there is no station, and the extraction
/// comes to the empty list exactly where the feed is read to its end and
/// holds no detail element either. Where reading stops at a fault, and where
/// a detail element is met, which finds no station open, the extraction
/// fails.
pub proof fn lemma_no_site_record(items: Seq<ItemView>)
    requires
        complete(items),
        forall|i: int| 0 <= i < items.len() ==> !opens_site(#[trigger] items[i].event),
    ensures
        station_records(items) == Ok::<Seq<StationView>, ExtractError>(Seq::empty()) <==> (
        items.last().event is Eof && forall|i: int|
            0 <= i < items.len() ==> !opens_detail(#[trigger] items[i].event)),
        station_records(items) is Ok ==> station_records(items) == Ok::<
            Seq<StationView>,
            ExtractError,
        >(Seq::empty()),
    decreases items.len(),
{
    let state = StationState::initial();
    let first = items[0];
    assert(!opens_site(first.event));
    if first.event.is_terminal() {
        assert(items.len() == 1) by {
            if items.len() > 1 {
                assert(!items[0].event.is_terminal());
            }
        }
    } else if opens_detail(first.event) {
    } else {
        let rest = items.skip(1);
        crate::xml::lemma_complete_rest(items);
        assert forall|i: int| 0 <= i < rest.len() implies !opens_site(#[trigger] rest[i].event) by {
            assert(rest[i] == items[i + 1]);
        }
        lemma_no_site_record(rest);
        assert(station_run(items, state) == station_run(rest, state));
        assert(rest.last() == items.last());
        if forall|i: int| 0 <= i < rest.len() ==> !opens_detail(#[trigger] rest[i].event) {
            assert forall|i: int| 0 <= i < items.len() implies !opens_detail(
                #[trigger] items[i].event,
            ) by {
                if i > 0 {
                    assert(items[i] == rest[i - 1]);
                }
            }
        } else {
            let k = choose|k: int| 0 <= k < rest.len() && opens_detail(#[trigger] rest[k].event);
            assert(items[k + 1] == rest[k]);
        }
    }
}

/// A piece of what follows the opening tag of a site record.
pub enum Part {
    /// A detail element that holds text: its opening tag, its character
    /// data and its closing tag.
    Detail { start: ItemView, text: ItemView, end: ItemView },
    /// An event that the extractor ignores.
    Other { item: ItemView },
}

/// The field that a detail element fills.
pub open spec fn detail_field(event: EventView) -> StationField
    recommends
        opens_detail(event),
{
    station_tag(local_name(event->Start_name))->Detail_0
}

impl Part {
    /// Whether the part is what its kind says.
    pub open spec fn regular(self) -> bool {
        match self {
            Part::Detail { start, text, end } => {
                &&& opens_detail(start.event)
                &&& text.event matches EventView::Text { content: Some(_) }
                &&& end.event == (EventView::End { name: start.event->Start_name })
            },
            Part::Other { item } => ignorable(item.event),
        }
    }

    /// The events of the part.
    pub open spec fn items(self) -> Seq<ItemView> {
        match self {
            Part::Detail { start, text, end } => seq![start, text, end],
            Part::Other { item } => seq![item],
        }
    }

    /// Whether the part is a detail element for `field`.
    pub open spec fn fills(self, field: StationField) -> bool {
        self matches Part::Detail { start, .. } && detail_field(start.event) == field
    }

    /// The text of a detail element.
    pub open spec fn text(self) -> Seq<char> {
        match self {
            Part::Detail { text, .. } => text.event->content->0,
            Part::Other { .. } => Seq::empty(),
        }
    }
}

/// The events of a list of parts, in order.
pub open spec fn parts_items(parts: Seq<Part>) -> Seq<ItemView>
    decreases parts.len(),
{
    if parts.len() == 0 {
        Seq::empty()
    } else {
        parts[0].items() + parts_items(parts.skip(1))
    }
}

/// How many of the parts are detail elements for `field`.
pub open spec fn occurrences(parts: Seq<Part>, field: StationField) -> nat
    decreases parts.len(),
{
    if parts.len() == 0 {
        0
    } else if parts[0].fills(field) {
        1 + occurrences(parts.skip(1), field)
    } else {
        occurrences(parts.skip(1), field)
    }
}

/// The text of the first detail element for `field` among the parts.
pub open spec fn first_text(parts: Seq<Part>, field: StationField) -> Seq<char>
    decreases parts.len(),
{
    if parts.len() == 0 {
        Seq::empty()
    } else if parts[0].fills(field) {
        parts[0].text()
    } else {
        first_text(parts.skip(1), field)
    }
}

/// A site record as the feed is expected to write it: the opening tag, which
/// gives an identifier, and then, among events that are ignored, one name,
/// one road number, one county number, two latitudes and two longitudes.
pub struct Site {
    pub open: ItemView,
    pub parts: Seq<Part>,
}

impl Site {
    /// The identifier that the opening tag gives.
    pub open spec fn id(self) -> Option<Seq<char>> {
        id_of(attributes_of(self.open.event->Start_tag, self.open.event->Start_name.len()))
    }

    /// Whether the site record is written as expected.
    pub open spec fn regular(self) -> bool {
        &&& opens_site(self.open.event)
        &&& self.id() is Some
        &&& forall|i: int| 0 <= i < self.parts.len() ==> (#[trigger] self.parts[i]).regular()
        &&& occurrences(self.parts, StationField::Name) == 1
        &&& occurrences(self.parts, StationField::RoadNumber) == 1
        &&& occurrences(self.parts, StationField::CountyNumber) == 1
        &&& occurrences(self.parts, StationField::Latitude) == 2
        &&& occurrences(self.parts, StationField::Longitude) == 2
    }

    /// The events of the site record.
    pub open spec fn items(self) -> Seq<ItemView> {
        seq![self.open] + parts_items(self.parts)
    }

    /// The station that the site record describes: each field has the text
    /// of the first element written for it.
    pub open spec fn station(self) -> StationView {
        StationView {
            id: self.id()->0,
            name: first_text(self.parts, StationField::Name),
            road_number: first_text(self.parts, StationField::RoadNumber),
            county_number: first_text(self.parts, StationField::CountyNumber),
            latitude: first_text(self.parts, StationField::Latitude),
            longitude: first_text(self.parts, StationField::Longitude),
        }
    }
}

/// The events of a list of site records, in order.
pub open spec fn sites_items(sites: Seq<Site>) -> Seq<ItemView>
    decreases sites.len(),
{
    if sites.len() == 0 {
        Seq::empty()
    } else {
        sites[0].items() + sites_items(sites.skip(1))
    }
}

/// The events of a feed: ignored events, then the site records, then the
/// end of the input.
pub open spec fn regular_feed(lead: Seq<ItemView>, sites: Seq<Site>, eof: ItemView) -> Seq<
    ItemView,
> {
    lead + (sites_items(sites) + seq![eof])
}

/// The state after a part, for an extraction with a station open.
pub open spec fn after_part(state: StationState, part: Part) -> StationState {
    match part {
        Part::Detail { start, .. } => {
            let field = detail_field(start.event);
            if state.detail_step(field) == DetailStep::PassOver {
                state.pass_over(field)
            } else {
                state.store(field, part.text())
            }
        },
        Part::Other { .. } => state,
    }
}

/// The state after a list of parts, for an extraction with a station open.
pub open spec fn after_parts(state: StationState, parts: Seq<Part>) -> StationState
    decreases parts.len(),
{
    if parts.len() == 0 {
        state
    } else {
        after_parts(after_part(state, parts[0]), parts.skip(1))
    }
}

/// The text that a station holds for a field.
pub open spec fn field_text(station: StationView, field: StationField) -> Seq<char> {
    match field {
        StationField::Name => station.name,
        StationField::RoadNumber => station.road_number,
        StationField::CountyNumber => station.county_number,
        StationField::Latitude => station.latitude,
        StationField::Longitude => station.longitude,
    }
}

/// Whether the field is one that the feed writes twice.
pub open spec fn repeated(field: StationField) -> bool {
    field == StationField::Latitude || field == StationField::Longitude
}

/// Whether an element for the field was read and its repetition is awaited.
pub open spec fn awaits_repetition(state: StationState, field: StationField) -> bool {
    match field {
        StationField::Latitude => state.latitude_seen,
        StationField::Longitude => state.longitude_seen,
        _ => false,
    }
}

/// A regular part at the front of a stream takes the extraction to the
/// state after the part.
proof fn lemma_run_part(part: Part, rest: Seq<ItemView>, state: StationState)
    requires
        part.regular(),
        complete(rest),
        state.current is Some,
    ensures
        complete(part.items() + rest),
        station_run(part.items() + rest, state) == station_run(rest, after_part(state, part)),
{
    match part {
        Part::Other { item } => {
            lemma_run_past_ignorable(item, rest, state);
        },
        Part::Detail { start, text, end } => {
            let all = part.items() + rest;
            let name = start.event->Start_name;
            let field = detail_field(start.event);
            let closed = seq![end] + rest;
            let inner = seq![text] + closed;
            lemma_complete_prepend(part.items(), rest);
            assert(all[0] == start);
            assert(all.skip(1) =~= inner);
            assert(inner.skip(1) =~= closed);
            assert(closed.skip(1) =~= rest);
            assert(inner.skip(2) =~= rest);
            if state.detail_step(field) == DetailStep::PassOver {
                let passed = state.pass_over(field);
                lemma_run_past_ignorable(end, rest, passed);
                lemma_run_past_ignorable(text, closed, passed);
            } else {
                assert(closed[0] == end);
                assert(crate::xml::closing(closed, name, 0).found);
                assert(crate::xml::closing(closed, name, 0).used == 1);
                assert(inner[0] == text);
                let reading = crate::xml::text_reading(inner, name);
                assert(reading.used == 2);
                assert(reading.outcome == Ok::<Seq<char>, usize>(part.text()));
            }
        },
    }
}

/// Regular parts at the front of a stream take the extraction to the state
/// after the parts.
proof fn lemma_run_parts(parts: Seq<Part>, rest: Seq<ItemView>, state: StationState)
    requires
        forall|i: int| 0 <= i < parts.len() ==> (#[trigger] parts[i]).regular(),
        complete(rest),
        state.current is Some,
    ensures
        complete(parts_items(parts) + rest),
        station_run(parts_items(parts) + rest, state) == station_run(
            rest,
            after_parts(state, parts),
        ),
    decreases parts.len(),
{
    if parts.len() == 0 {
        assert(parts_items(parts) + rest =~= rest);
    } else {
        let part = parts[0];
        let tail = parts.skip(1);
        let next = after_part(state, part);
        assert forall|i: int| 0 <= i < tail.len() implies (#[trigger] tail[i]).regular() by {
            assert(tail[i] == parts[i + 1]);
        }
        lemma_run_parts(tail, rest, next);
        lemma_run_part(part, parts_items(tail) + rest, state);
        assert(parts_items(parts) + rest =~= part.items() + (parts_items(tail) + rest));
    }
}

/// What a list of regular parts does to one field of the open station and
/// to the switch of that field, by the number of elements written for the
/// field.
proof fn lemma_after_parts(state: StationState, parts: Seq<Part>, field: StationField)
    requires
        state.current is Some,
        forall|i: int| 0 <= i < parts.len() ==> (#[trigger] parts[i]).regular(),
    ensures
        ({
            let after = after_parts(state, parts);
            let n = occurrences(parts, field);
            let before_text = field_text(state.current->0, field);
            let after_text = field_text(after.current->0, field);
            let awaited = awaits_repetition(state, field);
            &&& after.current is Some
            &&& after.finished == state.finished
            &&& after.current->0.id == state.current->0.id
            &&& n == 0 ==> after_text == before_text && awaits_repetition(after, field) == awaited
            &&& !awaited && n == 1 ==> after_text == first_text(parts, field) && awaits_repetition(
                after,
                field,
            ) == repeated(field)
            &&& !awaited && n == 2 && repeated(field) ==> after_text == first_text(parts, field)
                && !awaits_repetition(after, field)
            &&& awaited && n == 1 ==> after_text == before_text && !awaits_repetition(after, field)
        }),
    decreases parts.len(),
{
    if parts.len() > 0 {
        let part = parts[0];
        let tail = parts.skip(1);
        let next = after_part(state, part);
        assert(part.regular());
        assert forall|i: int| 0 <= i < tail.len() implies (#[trigger] tail[i]).regular() by {
            assert(tail[i] == parts[i + 1]);
        }
        lemma_after_parts(next, tail, field);
    }
}

/// A regular site record adds its station to the records and leaves both
/// switches as it found them.
proof fn lemma_after_site(site: Site, state: StationState)
    requires
        site.regular(),
        !state.latitude_seen,
        !state.longitude_seen,
    ensures
        after_parts(state.begin(site.id()->0), site.parts).records() == state.records().push(
            site.station(),
        ),
        !after_parts(state.begin(site.id()->0), site.parts).latitude_seen,
        !after_parts(state.begin(site.id()->0), site.parts).longitude_seen,
{
    let begun = state.begin(site.id()->0);
    let after = after_parts(begun, site.parts);
    lemma_after_parts(begun, site.parts, StationField::Name);
    lemma_after_parts(begun, site.parts, StationField::RoadNumber);
    lemma_after_parts(begun, site.parts, StationField::CountyNumber);
    lemma_after_parts(begun, site.parts, StationField::Latitude);
    lemma_after_parts(begun, site.parts, StationField::Longitude);
    assert(after.current->0 == site.station());
}

/// A regular site record at the front of a stream takes the extraction to
/// the state after its parts.
proof fn lemma_run_site(site: Site, rest: Seq<ItemView>, state: StationState)
    requires
        site.regular(),
        complete(rest),
    ensures
        complete(site.items() + rest),
        station_run(site.items() + rest, state) == station_run(
            rest,
            after_parts(state.begin(site.id()->0), site.parts),
        ),
{
    let begun = state.begin(site.id()->0);
    let inner = parts_items(site.parts) + rest;
    let all = site.items() + rest;
    lemma_run_parts(site.parts, rest, begun);
    lemma_complete_prepend(seq![site.open], inner);
    assert(all =~= seq![site.open] + inner);
    assert(all[0] == site.open);
    assert(all.skip(1) =~= inner);
}

/// Regular site records followed by the end of the input add one station
/// each to the records.
proof fn lemma_run_sites(sites: Seq<Site>, eof: ItemView, state: StationState)
    requires
        forall|i: int| 0 <= i < sites.len() ==> (#[trigger] sites[i]).regular(),
        eof.event is Eof,
        !state.latitude_seen,
        !state.longitude_seen,
    ensures
        complete(sites_items(sites) + seq![eof]),
        station_run(sites_items(sites) + seq![eof], state) == Ok::<Seq<StationView>, ExtractError>(
            state.records() + sites.map_values(|s: Site| s.station()),
        ),
    decreases sites.len(),
{
    let all = sites_items(sites) + seq![eof];
    let stations = sites.map_values(|s: Site| s.station());
    if sites.len() == 0 {
        assert(all =~= seq![eof]);
        assert(state.records() + stations =~= state.records());
    } else {
        let site = sites[0];
        let tail = sites.skip(1);
        let rest = sites_items(tail) + seq![eof];
        let next = after_parts(state.begin(site.id()->0), site.parts);
        assert forall|i: int| 0 <= i < tail.len() implies (#[trigger] tail[i]).regular() by {
            assert(tail[i] == sites[i + 1]);
        }
        lemma_after_site(site, state);
        lemma_run_sites(tail, eof, next);
        lemma_run_site(site, rest, state);
        assert(all =~= site.items() + rest);
        assert(next.records() + tail.map_values(|s: Site| s.station()) =~= state.records()
            + stations);
    }
}

/// In a feed of site records that each hold, after the opening tag, one
/// name, one road number, one county number, two latitudes and two
/// longitudes, in any order and among any events that are ignored, the
/// extraction yields one station for each site record, in order. Each
/// station has the identifier of its opening tag, and every field, the
/// latitude and the longitude too, has the text of the first element
/// written for it.
pub proof fn lemma_regular_feed(lead: Seq<ItemView>, sites: Seq<Site>, eof: ItemView)
    requires
        forall|i: int| 0 <= i < lead.len() ==> ignorable(#[trigger] lead[i].event),
        forall|i: int| 0 <= i < sites.len() ==> (#[trigger] sites[i]).regular(),
        eof.event is Eof,
    ensures
        complete(regular_feed(lead, sites, eof)),
        station_records(regular_feed(lead, sites, eof)) == Ok::<Seq<StationView>, ExtractError>(
            sites.map_values(|s: Site| s.station()),
        ),
        sites.map_values(|s: Site| s.station()).len() == sites.len(),
    decreases lead.len(),
{
    let state = StationState::initial();
    let body = sites_items(sites) + seq![eof];
    let stations = sites.map_values(|s: Site| s.station());
    if lead.len() == 0 {
        lemma_run_sites(sites, eof, state);
        assert(lead + body =~= body);
        assert(state.records() + stations =~= stations);
    } else {
        let tail = lead.skip(1);
        assert forall|i: int| 0 <= i < tail.len() implies ignorable(#[trigger] tail[i].event) by {
            assert(tail[i] == lead[i + 1]);
        }
        lemma_regular_feed(tail, sites, eof);
        lemma_run_past_ignorable(lead[0], tail + body, state);
        assert(lead + body =~= seq![lead[0]] + (tail + body));
    }
}

} // verus!
