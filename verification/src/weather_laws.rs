//! What holds of every reading extraction.

use crate::error::ExtractError;
use crate::records::WeatherView;
use crate::vocabulary::local_name;
use crate::vocabulary::weather_tag;
use crate::vocabulary::WeatherTag;
use crate::weather::weather_records;
use crate::weather::weather_run;
use crate::weather::WeatherState;
use crate::xml::complete;
use crate::xml::lemma_complete_rest;
use crate::xml::EventView;
use crate::xml::ItemView;
use vstd::prelude::*;

verus! {

/// Whether the event is the start of a measurement-site-reference element.
pub open spec fn opens_reference(event: EventView) -> bool {
    event matches EventView::Start { name, .. } && weather_tag(local_name(name))
        == WeatherTag::SiteReference
}

/// Whether the event is the start of a detail element.
pub open spec fn opens_weather_detail(event: EventView) -> bool {
    event matches EventView::Start { name, .. } && weather_tag(local_name(name)) is Detail
}

/// Without a measurement-site-reference element there is no reading, and
/// the extraction comes to the empty list exactly where the feed is read to
/// its end and holds no detail element either. Where reading stops at a
/// fault, and where a detail element is met, which finds no reading open,
/// the extraction fails.
pub proof fn lemma_no_site_reference(items: Seq<ItemView>)
    requires
        complete(items),
        forall|i: int| 0 <= i < items.len() ==> !opens_reference(#[trigger] items[i].event),
    ensures
        weather_records(items) == Ok::<Seq<WeatherView>, ExtractError>(Seq::empty()) <==> (
        items.last().event is Eof && forall|i: int|
            0 <= i < items.len() ==> !opens_weather_detail(#[trigger] items[i].event)),
        weather_records(items) is Ok ==> weather_records(items) == Ok::<
            Seq<WeatherView>,
            ExtractError,
        >(Seq::empty()),
    decreases items.len(),
{
    let state = WeatherState::initial();
    let first = items[0];
    assert(!opens_reference(first.event));
    if first.event.is_terminal() {
        assert(items.len() == 1) by {
            if items.len() > 1 {
                assert(!items[0].event.is_terminal());
            }
        }
    } else if opens_weather_detail(first.event) {
    } else {
        let rest = items.skip(1);
        lemma_complete_rest(items);
        assert forall|i: int| 0 <= i < rest.len() implies !opens_reference(
            #[trigger] rest[i].event,
        ) by {
            assert(rest[i] == items[i + 1]);
        }
        lemma_no_site_reference(rest);
        assert(weather_run(items, state) == weather_run(rest, state));
        assert(rest.last() == items.last());
        if forall|i: int| 0 <= i < rest.len() ==> !opens_weather_detail(#[trigger] rest[i].event) {
            assert forall|i: int| 0 <= i < items.len() implies !opens_weather_detail(
                #[trigger] items[i].event,
            ) by {
                if i > 0 {
                    assert(items[i] == rest[i - 1]);
                }
            }
        } else {
            let k = choose|k: int|
                0 <= k < rest.len() && opens_weather_detail(#[trigger] rest[k].event);
            assert(items[k + 1] == rest[k]);
        }
    }
}

} // verus!
