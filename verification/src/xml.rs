//! The boundary to the XML tokenizer.
//!
//! Everything the extractors know about markup comes through this module. A
//! reader is modelled as the sequence of events it has yet to deliver; each
//! event is held as plain values, paired with the byte offset at which the
//! reader stands once the event has been delivered.

use quick_xml::events::Event;
use quick_xml::Reader;
use vstd::prelude::*;

verus! {

/// One markup event, as plain values.
#[derive(Debug, Clone, PartialEq, Eq)]
pub enum XmlEvent {
    /// An opening tag: its qualified name, and the whole tag content (the name
    /// followed by the raw attribute text).
    Start { name: Vec<u8>, tag: Vec<u8> },
    /// A closing tag and its qualified name.
    End { name: Vec<u8> },
    /// Character data, unescaped and decoded; `None` where it cannot be.
    Text { content: Option<String> },
    /// The end of the input.
    Eof,
    /// The tokenizer could not go on.
    Fault,
    /// Any other event: an empty element, a comment, a declaration and so on.
    Other,
}

/// An event together with the reader's byte offset after it.
#[derive(Debug, Clone, PartialEq, Eq)]
pub struct XmlItem {
    pub event: XmlEvent,
    pub offset: usize,
}

/// The mathematical value of an [`XmlEvent`].
pub enum EventView {
    Start { name: Seq<u8>, tag: Seq<u8> },
    End { name: Seq<u8> },
    Text { content: Option<Seq<char>> },
    Eof,
    Fault,
    Other,
}

/// The mathematical value of an [`XmlItem`].
pub struct ItemView {
    pub event: EventView,
    pub offset: usize,
}

impl View for XmlEvent {
    type V = EventView;

    open spec fn view(&self) -> EventView {
        match *self {
            XmlEvent::Start { name, tag } => EventView::Start { name: name@, tag: tag@ },
            XmlEvent::End { name } => EventView::End { name: name@ },
            XmlEvent::Text { content } => EventView::Text {
                content: match content {
                    Some(s) => Some(s@),
                    None => None,
                },
            },
            XmlEvent::Eof => EventView::Eof,
            XmlEvent::Fault => EventView::Fault,
            XmlEvent::Other => EventView::Other,
        }
    }
}

impl View for XmlItem {
    type V = ItemView;

    open spec fn view(&self) -> ItemView {
        ItemView { event: self.event@, offset: self.offset }
    }
}

impl EventView {
    /// Whether reading stops at this event.
    pub open spec fn is_terminal(self) -> bool {
        self is Eof || self is Fault
    }
}

/// A stream of events is complete when it ends with the end of input or a
/// fault, and holds neither before that.
pub open spec fn complete(items: Seq<ItemView>) -> bool {
    &&& items.len() > 0
    &&& items.last().event.is_terminal()
    &&& forall|i: int| 0 <= i < items.len() - 1 ==> !(#[trigger] items[i]).event.is_terminal()
}

/// A tokenizer at work on a document held in memory: a `quick_xml::Reader`
/// over the bytes of the document.
#[verifier::external_body]
pub struct XmlReader<'a> {
    inner: Reader<&'a [u8]>,
}

/// The events that a reader has yet to deliver, up to and including the one
/// at which reading stops.
pub uninterp spec fn pending(reader: XmlReader) -> Seq<ItemView>;

/// The events of a document: what a reader that trims character data
/// delivers for these bytes, from the first event to the one at which
/// reading stops.
pub uninterp spec fn xml_events(input: Seq<u8>) -> Seq<ItemView>;

/// Makes a reader over `input` with `Reader::from_reader` and switches on
/// `Reader::trim_text`. The reader holds the events of the document, and
/// that stream is complete: the tokenizer reports the end of input once the
/// bytes are used up, and each earlier event uses at least one byte.
#[verifier::external_body]
pub(crate) fn open_reader<'a>(input: &'a [u8]) -> (reader: XmlReader<'a>)
    ensures
        pending(reader) == xml_events(input@),
        complete(pending(reader)),
{
    let mut inner = Reader::from_reader(input);
    inner.trim_text(true);
    XmlReader { inner }
}

/// Takes the next event with `Reader::read_event` and notes the offset with
/// `Reader::buffer_position`. A tag gives its name through `BytesStart::name`
/// or `BytesEnd::name`, character data its text through
/// `BytesText::unescape_and_decode`, and an error of the tokenizer becomes
/// `Fault`. The event is the first one pending; unless reading stops at it,
/// the rest stays pending.
#[verifier::external_body]
pub(crate) fn next_item(reader: &mut XmlReader) -> (item: XmlItem)
    requires
        complete(pending(*old(reader))),
    ensures
        item@ == pending(*old(reader))[0],
        !item@.event.is_terminal() ==> pending(*final(reader)) == pending(*old(reader)).skip(1),
{
    let mut buf = Vec::new();
    let event = match reader.inner.read_event(&mut buf) {
        Ok(Event::Start(e)) => XmlEvent::Start { name: e.name().to_vec(), tag: e.to_vec() },
        Ok(Event::End(e)) => XmlEvent::End { name: e.name().to_vec() },
        Ok(Event::Text(e)) => XmlEvent::Text { content: e.unescape_and_decode(&reader.inner).ok() },
        Ok(Event::Eof) => XmlEvent::Eof,
        Ok(_) => XmlEvent::Other,
        Err(_) => XmlEvent::Fault,
    };
    XmlItem { event, offset: reader.inner.buffer_position() }
}

/// How a search for the tag that closes an element ends: whether the tag was
/// met, and how many events the search used.
pub struct Closing {
    pub found: bool,
    pub used: nat,
}

impl Closing {
    /// The same end, one event later.
    pub open spec fn after_one(self) -> Closing {
        Closing { found: self.found, used: self.used + 1 }
    }
}

/// The search for the tag that closes the element `end`, with `depth`
/// elements of the same name still open inside it. An opening tag of that
/// name goes one level deeper and a closing tag one level up; the closing tag
/// met at level zero ends the search. It fails where reading stops first.
pub open spec fn closing(items: Seq<ItemView>, end: Seq<u8>, depth: nat) -> Closing
    decreases items.len(),
{
    if items.len() == 0 {
        Closing { found: false, used: 0 }
    } else {
        let rest = items.skip(1);
        match items[0].event {
            EventView::End { name } => {
                if name == end && depth == 0 {
                    Closing { found: true, used: 1 }
                } else if name == end {
                    closing(rest, end, (depth - 1) as nat).after_one()
                } else {
                    closing(rest, end, depth).after_one()
                }
            },
            EventView::Start { name, tag } => {
                if name == end {
                    closing(rest, end, depth + 1).after_one()
                } else {
                    closing(rest, end, depth).after_one()
                }
            },
            EventView::Eof => Closing { found: false, used: 1 },
            EventView::Fault => Closing { found: false, used: 1 },
            _ => closing(rest, end, depth).after_one(),
        }
    }
}

/// What reading the text of an element comes to: the text, or the offset at
/// which reading failed; and how many events it used.
pub struct TextReading {
    pub outcome: Result<Seq<char>, usize>,
    pub used: nat,
}

/// Reading the text of the element `end`, whose opening tag has just been
/// delivered.
///
/// Where character data comes next, it is the text, and the events up to the
/// closing tag of the element are used up with it; the reading fails where
/// that tag is never met, or where the character data cannot be decoded.
/// Where the closing tag comes next, the text is empty. Anything else coming
/// next is a failure. A failure carries the offset of the last event used.
pub open spec fn text_reading(items: Seq<ItemView>, end: Seq<u8>) -> TextReading {
    match items[0].event {
        EventView::Text { content } => {
            let close = closing(items.skip(1), end, 0);
            let used = close.used + 1;
            TextReading {
                outcome: match content {
                    Some(text) if close.found => Ok(text),
                    _ => Err(items[used - 1].offset),
                },
                used,
            }
        },
        EventView::End { name } => TextReading {
            outcome: if name == end {
                Ok(Seq::empty())
            } else {
                Err(items[0].offset)
            },
            used: 1,
        },
        _ => TextReading { outcome: Err(items[0].offset), used: 1 },
    }
}

/// The value of what [`read_text`] returns.
pub open spec fn text_view(text: Result<String, usize>) -> Result<Seq<char>, usize> {
    match text {
        Ok(s) => Ok(s@),
        Err(offset) => Err(offset),
    }
}

/// Reads the text of the element `end` with `Reader::read_text`, which takes
/// the next event, expects character data or the closing tag, and then reads
/// on to the closing tag of the element. On failure the offset comes from
/// `Reader::buffer_position`. Where the text was read, the events that the
/// reading used are gone and the rest stays pending.
#[verifier::external_body]
pub(crate) fn read_text(reader: &mut XmlReader, end: &[u8]) -> (text: Result<String, usize>)
    requires
        complete(pending(*old(reader))),
    ensures
        text_view(text) == text_reading(pending(*old(reader)), end@).outcome,
        text is Ok ==> pending(*final(reader)) == pending(*old(reader)).skip(
            text_reading(pending(*old(reader)), end@).used as int,
        ),
{
    match reader.inner.read_text(end, &mut Vec::new()) {
        Ok(text) => Ok(text),
        Err(_) => Err(reader.inner.buffer_position()),
    }
}

/// A complete stream stays complete when an event at which reading goes on is
/// taken from its front.
pub proof fn lemma_complete_rest(items: Seq<ItemView>)
    requires
        complete(items),
        !items[0].event.is_terminal(),
    ensures
        complete(items.skip(1)),
        items.skip(1).len() == items.len() - 1,
{
    let rest = items.skip(1);
    assert(items.len() > 1);
    assert(rest.last() == items.last());
    assert forall|i: int| 0 <= i < rest.len() - 1 implies !(#[trigger] rest[i]).event.is_terminal() by {
        assert(rest[i] == items[i + 1]);
    }
}

/// A stream is complete when events at which reading goes on are put before
/// a complete stream.
pub proof fn lemma_complete_prepend(front: Seq<ItemView>, rest: Seq<ItemView>)
    requires
        complete(rest),
        forall|i: int| 0 <= i < front.len() ==> !(#[trigger] front[i]).event.is_terminal(),
    ensures
        complete(front + rest),
{
    let all = front + rest;
    assert(all.last() == rest.last());
    assert forall|i: int| 0 <= i < all.len() - 1 implies !(#[trigger] all[i]).event.is_terminal() by {
        if i >= front.len() {
            assert(all[i] == rest[i - front.len()]);
        } else {
            assert(all[i] == front[i]);
        }
    }
}

/// A search for a closing tag uses no more events than there are, and a
/// search that meets the tag uses at least one and none at which reading
/// stops.
pub proof fn lemma_closing_bounds(items: Seq<ItemView>, end: Seq<u8>, depth: nat)
    ensures
        closing(items, end, depth).used <= items.len(),
        closing(items, end, depth).found ==> 1 <= closing(items, end, depth).used,
        closing(items, end, depth).found ==> forall|i: int|
            0 <= i < closing(items, end, depth).used ==> !(#[trigger] items[i]).event.is_terminal(),
    decreases items.len(),
{
    if items.len() > 0 {
        let rest = items.skip(1);
        let deeper = match items[0].event {
            EventView::End { name } => if name == end { (depth - 1) as nat } else { depth },
            EventView::Start { name, tag } => if name == end { depth + 1 } else { depth },
            _ => depth,
        };
        lemma_closing_bounds(rest, end, deeper);
        if closing(items, end, depth).found {
            let used = closing(items, end, depth).used;
            assert forall|i: int| 0 <= i < used implies !(#[trigger] items[i]).event.is_terminal() by {
                if i > 0 {
                    assert(items[i] == rest[i - 1]);
                }
            }
        }
    }
}

/// Reading a text from a complete stream uses at least one event; where it
/// succeeds, events are left, and they form a complete stream.
pub proof fn lemma_text_reading_rest(items: Seq<ItemView>, end: Seq<u8>)
    requires
        complete(items),
    ensures
        1 <= text_reading(items, end).used <= items.len(),
        text_reading(items, end).outcome is Ok ==> text_reading(items, end).used < items.len(),
        text_reading(items, end).outcome is Ok ==> complete(
            items.skip(text_reading(items, end).used as int),
        ),
{
    let reading = text_reading(items, end);
    let used = reading.used as int;
    lemma_closing_bounds(items.skip(1), end, 0);
    if reading.outcome is Ok {
        assert forall|i: int| 0 <= i < used implies !(#[trigger] items[i]).event.is_terminal() by {
            if i > 0 {
                assert(items[i] == items.skip(1)[i - 1]);
            }
        }
        assert(used < items.len()) by {
            if used >= items.len() {
                assert(!items[items.len() - 1].event.is_terminal());
            }
        }
        let rest = items.skip(used);
        assert(rest.last() == items.last());
        assert forall|i: int| 0 <= i < rest.len() - 1 implies !(#[trigger] rest[i]).event.is_terminal() by {
            assert(rest[i] == items[i + used]);
        }
    }
}

} // verus!
