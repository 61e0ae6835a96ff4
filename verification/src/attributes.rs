//! The attributes of a start tag, and the identifier that a record takes
//! from them.

use crate::vocabulary::ascii;
use quick_xml::events::BytesStart;
use vstd::prelude::*;
use vstd::utf8::decode_utf8;
use vstd::utf8::valid_utf8;

verus! {

/// One attribute of a start tag, as plain values.
#[derive(Debug, Clone, PartialEq, Eq)]
pub enum XmlAttr {
    /// A key and its raw value, without the quotes.
    Pair { key: Vec<u8>, value: Vec<u8> },
    /// Attribute text that cannot be read as a key and a quoted value. Nothing
    /// follows it.
    Malformed,
}

/// The mathematical value of an [`XmlAttr`].
pub enum AttrView {
    Pair { key: Seq<u8>, value: Seq<u8> },
    Malformed,
}

impl View for XmlAttr {
    type V = AttrView;

    open spec fn view(&self) -> AttrView {
        match *self {
            XmlAttr::Pair { key, value } => AttrView::Pair { key: key@, value: value@ },
            XmlAttr::Malformed => AttrView::Malformed,
        }
    }
}

/// The values of a list of attributes, in order.
pub open spec fn attr_views(attrs: Seq<XmlAttr>) -> Seq<AttrView> {
    attrs.map_values(|a: XmlAttr| a@)
}

/// The attributes written in a start tag, in the order of the tag: what the
/// tokenizer's attribute iterator yields for the tag content `tag`, whose
/// first `name_len` bytes are the element name, when it does not check for
/// repeated keys.
pub uninterp spec fn attributes_of(tag: Seq<u8>, name_len: nat) -> Seq<AttrView>;

/// Lists the attributes of a start tag with `BytesStart::attributes`, from a
/// tag rebuilt by `BytesStart::borrowed`, with `Attributes::with_checks`
/// switched off. Each item that the iterator yields is kept, in order: a pair
/// as its key and raw value, an error as `Malformed`.
#[verifier::external_body]
pub(crate) fn tag_attributes(tag: &[u8], name_len: usize) -> (attrs: Vec<XmlAttr>)
    ensures
        attr_views(attrs@) == attributes_of(tag@, name_len as nat),
{
    BytesStart::borrowed(tag, name_len)
        .attributes()
        .with_checks(false)
        .map(|item| match item {
            Ok(a) => XmlAttr::Pair { key: a.key.to_vec(), value: a.value.into_owned() },
            Err(_) => XmlAttr::Malformed,
        })
        .collect()
}

/// Reads bytes as UTF-8 text with `std::str::from_utf8`, which accepts
/// exactly the valid encodings.
#[verifier::external_body]
pub(crate) fn utf8_text<'a>(bytes: &'a [u8]) -> (text: Option<&'a str>)
    ensures
        text is Some <==> valid_utf8(bytes@),
        text matches Some(s) ==> s@ == decode_utf8(bytes@),
{
    std::str::from_utf8(bytes).ok()
}

/// The identifier that the attributes give, reading them in order from
/// `found`, the identifier so far. Each attribute with the key `id` replaces
/// it with its value. There is none where an attribute is malformed or where
/// such a value is not valid UTF-8.
pub open spec fn id_from(attrs: Seq<AttrView>, found: Seq<char>) -> Option<Seq<char>>
    decreases attrs.len(),
{
    if attrs.len() == 0 {
        Some(found)
    } else {
        match attrs[0] {
            AttrView::Malformed => None,
            AttrView::Pair { key, value } => {
                if key != ascii("id"@) {
                    id_from(attrs.skip(1), found)
                } else if valid_utf8(value) {
                    id_from(attrs.skip(1), decode_utf8(value))
                } else {
                    None
                }
            },
        }
    }
}

/// The identifier that a start tag gives to the record it opens: the value
/// of its last `id` attribute, or the empty text where it has none.
pub open spec fn id_of(attrs: Seq<AttrView>) -> Option<Seq<char>> {
    id_from(attrs, Seq::empty())
}

/// The view of an optional text.
pub open spec fn optional_text(text: Option<String>) -> Option<Seq<char>> {
    match text {
        Some(s) => Some(s@),
        None => None,
    }
}

/// Finds the identifier among the attributes of a start tag.
pub fn record_id(attrs: &Vec<XmlAttr>) -> (id: Option<String>)
    ensures
        optional_text(id) == id_of(attr_views(attrs@)),
{
    let ghost all = attr_views(attrs@);
    let mut found = String::new();
    let mut i: usize = 0;
    assert(all.skip(0) =~= all);
    while i < attrs.len()
        invariant
            i <= attrs.len(),
            all == attr_views(attrs@),
            id_from(all.skip(i as int), found@) == id_of(all),
        decreases attrs.len() - i,
    {
        proof {
            reveal_strlit("id");
            assert(all.skip(i as int)[0] == attrs@[i as int]@);
            assert(all.skip(i as int).skip(1) =~= all.skip(i + 1));
        }
        match &attrs[i] {
            XmlAttr::Malformed => {
                return None;
            },
            XmlAttr::Pair { key, value } => {
                if crate::vocabulary::is_word(key.as_slice(), "id") {
                    match utf8_text(value.as_slice()) {
                        Some(text) => {
                            found = text.to_owned();
                        },
                        None => {
                            return None;
                        },
                    }
                }
            },
        }
        i += 1;
    }
    assert(all.skip(i as int).len() == 0);
    Some(found)
}

} // verus!
