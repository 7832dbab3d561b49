//! A tag source over real XML: adapts a pull-based XML reader to the
//! tag-event interface. The reader itself is outside code, taken on trust at
//! the narrowest boundary; naming the elements and shaping the events is
//! verified code here.

use vstd::prelude::*;

use crate::tags::{
    opt_item_matches, Attributes, EventView, ItemView, Tag, TagError, TagEvent, TagParser,
};
use crate::text::eq_str;

verus! {

/// One raw markup event, reduced to plain values: an element boundary with
/// its name (and, opening, its attributes), the end of the document, a reader
/// failure, or anything else.
pub enum RawEvent {
    Start { name: String, attributes: Vec<(String, String)> },
    End { name: String },
    Fault { message: String },
    Finished,
    Other,
}

/// Model of a raw markup event.
#[verifier::ext_equal]
pub enum RawView {
    Start { name: Seq<char>, attributes: Seq<(Seq<char>, Seq<char>)> },
    End { name: Seq<char> },
    Fault { message: Seq<char> },
    Finished,
    Other,
}

impl View for RawEvent {
    type V = RawView;

    open spec fn view(&self) -> RawView {
        match self {
            RawEvent::Start { name, attributes } => RawView::Start {
                name: name@,
                attributes: attributes@.map_values(|p: (String, String)| (p.0@, p.1@)),
            },
            RawEvent::End { name } => RawView::End { name: name@ },
            RawEvent::Fault { message } => RawView::Fault { message: message@ },
            RawEvent::Finished => RawView::Finished,
            RawEvent::Other => RawView::Other,
        }
    }
}

/// The tag a raw element name stands for; names outside the recognized set
/// map to `Unknown`.
pub open spec fn tag_of(name: Seq<char>) -> Tag {
    if name == "Schema"@ {
        Tag::Schema
    } else if name == "EntityType"@ {
        Tag::EntityType
    } else if name == "Property"@ {
        Tag::Property
    } else if name == "NavigationProperty"@ {
        Tag::NavigationProperty
    } else if name == "PropertyRef"@ {
        Tag::PropertyRef
    } else {
        Tag::Unknown
    }
}

/// Maps a raw element name to its tag.
pub fn build_tag(name: &str) -> (r: Tag)
    ensures
        r == tag_of(name@),
{
    if eq_str(name, "Schema") {
        Tag::Schema
    } else if eq_str(name, "EntityType") {
        Tag::EntityType
    } else if eq_str(name, "Property") {
        Tag::Property
    } else if eq_str(name, "NavigationProperty") {
        Tag::NavigationProperty
    } else if eq_str(name, "PropertyRef") {
        Tag::PropertyRef
    } else {
        Tag::Unknown
    }
}

/// A tag source over one XML document held in memory as bytes. The reader
/// inside is outside code (Verus cannot name its type), so the whole struct
/// is opaque; everything proved about the events it hands out happens in
/// `next_event` above the raw boundary.
#[verifier::external_body]
pub struct XmlTagParser {
    reader: xml::reader::EventReader<std::io::Cursor<Vec<u8>>>,
}

impl XmlTagParser {
    /// Relies on xml::reader::EventReader::new: builds a pull parser that
    /// will read the given bytes as one XML document.
    #[verifier::external_body]
    pub fn new(bytes: Vec<u8>) -> XmlTagParser {
        XmlTagParser { reader: xml::reader::EventReader::new(std::io::Cursor::new(bytes)) }
    }

    /// Relies on xml::reader::EventReader::next: pulls the document's next
    /// event. `StartElement`/`EndElement` become `Start`/`End` with the
    /// element's local name and (opening) its attributes' local names and
    /// values; `EndDocument` becomes `Finished`, an error its message, every
    /// other event kind `Other`.
    #[verifier::external_body]
    fn reader_next(&mut self) -> RawEvent {
        match self.reader.next() {
            Ok(xml::reader::XmlEvent::StartElement { name, attributes, .. }) => RawEvent::Start {
                name: name.local_name,
                attributes: attributes.into_iter().map(|a| (a.name.local_name, a.value)).collect(),
            },
            Ok(xml::reader::XmlEvent::EndElement { name }) => RawEvent::End { name: name.local_name },
            Ok(xml::reader::XmlEvent::EndDocument) => RawEvent::Finished,
            Ok(_) => RawEvent::Other,
            Err(e) => RawEvent::Fault { message: e.msg() },
        }
    }
}

/// The tag-stream item a raw markup event stands for: element boundaries
/// become `Open`/`Close` under `tag_of` their name, a reader failure carries
/// its message, the end of the document ends the stream, and any other
/// markup event is an ignored close of `Unknown`.
pub open spec fn raw_item(raw: RawView) -> Option<ItemView> {
    match raw {
        RawView::Start { name, attributes } => Some(
            Ok(EventView::Open { tag: tag_of(name), attributes }),
        ),
        RawView::End { name } => Some(Ok(EventView::Close { tag: tag_of(name) })),
        RawView::Fault { message } => Some(Err(message)),
        RawView::Finished => None,
        RawView::Other => Some(Ok(EventView::Close { tag: Tag::Unknown })),
    }
}

/// Shapes one raw markup event into its tag-stream item, exactly `raw_item`.
pub fn shape_event(raw: RawEvent) -> (r: Option<Result<TagEvent, TagError>>)
    ensures
        opt_item_matches(r, raw_item(raw@)),
{
    match raw {
        RawEvent::Start { name, attributes } => Some(
            Ok(
                TagEvent::Open {
                    tag: build_tag(name.as_str()),
                    attributes: Attributes::from_pairs(attributes),
                },
            ),
        ),
        RawEvent::End { name } => Some(Ok(TagEvent::Close { tag: build_tag(name.as_str()) })),
        RawEvent::Fault { message } => Some(Err(TagError::new(message.as_str()))),
        RawEvent::Finished => None,
        RawEvent::Other => Some(Ok(TagEvent::Close { tag: Tag::Unknown })),
    }
}

impl TagParser for XmlTagParser {
    /// The next tag event: one raw reader event, shaped by `shape_event`.
    fn next_event(&mut self) -> Option<Result<TagEvent, TagError>> {
        shape_event(self.reader_next())
    }
}

} // verus!
