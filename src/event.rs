use vstd::prelude::*;
use xml::reader::{EventReader, XmlEvent};

verus! {

/// An attribute of an opened element, by local name.
#[derive(Debug, Clone, PartialEq, Eq)]
pub struct Attribute {
    pub name: String,
    pub value: String,
}

/// One event of a source document, as the translation reads it.
#[derive(Debug, Clone, PartialEq, Eq)]
pub enum Event {
    /// An element was opened: its local name and its attributes.
    Start { name: String, attributes: Vec<Attribute> },
    /// Character data.
    Text { text: String },
    /// An element was closed: its local name.
    End { name: String },
    /// Anything else the reader reports (declaration, comment, whitespace, ...).
    Other,
}

/// What an event means: names and texts as character sequences.
pub enum EventModel {
    Start(Seq<char>, Seq<(Seq<char>, Seq<char>)>),
    Text(Seq<char>),
    End(Seq<char>),
    Other,
}

pub open spec fn attributes_view(attrs: Seq<Attribute>) -> Seq<(Seq<char>, Seq<char>)> {
    attrs.map_values(|a: Attribute| (a.name@, a.value@))
}

impl View for Event {
    type V = EventModel;

    open spec fn view(&self) -> EventModel {
        match self {
            Event::Start { name, attributes } => EventModel::Start(name@, attributes_view(attributes@)),
            Event::Text { text } => EventModel::Text(text@),
            Event::End { name } => EventModel::End(name@),
            Event::Other => EventModel::Other,
        }
    }
}

pub open spec fn events_view(evs: Seq<Event>) -> Seq<EventModel> {
    evs.map_values(|e: Event| e@)
}

/// The events that the XML reader reports for a source document, up to its
/// end or its first error, and the message of that error if there was one.
pub uninterp spec fn parsed_xml(source: Seq<u8>) -> (Seq<EventModel>, Option<Seq<char>>);

/// Relies on xml::reader::EventReader over a byte slice: it reads the whole
/// document, or stops at the first error; what it reports depends on the
/// bytes alone.
#[verifier::external_body]
pub(crate) fn read_events(source: &[u8]) -> (r: (Vec<Event>, Option<String>))
    ensures
        (events_view(r.0@), match r.1 { Some(m) => Some(m@), None => None }) == parsed_xml(source@),
{
    let mut events = Vec::new();
    for e in EventReader::new(source) {
        events.push(match e {
            Ok(XmlEvent::StartElement { name, attributes, .. }) => Event::Start {
                name: name.local_name,
                attributes: attributes.into_iter().map(|a| Attribute { name: a.name.local_name, value: a.value }).collect(),
            },
            Ok(XmlEvent::Characters(text)) => Event::Text { text },
            Ok(XmlEvent::EndElement { name }) => Event::End { name: name.local_name },
            Ok(_) => Event::Other,
            Err(err) => return (events, Some(err.to_string())),
        });
    }
    (events, None)
}

} // verus!
