use vstd::prelude::*;
use crate::engine::{Entry, SimpleTag, entries_view, translate, translation};
use crate::event::{parsed_xml, read_events};
use crate::text::{escape_text, escaped};

verus! {

/// The opening of a tags document: its declaration and the `Tags` and `Tag` elements.
pub open spec fn document_head() -> Seq<char> {
    "<?xml version=\"1.0\" encoding=\"UTF-8\"?>\n<Tags>\n  <Tag>\n"@
}

/// The close of the `Tag` and `Tags` elements.
pub open spec fn document_tail() -> Seq<char> {
    "  </Tag>\n</Tags>\n"@
}

/// One `Simple` element with its `Name` and `String` children.
pub open spec fn simple_element(e: Entry) -> Seq<char> {
    "    <Simple>\n      <Name>"@ + escaped(e.0) + "</Name>\n      <String>"@ + escaped(e.1)
        + "</String>\n    </Simple>\n"@
}

pub open spec fn simple_elements(entries: Seq<Entry>) -> Seq<char>
    decreases entries.len(),
{
    if entries.len() == 0 {
        Seq::empty()
    } else {
        simple_elements(entries.drop_last()) + simple_element(entries.last())
    }
}

/// The text of the tags document that holds the entries, in order.
pub open spec fn tags_document(entries: Seq<Entry>) -> Seq<char> {
    document_head() + simple_elements(entries) + document_tail()
}

/// What a source document turns into: the tags document, or the reader's
/// error message where the source is not well-formed XML.
pub open spec fn converted(source: Seq<u8>) -> Result<Seq<char>, Seq<char>> {
    match parsed_xml(source).1 {
        Some(message) => Err(message),
        None => Ok(tags_document(translation(parsed_xml(source).0))),
    }
}

/// Why no tags document came out.
#[derive(Debug, Clone, PartialEq, Eq)]
pub enum TagsError {
    /// The source is not well-formed XML; the reader's message.
    Parse(String),
    /// The source could not be read or the document could not be written.
    Io(String),
}

/// Writes the tags document that holds the entries.
pub fn render_tags(entries: &Vec<SimpleTag>) -> (r: String)
    ensures
        r@ == tags_document(entries_view(entries@)),
{
    let mut r = String::new();
    r.append("<?xml version=\"1.0\" encoding=\"UTF-8\"?>\n<Tags>\n  <Tag>\n");
    let mut i: usize = 0;
    assert(entries_view(entries@).take(0) =~= Seq::<Entry>::empty());
    while i < entries.len()
        invariant
            i <= entries.len(),
            r@ == document_head() + simple_elements(entries_view(entries@).take(i as int)),
        decreases entries.len() - i,
    {
        proof {
            let es = entries_view(entries@);
            assert(es.take(i + 1).drop_last() =~= es.take(i as int));
            assert(es.take(i + 1).last() == (entries@[i as int].name@, entries@[i as int].value@));
        }
        let ghost before = r@;
        r.append("    <Simple>\n      <Name>");
        let name = escape_text(entries[i].name.as_str());
        r.append(name.as_str());
        r.append("</Name>\n      <String>");
        let value = escape_text(entries[i].value.as_str());
        r.append(value.as_str());
        r.append("</String>\n    </Simple>\n");
        proof {
            let e = (entries@[i as int].name@, entries@[i as int].value@);
            assert(r@ =~= before + simple_element(e));
        }
        i += 1;
    }
    assert(entries_view(entries@).take(entries.len() as int) =~= entries_view(entries@));
    r.append("  </Tag>\n</Tags>\n");
    r
}

/// Translates an NFO document into the tags document for a Matroska tag
/// editor: the text of the document, or the reader's error where the source
/// is not well-formed XML.
pub fn convert_to_mkv_tags(source: &[u8]) -> (r: Result<String, TagsError>)
    ensures
        match r {
            Ok(doc) => converted(source@) == Ok::<Seq<char>, Seq<char>>(doc@),
            Err(TagsError::Parse(m)) => converted(source@) == Err::<Seq<char>, Seq<char>>(m@),
            Err(TagsError::Io(_)) => false,
        },
{
    let (events, failure) = read_events(source);
    match failure {
        Some(message) => Err(TagsError::Parse(message)),
        None => {
            let entries = translate(&events);
            Ok(render_tags(&entries))
        },
    }
}

} // verus!
