//! The tag-event stream a step's XML text is read as, and the trusted
//! boundary to the streaming tokenizer.
//!
//! The tokenizer is trusted for well-formedness only: it hands out opening
//! tags with their attributes, closing tags, other markup, and a final
//! end-of-document or failure marker. Everything the renderer does with
//! those events is verified.

use vstd::prelude::*;

verus! {

/// One event of the tag stream: an opening tag (start or empty-element
/// form) with its attributes as (key, value) pairs in document order, a
/// closing tag, any other markup (text, comments, declarations), the end of
/// the document, or a structural parse failure, which ends the stream.
pub enum XmlEvent {
    Open(String, Vec<(String, String)>),
    Close(String),
    Other,
    Eof,
    Broken,
}

/// The mathematical value of one stream event.
pub enum EventV {
    Open { name: Seq<char>, attrs: Seq<(Seq<char>, Seq<char>)> },
    Close { name: Seq<char> },
    Other,
    Eof,
    Broken,
}

impl View for XmlEvent {
    type V = EventV;

    open spec fn view(&self) -> EventV {
        match self {
            XmlEvent::Open(name, attrs) => EventV::Open { name: name@, attrs: attrs.deep_view() },
            XmlEvent::Close(name) => EventV::Close { name: name@ },
            XmlEvent::Other => EventV::Other,
            XmlEvent::Eof => EventV::Eof,
            XmlEvent::Broken => EventV::Broken,
        }
    }
}

impl DeepView for XmlEvent {
    type V = EventV;

    open spec fn deep_view(&self) -> EventV {
        self@
    }
}

/// An event that ends the stream: the end of the document, or a structural
/// parse failure.
pub open spec fn is_terminal(e: EventV) -> bool {
    e is Eof || e is Broken
}

/// An event stream as the tokenizer hands it out: it ends with exactly one
/// terminal event.
pub open spec fn well_formed_stream(evs: Seq<EventV>) -> bool {
    &&& evs.len() > 0
    &&& is_terminal(evs.last())
    &&& forall|i: int| 0 <= i < evs.len() - 1 ==> !is_terminal(#[trigger] evs[i])
}

/// The event stream that tokenizing a document yields, up to and including
/// its first terminal event. Tokenizing depends on the document text alone.
pub uninterp spec fn xml_events(s: Seq<char>) -> Seq<EventV>;

/// The events a reader has not yet handed out.
pub uninterp spec fn pending_events(r: quick_xml::Reader<&[u8]>) -> Seq<EventV>;

#[verifier::external_type_specification]
#[verifier::external_body]
#[verifier::reject_recursive_types(R)]
pub struct ExReader<R>(quick_xml::Reader<R>);

#[verifier::external_type_specification]
#[verifier::external_body]
pub struct ExBytesStart<'a>(quick_xml::events::BytesStart<'a>);

/// Converts one opening tag to an event: the tag name, and each readable
/// attribute as a (key, normalized value) pair in document order; an
/// attribute the tokenizer cannot read is left out. Relies on
/// quick_xml::events::BytesStart: `name`, `attributes`, and the XML
/// attribute-value normalization of `Attribute::normalized_value`. Its
/// effect on the stream is stated by `next_event`.
#[verifier::external_body]
fn open_event(e: &quick_xml::events::BytesStart) -> XmlEvent {
    let mut attrs: Vec<(String, String)> = Vec::new();
    for a in e.attributes() {
        if let Ok(a) = a {
            if let Ok(v) = a.normalized_value(quick_xml::XmlVersion::Implicit1_0) {
                attrs.push((a.key.into_inner().to_string(), v.into_owned()));
            }
        }
    }
    XmlEvent::Open(e.name().into_inner().to_string(), attrs)
}

/// Relies on quick_xml::Reader::from_str: tokenizing a document is a
/// deterministic function of its text, and reading events one at a time
/// reaches an end-of-document or error report after finitely many events,
/// because every event and the first error consume input.
#[verifier::external_body]
pub(crate) fn reader_for<'a>(xml: &'a str) -> (r: quick_xml::Reader<&'a [u8]>)
    ensures
        pending_events(r) == xml_events(xml@),
        well_formed_stream(pending_events(r)),
{
    quick_xml::Reader::from_str(xml)
}

/// Relies on quick_xml::Reader::read_event: it hands out the events of the
/// document in order, one per call; after the first error report the reader
/// is not read again, so the stream ends there.
#[verifier::external_body]
pub(crate) fn next_event<'a>(r: &mut quick_xml::Reader<&'a [u8]>) -> (e: XmlEvent)
    requires
        pending_events(*old(r)).len() > 0,
    ensures
        e@ == pending_events(*old(r))[0],
        pending_events(*final(r)) == pending_events(*old(r)).skip(1),
{
    match r.read_event() {
        Ok(quick_xml::events::Event::Start(e)) => open_event(&e),
        Ok(quick_xml::events::Event::Empty(e)) => open_event(&e),
        Ok(quick_xml::events::Event::End(e)) => XmlEvent::Close(e.name().into_inner().to_string()),
        Ok(quick_xml::events::Event::Eof) => XmlEvent::Eof,
        Ok(_) => XmlEvent::Other,
        Err(_) => XmlEvent::Broken,
    }
}

} // verus!
