//! The event source: the underlying markup reader, trusted at a narrow
//! boundary. The reader's event stream is named as a function of the input
//! text alone; everything downstream of it is verified against that name.

use vstd::prelude::*;

use xml::reader::{EventReader, XmlEvent};

use crate::elements::{is_terminal, ParseError, RawEvent};
use crate::library::{parse_events, spec_parse, Library};

verus! {

/// The markup reader over the input text, opaque to the verifier; its
/// behaviour is stated through `reader_events` alone.
#[verifier::external_body]
pub struct XmlSource<'a> {
    reader: EventReader<&'a [u8]>,
}

/// The events a reader has yet to yield, up to and including the first
/// end-of-document or failure event, which the reader then repeats forever.
pub uninterp spec fn reader_events(r: XmlSource<'_>) -> Seq<RawEvent>;

/// The events the markup reader yields for `text`: a function of the text
/// alone.
pub uninterp spec fn xml_events_of(text: Seq<char>) -> Seq<RawEvent>;

/// The shape of a whole event stream: it ends at its one terminal event —
/// the end of the document, or the first failure — and at nothing earlier.
pub open spec fn events_wf(s: Seq<RawEvent>) -> bool {
    &&& s.len() >= 1
    &&& is_terminal(s.last())
    &&& forall|i: int| 0 <= i < s.len() - 1 ==> !is_terminal(#[trigger] s[i])
}

/// Relies on xml::reader::EventReader::from_str: the fresh reader will
/// yield the parse events of `text` — a function of the text alone — ending
/// with the end-of-document event, or with the first error where the markup
/// is malformed.
#[verifier::external_body]
fn open_reader<'a>(text: &'a str) -> (r: XmlSource<'a>)
    ensures
        reader_events(r) == xml_events_of(text@),
        events_wf(reader_events(r)),
{
    XmlSource { reader: EventReader::from_str(text) }
}

/// Relies on xml::reader::EventReader::next: it yields the reader's next
/// event, and after the end of the document or an error it yields that same
/// event again on every later pull.
#[verifier::external_body]
fn next_event(r: &mut XmlSource<'_>) -> (e: RawEvent)
    ensures
        reader_events(*old(r)).len() > 1 ==> e == reader_events(*old(r))[0] && reader_events(
            *final(r),
        ) == reader_events(*old(r)).drop_first(),
        reader_events(*old(r)).len() == 1 ==> e == reader_events(*old(r))[0] && reader_events(
            *final(r),
        ) == reader_events(*old(r)),
{
    match r.reader.next() {
        Ok(XmlEvent::StartElement { name, .. }) => RawEvent::Open(name.local_name),
        Ok(XmlEvent::EndElement { name }) => RawEvent::Close(name.local_name),
        Ok(XmlEvent::Characters(s)) => RawEvent::Text(s),
        Ok(XmlEvent::CData(s)) => RawEvent::Text(s),
        Ok(XmlEvent::EndDocument) => RawEvent::DocEnd,
        Ok(_) => RawEvent::Skip,
        Err(e) => RawEvent::Fault(e.to_string()),
    }
}

/// Drains the reader into a vector: every event up to and including the
/// terminal one.
#[verifier::loop_isolation(false)]
fn collect_events(r: &mut XmlSource<'_>) -> (out: Vec<RawEvent>)
    requires
        events_wf(reader_events(*old(r))),
    ensures
        out@ == reader_events(*old(r)),
{
    let ghost all = reader_events(*r);
    let mut out: Vec<RawEvent> = Vec::new();
    loop
        invariant
            out@.len() < all.len(),
            out@ == all.take(out@.len() as int),
            reader_events(*r) == all.skip(out@.len() as int),
        decreases all.len() - out@.len(),
    {
        let ghost k = out@.len() as int;
        let e = next_event(r);
        proof {
            assert(all.skip(k)[0] == all[k]);
        }
        let stop = match &e {
            RawEvent::DocEnd => true,
            RawEvent::Fault(_) => true,
            _ => false,
        };
        out.push(e);
        proof {
            assert(out@ =~= all.take(k + 1));
        }
        if stop {
            proof {
                assert(is_terminal(all[k]));
                assert(k == all.len() - 1);
                assert(out@ =~= all);
            }
            return out;
        }
        proof {
            assert(!is_terminal(all[k]));
            assert(k + 1 < all.len());
            assert(all.skip(k).drop_first() =~= all.skip(k + 1));
        }
    }
}

/// Parses the text of one exported library document into a `Library`, or
/// the first error: exactly `spec_parse` of the events the markup reader
/// yields for this text.
pub fn parse_xml_str(text: &str) -> (r: Result<Library, ParseError>)
    ensures
        match (r, spec_parse(xml_events_of(text@))) {
            (Ok(lib), Ok(lv)) => lib@ == lv,
            (Err(e1), Err(e2)) => e1 == e2,
            _ => false,
        },
{
    let mut reader = open_reader(text);
    let events = collect_events(&mut reader);
    parse_events(events)
}

} // verus!
