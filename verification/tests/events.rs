use itunes_xml::elements::{Element, ParseError, RawEvent};
use itunes_xml::lexer::ElementStream;
use itunes_xml::library::parse_events;

fn open(tag: &str) -> RawEvent {
    RawEvent::Open(tag.to_string())
}

fn close(tag: &str) -> RawEvent {
    RawEvent::Close(tag.to_string())
}

fn text(s: &str) -> RawEvent {
    RawEvent::Text(s.to_string())
}

#[test]
fn tokenizer_emits_containers_at_once() {
    let mut it = ElementStream::new(vec![open("plist"), open("dict"), open("array")]);
    assert_eq!(it.next(), Ok(Some(Element::Plist)));
    assert_eq!(it.next(), Ok(Some(Element::Dict)));
    assert_eq!(it.next(), Ok(Some(Element::Array)));
    assert_eq!(it.next(), Ok(None));
}

#[test]
fn tokenizer_buffers_scalar_content() {
    let mut it = ElementStream::new(vec![
        open("key"),
        text("Name"),
        close("key"),
        open("integer"),
        text("-42"),
        close("integer"),
        open("date"),
        text("2020"),
        close("date"),
        open("string"),
        close("string"),
    ]);
    assert_eq!(it.next(), Ok(Some(Element::Key("Name".to_string()))));
    assert_eq!(it.next(), Ok(Some(Element::Integer(-42))));
    assert_eq!(it.next(), Ok(Some(Element::Date("2020".to_string()))));
    assert_eq!(it.next(), Ok(Some(Element::String(None))));
}

#[test]
fn tokenizer_booleans_ignore_buffered_content() {
    let mut it = ElementStream::new(vec![
        open("true"),
        text("junk"),
        close("true"),
        open("false"),
        close("false"),
    ]);
    assert_eq!(it.next(), Ok(Some(Element::Boolean(true))));
    assert_eq!(it.next(), Ok(Some(Element::Boolean(false))));
}

#[test]
fn tokenizer_ignorable_events_are_skipped() {
    let mut it = ElementStream::new(vec![
        RawEvent::Skip,
        open("key"),
        RawEvent::Skip,
        text("A"),
        close("key"),
    ]);
    assert_eq!(it.next(), Ok(Some(Element::Key("A".to_string()))));
}

#[test]
fn tokenizer_container_close_yields_no_token() {
    let mut it = ElementStream::new(vec![close("dict"), close("plist"), RawEvent::DocEnd]);
    assert_eq!(it.next(), Ok(None));
    assert_eq!(it.next(), Ok(None));
    assert_eq!(it.next(), Ok(None));
    assert_eq!(it.next(), Ok(None));
}

#[test]
fn tokenizer_stray_scalar_close_is_fatal() {
    let mut it = ElementStream::new(vec![close("key")]);
    assert_eq!(it.next(), Err(ParseError::StrayClose("key".to_string())));
}

#[test]
fn tokenizer_scalar_without_content_is_fatal() {
    let mut it = ElementStream::new(vec![open("key"), close("key")]);
    assert_eq!(it.next(), Err(ParseError::MissingContent("key".to_string())));
    let mut it2 = ElementStream::new(vec![open("integer"), close("integer")]);
    assert_eq!(it2.next(), Err(ParseError::MissingContent("integer".to_string())));
    let mut it3 = ElementStream::new(vec![open("date"), close("date")]);
    assert_eq!(it3.next(), Err(ParseError::MissingContent("date".to_string())));
}

#[test]
fn tokenizer_reports_reader_faults() {
    let mut it = ElementStream::new(vec![RawEvent::Fault("unexpected end".to_string())]);
    assert_eq!(it.next(), Err(ParseError::Markup("unexpected end".to_string())));
}

#[test]
fn parse_events_builds_a_library() {
    let lib = parse_events(vec![
        open("plist"),
        open("dict"),
        open("key"),
        text("Tracks"),
        close("key"),
        open("dict"),
        open("key"),
        text("5994"),
        close("key"),
        open("dict"),
        close("dict"),
        close("dict"),
        close("dict"),
        close("plist"),
        RawEvent::DocEnd,
    ])
    .unwrap();
    assert_eq!(lib.tracks.len(), 1);
    assert_eq!(lib.tracks.get(&5994).unwrap().id, 5994);
    assert_eq!(lib.tracks.get(&5994).unwrap().name, None);
    assert!(lib.metadata.is_empty());
    assert!(lib.playlists.is_empty());
}

#[test]
fn parse_events_fails_on_fault() {
    let err = parse_events(vec![
        open("plist"),
        open("dict"),
        RawEvent::Fault("no closing tag".to_string()),
    ])
    .unwrap_err();
    assert_eq!(err, ParseError::Markup("no closing tag".to_string()));
}

#[test]
fn data_tag_lexes_like_string() {
    let mut it = ElementStream::new(vec![open("data"), text("AQEA"), close("data")]);
    assert_eq!(it.next(), Ok(Some(Element::String(Some("AQEA".to_string())))));
}
