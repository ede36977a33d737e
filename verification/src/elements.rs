//! The token alphabet of the decoder: raw markup events as the underlying
//! reader reports them, the `Element` tokens the tokenizer produces from
//! them, and the error taxonomy of the whole parse.

use vstd::prelude::*;

verus! {

/// One event of the underlying markup reader, reduced to what the tokenizer
/// reads: tag names, buffered text, end of the stream, and reader failures.
#[derive(Debug, Clone, PartialEq)]
pub enum RawEvent {
    /// A start tag, by its local name.
    Open(String),
    /// An end tag, by its local name.
    Close(String),
    /// Character or CDATA content.
    Text(String),
    /// An event the tokenizer ignores (document declaration, comment,
    /// whitespace between tags, processing instruction).
    Skip,
    /// The end of the document stream.
    DocEnd,
    /// The reader could not parse the markup; the message describes why.
    Fault(String),
}

/// True of the events on which the tokenizer can make no further progress:
/// the stream end and a reader failure.
pub open spec fn is_terminal(e: RawEvent) -> bool {
    e is DocEnd || e is Fault
}

/// One token of the property-list grammar: a container opening, a key, or a
/// scalar leaf. The end of a container is not an `Element`; the tokenizer
/// reports it separately as the absence of a token.
#[derive(Debug, Clone, PartialEq)]
pub enum Element {
    Plist,
    Dict,
    Array,
    Key(String),
    Boolean(bool),
    Integer(i64),
    String(Option<String>),
    Data(Option<String>),
    Date(String),
}

/// The kind of token a grammar position expects; carried by grammar errors
/// so that a failure names both sides of the mismatch.
#[derive(Debug, Clone, Copy, PartialEq, Eq, Structural)]
pub enum TokenKind {
    Plist,
    Dict,
    Array,
    Key,
    Boolean,
    Integer,
    Str,
    Date,
    /// The close of the enclosing container was expected.
    End,
}

/// Why a parse failed. The first error aborts the whole parse; no partial
/// `Library` is ever returned.
#[derive(Debug, Clone, PartialEq)]
pub enum ParseError {
    /// The underlying markup was malformed (unclosed tags, encoding errors);
    /// carries the reader's message.
    Markup(String),
    /// A start tag outside the accepted vocabulary, by its name.
    UnknownTag(String),
    /// A scalar element that requires content closed without any; carries
    /// the name of the closing tag.
    MissingContent(String),
    /// An end tag arrived with no scalar element open; carries its name.
    StrayClose(String),
    /// The text of an `integer` element does not parse as a signed 64-bit
    /// integer; carries the offending text.
    BadInteger(String),
    /// A key under "Tracks" does not parse as an unsigned 64-bit track id;
    /// carries the offending text.
    BadTrackId(String),
    /// The grammar expected one kind of token and found another; `found`
    /// is `None` when a container closed instead.
    Unexpected { expected: TokenKind, found: Option<Element> },
    /// A track or playlist key outside the closed field vocabulary.
    UnknownField(String),
    /// A top-level key with no value element after it.
    MissingValue(String),
    /// A required playlist string field held an empty string element;
    /// carries the field key.
    EmptyString(String),
}

} // verus!
