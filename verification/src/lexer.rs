//! The tokenizer: turns a sequence of raw markup events into `Element`
//! tokens on demand. A container's end, and the end of the input, are
//! reported as `Ok(None)` — the absence of a token — and are never stored.

use vstd::prelude::*;
use vstd::string::StringExecFns;

use crate::elements::{Element, ParseError, RawEvent, TokenKind};
use crate::num::{parse_i64, spec_parse_i64};

verus! {

/// Compares two string slices by their characters.
pub fn str_eq(a: &str, b: &str) -> (r: bool)
    ensures
        r == (a@ == b@),
{
    let x = String::from_str(a);
    let y = String::from_str(b);
    x == y
}

/// The scalar element the tokenizer is currently buffering content for,
/// if any.
#[derive(Clone, Copy)]
pub enum Pending {
    Nothing,
    Key,
    Integer,
    Str,
    True,
    False,
    Date,
}

/// The token emitted when a scalar element with pending state `pend` and
/// buffered `text` is closed by an end tag named `close_name`.
pub open spec fn finish_scalar(pend: Pending, text: Option<String>, close_name: String) -> Result<
    Option<Element>,
    ParseError,
> {
    match pend {
        Pending::Nothing => Err(ParseError::StrayClose(close_name)),
        Pending::Key => match text {
            Some(s) => Ok(Some(Element::Key(s))),
            None => Err(ParseError::MissingContent(close_name)),
        },
        Pending::Integer => match text {
            Some(s) => match spec_parse_i64(s@) {
                Some(i) => Ok(Some(Element::Integer(i))),
                None => Err(ParseError::BadInteger(s)),
            },
            None => Err(ParseError::MissingContent(close_name)),
        },
        Pending::Str => Ok(Some(Element::String(text))),
        Pending::True => Ok(Some(Element::Boolean(true))),
        Pending::False => Ok(Some(Element::Boolean(false))),
        Pending::Date => match text {
            Some(s) => Ok(Some(Element::Date(s))),
            None => Err(ParseError::MissingContent(close_name)),
        },
    }
}

/// What one pull of the tokenizer yields from `evs` at position `pos`, with
/// scalar state `pend` and buffered `text`, and the position after it:
/// container-open tags emit at once; scalar tags buffer until their end tag;
/// an end tag of a container, and the end of the stream, yield no token.
pub open spec fn lex_at(
    evs: Seq<RawEvent>,
    pos: int,
    pend: Pending,
    text: Option<String>,
) -> (Result<Option<Element>, ParseError>, int)
    decreases evs.len() - pos,
{
    if pos < 0 || pos >= evs.len() {
        (Ok(None), pos)
    } else {
        match evs[pos] {
            RawEvent::Open(name) => {
                if name@ == "plist"@ {
                    (Ok(Some(Element::Plist)), pos + 1)
                } else if name@ == "dict"@ {
                    (Ok(Some(Element::Dict)), pos + 1)
                } else if name@ == "array"@ {
                    (Ok(Some(Element::Array)), pos + 1)
                } else if name@ == "key"@ {
                    lex_at(evs, pos + 1, Pending::Key, text)
                } else if name@ == "integer"@ {
                    lex_at(evs, pos + 1, Pending::Integer, text)
                } else if name@ == "string"@ || name@ == "data"@ {
                    lex_at(evs, pos + 1, Pending::Str, text)
                } else if name@ == "true"@ {
                    lex_at(evs, pos + 1, Pending::True, text)
                } else if name@ == "false"@ {
                    lex_at(evs, pos + 1, Pending::False, text)
                } else if name@ == "date"@ {
                    lex_at(evs, pos + 1, Pending::Date, text)
                } else {
                    (Err(ParseError::UnknownTag(name)), pos + 1)
                }
            },
            RawEvent::Text(s) => lex_at(evs, pos + 1, pend, Some(s)),
            RawEvent::Skip => lex_at(evs, pos + 1, pend, text),
            RawEvent::Close(name) => {
                if name@ == "plist"@ || name@ == "dict"@ || name@ == "array"@ {
                    (Ok(None), pos + 1)
                } else {
                    (finish_scalar(pend, text, name), pos + 1)
                }
            },
            RawEvent::DocEnd => (Ok(None), pos),
            RawEvent::Fault(m) => (Err(ParseError::Markup(m)), pos),
        }
    }
}

/// One pull of the tokenizer from a fresh state.
pub open spec fn lex(evs: Seq<RawEvent>, pos: int) -> (Result<Option<Element>, ParseError>, int) {
    lex_at(evs, pos, Pending::Nothing, Option::<String>::None)
}

/// The tokenizer never moves backwards, never runs past the end of the
/// events, and consumes at least one event whenever it emits a token.
pub proof fn lemma_lex_at_bounds(evs: Seq<RawEvent>, pos: int, pend: Pending, text: Option<String>)
    requires
        0 <= pos <= evs.len(),
    ensures
        ({
            let (r, p) = lex_at(evs, pos, pend, text);
            pos <= p <= evs.len() && ((r matches Ok(Some(_))) ==> p > pos)
        }),
    decreases evs.len() - pos,
{
    if pos < evs.len() {
        match evs[pos] {
            RawEvent::Open(_) => {
                lemma_lex_at_bounds(evs, pos + 1, Pending::Key, text);
                lemma_lex_at_bounds(evs, pos + 1, Pending::Integer, text);
                lemma_lex_at_bounds(evs, pos + 1, Pending::Str, text);
                lemma_lex_at_bounds(evs, pos + 1, Pending::True, text);
                lemma_lex_at_bounds(evs, pos + 1, Pending::False, text);
                lemma_lex_at_bounds(evs, pos + 1, Pending::Date, text);
            },
            RawEvent::Text(s) => {
                lemma_lex_at_bounds(evs, pos + 1, pend, Some(s));
            },
            RawEvent::Skip => {
                lemma_lex_at_bounds(evs, pos + 1, pend, text);
            },
            _ => {},
        }
    }
}

/// `lemma_lex_at_bounds`, for a pull from a fresh state.
pub proof fn lemma_lex_bounds(evs: Seq<RawEvent>, pos: int)
    requires
        0 <= pos <= evs.len(),
    ensures
        ({
            let (r, p) = lex(evs, pos);
            pos <= p <= evs.len() && ((r matches Ok(Some(_))) ==> p > pos)
        }),
{
    lemma_lex_at_bounds(evs, pos, Pending::Nothing, Option::<String>::None);
}

/// Reading a token of an exact scalar kind: the result of `lex` narrowed to
/// a boolean, or a grammar error naming both sides of the mismatch.
pub open spec fn spec_next_bool(evs: Seq<RawEvent>, pos: int) -> (Result<bool, ParseError>, int) {
    let (r, p) = lex(evs, pos);
    match r {
        Err(e) => (Err(e), p),
        Ok(Some(Element::Boolean(b))) => (Ok(b), p),
        Ok(found) => (Err(ParseError::Unexpected { expected: TokenKind::Boolean, found }), p),
    }
}

/// The result of `lex` narrowed to an integer.
pub open spec fn spec_next_int(evs: Seq<RawEvent>, pos: int) -> (Result<i64, ParseError>, int) {
    let (r, p) = lex(evs, pos);
    match r {
        Err(e) => (Err(e), p),
        Ok(Some(Element::Integer(i))) => (Ok(i), p),
        Ok(found) => (Err(ParseError::Unexpected { expected: TokenKind::Integer, found }), p),
    }
}

/// The result of `lex` narrowed to string content (which an empty string
/// element leaves absent).
pub open spec fn spec_next_str(evs: Seq<RawEvent>, pos: int) -> (
    Result<Option<String>, ParseError>,
    int,
) {
    let (r, p) = lex(evs, pos);
    match r {
        Err(e) => (Err(e), p),
        Ok(Some(Element::String(s))) => (Ok(s), p),
        Ok(found) => (Err(ParseError::Unexpected { expected: TokenKind::Str, found }), p),
    }
}

/// The result of `lex` narrowed to a date string.
pub open spec fn spec_next_date(evs: Seq<RawEvent>, pos: int) -> (Result<String, ParseError>, int) {
    let (r, p) = lex(evs, pos);
    match r {
        Err(e) => (Err(e), p),
        Ok(Some(Element::Date(d))) => (Ok(d), p),
        Ok(found) => (Err(ParseError::Unexpected { expected: TokenKind::Date, found }), p),
    }
}

/// A forward-only cursor over the raw events of one document; the tokenizer
/// and both projectors pull from the same exclusive cursor.
pub struct ElementStream {
    pub events: Vec<RawEvent>,
    pub pos: usize,
}

impl ElementStream {
    /// The cursor has not run past its events.
    pub open spec fn wf(self) -> bool {
        self.pos <= self.events@.len()
    }

    /// A fresh cursor at the start of `events`.
    pub fn new(events: Vec<RawEvent>) -> (s: ElementStream)
        ensures
            s.events == events,
            s.pos == 0,
            s.wf(),
    {
        ElementStream { events, pos: 0 }
    }

    /// Pulls the next token: `Ok(Some(..))` a token, `Ok(None)` the end of a
    /// container or of the input, `Err` a tokenizer failure — exactly as
    /// `lex` states it.
    #[verifier::loop_isolation(false)]
    pub fn next(&mut self) -> (r: Result<Option<Element>, ParseError>)
        requires
            old(self).wf(),
        ensures
            final(self).events@ == old(self).events@,
            final(self).wf(),
            (r, final(self).pos as int) == lex(old(self).events@, old(self).pos as int),
    {
        let ghost evs = self.events@;
        let ghost p0 = self.pos as int;
        let mut pend = Pending::Nothing;
        let mut text: Option<String> = None;
        loop
            invariant
                self.events@ == evs,
                self.pos <= evs.len(),
                lex_at(evs, p0, Pending::Nothing, Option::<String>::None) == lex_at(
                    evs,
                    self.pos as int,
                    pend,
                    text,
                ),
            decreases evs.len() - self.pos,
        {
            if self.pos >= self.events.len() {
                return Ok(None);
            }
            let ev = &self.events[self.pos];
            match ev {
                RawEvent::Open(name) => {
                    if str_eq(name.as_str(), "plist") {
                        self.pos = self.pos + 1;
                        return Ok(Some(Element::Plist));
                    } else if str_eq(name.as_str(), "dict") {
                        self.pos = self.pos + 1;
                        return Ok(Some(Element::Dict));
                    } else if str_eq(name.as_str(), "array") {
                        self.pos = self.pos + 1;
                        return Ok(Some(Element::Array));
                    } else if str_eq(name.as_str(), "key") {
                        pend = Pending::Key;
                        self.pos = self.pos + 1;
                    } else if str_eq(name.as_str(), "integer") {
                        pend = Pending::Integer;
                        self.pos = self.pos + 1;
                    } else if str_eq(name.as_str(), "string") || str_eq(name.as_str(), "data") {
                        pend = Pending::Str;
                        self.pos = self.pos + 1;
                    } else if str_eq(name.as_str(), "true") {
                        pend = Pending::True;
                        self.pos = self.pos + 1;
                    } else if str_eq(name.as_str(), "false") {
                        pend = Pending::False;
                        self.pos = self.pos + 1;
                    } else if str_eq(name.as_str(), "date") {
                        pend = Pending::Date;
                        self.pos = self.pos + 1;
                    } else {
                        let out = ParseError::UnknownTag(name.clone());
                        self.pos = self.pos + 1;
                        return Err(out);
                    }
                },
                RawEvent::Text(s) => {
                    text = Some(s.clone());
                    self.pos = self.pos + 1;
                },
                RawEvent::Skip => {
                    self.pos = self.pos + 1;
                },
                RawEvent::Close(name) => {
                    if str_eq(name.as_str(), "plist") || str_eq(name.as_str(), "dict") || str_eq(
                        name.as_str(),
                        "array",
                    ) {
                        self.pos = self.pos + 1;
                        return Ok(None);
                    } else {
                        let close = name.clone();
                        self.pos = self.pos + 1;
                        match pend {
                            Pending::Nothing => {
                                return Err(ParseError::StrayClose(close));
                            },
                            Pending::Key => match text {
                                Some(s) => {
                                    return Ok(Some(Element::Key(s)));
                                },
                                None => {
                                    return Err(ParseError::MissingContent(close));
                                },
                            },
                            Pending::Integer => match text {
                                Some(s) => {
                                    let v = parse_i64(s.as_str());
                                    match v {
                                        Some(i) => {
                                            return Ok(Some(Element::Integer(i)));
                                        },
                                        None => {
                                            return Err(ParseError::BadInteger(s));
                                        },
                                    }
                                },
                                None => {
                                    return Err(ParseError::MissingContent(close));
                                },
                            },
                            Pending::Str => {
                                return Ok(Some(Element::String(text)));
                            },
                            Pending::True => {
                                return Ok(Some(Element::Boolean(true)));
                            },
                            Pending::False => {
                                return Ok(Some(Element::Boolean(false)));
                            },
                            Pending::Date => match text {
                                Some(s) => {
                                    return Ok(Some(Element::Date(s)));
                                },
                                None => {
                                    return Err(ParseError::MissingContent(close));
                                },
                            },
                        }
                    }
                },
                RawEvent::DocEnd => {
                    return Ok(None);
                },
                RawEvent::Fault(m) => {
                    return Err(ParseError::Markup(m.clone()));
                },
            }
        }
    }

    /// Reads the next token, which must be a boolean.
    pub fn next_bool(&mut self) -> (r: Result<bool, ParseError>)
        requires
            old(self).wf(),
        ensures
            final(self).events@ == old(self).events@,
            final(self).wf(),
            (r, final(self).pos as int) == spec_next_bool(old(self).events@, old(self).pos as int),
    {
        match self.next() {
            Err(e) => Err(e),
            Ok(Some(Element::Boolean(b))) => Ok(b),
            Ok(found) => Err(ParseError::Unexpected { expected: TokenKind::Boolean, found }),
        }
    }

    /// Reads the next token, which must be an integer.
    pub fn next_int(&mut self) -> (r: Result<i64, ParseError>)
        requires
            old(self).wf(),
        ensures
            final(self).events@ == old(self).events@,
            final(self).wf(),
            (r, final(self).pos as int) == spec_next_int(old(self).events@, old(self).pos as int),
    {
        match self.next() {
            Err(e) => Err(e),
            Ok(Some(Element::Integer(i))) => Ok(i),
            Ok(found) => Err(ParseError::Unexpected { expected: TokenKind::Integer, found }),
        }
    }

    /// Reads the next token, which must be a string (whose content an empty
    /// string element leaves absent).
    pub fn next_str(&mut self) -> (r: Result<Option<String>, ParseError>)
        requires
            old(self).wf(),
        ensures
            final(self).events@ == old(self).events@,
            final(self).wf(),
            (r, final(self).pos as int) == spec_next_str(old(self).events@, old(self).pos as int),
    {
        match self.next() {
            Err(e) => Err(e),
            Ok(Some(Element::String(s))) => Ok(s),
            Ok(found) => Err(ParseError::Unexpected { expected: TokenKind::Str, found }),
        }
    }

    /// Reads the next token, which must be a date.
    pub fn next_date(&mut self) -> (r: Result<String, ParseError>)
        requires
            old(self).wf(),
        ensures
            final(self).events@ == old(self).events@,
            final(self).wf(),
            (r, final(self).pos as int) == spec_next_date(old(self).events@, old(self).pos as int),
    {
        match self.next() {
            Err(e) => Err(e),
            Ok(Some(Element::Date(d))) => Ok(d),
            Ok(found) => Err(ParseError::Unexpected { expected: TokenKind::Date, found }),
        }
    }
}

} // verus!
