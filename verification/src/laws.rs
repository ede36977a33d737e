//! Laws of the decoder, stated over the same spec functions its contracts
//! use and proved once and for all.

use vstd::prelude::*;

use crate::elements::{Element, ParseError, RawEvent};
use crate::lexer::{lex, lex_at, Pending};
use crate::library::{spec_parse, spec_top, LibView};
use crate::num::{spec_parse_i64, spec_parse_u64};
use crate::playlist::spec_playlist_items;
use crate::track::{spec_empty_track, spec_track_fields, spec_track_key, Track};

verus! {

broadcast use vstd::string::group_string_axioms;

/// The character content of the grammar's tag names, for proofs that must
/// tell the tags apart.
proof fn lemma_tag_literals()
    ensures
        "plist"@ == seq!['p', 'l', 'i', 's', 't'],
        "dict"@ == seq!['d', 'i', 'c', 't'],
        "array"@ == seq!['a', 'r', 'r', 'a', 'y'],
        "key"@ == seq!['k', 'e', 'y'],
        "integer"@ == seq!['i', 'n', 't', 'e', 'g', 'e', 'r'],
        "string"@ == seq!['s', 't', 'r', 'i', 'n', 'g'],
        "data"@ == seq!['d', 'a', 't', 'a'],
        "true"@ == seq!['t', 'r', 'u', 'e'],
        "false"@ == seq!['f', 'a', 'l', 's', 'e'],
        "date"@ == seq!['d', 'a', 't', 'e'],
{
    reveal_strlit("plist");
    reveal_strlit("dict");
    reveal_strlit("array");
    reveal_strlit("key");
    reveal_strlit("integer");
    reveal_strlit("string");
    reveal_strlit("data");
    reveal_strlit("true");
    reveal_strlit("false");
    reveal_strlit("date");
    assert("plist"@ =~= seq!['p', 'l', 'i', 's', 't']);
    assert("dict"@ =~= seq!['d', 'i', 'c', 't']);
    assert("array"@ =~= seq!['a', 'r', 'r', 'a', 'y']);
    assert("key"@ =~= seq!['k', 'e', 'y']);
    assert("integer"@ =~= seq!['i', 'n', 't', 'e', 'g', 'e', 'r']);
    assert("string"@ =~= seq!['s', 't', 'r', 'i', 'n', 'g']);
    assert("data"@ =~= seq!['d', 'a', 't', 'a']);
    assert("true"@ =~= seq!['t', 'r', 'u', 'e']);
    assert("false"@ =~= seq!['f', 'a', 'l', 's', 'e']);
    assert("date"@ =~= seq!['d', 'a', 't', 'e']);
}

/// A well-formed document holding exactly one track whose dict sets no
/// field parses to a library with exactly one tracks entry, under the id
/// the dict key spells, with every attribute absent — not defaulted — and
/// with nothing in the metadata or the playlists.
pub proof fn lemma_one_bare_track_document(evs: Seq<RawEvent>, id: u64)
    requires
        evs.len() >= 13,
        (evs[0] matches RawEvent::Open(t) && t@ == "plist"@),
        (evs[1] matches RawEvent::Open(t) && t@ == "dict"@),
        (evs[2] matches RawEvent::Open(t) && t@ == "key"@),
        (evs[3] matches RawEvent::Text(t) && t@ == "Tracks"@),
        (evs[4] matches RawEvent::Close(t) && t@ == "key"@),
        (evs[5] matches RawEvent::Open(t) && t@ == "dict"@),
        (evs[6] matches RawEvent::Open(t) && t@ == "key"@),
        (evs[7] matches RawEvent::Text(t) && spec_parse_u64(t@) == Some(id)),
        (evs[8] matches RawEvent::Close(t) && t@ == "key"@),
        (evs[9] matches RawEvent::Open(t) && t@ == "dict"@),
        (evs[10] matches RawEvent::Close(t) && t@ == "dict"@),
        (evs[11] matches RawEvent::Close(t) && t@ == "dict"@),
        (evs[12] matches RawEvent::Close(t) && t@ == "dict"@),
    ensures
        (spec_parse(evs) matches Ok(lv) && lv == LibView {
            metadata: Map::<Seq<char>, Element>::empty(),
            tracks: Map::<u64, Track>::empty().insert(id, spec_empty_track(id)),
            playlists: Map::empty(),
        }),
{
    lemma_tag_literals();
    assert(lex(evs, 0) == (Ok::<Option<Element>, ParseError>(Some(Element::Plist)), 1int));
    assert(lex(evs, 1) == (Ok::<Option<Element>, ParseError>(Some(Element::Dict)), 2int));
    let kt = evs[3]->Text_0;
    assert(lex(evs, 2) == (Ok::<Option<Element>, ParseError>(Some(Element::Key(kt))), 5int)) by {
        reveal_with_fuel(lex_at, 4);
    }
    assert(lex(evs, 5) == (Ok::<Option<Element>, ParseError>(Some(Element::Dict)), 6int));
    let idt = evs[7]->Text_0;
    assert(lex(evs, 6) == (Ok::<Option<Element>, ParseError>(Some(Element::Key(idt))), 9int)) by {
        reveal_with_fuel(lex_at, 4);
    }
    assert(lex(evs, 9) == (Ok::<Option<Element>, ParseError>(Some(Element::Dict)), 10int));
    assert(lex(evs, 10) == (Ok::<Option<Element>, ParseError>(None), 11int));
    assert(lex(evs, 11) == (Ok::<Option<Element>, ParseError>(None), 12int));
    assert(lex(evs, 12) == (Ok::<Option<Element>, ParseError>(None), 13int));
    let t = spec_empty_track(id);
    assert(spec_track_fields(evs, 10, t) == (Ok::<Track, ParseError>(t), 11int));
    assert(crate::track::spec_next_track(evs, 6) == (
        Ok::<Option<Track>, ParseError>(Some(t)),
        11int,
    ));
    assert(crate::track::spec_next_track(evs, 11) == (
        Ok::<Option<Track>, ParseError>(None),
        12int,
    ));
    let m0 = Map::<u64, Track>::empty();
    assert(crate::library::spec_tracks(evs, 6, m0) == (
        Ok::<Map<u64, Track>, ParseError>(m0.insert(id, t)),
        12int,
    )) by {
        reveal_with_fuel(crate::library::spec_tracks, 3);
    }
    let acc0 = crate::library::spec_empty_library();
    let acc1 = LibView { tracks: m0.insert(id, t), ..acc0 };
    assert(spec_top(evs, 12, acc1) == (Ok::<LibView, ParseError>(acc1), 13int));
    assert(spec_top(evs, 2, acc0) == (Ok::<LibView, ParseError>(acc1), 13int)) by {
        reveal_with_fuel(spec_top, 2);
    }
}

/// A document holding exactly one track whose dict sets only the
/// "Track ID" field parses as the bare-track document does: the field's
/// integer is read and discarded — the authoritative id is the outer dict
/// key — and every attribute of the one tracks entry stays absent.
pub proof fn lemma_track_id_field_is_discarded(evs: Seq<RawEvent>, id: u64, n: i64)
    requires
        evs.len() >= 19,
        (evs[0] matches RawEvent::Open(t) && t@ == "plist"@),
        (evs[1] matches RawEvent::Open(t) && t@ == "dict"@),
        (evs[2] matches RawEvent::Open(t) && t@ == "key"@),
        (evs[3] matches RawEvent::Text(t) && t@ == "Tracks"@),
        (evs[4] matches RawEvent::Close(t) && t@ == "key"@),
        (evs[5] matches RawEvent::Open(t) && t@ == "dict"@),
        (evs[6] matches RawEvent::Open(t) && t@ == "key"@),
        (evs[7] matches RawEvent::Text(t) && spec_parse_u64(t@) == Some(id)),
        (evs[8] matches RawEvent::Close(t) && t@ == "key"@),
        (evs[9] matches RawEvent::Open(t) && t@ == "dict"@),
        (evs[10] matches RawEvent::Open(t) && t@ == "key"@),
        (evs[11] matches RawEvent::Text(t) && t@ == "Track ID"@),
        (evs[12] matches RawEvent::Close(t) && t@ == "key"@),
        (evs[13] matches RawEvent::Open(t) && t@ == "integer"@),
        (evs[14] matches RawEvent::Text(t) && spec_parse_i64(t@) == Some(n)),
        (evs[15] matches RawEvent::Close(t) && t@ == "integer"@),
        (evs[16] matches RawEvent::Close(t) && t@ == "dict"@),
        (evs[17] matches RawEvent::Close(t) && t@ == "dict"@),
        (evs[18] matches RawEvent::Close(t) && t@ == "dict"@),
    ensures
        (spec_parse(evs) matches Ok(lv) && lv == LibView {
            metadata: Map::<Seq<char>, Element>::empty(),
            tracks: Map::<u64, Track>::empty().insert(id, spec_empty_track(id)),
            playlists: Map::empty(),
        }),
{
    lemma_tag_literals();
    assert(lex(evs, 0) == (Ok::<Option<Element>, ParseError>(Some(Element::Plist)), 1int));
    assert(lex(evs, 1) == (Ok::<Option<Element>, ParseError>(Some(Element::Dict)), 2int));
    let kt = evs[3]->Text_0;
    assert(lex(evs, 2) == (Ok::<Option<Element>, ParseError>(Some(Element::Key(kt))), 5int)) by {
        reveal_with_fuel(lex_at, 4);
    }
    assert(lex(evs, 5) == (Ok::<Option<Element>, ParseError>(Some(Element::Dict)), 6int));
    let idt = evs[7]->Text_0;
    assert(lex(evs, 6) == (Ok::<Option<Element>, ParseError>(Some(Element::Key(idt))), 9int)) by {
        reveal_with_fuel(lex_at, 4);
    }
    assert(lex(evs, 9) == (Ok::<Option<Element>, ParseError>(Some(Element::Dict)), 10int));
    let ft = evs[11]->Text_0;
    assert(lex(evs, 10) == (Ok::<Option<Element>, ParseError>(Some(Element::Key(ft))), 13int)) by {
        reveal_with_fuel(lex_at, 4);
    }
    assert(lex(evs, 13) == (Ok::<Option<Element>, ParseError>(Some(Element::Integer(n))), 16int))
        by {
        reveal_with_fuel(lex_at, 4);
    }
    assert(lex(evs, 16) == (Ok::<Option<Element>, ParseError>(None), 17int));
    assert(lex(evs, 17) == (Ok::<Option<Element>, ParseError>(None), 18int));
    assert(lex(evs, 18) == (Ok::<Option<Element>, ParseError>(None), 19int));
    let t = spec_empty_track(id);
    assert(spec_track_key(evs, 13, ft, t) == Some((Ok::<Track, ParseError>(t), 16int)));
    assert(spec_track_fields(evs, 10, t) == (Ok::<Track, ParseError>(t), 17int)) by {
        reveal_with_fuel(spec_track_fields, 3);
    }
    assert(crate::track::spec_next_track(evs, 6) == (
        Ok::<Option<Track>, ParseError>(Some(t)),
        17int,
    ));
    assert(crate::track::spec_next_track(evs, 17) == (
        Ok::<Option<Track>, ParseError>(None),
        18int,
    ));
    let m0 = Map::<u64, Track>::empty();
    assert(crate::library::spec_tracks(evs, 6, m0) == (
        Ok::<Map<u64, Track>, ParseError>(m0.insert(id, t)),
        18int,
    )) by {
        reveal_with_fuel(crate::library::spec_tracks, 3);
    }
    let acc0 = crate::library::spec_empty_library();
    let acc1 = LibView { tracks: m0.insert(id, t), ..acc0 };
    assert(spec_top(evs, 18, acc1) == (Ok::<LibView, ParseError>(acc1), 19int));
    assert(spec_top(evs, 2, acc0) == (Ok::<LibView, ParseError>(acc1), 19int)) by {
        reveal_with_fuel(spec_top, 2);
    }
}

/// Parsing is a function of the input text alone: two parses of equal text
/// yield structurally equal outcomes, with no side effects in between.
pub proof fn lemma_parse_deterministic(t1: Seq<char>, t2: Seq<char>)
    requires
        t1 == t2,
    ensures
        spec_parse(crate::xml_source::xml_events_of(t1)) == spec_parse(
            crate::xml_source::xml_events_of(t2),
        ),
{
}

/// A top-level key other than "Tracks" and "Playlists", followed by any
/// single value element, lands verbatim in the metadata, and leaves the
/// tracks and the playlists of the accumulator untouched at that step.
pub proof fn lemma_unknown_key_to_metadata(
    evs: Seq<RawEvent>,
    pos: int,
    acc: LibView,
    k: String,
    v: Element,
)
    requires
        lex(evs, pos).0 == Ok::<Option<Element>, ParseError>(Some(Element::Key(k))),
        lex(evs, lex(evs, pos).1).0 == Ok::<Option<Element>, ParseError>(Some(v)),
        k@ != "Tracks"@,
        k@ != "Playlists"@,
    ensures
        spec_top(evs, pos, acc) == spec_top(
            evs,
            lex(evs, lex(evs, pos).1).1,
            LibView { metadata: acc.metadata.insert(k@, v), ..acc },
        ),
        (LibView { metadata: acc.metadata.insert(k@, v), ..acc }).metadata.contains_key(k@),
        (LibView { metadata: acc.metadata.insert(k@, v), ..acc }).tracks == acc.tracks,
        (LibView { metadata: acc.metadata.insert(k@, v), ..acc }).playlists == acc.playlists,
{
}

/// A top-level key other than "Tracks" and "Playlists", followed by any
/// single value element: whenever the rest of the document still parses,
/// the metadata of the returned library contains that key.
pub proof fn lemma_unknown_key_reaches_result(
    evs: Seq<RawEvent>,
    pos: int,
    acc: LibView,
    k: String,
    v: Element,
)
    requires
        lex(evs, pos).0 == Ok::<Option<Element>, ParseError>(Some(Element::Key(k))),
        lex(evs, lex(evs, pos).1).0 == Ok::<Option<Element>, ParseError>(Some(v)),
        k@ != "Tracks"@,
        k@ != "Playlists"@,
        spec_top(evs, pos, acc).0 matches Ok(_),
    ensures
        (spec_top(evs, pos, acc).0 matches Ok(lv) && lv.metadata.contains_key(k@)),
{
    lemma_unknown_key_to_metadata(evs, pos, acc, k, v);
    lemma_top_metadata_monotone(
        evs,
        lex(evs, lex(evs, pos).1).1,
        LibView { metadata: acc.metadata.insert(k@, v), ..acc },
        k@,
    );
}

/// Whatever the rest of the document does, a key already in the metadata
/// stays in it: a successful top-level run only ever adds metadata keys.
pub proof fn lemma_top_metadata_monotone(evs: Seq<RawEvent>, pos: int, acc: LibView, key: Seq<char>)
    requires
        acc.metadata.contains_key(key),
        spec_top(evs, pos, acc).0 matches Ok(_),
    ensures
        (spec_top(evs, pos, acc).0 matches Ok(lv) && lv.metadata.contains_key(key)),
{
    if 0 <= pos <= evs.len() {
        lemma_top_metadata_monotone_in_range(evs, pos, acc, key);
    }
}

proof fn lemma_top_metadata_monotone_in_range(
    evs: Seq<RawEvent>,
    pos: int,
    acc: LibView,
    key: Seq<char>,
)
    requires
        0 <= pos <= evs.len(),
        acc.metadata.contains_key(key),
        spec_top(evs, pos, acc).0 matches Ok(_),
    ensures
        (spec_top(evs, pos, acc).0 matches Ok(lv) && lv.metadata.contains_key(key)),
    decreases evs.len() - pos,
{
    crate::lexer::lemma_lex_bounds(evs, pos);
    let (r, p) = lex(evs, pos);
    match r {
        Ok(Some(Element::Key(k))) => {
            crate::lexer::lemma_lex_bounds(evs, p);
            let (rv, p2) = lex(evs, p);
            match rv {
                Ok(Some(v)) => {
                    if k@ == "Tracks"@ {
                        if v is Dict {
                            crate::library::lemma_spec_tracks_bounds(evs, p2, acc.tracks);
                            let (rt, p3) = crate::library::spec_tracks(evs, p2, acc.tracks);
                            match rt {
                                Ok(m) => {
                                    lemma_top_metadata_monotone_in_range(
                                        evs,
                                        p3,
                                        LibView { tracks: m, ..acc },
                                        key,
                                    );
                                },
                                _ => {},
                            }
                        }
                    } else if k@ == "Playlists"@ {
                        if v is Array {
                            crate::library::lemma_spec_playlists_bounds(evs, p2, acc.playlists);
                            let (rp, p3) = crate::library::spec_playlists(evs, p2, acc.playlists);
                            match rp {
                                Ok(m) => {
                                    lemma_top_metadata_monotone_in_range(
                                        evs,
                                        p3,
                                        LibView { playlists: m, ..acc },
                                        key,
                                    );
                                },
                                _ => {},
                            }
                        }
                    } else {
                        lemma_top_metadata_monotone_in_range(
                            evs,
                            p2,
                            LibView { metadata: acc.metadata.insert(k@, v), ..acc },
                            key,
                        );
                    }
                },
                _ => {},
            }
        },
        _ => {},
    }
}

/// A track dict key outside the closed vocabulary fails the field loop at
/// once with the unknown-field error carrying that key; no track comes back.
pub proof fn lemma_unknown_track_field(evs: Seq<RawEvent>, pos: int, t: Track, k: String)
    requires
        lex(evs, pos).0 == Ok::<Option<Element>, ParseError>(Some(Element::Key(k))),
        spec_track_key(evs, lex(evs, pos).1, k, t) is None,
    ensures
        spec_track_fields(evs, pos, t) == (
            Err::<Track, ParseError>(ParseError::UnknownField(k)),
            lex(evs, pos).1,
        ),
{
}

/// One item dict of a "Playlist Items" array — a dict holding exactly a
/// "Track ID" key and an integer — inserts that id into the set; reading
/// goes on after the dict's close.
pub proof fn lemma_item_entry_inserts(evs: Seq<RawEvent>, pos: int, items: Set<u64>, i: i64)
    requires
        0 <= pos,
        pos + 8 <= evs.len(),
        (evs[pos] matches RawEvent::Open(t) && t@ == "dict"@),
        (evs[pos + 1] matches RawEvent::Open(t) && t@ == "key"@),
        (evs[pos + 2] matches RawEvent::Text(t) && t@ == "Track ID"@),
        (evs[pos + 3] matches RawEvent::Close(t) && t@ == "key"@),
        (evs[pos + 4] matches RawEvent::Open(t) && t@ == "integer"@),
        (evs[pos + 5] matches RawEvent::Text(t) && spec_parse_i64(t@) == Some(i)),
        (evs[pos + 6] matches RawEvent::Close(t) && t@ == "integer"@),
        (evs[pos + 7] matches RawEvent::Close(t) && t@ == "dict"@),
    ensures
        spec_playlist_items(evs, pos, items) == spec_playlist_items(
            evs,
            pos + 8,
            items.insert(i as u64),
        ),
{
    lemma_tag_literals();
    assert(lex(evs, pos) == (Ok::<Option<Element>, ParseError>(Some(Element::Dict)), pos + 1));
    let kt = evs[pos + 2]->Text_0;
    assert(lex(evs, pos + 1) == (Ok::<Option<Element>, ParseError>(Some(Element::Key(kt))), pos + 4)) by {
        reveal_with_fuel(lex_at, 4);
    }
    assert(lex(evs, pos + 4) == (Ok::<Option<Element>, ParseError>(Some(Element::Integer(i))), pos + 7)) by {
        reveal_with_fuel(lex_at, 4);
    }
    assert(lex(evs, pos + 7) == (Ok::<Option<Element>, ParseError>(None), pos + 8));
}

/// Two item dicts referencing one and the same track id, closing the array,
/// leave an item set of size one: duplicates collapse.
pub proof fn lemma_duplicate_items_collapse(evs: Seq<RawEvent>, pos: int, i: i64)
    requires
        0 <= pos,
        pos + 17 <= evs.len(),
        (evs[pos] matches RawEvent::Open(t) && t@ == "dict"@),
        (evs[pos + 1] matches RawEvent::Open(t) && t@ == "key"@),
        (evs[pos + 2] matches RawEvent::Text(t) && t@ == "Track ID"@),
        (evs[pos + 3] matches RawEvent::Close(t) && t@ == "key"@),
        (evs[pos + 4] matches RawEvent::Open(t) && t@ == "integer"@),
        (evs[pos + 5] matches RawEvent::Text(t) && spec_parse_i64(t@) == Some(i)),
        (evs[pos + 6] matches RawEvent::Close(t) && t@ == "integer"@),
        (evs[pos + 7] matches RawEvent::Close(t) && t@ == "dict"@),
        (evs[pos + 8] matches RawEvent::Open(t) && t@ == "dict"@),
        (evs[pos + 9] matches RawEvent::Open(t) && t@ == "key"@),
        (evs[pos + 10] matches RawEvent::Text(t) && t@ == "Track ID"@),
        (evs[pos + 11] matches RawEvent::Close(t) && t@ == "key"@),
        (evs[pos + 12] matches RawEvent::Open(t) && t@ == "integer"@),
        (evs[pos + 13] matches RawEvent::Text(t) && spec_parse_i64(t@) == Some(i)),
        (evs[pos + 14] matches RawEvent::Close(t) && t@ == "integer"@),
        (evs[pos + 15] matches RawEvent::Close(t) && t@ == "dict"@),
        (evs[pos + 16] matches RawEvent::Close(t) && t@ == "array"@),
    ensures
        (spec_playlist_items(evs, pos, Set::empty()) matches (Ok(s), p) && s.len() == 1
            && s.contains(i as u64) && p == pos + 17),
{
    lemma_tag_literals();
    lemma_item_entry_inserts(evs, pos, Set::empty(), i);
    lemma_item_entry_inserts(evs, pos + 8, Set::empty().insert(i as u64), i);
    assert(lex(evs, pos + 16) == (Ok::<Option<Element>, ParseError>(None), pos + 17));
    assert(Set::empty().insert(i as u64).insert(i as u64) =~= Set::empty().insert(i as u64));
    assert(Set::<u64>::empty().insert(i as u64).len() == 1);
}

/// A `true` element decodes to the boolean `true` whatever character
/// content stands inside it, and whatever content was buffered before it.
pub proof fn lemma_true_ignores_content(
    evs: Seq<RawEvent>,
    pos: int,
    pend: Pending,
    text: Option<String>,
)
    requires
        0 <= pos,
        pos + 3 <= evs.len(),
        (evs[pos] matches RawEvent::Open(t) && t@ == "true"@),
        (evs[pos + 1] matches RawEvent::Text(_)),
        (evs[pos + 2] matches RawEvent::Close(t) && t@ == "true"@),
    ensures
        lex_at(evs, pos, pend, text) == (
            Ok::<Option<Element>, ParseError>(Some(Element::Boolean(true))),
            pos + 3,
        ),
{
    lemma_tag_literals();
    reveal_with_fuel(lex_at, 4);
}

/// A `false` element decodes to the boolean `false` whatever character
/// content stands inside it, and whatever content was buffered before it.
pub proof fn lemma_false_ignores_content(
    evs: Seq<RawEvent>,
    pos: int,
    pend: Pending,
    text: Option<String>,
)
    requires
        0 <= pos,
        pos + 3 <= evs.len(),
        (evs[pos] matches RawEvent::Open(t) && t@ == "false"@),
        (evs[pos + 1] matches RawEvent::Text(_)),
        (evs[pos + 2] matches RawEvent::Close(t) && t@ == "false"@),
    ensures
        lex_at(evs, pos, pend, text) == (
            Ok::<Option<Element>, ParseError>(Some(Element::Boolean(false))),
            pos + 3,
        ),
{
    lemma_tag_literals();
    reveal_with_fuel(lex_at, 4);
}

/// A reader failure surfaces as the malformed-markup error carrying the
/// reader's message, whatever the tokenizer had buffered; nothing of a
/// library is returned past it.
pub proof fn lemma_fault_is_markup_error(
    evs: Seq<RawEvent>,
    pos: int,
    pend: Pending,
    text: Option<String>,
    m: String,
)
    requires
        0 <= pos < evs.len(),
        evs[pos] == RawEvent::Fault(m),
    ensures
        lex_at(evs, pos, pend, text) == (
            Err::<Option<Element>, ParseError>(ParseError::Markup(m)),
            pos,
        ),
{
}

/// A document whose very first event is a reader failure parses to the
/// malformed-markup error, never to a library.
pub proof fn lemma_fault_document_fails(evs: Seq<RawEvent>, m: String)
    requires
        evs.len() > 0,
        evs[0] == RawEvent::Fault(m),
    ensures
        spec_parse(evs) == Err::<LibView, ParseError>(ParseError::Markup(m)),
{
}



/// A map of tracks keyed by the records' own ids.
pub open spec fn tracks_keyed(m: Map<u64, Track>) -> bool {
    forall|id: u64| #[trigger] m.contains_key(id) ==> m[id].id == id
}

/// A map of playlists keyed by the records' own ids.
pub open spec fn playlists_keyed(m: Map<u64, crate::playlist::PlaylistV>) -> bool {
    forall|id: u64| #[trigger] m.contains_key(id) ==> m[id].id == id
}

/// The tracks run only ever inserts a track under that track's id.
proof fn lemma_spec_tracks_keyed(evs: Seq<RawEvent>, pos: int, m: Map<u64, Track>)
    requires
        0 <= pos <= evs.len(),
        tracks_keyed(m),
    ensures
        (crate::library::spec_tracks(evs, pos, m).0 matches Ok(m2) ==> tracks_keyed(m2)),
    decreases evs.len() - pos,
{
    crate::track::lemma_next_track_bounds(evs, pos);
    let (r, p) = crate::track::spec_next_track(evs, pos);
    match r {
        Ok(Some(t)) => {
            lemma_spec_tracks_keyed(evs, p, m.insert(t.id, t));
        },
        _ => {},
    }
}

/// The playlists run only ever inserts a playlist under that playlist's id.
proof fn lemma_spec_playlists_keyed(
    evs: Seq<RawEvent>,
    pos: int,
    m: Map<u64, crate::playlist::PlaylistV>,
)
    requires
        0 <= pos <= evs.len(),
        playlists_keyed(m),
    ensures
        (crate::library::spec_playlists(evs, pos, m).0 matches Ok(m2) ==> playlists_keyed(m2)),
    decreases evs.len() - pos,
{
    crate::playlist::lemma_next_playlist_bounds(evs, pos);
    let (r, p) = crate::playlist::spec_next_playlist(evs, pos);
    match r {
        Ok(Some(pv)) => {
            lemma_spec_playlists_keyed(evs, p, m.insert(pv.id, pv));
        },
        _ => {},
    }
}

proof fn lemma_top_keyed(evs: Seq<RawEvent>, pos: int, acc: LibView)
    requires
        0 <= pos <= evs.len(),
        tracks_keyed(acc.tracks),
        playlists_keyed(acc.playlists),
    ensures
        (spec_top(evs, pos, acc).0 matches Ok(lv) ==> tracks_keyed(lv.tracks) && playlists_keyed(
            lv.playlists,
        )),
    decreases evs.len() - pos,
{
    crate::lexer::lemma_lex_bounds(evs, pos);
    let (r, p) = lex(evs, pos);
    match r {
        Ok(Some(Element::Key(k))) => {
            crate::lexer::lemma_lex_bounds(evs, p);
            let (rv, p2) = lex(evs, p);
            match rv {
                Ok(Some(v)) => {
                    if k@ == "Tracks"@ {
                        if v is Dict {
                            crate::library::lemma_spec_tracks_bounds(evs, p2, acc.tracks);
                            lemma_spec_tracks_keyed(evs, p2, acc.tracks);
                            let (rt, p3) = crate::library::spec_tracks(evs, p2, acc.tracks);
                            match rt {
                                Ok(m) => {
                                    lemma_top_keyed(evs, p3, LibView { tracks: m, ..acc });
                                },
                                _ => {},
                            }
                        }
                    } else if k@ == "Playlists"@ {
                        if v is Array {
                            crate::library::lemma_spec_playlists_bounds(evs, p2, acc.playlists);
                            lemma_spec_playlists_keyed(evs, p2, acc.playlists);
                            let (rp, p3) = crate::library::spec_playlists(evs, p2, acc.playlists);
                            match rp {
                                Ok(m) => {
                                    lemma_top_keyed(evs, p3, LibView { playlists: m, ..acc });
                                },
                                _ => {},
                            }
                        }
                    } else {
                        lemma_top_keyed(
                            evs,
                            p2,
                            LibView { metadata: acc.metadata.insert(k@, v), ..acc },
                        );
                    }
                },
                _ => {},
            }
        },
        _ => {},
    }
}

/// In every library a parse returns, each track sits in the tracks map
/// under its own id, and each playlist in the playlists map under its own:
/// the record ids are unique within their maps by construction.
pub proof fn lemma_records_keyed_by_id(evs: Seq<RawEvent>)
    ensures
        (spec_parse(evs) matches Ok(lv) ==> tracks_keyed(lv.tracks) && playlists_keyed(
            lv.playlists,
        )),
{
    let (r0, p0) = lex(evs, 0);
    if evs.len() > 0 {
        crate::lexer::lemma_lex_bounds(evs, 0);
        match r0 {
            Ok(Some(Element::Plist)) => {
                crate::lexer::lemma_lex_bounds(evs, p0);
                let (r1, p1) = lex(evs, p0);
                match r1 {
                    Ok(Some(Element::Dict)) => {
                        lemma_top_keyed(evs, p1, crate::library::spec_empty_library());
                    },
                    _ => {},
                }
            },
            _ => {},
        }
    }
}

} // verus!
