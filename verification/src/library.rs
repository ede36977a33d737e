//! The document parser: recognizes the "Tracks" and "Playlists" keys at the
//! top level, dispatches into the two projectors, and lands every other key
//! verbatim in a metadata map. The returned `Library` is complete, or the
//! call fails as a whole: no partial result is ever observable.

use std::collections::HashMap;

use vstd::prelude::*;

use crate::elements::{Element, ParseError, RawEvent, TokenKind};
use crate::lexer::{lex, lemma_lex_bounds, str_eq, ElementStream};
use crate::playlist::{lemma_next_playlist_bounds, spec_next_playlist, Playlist, PlaylistV};
use crate::track::{lemma_next_track_bounds, spec_next_track, Track};

verus! {

broadcast use vstd::std_specs::hash::group_hash_axioms;

/// The leftover top-level metadata: a map from key to the one `Element`
/// stored verbatim as its value, where a later entry for the same key
/// shadows an earlier one (last write wins).
#[derive(Debug)]
pub struct Metadata {
    entries: Vec<(String, Element)>,
}

/// The map an entry list denotes, read left to right: later entries win.
pub closed spec fn map_of(entries: Seq<(String, Element)>) -> Map<Seq<char>, Element>
    decreases entries.len(),
{
    if entries.len() == 0 {
        Map::empty()
    } else {
        map_of(entries.drop_last()).insert(entries.last().0@, entries.last().1)
    }
}

impl View for Metadata {
    type V = Map<Seq<char>, Element>;

    closed spec fn view(&self) -> Map<Seq<char>, Element> {
        map_of(self.entries@)
    }
}

impl Metadata {
    /// An empty metadata map.
    pub fn new() -> (m: Metadata)
        ensures
            m@ == Map::<Seq<char>, Element>::empty(),
    {
        let m = Metadata { entries: Vec::new() };
        proof {
            assert(m.entries@.len() == 0);
        }
        m
    }

    /// Stores `v` under `k`; a later entry for the same key shadows an
    /// earlier one.
    pub fn insert(&mut self, k: String, v: Element)
        ensures
            final(self)@ == old(self)@.insert(k@, v),
    {
        let ghost before = self.entries@;
        let ghost kv = (k, v);
        self.entries.push((k, v));
        proof {
            assert(self.entries@.drop_last() =~= before);
            assert(self.entries@.last() == kv);
        }
    }

    /// Looks `k` up, exactly as the map the entries denote has it.
    pub fn get(&self, k: &str) -> (r: Option<&Element>)
        ensures
            match r {
                Some(v) => self@.contains_key(k@) && *v == self@[k@],
                None => !self@.contains_key(k@),
            },
    {
        let ghost whole = self.entries@;
        proof {
            assert(whole.take(whole.len() as int) =~= whole);
        }
        let mut i: usize = self.entries.len();
        loop
            invariant
                i <= self.entries@.len(),
                self.entries@ == whole,
                map_of(whole.take(i as int)).contains_key(k@) == self@.contains_key(k@),
                self@.contains_key(k@) ==> map_of(whole.take(i as int)).contains_key(k@) && map_of(
                    whole.take(i as int),
                )[k@] == self@[k@],
            decreases i,
        {
            if i == 0 {
                return None;
            }
            i = i - 1;
            proof {
                assert(whole.take(i + 1).drop_last() =~= whole.take(i as int));
                assert(whole.take(i + 1).last() == whole[i as int]);
            }
            if str_eq(self.entries[i].0.as_str(), k) {
                return Some(&self.entries[i].1);
            }
        }
    }

    /// True exactly of the empty map.
    pub fn is_empty(&self) -> (b: bool)
        ensures
            b == (self@ == Map::<Seq<char>, Element>::empty()),
    {
        proof {
            if self.entries@.len() > 0 {
                assert(self@.contains_key(self.entries@.last().0@));
                assert(!Map::<Seq<char>, Element>::empty().contains_key(
                    self.entries@.last().0@,
                ));
            } else {
                assert(self@ =~= Map::<Seq<char>, Element>::empty());
            }
        }
        self.entries.len() == 0
    }
}

/// The root aggregate of one parse: tracks and playlists by their numeric
/// ids, and the leftover top-level metadata. Built in one forward pass and
/// never mutated afterwards.
#[derive(Debug)]
pub struct Library {
    pub metadata: Metadata,
    pub tracks: HashMap<u64, Track>,
    pub playlists: HashMap<u64, Playlist>,
}

/// The mathematical value of a `Library`.
pub ghost struct LibView {
    pub metadata: Map<Seq<char>, Element>,
    pub tracks: Map<u64, Track>,
    pub playlists: Map<u64, PlaylistV>,
}

/// The views of a map of playlists.
pub open spec fn playlists_view(m: Map<u64, Playlist>) -> Map<u64, PlaylistV> {
    m.map_values(|p: Playlist| p@)
}

impl View for Library {
    type V = LibView;

    open spec fn view(&self) -> LibView {
        LibView {
            metadata: self.metadata@,
            tracks: self.tracks@,
            playlists: playlists_view(self.playlists@),
        }
    }
}

/// A library with nothing in it.
pub open spec fn spec_empty_library() -> LibView {
    LibView { metadata: Map::empty(), tracks: Map::empty(), playlists: Map::empty() }
}

/// Inserting a playlist commutes with taking views.
proof fn lemma_playlists_view_insert(m: Map<u64, Playlist>, k: u64, p: Playlist)
    ensures
        playlists_view(m.insert(k, p)) == playlists_view(m).insert(k, p@),
{
    assert(playlists_view(m.insert(k, p)) =~= playlists_view(m).insert(k, p@));
}

/// The "Tracks" dict: a run of track entries inserted by id (a later entry
/// for the same id wins), until the dict closes.
pub open spec fn spec_tracks(evs: Seq<RawEvent>, pos: int, m: Map<u64, Track>) -> (
    Result<Map<u64, Track>, ParseError>,
    int,
)
    decreases evs.len() - pos,
    when true
    via spec_tracks_dec
{
    let (r, p) = spec_next_track(evs, pos);
    match r {
        Err(e) => (Err(e), p),
        Ok(None) => (Ok(m), p),
        Ok(Some(t)) => spec_tracks(evs, p, m.insert(t.id, t)),
    }
}

#[via_fn]
proof fn spec_tracks_dec(evs: Seq<RawEvent>, pos: int, m: Map<u64, Track>) {
    if 0 <= pos <= evs.len() {
        lemma_next_track_bounds(evs, pos);
    }
}

/// The tracks run moves the cursor forwards and never past the end.
pub proof fn lemma_spec_tracks_bounds(evs: Seq<RawEvent>, pos: int, m: Map<u64, Track>)
    requires
        0 <= pos <= evs.len(),
    ensures
        ({
            let (r, p) = spec_tracks(evs, pos, m);
            pos <= p <= evs.len()
        }),
    decreases evs.len() - pos,
{
    lemma_next_track_bounds(evs, pos);
    let (r, p) = spec_next_track(evs, pos);
    match r {
        Ok(Some(t)) => {
            lemma_spec_tracks_bounds(evs, p, m.insert(t.id, t));
        },
        _ => {},
    }
}

/// The "Playlists" array: a run of playlist entries inserted by id (a later
/// entry for the same id wins), until the array closes.
pub open spec fn spec_playlists(evs: Seq<RawEvent>, pos: int, m: Map<u64, PlaylistV>) -> (
    Result<Map<u64, PlaylistV>, ParseError>,
    int,
)
    decreases evs.len() - pos,
    when true
    via spec_playlists_dec
{
    let (r, p) = spec_next_playlist(evs, pos);
    match r {
        Err(e) => (Err(e), p),
        Ok(None) => (Ok(m), p),
        Ok(Some(pv)) => spec_playlists(evs, p, m.insert(pv.id, pv)),
    }
}

#[via_fn]
proof fn spec_playlists_dec(evs: Seq<RawEvent>, pos: int, m: Map<u64, PlaylistV>) {
    if 0 <= pos <= evs.len() {
        lemma_next_playlist_bounds(evs, pos);
    }
}

/// The playlists run moves the cursor forwards and never past the end.
pub proof fn lemma_spec_playlists_bounds(evs: Seq<RawEvent>, pos: int, m: Map<u64, PlaylistV>)
    requires
        0 <= pos <= evs.len(),
    ensures
        ({
            let (r, p) = spec_playlists(evs, pos, m);
            pos <= p <= evs.len()
        }),
    decreases evs.len() - pos,
{
    lemma_next_playlist_bounds(evs, pos);
    let (r, p) = spec_next_playlist(evs, pos);
    match r {
        Ok(Some(pv)) => {
            lemma_spec_playlists_bounds(evs, p, m.insert(pv.id, pv));
        },
        _ => {},
    }
}

/// The top-level loop: reads a key and exactly one value element for it.
/// "Tracks" must hold a dict of track entries; "Playlists" an array of
/// playlist entries; any other key lands in the metadata verbatim. Ends
/// successfully when the root dict closes.
pub open spec fn spec_top(evs: Seq<RawEvent>, pos: int, acc: LibView) -> (
    Result<LibView, ParseError>,
    int,
)
    decreases evs.len() - pos,
    when true
    via spec_top_dec
{
    let (r, p) = lex(evs, pos);
    match r {
        Err(e) => (Err(e), p),
        Ok(None) => (Ok(acc), p),
        Ok(Some(Element::Key(k))) => {
            let (rv, p2) = lex(evs, p);
            match rv {
                Err(e) => (Err(e), p2),
                Ok(None) => (Err(ParseError::MissingValue(k)), p2),
                Ok(Some(v)) => {
                    if k@ == "Tracks"@ {
                        if v is Dict {
                            let (rt, p3) = spec_tracks(evs, p2, acc.tracks);
                            match rt {
                                Err(e) => (Err(e), p3),
                                Ok(m) => spec_top(evs, p3, LibView { tracks: m, ..acc }),
                            }
                        } else {
                            (
                                Err(
                                    ParseError::Unexpected {
                                        expected: TokenKind::Dict,
                                        found: Some(v),
                                    },
                                ),
                                p2,
                            )
                        }
                    } else if k@ == "Playlists"@ {
                        if v is Array {
                            let (rp, p3) = spec_playlists(evs, p2, acc.playlists);
                            match rp {
                                Err(e) => (Err(e), p3),
                                Ok(m) => spec_top(evs, p3, LibView { playlists: m, ..acc }),
                            }
                        } else {
                            (
                                Err(
                                    ParseError::Unexpected {
                                        expected: TokenKind::Array,
                                        found: Some(v),
                                    },
                                ),
                                p2,
                            )
                        }
                    } else {
                        spec_top(
                            evs,
                            p2,
                            LibView { metadata: acc.metadata.insert(k@, v), ..acc },
                        )
                    }
                },
            }
        },
        Ok(Some(found)) => (
            Err(ParseError::Unexpected { expected: TokenKind::Key, found: Some(found) }),
            p,
        ),
    }
}

#[via_fn]
proof fn spec_top_dec(evs: Seq<RawEvent>, pos: int, acc: LibView) {
    if 0 <= pos <= evs.len() {
        lemma_lex_bounds(evs, pos);
        let (r, p) = lex(evs, pos);
        if 0 <= p <= evs.len() {
            lemma_lex_bounds(evs, p);
            let (rv, p2) = lex(evs, p);
            if 0 <= p2 <= evs.len() {
                lemma_spec_tracks_bounds(evs, p2, acc.tracks);
                lemma_spec_playlists_bounds(evs, p2, acc.playlists);
            }
        }
    }
}

/// The whole document from position `pos`: the plist wrapper, the root
/// dict, then the top-level loop.
pub open spec fn spec_parse_at(evs: Seq<RawEvent>, pos: int) -> (Result<LibView, ParseError>, int) {
    let (r0, p0) = lex(evs, pos);
    match r0 {
        Err(e) => (Err(e), p0),
        Ok(Some(Element::Plist)) => {
            let (r1, p1) = lex(evs, p0);
            match r1 {
                Err(e) => (Err(e), p1),
                Ok(Some(Element::Dict)) => spec_top(evs, p1, spec_empty_library()),
                Ok(found) => (
                    Err(ParseError::Unexpected { expected: TokenKind::Dict, found }),
                    p1,
                ),
            }
        },
        Ok(found) => (
            Err(ParseError::Unexpected { expected: TokenKind::Plist, found }),
            p0,
        ),
    }
}

/// What a whole event sequence parses to: the `Library` of the document the
/// events spell, or the first error.
pub open spec fn spec_parse(evs: Seq<RawEvent>) -> Result<LibView, ParseError> {
    spec_parse_at(evs, 0).0
}

/// Parses one document from the cursor: exactly as `spec_parse_at` states
/// it.
#[verifier::loop_isolation(false)]
pub fn parse_document(it: &mut ElementStream) -> (r: Result<Library, ParseError>)
    requires
        old(it).wf(),
    ensures
        final(it).events@ == old(it).events@,
        final(it).wf(),
        ({
            let (rs, ps) = spec_parse_at(old(it).events@, old(it).pos as int);
            final(it).pos as int == ps && match (r, rs) {
                (Ok(lib), Ok(lv)) => lib@ == lv,
                (Err(e1), Err(e2)) => e1 == e2,
                _ => false,
            }
        }),
{
    let ghost evs = it.events@;
    match it.next() {
        Err(e) => {
            return Err(e);
        },
        Ok(Some(Element::Plist)) => {},
        Ok(found) => {
            return Err(ParseError::Unexpected { expected: TokenKind::Plist, found });
        },
    }
    match it.next() {
        Err(e) => {
            return Err(e);
        },
        Ok(Some(Element::Dict)) => {},
        Ok(found) => {
            return Err(ParseError::Unexpected { expected: TokenKind::Dict, found });
        },
    }
    let ghost p_start = it.pos as int;
    let mut metadata = Metadata::new();
    let mut tracks: HashMap<u64, Track> = HashMap::new();
    let mut playlists: HashMap<u64, Playlist> = HashMap::new();
    proof {
        assert(playlists_view(playlists@) =~= Map::<u64, PlaylistV>::empty());
    }
    loop
        invariant
            it.events@ == evs,
            it.wf(),
            spec_top(
                evs,
                it.pos as int,
                LibView {
                    metadata: metadata@,
                    tracks: tracks@,
                    playlists: playlists_view(playlists@),
                },
            ) == spec_top(evs, p_start, spec_empty_library()),
        decreases evs.len() - it.pos,
    {
        let ghost acc = LibView {
            metadata: metadata@,
            tracks: tracks@,
            playlists: playlists_view(playlists@),
        };
        proof {
            lemma_lex_bounds(evs, it.pos as int);
        }
        let key = match it.next() {
            Err(e) => {
                return Err(e);
            },
            Ok(None) => {
                return Ok(Library { metadata, tracks, playlists });
            },
            Ok(Some(Element::Key(k))) => k,
            Ok(Some(found)) => {
                return Err(ParseError::Unexpected { expected: TokenKind::Key, found: Some(found) });
            },
        };
        proof {
            lemma_lex_bounds(evs, it.pos as int);
        }
        let value = match it.next() {
            Err(e) => {
                return Err(e);
            },
            Ok(None) => {
                return Err(ParseError::MissingValue(key));
            },
            Ok(Some(v)) => v,
        };
        if str_eq(key.as_str(), "Tracks") {
            match value {
                Element::Dict => {},
                found => {
                    return Err(ParseError::Unexpected {
                        expected: TokenKind::Dict,
                        found: Some(found),
                    });
                },
            }
            let ghost p_tracks = it.pos as int;
            let ghost tracks0 = tracks@;
            loop
                invariant
                    it.events@ == evs,
                    it.wf(),
                    p_tracks <= it.pos as int,
                    spec_tracks(evs, it.pos as int, tracks@) == spec_tracks(
                        evs,
                        p_tracks,
                        tracks0,
                    ),
                decreases evs.len() - it.pos,
            {
                proof {
                    lemma_next_track_bounds(evs, it.pos as int);
                }
                match it.next_track() {
                    Err(e) => {
                        return Err(e);
                    },
                    Ok(None) => {
                        break;
                    },
                    Ok(Some(t)) => {
                        tracks.insert(t.id, t);
                    },
                }
            }
        } else if str_eq(key.as_str(), "Playlists") {
            match value {
                Element::Array => {},
                found => {
                    return Err(ParseError::Unexpected {
                        expected: TokenKind::Array,
                        found: Some(found),
                    });
                },
            }
            let ghost p_lists = it.pos as int;
            let ghost lists0 = playlists_view(playlists@);
            loop
                invariant
                    it.events@ == evs,
                    it.wf(),
                    p_lists <= it.pos as int,
                    spec_playlists(evs, it.pos as int, playlists_view(playlists@))
                        == spec_playlists(evs, p_lists, lists0),
                decreases evs.len() - it.pos,
            {
                proof {
                    lemma_next_playlist_bounds(evs, it.pos as int);
                }
                match it.next_playlist() {
                    Err(e) => {
                        return Err(e);
                    },
                    Ok(None) => {
                        break;
                    },
                    Ok(Some(p)) => {
                        proof {
                            lemma_playlists_view_insert(playlists@, p.id, p);
                        }
                        playlists.insert(p.id, p);
                    },
                }
            }
        } else {
            metadata.insert(key, value);
        }
    }
}

/// Parses one document spelled as raw events: exactly as `spec_parse`
/// states it.
pub fn parse_events(events: Vec<RawEvent>) -> (r: Result<Library, ParseError>)
    ensures
        match (r, spec_parse(events@)) {
            (Ok(lib), Ok(lv)) => lib@ == lv,
            (Err(e1), Err(e2)) => e1 == e2,
            _ => false,
        },
{
    let mut it = ElementStream::new(events);
    parse_document(&mut it)
}

} // verus!
