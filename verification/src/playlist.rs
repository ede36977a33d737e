//! The playlist projector: consumes one nested dict for a playlist under a
//! smaller closed field vocabulary, including a nested array of item
//! references collapsed into a set of track ids.

use std::collections::HashSet;

use vstd::prelude::*;

use crate::elements::{Element, ParseError, RawEvent, TokenKind};
use crate::lexer::{lex, lemma_lex_bounds, spec_next_bool, spec_next_int, spec_next_str, str_eq,
    ElementStream};

verus! {

broadcast use vstd::std_specs::hash::group_hash_axioms;

/// A named collection of track references, with category and visibility
/// flags and two opaque blob fields kept as raw text. Fields a document
/// never sets keep their defaults. The item set collapses duplicates and
/// keeps no order.
#[derive(Debug, Default)]
pub struct Playlist {
    pub id: u64,
    pub name: String,
    pub persistent_id: String,
    pub description: Option<String>,
    pub parent_persistent_id: Option<String>,
    pub all_items: bool,
    pub distinguished_kind: Option<i64>,
    pub music: Option<bool>,
    pub master: Option<bool>,
    pub visible: Option<bool>,
    pub folder: Option<bool>,
    pub movies: Option<bool>,
    pub tv_shows: Option<bool>,
    pub audiobooks: Option<bool>,
    pub podcasts: Option<bool>,
    pub items: HashSet<u64>,
    pub smart_info: Option<String>,
    pub smart_criteria: Option<String>,
}

/// The mathematical value of a `Playlist`: its strings as character
/// sequences and its item collection as a set.
pub ghost struct PlaylistV {
    pub id: u64,
    pub name: Seq<char>,
    pub persistent_id: Seq<char>,
    pub description: Option<Seq<char>>,
    pub parent_persistent_id: Option<Seq<char>>,
    pub all_items: bool,
    pub distinguished_kind: Option<i64>,
    pub music: Option<bool>,
    pub master: Option<bool>,
    pub visible: Option<bool>,
    pub folder: Option<bool>,
    pub movies: Option<bool>,
    pub tv_shows: Option<bool>,
    pub audiobooks: Option<bool>,
    pub podcasts: Option<bool>,
    pub items: Set<u64>,
    pub smart_info: Option<Seq<char>>,
    pub smart_criteria: Option<Seq<char>>,
}

/// The characters of an optional string.
pub open spec fn view_opt_str(s: Option<String>) -> Option<Seq<char>> {
    match s {
        Some(x) => Some(x@),
        None => None,
    }
}

impl View for Playlist {
    type V = PlaylistV;

    open spec fn view(&self) -> PlaylistV {
        PlaylistV {
            id: self.id,
            name: self.name@,
            persistent_id: self.persistent_id@,
            description: view_opt_str(self.description),
            parent_persistent_id: view_opt_str(self.parent_persistent_id),
            all_items: self.all_items,
            distinguished_kind: self.distinguished_kind,
            music: self.music,
            master: self.master,
            visible: self.visible,
            folder: self.folder,
            movies: self.movies,
            tv_shows: self.tv_shows,
            audiobooks: self.audiobooks,
            podcasts: self.podcasts,
            items: self.items@,
            smart_info: view_opt_str(self.smart_info),
            smart_criteria: view_opt_str(self.smart_criteria),
        }
    }
}

/// A playlist with every slot at its default.
pub open spec fn spec_empty_playlist() -> PlaylistV {
    PlaylistV {
        id: 0,
        name: Seq::empty(),
        persistent_id: Seq::empty(),
        description: None,
        parent_persistent_id: None,
        all_items: false,
        distinguished_kind: None,
        music: None,
        master: None,
        visible: None,
        folder: None,
        movies: None,
        tv_shows: None,
        audiobooks: None,
        podcasts: None,
        items: Set::empty(),
        smart_info: None,
        smart_criteria: None,
    }
}

impl Playlist {
    /// Builds a playlist with every slot at its default.
    pub fn empty() -> (p: Playlist)
        ensures
            p@ == spec_empty_playlist(),
    {
        let p = Playlist {
            id: 0,
            name: String::new(),
            persistent_id: String::new(),
            description: None,
            parent_persistent_id: None,
            all_items: false,
            distinguished_kind: None,
            music: None,
            master: None,
            visible: None,
            folder: None,
            movies: None,
            tv_shows: None,
            audiobooks: None,
            podcasts: None,
            items: HashSet::new(),
            smart_info: None,
            smart_criteria: None,
        };
        proof {
            assert(p@.items =~= spec_empty_playlist().items);
            assert(p@.name =~= spec_empty_playlist().name);
            assert(p@.persistent_id =~= spec_empty_playlist().persistent_id);
        }
        p
    }
}

/// The "Playlist Items" array: a run of item dicts, each holding exactly a
/// "Track ID" key and an integer, collapsed into `items`; ends when the
/// array closes. Duplicate references collapse; order is not kept.
pub open spec fn spec_playlist_items(evs: Seq<RawEvent>, pos: int, items: Set<u64>) -> (
    Result<Set<u64>, ParseError>,
    int,
)
    decreases evs.len() - pos,
    when true
    via spec_playlist_items_dec
{
    let (r, p) = lex(evs, pos);
    match r {
        Err(e) => (Err(e), p),
        Ok(None) => (Ok(items), p),
        Ok(Some(Element::Dict)) => {
            let (r1, p1) = lex(evs, p);
            match r1 {
                Err(e) => (Err(e), p1),
                Ok(Some(Element::Key(k))) => if k@ == "Track ID"@ {
                    let (r2, p2) = spec_next_int(evs, p1);
                    match r2 {
                        Err(e) => (Err(e), p2),
                        Ok(i) => {
                            let (r3, p3) = lex(evs, p2);
                            match r3 {
                                Err(e) => (Err(e), p3),
                                Ok(None) => spec_playlist_items(evs, p3, items.insert(i as u64)),
                                Ok(Some(found)) => (
                                    Err(ParseError::Unexpected {
                                        expected: TokenKind::End,
                                        found: Some(found),
                                    }),
                                    p3,
                                ),
                            }
                        },
                    }
                } else {
                    (Err(ParseError::UnknownField(k)), p1)
                },
                Ok(found) => (
                    Err(ParseError::Unexpected { expected: TokenKind::Key, found }),
                    p1,
                ),
            }
        },
        Ok(Some(found)) => (
            Err(ParseError::Unexpected { expected: TokenKind::Dict, found: Some(found) }),
            p,
        ),
    }
}

#[via_fn]
proof fn spec_playlist_items_dec(evs: Seq<RawEvent>, pos: int, items: Set<u64>) {
    if 0 <= pos <= evs.len() {
        lemma_lex_bounds(evs, pos);
        let (r, p) = lex(evs, pos);
        lemma_lex_bounds_clamped(evs, p);
        let (r1, p1) = lex(evs, p);
        lemma_lex_bounds_clamped(evs, p1);
        let (r2, p2) = lex(evs, p1);
        lemma_lex_bounds_clamped(evs, p2);
    }
}

/// `lemma_lex_bounds` without the precondition: trivial outside the range.
proof fn lemma_lex_bounds_clamped(evs: Seq<RawEvent>, pos: int)
    ensures
        ({
            let (r, p) = lex(evs, pos);
            (0 <= pos <= evs.len()) ==> (pos <= p <= evs.len() && ((r matches Ok(Some(_))) ==> p
                > pos))
        }),
{
    if 0 <= pos <= evs.len() {
        lemma_lex_bounds(evs, pos);
    }
}

/// Reading the item array moves the cursor forwards and never past the end.
pub proof fn lemma_playlist_items_bounds(evs: Seq<RawEvent>, pos: int, items: Set<u64>)
    requires
        0 <= pos <= evs.len(),
    ensures
        ({
            let (r, p) = spec_playlist_items(evs, pos, items);
            pos <= p <= evs.len()
        }),
    decreases evs.len() - pos,
{
    lemma_lex_bounds(evs, pos);
    let (r, p) = lex(evs, pos);
    if r matches Ok(Some(Element::Dict)) {
        lemma_lex_bounds(evs, p);
        let (r1, p1) = lex(evs, p);
        match r1 {
            Ok(Some(Element::Key(k))) => {
                if k@ == "Track ID"@ {
                    lemma_lex_bounds(evs, p1);
                    let (r2, p2) = lex(evs, p1);
                    lemma_lex_bounds(evs, p2);
                    let (r3, p3) = lex(evs, p2);
                    match (spec_next_int(evs, p1).0, r3) {
                        (Ok(i), Ok(None)) => {
                            lemma_playlist_items_bounds(evs, p3, items.insert(i as u64));
                        },
                        _ => {},
                    }
                }
            },
            _ => {},
        }
    }
}

/// The closed playlist field vocabulary: for a field key `k`, the outcome of
/// reading that field's value from `evs` at `pos` into `pv` and the position
/// after it, or `None` when `k` is outside the vocabulary.
pub open spec fn spec_playlist_key(evs: Seq<RawEvent>, pos: int, k: String, pv: PlaylistV) -> Option<
    (Result<PlaylistV, ParseError>, int),
> {
    if k@ == "Playlist ID"@ {
        let (r, p) = spec_next_int(evs, pos);
        Some((match r { Ok(i) => Ok(PlaylistV { id: i as u64, ..pv }), Err(e) => Err(e) }, p))
    } else if k@ == "Name"@ {
        let (r, p) = spec_next_str(evs, pos);
        Some((
            match r {
                Ok(Some(s)) => Ok(PlaylistV { name: s@, ..pv }),
                Ok(None) => Err(ParseError::EmptyString(k)),
                Err(e) => Err(e),
            },
            p,
        ))
    } else if k@ == "Playlist Persistent ID"@ {
        let (r, p) = spec_next_str(evs, pos);
        Some((
            match r {
                Ok(Some(s)) => Ok(PlaylistV { persistent_id: s@, ..pv }),
                Ok(None) => Err(ParseError::EmptyString(k)),
                Err(e) => Err(e),
            },
            p,
        ))
    } else if k@ == "Description"@ {
        let (r, p) = spec_next_str(evs, pos);
        Some((match r { Ok(s) => Ok(PlaylistV { description: view_opt_str(s), ..pv }), Err(e) => Err(e) }, p))
    } else if k@ == "Parent Persistent ID"@ {
        let (r, p) = spec_next_str(evs, pos);
        Some((
            match r {
                Ok(s) => Ok(PlaylistV { parent_persistent_id: view_opt_str(s), ..pv }),
                Err(e) => Err(e),
            },
            p,
        ))
    } else if k@ == "All Items"@ {
        let (r, p) = spec_next_bool(evs, pos);
        Some((match r { Ok(b) => Ok(PlaylistV { all_items: b, ..pv }), Err(e) => Err(e) }, p))
    } else if k@ == "Distinguished Kind"@ {
        let (r, p) = spec_next_int(evs, pos);
        Some((
            match r { Ok(i) => Ok(PlaylistV { distinguished_kind: Some(i), ..pv }), Err(e) => Err(e) },
            p,
        ))
    } else if k@ == "Music"@ {
        let (r, p) = spec_next_bool(evs, pos);
        Some((match r { Ok(b) => Ok(PlaylistV { music: Some(b), ..pv }), Err(e) => Err(e) }, p))
    } else if k@ == "Master"@ {
        let (r, p) = spec_next_bool(evs, pos);
        Some((match r { Ok(b) => Ok(PlaylistV { master: Some(b), ..pv }), Err(e) => Err(e) }, p))
    } else if k@ == "Visible"@ {
        let (r, p) = spec_next_bool(evs, pos);
        Some((match r { Ok(b) => Ok(PlaylistV { visible: Some(b), ..pv }), Err(e) => Err(e) }, p))
    } else if k@ == "Folder"@ {
        let (r, p) = spec_next_bool(evs, pos);
        Some((match r { Ok(b) => Ok(PlaylistV { folder: Some(b), ..pv }), Err(e) => Err(e) }, p))
    } else if k@ == "Movies"@ {
        let (r, p) = spec_next_bool(evs, pos);
        Some((match r { Ok(b) => Ok(PlaylistV { movies: Some(b), ..pv }), Err(e) => Err(e) }, p))
    } else if k@ == "TV Shows"@ {
        let (r, p) = spec_next_bool(evs, pos);
        Some((match r { Ok(b) => Ok(PlaylistV { tv_shows: Some(b), ..pv }), Err(e) => Err(e) }, p))
    } else if k@ == "Audiobooks"@ {
        let (r, p) = spec_next_bool(evs, pos);
        Some((match r { Ok(b) => Ok(PlaylistV { audiobooks: Some(b), ..pv }), Err(e) => Err(e) }, p))
    } else if k@ == "Podcasts"@ {
        let (r, p) = spec_next_bool(evs, pos);
        Some((match r { Ok(b) => Ok(PlaylistV { podcasts: Some(b), ..pv }), Err(e) => Err(e) }, p))
    } else if k@ == "Smart Info"@ {
        let (r, p) = spec_next_str(evs, pos);
        Some((match r { Ok(s) => Ok(PlaylistV { smart_info: view_opt_str(s), ..pv }), Err(e) => Err(e) }, p))
    } else if k@ == "Smart Criteria"@ {
        let (r, p) = spec_next_str(evs, pos);
        Some((
            match r { Ok(s) => Ok(PlaylistV { smart_criteria: view_opt_str(s), ..pv }), Err(e) => Err(e) },
            p,
        ))
    } else if k@ == "Playlist Items"@ {
        let (r, p) = lex(evs, pos);
        match r {
            Err(e) => Some((Err(e), p)),
            Ok(Some(Element::Array)) => {
                let (ri, pi) = spec_playlist_items(evs, p, pv.items);
                Some((
                    match ri { Ok(s) => Ok(PlaylistV { items: s, ..pv }), Err(e) => Err(e) },
                    pi,
                ))
            },
            Ok(found) => Some((
                Err(ParseError::Unexpected { expected: TokenKind::Array, found }),
                p,
            )),
        }
    } else {
        None
    }
}

/// Reading one playlist field moves the cursor forwards and never past the
/// end.
pub proof fn lemma_playlist_key_bounds(evs: Seq<RawEvent>, pos: int, k: String, pv: PlaylistV)
    requires
        0 <= pos <= evs.len(),
    ensures
        match spec_playlist_key(evs, pos, k, pv) {
            Some((r, p)) => pos <= p <= evs.len(),
            None => true,
        },
{
    lemma_lex_bounds(evs, pos);
    let (r, p) = lex(evs, pos);
    if r matches Ok(Some(Element::Array)) {
        lemma_playlist_items_bounds(evs, p, pv.items);
    }
}

/// The field loop of the playlist projector: reads keys and their typed
/// values into `pv` until the playlist's dict closes. Fields never
/// encountered keep their defaults.
pub open spec fn spec_playlist_fields(evs: Seq<RawEvent>, pos: int, pv: PlaylistV) -> (
    Result<PlaylistV, ParseError>,
    int,
)
    decreases evs.len() - pos,
    when true
    via spec_playlist_fields_dec
{
    let (r, p) = lex(evs, pos);
    match r {
        Err(e) => (Err(e), p),
        Ok(None) => (Ok(pv), p),
        Ok(Some(Element::Key(k))) => match spec_playlist_key(evs, p, k, pv) {
            None => (Err(ParseError::UnknownField(k)), p),
            Some((Err(e), p2)) => (Err(e), p2),
            Some((Ok(pv2), p2)) => spec_playlist_fields(evs, p2, pv2),
        },
        Ok(Some(found)) => (
            Err(ParseError::Unexpected { expected: TokenKind::Key, found: Some(found) }),
            p,
        ),
    }
}

#[via_fn]
proof fn spec_playlist_fields_dec(evs: Seq<RawEvent>, pos: int, pv: PlaylistV) {
    if 0 <= pos <= evs.len() {
        lemma_lex_bounds(evs, pos);
        let (r, p) = lex(evs, pos);
        match r {
            Ok(Some(Element::Key(k))) => {
                lemma_playlist_key_bounds(evs, p, k, pv);
            },
            _ => {},
        }
    }
}

/// The playlist field loop moves the cursor forwards and never past the end.
pub proof fn lemma_playlist_fields_bounds(evs: Seq<RawEvent>, pos: int, pv: PlaylistV)
    requires
        0 <= pos <= evs.len(),
    ensures
        ({
            let (r, p) = spec_playlist_fields(evs, pos, pv);
            pos <= p <= evs.len()
        }),
    decreases evs.len() - pos,
{
    lemma_lex_bounds(evs, pos);
    let (r, p) = lex(evs, pos);
    match r {
        Ok(Some(Element::Key(k))) => {
            lemma_playlist_key_bounds(evs, p, k, pv);
            match spec_playlist_key(evs, p, k, pv) {
                Some((Ok(pv2), p2)) => {
                    lemma_playlist_fields_bounds(evs, p2, pv2);
                },
                _ => {},
            }
        },
        _ => {},
    }
}

/// One entry of the "Playlists" array: the playlist's dict, then its fields
/// until the dict closes. `Ok(None)` when the array itself closes instead:
/// no more playlists.
pub open spec fn spec_next_playlist(evs: Seq<RawEvent>, pos: int) -> (
    Result<Option<PlaylistV>, ParseError>,
    int,
) {
    let (r0, p0) = lex(evs, pos);
    match r0 {
        Err(e) => (Err(e), p0),
        Ok(None) => (Ok(None), p0),
        Ok(Some(Element::Dict)) => {
            let (rf, p1) = spec_playlist_fields(evs, p0, spec_empty_playlist());
            match rf {
                Ok(pv) => (Ok(Some(pv)), p1),
                Err(e) => (Err(e), p1),
            }
        },
        Ok(Some(found)) => (
            Err(ParseError::Unexpected { expected: TokenKind::Dict, found: Some(found) }),
            p0,
        ),
    }
}

/// Reading one playlist moves the cursor forwards, never past the end, and
/// consumes at least one event when it yields a playlist.
pub proof fn lemma_next_playlist_bounds(evs: Seq<RawEvent>, pos: int)
    requires
        0 <= pos <= evs.len(),
    ensures
        ({
            let (r, p) = spec_next_playlist(evs, pos);
            pos <= p <= evs.len() && ((r matches Ok(Some(_))) ==> p > pos)
        }),
{
    lemma_lex_bounds(evs, pos);
    let (r0, p0) = lex(evs, pos);
    if r0 matches Ok(Some(Element::Dict)) {
        lemma_playlist_fields_bounds(evs, p0, spec_empty_playlist());
    }
}

impl ElementStream {
    /// Reads one field of `p`: the value of the field named `k`, with the
    /// kind the closed vocabulary assigns to `k`. `None` when `k` is outside
    /// the vocabulary; nothing is consumed then.
    #[verifier::loop_isolation(false)]
    pub fn apply_playlist_key(&mut self, k: &String, p: &mut Playlist) -> (r: Option<
        Result<(), ParseError>,
    >)
        requires
            old(self).wf(),
        ensures
            final(self).events@ == old(self).events@,
            final(self).wf(),
            match (r, spec_playlist_key(old(self).events@, old(self).pos as int, *k, old(p)@)) {
                (None, None) => final(self).pos == old(self).pos && *final(p) == *old(p),
                (Some(Ok(())), Some((Ok(pv2), p2))) => final(self).pos as int == p2 && final(p)@
                    == pv2,
                (Some(Err(e1)), Some((Err(e2), p2))) => e1 == e2 && final(self).pos as int == p2,
                _ => false,
            },
    {
        if str_eq(k.as_str(), "Playlist ID") {
            match self.next_int() { Ok(i) => { p.id = i as u64; Some(Ok(())) }, Err(e) => Some(Err(e)) }
        } else if str_eq(k.as_str(), "Name") {
            match self.next_str() {
                Ok(Some(s)) => { p.name = s; Some(Ok(())) },
                Ok(None) => Some(Err(ParseError::EmptyString(k.clone()))),
                Err(e) => Some(Err(e)),
            }
        } else if str_eq(k.as_str(), "Playlist Persistent ID") {
            match self.next_str() {
                Ok(Some(s)) => { p.persistent_id = s; Some(Ok(())) },
                Ok(None) => Some(Err(ParseError::EmptyString(k.clone()))),
                Err(e) => Some(Err(e)),
            }
        } else if str_eq(k.as_str(), "Description") {
            match self.next_str() { Ok(s) => { p.description = s; Some(Ok(())) }, Err(e) => Some(Err(e)) }
        } else if str_eq(k.as_str(), "Parent Persistent ID") {
            match self.next_str() { Ok(s) => { p.parent_persistent_id = s; Some(Ok(())) }, Err(e) => Some(Err(e)) }
        } else if str_eq(k.as_str(), "All Items") {
            match self.next_bool() { Ok(b) => { p.all_items = b; Some(Ok(())) }, Err(e) => Some(Err(e)) }
        } else if str_eq(k.as_str(), "Distinguished Kind") {
            match self.next_int() { Ok(i) => { p.distinguished_kind = Some(i); Some(Ok(())) }, Err(e) => Some(Err(e)) }
        } else if str_eq(k.as_str(), "Music") {
            match self.next_bool() { Ok(b) => { p.music = Some(b); Some(Ok(())) }, Err(e) => Some(Err(e)) }
        } else if str_eq(k.as_str(), "Master") {
            match self.next_bool() { Ok(b) => { p.master = Some(b); Some(Ok(())) }, Err(e) => Some(Err(e)) }
        } else if str_eq(k.as_str(), "Visible") {
            match self.next_bool() { Ok(b) => { p.visible = Some(b); Some(Ok(())) }, Err(e) => Some(Err(e)) }
        } else if str_eq(k.as_str(), "Folder") {
            match self.next_bool() { Ok(b) => { p.folder = Some(b); Some(Ok(())) }, Err(e) => Some(Err(e)) }
        } else if str_eq(k.as_str(), "Movies") {
            match self.next_bool() { Ok(b) => { p.movies = Some(b); Some(Ok(())) }, Err(e) => Some(Err(e)) }
        } else if str_eq(k.as_str(), "TV Shows") {
            match self.next_bool() { Ok(b) => { p.tv_shows = Some(b); Some(Ok(())) }, Err(e) => Some(Err(e)) }
        } else if str_eq(k.as_str(), "Audiobooks") {
            match self.next_bool() { Ok(b) => { p.audiobooks = Some(b); Some(Ok(())) }, Err(e) => Some(Err(e)) }
        } else if str_eq(k.as_str(), "Podcasts") {
            match self.next_bool() { Ok(b) => { p.podcasts = Some(b); Some(Ok(())) }, Err(e) => Some(Err(e)) }
        } else if str_eq(k.as_str(), "Smart Info") {
            match self.next_str() { Ok(s) => { p.smart_info = s; Some(Ok(())) }, Err(e) => Some(Err(e)) }
        } else if str_eq(k.as_str(), "Smart Criteria") {
            match self.next_str() { Ok(s) => { p.smart_criteria = s; Some(Ok(())) }, Err(e) => Some(Err(e)) }
        } else if str_eq(k.as_str(), "Playlist Items") {
            let ghost evs = self.events@;
            match self.next() {
                Err(e) => {
                    return Some(Err(e));
                },
                Ok(Some(Element::Array)) => {},
                Ok(found) => {
                    return Some(
                        Err(ParseError::Unexpected { expected: TokenKind::Array, found }),
                    );
                },
            }
            let ghost pv0 = p@;
            let ghost p_arr = self.pos as int;
            loop
                invariant
                    self.events@ == evs,
                    self.wf(),
                    *p == (Playlist { items: p.items, ..*old(p) }),
                    spec_playlist_items(evs, self.pos as int, p.items@) == spec_playlist_items(
                        evs,
                        p_arr,
                        pv0.items,
                    ),
                decreases evs.len() - self.pos,
            {
                proof {
                    lemma_lex_bounds(evs, self.pos as int);
                }
                match self.next() {
                    Err(e) => {
                        return Some(Err(e));
                    },
                    Ok(None) => {
                        proof {
                            assert(p@ == PlaylistV { items: p.items@, ..pv0 });
                        }
                        return Some(Ok(()));
                    },
                    Ok(Some(Element::Dict)) => {},
                    Ok(Some(found)) => {
                        return Some(
                            Err(
                                ParseError::Unexpected {
                                    expected: TokenKind::Dict,
                                    found: Some(found),
                                },
                            ),
                        );
                    },
                }
                proof {
                    lemma_lex_bounds(evs, self.pos as int);
                }
                let key = match self.next() {
                    Err(e) => {
                        return Some(Err(e));
                    },
                    Ok(Some(Element::Key(k2))) => k2,
                    Ok(found) => {
                        return Some(
                            Err(ParseError::Unexpected { expected: TokenKind::Key, found }),
                        );
                    },
                };
                if !str_eq(key.as_str(), "Track ID") {
                    return Some(Err(ParseError::UnknownField(key)));
                }
                proof {
                    lemma_lex_bounds(evs, self.pos as int);
                }
                let id = match self.next_int() {
                    Err(e) => {
                        return Some(Err(e));
                    },
                    Ok(i) => i,
                };
                p.items.insert(id as u64);
                proof {
                    lemma_lex_bounds(evs, self.pos as int);
                }
                match self.next() {
                    Err(e) => {
                        return Some(Err(e));
                    },
                    Ok(None) => {},
                    Ok(Some(found)) => {
                        return Some(
                            Err(
                                ParseError::Unexpected {
                                    expected: TokenKind::End,
                                    found: Some(found),
                                },
                            ),
                        );
                    },
                }
            }
        } else {
            None
        }
    }

    /// Reads one entry of the "Playlists" array, or `Ok(None)` when that
    /// array closes: exactly as `spec_next_playlist` states it.
    #[verifier::loop_isolation(false)]
    pub fn next_playlist(&mut self) -> (r: Result<Option<Playlist>, ParseError>)
        requires
            old(self).wf(),
        ensures
            final(self).events@ == old(self).events@,
            final(self).wf(),
            ({
                let (rs, ps) = spec_next_playlist(old(self).events@, old(self).pos as int);
                final(self).pos as int == ps && match (r, rs) {
                    (Ok(Some(p)), Ok(Some(pv))) => p@ == pv,
                    (Ok(None), Ok(None)) => true,
                    (Err(e1), Err(e2)) => e1 == e2,
                    _ => false,
                }
            }),
    {
        let ghost evs = self.events@;
        match self.next() {
            Err(e) => {
                return Err(e);
            },
            Ok(None) => {
                return Ok(None);
            },
            Ok(Some(Element::Dict)) => {},
            Ok(Some(found)) => {
                return Err(ParseError::Unexpected { expected: TokenKind::Dict, found: Some(found) });
            },
        }
        let ghost p1 = self.pos as int;
        let mut p = Playlist::empty();
        loop
            invariant
                self.events@ == evs,
                self.wf(),
                spec_playlist_fields(evs, self.pos as int, p@) == spec_playlist_fields(
                    evs,
                    p1,
                    spec_empty_playlist(),
                ),
            decreases evs.len() - self.pos,
        {
            let ghost pos_before = self.pos as int;
            proof {
                lemma_lex_bounds(evs, pos_before);
            }
            let field = match self.next() {
                Err(e) => {
                    return Err(e);
                },
                Ok(None) => {
                    return Ok(Some(p));
                },
                Ok(Some(Element::Key(k))) => k,
                Ok(Some(found)) => {
                    return Err(ParseError::Unexpected {
                        expected: TokenKind::Key,
                        found: Some(found),
                    });
                },
            };
            proof {
                lemma_playlist_key_bounds(evs, self.pos as int, field, p@);
            }
            match self.apply_playlist_key(&field, &mut p) {
                None => {
                    return Err(ParseError::UnknownField(field));
                },
                Some(Err(e)) => {
                    return Err(e);
                },
                Some(Ok(())) => {},
            }
        }
    }
}

} // verus!
