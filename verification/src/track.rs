//! The track projector: consumes one nested dict describing a single track,
//! dispatching each field key through a closed vocabulary of exact-match
//! entries to a typed setter. Any key outside the vocabulary is fatal.

use vstd::prelude::*;

use crate::elements::{Element, ParseError, RawEvent, TokenKind};
use crate::lexer::{lex, lemma_lex_bounds, spec_next_bool, spec_next_date, spec_next_int,
    spec_next_str, str_eq, ElementStream};
use crate::num::{parse_u64, spec_parse_u64};

verus! {

/// One library entry: its numeric id (taken from the enclosing dict key, not
/// from any field) and its independently optional typed attributes. An
/// attribute a document never sets stays absent.
#[derive(Debug, PartialEq, Clone, Default)]
pub struct Track {
    pub id: u64,
    pub name: Option<String>,
    pub artist: Option<String>,
    pub album_artist: Option<String>,
    pub composer: Option<String>,
    pub genre: Option<String>,
    pub album: Option<String>,
    pub kind: Option<String>,
    pub loved: Option<bool>,
    pub disliked: Option<bool>,
    pub matched: Option<bool>,
    pub explicit: Option<bool>,
    pub compilation: Option<bool>,
    pub part_of_gapless_album: Option<bool>,
    pub movie: Option<bool>,
    pub podcast: Option<bool>,
    pub unplayed: Option<bool>,
    pub comments: Option<String>,
    pub content_rating: Option<String>,
    pub size: Option<i64>,
    pub total_time: Option<i64>,
    pub disc_number: Option<i64>,
    pub disc_count: Option<i64>,
    pub track_number: Option<i64>,
    pub track_count: Option<i64>,
    pub year: Option<i64>,
    pub bpm: Option<i64>,
    pub date_modified: Option<String>,
    pub date_added: Option<String>,
    pub bit_rate: Option<i64>,
    pub sample_rate: Option<i64>,
    pub equalizer: Option<String>,
    pub play_count: Option<i64>,
    pub play_date: Option<i64>,
    pub play_date_utc: Option<String>,
    pub skip_count: Option<i64>,
    pub skip_date: Option<String>,
    pub release_date: Option<String>,
    pub normalization: Option<i64>,
    pub rating: Option<i64>,
    pub rating_computed: Option<bool>,
    pub album_rating: Option<i64>,
    pub album_rating_computed: Option<bool>,
    pub artwork_count: Option<i64>,
    pub sort_name: Option<String>,
    pub sort_album: Option<String>,
    pub sort_album_artist: Option<String>,
    pub sort_composer: Option<String>,
    pub sort_artist: Option<String>,
    pub persistent_id: Option<String>,
    pub track_type: Option<String>,
    pub purchased: Option<bool>,
    pub music_video: Option<bool>,
    pub has_video: Option<bool>,
    pub hd: Option<bool>,
    pub favorited: Option<bool>,
    pub location: Option<String>,
    pub file_folder_count: Option<i64>,
    pub library_folder_count: Option<i64>,
    pub volume_adjustment: Option<i64>,
}

/// A track with the given id and every attribute absent.
pub open spec fn spec_empty_track(id: u64) -> Track {
    Track {
        id,
        name: None,
        artist: None,
        album_artist: None,
        composer: None,
        genre: None,
        album: None,
        kind: None,
        loved: None,
        disliked: None,
        matched: None,
        explicit: None,
        compilation: None,
        part_of_gapless_album: None,
        movie: None,
        podcast: None,
        unplayed: None,
        comments: None,
        content_rating: None,
        size: None,
        total_time: None,
        disc_number: None,
        disc_count: None,
        track_number: None,
        track_count: None,
        year: None,
        bpm: None,
        date_modified: None,
        date_added: None,
        bit_rate: None,
        sample_rate: None,
        equalizer: None,
        play_count: None,
        play_date: None,
        play_date_utc: None,
        skip_count: None,
        skip_date: None,
        release_date: None,
        normalization: None,
        rating: None,
        rating_computed: None,
        album_rating: None,
        album_rating_computed: None,
        artwork_count: None,
        sort_name: None,
        sort_album: None,
        sort_album_artist: None,
        sort_composer: None,
        sort_artist: None,
        persistent_id: None,
        track_type: None,
        purchased: None,
        music_video: None,
        has_video: None,
        hd: None,
        favorited: None,
        location: None,
        file_folder_count: None,
        library_folder_count: None,
        volume_adjustment: None,
    }
}

impl Track {
    /// Builds a track with the given id and every attribute absent.
    pub fn empty(id: u64) -> (t: Track)
        ensures
            t == spec_empty_track(id),
    {
        Track {
            id,
            name: None,
            artist: None,
            album_artist: None,
            composer: None,
            genre: None,
            album: None,
            kind: None,
            loved: None,
            disliked: None,
            matched: None,
            explicit: None,
            compilation: None,
            part_of_gapless_album: None,
            movie: None,
            podcast: None,
            unplayed: None,
            comments: None,
            content_rating: None,
            size: None,
            total_time: None,
            disc_number: None,
            disc_count: None,
            track_number: None,
            track_count: None,
            year: None,
            bpm: None,
            date_modified: None,
            date_added: None,
            bit_rate: None,
            sample_rate: None,
            equalizer: None,
            play_count: None,
            play_date: None,
            play_date_utc: None,
            skip_count: None,
            skip_date: None,
            release_date: None,
            normalization: None,
            rating: None,
            rating_computed: None,
            album_rating: None,
            album_rating_computed: None,
            artwork_count: None,
            sort_name: None,
            sort_album: None,
            sort_album_artist: None,
            sort_composer: None,
            sort_artist: None,
            persistent_id: None,
            track_type: None,
            purchased: None,
            music_video: None,
            has_video: None,
            hd: None,
            favorited: None,
            location: None,
            file_folder_count: None,
            library_folder_count: None,
            volume_adjustment: None,
        }
    }
}

/// The closed track field vocabulary: for a field key `k`, the outcome of
/// reading that field's value from `evs` at `pos` into `t` and the position
/// after it, or `None` when `k` is outside the vocabulary. The "Track ID"
/// field is read and discarded: the authoritative id is the outer dict key.
pub open spec fn spec_track_key(evs: Seq<RawEvent>, pos: int, k: String, t: Track) -> Option<
    (Result<Track, ParseError>, int),
> {
    if k@ == "Track ID"@ {
        let (r, p) = spec_next_int(evs, pos);
        Some((match r { Ok(_) => Ok(t), Err(e) => Err(e) }, p))
    } else if k@ == "Name"@ {
        let (r, p) = spec_next_str(evs, pos);
        Some((match r { Ok(s) => Ok(Track { name: s, ..t }), Err(e) => Err(e) }, p))
    } else if k@ == "Artist"@ {
        let (r, p) = spec_next_str(evs, pos);
        Some((match r { Ok(s) => Ok(Track { artist: s, ..t }), Err(e) => Err(e) }, p))
    } else if k@ == "Album Artist"@ {
        let (r, p) = spec_next_str(evs, pos);
        Some((match r { Ok(s) => Ok(Track { album_artist: s, ..t }), Err(e) => Err(e) }, p))
    } else if k@ == "Composer"@ {
        let (r, p) = spec_next_str(evs, pos);
        Some((match r { Ok(s) => Ok(Track { composer: s, ..t }), Err(e) => Err(e) }, p))
    } else if k@ == "Genre"@ {
        let (r, p) = spec_next_str(evs, pos);
        Some((match r { Ok(s) => Ok(Track { genre: s, ..t }), Err(e) => Err(e) }, p))
    } else if k@ == "Album"@ {
        let (r, p) = spec_next_str(evs, pos);
        Some((match r { Ok(s) => Ok(Track { album: s, ..t }), Err(e) => Err(e) }, p))
    } else if k@ == "Kind"@ {
        let (r, p) = spec_next_str(evs, pos);
        Some((match r { Ok(s) => Ok(Track { kind: s, ..t }), Err(e) => Err(e) }, p))
    } else if k@ == "Loved"@ {
        let (r, p) = spec_next_bool(evs, pos);
        Some((match r { Ok(b) => Ok(Track { loved: Some(b), ..t }), Err(e) => Err(e) }, p))
    } else if k@ == "Disliked"@ {
        let (r, p) = spec_next_bool(evs, pos);
        Some((match r { Ok(b) => Ok(Track { disliked: Some(b), ..t }), Err(e) => Err(e) }, p))
    } else if k@ == "Matched"@ {
        let (r, p) = spec_next_bool(evs, pos);
        Some((match r { Ok(b) => Ok(Track { matched: Some(b), ..t }), Err(e) => Err(e) }, p))
    } else if k@ == "Explicit"@ {
        let (r, p) = spec_next_bool(evs, pos);
        Some((match r { Ok(b) => Ok(Track { explicit: Some(b), ..t }), Err(e) => Err(e) }, p))
    } else if k@ == "Compilation"@ {
        let (r, p) = spec_next_bool(evs, pos);
        Some((match r { Ok(b) => Ok(Track { compilation: Some(b), ..t }), Err(e) => Err(e) }, p))
    } else if k@ == "Part Of Gapless Album"@ {
        let (r, p) = spec_next_bool(evs, pos);
        Some((match r { Ok(b) => Ok(Track { part_of_gapless_album: Some(b), ..t }), Err(e) => Err(e) }, p))
    } else if k@ == "Movie"@ {
        let (r, p) = spec_next_bool(evs, pos);
        Some((match r { Ok(b) => Ok(Track { movie: Some(b), ..t }), Err(e) => Err(e) }, p))
    } else if k@ == "Podcast"@ {
        let (r, p) = spec_next_bool(evs, pos);
        Some((match r { Ok(b) => Ok(Track { podcast: Some(b), ..t }), Err(e) => Err(e) }, p))
    } else if k@ == "Unplayed"@ {
        let (r, p) = spec_next_bool(evs, pos);
        Some((match r { Ok(b) => Ok(Track { unplayed: Some(b), ..t }), Err(e) => Err(e) }, p))
    } else if k@ == "Comments"@ {
        let (r, p) = spec_next_str(evs, pos);
        Some((match r { Ok(s) => Ok(Track { comments: s, ..t }), Err(e) => Err(e) }, p))
    } else if k@ == "Content Rating"@ {
        let (r, p) = spec_next_str(evs, pos);
        Some((match r { Ok(s) => Ok(Track { content_rating: s, ..t }), Err(e) => Err(e) }, p))
    } else if k@ == "Size"@ {
        let (r, p) = spec_next_int(evs, pos);
        Some((match r { Ok(i) => Ok(Track { size: Some(i), ..t }), Err(e) => Err(e) }, p))
    } else if k@ == "Total Time"@ {
        let (r, p) = spec_next_int(evs, pos);
        Some((match r { Ok(i) => Ok(Track { total_time: Some(i), ..t }), Err(e) => Err(e) }, p))
    } else if k@ == "Disc Number"@ {
        let (r, p) = spec_next_int(evs, pos);
        Some((match r { Ok(i) => Ok(Track { disc_number: Some(i), ..t }), Err(e) => Err(e) }, p))
    } else if k@ == "Disc Count"@ {
        let (r, p) = spec_next_int(evs, pos);
        Some((match r { Ok(i) => Ok(Track { disc_count: Some(i), ..t }), Err(e) => Err(e) }, p))
    } else if k@ == "Track Number"@ {
        let (r, p) = spec_next_int(evs, pos);
        Some((match r { Ok(i) => Ok(Track { track_number: Some(i), ..t }), Err(e) => Err(e) }, p))
    } else if k@ == "Track Count"@ {
        let (r, p) = spec_next_int(evs, pos);
        Some((match r { Ok(i) => Ok(Track { track_count: Some(i), ..t }), Err(e) => Err(e) }, p))
    } else if k@ == "Year"@ {
        let (r, p) = spec_next_int(evs, pos);
        Some((match r { Ok(i) => Ok(Track { year: Some(i), ..t }), Err(e) => Err(e) }, p))
    } else if k@ == "BPM"@ {
        let (r, p) = spec_next_int(evs, pos);
        Some((match r { Ok(i) => Ok(Track { bpm: Some(i), ..t }), Err(e) => Err(e) }, p))
    } else if k@ == "Date Modified"@ {
        let (r, p) = spec_next_date(evs, pos);
        Some((match r { Ok(d) => Ok(Track { date_modified: Some(d), ..t }), Err(e) => Err(e) }, p))
    } else if k@ == "Date Added"@ {
        let (r, p) = spec_next_date(evs, pos);
        Some((match r { Ok(d) => Ok(Track { date_added: Some(d), ..t }), Err(e) => Err(e) }, p))
    } else if k@ == "Bit Rate"@ {
        let (r, p) = spec_next_int(evs, pos);
        Some((match r { Ok(i) => Ok(Track { bit_rate: Some(i), ..t }), Err(e) => Err(e) }, p))
    } else if k@ == "Sample Rate"@ {
        let (r, p) = spec_next_int(evs, pos);
        Some((match r { Ok(i) => Ok(Track { sample_rate: Some(i), ..t }), Err(e) => Err(e) }, p))
    } else if k@ == "Equalizer"@ {
        let (r, p) = spec_next_str(evs, pos);
        Some((match r { Ok(s) => Ok(Track { equalizer: s, ..t }), Err(e) => Err(e) }, p))
    } else if k@ == "Play Count"@ {
        let (r, p) = spec_next_int(evs, pos);
        Some((match r { Ok(i) => Ok(Track { play_count: Some(i), ..t }), Err(e) => Err(e) }, p))
    } else if k@ == "Play Date"@ {
        let (r, p) = spec_next_int(evs, pos);
        Some((match r { Ok(i) => Ok(Track { play_date: Some(i), ..t }), Err(e) => Err(e) }, p))
    } else if k@ == "Play Date UTC"@ {
        let (r, p) = spec_next_date(evs, pos);
        Some((match r { Ok(d) => Ok(Track { play_date_utc: Some(d), ..t }), Err(e) => Err(e) }, p))
    } else if k@ == "Skip Count"@ {
        let (r, p) = spec_next_int(evs, pos);
        Some((match r { Ok(i) => Ok(Track { skip_count: Some(i), ..t }), Err(e) => Err(e) }, p))
    } else if k@ == "Skip Date"@ {
        let (r, p) = spec_next_date(evs, pos);
        Some((match r { Ok(d) => Ok(Track { skip_date: Some(d), ..t }), Err(e) => Err(e) }, p))
    } else if k@ == "Release Date"@ {
        let (r, p) = spec_next_date(evs, pos);
        Some((match r { Ok(d) => Ok(Track { release_date: Some(d), ..t }), Err(e) => Err(e) }, p))
    } else if k@ == "Normalization"@ {
        let (r, p) = spec_next_int(evs, pos);
        Some((match r { Ok(i) => Ok(Track { normalization: Some(i), ..t }), Err(e) => Err(e) }, p))
    } else if k@ == "Rating"@ {
        let (r, p) = spec_next_int(evs, pos);
        Some((match r { Ok(i) => Ok(Track { rating: Some(i), ..t }), Err(e) => Err(e) }, p))
    } else if k@ == "Rating Computed"@ {
        let (r, p) = spec_next_bool(evs, pos);
        Some((match r { Ok(b) => Ok(Track { rating_computed: Some(b), ..t }), Err(e) => Err(e) }, p))
    } else if k@ == "Album Rating"@ {
        let (r, p) = spec_next_int(evs, pos);
        Some((match r { Ok(i) => Ok(Track { album_rating: Some(i), ..t }), Err(e) => Err(e) }, p))
    } else if k@ == "Album Rating Computed"@ {
        let (r, p) = spec_next_bool(evs, pos);
        Some((match r { Ok(b) => Ok(Track { album_rating_computed: Some(b), ..t }), Err(e) => Err(e) }, p))
    } else if k@ == "Artwork Count"@ {
        let (r, p) = spec_next_int(evs, pos);
        Some((match r { Ok(i) => Ok(Track { artwork_count: Some(i), ..t }), Err(e) => Err(e) }, p))
    } else if k@ == "Sort Name"@ {
        let (r, p) = spec_next_str(evs, pos);
        Some((match r { Ok(s) => Ok(Track { sort_name: s, ..t }), Err(e) => Err(e) }, p))
    } else if k@ == "Sort Album"@ {
        let (r, p) = spec_next_str(evs, pos);
        Some((match r { Ok(s) => Ok(Track { sort_album: s, ..t }), Err(e) => Err(e) }, p))
    } else if k@ == "Sort Album Artist"@ {
        let (r, p) = spec_next_str(evs, pos);
        Some((match r { Ok(s) => Ok(Track { sort_album_artist: s, ..t }), Err(e) => Err(e) }, p))
    } else if k@ == "Sort Composer"@ {
        let (r, p) = spec_next_str(evs, pos);
        Some((match r { Ok(s) => Ok(Track { sort_composer: s, ..t }), Err(e) => Err(e) }, p))
    } else if k@ == "Sort Artist"@ {
        let (r, p) = spec_next_str(evs, pos);
        Some((match r { Ok(s) => Ok(Track { sort_artist: s, ..t }), Err(e) => Err(e) }, p))
    } else if k@ == "Persistent ID"@ {
        let (r, p) = spec_next_str(evs, pos);
        Some((match r { Ok(s) => Ok(Track { persistent_id: s, ..t }), Err(e) => Err(e) }, p))
    } else if k@ == "Track Type"@ {
        let (r, p) = spec_next_str(evs, pos);
        Some((match r { Ok(s) => Ok(Track { track_type: s, ..t }), Err(e) => Err(e) }, p))
    } else if k@ == "Purchased"@ {
        let (r, p) = spec_next_bool(evs, pos);
        Some((match r { Ok(b) => Ok(Track { purchased: Some(b), ..t }), Err(e) => Err(e) }, p))
    } else if k@ == "Music Video"@ {
        let (r, p) = spec_next_bool(evs, pos);
        Some((match r { Ok(b) => Ok(Track { music_video: Some(b), ..t }), Err(e) => Err(e) }, p))
    } else if k@ == "Has Video"@ {
        let (r, p) = spec_next_bool(evs, pos);
        Some((match r { Ok(b) => Ok(Track { has_video: Some(b), ..t }), Err(e) => Err(e) }, p))
    } else if k@ == "HD"@ {
        let (r, p) = spec_next_bool(evs, pos);
        Some((match r { Ok(b) => Ok(Track { hd: Some(b), ..t }), Err(e) => Err(e) }, p))
    } else if k@ == "Favorited"@ {
        let (r, p) = spec_next_bool(evs, pos);
        Some((match r { Ok(b) => Ok(Track { favorited: Some(b), ..t }), Err(e) => Err(e) }, p))
    } else if k@ == "Location"@ {
        let (r, p) = spec_next_str(evs, pos);
        Some((match r { Ok(s) => Ok(Track { location: s, ..t }), Err(e) => Err(e) }, p))
    } else if k@ == "File Folder Count"@ {
        let (r, p) = spec_next_int(evs, pos);
        Some((match r { Ok(i) => Ok(Track { file_folder_count: Some(i), ..t }), Err(e) => Err(e) }, p))
    } else if k@ == "Library Folder Count"@ {
        let (r, p) = spec_next_int(evs, pos);
        Some((match r { Ok(i) => Ok(Track { library_folder_count: Some(i), ..t }), Err(e) => Err(e) }, p))
    } else if k@ == "Volume Adjustment"@ {
        let (r, p) = spec_next_int(evs, pos);
        Some((match r { Ok(i) => Ok(Track { volume_adjustment: Some(i), ..t }), Err(e) => Err(e) }, p))
    } else {
        None
    }
}

/// Reading one field value moves the cursor forwards and never past the end.
pub proof fn lemma_track_key_bounds(evs: Seq<RawEvent>, pos: int, k: String, t: Track)
    requires
        0 <= pos <= evs.len(),
    ensures
        match spec_track_key(evs, pos, k, t) {
            Some((r, p)) => pos <= p <= evs.len(),
            None => true,
        },
{
    lemma_lex_bounds(evs, pos);
}

/// The field loop of the track projector: reads keys and their typed values
/// into `t` until the track's dict closes. A key outside the vocabulary, a
/// value of the wrong kind, and any tokenizer failure are fatal.
pub open spec fn spec_track_fields(evs: Seq<RawEvent>, pos: int, t: Track) -> (
    Result<Track, ParseError>,
    int,
)
    decreases evs.len() - pos,
    when true
    via spec_track_fields_dec
{
    let (r, p) = lex(evs, pos);
    match r {
        Err(e) => (Err(e), p),
        Ok(None) => (Ok(t), p),
        Ok(Some(Element::Key(k))) => match spec_track_key(evs, p, k, t) {
            None => (Err(ParseError::UnknownField(k)), p),
            Some((Err(e), p2)) => (Err(e), p2),
            Some((Ok(t2), p2)) => spec_track_fields(evs, p2, t2),
        },
        Ok(Some(found)) => (
            Err(ParseError::Unexpected { expected: TokenKind::Key, found: Some(found) }),
            p,
        ),
    }
}

#[via_fn]
proof fn spec_track_fields_dec(evs: Seq<RawEvent>, pos: int, t: Track) {
    if 0 <= pos <= evs.len() {
        lemma_lex_bounds(evs, pos);
        let (r, p) = lex(evs, pos);
        match r {
            Ok(Some(Element::Key(k))) => {
                lemma_track_key_bounds(evs, p, k, t);
            },
            _ => {},
        }
    }
}

/// The field loop moves the cursor forwards and never past the end.
pub proof fn lemma_track_fields_bounds(evs: Seq<RawEvent>, pos: int, t: Track)
    requires
        0 <= pos <= evs.len(),
    ensures
        ({
            let (r, p) = spec_track_fields(evs, pos, t);
            pos <= p <= evs.len()
        }),
    decreases evs.len() - pos,
{
    lemma_lex_bounds(evs, pos);
    let (r, p) = lex(evs, pos);
    match r {
        Ok(Some(Element::Key(k))) => {
            lemma_track_key_bounds(evs, p, k, t);
            match spec_track_key(evs, p, k, t) {
                Some((Ok(t2), p2)) => {
                    lemma_track_fields_bounds(evs, p2, t2);
                },
                _ => {},
            }
        },
        _ => {},
    }
}

/// One entry of the "Tracks" dict: a key holding the track id, the track's
/// dict, then its fields until the dict closes. `Ok(None)` when the Tracks
/// dict itself closes instead: no more tracks.
pub open spec fn spec_next_track(evs: Seq<RawEvent>, pos: int) -> (
    Result<Option<Track>, ParseError>,
    int,
) {
    let (r0, p0) = lex(evs, pos);
    match r0 {
        Err(e) => (Err(e), p0),
        Ok(None) => (Ok(None), p0),
        Ok(Some(Element::Key(k))) => {
            let (r1, p1) = lex(evs, p0);
            match r1 {
                Err(e) => (Err(e), p1),
                Ok(Some(Element::Dict)) => match spec_parse_u64(k@) {
                    None => (Err(ParseError::BadTrackId(k)), p1),
                    Some(id) => {
                        let (rt, p2) = spec_track_fields(evs, p1, spec_empty_track(id));
                        match rt {
                            Ok(t) => (Ok(Some(t)), p2),
                            Err(e) => (Err(e), p2),
                        }
                    },
                },
                Ok(found) => (
                    Err(ParseError::Unexpected { expected: TokenKind::Dict, found }),
                    p1,
                ),
            }
        },
        Ok(Some(found)) => (
            Err(ParseError::Unexpected { expected: TokenKind::Key, found: Some(found) }),
            p0,
        ),
    }
}

/// Reading one track moves the cursor forwards, never past the end, and
/// consumes at least one event when it yields a track.
pub proof fn lemma_next_track_bounds(evs: Seq<RawEvent>, pos: int)
    requires
        0 <= pos <= evs.len(),
    ensures
        ({
            let (r, p) = spec_next_track(evs, pos);
            pos <= p <= evs.len() && ((r matches Ok(Some(_))) ==> p > pos)
        }),
{
    lemma_lex_bounds(evs, pos);
    let (r0, p0) = lex(evs, pos);
    match r0 {
        Ok(Some(Element::Key(k))) => {
            lemma_lex_bounds(evs, p0);
            let (r1, p1) = lex(evs, p0);
            match spec_parse_u64(k@) {
                Some(id) => {
                    lemma_track_fields_bounds(evs, p1, spec_empty_track(id));
                },
                None => {},
            }
        },
        _ => {},
    }
}

impl ElementStream {
    /// Reads one field of `t`: the value of the field named `k`, with the
    /// kind the closed vocabulary assigns to `k`. `None` when `k` is outside
    /// the vocabulary; nothing is consumed then.
    pub fn apply_track_key(&mut self, k: &String, t: &mut Track) -> (r: Option<
        Result<(), ParseError>,
    >)
        requires
            old(self).wf(),
        ensures
            final(self).events@ == old(self).events@,
            final(self).wf(),
            match (r, spec_track_key(old(self).events@, old(self).pos as int, *k, *old(t))) {
                (None, None) => final(self).pos == old(self).pos && *final(t) == *old(t),
                (Some(Ok(())), Some((Ok(t2), p2))) => final(self).pos as int == p2 && *final(t)
                    == t2,
                (Some(Err(e1)), Some((Err(e2), p2))) => e1 == e2 && final(self).pos as int == p2,
                _ => false,
            },
    {
        if str_eq(k.as_str(), "Track ID") {
            match self.next_int() { Ok(_) => Some(Ok(())), Err(e) => Some(Err(e)) }
        } else if str_eq(k.as_str(), "Name") {
            match self.next_str() { Ok(s) => { t.name = s; Some(Ok(())) }, Err(e) => Some(Err(e)) }
        } else if str_eq(k.as_str(), "Artist") {
            match self.next_str() { Ok(s) => { t.artist = s; Some(Ok(())) }, Err(e) => Some(Err(e)) }
        } else if str_eq(k.as_str(), "Album Artist") {
            match self.next_str() { Ok(s) => { t.album_artist = s; Some(Ok(())) }, Err(e) => Some(Err(e)) }
        } else if str_eq(k.as_str(), "Composer") {
            match self.next_str() { Ok(s) => { t.composer = s; Some(Ok(())) }, Err(e) => Some(Err(e)) }
        } else if str_eq(k.as_str(), "Genre") {
            match self.next_str() { Ok(s) => { t.genre = s; Some(Ok(())) }, Err(e) => Some(Err(e)) }
        } else if str_eq(k.as_str(), "Album") {
            match self.next_str() { Ok(s) => { t.album = s; Some(Ok(())) }, Err(e) => Some(Err(e)) }
        } else if str_eq(k.as_str(), "Kind") {
            match self.next_str() { Ok(s) => { t.kind = s; Some(Ok(())) }, Err(e) => Some(Err(e)) }
        } else if str_eq(k.as_str(), "Loved") {
            match self.next_bool() { Ok(b) => { t.loved = Some(b); Some(Ok(())) }, Err(e) => Some(Err(e)) }
        } else if str_eq(k.as_str(), "Disliked") {
            match self.next_bool() { Ok(b) => { t.disliked = Some(b); Some(Ok(())) }, Err(e) => Some(Err(e)) }
        } else if str_eq(k.as_str(), "Matched") {
            match self.next_bool() { Ok(b) => { t.matched = Some(b); Some(Ok(())) }, Err(e) => Some(Err(e)) }
        } else if str_eq(k.as_str(), "Explicit") {
            match self.next_bool() { Ok(b) => { t.explicit = Some(b); Some(Ok(())) }, Err(e) => Some(Err(e)) }
        } else if str_eq(k.as_str(), "Compilation") {
            match self.next_bool() { Ok(b) => { t.compilation = Some(b); Some(Ok(())) }, Err(e) => Some(Err(e)) }
        } else if str_eq(k.as_str(), "Part Of Gapless Album") {
            match self.next_bool() { Ok(b) => { t.part_of_gapless_album = Some(b); Some(Ok(())) }, Err(e) => Some(Err(e)) }
        } else if str_eq(k.as_str(), "Movie") {
            match self.next_bool() { Ok(b) => { t.movie = Some(b); Some(Ok(())) }, Err(e) => Some(Err(e)) }
        } else if str_eq(k.as_str(), "Podcast") {
            match self.next_bool() { Ok(b) => { t.podcast = Some(b); Some(Ok(())) }, Err(e) => Some(Err(e)) }
        } else if str_eq(k.as_str(), "Unplayed") {
            match self.next_bool() { Ok(b) => { t.unplayed = Some(b); Some(Ok(())) }, Err(e) => Some(Err(e)) }
        } else if str_eq(k.as_str(), "Comments") {
            match self.next_str() { Ok(s) => { t.comments = s; Some(Ok(())) }, Err(e) => Some(Err(e)) }
        } else if str_eq(k.as_str(), "Content Rating") {
            match self.next_str() { Ok(s) => { t.content_rating = s; Some(Ok(())) }, Err(e) => Some(Err(e)) }
        } else if str_eq(k.as_str(), "Size") {
            match self.next_int() { Ok(i) => { t.size = Some(i); Some(Ok(())) }, Err(e) => Some(Err(e)) }
        } else if str_eq(k.as_str(), "Total Time") {
            match self.next_int() { Ok(i) => { t.total_time = Some(i); Some(Ok(())) }, Err(e) => Some(Err(e)) }
        } else if str_eq(k.as_str(), "Disc Number") {
            match self.next_int() { Ok(i) => { t.disc_number = Some(i); Some(Ok(())) }, Err(e) => Some(Err(e)) }
        } else if str_eq(k.as_str(), "Disc Count") {
            match self.next_int() { Ok(i) => { t.disc_count = Some(i); Some(Ok(())) }, Err(e) => Some(Err(e)) }
        } else if str_eq(k.as_str(), "Track Number") {
            match self.next_int() { Ok(i) => { t.track_number = Some(i); Some(Ok(())) }, Err(e) => Some(Err(e)) }
        } else if str_eq(k.as_str(), "Track Count") {
            match self.next_int() { Ok(i) => { t.track_count = Some(i); Some(Ok(())) }, Err(e) => Some(Err(e)) }
        } else if str_eq(k.as_str(), "Year") {
            match self.next_int() { Ok(i) => { t.year = Some(i); Some(Ok(())) }, Err(e) => Some(Err(e)) }
        } else if str_eq(k.as_str(), "BPM") {
            match self.next_int() { Ok(i) => { t.bpm = Some(i); Some(Ok(())) }, Err(e) => Some(Err(e)) }
        } else if str_eq(k.as_str(), "Date Modified") {
            match self.next_date() { Ok(d) => { t.date_modified = Some(d); Some(Ok(())) }, Err(e) => Some(Err(e)) }
        } else if str_eq(k.as_str(), "Date Added") {
            match self.next_date() { Ok(d) => { t.date_added = Some(d); Some(Ok(())) }, Err(e) => Some(Err(e)) }
        } else if str_eq(k.as_str(), "Bit Rate") {
            match self.next_int() { Ok(i) => { t.bit_rate = Some(i); Some(Ok(())) }, Err(e) => Some(Err(e)) }
        } else if str_eq(k.as_str(), "Sample Rate") {
            match self.next_int() { Ok(i) => { t.sample_rate = Some(i); Some(Ok(())) }, Err(e) => Some(Err(e)) }
        } else if str_eq(k.as_str(), "Equalizer") {
            match self.next_str() { Ok(s) => { t.equalizer = s; Some(Ok(())) }, Err(e) => Some(Err(e)) }
        } else if str_eq(k.as_str(), "Play Count") {
            match self.next_int() { Ok(i) => { t.play_count = Some(i); Some(Ok(())) }, Err(e) => Some(Err(e)) }
        } else if str_eq(k.as_str(), "Play Date") {
            match self.next_int() { Ok(i) => { t.play_date = Some(i); Some(Ok(())) }, Err(e) => Some(Err(e)) }
        } else if str_eq(k.as_str(), "Play Date UTC") {
            match self.next_date() { Ok(d) => { t.play_date_utc = Some(d); Some(Ok(())) }, Err(e) => Some(Err(e)) }
        } else if str_eq(k.as_str(), "Skip Count") {
            match self.next_int() { Ok(i) => { t.skip_count = Some(i); Some(Ok(())) }, Err(e) => Some(Err(e)) }
        } else if str_eq(k.as_str(), "Skip Date") {
            match self.next_date() { Ok(d) => { t.skip_date = Some(d); Some(Ok(())) }, Err(e) => Some(Err(e)) }
        } else if str_eq(k.as_str(), "Release Date") {
            match self.next_date() { Ok(d) => { t.release_date = Some(d); Some(Ok(())) }, Err(e) => Some(Err(e)) }
        } else if str_eq(k.as_str(), "Normalization") {
            match self.next_int() { Ok(i) => { t.normalization = Some(i); Some(Ok(())) }, Err(e) => Some(Err(e)) }
        } else if str_eq(k.as_str(), "Rating") {
            match self.next_int() { Ok(i) => { t.rating = Some(i); Some(Ok(())) }, Err(e) => Some(Err(e)) }
        } else if str_eq(k.as_str(), "Rating Computed") {
            match self.next_bool() { Ok(b) => { t.rating_computed = Some(b); Some(Ok(())) }, Err(e) => Some(Err(e)) }
        } else if str_eq(k.as_str(), "Album Rating") {
            match self.next_int() { Ok(i) => { t.album_rating = Some(i); Some(Ok(())) }, Err(e) => Some(Err(e)) }
        } else if str_eq(k.as_str(), "Album Rating Computed") {
            match self.next_bool() { Ok(b) => { t.album_rating_computed = Some(b); Some(Ok(())) }, Err(e) => Some(Err(e)) }
        } else if str_eq(k.as_str(), "Artwork Count") {
            match self.next_int() { Ok(i) => { t.artwork_count = Some(i); Some(Ok(())) }, Err(e) => Some(Err(e)) }
        } else if str_eq(k.as_str(), "Sort Name") {
            match self.next_str() { Ok(s) => { t.sort_name = s; Some(Ok(())) }, Err(e) => Some(Err(e)) }
        } else if str_eq(k.as_str(), "Sort Album") {
            match self.next_str() { Ok(s) => { t.sort_album = s; Some(Ok(())) }, Err(e) => Some(Err(e)) }
        } else if str_eq(k.as_str(), "Sort Album Artist") {
            match self.next_str() { Ok(s) => { t.sort_album_artist = s; Some(Ok(())) }, Err(e) => Some(Err(e)) }
        } else if str_eq(k.as_str(), "Sort Composer") {
            match self.next_str() { Ok(s) => { t.sort_composer = s; Some(Ok(())) }, Err(e) => Some(Err(e)) }
        } else if str_eq(k.as_str(), "Sort Artist") {
            match self.next_str() { Ok(s) => { t.sort_artist = s; Some(Ok(())) }, Err(e) => Some(Err(e)) }
        } else if str_eq(k.as_str(), "Persistent ID") {
            match self.next_str() { Ok(s) => { t.persistent_id = s; Some(Ok(())) }, Err(e) => Some(Err(e)) }
        } else if str_eq(k.as_str(), "Track Type") {
            match self.next_str() { Ok(s) => { t.track_type = s; Some(Ok(())) }, Err(e) => Some(Err(e)) }
        } else if str_eq(k.as_str(), "Purchased") {
            match self.next_bool() { Ok(b) => { t.purchased = Some(b); Some(Ok(())) }, Err(e) => Some(Err(e)) }
        } else if str_eq(k.as_str(), "Music Video") {
            match self.next_bool() { Ok(b) => { t.music_video = Some(b); Some(Ok(())) }, Err(e) => Some(Err(e)) }
        } else if str_eq(k.as_str(), "Has Video") {
            match self.next_bool() { Ok(b) => { t.has_video = Some(b); Some(Ok(())) }, Err(e) => Some(Err(e)) }
        } else if str_eq(k.as_str(), "HD") {
            match self.next_bool() { Ok(b) => { t.hd = Some(b); Some(Ok(())) }, Err(e) => Some(Err(e)) }
        } else if str_eq(k.as_str(), "Favorited") {
            match self.next_bool() { Ok(b) => { t.favorited = Some(b); Some(Ok(())) }, Err(e) => Some(Err(e)) }
        } else if str_eq(k.as_str(), "Location") {
            match self.next_str() { Ok(s) => { t.location = s; Some(Ok(())) }, Err(e) => Some(Err(e)) }
        } else if str_eq(k.as_str(), "File Folder Count") {
            match self.next_int() { Ok(i) => { t.file_folder_count = Some(i); Some(Ok(())) }, Err(e) => Some(Err(e)) }
        } else if str_eq(k.as_str(), "Library Folder Count") {
            match self.next_int() { Ok(i) => { t.library_folder_count = Some(i); Some(Ok(())) }, Err(e) => Some(Err(e)) }
        } else if str_eq(k.as_str(), "Volume Adjustment") {
            match self.next_int() { Ok(i) => { t.volume_adjustment = Some(i); Some(Ok(())) }, Err(e) => Some(Err(e)) }
        } else {
            None
        }
    }

    /// Reads one entry of the "Tracks" dict, or `Ok(None)` when that dict
    /// closes: exactly as `spec_next_track` states it.
    #[verifier::loop_isolation(false)]
    pub fn next_track(&mut self) -> (r: Result<Option<Track>, ParseError>)
        requires
            old(self).wf(),
        ensures
            final(self).events@ == old(self).events@,
            final(self).wf(),
            (r, final(self).pos as int) == spec_next_track(old(self).events@, old(self).pos as int),
    {
        let ghost evs = self.events@;
        let k = match self.next() {
            Err(e) => {
                return Err(e);
            },
            Ok(None) => {
                return Ok(None);
            },
            Ok(Some(Element::Key(k))) => k,
            Ok(Some(found)) => {
                return Err(ParseError::Unexpected { expected: TokenKind::Key, found: Some(found) });
            },
        };
        match self.next() {
            Err(e) => {
                return Err(e);
            },
            Ok(Some(Element::Dict)) => {},
            Ok(found) => {
                return Err(ParseError::Unexpected { expected: TokenKind::Dict, found });
            },
        }
        let id = match parse_u64(k.as_str()) {
            Some(id) => id,
            None => {
                return Err(ParseError::BadTrackId(k));
            },
        };
        let ghost p1 = self.pos as int;
        let mut t = Track::empty(id);
        loop
            invariant
                self.events@ == evs,
                self.wf(),
                spec_track_fields(evs, self.pos as int, t) == spec_track_fields(
                    evs,
                    p1,
                    spec_empty_track(id),
                ),
            decreases evs.len() - self.pos,
        {
            let ghost pos_before = self.pos as int;
            proof {
                lemma_lex_bounds(evs, pos_before);
            }
            let field = match self.next() {
                Err(e) => {
                    return Err(e);
                },
                Ok(None) => {
                    return Ok(Some(t));
                },
                Ok(Some(Element::Key(k))) => k,
                Ok(Some(found)) => {
                    return Err(ParseError::Unexpected {
                        expected: TokenKind::Key,
                        found: Some(found),
                    });
                },
            };
            proof {
                lemma_track_key_bounds(evs, self.pos as int, field, t);
            }
            match self.apply_track_key(&field, &mut t) {
                None => {
                    return Err(ParseError::UnknownField(field));
                },
                Some(Err(e)) => {
                    return Err(e);
                },
                Some(Ok(())) => {},
            }
        }
    }
}

} // verus!
