use itunes_xml::elements::{Element, ParseError, TokenKind};
use itunes_xml::xml_source::parse_xml_str;

#[test]
fn parses_example_document() {
    let doc = "<plist><dict>\n \
        <key>Tracks</key><dict>\n  \
        <key>5994</key><dict>\n   \
        <key>Track ID</key><integer>5994</integer>\n   \
        <key>Name</key><string>Cross my heart</string>\n   \
        <key>BPM</key><integer>128</integer>\n  \
        </dict>\n \
        </dict>\n \
        <key>Playlists</key><array></array>\n\
        </dict></plist>";
    let lib = parse_xml_str(doc).unwrap();
    assert_eq!(lib.tracks.len(), 1);
    let t = lib.tracks.get(&5994).unwrap();
    assert_eq!(t.id, 5994);
    assert_eq!(t.name, Some("Cross my heart".to_string()));
    assert_eq!(t.bpm, Some(128));
    assert_eq!(t.artist, None);
    assert_eq!(t.album, None);
    assert_eq!(t.loved, None);
    assert_eq!(t.date_added, None);
    assert_eq!(t.play_count, None);
    assert!(lib.playlists.is_empty());
    assert!(lib.metadata.is_empty());
}

#[test]
fn one_track_without_fields_has_no_defaults() {
    let doc = "<plist><dict><key>Tracks</key><dict>\
        <key>7</key><dict></dict>\
        </dict></dict></plist>";
    let lib = parse_xml_str(doc).unwrap();
    assert_eq!(lib.tracks.len(), 1);
    let t = lib.tracks.get(&7).unwrap();
    assert_eq!(t.id, 7);
    assert_eq!(*t, itunes_xml::track::Track { id: 7, ..Default::default() });
    assert_eq!(t.name, None);
    assert_eq!(t.size, None);
    assert_eq!(t.compilation, None);
    assert_eq!(t.location, None);
    assert_eq!(t.volume_adjustment, None);
}

#[test]
fn parsing_twice_gives_equal_libraries() {
    let doc = "<plist><dict>\
        <key>Major Version</key><integer>1</integer>\
        <key>Tracks</key><dict>\
        <key>12</key><dict><key>Name</key><string>A</string></dict>\
        <key>13</key><dict><key>Artist</key><string>B</string></dict>\
        </dict></dict></plist>";
    let one = parse_xml_str(doc).unwrap();
    let two = parse_xml_str(doc).unwrap();
    assert_eq!(one.tracks.len(), two.tracks.len());
    assert_eq!(one.tracks.get(&12), two.tracks.get(&12));
    assert_eq!(one.tracks.get(&13), two.tracks.get(&13));
    assert_eq!(
        one.metadata.get("Major Version"),
        two.metadata.get("Major Version"),
    );
    assert_eq!(one.playlists.len(), two.playlists.len());
}

#[test]
fn unknown_top_level_key_lands_in_metadata() {
    let doc = "<plist><dict>\
        <key>Foo</key><string>bar</string>\
        </dict></plist>";
    let lib = parse_xml_str(doc).unwrap();
    assert_eq!(
        lib.metadata.get("Foo"),
        Some(&Element::String(Some("bar".to_string()))),
    );
    assert!(lib.tracks.is_empty());
    assert!(lib.playlists.is_empty());
}

#[test]
fn later_metadata_value_wins() {
    let doc = "<plist><dict>\
        <key>Foo</key><integer>1</integer>\
        <key>Foo</key><integer>2</integer>\
        </dict></plist>";
    let lib = parse_xml_str(doc).unwrap();
    assert_eq!(lib.metadata.get("Foo"), Some(&Element::Integer(2)));
    assert_eq!(lib.metadata.get("Bar"), None);
}

#[test]
fn unknown_track_field_fails() {
    let doc = "<plist><dict><key>Tracks</key><dict>\
        <key>5</key><dict><key>Mystery Field</key><string>x</string></dict>\
        </dict></dict></plist>";
    let err = parse_xml_str(doc).unwrap_err();
    assert_eq!(err, ParseError::UnknownField("Mystery Field".to_string()));
}

#[test]
fn duplicate_playlist_items_collapse() {
    let doc = "<plist><dict><key>Playlists</key><array><dict>\
        <key>Playlist ID</key><integer>50</integer>\
        <key>Name</key><string>Mix</string>\
        <key>Playlist Persistent ID</key><string>AB12</string>\
        <key>All Items</key><true/>\
        <key>Playlist Items</key><array>\
        <dict><key>Track ID</key><integer>42</integer></dict>\
        <dict><key>Track ID</key><integer>42</integer></dict>\
        </array>\
        </dict></array></dict></plist>";
    let lib = parse_xml_str(doc).unwrap();
    let p = lib.playlists.get(&50).unwrap();
    assert_eq!(p.id, 50);
    assert_eq!(p.name, "Mix");
    assert_eq!(p.persistent_id, "AB12");
    assert!(p.all_items);
    assert_eq!(p.items.len(), 1);
    assert!(p.items.contains(&42));
}

#[test]
fn playlist_fields_and_flags() {
    let doc = "<plist><dict><key>Playlists</key><array><dict>\
        <key>Playlist ID</key><integer>9</integer>\
        <key>Name</key><string>Films</string>\
        <key>Playlist Persistent ID</key><string>CD34</string>\
        <key>Description</key><string>films only</string>\
        <key>Parent Persistent ID</key><string>EF56</string>\
        <key>All Items</key><true/>\
        <key>Distinguished Kind</key><integer>4</integer>\
        <key>Movies</key><true/>\
        <key>Visible</key><false/>\
        <key>Smart Info</key><data>AQEA</data>\
        </dict></array></dict></plist>";
    let lib = parse_xml_str(doc).unwrap();
    let p = lib.playlists.get(&9).unwrap();
    assert_eq!(p.description, Some("films only".to_string()));
    assert_eq!(p.parent_persistent_id, Some("EF56".to_string()));
    assert_eq!(p.distinguished_kind, Some(4));
    assert_eq!(p.movies, Some(true));
    assert_eq!(p.visible, Some(false));
    assert_eq!(p.music, None);
    assert_eq!(p.smart_info, Some("AQEA".to_string()));
    assert_eq!(p.smart_criteria, None);
    assert!(p.items.is_empty());
}

#[test]
fn playlist_defaults_when_fields_missing() {
    let doc = "<plist><dict><key>Playlists</key><array><dict>\
        </dict></array></dict></plist>";
    let lib = parse_xml_str(doc).unwrap();
    let p = lib.playlists.get(&0).unwrap();
    assert_eq!(p.id, 0);
    assert_eq!(p.name, "");
    assert_eq!(p.persistent_id, "");
    assert!(!p.all_items);
    assert!(p.items.is_empty());
}

#[test]
fn booleans_decode_from_tag_name() {
    let doc = "<plist><dict><key>Tracks</key><dict>\
        <key>3</key><dict>\
        <key>Loved</key><true>ignored</true>\
        <key>Explicit</key><false></false>\
        <key>Compilation</key><true/>\
        </dict></dict></dict></plist>";
    let lib = parse_xml_str(doc).unwrap();
    let t = lib.tracks.get(&3).unwrap();
    assert_eq!(t.loved, Some(true));
    assert_eq!(t.explicit, Some(false));
    assert_eq!(t.compilation, Some(true));
}

#[test]
fn malformed_markup_fails_with_markup_error() {
    let err = parse_xml_str("<plist><dict>").unwrap_err();
    assert!(matches!(err, ParseError::Markup(_)));
}

#[test]
fn unrecognized_tag_is_fatal() {
    let doc = "<plist><dict><key>A</key><qux/></dict></plist>";
    let err = parse_xml_str(doc).unwrap_err();
    assert_eq!(err, ParseError::UnknownTag("qux".to_string()));
}

#[test]
fn non_numeric_integer_text_is_fatal() {
    let doc = "<plist><dict><key>X</key><integer>12x</integer></dict></plist>";
    let err = parse_xml_str(doc).unwrap_err();
    assert_eq!(err, ParseError::BadInteger("12x".to_string()));
}

#[test]
fn non_numeric_track_id_key_is_fatal() {
    let doc = "<plist><dict><key>Tracks</key><dict>\
        <key>abc</key><dict></dict>\
        </dict></dict></plist>";
    let err = parse_xml_str(doc).unwrap_err();
    assert_eq!(err, ParseError::BadTrackId("abc".to_string()));
}

#[test]
fn document_must_start_with_plist() {
    let err = parse_xml_str("<dict></dict>").unwrap_err();
    assert_eq!(
        err,
        ParseError::Unexpected { expected: TokenKind::Plist, found: Some(Element::Dict) },
    );
}

#[test]
fn top_level_key_without_value_is_fatal() {
    let doc = "<plist><dict><key>Solo</key></dict></plist>";
    let err = parse_xml_str(doc).unwrap_err();
    assert_eq!(err, ParseError::MissingValue("Solo".to_string()));
}

#[test]
fn wrong_value_kind_for_track_field_is_fatal() {
    let doc = "<plist><dict><key>Tracks</key><dict>\
        <key>5</key><dict><key>Name</key><integer>5</integer></dict>\
        </dict></dict></plist>";
    let err = parse_xml_str(doc).unwrap_err();
    assert_eq!(
        err,
        ParseError::Unexpected { expected: TokenKind::Str, found: Some(Element::Integer(5)) },
    );
}

#[test]
fn empty_required_playlist_string_is_fatal() {
    let doc = "<plist><dict><key>Playlists</key><array><dict>\
        <key>Name</key><string/>\
        </dict></array></dict></plist>";
    let err = parse_xml_str(doc).unwrap_err();
    assert_eq!(err, ParseError::EmptyString("Name".to_string()));
}

#[test]
fn data_elements_read_as_strings() {
    let doc = "<plist><dict><key>Tracks</key><dict>\
        <key>8</key><dict><key>Comments</key><data>QUJD</data></dict>\
        </dict></dict></plist>";
    let lib = parse_xml_str(doc).unwrap();
    assert_eq!(lib.tracks.get(&8).unwrap().comments, Some("QUJD".to_string()));
}

#[test]
fn date_fields_keep_their_text() {
    let doc = "<plist><dict><key>Tracks</key><dict>\
        <key>8</key><dict>\
        <key>Date Added</key><date>2020-01-02T03:04:05Z</date>\
        <key>Skip Date</key><date>2021-12-31T00:00:00Z</date>\
        </dict></dict></dict></plist>";
    let lib = parse_xml_str(doc).unwrap();
    let t = lib.tracks.get(&8).unwrap();
    assert_eq!(t.date_added, Some("2020-01-02T03:04:05Z".to_string()));
    assert_eq!(t.skip_date, Some("2021-12-31T00:00:00Z".to_string()));
}

#[test]
fn track_id_field_is_discarded_in_favour_of_the_key() {
    let doc = "<plist><dict><key>Tracks</key><dict>\
        <key>77</key><dict><key>Track ID</key><integer>1234</integer></dict>\
        </dict></dict></plist>";
    let lib = parse_xml_str(doc).unwrap();
    assert!(lib.tracks.contains_key(&77));
    assert_eq!(lib.tracks.get(&77).unwrap().id, 77);
    assert!(!lib.tracks.contains_key(&1234));
}

#[test]
fn many_typed_track_fields_land_in_their_slots() {
    let doc = "<plist><dict><key>Tracks</key><dict>\
        <key>21</key><dict>\
        <key>Name</key><string>N</string>\
        <key>Artist</key><string>Ar</string>\
        <key>Album Artist</key><string>AA</string>\
        <key>Composer</key><string>Co</string>\
        <key>Genre</key><string>G</string>\
        <key>Album</key><string>Al</string>\
        <key>Kind</key><string>K</string>\
        <key>Size</key><integer>1024</integer>\
        <key>Total Time</key><integer>200000</integer>\
        <key>Disc Number</key><integer>1</integer>\
        <key>Disc Count</key><integer>2</integer>\
        <key>Track Number</key><integer>3</integer>\
        <key>Track Count</key><integer>12</integer>\
        <key>Year</key><integer>1999</integer>\
        <key>BPM</key><integer>174</integer>\
        <key>Bit Rate</key><integer>320</integer>\
        <key>Sample Rate</key><integer>44100</integer>\
        <key>Play Count</key><integer>9</integer>\
        <key>Rating</key><integer>100</integer>\
        <key>Normalization</key><integer>-120</integer>\
        <key>Persistent ID</key><string>FFAA</string>\
        <key>Location</key><string>file:///a/b.mp3</string>\
        <key>Purchased</key><true/>\
        <key>Unplayed</key><false/>\
        </dict></dict></dict></plist>";
    let lib = parse_xml_str(doc).unwrap();
    let t = lib.tracks.get(&21).unwrap();
    assert_eq!(t.name.as_deref(), Some("N"));
    assert_eq!(t.artist.as_deref(), Some("Ar"));
    assert_eq!(t.album_artist.as_deref(), Some("AA"));
    assert_eq!(t.composer.as_deref(), Some("Co"));
    assert_eq!(t.genre.as_deref(), Some("G"));
    assert_eq!(t.album.as_deref(), Some("Al"));
    assert_eq!(t.kind.as_deref(), Some("K"));
    assert_eq!(t.size, Some(1024));
    assert_eq!(t.total_time, Some(200000));
    assert_eq!(t.disc_number, Some(1));
    assert_eq!(t.disc_count, Some(2));
    assert_eq!(t.track_number, Some(3));
    assert_eq!(t.track_count, Some(12));
    assert_eq!(t.year, Some(1999));
    assert_eq!(t.bpm, Some(174));
    assert_eq!(t.bit_rate, Some(320));
    assert_eq!(t.sample_rate, Some(44100));
    assert_eq!(t.play_count, Some(9));
    assert_eq!(t.rating, Some(100));
    assert_eq!(t.normalization, Some(-120));
    assert_eq!(t.persistent_id.as_deref(), Some("FFAA"));
    assert_eq!(t.location.as_deref(), Some("file:///a/b.mp3"));
    assert_eq!(t.purchased, Some(true));
    assert_eq!(t.unplayed, Some(false));
}

#[test]
fn tracks_value_must_be_a_dict() {
    let doc = "<plist><dict><key>Tracks</key><array></array></dict></plist>";
    let err = parse_xml_str(doc).unwrap_err();
    assert_eq!(
        err,
        ParseError::Unexpected { expected: TokenKind::Dict, found: Some(Element::Array) },
    );
}

#[test]
fn playlists_value_must_be_an_array() {
    let doc = "<plist><dict><key>Playlists</key><dict></dict></dict></plist>";
    let err = parse_xml_str(doc).unwrap_err();
    assert_eq!(
        err,
        ParseError::Unexpected { expected: TokenKind::Array, found: Some(Element::Dict) },
    );
}

#[test]
fn remaining_track_fields_land_in_their_slots() {
    let doc = "<plist><dict><key>Tracks</key><dict>\
        <key>22</key><dict>\
        <key>Comments</key><string>c</string>\
        <key>Content Rating</key><string>clean</string>\
        <key>Equalizer</key><string>Rock</string>\
        <key>Sort Name</key><string>sn</string>\
        <key>Sort Album</key><string>sal</string>\
        <key>Sort Album Artist</key><string>saa</string>\
        <key>Sort Composer</key><string>sc</string>\
        <key>Sort Artist</key><string>sar</string>\
        <key>Track Type</key><string>File</string>\
        <key>Loved</key><true/>\
        <key>Disliked</key><false/>\
        <key>Matched</key><true/>\
        <key>Explicit</key><false/>\
        <key>Part Of Gapless Album</key><true/>\
        <key>Movie</key><false/>\
        <key>Podcast</key><true/>\
        <key>Rating Computed</key><false/>\
        <key>Album Rating Computed</key><true/>\
        <key>Music Video</key><false/>\
        <key>Has Video</key><true/>\
        <key>HD</key><false/>\
        <key>Favorited</key><true/>\
        <key>Play Date</key><integer>1234567</integer>\
        <key>Skip Count</key><integer>2</integer>\
        <key>Artwork Count</key><integer>1</integer>\
        <key>Album Rating</key><integer>80</integer>\
        <key>File Folder Count</key><integer>5</integer>\
        <key>Library Folder Count</key><integer>1</integer>\
        <key>Volume Adjustment</key><integer>-255</integer>\
        <key>Date Modified</key><date>2019-06-01T00:00:00Z</date>\
        <key>Play Date UTC</key><date>2022-02-02T02:02:02Z</date>\
        <key>Release Date</key><date>1988-08-08T00:00:00Z</date>\
        </dict></dict></dict></plist>";
    let lib = parse_xml_str(doc).unwrap();
    let t = lib.tracks.get(&22).unwrap();
    assert_eq!(t.comments.as_deref(), Some("c"));
    assert_eq!(t.content_rating.as_deref(), Some("clean"));
    assert_eq!(t.equalizer.as_deref(), Some("Rock"));
    assert_eq!(t.sort_name.as_deref(), Some("sn"));
    assert_eq!(t.sort_album.as_deref(), Some("sal"));
    assert_eq!(t.sort_album_artist.as_deref(), Some("saa"));
    assert_eq!(t.sort_composer.as_deref(), Some("sc"));
    assert_eq!(t.sort_artist.as_deref(), Some("sar"));
    assert_eq!(t.track_type.as_deref(), Some("File"));
    assert_eq!(t.loved, Some(true));
    assert_eq!(t.disliked, Some(false));
    assert_eq!(t.matched, Some(true));
    assert_eq!(t.explicit, Some(false));
    assert_eq!(t.part_of_gapless_album, Some(true));
    assert_eq!(t.movie, Some(false));
    assert_eq!(t.podcast, Some(true));
    assert_eq!(t.rating_computed, Some(false));
    assert_eq!(t.album_rating_computed, Some(true));
    assert_eq!(t.music_video, Some(false));
    assert_eq!(t.has_video, Some(true));
    assert_eq!(t.hd, Some(false));
    assert_eq!(t.favorited, Some(true));
    assert_eq!(t.play_date, Some(1234567));
    assert_eq!(t.skip_count, Some(2));
    assert_eq!(t.artwork_count, Some(1));
    assert_eq!(t.album_rating, Some(80));
    assert_eq!(t.file_folder_count, Some(5));
    assert_eq!(t.library_folder_count, Some(1));
    assert_eq!(t.volume_adjustment, Some(-255));
    assert_eq!(t.date_modified.as_deref(), Some("2019-06-01T00:00:00Z"));
    assert_eq!(t.play_date_utc.as_deref(), Some("2022-02-02T02:02:02Z"));
    assert_eq!(t.release_date.as_deref(), Some("1988-08-08T00:00:00Z"));
}

#[test]
fn empty_document_parses_to_an_empty_library() {
    let lib = parse_xml_str("<plist><dict></dict></plist>").unwrap();
    assert!(lib.tracks.is_empty());
    assert!(lib.playlists.is_empty());
    assert!(lib.metadata.is_empty());
}

#[test]
fn declaration_and_whitespace_are_ignored() {
    let doc = "<?xml version=\"1.0\" encoding=\"UTF-8\"?>\n\
        <plist version=\"1.0\">\n  <dict>\n    \
        <key>Application Version</key><string>12.9</string>\n  \
        </dict>\n</plist>\n";
    let lib = parse_xml_str(doc).unwrap();
    assert_eq!(
        lib.metadata.get("Application Version"),
        Some(&Element::String(Some("12.9".to_string()))),
    );
}

#[test]
fn unknown_playlist_field_fails() {
    let doc = "<plist><dict><key>Playlists</key><array><dict>\
        <key>Mystery</key><string>x</string>\
        </dict></array></dict></plist>";
    let err = parse_xml_str(doc).unwrap_err();
    assert_eq!(err, ParseError::UnknownField("Mystery".to_string()));
}

#[test]
fn playlist_item_key_must_be_track_id() {
    let doc = "<plist><dict><key>Playlists</key><array><dict>\
        <key>Playlist Items</key><array>\
        <dict><key>Other</key><integer>1</integer></dict>\
        </array></dict></array></dict></plist>";
    let err = parse_xml_str(doc).unwrap_err();
    assert_eq!(err, ParseError::UnknownField("Other".to_string()));
}
