use itunes_xml::paging;
use itunes_xml::playback::{pause_toggle, PlaybackAction};
use itunes_xml::query::{build_tracks_query, dec_i64, dec_u64, squash_whitespace, QueryParams};

#[test]
fn default_query_has_no_filters() {
    let q = QueryParams::default();
    assert_eq!(q.limit, 100);
    assert_eq!(q.title, None);
    assert_eq!(q.artist, None);
    assert_eq!(q.bpm_min, None);
    assert_eq!(q.bpm_max, None);
    assert_eq!(q.location, None);
}

#[test]
fn unfiltered_query_selects_everything() {
    let (sql, params) = build_tracks_query(&QueryParams::default());
    assert_eq!(sql, "SELECT * FROM tracks  LIMIT (?);");
    assert_eq!(params, vec!["100".to_string()]);
}

#[test]
fn full_query_joins_all_clauses() {
    let q = QueryParams {
        limit: 25,
        title: Some("cross  my heart"),
        artist: Some(" the  artist "),
        bpm_min: Some(120),
        bpm_max: Some(130),
        location: Some("a b"),
    };
    let (sql, params) = build_tracks_query(&q);
    assert_eq!(
        sql,
        "SELECT * FROM tracks WHERE (LOWER( name ) LIKE '%' || (?) || '%') AND \
         (LOWER( artist ) LIKE '%' || (?) || '%') AND ( bpm >= (?) ) AND \
         ( bpm <= (?) ) AND (LOWER( location ) LIKE '%' || (?) || '%') LIMIT (?);",
    );
    assert_eq!(
        params,
        vec![
            "cross%my%heart".to_string(),
            "the%artist".to_string(),
            "120".to_string(),
            "130".to_string(),
            "a%b".to_string(),
            "25".to_string(),
        ],
    );
}

#[test]
fn single_clause_has_no_separator() {
    let q = QueryParams { bpm_min: Some(-5), ..QueryParams::default() };
    let (sql, params) = build_tracks_query(&q);
    assert_eq!(sql, "SELECT * FROM tracks WHERE ( bpm >= (?) ) LIMIT (?);");
    assert_eq!(params, vec!["-5".to_string(), "100".to_string()]);
}

#[test]
fn squash_collapses_whitespace_runs() {
    assert_eq!(squash_whitespace("cross  my heart"), "cross%my%heart");
    assert_eq!(squash_whitespace("  a  b "), "a%b");
    assert_eq!(squash_whitespace(""), "");
    assert_eq!(squash_whitespace("   "), "");
    assert_eq!(squash_whitespace("one"), "one");
    assert_eq!(squash_whitespace("a\tb\nc"), "a%b%c");
}

#[test]
fn squash_agrees_with_split_and_join() {
    for s in ["cross  my heart", "  a  b ", "", "   ", "one", "a\tb\nc", " x "] {
        let expected = s.split_whitespace().collect::<Vec<&str>>().join("%");
        assert_eq!(squash_whitespace(s), expected, "on {:?}", s);
    }
}

#[test]
fn numerals_render_exactly() {
    assert_eq!(dec_u64(0), "0");
    assert_eq!(dec_u64(100), "100");
    assert_eq!(dec_u64(u64::MAX), "18446744073709551615");
    assert_eq!(dec_i64(0), "0");
    assert_eq!(dec_i64(-5), "-5");
    assert_eq!(dec_i64(i64::MIN), "-9223372036854775808");
    assert_eq!(dec_i64(i64::MAX), "9223372036854775807");
}

#[test]
fn paging_defaults_to_a_hundred_rows() {
    let q = paging::QueryParams::default();
    assert_eq!(q.limit(), 100);
}

#[test]
fn pause_control_toggles() {
    assert_eq!(pause_toggle(false), (PlaybackAction::Pause, true));
    assert_eq!(pause_toggle(true), (PlaybackAction::Resume, false));
}
