use anmutunes::catalog::{
    _get_timestamp, chunk_bounds, cover_as_base64, unused_entries, values_placeholders,
    year_from_str, EntityKind, TrackRefs, TRACK_BATCH_ROWS,
};
use anmutunes::defs::{Image, Order};
use anmutunes::ordering::{ordered_query, sort_terms, SortColumn, SortScope};
use anmutunes::text::{format_time, parse_i64, sanitize_names};

fn refs(artist: i64, album_artist: i64, composer: i64, album: i64, genre: i64) -> TrackRefs {
    TrackRefs { artist_id: artist, album_artist_id: album_artist, composer_id: composer, album_id: album, genre_id: genre }
}

#[test]
fn cleanup_removes_only_unreferenced() {
    let tracks = vec![refs(1, 2, 3, 4, 5), refs(6, 6, 3, 7, 5)];
    assert_eq!(unused_entries(&vec![1, 2, 6, 8], &tracks, EntityKind::Artist), vec![8]);
    assert_eq!(unused_entries(&vec![3, 9], &tracks, EntityKind::Composer), vec![9]);
    assert_eq!(unused_entries(&vec![4, 7, 10], &tracks, EntityKind::Album), vec![10]);
    assert_eq!(unused_entries(&vec![5], &tracks, EntityKind::Genre), Vec::<i64>::new());
}

#[test]
fn cleanup_after_deleting_all_or_some_tracks() {
    let all = vec![refs(1, 1, 3, 4, 5), refs(1, 1, 3, 4, 5), refs(2, 2, 8, 9, 10)];
    // delete the first only: artist 1 still referenced
    let some = vec![all[1], all[2]];
    assert_eq!(unused_entries(&vec![1, 2], &some, EntityKind::Artist), Vec::<i64>::new());
    // delete both tracks of artist 1
    let rest = vec![all[2]];
    assert_eq!(unused_entries(&vec![1, 2], &rest, EntityKind::Artist), vec![1]);
    assert_eq!(unused_entries(&vec![3, 8], &rest, EntityKind::Composer), vec![3]);
    assert_eq!(unused_entries(&vec![4, 9], &rest, EntityKind::Album), vec![4]);
    assert_eq!(unused_entries(&vec![5, 10], &rest, EntityKind::Genre), vec![5]);
}

fn covered(n: usize, chunk: usize) -> Vec<usize> {
    let rows: Vec<usize> = (0..n).collect();
    let mut out = vec![];
    for (a, b) in chunk_bounds(n, chunk) {
        assert!(a < b && b - a <= chunk);
        out.extend_from_slice(&rows[a..b]);
    }
    out
}

#[test]
fn batches_cover_five_thousand_rows() {
    let rows: Vec<usize> = (0..5000).collect();
    for chunk in [1, 7, 999, TRACK_BATCH_ROWS, 4999, 5000, 10000] {
        assert_eq!(covered(5000, chunk), rows);
    }
    assert_eq!(chunk_bounds(5000, 1000).len(), 5);
    assert_eq!(chunk_bounds(0, 1000), vec![]);
    assert_eq!(chunk_bounds(2500, 1000), vec![(0, 1000), (1000, 2000), (2000, 2500)]);
}

#[test]
fn placeholders_for_bulk_insert() {
    assert_eq!(values_placeholders(2, 3), "(?, ?, ?), (?, ?, ?)");
    assert_eq!(values_placeholders(1, 1), "(?)");
    assert_eq!(values_placeholders(0, 4), "");
    let many = values_placeholders(3, 31);
    assert_eq!(many.matches('?').count(), 93);
}

#[test]
fn cover_is_a_data_url() {
    let img = Image { media_type: "image/png".to_string(), data: b"hello".to_vec() };
    assert_eq!(cover_as_base64(&img), "data:image/png;base64,aGVsbG8=");
    let one = Image { media_type: "image/jpeg".to_string(), data: vec![0xff, 0xfe] };
    assert_eq!(cover_as_base64(&one), "data:image/jpeg;base64,//4=");
    let three = Image { media_type: "x".to_string(), data: b"abc".to_vec() };
    assert_eq!(cover_as_base64(&three), "data:x;base64,YWJj");
    let none = Image { media_type: "x".to_string(), data: vec![] };
    assert_eq!(cover_as_base64(&none), "data:x;base64,");
}

#[test]
fn year_from_date_text() {
    assert_eq!(year_from_str("1999-04-01T00:00:00Z"), Some(1999));
    assert_eq!(year_from_str("released in 2004"), Some(2004));
    assert_eq!(year_from_str("99"), None);
    assert_eq!(year_from_str(""), None);
}

#[test]
fn timestamp_is_decimal_seconds() {
    let t = _get_timestamp().unwrap();
    assert!(!t.is_empty());
    assert!(t.chars().all(|c| c.is_ascii_digit()));
    assert!(t.parse::<u64>().unwrap() > 1_600_000_000);
}

#[test]
fn format_time_minutes_and_seconds() {
    assert_eq!(format_time(0), "0:00");
    assert_eq!(format_time(65_000), "1:05");
    assert_eq!(format_time(3_599_999), "59:59");
    assert_eq!(format_time(600_000), "10:00");
    assert_eq!(format_time(-61_000), "-1:-1");
}

#[test]
fn sanitize_names_replaces_unsafe_characters() {
    assert_eq!(sanitize_names("AC/DC: Live?"), "AC_DC_ Live_");
    assert_eq!(sanitize_names("a<b>c|d*e\"f\\g"), "a_b_c_d_e_f_g");
    assert_eq!(sanitize_names("Ünïcode ok"), "Ünïcode ok");
}

#[test]
fn parse_i64_reads_decimal() {
    let p = |s: &str| parse_i64(&s.chars().collect());
    assert_eq!(p("1234"), Some(1234));
    assert_eq!(p("-42"), Some(-42));
    assert_eq!(p("+7"), Some(7));
    assert_eq!(p("9223372036854775807"), Some(i64::MAX));
    assert_eq!(p("-9223372036854775808"), Some(i64::MIN));
    assert_eq!(p("9223372036854775808"), None);
    assert_eq!(p(""), None);
    assert_eq!(p("-"), None);
    assert_eq!(p("12a"), None);
}

#[test]
fn tracks_by_name_query() {
    let q = ordered_query(SortScope::Tracks, &vec![Order::ByName]);
    assert!(q.starts_with("SELECT track_id FROM Tracks LEFT JOIN Artists Artist"));
    assert!(q.ends_with(" ORDER BY LOWER(Tracks.name) ASC"));
}

#[test]
fn multi_key_order_keeps_priority() {
    let q = ordered_query(SortScope::Albums, &vec![Order::ByAlbumArtistInverse, Order::BySize, Order::ByReleaseDate]);
    assert!(q.ends_with(" ORDER BY LOWER(Artists.name) DESC, release_date ASC"));
    let t = sort_terms(SortScope::Artists, &vec![Order::ByGenre, Order::ByNameInverse]);
    assert_eq!(t.len(), 1);
    assert_eq!(t[0].column, SortColumn::Name);
    assert!(t[0].descending);
}

#[test]
fn unsupported_keys_leave_no_order() {
    let q = ordered_query(SortScope::Genres, &vec![Order::BySize]);
    assert_eq!(q, "SELECT genre_id FROM Genres");
    let c = ordered_query(SortScope::ComposerTracks, &vec![Order::ByComposer, Order::ByTimeInverse]);
    assert!(c.contains("WHERE Tracks.composer_id = ?1"));
    assert!(c.ends_with(" ORDER BY total_time DESC"));
}
