use anmutunes::import::{
    clean_location, fix_umlauts, playlist_from_entries, resolve_playlist_tracks, track_from_entries,
    track_location, ImportError,
};
use anmutunes::library_reader::{playlist_origin_ids, LibraryItem, LibraryReader, PlistToken};

fn e(pairs: &[(&str, &str)]) -> Vec<(String, String)> {
    pairs.iter().map(|(k, v)| (k.to_string(), v.to_string())).collect()
}

#[test]
fn umlauts_are_composed() {
    assert_eq!(fix_umlauts("Mo\u{308}tley Cru\u{308}e"), "Mötley Crüe");
    assert_eq!(fix_umlauts("A\u{308}O\u{308}U\u{308}"), "ÄÖÜ");
    assert_eq!(fix_umlauts("e\u{308}"), "e\u{308}");
    assert_eq!(fix_umlauts(""), "");
}

#[test]
fn location_is_decoded_and_cleaned() {
    assert_eq!(
        track_location("file:///Users/me/Music/Motorhead/Ace%20of%20Spades.mp3"),
        "/Users/me/Music/Motorhead/Ace of Spades.mp3"
    );
    assert_eq!(track_location("file:///M%C3%BCsic/x.mp3"), "/Müsic/x.mp3");
    assert_eq!(track_location("file:///a/u%CC%88.mp3"), "/a/ü.mp3");
    assert_eq!(clean_location("file://x/file://y"), "x/y");
}

#[test]
fn track_record_is_read() {
    let entries = e(&[
        ("Track ID", "1234"),
        ("Name", "Song"),
        ("Artist", "Band"),
        ("Album Artist", "Band"),
        ("Album", "Record"),
        ("Genre", "Rock"),
        ("Size", "5000000"),
        ("Total Time", "215000"),
        ("Year", "1999"),
        ("Purchased", "true"),
        ("HD", "false"),
        ("Location", "file:///m/Song.mp3"),
        ("Name", "Song (Remaster)"),
    ]);
    let t = track_from_entries(&entries, "1234").unwrap();
    assert_eq!(t.track.orig_track_id, 1234);
    assert_eq!(t.track.name, "Song (Remaster)");
    assert_eq!(t.track.size, 5_000_000);
    assert_eq!(t.track.total_time, 215_000);
    assert_eq!(t.track.year, 1999);
    assert_eq!(t.track.purchased, 1);
    assert_eq!(t.track.hd, 0);
    assert_eq!(t.track.has_video, 0);
    assert_eq!(t.track.location, "/m/Song.mp3");
    assert_eq!(t.track.disc_number, 0);
    assert_eq!(t.track.artist_id, 0);
    assert_eq!(t.artist, "Band");
    assert_eq!(t.album, "Record");
    assert_eq!(t.genre, "Rock");
    assert_eq!(t.composer, "");
}

#[test]
fn track_record_errors() {
    let bad = e(&[("Track ID", "12"), ("Size", "big")]);
    assert_eq!(track_from_entries(&bad, "12").unwrap_err(), ImportError::BadNumber);
    let other = e(&[("Track ID", "12")]);
    assert_eq!(track_from_entries(&other, "13").unwrap_err(), ImportError::IdMismatch);
    assert_eq!(track_from_entries(&other, "x").unwrap_err(), ImportError::IdMismatch);
}

#[test]
fn playlist_record_is_read() {
    let entries = e(&[
        ("Name", "Favourites"),
        ("Playlist ID", "77"),
        ("Visible", "false"),
        ("Folder", "true"),
        ("Playlist Persistent ID", "ABC"),
    ]);
    let p = playlist_from_entries(&entries).unwrap();
    assert_eq!(p.name, "Favourites");
    assert_eq!(p.orig_playlist_id, 77);
    assert_eq!(p.visible, 0);
    assert_eq!(p.folder, 1);
    assert_eq!(p.master, 0);
    assert_eq!(p.persistent_id, "ABC");
    let q = playlist_from_entries(&e(&[("Name", "x")])).unwrap();
    assert_eq!(q.visible, 1);
    assert!(playlist_from_entries(&e(&[("Playlist ID", "x")])).is_err());
}

#[test]
fn dangling_playlist_entries_are_negated() {
    let imported = vec![(100, 1), (200, 2), (300, 3)];
    assert_eq!(resolve_playlist_tracks(&vec![200, 999, 100, 5], &imported), vec![2, -999, 1, -5]);
    assert_eq!(resolve_playlist_tracks(&vec![], &imported), Vec::<i64>::new());
    assert_eq!(resolve_playlist_tracks(&vec![100], &vec![(100, 1), (100, 8)]), vec![8]);
}

#[test]
fn playlist_items_are_read() {
    let items: Vec<String> = vec!["12".into(), "-3".into()];
    assert_eq!(playlist_origin_ids(&items), Ok(vec![12, -3]));
    let bad: Vec<String> = vec!["12".into(), "x".into()];
    assert_eq!(playlist_origin_ids(&bad), Err(ImportError::BadNumber));
    let min: Vec<String> = vec!["-9223372036854775808".into()];
    assert_eq!(playlist_origin_ids(&min), Err(ImportError::BadNumber));
}

fn open(n: &str) -> PlistToken {
    PlistToken::Open(n.to_string())
}
fn text(t: &str) -> PlistToken {
    PlistToken::Text(t.to_string())
}
fn close() -> PlistToken {
    PlistToken::Close
}
fn kv(tokens: &mut Vec<PlistToken>, k: &str, tag: &str, v: &[&str]) {
    tokens.extend([open("key"), text(k), close(), open(tag)]);
    for f in v {
        tokens.push(text(f));
    }
    tokens.push(close());
}

fn library_tokens() -> Vec<PlistToken> {
    let mut t = vec![open("plist"), open("dict")];
    kv(&mut t, "Major Version", "integer", &["1"]);
    t.extend([open("key"), text("Tracks"), close(), open("dict")]);
    t.extend([open("key"), text("1234"), close(), open("dict")]);
    kv(&mut t, "Track ID", "integer", &["1234"]);
    kv(&mut t, "Name", "string", &["AC", "&", "DC"]);
    t.extend([open("key"), text("Purchased"), close(), PlistToken::Empty("true".to_string())]);
    t.push(close()); // track dict
    t.push(close()); // tracks dict
    t.extend([open("key"), text("Playlists"), close(), open("array")]);
    t.push(open("dict"));
    kv(&mut t, "Name", "string", &["Rock ", "&", " Roll"]);
    kv(&mut t, "Playlist ID", "integer", &["5"]);
    t.extend([open("key"), text("Playlist Items"), close(), open("array")]);
    for id in ["1234", "77"] {
        t.push(open("dict"));
        kv(&mut t, "Track ID", "integer", &[id]);
        t.push(close());
    }
    t.push(close()); // items array
    t.push(close()); // playlist dict
    t.push(close()); // playlists array
    t.push(close()); // top dict
    t.push(close()); // plist
    t
}

#[test]
fn reader_hands_out_records() {
    let mut r = LibraryReader::new();
    let mut items = vec![];
    for tok in library_tokens() {
        if let Some(item) = r.feed(tok) {
            items.push(item);
        }
    }
    assert_eq!(items.len(), 2);
    match &items[0] {
        LibraryItem::Track { key, entries } => {
            assert_eq!(key, "1234");
            let t = track_from_entries(entries, key).unwrap();
            assert_eq!(t.track.name, "AC&DC");
            assert_eq!(t.track.purchased, 1);
        }
        other => panic!("unexpected {:?}", other),
    }
    match &items[1] {
        LibraryItem::Playlist { entries, items } => {
            let p = playlist_from_entries(entries).unwrap();
            assert_eq!(p.name, "Rock & Roll");
            assert_eq!(p.orig_playlist_id, 5);
            let origins = playlist_origin_ids(items).unwrap();
            assert_eq!(origins, vec![1234, 77]);
            assert_eq!(resolve_playlist_tracks(&origins, &vec![(1234, 1)]), vec![1, -77]);
        }
        other => panic!("unexpected {:?}", other),
    }
}
