use anmutunes::catalog::{search_hits, search_pattern, NameIndex};
use anmutunes::defs::{DBPlaylist, DataType, Order, ThemeColors};
use anmutunes::defs::Playlist;
use anmutunes::requests::{
    album_edit_plan, delete_plan, new_playlist_row, playlist_update, track_edit_plan, track_source,
    DeletePlan, TrackNames, TrackSource,
};
use anmutunes::meta::{apply_tag, empty_meta, track_from_meta};
use anmutunes::paths::{dirs_to_prune, is_managed, managed_paths, relocate};
use anmutunes::settings::{default_config, Language, Theme, View};

#[test]
fn same_key_resolves_to_one_id() {
    let mut idx = NameIndex::new();
    assert_eq!(idx.lookup("Queen"), None);
    assert_eq!(idx.resolve("Queen", 7), 7);
    assert_eq!(idx.resolve("Queen", 8), 7);
    assert_eq!(idx.resolve("Queen", 9), 7);
    assert_eq!(idx.lookup("Queen"), Some(7));
    assert_eq!(idx.resolve("queen", 10), 10);
    assert_eq!(idx.resolve("", 1), 1);
    assert_eq!(idx.resolve("", 2), 1);
}

#[test]
fn managed_paths_follow_artist_and_album() {
    let p = managed_paths("/media", "AC/DC", "Back in Black?", "/tmp/in/01 Hells Bells.mp3");
    assert_eq!(p.artist_dir, "/media/AC_DC");
    assert_eq!(p.album_dir, "/media/AC_DC/Back in Black_");
    assert_eq!(p.destination, "/media/AC_DC/Back in Black_/01 Hells Bells.mp3");
    let q = managed_paths("/media/", "A", "B", "song.flac");
    assert_eq!(q.destination, "/media/A/B/song.flac");
}

#[test]
fn relocate_replaces_old_root() {
    assert_eq!(relocate("/old/music/a.mp3", "/old/music", "/new"), "/new/a.mp3");
    assert_eq!(relocate("/other/a.mp3", "/old/music", "/new"), "/other/a.mp3");
    assert_eq!(relocate("/x/a.mp3", "", "/new"), "/new/x/a.mp3");
    assert_eq!(relocate("/x/m", "/m", "/n"), "/x/m");
    assert_eq!(relocate("/m/a/m/b.mp3", "/m", "/n"), "/n/a/m/b.mp3");
}

#[test]
fn prune_stops_at_media_root() {
    assert_eq!(
        dirs_to_prune("/media/Artist/Album/song.mp3", "/media"),
        vec!["/media/Artist/Album".to_string(), "/media/Artist".to_string()]
    );
    assert_eq!(
        dirs_to_prune("/media/Artist/Album/song.mp3", "/media/"),
        vec!["/media/Artist/Album".to_string(), "/media/Artist".to_string()]
    );
    assert_eq!(dirs_to_prune("/media/song.mp3", "/media"), Vec::<String>::new());
    assert_eq!(dirs_to_prune("/elsewhere/a/b.mp3", "/media"), Vec::<String>::new());
    assert_eq!(dirs_to_prune("/mediax/a/b.mp3", "/media"), Vec::<String>::new());
}

#[test]
fn tags_fill_meta() {
    let mut m = empty_meta();
    apply_tag(&mut m, "TrackTitle", "my mind is a mountain");
    apply_tag(&mut m, "AlbumArtist", "Deftones");
    apply_tag(&mut m, "TrackNumber", "1");
    apply_tag(&mut m, "TrackTotal", "11");
    apply_tag(&mut m, "DiscNumber", "x");
    apply_tag(&mut m, "Date", "2025-08-22");
    apply_tag(&mut m, "Encoder", "Lavf60.16.100");
    assert_eq!(m.name.as_deref(), Some("my mind is a mountain"));
    assert_eq!(m.album_artist.as_deref(), Some("Deftones"));
    assert_eq!(m.artist, None);
    assert_eq!(m.track_number, Some(1));
    assert_eq!(m.track_count, Some(11));
    assert_eq!(m.disc_number, None);
    assert_eq!(m.release_date.as_deref(), Some("2025-08-22"));
}

#[test]
fn first_start_configuration() {
    let c = default_config("/home/me/Music".to_string());
    assert_eq!(c.version.major, 1);
    assert_eq!(c.version.minor, 0);
    assert_eq!(c.theme, Theme::System);
    assert_eq!(c.startup_view, View::Recents);
    assert_eq!(c.language, Language::System);
    assert!(c.look_for_updates && c.is_new);
    assert!(!c.manage_folders && !c.allow_delete_files && !c.allow_delete_from_db);
    assert_eq!(c.media_path, "/home/me/Music");
    assert_eq!(c.custom_colors.background, "#ffffff");
    assert_eq!(ThemeColors::default().shadow, "#00000020");
}

#[test]
fn default_playlist_is_visible() {
    let p = DBPlaylist::default();
    assert_eq!(p.visible, 1);
    assert_eq!(p.master, 0);
    assert!(p.tracks.is_empty());
}

#[test]
fn search_reports_no_hits_as_none() {
    assert_eq!(search_pattern("abc"), "%abc%");
    assert_eq!(search_hits(&vec![], 10), None);
    assert_eq!(search_hits(&vec![1, 2, 3], 2), Some(vec![1, 2]));
    assert_eq!(search_hits(&vec![1, 2, 3], 10), Some(vec![1, 2, 3]));
    assert_eq!(search_hits(&vec![1], 0), None);
}

#[test]
fn managed_locations_start_with_root() {
    assert!(is_managed("/media/a/b.mp3", "/media"));
    assert!(!is_managed("/other/b.mp3", "/media"));
    assert!(!is_managed("/me", "/media"));
    assert!(is_managed("/x", ""));
}

#[test]
fn play_sources_by_kind() {
    assert!(matches!(track_source(DataType::Track, None), TrackSource::Ids));
    assert!(matches!(track_source(DataType::Album, Some(vec![Order::BySize])), TrackSource::Albums));
    assert!(matches!(track_source(DataType::Playlist, None), TrackSource::Playlists));
    assert!(matches!(track_source(DataType::Artist, None), TrackSource::Artists));
    match track_source(DataType::Composer, None) {
        TrackSource::Composers(keys) => assert_eq!(keys, vec![Order::ByName]),
        other => panic!("{:?}", other),
    }
    match track_source(DataType::Genre, Some(vec![Order::ByTimeInverse])) {
        TrackSource::Genres(keys) => assert_eq!(keys, vec![Order::ByTimeInverse]),
        other => panic!("{:?}", other),
    }
    assert!(matches!(track_source(DataType::Cover, None), TrackSource::Nothing));
}

#[test]
fn deletion_follows_configuration() {
    assert!(matches!(delete_plan(DataType::Playlist, true, false, false), DeletePlan::Playlists));
    assert!(matches!(delete_plan(DataType::Album, true, false, true), DeletePlan::Refused));
    assert!(matches!(
        delete_plan(DataType::Album, true, true, false),
        DeletePlan::Tracks { source: TrackSource::Albums, files: false }
    ));
    assert!(matches!(
        delete_plan(DataType::Track, true, true, true),
        DeletePlan::Tracks { source: TrackSource::Ids, files: true }
    ));
    assert!(matches!(
        delete_plan(DataType::Track, false, true, true),
        DeletePlan::Tracks { source: TrackSource::Ids, files: false }
    ));
}

#[test]
fn track_record_from_tags() {
    let mut m = empty_meta();
    apply_tag(&mut m, "TrackTitle", "Song");
    apply_tag(&mut m, "Artist", "Band");
    apply_tag(&mut m, "Date", "2025-08-22");
    apply_tag(&mut m, "TrackNumber", "3");
    m.location = Some("/m/song.flac".to_string());
    let t = track_from_meta(&m);
    assert_eq!(t.track.name, "Song");
    assert_eq!(t.track.year, 2025);
    assert_eq!(t.track.track_number, 3);
    assert_eq!(t.track.disc_number, 0);
    assert_eq!(t.track.location, "/m/song.flac");
    assert_eq!(t.artist, "Band");
    assert_eq!(t.album_artist, "");
    m.year = Some(1999);
    assert_eq!(track_from_meta(&m).track.year, 1999);
}

fn names(artist: Option<&str>, album: Option<&str>, genre: Option<&str>) -> TrackNames {
    TrackNames {
        artist: artist.map(|s| s.to_string()),
        album: album.map(|s| s.to_string()),
        genre: genre.map(|s| s.to_string()),
    }
}

#[test]
fn track_edit_resolves_only_changed_names() {
    let cur = names(Some("A"), Some("X"), Some("Rock"));
    let e = track_edit_plan(&cur, &names(Some("A"), Some("Y"), None), true);
    assert_eq!(e.artist, None);
    assert_eq!(e.album.as_deref(), Some("Y"));
    assert_eq!(e.genre, None);
    assert!(e.move_file);
    let f = track_edit_plan(&cur, &names(Some("B"), Some("X"), Some("Pop")), true);
    assert_eq!(f.artist.as_deref(), Some("B"));
    assert_eq!(f.album, None);
    assert_eq!(f.genre.as_deref(), Some("Pop"));
    assert!(!f.move_file);
    let g = track_edit_plan(&names(None, None, None), &names(Some("A"), Some("Y"), None), false);
    assert_eq!(g.artist.as_deref(), Some("A"));
    assert!(!g.move_file);
}

#[test]
fn album_edit_plan_follows_changes() {
    let cur = names(Some("A"), Some("X"), Some("Rock"));
    let same = album_edit_plan(&cur, &"X".to_string(), &"A".to_string(), &"Rock".to_string(), true);
    assert!(!same.rename && same.artist.is_none() && same.genre.is_none());
    assert!(!same.retag_tracks && !same.move_files);
    let moved = album_edit_plan(&cur, &"X".to_string(), &"B".to_string(), &"Rock".to_string(), true);
    assert_eq!(moved.artist.as_deref(), Some("B"));
    assert!(moved.retag_tracks && moved.move_files);
    let genre = album_edit_plan(&cur, &"X".to_string(), &"A".to_string(), &"Pop".to_string(), true);
    assert!(genre.retag_tracks && !genre.move_files);
    let renamed = album_edit_plan(&cur, &"Z".to_string(), &"A".to_string(), &"Rock".to_string(), false);
    assert!(renamed.rename && !renamed.move_files);
}

#[test]
fn playlist_rows_from_requests() {
    let p = Playlist { id: 4, name: "Mix".into(), description: "d".into(), tracks: vec![3, 1, 2] };
    let row = new_playlist_row(p.clone());
    assert_eq!(row.name, "Mix");
    assert_eq!(row.description, "d");
    assert_eq!(row.tracks, vec![3, 1, 2]);
    assert_eq!(row.visible, 1);
    let u = playlist_update(4, p.clone()).unwrap();
    assert_eq!(u, ("Mix".to_string(), "d".to_string(), vec![3, 1, 2]));
    assert!(playlist_update(5, p).is_none());
}
