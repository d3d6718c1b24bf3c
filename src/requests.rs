//! What the catalog engine does for a request that names entities: which
//! tracks stand for them, and what a deletion may remove.
use crate::defs::{DBPlaylist, DataType, Order, Playlist};
use crate::meta::opt_text;
use vstd::prelude::*;

verus! {

/// Where the tracks of a request come from.
#[derive(Debug)]
pub enum TrackSource {
    /// The ids are track ids.
    Ids,
    /// The tracks of the albums with these ids.
    Albums,
    /// The tracks of the playlists with these ids, in playlist order.
    Playlists,
    /// The tracks of the artists with these ids.
    Artists,
    /// The tracks of the composers with these ids, sorted by the keys.
    Composers(Vec<Order>),
    /// The tracks of the genres with these ids, sorted by the keys.
    Genres(Vec<Order>),
    /// The kind has no tracks.
    Nothing,
}

/// The sort keys of a request, by name where it gives none.
pub open spec fn keys_or_name(order: Option<Vec<Order>>) -> Seq<Order> {
    match order {
        Some(v) => v@,
        None => seq![Order::ByName],
    }
}

/// Whether `r` is where the tracks of entities of `kind` come from.
pub open spec fn source_of(r: TrackSource, kind: DataType, order: Option<Vec<Order>>) -> bool {
    match kind {
        DataType::Track => r is Ids,
        DataType::Album => r is Albums,
        DataType::Playlist => r is Playlists,
        DataType::Artist => r is Artists,
        DataType::Composer => match r {
            TrackSource::Composers(v) => v@ == keys_or_name(order),
            _ => false,
        },
        DataType::Genre => match r {
            TrackSource::Genres(v) => v@ == keys_or_name(order),
            _ => false,
        },
        _ => r is Nothing,
    }
}

fn name_order() -> (r: Vec<Order>)
    ensures
        r@ == seq![Order::ByName],
{
    let mut v: Vec<Order> = Vec::new();
    v.push(Order::ByName);
    v
}

/// Where the tracks of a Play or QueueInsert request come from. Only
/// composers and genres take sort keys; they sort by name by default.
pub fn track_source(kind: DataType, order: Option<Vec<Order>>) -> (r: TrackSource)
    ensures
        source_of(r, kind, order),
{
    match kind {
        DataType::Track => TrackSource::Ids,
        DataType::Album => TrackSource::Albums,
        DataType::Playlist => TrackSource::Playlists,
        DataType::Artist => TrackSource::Artists,
        DataType::Composer => match order {
            Some(v) => TrackSource::Composers(v),
            None => TrackSource::Composers(name_order()),
        },
        DataType::Genre => match order {
            Some(v) => TrackSource::Genres(v),
            None => TrackSource::Genres(name_order()),
        },
        _ => TrackSource::Nothing,
    }
}

/// What a deletion request removes.
#[derive(Debug)]
pub enum DeletePlan {
    /// The playlists themselves; their tracks stay.
    Playlists,
    /// The tracks that stand for the entities, and their files where `files` is set.
    Tracks { source: TrackSource, files: bool },
    /// The configuration does not allow deleting from the catalog.
    Refused,
}

/// Whether `r` is the plan for deleting entities of `kind`.
pub open spec fn deletes(
    r: DeletePlan,
    kind: DataType,
    delete_files: bool,
    allow_delete_from_db: bool,
    allow_delete_files: bool,
) -> bool {
    if kind == DataType::Playlist {
        r is Playlists
    } else if !allow_delete_from_db {
        r is Refused
    } else {
        match r {
            DeletePlan::Tracks { source, files } => source_of(source, kind, None) && files == (
            delete_files && allow_delete_files),
            _ => false,
        }
    }
}

/// Plans a deletion: playlists go by themselves; other entities go with
/// their tracks, which only a configuration that allows deleting from the
/// catalog permits; files go only where the request asks and the
/// configuration allows it.
pub fn delete_plan(
    kind: DataType,
    delete_files: bool,
    allow_delete_from_db: bool,
    allow_delete_files: bool,
) -> (r: DeletePlan)
    ensures
        deletes(r, kind, delete_files, allow_delete_from_db, allow_delete_files),
{
    if kind == DataType::Playlist {
        DeletePlan::Playlists
    } else if !allow_delete_from_db {
        DeletePlan::Refused
    } else {
        DeletePlan::Tracks {
            source: track_source(kind, None),
            files: delete_files && allow_delete_files,
        }
    }
}


/// The name to resolve after an edit: the edited name where one is given
/// and differs from the current one (or there is no current one); none
/// where nothing changes.
pub open spec fn name_change(current: Option<Seq<char>>, edited: Option<Seq<char>>) -> Option<Seq<char>> {
    match edited {
        Some(e) => if current == Some(e) {
            None
        } else {
            Some(e)
        },
        None => None,
    }
}

fn changed_name(current: &Option<String>, edited: &Option<String>) -> (r: Option<String>)
    ensures
        opt_text(r) == name_change(opt_text(*current), opt_text(*edited)),
{
    match edited {
        Some(e) => match current {
            Some(c) => if *c == *e {
                None
            } else {
                Some(e.clone())
            },
            None => Some(e.clone()),
        },
        None => None,
    }
}

/// The names a track refers to: its artist, album and genre. `None` is a
/// name that is unknown (no row) or, in an edit, not given.
#[derive(Clone, Debug)]
pub struct TrackNames {
    pub artist: Option<String>,
    pub album: Option<String>,
    pub genre: Option<String>,
}

/// What editing a track changes: the names to resolve anew (none where a
/// name stays), and whether its file moves to the folder of its new album.
#[derive(Clone, Debug)]
pub struct TrackEdit {
    pub artist: Option<String>,
    pub album: Option<String>,
    pub genre: Option<String>,
    pub move_file: bool,
}

/// Plans the edit of a track: an artist, album or genre is resolved anew
/// only where its name changed; the file moves only where the album changed
/// and the media folder is managed. The clean-up of unused entries follows
/// every edit.
pub fn track_edit_plan(current: &TrackNames, edited: &TrackNames, manage_folders: bool) -> (r: TrackEdit)
    ensures
        opt_text(r.artist) == name_change(opt_text(current.artist), opt_text(edited.artist)),
        opt_text(r.album) == name_change(opt_text(current.album), opt_text(edited.album)),
        opt_text(r.genre) == name_change(opt_text(current.genre), opt_text(edited.genre)),
        r.move_file == (manage_folders && r.album is Some),
{
    let artist = changed_name(&current.artist, &edited.artist);
    let album = changed_name(&current.album, &edited.album);
    let genre = changed_name(&current.genre, &edited.genre);
    let move_file = manage_folders && album.is_some();
    TrackEdit { artist, album, genre, move_file }
}

/// What editing an album changes.
#[derive(Clone, Debug)]
pub struct AlbumEdit {
    /// The album's name changes.
    pub rename: bool,
    /// The album artist to resolve anew, where it changed.
    pub artist: Option<String>,
    /// The genre to resolve anew, where it changed.
    pub genre: Option<String>,
    /// The album's tracks take the new album artist and genre.
    pub retag_tracks: bool,
    /// The album's files move to the folder of the new artist and name.
    pub move_files: bool,
}

/// Plans the edit of an album: a new name renames it; an album artist or
/// genre is resolved anew only where its name changed, and then the
/// album's tracks follow; the files move where the name or the album
/// artist changed and the media folder is managed.
pub fn album_edit_plan(current: &TrackNames, edited_name: &String, edited_artist: &String, edited_genre: &String, manage_folders: bool) -> (r: AlbumEdit)
    ensures
        r.rename == (opt_text(current.album) != Some(edited_name@)),
        opt_text(r.artist) == name_change(opt_text(current.artist), Some(edited_artist@)),
        opt_text(r.genre) == name_change(opt_text(current.genre), Some(edited_genre@)),
        r.retag_tracks == (r.artist is Some || r.genre is Some),
        r.move_files == (manage_folders && (r.rename || r.artist is Some)),
{
    let rename = match &current.album {
        Some(a) => !(*a == *edited_name),
        None => true,
    };
    let artist = changed_name(&current.artist, &Some(edited_artist.clone()));
    let genre = changed_name(&current.genre, &Some(edited_genre.clone()));
    let retag_tracks = artist.is_some() || genre.is_some();
    let move_files = manage_folders && (rename || artist.is_some());
    AlbumEdit { rename, artist, genre, retag_tracks, move_files }
}

/// The row of a new playlist: its name, description and tracks, in order;
/// every other field as a new playlist has it (visible, no flags).
pub fn new_playlist_row(p: Playlist) -> (r: DBPlaylist)
    ensures
        r.name == p.name,
        r.description == p.description,
        r.tracks == p.tracks,
        r.orig_playlist_id == 0,
        r.master == 0,
        r.visible == 1,
        r.all_items == 0,
        r.folder == 0,
        r.distinguished_kind == 0,
{
    let mut row = DBPlaylist::default();
    row.name = p.name;
    row.description = p.description;
    row.tracks = p.tracks;
    row
}

/// The changes an existing playlist takes from an edit: its name,
/// description and track list, in order; `None` where the edit names a
/// playlist other than `existing_id`.
pub fn playlist_update(existing_id: i64, p: Playlist) -> (r: Option<(String, String, Vec<i64>)>)
    ensures
        (r is Some) == (existing_id == p.id),
        r matches Some(u) ==> u.0 == p.name && u.1 == p.description && u.2 == p.tracks,
{
    if existing_id == p.id {
        Some((p.name, p.description, p.tracks))
    } else {
        None
    }
}

} // verus!
