//! Plain data shared by the catalog and the playback engine.
use vstd::prelude::*;

verus! {

/// A catalog track as the front end displays it.
#[derive(Clone, Debug)]
pub struct Track {
    pub id: i64,
    pub name: String,
    pub artist_id: i64,
    pub album_artist_id: i64,
    pub album_id: i64,
    pub genre_id: i64,
    pub total_time: i32,
    pub disc_number: i32,
    pub track_number: i32,
}

/// A full track row, as read from a library file or a probed audio file.
#[derive(Clone, Debug)]
pub struct DBTrack {
    pub orig_track_id: i64,
    pub name: String,
    pub artist_id: i64,
    pub album_artist_id: i64,
    pub composer_id: i64,
    pub album_id: i64,
    pub genre_id: i64,
    pub kind: String,
    pub size: i64,
    pub total_time: i64,
    pub disc_number: i64,
    pub disc_count: i64,
    pub track_number: i64,
    pub track_count: i64,
    pub year: i64,
    pub date_modified: String,
    pub date_added: String,
    pub bit_rate: i64,
    pub sample_rate: i64,
    pub release_date: String,
    pub normalization: i64,
    pub artwork_count: i64,
    pub sort_name: String,
    pub persistent_id: String,
    pub track_type: String,
    pub purchased: i64,
    pub has_video: i64,
    pub hd: i64,
    pub video_width: i64,
    pub video_height: i64,
    pub music_video: i64,
    pub location: String,
    pub file_folder_count: i64,
    pub library_folder_count: i64,
}

/// The minimal playable form of a track: its id and where its file lives.
#[derive(Clone, Debug)]
pub struct AudioTrack {
    pub id: i64,
    pub location: String,
}

impl AudioTrack {
    /// A copy of this track.
    pub fn copy(&self) -> (r: AudioTrack)
        ensures
            r == *self,
    {
        AudioTrack { id: self.id, location: self.location.clone() }
    }
}

#[derive(Clone, Debug)]
pub struct Album {
    pub id: i64,
    pub artist_id: i64,
    pub name: String,
    pub sort_album: String,
    pub genre_id: i64,
    pub year: i64,
    pub release_date: String,
    pub date_modified: String,
    pub date_added: String,
    pub tracks: Vec<i64>,
    pub cover_id: i64,
}

/// Cover art of an album, as a data URL.
#[derive(Clone, Debug)]
pub struct Cover {
    pub id: i64,
    pub album_id: i64,
    pub data: String,
}

#[derive(Clone, Debug)]
pub struct Artist {
    pub id: i64,
    pub name: String,
    pub sort_artist: String,
}

#[derive(Clone, Debug)]
pub struct ArtistAlbums {
    pub id: i64,
    pub albums: Vec<i64>,
}

#[derive(Clone, Debug)]
pub struct ArtistTracks {
    pub id: i64,
    pub tracks: Vec<i64>,
}

#[derive(Clone, Debug)]
pub struct Composer {
    pub id: i64,
    pub name: String,
}

#[derive(Clone, Debug)]
pub struct ComposerTracks {
    pub id: i64,
    pub tracks: Vec<i64>,
}

#[derive(Clone, Debug)]
pub struct Genre {
    pub id: i64,
    pub name: String,
}

#[derive(Clone, Debug)]
pub struct GenreTracks {
    pub id: i64,
    pub tracks: Vec<i64>,
}

#[derive(Clone, Debug)]
pub struct Playlist {
    pub id: i64,
    pub name: String,
    pub description: String,
    pub tracks: Vec<i64>,
}

/// A full playlist row. A negative entry in `tracks` marks a track of the
/// library file that was not imported: it is the negated origin id.
#[derive(Clone, Debug)]
pub struct DBPlaylist {
    pub orig_playlist_id: i64,
    pub name: String,
    pub description: String,
    pub master: i64,
    pub persistent_id: String,
    pub parent_persistent_id: String,
    pub distinguished_kind: i64,
    pub visible: i64,
    pub all_items: i64,
    pub folder: i64,
    pub smart_info: String,
    pub smart_criteria: String,
    pub date_modified: String,
    pub date_added: String,
    pub tracks: Vec<i64>,
}

impl Default for DBPlaylist {
    fn default() -> (r: DBPlaylist)
        ensures
            r.orig_playlist_id == 0,
            r.name@ == Seq::<char>::empty(),
            r.description@ == Seq::<char>::empty(),
            r.master == 0,
            r.visible == 1,
            r.all_items == 0,
            r.folder == 0,
            r.distinguished_kind == 0,
            r.tracks@ == Seq::<i64>::empty(),
    {
        DBPlaylist {
            orig_playlist_id: 0,
            name: String::new(),
            description: String::new(),
            master: 0,
            persistent_id: String::new(),
            parent_persistent_id: String::new(),
            distinguished_kind: 0,
            visible: 1,
            all_items: 0,
            folder: 0,
            smart_info: String::new(),
            smart_criteria: String::new(),
            date_modified: String::new(),
            date_added: String::new(),
            tracks: Vec::new(),
        }
    }
}

/// What happens to the current track when playback advances.
#[derive(Clone, Copy, Debug, PartialEq, Eq, Structural)]
pub enum RepeatMode {
    RepeatTrack,
    RepeatQueue,
    RepeatNone,
}

#[derive(Clone, Debug)]
pub struct Output {
    pub id: i64,
    pub name: String,
}

/// A sort key. Each key has an ascending and an `Inverse` (descending) form.
#[derive(Clone, Copy, Debug, PartialEq, Eq, Structural)]
pub enum Order {
    ByName,
    ByReleaseDate,
    ByAddedDate,
    ByModifiedDate,
    ByArtist,
    ByAlbumArtist,
    ByComposer,
    ByAlbum,
    ByGenre,
    BySize,
    ByTime,
    ByNameInverse,
    ByReleaseDateInverse,
    ByAddedDateInverse,
    ByModifiedDateInverse,
    ByArtistInverse,
    ByAlbumArtistInverse,
    ByComposerInverse,
    ByAlbumInverse,
    ByGenreInverse,
    BySizeInverse,
    ByTimeInverse,
}

/// The kinds of catalog entity.
#[derive(Clone, Copy, Debug, PartialEq, Eq, Structural)]
pub enum DataType {
    Artist,
    Composer,
    Album,
    Cover,
    Genre,
    Track,
    Video,
    Playlist,
}

/// A transport command of the front end.
#[derive(Clone, Debug)]
pub enum AudioRequest {
    PlayPause(bool),
    Next,
    Prev,
    QueueJump(i64),
    QueueMove(Vec<i64>),
    QueueRemove(Vec<i64>),
    HistoryJump(i64),
    HistoryRemove,
    Mute(bool),
    Volume(i32),
    Output(i32),
    Seek(i64),
    Shuffle(bool),
    Repeat(RepeatMode),
    Init,
}

/// A request to the catalog engine.
#[derive(Clone, Debug)]
pub enum DBRequest {
    Play(DataType, Vec<i64>, Option<Vec<Order>>),
    QueueInsert(DataType, Vec<i64>, Option<usize>, Option<Vec<Order>>),
    AudioBackendRecover(Vec<i64>, Vec<i64>),
    NewPlaylist(Playlist),
    UpdatePlaylist(Playlist),
    AddToLibrary(Vec<String>),
    ImportLibrary(String),
    UpdateTrackLocations(String, String),
    DeleteById(DataType, Vec<i64>, bool),
    GetDataOrder(DataType, Option<Vec<Order>>),
    GetCoversById(Vec<i64>),
    GetTrackPaths(Vec<i64>),
    Search(String, Option<Vec<DataType>>, Option<i64>),
    UpdateTracks(Vec<Track>, Vec<String>, Vec<String>, Vec<String>),
    UpdateAlbum(Album, String, String),
    UpdateArtist(Artist),
    UpdateComposer(Composer),
    UpdateGenre(Genre),
    ExtractCovers,
    ExtractCover(i64),
    Init,
    UpdateConfig(crate::settings::ConfigState),
    OpenContainingDir(DataType, i64),
    CopyNotCopied,
    ListenedToTrack(i64),
}

/// What the catalog engine hands to the playback engine.
#[derive(Clone, Debug)]
pub enum DBData {
    Play(Vec<AudioTrack>),
    QueueInsert(Vec<AudioTrack>, Option<usize>),
    AudioBackendRecover(Option<Vec<AudioTrack>>, Option<Vec<AudioTrack>>),
}

#[derive(Clone, Debug)]
pub enum ConfigRequest {
    Get,
    Store(crate::settings::ConfigState),
}

#[derive(Clone, Debug)]
pub struct DBState {
    pub tracks_max: Option<i64>,
    pub albums_max: Option<i64>,
    pub artists_max: Option<i64>,
    pub genres_max: Option<i64>,
    pub playlists_max: Option<i64>,
}

/// A partial update of the playback state: only the fields touched are `Some`.
#[derive(Clone, Debug)]
pub struct AudioState {
    pub is_playing: Option<bool>,
    pub is_muted: Option<bool>,
    pub volume: Option<i32>,
    pub output: Option<Output>,
    pub position: Option<i64>,
    pub shuffle_mode: Option<bool>,
    pub repeat_mode: Option<RepeatMode>,
    pub current_track: Option<i64>,
    pub queue: Option<Vec<i64>>,
    pub history: Option<Vec<i64>>,
}

/// The persisted playback session.
#[derive(Clone, Debug)]
pub struct AudioBackendState {
    pub volume: i32,
    pub position: i64,
    pub shuffle_mode: bool,
    pub repeat_mode: RepeatMode,
    pub current_id: i64,
    pub current_location: String,
    pub queue: Vec<i64>,
    pub history: Vec<i64>,
}

#[derive(Clone, Debug)]
pub struct ThemeColors {
    pub background: String,
    pub background_active: String,
    pub background_hover: String,
    pub background_button: String,
    pub border_color: String,
    pub accent_input: String,
    pub warn: String,
    pub text: String,
    pub text_dim: String,
    pub text_highlight: String,
    pub shadow: String,
}

/// Whether `c` holds the colours of the light default theme.
pub open spec fn default_colors(c: ThemeColors) -> bool {
    &&& c.background@ == "#ffffff"@
    &&& c.background_active@ == "#eae1e1"@
    &&& c.background_hover@ == "#efe8e8"@
    &&& c.background_button@ == "#f5f0f0"@
    &&& c.border_color@ == "#d7d1d1"@
    &&& c.accent_input@ == "#d7d1d1"@
    &&& c.warn@ == "#aa0000"@
    &&& c.text@ == "#000000"@
    &&& c.text_dim@ == "#787878"@
    &&& c.text_highlight@ == "#3b3b3b"@
    &&& c.shadow@ == "#00000020"@
}

impl Default for ThemeColors {
    fn default() -> (r: ThemeColors)
        ensures
            default_colors(r),
            r.background@ == "#ffffff"@,
            r.background_active@ == "#eae1e1"@,
            r.background_hover@ == "#efe8e8"@,
            r.background_button@ == "#f5f0f0"@,
            r.border_color@ == "#d7d1d1"@,
            r.accent_input@ == "#d7d1d1"@,
            r.warn@ == "#aa0000"@,
            r.text@ == "#000000"@,
            r.text_dim@ == "#787878"@,
            r.text_highlight@ == "#3b3b3b"@,
            r.shadow@ == "#00000020"@,
    {
        ThemeColors {
            background: "#ffffff".to_owned(),
            background_active: "#eae1e1".to_owned(),
            background_hover: "#efe8e8".to_owned(),
            background_button: "#f5f0f0".to_owned(),
            border_color: "#d7d1d1".to_owned(),
            accent_input: "#d7d1d1".to_owned(),
            warn: "#aa0000".to_owned(),
            text: "#000000".to_owned(),
            text_dim: "#787878".to_owned(),
            text_highlight: "#3b3b3b".to_owned(),
            shadow: "#00000020".to_owned(),
        }
    }
}

#[derive(Clone, Debug)]
pub struct BackendMessage {
    pub notification: Option<Notification>,
    pub error: Option<String>,
    pub warning: Option<Warning>,
    pub progress: Option<Progress>,
}

#[derive(Clone, Copy, Debug, PartialEq, Eq, Structural)]
pub enum Notification {
    LibraryImport,
    Nothing,
}

#[derive(Clone, Copy, Debug, PartialEq, Eq, Structural)]
pub enum Warning {
    Nothing,
}

/// Progress of a long catalog operation; `done` marks the last message.
#[derive(Clone, Copy, Debug, PartialEq, Eq, Structural)]
pub struct Progress {
    pub info: ProgressInfo,
    pub value: Option<i64>,
    pub done: bool,
}

#[derive(Clone, Copy, Debug, PartialEq, Eq, Structural)]
pub enum ProgressInfo {
    LibraryImport,
    FileImport,
    CoverExtract,
    Delete,
    UpdateTracks,
    UpdateAlbum,
    Nothing,
}

/// Search hits per entity kind; `None` where a kind had no hit.
#[derive(Clone, Debug)]
pub struct Search {
    pub tracks: Option<Vec<i64>>,
    pub albums: Option<Vec<i64>>,
    pub genres: Option<Vec<i64>>,
    pub artists: Option<Vec<i64>>,
    pub composers: Option<Vec<i64>>,
    pub playlists: Option<Vec<i64>>,
}

#[derive(Clone, Debug)]
pub struct Data {
    pub queue: Option<Vec<i64>>,
    pub tracks: Option<Vec<Track>>,
    pub albums: Option<Vec<Album>>,
    pub artists: Option<Vec<Artist>>,
    pub artist_albums: Option<Vec<ArtistAlbums>>,
    pub artist_tracks: Option<Vec<ArtistTracks>>,
    pub composers: Option<Vec<Composer>>,
    pub composer_tracks: Option<Vec<ComposerTracks>>,
    pub covers: Option<Vec<Cover>>,
    pub genres: Option<Vec<Genre>>,
    pub genre_tracks: Option<Vec<GenreTracks>>,
    pub playlists: Option<Vec<Playlist>>,
    pub spacetime: Option<SpaceTime>,
    pub search: Option<Search>,
    pub albums_order: Option<(Vec<Order>, Vec<i64>)>,
    pub artists_order: Option<(Vec<Order>, Vec<i64>)>,
    pub composers_order: Option<(Vec<Order>, Vec<i64>)>,
    pub genres_order: Option<(Vec<Order>, Vec<i64>)>,
    pub playlists_order: Option<(Vec<Order>, Vec<i64>)>,
    pub tracks_order: Option<(Vec<Order>, Vec<i64>)>,
    pub error: Option<String>,
    pub loading: Option<Loading>,
    pub is_init: Option<bool>,
}

#[derive(Clone, Debug)]
pub struct Loading {
    pub index: Option<i64>,
    pub max: Option<i64>,
    pub message: Option<String>,
}

#[derive(Clone, Copy, Debug, PartialEq, Eq, Structural)]
pub struct SpaceTime {
    pub space: Option<i64>,
    pub time: Option<i64>,
}

/// An embedded picture: its media type and its bytes.
#[derive(Clone, Debug)]
pub struct Image {
    pub media_type: String,
    pub data: Vec<u8>,
}

/// Tag fields read from an audio file; each is absent where the file has none.
#[derive(Clone, Debug)]
pub struct Meta {
    pub name: Option<String>,
    pub artist: Option<String>,
    pub album_artist: Option<String>,
    pub composer: Option<String>,
    pub album: Option<String>,
    pub genre: Option<String>,
    pub kind: Option<String>,
    pub size: Option<i64>,
    pub total_time: Option<i64>,
    pub disc_number: Option<i64>,
    pub disc_count: Option<i64>,
    pub track_number: Option<i64>,
    pub track_count: Option<i64>,
    pub year: Option<i64>,
    pub bit_rate: Option<i64>,
    pub sample_rate: Option<i64>,
    pub release_date: Option<String>,
    pub location: Option<String>,
    pub cover: Option<Image>,
}

} // verus!
