//! Reading the records of a legacy library file into catalog rows.
//!
//! A record (a track or a playlist) arrives as a list of key/value entries;
//! where a key occurs twice the later entry counts. Boolean values arrive
//! as the text "true" or "false".
use crate::defs::{DBPlaylist, DBTrack};
use crate::text::{chars_of, decimal_of, parse_i64, replace_all, replaced_all, string_of};
use vstd::prelude::*;

verus! {

/// The entries of a record as contracts speak of them.
pub open spec fn entries_view(e: Seq<(String, String)>) -> Seq<(Seq<char>, Seq<char>)> {
    e.map_values(|p: (String, String)| (p.0@, p.1@))
}

/// The value of the last entry with key `key`.
pub open spec fn value_of(e: Seq<(Seq<char>, Seq<char>)>, key: Seq<char>) -> Option<Seq<char>>
    decreases e.len(),
{
    if e.len() == 0 {
        None
    } else if e.last().0 == key {
        Some(e.last().1)
    } else {
        value_of(e.drop_last(), key)
    }
}

/// A text field: the value, or empty where the key is absent.
pub open spec fn text_field(e: Seq<(Seq<char>, Seq<char>)>, key: Seq<char>) -> Seq<char> {
    match value_of(e, key) {
        Some(v) => v,
        None => Seq::empty(),
    }
}

/// Whether a number field is absent or holds a decimal that fits in `i64`.
pub open spec fn number_ok(e: Seq<(Seq<char>, Seq<char>)>, key: Seq<char>) -> bool {
    match value_of(e, key) {
        Some(v) => match decimal_of(v) {
            Some(n) => i64::MIN <= n <= i64::MAX,
            None => false,
        },
        None => true,
    }
}

/// A number field: its value, or 0 where the key is absent.
pub open spec fn number_field(e: Seq<(Seq<char>, Seq<char>)>, key: Seq<char>) -> int {
    match value_of(e, key) {
        Some(v) => match decimal_of(v) {
            Some(n) => n,
            None => 0,
        },
        None => 0,
    }
}

/// A flag field: 1 where the value is "true", else 0.
pub open spec fn flag_field(e: Seq<(Seq<char>, Seq<char>)>, key: Seq<char>) -> i64 {
    if value_of(e, key) == Some("true"@) {
        1
    } else {
        0
    }
}

/// Whether every number field of a track record can be read.
pub open spec fn track_numbers_ok(e: Seq<(Seq<char>, Seq<char>)>) -> bool {
    &&& number_ok(e, "Track ID"@)
    &&& number_ok(e, "Size"@)
    &&& number_ok(e, "Total Time"@)
    &&& number_ok(e, "Disc Number"@)
    &&& number_ok(e, "Disc Count"@)
    &&& number_ok(e, "Track Number"@)
    &&& number_ok(e, "Track Count"@)
    &&& number_ok(e, "Year"@)
    &&& number_ok(e, "Bit Rate"@)
    &&& number_ok(e, "Sample Rate"@)
    &&& number_ok(e, "Normalization"@)
    &&& number_ok(e, "Artwork Count"@)
    &&& number_ok(e, "Video Width"@)
    &&& number_ok(e, "Video Height"@)
    &&& number_ok(e, "File Folder Count"@)
    &&& number_ok(e, "Library Folder Count"@)
}

/// Why a record could not be read.
#[derive(Clone, Copy, Debug, PartialEq, Eq, Structural)]
pub enum ImportError {
    /// A number field holds no decimal integer of 64 bits.
    BadNumber,
    /// A track is listed under a key other than its own track id.
    IdMismatch,
}

/// A track record: the row, whose ids are still 0, and the names through
/// which its artist, album artist, composer, album and genre are resolved.
#[derive(Clone, Debug)]
pub struct ParsedTrack {
    pub track: DBTrack,
    pub artist: String,
    pub sort_artist: String,
    pub album_artist: String,
    pub composer: String,
    pub album: String,
    pub sort_album: String,
    pub genre: String,
}

/// The position of the last entry with key `key`.
fn last_entry(e: &Vec<(String, String)>, key: &str) -> (r: Option<usize>)
    ensures
        match r {
            Some(i) => i < e@.len() && value_of(entries_view(e@), key@) == Some(e@[i as int].1@),
            None => value_of(entries_view(e@), key@) is None,
        },
{
    let k = key.to_owned();
    let mut i: usize = e.len();
    assert(e@.subrange(0, i as int) =~= e@);
    while i > 0
        invariant
            i <= e@.len(),
            k@ == key@,
            value_of(entries_view(e@), key@) == value_of(entries_view(e@.subrange(0, i as int)), key@),
        decreases i,
    {
        let ghost sub = e@.subrange(0, i as int);
        assert(entries_view(sub).last() == (e@[i - 1].0@, e@[i - 1].1@));
        if e[i - 1].0 == k {
            return Some(i - 1);
        }
        assert(entries_view(sub).drop_last() =~= entries_view(e@.subrange(0, i - 1)));
        i = i - 1;
    }
    None
}

/// A text field of a record.
fn text_entry(e: &Vec<(String, String)>, key: &str) -> (r: String)
    ensures
        r@ == text_field(entries_view(e@), key@),
{
    match last_entry(e, key) {
        Some(i) => e[i].1.clone(),
        None => String::new(),
    }
}

/// A number field of a record; `None` where it cannot be read.
fn number_entry(e: &Vec<(String, String)>, key: &str) -> (r: Option<i64>)
    ensures
        r is Some == number_ok(entries_view(e@), key@),
        r matches Some(n) ==> n == number_field(entries_view(e@), key@),
{
    match last_entry(e, key) {
        Some(i) => parse_i64(&chars_of(e[i].1.as_str())),
        None => Some(0),
    }
}

/// A flag field of a record.
fn flag_entry(e: &Vec<(String, String)>, key: &str) -> (r: i64)
    ensures
        r == flag_field(entries_view(e@), key@),
{
    match last_entry(e, key) {
        Some(i) => {
            if e[i].1 == "true".to_owned() {
                1
            } else {
                0
            }
        },
        None => 0,
    }
}


/// The precomposed letter for a vowel followed by a combining diaeresis.
pub open spec fn umlaut_of(c: char) -> Option<char> {
    if c == 'a' {
        Some('ä')
    } else if c == 'A' {
        Some('Ä')
    } else if c == 'o' {
        Some('ö')
    } else if c == 'O' {
        Some('Ö')
    } else if c == 'u' {
        Some('ü')
    } else if c == 'U' {
        Some('Ü')
    } else {
        None
    }
}

/// `s` with each of a, o, u (either case) followed by a combining diaeresis
/// (U+0308) written as the one precomposed letter.
pub open spec fn umlauts_fixed(s: Seq<char>) -> Seq<char>
    decreases s.len(),
{
    if s.len() == 0 {
        s
    } else if s.len() >= 2 && s.last() == '\u{308}' && umlaut_of(s[s.len() - 2]) is Some {
        umlauts_fixed(s.drop_last()).drop_last().push(umlaut_of(s[s.len() - 2]).unwrap())
    } else {
        umlauts_fixed(s.drop_last()).push(s.last())
    }
}

fn umlaut(c: char) -> (r: Option<char>)
    ensures
        r == umlaut_of(c),
{
    if c == 'a' {
        Some('ä')
    } else if c == 'A' {
        Some('Ä')
    } else if c == 'o' {
        Some('ö')
    } else if c == 'O' {
        Some('Ö')
    } else if c == 'u' {
        Some('ü')
    } else if c == 'U' {
        Some('Ü')
    } else {
        None
    }
}

/// Writes each vowel that a combining diaeresis follows as its precomposed
/// letter, as file systems that decompose names hand them out.
pub fn fix_umlauts(text: &str) -> (r: String)
    ensures
        r@ == umlauts_fixed(text@),
{
    let cs = chars_of(text);
    let mut out: Vec<char> = Vec::new();
    let mut i: usize = 0;
    while i < cs.len()
        invariant
            0 <= i <= cs@.len(),
            cs@ == text@,
            out@ == umlauts_fixed(cs@.subrange(0, i as int)),
        decreases cs@.len() - i,
    {
        let ghost pre = cs@.subrange(0, i as int);
        let ghost next = cs@.subrange(0, i + 1);
        assert(next.drop_last() =~= pre);
        assert(next.last() == cs@[i as int]);
        let c = cs[i];
        let mut merged = false;
        if c == '\u{308}' && i > 0 {
            match umlaut(cs[i - 1]) {
                Some(u) => {
                    assert(pre.last() == cs@[i - 1]);
                    assert(pre.drop_last() =~= cs@.subrange(0, i - 1));
                    assert(next[next.len() - 2] == cs@[i - 1]);
                    out.pop();
                    out.push(u);
                    merged = true;
                },
                None => {},
            }
        }
        if !merged {
            out.push(c);
        }
        i = i + 1;
    }
    assert(cs@.subrange(0, i as int) =~= cs@);
    string_of(&out)
}

/// The text of a percent-encoded string once decoded, or `None` where the
/// decoded bytes are no UTF-8.
pub uninterp spec fn percent_decoded(s: Seq<char>) -> Option<Seq<char>>;

/// Whether `r` holds a string with the characters `s`.
pub open spec fn holds_text(r: Option<String>, s: Seq<char>) -> bool {
    match r {
        Some(t) => t@ == s,
        None => false,
    }
}

/// Relies on `urlencoding::decode`: percent escapes decoded as UTF-8, an error
/// where the bytes are no UTF-8; a string without `%` comes back as it is.
#[verifier::external_body]
fn decode_percent(s: &str) -> (r: Option<String>)
    ensures
        match r {
            Some(t) => percent_decoded(s@) == Some(t@),
            None => percent_decoded(s@) is None,
        },
        !s@.contains('%') ==> holds_text(r, s@),
{
    match urlencoding::decode(s) {
        Ok(t) => Some(t.into_owned()),
        Err(_) => None,
    }
}

/// A file location once decoded text is in hand: umlauts composed and every
/// "file://" removed.
pub open spec fn cleaned_location(decoded: Seq<char>) -> Seq<char> {
    replaced_all(umlauts_fixed(decoded), "file://"@, Seq::empty())
}

/// The file path that a location entry of a library file names: percent
/// escapes decoded (the raw text where that fails), then cleaned.
pub open spec fn location_of(raw: Seq<char>) -> Seq<char> {
    match percent_decoded(raw) {
        Some(d) => cleaned_location(d),
        None => cleaned_location(raw),
    }
}

/// Cleans a decoded location: umlauts composed and every "file://" removed.
pub fn clean_location(decoded: &str) -> (r: String)
    ensures
        r@ == cleaned_location(decoded@),
{
    let fixed = fix_umlauts(decoded);
    let pat = chars_of("file://");
    proof {
        reveal_strlit("file://");
    }
    let out = replace_all(&chars_of(fixed.as_str()), &pat, &Vec::new());
    string_of(&out)
}

/// The file path of a location entry.
pub fn track_location(raw: &str) -> (r: String)
    ensures
        r@ == location_of(raw@),
{
    match decode_percent(raw) {
        Some(d) => clean_location(d.as_str()),
        None => clean_location(raw),
    }
}


/// The path of a record's location entry; empty where it has none.
pub open spec fn location_field(e: Seq<(Seq<char>, Seq<char>)>) -> Seq<char> {
    match value_of(e, "Location"@) {
        Some(v) => location_of(v),
        None => Seq::empty(),
    }
}

/// Whether `t` is the track that the entries `e` describe: each field read
/// from its entry, the ids not yet resolved (0).
pub open spec fn track_of_entries(t: ParsedTrack, e: Seq<(Seq<char>, Seq<char>)>) -> bool {
    &&& t.track.orig_track_id == number_field(e, "Track ID"@)
    &&& t.track.size == number_field(e, "Size"@)
    &&& t.track.total_time == number_field(e, "Total Time"@)
    &&& t.track.disc_number == number_field(e, "Disc Number"@)
    &&& t.track.disc_count == number_field(e, "Disc Count"@)
    &&& t.track.track_number == number_field(e, "Track Number"@)
    &&& t.track.track_count == number_field(e, "Track Count"@)
    &&& t.track.year == number_field(e, "Year"@)
    &&& t.track.bit_rate == number_field(e, "Bit Rate"@)
    &&& t.track.sample_rate == number_field(e, "Sample Rate"@)
    &&& t.track.normalization == number_field(e, "Normalization"@)
    &&& t.track.artwork_count == number_field(e, "Artwork Count"@)
    &&& t.track.video_width == number_field(e, "Video Width"@)
    &&& t.track.video_height == number_field(e, "Video Height"@)
    &&& t.track.file_folder_count == number_field(e, "File Folder Count"@)
    &&& t.track.library_folder_count == number_field(e, "Library Folder Count"@)
    &&& t.track.name@ == text_field(e, "Name"@)
    &&& t.track.kind@ == text_field(e, "Kind"@)
    &&& t.track.date_modified@ == text_field(e, "Date Modified"@)
    &&& t.track.date_added@ == text_field(e, "Date Added"@)
    &&& t.track.release_date@ == text_field(e, "Release Date"@)
    &&& t.track.sort_name@ == text_field(e, "Sort Name"@)
    &&& t.track.persistent_id@ == text_field(e, "Persistent ID"@)
    &&& t.track.track_type@ == text_field(e, "Track Type"@)
    &&& t.track.purchased == flag_field(e, "Purchased"@)
    &&& t.track.has_video == flag_field(e, "Has Video"@)
    &&& t.track.hd == flag_field(e, "HD"@)
    &&& t.track.music_video == flag_field(e, "Music Video"@)
    &&& t.track.location@ == location_field(e)
    &&& t.track.artist_id == 0
    &&& t.track.album_artist_id == 0
    &&& t.track.composer_id == 0
    &&& t.track.album_id == 0
    &&& t.track.genre_id == 0
    &&& t.artist@ == text_field(e, "Artist"@)
    &&& t.sort_artist@ == text_field(e, "Sort Artist"@)
    &&& t.album_artist@ == text_field(e, "Album Artist"@)
    &&& t.composer@ == text_field(e, "Composer"@)
    &&& t.album@ == text_field(e, "Album"@)
    &&& t.sort_album@ == text_field(e, "Sort Album"@)
    &&& t.genre@ == text_field(e, "Genre"@)
}

/// Reads a track record of the library's "Tracks" collection, which lists
/// the record under the key `key`. Fails where a number field cannot be read
/// (`BadNumber`), or where the key is no number or not the record's track id
/// (`IdMismatch`).
pub fn track_from_entries(e: &Vec<(String, String)>, key: &str) -> (r: Result<ParsedTrack, ImportError>)
    ensures
        (r is Ok) == (track_numbers_ok(entries_view(e@)) && decimal_of(key@) == Some(
            number_field(entries_view(e@), "Track ID"@),
        )),
        (r is Err && track_numbers_ok(entries_view(e@))) ==> r == Err::<ParsedTrack, ImportError>(ImportError::IdMismatch),
        !track_numbers_ok(entries_view(e@)) ==> r == Err::<ParsedTrack, ImportError>(ImportError::BadNumber),
        r matches Ok(t) ==> track_of_entries(t, entries_view(e@)),
{
    let orig_track_id = match number_entry(e, "Track ID") {
        Some(n) => n,
        None => return Err(ImportError::BadNumber),
    };
    let size = match number_entry(e, "Size") {
        Some(n) => n,
        None => return Err(ImportError::BadNumber),
    };
    let total_time = match number_entry(e, "Total Time") {
        Some(n) => n,
        None => return Err(ImportError::BadNumber),
    };
    let disc_number = match number_entry(e, "Disc Number") {
        Some(n) => n,
        None => return Err(ImportError::BadNumber),
    };
    let disc_count = match number_entry(e, "Disc Count") {
        Some(n) => n,
        None => return Err(ImportError::BadNumber),
    };
    let track_number = match number_entry(e, "Track Number") {
        Some(n) => n,
        None => return Err(ImportError::BadNumber),
    };
    let track_count = match number_entry(e, "Track Count") {
        Some(n) => n,
        None => return Err(ImportError::BadNumber),
    };
    let year = match number_entry(e, "Year") {
        Some(n) => n,
        None => return Err(ImportError::BadNumber),
    };
    let bit_rate = match number_entry(e, "Bit Rate") {
        Some(n) => n,
        None => return Err(ImportError::BadNumber),
    };
    let sample_rate = match number_entry(e, "Sample Rate") {
        Some(n) => n,
        None => return Err(ImportError::BadNumber),
    };
    let normalization = match number_entry(e, "Normalization") {
        Some(n) => n,
        None => return Err(ImportError::BadNumber),
    };
    let artwork_count = match number_entry(e, "Artwork Count") {
        Some(n) => n,
        None => return Err(ImportError::BadNumber),
    };
    let video_width = match number_entry(e, "Video Width") {
        Some(n) => n,
        None => return Err(ImportError::BadNumber),
    };
    let video_height = match number_entry(e, "Video Height") {
        Some(n) => n,
        None => return Err(ImportError::BadNumber),
    };
    let file_folder_count = match number_entry(e, "File Folder Count") {
        Some(n) => n,
        None => return Err(ImportError::BadNumber),
    };
    let library_folder_count = match number_entry(e, "Library Folder Count") {
        Some(n) => n,
        None => return Err(ImportError::BadNumber),
    };
    let location = match last_entry(e, "Location") {
        Some(i) => track_location(e[i].1.as_str()),
        None => String::new(),
    };
    match parse_i64(&chars_of(key)) {
        Some(k) => {
            if k != orig_track_id {
                return Err(ImportError::IdMismatch);
            }
        },
        None => return Err(ImportError::IdMismatch),
    }
    let track = DBTrack {
        orig_track_id,
        size,
        total_time,
        disc_number,
        disc_count,
        track_number,
        track_count,
        year,
        bit_rate,
        sample_rate,
        normalization,
        artwork_count,
        video_width,
        video_height,
        file_folder_count,
        library_folder_count,
        name: text_entry(e, "Name"),
        kind: text_entry(e, "Kind"),
        date_modified: text_entry(e, "Date Modified"),
        date_added: text_entry(e, "Date Added"),
        release_date: text_entry(e, "Release Date"),
        sort_name: text_entry(e, "Sort Name"),
        persistent_id: text_entry(e, "Persistent ID"),
        track_type: text_entry(e, "Track Type"),
        purchased: flag_entry(e, "Purchased"),
        has_video: flag_entry(e, "Has Video"),
        hd: flag_entry(e, "HD"),
        music_video: flag_entry(e, "Music Video"),
        location,
        artist_id: 0,
        album_artist_id: 0,
        composer_id: 0,
        album_id: 0,
        genre_id: 0,
    };
    Ok(ParsedTrack {
        track,
        artist: text_entry(e, "Artist"),
        sort_artist: text_entry(e, "Sort Artist"),
        album_artist: text_entry(e, "Album Artist"),
        composer: text_entry(e, "Composer"),
        album: text_entry(e, "Album"),
        sort_album: text_entry(e, "Sort Album"),
        genre: text_entry(e, "Genre"),
    })
}


/// Whether `p` is the playlist that the entries `e` describe, its tracks not
/// yet read. "Visible" holds unless the entry says "false".
pub open spec fn playlist_of_entries(p: DBPlaylist, e: Seq<(Seq<char>, Seq<char>)>) -> bool {
    &&& p.orig_playlist_id == number_field(e, "Playlist ID"@)
    &&& p.distinguished_kind == number_field(e, "Distinguished Kind"@)
    &&& p.name@ == text_field(e, "Name"@)
    &&& p.description@ == text_field(e, "Description"@)
    &&& p.persistent_id@ == text_field(e, "Playlist Persistent ID"@)
    &&& p.parent_persistent_id@ == text_field(e, "Parent Persistent ID"@)
    &&& p.smart_info@ == text_field(e, "Smart Info"@)
    &&& p.smart_criteria@ == text_field(e, "Smart Criteria"@)
    &&& p.master == flag_field(e, "Master"@)
    &&& p.all_items == flag_field(e, "All Items"@)
    &&& p.folder == flag_field(e, "Folder"@)
    &&& p.visible == (if value_of(e, "Visible"@) == Some("false"@) {
        0i64
    } else {
        1i64
    })
    &&& p.date_modified@.len() == 0
    &&& p.date_added@.len() == 0
    &&& p.tracks@.len() == 0
}

/// Reads a playlist record; fails where "Playlist ID" or "Distinguished
/// Kind" cannot be read as a number.
pub fn playlist_from_entries(e: &Vec<(String, String)>) -> (r: Result<DBPlaylist, ImportError>)
    ensures
        (r is Ok) == (number_ok(entries_view(e@), "Playlist ID"@) && number_ok(
            entries_view(e@),
            "Distinguished Kind"@,
        )),
        (r is Err) ==> r == Err::<DBPlaylist, ImportError>(ImportError::BadNumber),
        r matches Ok(p) ==> playlist_of_entries(p, entries_view(e@)),
{
    let orig_playlist_id = match number_entry(e, "Playlist ID") {
        Some(n) => n,
        None => return Err(ImportError::BadNumber),
    };
    let distinguished_kind = match number_entry(e, "Distinguished Kind") {
        Some(n) => n,
        None => return Err(ImportError::BadNumber),
    };
    let visible: i64 = match last_entry(e, "Visible") {
        Some(i) => if e[i].1 == "false".to_owned() {
            0
        } else {
            1
        },
        None => 1,
    };
    Ok(DBPlaylist {
        orig_playlist_id,
        name: text_entry(e, "Name"),
        description: text_entry(e, "Description"),
        master: flag_entry(e, "Master"),
        persistent_id: text_entry(e, "Playlist Persistent ID"),
        parent_persistent_id: text_entry(e, "Parent Persistent ID"),
        distinguished_kind,
        visible,
        all_items: flag_entry(e, "All Items"),
        folder: flag_entry(e, "Folder"),
        smart_info: text_entry(e, "Smart Info"),
        smart_criteria: text_entry(e, "Smart Criteria"),
        date_modified: String::new(),
        date_added: String::new(),
        tracks: Vec::new(),
    })
}

/// The catalog id of the track imported with origin id `origin`: the last
/// pair (origin id, catalog id) of `imported` that has it.
pub open spec fn imported_id(imported: Seq<(i64, i64)>, origin: i64) -> Option<i64>
    decreases imported.len(),
{
    if imported.len() == 0 {
        None
    } else if imported.last().0 == origin {
        Some(imported.last().1)
    } else {
        imported_id(imported.drop_last(), origin)
    }
}

/// A playlist entry: the catalog id of the track, or, where the track was
/// not imported, its origin id negated, which marks the dangling reference.
pub open spec fn playlist_entry(imported: Seq<(i64, i64)>, origin: i64) -> int {
    match imported_id(imported, origin) {
        Some(id) => id as int,
        None => -origin,
    }
}

fn find_imported(imported: &Vec<(i64, i64)>, origin: i64) -> (r: Option<i64>)
    ensures
        r == imported_id(imported@, origin),
{
    let mut i: usize = imported.len();
    assert(imported@.subrange(0, i as int) =~= imported@);
    while i > 0
        invariant
            i <= imported@.len(),
            imported_id(imported@, origin) == imported_id(imported@.subrange(0, i as int), origin),
        decreases i,
    {
        let ghost sub = imported@.subrange(0, i as int);
        if imported[i - 1].0 == origin {
            return Some(imported[i - 1].1);
        }
        assert(sub.drop_last() =~= imported@.subrange(0, i - 1));
        i = i - 1;
    }
    None
}

/// The track list of an imported playlist: each origin id resolved against
/// the pairs (origin id, catalog id) of the imported tracks; one that was not
/// imported stays in its place as its negation.
pub fn resolve_playlist_tracks(origin_ids: &Vec<i64>, imported: &Vec<(i64, i64)>) -> (r: Vec<i64>)
    requires
        forall|k: int| 0 <= k < origin_ids@.len() ==> origin_ids@[k] != i64::MIN,
    ensures
        r@.len() == origin_ids@.len(),
        forall|k: int|
            0 <= k < origin_ids@.len() ==> #[trigger] r@[k] == playlist_entry(imported@, origin_ids@[k]),
{
    let mut r: Vec<i64> = Vec::new();
    let mut k: usize = 0;
    while k < origin_ids.len()
        invariant
            0 <= k <= origin_ids@.len(),
            r@.len() == k,
            forall|j: int| 0 <= j < origin_ids@.len() ==> origin_ids@[j] != i64::MIN,
            forall|j: int| 0 <= j < k ==> #[trigger] r@[j] == playlist_entry(imported@, origin_ids@[j]),
        decreases origin_ids@.len() - k,
    {
        let origin = origin_ids[k];
        match find_imported(imported, origin) {
            Some(id) => r.push(id),
            None => r.push(-origin),
        }
        k = k + 1;
    }
    r
}


/// Whether `o` holds a string with the characters `s`.
pub open spec fn opt_string_is(o: Option<String>, s: Seq<char>) -> bool {
    match o {
        Some(a) => a@ == s,
        None => false,
    }
}

/// Which artist rows a track refers to: `artist` (name and sort name) is
/// resolved for the artist; the album artist is `album_artist` where there
/// is one, else the same row as the artist.
#[derive(Clone, Debug)]
pub struct ArtistPlan {
    pub artist: String,
    pub sort_artist: String,
    pub album_artist: Option<String>,
}

/// The artist rows of a track record. Without an album artist, the artist
/// stands in for it; without an artist, the album artist stands in for the
/// artist; without either, both are the unknown artist (the empty name).
pub fn artist_plan(t: &ParsedTrack) -> (r: ArtistPlan)
    ensures
        t.album_artist@.len() > 0 && t.artist@.len() > 0 ==> r.artist@ == t.artist@ && r.sort_artist@
            == t.sort_artist@ && opt_string_is(r.album_artist, t.album_artist@),
        t.album_artist@.len() > 0 && t.artist@.len() == 0 ==> r.artist@ == t.album_artist@
            && r.sort_artist@.len() == 0 && r.album_artist is None,
        t.album_artist@.len() == 0 && t.artist@.len() > 0 ==> r.artist@ == t.artist@ && r.sort_artist@
            == t.sort_artist@ && r.album_artist is None,
        t.album_artist@.len() == 0 && t.artist@.len() == 0 ==> r.artist@.len() == 0
            && r.sort_artist@.len() == 0 && r.album_artist is None,
{
    let has_album_artist = chars_of(t.album_artist.as_str()).len() > 0;
    let has_artist = chars_of(t.artist.as_str()).len() > 0;
    if has_album_artist && has_artist {
        ArtistPlan {
            artist: t.artist.clone(),
            sort_artist: t.sort_artist.clone(),
            album_artist: Some(t.album_artist.clone()),
        }
    } else if has_album_artist {
        ArtistPlan { artist: t.album_artist.clone(), sort_artist: String::new(), album_artist: None }
    } else if has_artist {
        ArtistPlan { artist: t.artist.clone(), sort_artist: t.sort_artist.clone(), album_artist: None }
    } else {
        ArtistPlan { artist: String::new(), sort_artist: String::new(), album_artist: None }
    }
}

} // verus!
