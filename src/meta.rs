//! Tag fields of an audio file, taken in one tag at a time.
//!
//! The metadata probe reports each standard tag by its key name
//! ("TrackTitle", "Artist", ...) and its value as text.
use crate::catalog::{year_from_str, year_of};
use crate::defs::{DBTrack, Image, Meta};
use crate::import::ParsedTrack;
use crate::text::{chars_of, decimal_of, parse_i64};
use vstd::prelude::*;

verus! {

/// A text of a `Meta` field.
pub open spec fn opt_text(o: Option<String>) -> Option<Seq<char>> {
    match o {
        Some(s) => Some(s@),
        None => None,
    }
}

/// The fields of `Meta` as contracts speak of them.
pub ghost struct MetaView {
    pub name: Option<Seq<char>>,
    pub artist: Option<Seq<char>>,
    pub album_artist: Option<Seq<char>>,
    pub composer: Option<Seq<char>>,
    pub album: Option<Seq<char>>,
    pub genre: Option<Seq<char>>,
    pub kind: Option<Seq<char>>,
    pub size: Option<i64>,
    pub total_time: Option<i64>,
    pub disc_number: Option<i64>,
    pub disc_count: Option<i64>,
    pub track_number: Option<i64>,
    pub track_count: Option<i64>,
    pub year: Option<i64>,
    pub bit_rate: Option<i64>,
    pub sample_rate: Option<i64>,
    pub release_date: Option<Seq<char>>,
    pub location: Option<Seq<char>>,
    pub cover: Option<Image>,
}

impl View for Meta {
    type V = MetaView;

    open spec fn view(&self) -> MetaView {
        MetaView {
            name: opt_text(self.name),
            artist: opt_text(self.artist),
            album_artist: opt_text(self.album_artist),
            composer: opt_text(self.composer),
            album: opt_text(self.album),
            genre: opt_text(self.genre),
            kind: opt_text(self.kind),
            size: self.size,
            total_time: self.total_time,
            disc_number: self.disc_number,
            disc_count: self.disc_count,
            track_number: self.track_number,
            track_count: self.track_count,
            year: self.year,
            bit_rate: self.bit_rate,
            sample_rate: self.sample_rate,
            release_date: opt_text(self.release_date),
            location: opt_text(self.location),
            cover: self.cover,
        }
    }
}

/// The number that a tag value writes, where it is a decimal of 64 bits.
pub open spec fn tag_number(v: Seq<char>) -> Option<i64> {
    match decimal_of(v) {
        Some(n) => if i64::MIN <= n <= i64::MAX {
            Some(n as i64)
        } else {
            None
        },
        None => None,
    }
}

/// A number field after a tag: the tag's number, or the old value where the
/// tag's value is no number.
pub open spec fn number_or(old: Option<i64>, v: Seq<char>) -> Option<i64> {
    match tag_number(v) {
        Some(n) => Some(n),
        None => old,
    }
}

/// The fields after taking in the tag `key` with value `v`. Keys other than
/// the ones listed leave the fields as they are.
pub open spec fn with_tag(m: MetaView, key: Seq<char>, v: Seq<char>) -> MetaView {
    if key == "TrackTitle"@ {
        MetaView { name: Some(v), ..m }
    } else if key == "Artist"@ {
        MetaView { artist: Some(v), ..m }
    } else if key == "AlbumArtist"@ {
        MetaView { album_artist: Some(v), ..m }
    } else if key == "Composer"@ {
        MetaView { composer: Some(v), ..m }
    } else if key == "Album"@ {
        MetaView { album: Some(v), ..m }
    } else if key == "Genre"@ {
        MetaView { genre: Some(v), ..m }
    } else if key == "DiscNumber"@ {
        MetaView { disc_number: number_or(m.disc_number, v), ..m }
    } else if key == "DiscTotal"@ {
        MetaView { disc_count: number_or(m.disc_count, v), ..m }
    } else if key == "TrackNumber"@ {
        MetaView { track_number: number_or(m.track_number, v), ..m }
    } else if key == "TrackTotal"@ {
        MetaView { track_count: number_or(m.track_count, v), ..m }
    } else if key == "Date"@ {
        MetaView { release_date: Some(v), ..m }
    } else {
        m
    }
}

fn number_tag(value: &str, old: Option<i64>) -> (r: Option<i64>)
    ensures
        r == number_or(old, value@),
{
    match parse_i64(&chars_of(value)) {
        Some(n) => Some(n),
        None => old,
    }
}

/// Fields with nothing known yet.
pub fn empty_meta() -> (r: Meta)
    ensures
        r@ == (MetaView {
            name: None,
            artist: None,
            album_artist: None,
            composer: None,
            album: None,
            genre: None,
            kind: None,
            size: None,
            total_time: None,
            disc_number: None,
            disc_count: None,
            track_number: None,
            track_count: None,
            year: None,
            bit_rate: None,
            sample_rate: None,
            release_date: None,
            location: None,
            cover: None,
        }),
{
    Meta {
        name: None,
        artist: None,
        album_artist: None,
        composer: None,
        album: None,
        genre: None,
        kind: None,
        size: None,
        total_time: None,
        disc_number: None,
        disc_count: None,
        track_number: None,
        track_count: None,
        year: None,
        bit_rate: None,
        sample_rate: None,
        release_date: None,
        location: None,
        cover: None,
    }
}

/// Takes in one standard tag of an audio file.
pub fn apply_tag(meta: &mut Meta, key: &str, value: &str)
    ensures
        final(meta)@ == with_tag(old(meta)@, key@, value@),
{
    let k = key.to_owned();
    let v = value.to_owned();
    if k == "TrackTitle".to_owned() {
        meta.name = Some(v);
    } else if k == "Artist".to_owned() {
        meta.artist = Some(v);
    } else if k == "AlbumArtist".to_owned() {
        meta.album_artist = Some(v);
    } else if k == "Composer".to_owned() {
        meta.composer = Some(v);
    } else if k == "Album".to_owned() {
        meta.album = Some(v);
    } else if k == "Genre".to_owned() {
        meta.genre = Some(v);
    } else if k == "DiscNumber".to_owned() {
        meta.disc_number = number_tag(value, meta.disc_number);
    } else if k == "DiscTotal".to_owned() {
        meta.disc_count = number_tag(value, meta.disc_count);
    } else if k == "TrackNumber".to_owned() {
        meta.track_number = number_tag(value, meta.track_number);
    } else if k == "TrackTotal".to_owned() {
        meta.track_count = number_tag(value, meta.track_count);
    } else if k == "Date".to_owned() {
        meta.release_date = Some(v);
    }
}


/// A text field, empty where it is absent.
pub open spec fn text_or_empty(o: Option<Seq<char>>) -> Seq<char> {
    match o {
        Some(t) => t,
        None => Seq::empty(),
    }
}

/// A number field, 0 where it is absent.
pub open spec fn number_or_zero(o: Option<i64>) -> i64 {
    match o {
        Some(n) => n,
        None => 0,
    }
}

/// The year of a file: its year tag, or, where that is absent or 0, the
/// year that its release date holds.
pub open spec fn year_of_meta(m: MetaView) -> i64 {
    if number_or_zero(m.year) == 0 && text_or_empty(m.release_date).len() > 0 {
        match year_of(text_or_empty(m.release_date)) {
            Some(y) => y as i64,
            None => 0,
        }
    } else {
        number_or_zero(m.year)
    }
}

/// Whether `t` is the track record that the tags `m` describe.
pub open spec fn track_of_meta(t: ParsedTrack, m: MetaView) -> bool {
    &&& t.track.size == number_or_zero(m.size)
    &&& t.track.total_time == number_or_zero(m.total_time)
    &&& t.track.disc_number == number_or_zero(m.disc_number)
    &&& t.track.disc_count == number_or_zero(m.disc_count)
    &&& t.track.track_number == number_or_zero(m.track_number)
    &&& t.track.track_count == number_or_zero(m.track_count)
    &&& t.track.bit_rate == number_or_zero(m.bit_rate)
    &&& t.track.sample_rate == number_or_zero(m.sample_rate)
    &&& t.track.name@ == text_or_empty(m.name)
    &&& t.track.kind@ == text_or_empty(m.kind)
    &&& t.track.release_date@ == text_or_empty(m.release_date)
    &&& t.track.location@ == text_or_empty(m.location)
    &&& t.artist@ == text_or_empty(m.artist)
    &&& t.album_artist@ == text_or_empty(m.album_artist)
    &&& t.composer@ == text_or_empty(m.composer)
    &&& t.album@ == text_or_empty(m.album)
    &&& t.genre@ == text_or_empty(m.genre)
    &&& t.sort_artist@.len() == 0 && t.sort_album@.len() == 0
    &&& t.track.year == year_of_meta(m)
    &&& t.track.orig_track_id == 0 && t.track.artist_id == 0 && t.track.album_id == 0
}

fn text_field_of(o: &Option<String>) -> (r: String)
    ensures
        r@ == text_or_empty(opt_text(*o)),
{
    match o {
        Some(t) => t.clone(),
        None => String::new(),
    }
}

fn number_field_of(o: Option<i64>) -> (r: i64)
    ensures
        r == number_or_zero(o),
{
    match o {
        Some(n) => n,
        None => 0,
    }
}

/// The track record of an audio file from its tags; the catalog ids are
/// resolved afterwards, as for an imported record.
pub fn track_from_meta(meta: &Meta) -> (r: ParsedTrack)
    ensures
        track_of_meta(r, meta@),
{
    let release_date = text_field_of(&meta.release_date);
    let tagged_year = number_field_of(meta.year);
    let year: i64 = if tagged_year == 0 && chars_of(release_date.as_str()).len() > 0 {
        match year_from_str(release_date.as_str()) {
            Some(y) => y,
            None => 0,
        }
    } else {
        tagged_year
    };
    let track = DBTrack {
        orig_track_id: 0,
        name: text_field_of(&meta.name),
        artist_id: 0,
        album_artist_id: 0,
        composer_id: 0,
        album_id: 0,
        genre_id: 0,
        kind: text_field_of(&meta.kind),
        size: number_field_of(meta.size),
        total_time: number_field_of(meta.total_time),
        disc_number: number_field_of(meta.disc_number),
        disc_count: number_field_of(meta.disc_count),
        track_number: number_field_of(meta.track_number),
        track_count: number_field_of(meta.track_count),
        year,
        date_modified: String::new(),
        date_added: String::new(),
        bit_rate: number_field_of(meta.bit_rate),
        sample_rate: number_field_of(meta.sample_rate),
        release_date,
        normalization: 0,
        artwork_count: 0,
        sort_name: String::new(),
        persistent_id: String::new(),
        track_type: String::new(),
        purchased: 0,
        has_video: 0,
        hd: 0,
        video_width: 0,
        video_height: 0,
        music_video: 0,
        location: text_field_of(&meta.location),
        file_folder_count: 0,
        library_folder_count: 0,
    };
    ParsedTrack {
        track,
        artist: text_field_of(&meta.artist),
        sort_artist: String::new(),
        album_artist: text_field_of(&meta.album_artist),
        composer: text_field_of(&meta.composer),
        album: text_field_of(&meta.album),
        sort_album: String::new(),
        genre: text_field_of(&meta.genre),
    }
}

} // verus!
