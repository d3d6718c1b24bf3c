//! Sorted id queries: a list of sort keys becomes one multi-key ORDER BY.
//!
//! Each key contributes one ascending or descending term, in the order
//! given. Names compare case-insensitively, and a key by a related entity
//! sorts by that entity's name, read through a join. A key that an entity
//! kind cannot sort by is left out.
use crate::defs::Order;
use crate::text::{chars_of, string_of};
use vstd::prelude::*;

verus! {

/// What a sorted query lists.
#[derive(Clone, Copy, Debug, PartialEq, Eq, Structural)]
pub enum SortScope {
    Tracks,
    /// The tracks of one composer (its id is the query's parameter).
    ComposerTracks,
    /// The tracks of one genre (its id is the query's parameter).
    GenreTracks,
    Albums,
    Artists,
    Composers,
    Genres,
    Playlists,
}

/// What a sort key sorts by.
#[derive(Clone, Copy, Debug, PartialEq, Eq, Structural)]
pub enum SortColumn {
    Name,
    ReleaseDate,
    AddedDate,
    ModifiedDate,
    ArtistName,
    AlbumArtistName,
    ComposerName,
    AlbumName,
    GenreName,
    Size,
    Time,
}

/// One term of an ORDER BY.
#[derive(Clone, Copy, Debug, PartialEq, Eq, Structural)]
pub struct SortTerm {
    pub column: SortColumn,
    pub descending: bool,
}

/// The column of a sort key, and whether it sorts descending.
pub open spec fn key_term(o: Order) -> SortTerm {
    match o {
        Order::ByName => SortTerm { column: SortColumn::Name, descending: false },
        Order::ByReleaseDate => SortTerm { column: SortColumn::ReleaseDate, descending: false },
        Order::ByAddedDate => SortTerm { column: SortColumn::AddedDate, descending: false },
        Order::ByModifiedDate => SortTerm { column: SortColumn::ModifiedDate, descending: false },
        Order::ByArtist => SortTerm { column: SortColumn::ArtistName, descending: false },
        Order::ByAlbumArtist => SortTerm { column: SortColumn::AlbumArtistName, descending: false },
        Order::ByComposer => SortTerm { column: SortColumn::ComposerName, descending: false },
        Order::ByAlbum => SortTerm { column: SortColumn::AlbumName, descending: false },
        Order::ByGenre => SortTerm { column: SortColumn::GenreName, descending: false },
        Order::BySize => SortTerm { column: SortColumn::Size, descending: false },
        Order::ByTime => SortTerm { column: SortColumn::Time, descending: false },
        Order::ByNameInverse => SortTerm { column: SortColumn::Name, descending: true },
        Order::ByReleaseDateInverse => SortTerm { column: SortColumn::ReleaseDate, descending: true },
        Order::ByAddedDateInverse => SortTerm { column: SortColumn::AddedDate, descending: true },
        Order::ByModifiedDateInverse => SortTerm { column: SortColumn::ModifiedDate, descending: true },
        Order::ByArtistInverse => SortTerm { column: SortColumn::ArtistName, descending: true },
        Order::ByAlbumArtistInverse => SortTerm { column: SortColumn::AlbumArtistName, descending: true },
        Order::ByComposerInverse => SortTerm { column: SortColumn::ComposerName, descending: true },
        Order::ByAlbumInverse => SortTerm { column: SortColumn::AlbumName, descending: true },
        Order::ByGenreInverse => SortTerm { column: SortColumn::GenreName, descending: true },
        Order::BySizeInverse => SortTerm { column: SortColumn::Size, descending: true },
        Order::ByTimeInverse => SortTerm { column: SortColumn::Time, descending: true },
    }
}

/// Whether a scope can sort by a column.
pub open spec fn sorts_by(scope: SortScope, c: SortColumn) -> bool {
    match scope {
        SortScope::Tracks => c != SortColumn::ModifiedDate,
        SortScope::ComposerTracks => c != SortColumn::ModifiedDate && c != SortColumn::ComposerName,
        SortScope::GenreTracks => c != SortColumn::ModifiedDate && c != SortColumn::GenreName,
        SortScope::Albums => c == SortColumn::Name || c == SortColumn::ReleaseDate || c
            == SortColumn::AddedDate || c == SortColumn::AlbumArtistName || c == SortColumn::GenreName,
        SortScope::Playlists => c == SortColumn::Name || c == SortColumn::AddedDate || c
            == SortColumn::ModifiedDate,
        _ => c == SortColumn::Name,
    }
}

/// The terms of a list of sort keys, in order, without those the scope
/// cannot sort by.
pub open spec fn terms_of(scope: SortScope, keys: Seq<Order>) -> Seq<SortTerm>
    decreases keys.len(),
{
    if keys.len() == 0 {
        Seq::empty()
    } else if sorts_by(scope, key_term(keys.last()).column) {
        terms_of(scope, keys.drop_last()).push(key_term(keys.last()))
    } else {
        terms_of(scope, keys.drop_last())
    }
}

fn term_of(o: Order) -> (r: SortTerm)
    ensures
        r == key_term(o),
{
    match o {
        Order::ByName => SortTerm { column: SortColumn::Name, descending: false },
        Order::ByReleaseDate => SortTerm { column: SortColumn::ReleaseDate, descending: false },
        Order::ByAddedDate => SortTerm { column: SortColumn::AddedDate, descending: false },
        Order::ByModifiedDate => SortTerm { column: SortColumn::ModifiedDate, descending: false },
        Order::ByArtist => SortTerm { column: SortColumn::ArtistName, descending: false },
        Order::ByAlbumArtist => SortTerm { column: SortColumn::AlbumArtistName, descending: false },
        Order::ByComposer => SortTerm { column: SortColumn::ComposerName, descending: false },
        Order::ByAlbum => SortTerm { column: SortColumn::AlbumName, descending: false },
        Order::ByGenre => SortTerm { column: SortColumn::GenreName, descending: false },
        Order::BySize => SortTerm { column: SortColumn::Size, descending: false },
        Order::ByTime => SortTerm { column: SortColumn::Time, descending: false },
        Order::ByNameInverse => SortTerm { column: SortColumn::Name, descending: true },
        Order::ByReleaseDateInverse => SortTerm { column: SortColumn::ReleaseDate, descending: true },
        Order::ByAddedDateInverse => SortTerm { column: SortColumn::AddedDate, descending: true },
        Order::ByModifiedDateInverse => SortTerm { column: SortColumn::ModifiedDate, descending: true },
        Order::ByArtistInverse => SortTerm { column: SortColumn::ArtistName, descending: true },
        Order::ByAlbumArtistInverse => SortTerm { column: SortColumn::AlbumArtistName, descending: true },
        Order::ByComposerInverse => SortTerm { column: SortColumn::ComposerName, descending: true },
        Order::ByAlbumInverse => SortTerm { column: SortColumn::AlbumName, descending: true },
        Order::ByGenreInverse => SortTerm { column: SortColumn::GenreName, descending: true },
        Order::BySizeInverse => SortTerm { column: SortColumn::Size, descending: true },
        Order::ByTimeInverse => SortTerm { column: SortColumn::Time, descending: true },
    }
}

fn can_sort_by(scope: SortScope, c: SortColumn) -> (r: bool)
    ensures
        r == sorts_by(scope, c),
{
    match scope {
        SortScope::Tracks => c != SortColumn::ModifiedDate,
        SortScope::ComposerTracks => c != SortColumn::ModifiedDate && c != SortColumn::ComposerName,
        SortScope::GenreTracks => c != SortColumn::ModifiedDate && c != SortColumn::GenreName,
        SortScope::Albums => c == SortColumn::Name || c == SortColumn::ReleaseDate || c
            == SortColumn::AddedDate || c == SortColumn::AlbumArtistName || c == SortColumn::GenreName,
        SortScope::Playlists => c == SortColumn::Name || c == SortColumn::AddedDate || c
            == SortColumn::ModifiedDate,
        _ => c == SortColumn::Name,
    }
}

/// The terms of a list of sort keys, in their order; a key that the scope
/// cannot sort by is left out.
pub fn sort_terms(scope: SortScope, keys: &Vec<Order>) -> (r: Vec<SortTerm>)
    ensures
        r@ == terms_of(scope, keys@),
{
    let mut r: Vec<SortTerm> = Vec::new();
    let mut k: usize = 0;
    while k < keys.len()
        invariant
            0 <= k <= keys@.len(),
            r@ == terms_of(scope, keys@.subrange(0, k as int)),
        decreases keys@.len() - k,
    {
        let ghost next = keys@.subrange(0, k + 1);
        assert(next.drop_last() =~= keys@.subrange(0, k as int));
        let t = term_of(keys[k]);
        if can_sort_by(scope, t.column) {
            r.push(t);
        }
        k = k + 1;
    }
    assert(keys@.subrange(0, k as int) =~= keys@);
    r
}

pub const TRACK_JOINS: &'static str = " LEFT JOIN Artists Artist ON Tracks.artist_id = Artist.artist_id LEFT JOIN Artists AlbumArtist ON Tracks.album_artist_id = AlbumArtist.artist_id LEFT JOIN Composers ON Tracks.composer_id = Composers.composer_id LEFT JOIN Albums ON Tracks.album_id = Albums.album_id LEFT JOIN Genres ON Tracks.genre_id = Genres.genre_id";

pub const TRACKS_SELECT: &'static str = "SELECT track_id FROM Tracks";

pub const PLAYABLE_SELECT: &'static str = "SELECT track_id, location FROM Tracks";

pub const BY_COMPOSER: &'static str = " WHERE Tracks.composer_id = ?1";

pub const BY_GENRE: &'static str = " WHERE Tracks.genre_id = ?1";

pub const ALBUMS_SELECT: &'static str = "SELECT album_id FROM Albums LEFT JOIN Genres ON Albums.genre_id = Genres.genre_id LEFT JOIN Artists ON Albums.artist_id = Artists.artist_id";

pub const ARTISTS_SELECT: &'static str = "SELECT artist_id FROM Artists";

pub const COMPOSERS_SELECT: &'static str = "SELECT composer_id FROM Composers";

pub const GENRES_SELECT: &'static str = "SELECT genre_id FROM Genres";

pub const PLAYLISTS_SELECT: &'static str = "SELECT playlist_id FROM Playlists";

/// The query of a scope without its ordering.
pub open spec fn select_sql(scope: SortScope) -> Seq<char> {
    match scope {
        SortScope::Tracks => TRACKS_SELECT@ + TRACK_JOINS@,
        SortScope::ComposerTracks => PLAYABLE_SELECT@ + TRACK_JOINS@ + BY_COMPOSER@,
        SortScope::GenreTracks => PLAYABLE_SELECT@ + TRACK_JOINS@ + BY_GENRE@,
        SortScope::Albums => ALBUMS_SELECT@,
        SortScope::Artists => ARTISTS_SELECT@,
        SortScope::Composers => COMPOSERS_SELECT@,
        SortScope::Genres => GENRES_SELECT@,
        SortScope::Playlists => PLAYLISTS_SELECT@,
    }
}

/// The expression that a column sorts by in a scope.
pub open spec fn column_sql(scope: SortScope, c: SortColumn) -> Seq<char> {
    match scope {
        SortScope::Tracks | SortScope::ComposerTracks | SortScope::GenreTracks => match c {
            SortColumn::Name => "LOWER(Tracks.name)"@,
            SortColumn::ReleaseDate => "Tracks.release_date"@,
            SortColumn::AddedDate => "Tracks.date_added"@,
            SortColumn::ModifiedDate => "Tracks.date_modified"@,
            SortColumn::ArtistName => "LOWER(Artist.name)"@,
            SortColumn::AlbumArtistName => "LOWER(AlbumArtist.name)"@,
            SortColumn::ComposerName => "LOWER(Composers.name)"@,
            SortColumn::AlbumName => "LOWER(Albums.name)"@,
            SortColumn::GenreName => "LOWER(Genres.name)"@,
            SortColumn::Size => "size"@,
            SortColumn::Time => "total_time"@,
        },
        SortScope::Albums => match c {
            SortColumn::Name => "LOWER(Albums.name)"@,
            SortColumn::ReleaseDate => "release_date"@,
            SortColumn::AddedDate => "date_added"@,
            SortColumn::AlbumArtistName => "LOWER(Artists.name)"@,
            SortColumn::GenreName => "LOWER(Genres.name)"@,
            _ => "album_id"@,
        },
        _ => match c {
            SortColumn::AddedDate => "date_added"@,
            SortColumn::ModifiedDate => "date_modified"@,
            _ => "LOWER(name)"@,
        },
    }
}

fn column_text(scope: SortScope, c: SortColumn) -> (r: &'static str)
    ensures
        r@ == column_sql(scope, c),
{
    match scope {
        SortScope::Tracks | SortScope::ComposerTracks | SortScope::GenreTracks => match c {
            SortColumn::Name => "LOWER(Tracks.name)",
            SortColumn::ReleaseDate => "Tracks.release_date",
            SortColumn::AddedDate => "Tracks.date_added",
            SortColumn::ModifiedDate => "Tracks.date_modified",
            SortColumn::ArtistName => "LOWER(Artist.name)",
            SortColumn::AlbumArtistName => "LOWER(AlbumArtist.name)",
            SortColumn::ComposerName => "LOWER(Composers.name)",
            SortColumn::AlbumName => "LOWER(Albums.name)",
            SortColumn::GenreName => "LOWER(Genres.name)",
            SortColumn::Size => "size",
            SortColumn::Time => "total_time",
        },
        SortScope::Albums => match c {
            SortColumn::Name => "LOWER(Albums.name)",
            SortColumn::ReleaseDate => "release_date",
            SortColumn::AddedDate => "date_added",
            SortColumn::AlbumArtistName => "LOWER(Artists.name)",
            SortColumn::GenreName => "LOWER(Genres.name)",
            _ => "album_id",
        },
        _ => match c {
            SortColumn::AddedDate => "date_added",
            SortColumn::ModifiedDate => "date_modified",
            _ => "LOWER(name)",
        },
    }
}

/// One term as SQL: its expression, then ASC or DESC.
pub open spec fn term_sql(scope: SortScope, t: SortTerm) -> Seq<char> {
    column_sql(scope, t.column) + if t.descending {
        " DESC"@
    } else {
        " ASC"@
    }
}

/// The terms as SQL, separated by commas.
pub open spec fn terms_sql(scope: SortScope, terms: Seq<SortTerm>) -> Seq<char>
    decreases terms.len(),
{
    if terms.len() == 0 {
        Seq::empty()
    } else if terms.len() == 1 {
        term_sql(scope, terms[0])
    } else {
        terms_sql(scope, terms.drop_last()) + ", "@ + term_sql(scope, terms.last())
    }
}

/// The sorted query: the scope's query, then, where any term is left, ORDER
/// BY and the terms.
pub open spec fn ordered_sql(scope: SortScope, keys: Seq<Order>) -> Seq<char> {
    if terms_of(scope, keys).len() == 0 {
        select_sql(scope)
    } else {
        select_sql(scope) + " ORDER BY "@ + terms_sql(scope, terms_of(scope, keys))
    }
}

fn append_str(out: &mut Vec<char>, s: &str)
    ensures
        final(out)@ == old(out)@ + s@,
{
    let mut cs = chars_of(s);
    out.append(&mut cs);
}

fn select_text(out: &mut Vec<char>, scope: SortScope)
    ensures
        final(out)@ == old(out)@ + select_sql(scope),
{
    let ghost start = out@;
    match scope {
        SortScope::Tracks => {
            append_str(out, TRACKS_SELECT);
            append_str(out, TRACK_JOINS);
        },
        SortScope::ComposerTracks => {
            append_str(out, PLAYABLE_SELECT);
            append_str(out, TRACK_JOINS);
            append_str(out, BY_COMPOSER);
        },
        SortScope::GenreTracks => {
            append_str(out, PLAYABLE_SELECT);
            append_str(out, TRACK_JOINS);
            append_str(out, BY_GENRE);
        },
        SortScope::Albums => append_str(out, ALBUMS_SELECT),
        SortScope::Artists => append_str(out, ARTISTS_SELECT),
        SortScope::Composers => append_str(out, COMPOSERS_SELECT),
        SortScope::Genres => append_str(out, GENRES_SELECT),
        SortScope::Playlists => append_str(out, PLAYLISTS_SELECT),
    }
    assert(out@ =~= start + select_sql(scope));
}

/// The terms as SQL, separated by commas.
pub fn order_by_sql(scope: SortScope, terms: &Vec<SortTerm>) -> (r: String)
    ensures
        r@ == terms_sql(scope, terms@),
{
    let mut out: Vec<char> = Vec::new();
    let mut k: usize = 0;
    while k < terms.len()
        invariant
            0 <= k <= terms@.len(),
            out@ == terms_sql(scope, terms@.subrange(0, k as int)),
        decreases terms@.len() - k,
    {
        let ghost next = terms@.subrange(0, k + 1);
        assert(next.drop_last() =~= terms@.subrange(0, k as int));
        if k > 0 {
            append_str(&mut out, ", ");
        }
        let t = terms[k];
        append_str(&mut out, column_text(scope, t.column));
        if t.descending {
            append_str(&mut out, " DESC");
        } else {
            append_str(&mut out, " ASC");
        }
        k = k + 1;
        if k == 1 {
            assert(out@ =~= terms_sql(scope, next));
        } else {
            assert(out@ =~= terms_sql(scope, next));
        }
    }
    assert(terms@.subrange(0, k as int) =~= terms@);
    string_of(&out)
}

/// The query that lists a scope's ids sorted by `keys`.
pub fn ordered_query(scope: SortScope, keys: &Vec<Order>) -> (r: String)
    ensures
        r@ == ordered_sql(scope, keys@),
{
    let terms = sort_terms(scope, keys);
    let mut out: Vec<char> = Vec::new();
    select_text(&mut out, scope);
    if terms.len() > 0 {
        append_str(&mut out, " ORDER BY ");
        let by = order_by_sql(scope, &terms);
        let mut cs = chars_of(by.as_str());
        out.append(&mut cs);
    }
    assert(out@ =~= ordered_sql(scope, keys@));
    string_of(&out)
}

} // verus!
