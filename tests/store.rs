use anmutunes::catalog::{chunk_bounds, values_placeholders, TRACK_BATCH_ROWS};
use anmutunes::defs::Order;
use anmutunes::ordering::{ordered_query, SortScope};
use sqlite::{Connection, State};

const SCHEMA: &str = "
    CREATE TABLE Tracks (track_id INTEGER PRIMARY KEY AUTOINCREMENT, orig_track_id INTEGER NOT NULL,
        name TEXT, artist_id INTEGER, album_artist_id INTEGER, composer_id INTEGER, album_id INTEGER,
        genre_id INTEGER, size INTEGER, total_time INTEGER, release_date TEXT, date_added TEXT,
        date_modified TEXT, location TEXT);
    CREATE TABLE Artists (artist_id INTEGER PRIMARY KEY AUTOINCREMENT, name TEXT UNIQUE, sort_artist TEXT);
    CREATE TABLE Composers (composer_id INTEGER PRIMARY KEY AUTOINCREMENT, name TEXT UNIQUE);
    CREATE TABLE Genres (genre_id INTEGER PRIMARY KEY AUTOINCREMENT, name TEXT UNIQUE);
    CREATE TABLE Albums (album_id INTEGER PRIMARY KEY AUTOINCREMENT, artist_id INTEGER, name TEXT,
        release_date TEXT, date_added TEXT, genre_id INTEGER);
";

fn store() -> Connection {
    let conn = sqlite::open(":memory:").unwrap();
    conn.execute(SCHEMA).unwrap();
    conn
}

fn insert_batched(conn: &Connection, rows: &[(i64, String)], chunk: usize) {
    for (a, b) in chunk_bounds(rows.len(), chunk) {
        let q = format!(
            "INSERT INTO Tracks (orig_track_id, name) VALUES {}",
            values_placeholders(b - a, 2)
        );
        let mut stmt = conn.prepare(q).unwrap();
        for (i, (orig, name)) in rows[a..b].iter().enumerate() {
            stmt.bind((2 * i + 1, *orig)).unwrap();
            stmt.bind((2 * i + 2, name.as_str())).unwrap();
        }
        assert_eq!(stmt.next().unwrap(), State::Done);
    }
}

fn column(conn: &Connection, q: &str) -> Vec<i64> {
    let mut stmt = conn.prepare(q).unwrap();
    let mut out = vec![];
    while let Ok(State::Row) = stmt.next() {
        out.push(stmt.read::<i64, _>(0).unwrap());
    }
    out
}

#[test]
fn batch_insert_of_five_thousand_tracks() {
    let rows: Vec<(i64, String)> = (1..=5000).map(|i| (i, format!("t{}", i))).collect();
    for chunk in [TRACK_BATCH_ROWS, 7, 4096] {
        let conn = store();
        insert_batched(&conn, &rows, chunk);
        assert_eq!(column(&conn, "SELECT COUNT(*) FROM Tracks"), vec![5000]);
        assert_eq!(column(&conn, "SELECT COUNT(DISTINCT orig_track_id) FROM Tracks"), vec![5000]);
        let origins = column(&conn, "SELECT orig_track_id FROM Tracks ORDER BY orig_track_id");
        assert_eq!(origins, (1..=5000).collect::<Vec<i64>>());
    }
}

#[test]
fn tracks_ordered_by_name_ignore_case() {
    let names = ["beta", "Alpha", "gamma", "ALPHA2", "Beta0", "delta"];
    let rows: Vec<(i64, String)> = names.iter().enumerate().map(|(i, n)| (i as i64 + 1, n.to_string())).collect();
    let conn = store();
    insert_batched(&conn, &rows, TRACK_BATCH_ROWS);
    let ids = column(&conn, &ordered_query(SortScope::Tracks, &vec![Order::ByName]));
    assert_eq!(ids.len(), names.len());
    let ordered: Vec<String> = ids.iter().map(|id| names[(*id - 1) as usize].to_lowercase()).collect();
    for w in ordered.windows(2) {
        assert!(w[0] <= w[1], "{:?}", ordered);
    }
    let mut sorted_ids = ids.clone();
    sorted_ids.sort();
    assert_eq!(sorted_ids, vec![1, 2, 3, 4, 5, 6]);
    let inverse = column(&conn, &ordered_query(SortScope::Tracks, &vec![Order::ByNameInverse]));
    let mut rev = ids.clone();
    rev.reverse();
    assert_eq!(inverse, rev);
}
