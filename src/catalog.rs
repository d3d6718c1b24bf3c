//! Catalog rules that do not depend on the store: which entities a deletion
//! leaves unused, how a bulk write is cut into statements, and how values
//! are written into rows.
use crate::defs::Image;
use crate::text::{chars_of, decimal_of, digits_of, parse_i64, push_digits, string_of};
use vstd::prelude::*;

verus! {

/// The entity kinds that tracks refer to.
#[derive(Clone, Copy, Debug, PartialEq, Eq, Structural)]
pub enum EntityKind {
    Artist,
    Composer,
    Album,
    Genre,
}

/// The references of one track row.
#[derive(Clone, Copy, Debug, PartialEq, Eq, Structural)]
pub struct TrackRefs {
    pub artist_id: i64,
    pub album_artist_id: i64,
    pub composer_id: i64,
    pub album_id: i64,
    pub genre_id: i64,
}

/// Whether a track refers to entity `id` of kind `kind`. An artist is
/// referred to as artist and as album artist.
pub open spec fn refers_to(t: TrackRefs, kind: EntityKind, id: i64) -> bool {
    match kind {
        EntityKind::Artist => t.artist_id == id || t.album_artist_id == id,
        EntityKind::Composer => t.composer_id == id,
        EntityKind::Album => t.album_id == id,
        EntityKind::Genre => t.genre_id == id,
    }
}

/// Whether some track of `tracks` refers to the entity.
pub open spec fn referenced(tracks: Seq<TrackRefs>, kind: EntityKind, id: i64) -> bool {
    exists|k: int| 0 <= k < tracks.len() && refers_to(#[trigger] tracks[k], kind, id)
}

/// The ids of `ids` that no track refers to, in order.
pub open spec fn unused(ids: Seq<i64>, tracks: Seq<TrackRefs>, kind: EntityKind) -> Seq<i64> {
    ids.filter(|id: i64| !referenced(tracks, kind, id))
}

fn refers(t: &TrackRefs, kind: EntityKind, id: i64) -> (r: bool)
    ensures
        r == refers_to(*t, kind, id),
{
    match kind {
        EntityKind::Artist => t.artist_id == id || t.album_artist_id == id,
        EntityKind::Composer => t.composer_id == id,
        EntityKind::Album => t.album_id == id,
        EntityKind::Genre => t.genre_id == id,
    }
}

fn is_referenced(tracks: &Vec<TrackRefs>, kind: EntityKind, id: i64) -> (r: bool)
    ensures
        r == referenced(tracks@, kind, id),
{
    let mut k: usize = 0;
    while k < tracks.len()
        invariant
            0 <= k <= tracks@.len(),
            forall|j: int| 0 <= j < k ==> !refers_to(#[trigger] tracks@[j], kind, id),
        decreases tracks@.len() - k,
    {
        if refers(&tracks[k], kind, id) {
            return true;
        }
        k = k + 1;
    }
    false
}

/// The entities of kind `kind` among `ids` that the remaining tracks no
/// longer refer to: what the clean-up after a deletion removes.
pub fn unused_entries(ids: &Vec<i64>, tracks: &Vec<TrackRefs>, kind: EntityKind) -> (r: Vec<i64>)
    ensures
        r@ == unused(ids@, tracks@, kind),
{
    let mut r: Vec<i64> = Vec::new();
    let mut k: usize = 0;
    while k < ids.len()
        invariant
            0 <= k <= ids@.len(),
            r@ == unused(ids@.subrange(0, k as int), tracks@, kind),
        decreases ids@.len() - k,
    {
        let ghost next = ids@.subrange(0, k + 1);
        assert(next.drop_last() =~= ids@.subrange(0, k as int));
        let id = ids[k];
        if !is_referenced(tracks, kind, id) {
            r.push(id);
        }
        k = k + 1;
        proof {
            next.drop_last().lemma_filter_push(id, |i: i64| !referenced(tracks@, kind, i));
            assert(next.drop_last().push(id) =~= next);
        }
    }
    assert(ids@.subrange(0, k as int) =~= ids@);
    r
}

/// The tracks that remain once the positions in `deleted` are removed.
pub open spec fn remaining(tracks: Seq<TrackRefs>, deleted: Set<int>) -> Seq<TrackRefs>
    decreases tracks.len(),
{
    if tracks.len() == 0 {
        tracks
    } else if deleted.contains(tracks.len() - 1) {
        remaining(tracks.drop_last(), deleted)
    } else {
        remaining(tracks.drop_last(), deleted).push(tracks.last())
    }
}

proof fn lemma_remaining_refs(tracks: Seq<TrackRefs>, deleted: Set<int>, kind: EntityKind, id: i64)
    ensures
        referenced(remaining(tracks, deleted), kind, id) <==> exists|k: int|
            0 <= k < tracks.len() && !deleted.contains(k) && refers_to(
                #[trigger] tracks[k],
                kind,
                id,
            ),
    decreases tracks.len(),
{
    if tracks.len() > 0 {
        let init = tracks.drop_last();
        lemma_remaining_refs(init, deleted, kind, id);
        let rest = remaining(init, deleted);
        let last = tracks.len() - 1;
        if referenced(remaining(tracks, deleted), kind, id) {
            let j = choose|j: int|
                0 <= j < remaining(tracks, deleted).len() && refers_to(
                    #[trigger] remaining(tracks, deleted)[j],
                    kind,
                    id,
                );
            if !deleted.contains(last) && j == rest.len() {
                assert(refers_to(tracks[last], kind, id));
            } else {
                assert(remaining(tracks, deleted)[j] == rest[j]);
                assert(referenced(rest, kind, id));
                let k = choose|k: int|
                    0 <= k < init.len() && !deleted.contains(k) && refers_to(#[trigger] init[k], kind, id);
                assert(tracks[k] == init[k]);
            }
        }
        if exists|k: int|
            0 <= k < tracks.len() && !deleted.contains(k) && refers_to(#[trigger] tracks[k], kind, id) {
            let k = choose|k: int|
                0 <= k < tracks.len() && !deleted.contains(k) && refers_to(#[trigger] tracks[k], kind, id);
            if k == last {
                let r = remaining(tracks, deleted);
                assert(r[r.len() - 1] == tracks[last]);
            } else {
                assert(init[k] == tracks[k]);
                assert(referenced(rest, kind, id));
                let j = choose|j: int| 0 <= j < rest.len() && refers_to(#[trigger] rest[j], kind, id);
                let r = remaining(tracks, deleted);
                assert(r[j] == rest[j]);
            }
        }
    }
}

/// Deleting every track that refers to an entity makes the clean-up remove
/// it; where some track that refers to it stays, the entity stays too.
pub proof fn lemma_cleanup_after_delete(
    ids: Seq<i64>,
    tracks: Seq<TrackRefs>,
    deleted: Set<int>,
    kind: EntityKind,
    id: i64,
)
    requires
        ids.contains(id),
    ensures
        (forall|k: int| 0 <= k < tracks.len() && refers_to(#[trigger] tracks[k], kind, id) ==> deleted.contains(k))
            ==> unused(ids, remaining(tracks, deleted), kind).contains(id),
        (exists|k: int| 0 <= k < tracks.len() && !deleted.contains(k) && refers_to(#[trigger] tracks[k], kind, id))
            ==> !unused(ids, remaining(tracks, deleted), kind).contains(id),
{
    lemma_remaining_refs(tracks, deleted, kind, id);
    let keep = |i: i64| !referenced(remaining(tracks, deleted), kind, i);
    let f = ids.filter(keep);
    if !referenced(remaining(tracks, deleted), kind, id) {
        let j = choose|j: int| 0 <= j < ids.len() && ids[j] == id;
        ids.lemma_filter_contains(keep, j);
    } else if f.contains(id) {
        let j = choose|j: int| 0 <= j < f.len() && f[j] == id;
        ids.lemma_filter_pred(keep, j);
    }
}

/// Rows per statement of a bulk track insert: 31 bound values per row stay
/// well below the store's limit on bound values.
pub const TRACK_BATCH_ROWS: usize = 1000;

/// Whether `bounds` cuts `0..n` into consecutive non-empty pieces of at most
/// `chunk` rows.
pub open spec fn cuts(bounds: Seq<(usize, usize)>, n: int, chunk: int) -> bool {
    &&& forall|k: int| 0 <= k < bounds.len() ==> #[trigger] bounds[k].0 < bounds[k].1 <= bounds[k].0 + chunk
    &&& forall|k: int| 0 < k < bounds.len() ==> #[trigger] bounds[k].0 == bounds[k - 1].1
    &&& n == 0 ==> bounds.len() == 0
    &&& n > 0 ==> bounds.len() > 0 && bounds[0].0 == 0 && bounds.last().1 == n
}

/// Cuts `0..n` into consecutive pieces of `chunk` rows (the last may be shorter).
pub fn chunk_bounds(n: usize, chunk: usize) -> (r: Vec<(usize, usize)>)
    requires
        chunk > 0,
    ensures
        cuts(r@, n as int, chunk as int),
        forall|k: int| 0 <= k < r@.len() - 1 ==> #[trigger] r@[k].1 == r@[k].0 + chunk,
{
    let mut r: Vec<(usize, usize)> = Vec::new();
    let mut start: usize = 0;
    while start < n
        invariant
            start <= n,
            chunk > 0,
            forall|k: int| 0 <= k < r@.len() ==> #[trigger] r@[k].0 < r@[k].1 <= r@[k].0 + chunk,
            forall|k: int| 0 < k < r@.len() ==> #[trigger] r@[k].0 == r@[k - 1].1,
            start == 0 <==> r@.len() == 0,
            r@.len() > 0 ==> r@[0].0 == 0 && r@.last().1 == start,
            forall|k: int| 0 <= k < r@.len() - 1 ==> #[trigger] r@[k].1 == r@[k].0 + chunk,
            r@.len() > 0 && start < n ==> r@.last().1 == r@.last().0 + chunk,
        decreases n - start,
    {
        let end: usize = if n - start > chunk {
            start + chunk
        } else {
            n
        };
        r.push((start, end));
        start = end;
    }
    r
}

/// The rows of `s` that the pieces `bounds` select, one piece after another.
pub open spec fn pieces<A>(s: Seq<A>, bounds: Seq<(usize, usize)>) -> Seq<A>
    decreases bounds.len(),
{
    if bounds.len() == 0 {
        Seq::empty()
    } else {
        pieces(s, bounds.drop_last()) + s.subrange(bounds.last().0 as int, bounds.last().1 as int)
    }
}

proof fn lemma_pieces_prefix<A>(s: Seq<A>, bounds: Seq<(usize, usize)>, chunk: int)
    requires
        bounds.len() > 0,
        cuts(bounds, bounds.last().1 as int, chunk),
        bounds.last().1 <= s.len(),
    ensures
        pieces(s, bounds) == s.subrange(0, bounds.last().1 as int),
    decreases bounds.len(),
{
    if bounds.len() == 1 {
        assert(pieces(s, bounds.drop_last()) =~= Seq::<A>::empty());
        assert(pieces(s, bounds) =~= s.subrange(0, bounds.last().1 as int));
    } else {
        let init = bounds.drop_last();
        let n = bounds.len();
        assert forall|k: int| 0 <= k < init.len() implies #[trigger] init[k].0 < init[k].1 <= init[k].0
            + chunk by {
            assert(init[k] == bounds[k]);
        }
        assert forall|k: int| 0 < k < init.len() implies #[trigger] init[k].0 == init[k - 1].1 by {
            assert(init[k] == bounds[k]);
            assert(init[k - 1] == bounds[k - 1]);
        }
        assert(init.last() == bounds[n - 2]);
        assert(bounds[n - 1].0 == bounds[n - 2].1);
        assert(init[0] == bounds[0]);
        assert(init.last().0 < init.last().1);
        assert(init.len() > 0 && init[0].0 == 0);
        assert(cuts(init, init.last().1 as int, chunk));
        assert(init.last().1 <= s.len());
        lemma_pieces_prefix(s, init, chunk);
        assert(pieces(s, bounds) =~= s.subrange(0, bounds.last().1 as int));
    }
}

/// Writing rows in the pieces of a cut writes each row exactly once, in
/// order, whatever the piece size.
pub proof fn lemma_pieces_cover<A>(s: Seq<A>, bounds: Seq<(usize, usize)>, chunk: int)
    requires
        cuts(bounds, s.len() as int, chunk),
    ensures
        pieces(s, bounds) == s,
{
    if s.len() == 0 {
        assert(pieces(s, bounds) =~= s);
    } else {
        lemma_pieces_prefix(s, bounds, chunk);
        assert(s.subrange(0, s.len() as int) =~= s);
    }
}

/// One row of placeholders: "(?, ?, ..., ?)" with `cols` marks.
pub open spec fn row_marks(cols: nat) -> Seq<char>
    decreases cols,
{
    if cols <= 1 {
        "(?)"@
    } else {
        row_marks((cols - 1) as nat).drop_last() + ", ?)"@
    }
}

/// `rows` rows of placeholders, separated by commas.
pub open spec fn values_marks(rows: nat, cols: nat) -> Seq<char>
    decreases rows,
{
    if rows == 0 {
        Seq::empty()
    } else if rows == 1 {
        row_marks(cols)
    } else {
        values_marks((rows - 1) as nat, cols) + ", "@ + row_marks(cols)
    }
}

proof fn lemma_row_marks_step(k: nat)
    requires
        k >= 1,
    ensures
        row_marks(k).len() >= 3,
        row_marks(k).last() == ')',
        row_marks(k) == row_marks(k).drop_last().push(')'),
        k == 1 ==> row_marks(k).drop_last() == seq!['(', '?'],
        k >= 2 ==> row_marks(k).drop_last() == row_marks((k - 1) as nat).drop_last() + seq![',', ' ', '?'],
    decreases k,
{
    reveal_strlit("(?)");
    reveal_strlit(", ?)");
    if k == 1 {
        assert(row_marks(k).drop_last() =~= seq!['(', '?']);
    } else {
        lemma_row_marks_step((k - 1) as nat);
        let m = row_marks((k - 1) as nat);
        assert(row_marks(k) == m.drop_last() + ", ?)"@);
        assert(row_marks(k).drop_last() =~= m.drop_last() + seq![',', ' ', '?']);
    }
    assert(row_marks(k) =~= row_marks(k).drop_last().push(')'));
}

fn push_row_marks(out: &mut Vec<char>, cols: usize)
    requires
        cols >= 1,
    ensures
        final(out)@ == old(out)@ + row_marks(cols as nat),
{
    out.push('(');
    out.push('?');
    proof {
        lemma_row_marks_step(1);
        assert(out@ =~= old(out)@ + row_marks(1).drop_last());
    }
    let mut k: usize = 1;
    while k < cols
        invariant
            1 <= k <= cols,
            out@ == old(out)@ + row_marks(k as nat).drop_last(),
        decreases cols - k,
    {
        out.push(',');
        out.push(' ');
        out.push('?');
        k = k + 1;
        proof {
            lemma_row_marks_step(k as nat);
            assert(out@ =~= old(out)@ + row_marks(k as nat).drop_last());
        }
    }
    out.push(')');
    proof {
        lemma_row_marks_step(cols as nat);
        assert(out@ =~= old(out)@ + row_marks(cols as nat));
    }
}

/// The placeholders of a bulk insert of `rows` rows with `cols` values each.
pub fn values_placeholders(rows: usize, cols: usize) -> (r: String)
    requires
        cols >= 1,
    ensures
        r@ == values_marks(rows as nat, cols as nat),
{
    let mut out: Vec<char> = Vec::new();
    let mut k: usize = 0;
    while k < rows
        invariant
            0 <= k <= rows,
            cols >= 1,
            out@ == values_marks(k as nat, cols as nat),
        decreases rows - k,
    {
        if k > 0 {
            out.push(',');
            out.push(' ');
        }
        proof {
            reveal_strlit(", ");
        }
        push_row_marks(&mut out, cols);
        k = k + 1;
        assert(out@ =~= values_marks(k as nat, cols as nat));
    }
    string_of(&out)
}

/// The Base64 digit of a 6-bit value, in the standard alphabet.
pub open spec fn base64_digit(n: int) -> char {
    if n < 26 {
        ('A' as u8 + n as u8) as char
    } else if n < 52 {
        ('a' as u8 + (n - 26) as u8) as char
    } else if n < 62 {
        ('0' as u8 + (n - 52) as u8) as char
    } else if n == 62 {
        '+'
    } else {
        '/'
    }
}

/// The standard Base64 text of a byte string: four digits for each three
/// bytes, the last group padded with '='.
pub open spec fn base64_of(b: Seq<u8>) -> Seq<char>
    decreases b.len(),
{
    if b.len() == 0 {
        Seq::empty()
    } else if b.len() == 1 {
        let x = b[0] as int;
        seq![base64_digit(x / 4), base64_digit((x % 4) * 16), '=', '=']
    } else if b.len() == 2 {
        let x = b[0] as int;
        let y = b[1] as int;
        seq![base64_digit(x / 4), base64_digit((x % 4) * 16 + y / 16), base64_digit((y % 16) * 4), '=']
    } else {
        let x = b[0] as int;
        let y = b[1] as int;
        let z = b[2] as int;
        seq![
            base64_digit(x / 4),
            base64_digit((x % 4) * 16 + y / 16),
            base64_digit((y % 16) * 4 + z / 64),
            base64_digit(z % 64),
        ] + base64_of(b.skip(3))
    }
}

/// Relies on base64's `STANDARD.encode`: the standard Base64 text of the
/// bytes, with padding.
#[verifier::external_body]
fn encode_base64(data: &Vec<u8>) -> (r: String)
    ensures
        r@ == base64_of(data@),
{
    base64::Engine::encode(&base64::engine::general_purpose::STANDARD, data)
}

/// A picture as a data URL: "data:<media type>;base64,<text>".
pub open spec fn data_url(media_type: Seq<char>, b64: Seq<char>) -> Seq<char> {
    "data:"@ + media_type + ";base64,"@ + b64
}

/// Writes a cover picture as a data URL, given its Base64 text.
pub fn data_url_of(media_type: &str, b64: &str) -> (r: String)
    ensures
        r@ == data_url(media_type@, b64@),
{
    let mut out = chars_of("data:");
    let mut m = chars_of(media_type);
    out.append(&mut m);
    let mut sep = chars_of(";base64,");
    out.append(&mut sep);
    let mut b = chars_of(b64);
    out.append(&mut b);
    assert(out@ =~= data_url(media_type@, b64@));
    string_of(&out)
}

/// A cover picture as the data URL that the catalog stores.
pub fn cover_as_base64(cover: &Image) -> (r: String)
    ensures
        r@ == data_url(cover.media_type@, base64_of(cover.data@)),
{
    let b64 = encode_base64(&cover.data);
    data_url_of(cover.media_type.as_str(), b64.as_str())
}

/// The first run of four decimal digits (any script's) in a text.
pub uninterp spec fn year_match(s: Seq<char>) -> Option<Seq<char>>;

/// Relies on regex's `Regex::find` with the pattern `(\d{4})`: the first
/// match, four characters long. The pattern is valid, so building it does
/// not fail.
#[verifier::external_body]
fn find_year_digits(s: &str) -> (r: Option<String>)
    ensures
        match r {
            Some(m) => year_match(s@) == Some(m@) && m@.len() == 4,
            None => year_match(s@) is None,
        },
{
    match regex::Regex::new(r"(\d{4})") {
        Ok(re) => match re.find(s) {
            Some(m) => Some(m.as_str().to_string()),
            None => None,
        },
        Err(_) => None,
    }
}

/// The year that a date text holds: its first four digits, where they are
/// ASCII digits.
pub open spec fn year_of(s: Seq<char>) -> Option<int> {
    match year_match(s) {
        Some(m) => decimal_of(m),
        None => None,
    }
}

/// Reads the year of a date text such as "1999-04-01T00:00:00Z".
pub fn year_from_str(input: &str) -> (r: Option<i64>)
    ensures
        match year_of(input@) {
            Some(y) => r == Some(y as i64),
            None => r is None,
        },
{
    match find_year_digits(input) {
        Some(m) => year_from_digits(m.as_str()),
        None => None,
    }
}

/// The year that four digits found in a date text write.
pub fn year_from_digits(m: &str) -> (r: Option<i64>)
    requires
        m@.len() == 4,
    ensures
        match decimal_of(m@) {
            Some(y) => r == Some(y as i64),
            None => r is None,
        },
{
    let cs = chars_of(m);
    let r = parse_i64(&cs);
    proof {
        if let Some(y) = decimal_of(m@) {
            lemma_four_digits_fit(m@);
        }
    }
    r
}

spec fn pow10(n: nat) -> int
    decreases n,
{
    if n == 0 {
        1
    } else {
        10 * pow10((n - 1) as nat)
    }
}

proof fn lemma_digits_below(s: Seq<char>)
    requires
        crate::text::all_digits(s),
    ensures
        0 <= crate::text::digits_value(s) < pow10(s.len()),
    decreases s.len(),
{
    if s.len() > 0 {
        let init = s.drop_last();
        assert(crate::text::all_digits(init)) by {
            assert forall|i: int| 0 <= i < init.len() implies crate::text::is_digit(#[trigger] init[i]) by {
                assert(init[i] == s[i]);
            }
        }
        lemma_digits_below(init);
        let a = crate::text::digits_value(init);
        let d = crate::text::digit_value(s.last());
        assert(crate::text::is_digit(s[s.len() - 1]));
        let p = pow10(init.len());
        assert(0 <= a * 10 + d < 10 * p) by (nonlinear_arith)
            requires
                0 <= a < p,
                0 <= d <= 9,
        ;
    }
}

proof fn lemma_four_digits_fit(m: Seq<char>)
    requires
        m.len() == 4,
        decimal_of(m) is Some,
    ensures
        -10000 < decimal_of(m).unwrap() < 10000,
{
    assert(pow10(4) == 10000) by {
        reveal_with_fuel(pow10, 5);
    }
    assert(pow10(3) == 1000) by {
        reveal_with_fuel(pow10, 4);
    }
    if m.len() > 1 && (m[0] == '-' || m[0] == '+') && crate::text::all_digits(m.skip(1)) {
        lemma_digits_below(m.skip(1));
    } else {
        lemma_digits_below(m);
    }
}

/// The clock's `std::time::SystemTime`, carried from one call to the next.
#[verifier::external_type_specification]
#[verifier::external_body]
pub struct ExSystemTime(std::time::SystemTime);

/// Relies on `SystemTime::now`: the clock's current time.
#[verifier::external_body]
fn clock_now() -> (r: std::time::SystemTime)
{
    std::time::SystemTime::now()
}

/// Relies on `SystemTime::duration_since(UNIX_EPOCH)`: the time since the
/// Unix epoch, in whole seconds; none where `t` lies before the epoch.
#[verifier::external_body]
fn seconds_since_epoch(t: &std::time::SystemTime) -> (r: Option<u64>)
{
    match t.duration_since(std::time::UNIX_EPOCH) {
        Ok(d) => Some(d.as_secs()),
        Err(_) => None,
    }
}

/// Seconds as decimal text.
pub fn timestamp_text(secs: u64) -> (r: String)
    ensures
        r@ == digits_of(secs as nat),
{
    let mut out: Vec<char> = Vec::new();
    push_digits(&mut out, secs);
    assert(out@ =~= digits_of(secs as nat));
    string_of(&out)
}

/// The current time as decimal seconds since the Unix epoch; none where the
/// clock lies before the epoch.
pub fn _get_timestamp() -> (r: Option<String>)
    ensures
        r matches Some(t) ==> exists|secs: nat| t@ == digits_of(secs),
{
    match seconds_since_epoch(&clock_now()) {
        Some(secs) => Some(timestamp_text(secs)),
        None => None,
    }
}


/// The entries of a name index: (natural key, id) pairs.
pub open spec fn index_view(names: Seq<String>, ids: Seq<i64>) -> Seq<(Seq<char>, i64)> {
    Seq::new(names.len(), |i: int| (names[i]@, ids[i]))
}

/// The id that the index holds for `name`: its first entry.
pub open spec fn indexed(m: Seq<(Seq<char>, i64)>, name: Seq<char>) -> Option<i64>
    decreases m.len(),
{
    if m.len() == 0 {
        None
    } else if m[0].0 == name {
        Some(m[0].1)
    } else {
        indexed(m.drop_first(), name)
    }
}

/// How many entries of the index have key `name`.
pub open spec fn entries_named(m: Seq<(Seq<char>, i64)>, name: Seq<char>) -> nat
    decreases m.len(),
{
    if m.len() == 0 {
        0
    } else {
        entries_named(m.drop_first(), name) + if m[0].0 == name {
            1nat
        } else {
            0nat
        }
    }
}

/// A get-or-create through the index: the id it holds for `name`, or else
/// `created` (the id the store assigned on insert), which is recorded.
pub open spec fn resolve_name(m: Seq<(Seq<char>, i64)>, name: Seq<char>, created: i64) -> (Seq<(Seq<char>, i64)>, i64) {
    match indexed(m, name) {
        Some(id) => (m, id),
        None => (m.push((name, created)), created),
    }
}

/// The index after a series of get-or-create calls for one name, with the
/// ids the store would assign on each insert.
pub open spec fn resolve_all(m: Seq<(Seq<char>, i64)>, name: Seq<char>, created: Seq<i64>) -> Seq<(Seq<char>, i64)>
    decreases created.len(),
{
    if created.len() == 0 {
        m
    } else {
        resolve_name(resolve_all(m, name, created.drop_last()), name, created.last()).0
    }
}

/// The id that call `k` of such a series returns.
pub open spec fn resolved_at(m: Seq<(Seq<char>, i64)>, name: Seq<char>, created: Seq<i64>, k: int) -> i64 {
    resolve_name(resolve_all(m, name, created.subrange(0, k)), name, created[k]).1
}

/// The natural keys of the catalog's named entities (artists, composers,
/// genres, albums) mapped to their ids, so that a key is inserted into the
/// store at most once per engine.
pub struct NameIndex {
    names: Vec<String>,
    ids: Vec<i64>,
}

impl View for NameIndex {
    type V = Seq<(Seq<char>, i64)>;

    closed spec fn view(&self) -> Seq<(Seq<char>, i64)> {
        index_view(self.names@, self.ids@)
    }
}

impl NameIndex {
    /// One id per key, and each key once.
    pub closed spec fn wf(&self) -> bool {
        &&& self.names@.len() == self.ids@.len()
        &&& forall|i: int, j: int|
            0 <= i < j < self.names@.len() ==> #[trigger] self.names@[i]@ != #[trigger] self.names@[j]@
    }

    pub fn new() -> (r: NameIndex)
        ensures
            r.wf(),
            r@.len() == 0,
    {
        let r = NameIndex { names: Vec::new(), ids: Vec::new() };
        assert(r@ =~= Seq::<(Seq<char>, i64)>::empty());
        r
    }

    /// The id held for `name`, if any.
    pub fn lookup(&self, name: &str) -> (r: Option<i64>)
        requires
            self.wf(),
        ensures
            r == indexed(self@, name@),
    {
        let key = name.to_owned();
        let mut k: usize = 0;
        assert(self@.skip(0) =~= self@);
        while k < self.names.len()
            invariant
                self.wf(),
                0 <= k <= self.names@.len(),
                key@ == name@,
                indexed(self@, name@) == indexed(self@.skip(k as int), name@),
            decreases self.names@.len() - k,
        {
            let ghost rest = self@.skip(k as int);
            assert(rest[0] == (self.names@[k as int]@, self.ids@[k as int]));
            if self.names[k] == key {
                return Some(self.ids[k]);
            }
            assert(rest.drop_first() =~= self@.skip(k + 1));
            k = k + 1;
        }
        None
    }

    /// Get-or-create: the id held for `name`, or else `created` (the id that
    /// the store assigned when it inserted the key), which is recorded.
    pub fn resolve(&mut self, name: &str, created: i64) -> (r: i64)
        requires
            old(self).wf(),
        ensures
            final(self).wf(),
            (final(self)@, r) == resolve_name(old(self)@, name@, created),
    {
        match self.lookup(name) {
            Some(id) => id,
            None => {
                proof {
                    lemma_absent_key(self@, name@);
                    assert forall|i: int| 0 <= i < self.names@.len() implies self.names@[i]@ != name@ by {
                        assert(self@[i].0 == self.names@[i]@);
                    }
                }
                self.names.push(name.to_owned());
                self.ids.push(created);
                assert(self@ =~= old(self)@.push((name@, created)));
                created
            },
        }
    }
}

proof fn lemma_absent_key(m: Seq<(Seq<char>, i64)>, name: Seq<char>)
    requires
        indexed(m, name) is None,
    ensures
        forall|i: int| 0 <= i < m.len() ==> m[i].0 != name,
    decreases m.len(),
{
    if m.len() > 0 {
        lemma_absent_key(m.drop_first(), name);
        assert forall|i: int| 0 <= i < m.len() implies m[i].0 != name by {
            if i > 0 {
                assert(m[i] == m.drop_first()[i - 1]);
            }
        }
    }
}

proof fn lemma_push_named(m: Seq<(Seq<char>, i64)>, e: (Seq<char>, i64), name: Seq<char>)
    ensures
        entries_named(m.push(e), name) == entries_named(m, name) + if e.0 == name {
            1nat
        } else {
            0nat
        },
        indexed(m, name) is Some ==> indexed(m.push(e), name) == indexed(m, name),
        indexed(m, name) is None && e.0 == name ==> indexed(m.push(e), name) == Some(e.1),
        indexed(m, name) is None <==> entries_named(m, name) == 0,
    decreases m.len(),
{
    if m.len() > 0 {
        assert(m.push(e).drop_first() =~= m.drop_first().push(e));
        assert(m.push(e)[0] == m[0]);
        lemma_push_named(m.drop_first(), e, name);
    } else {
        assert(m.push(e).drop_first() =~= Seq::<(Seq<char>, i64)>::empty());
        assert(m.push(e)[0] == e);
        assert(entries_named(m.push(e).drop_first(), name) == 0);
        assert(indexed(m.push(e).drop_first(), name) is None);
    }
}

/// A series of get-or-create calls with one natural key creates at most one
/// entry for it, and every call returns the same id: the one the key already
/// had, or else the one assigned at the first call.
pub proof fn lemma_resolve_same_key(m: Seq<(Seq<char>, i64)>, name: Seq<char>, created: Seq<i64>)
    requires
        entries_named(m, name) <= 1,
        created.len() > 0,
    ensures
        entries_named(resolve_all(m, name, created), name) == 1,
        forall|k: int| 0 <= k < created.len() ==> #[trigger] resolved_at(m, name, created, k) == match indexed(m, name) {
            Some(id) => id,
            None => created[0],
        },
        indexed(m, name) is Some ==> resolve_all(m, name, created) == m,
    decreases created.len(),
{
    let first = match indexed(m, name) {
        Some(id) => id,
        None => created[0],
    };
    lemma_push_named(m, (name, created[0]), name);
    if created.len() == 1 {
        assert(created.drop_last() =~= Seq::<i64>::empty());
        assert(created.subrange(0, 0) =~= Seq::<i64>::empty());
        assert(resolve_all(m, name, created.drop_last()) == m);
        assert(resolve_all(m, name, created) == resolve_name(m, name, created[0]).0);
        assert(resolved_at(m, name, created, 0) == resolve_name(m, name, created[0]).1);
    } else {
        let init = created.drop_last();
        lemma_resolve_same_key(m, name, init);
        let before = resolve_all(m, name, init);
        assert(resolve_all(m, name, created) == resolve_name(before, name, created.last()).0);
        lemma_push_named(before, (name, created.last()), name);
        assert(init[0] == created[0]);
        assert(resolved_at(m, name, init, 0) == first);
        assert(indexed(before, name) == Some(first)) by {
            if indexed(m, name) is Some {
            } else {
                assert(init.subrange(0, 0) =~= Seq::<i64>::empty());
                assert(resolve_all(m, name, init.subrange(0, 0)) == m);
                lemma_indexed_kept(m, name, init);
            }
        }
        assert forall|k: int| 0 <= k < created.len() implies #[trigger] resolved_at(m, name, created, k) == first by {
            if k < created.len() - 1 {
                assert(created.subrange(0, k) =~= init.subrange(0, k));
                assert(created[k] == init[k]);
                assert(resolved_at(m, name, init, k) == first);
            } else {
                assert(created.subrange(0, k) =~= init);
            }
        }
    }
}

proof fn lemma_indexed_kept(m: Seq<(Seq<char>, i64)>, name: Seq<char>, created: Seq<i64>)
    requires
        indexed(m, name) is None,
        created.len() > 0,
    ensures
        indexed(resolve_all(m, name, created), name) == Some(created[0]),
    decreases created.len(),
{
    if created.len() == 1 {
        assert(created.drop_last() =~= Seq::<i64>::empty());
        lemma_push_named(m, (name, created[0]), name);
    } else {
        let init = created.drop_last();
        lemma_indexed_kept(m, name, init);
        assert(init[0] == created[0]);
    }
}


/// The LIKE pattern of a substring search: the text wildcarded on both sides.
pub fn search_pattern(text: &str) -> (r: String)
    ensures
        r@ == seq!['%'] + text@ + seq!['%'],
{
    let mut out: Vec<char> = Vec::new();
    out.push('%');
    let mut t = chars_of(text);
    out.append(&mut t);
    out.push('%');
    assert(out@ =~= seq!['%'] + text@ + seq!['%']);
    string_of(&out)
}

/// The hits of a search of one entity kind, at most `limit` of them, in the
/// order found; none at all is reported as `None`, which tells "no hits"
/// apart from "not searched".
pub fn search_hits(found: &Vec<i64>, limit: usize) -> (r: Option<Vec<i64>>)
    ensures
        (r is None) == (found@.len() == 0 || limit == 0),
        r matches Some(v) ==> v@ == found@.subrange(0, if found@.len() < limit {
            found@.len() as int
        } else {
            limit as int
        }),
{
    let n: usize = if found.len() < limit {
        found.len()
    } else {
        limit
    };
    if n == 0 {
        return None;
    }
    let mut v: Vec<i64> = Vec::new();
    let mut k: usize = 0;
    while k < n
        invariant
            0 <= k <= n,
            n <= found@.len(),
            v@ == found@.subrange(0, k as int),
        decreases n - k,
    {
        v.push(found[k]);
        k = k + 1;
        assert(v@ =~= found@.subrange(0, k as int));
    }
    Some(v)
}

} // verus!
