//! The playback session: queue, history and the current track, and how each
//! transport command moves tracks between them.
//!
//! The decode engine is driven from outside: each transition returns an
//! [`Effect`] that says what the engine has to do next.
use crate::defs::{AudioBackendState, AudioTrack, RepeatMode};
use vstd::prelude::*;

verus! {

/// The state of a session, as contracts speak of it.
pub ghost struct PlayerModel {
    pub queue: Seq<AudioTrack>,
    pub history: Seq<AudioTrack>,
    pub current: Option<AudioTrack>,
    pub shuffle: bool,
    pub repeat: RepeatMode,
    pub volume: i32,
    pub muted: bool,
    pub pending_seek: Option<i64>,
    pub started: bool,
}

/// A playback session.
///
/// `pending_seek` holds a seek that came before playback first started: the
/// decode engine cannot seek before that, so the position is applied when it
/// starts.
pub struct Player {
    pub queue: Vec<AudioTrack>,
    pub history: Vec<AudioTrack>,
    pub current: Option<AudioTrack>,
    pub shuffle: bool,
    pub repeat: RepeatMode,
    pub volume: i32,
    pub muted: bool,
    pub pending_seek: Option<i64>,
    pub started: bool,
}

/// What the decode engine has to do after a transition.
#[derive(Debug)]
pub enum Effect {
    /// Load the file at `location`; start it if `resume` is set.
    Load { location: String, resume: bool },
    /// Stop playback.
    Stop,
}

impl View for Player {
    type V = PlayerModel;

    open spec fn view(&self) -> PlayerModel {
        PlayerModel {
            queue: self.queue@,
            history: self.history@,
            current: self.current,
            shuffle: self.shuffle,
            repeat: self.repeat,
            volume: self.volume,
            muted: self.muted,
            pending_seek: self.pending_seek,
            started: self.started,
        }
    }
}

/// Whether advancing picks a random entry of the queue.
pub open spec fn shuffles(m: PlayerModel) -> bool {
    m.shuffle && m.repeat != RepeatMode::RepeatTrack
}

/// The first two steps of advancing: the current track goes to the history,
/// and, by the repeat mode, back into the queue (at its end for a repeated
/// queue, at its front for a repeated track).
pub open spec fn requeued(m: PlayerModel) -> PlayerModel {
    match m.current {
        Some(c) => PlayerModel {
            history: m.history.push(c),
            queue: match m.repeat {
                RepeatMode::RepeatQueue => m.queue.push(c),
                RepeatMode::RepeatTrack => m.queue.insert(0, c),
                RepeatMode::RepeatNone => m.queue,
            },
            current: None,
            ..m
        },
        None => m,
    }
}

/// Entry `i` of the queue becomes the current track.
pub open spec fn take_at(m: PlayerModel, i: int) -> PlayerModel {
    PlayerModel { current: Some(m.queue[i]), queue: m.queue.remove(i), ..m }
}

/// The entry that advancing takes: `pick` where the queue is shuffled, else the first.
pub open spec fn pick_index(m: PlayerModel, pick: int) -> int {
    if shuffles(m) {
        pick
    } else {
        0
    }
}

/// Whether `pick` is an index that advancing from `m` may use.
pub open spec fn valid_pick(m: PlayerModel, pick: int) -> bool {
    shuffles(m) && requeued(m).queue.len() > 0 ==> 0 <= pick < requeued(m).queue.len()
}

/// Advancing to the next track (a Next command or the end of a track).
pub open spec fn advance(m: PlayerModel, pick: int) -> PlayerModel {
    let r = requeued(m);
    if r.queue.len() == 0 {
        r
    } else {
        take_at(r, pick_index(m, pick))
    }
}

/// Loading the current track, or stopping where there is none.
pub open spec fn load_effect(m: PlayerModel, resume: bool) -> Effect {
    match m.current {
        Some(c) => Effect::Load { location: c.location, resume },
        None => Effect::Stop,
    }
}

/// Going back: the current track returns to the front of the queue and the
/// last track of the history becomes current.
pub open spec fn step_back(m: PlayerModel) -> PlayerModel {
    if m.history.len() == 0 {
        m
    } else {
        PlayerModel {
            queue: match m.current {
                Some(c) => m.queue.insert(0, c),
                None => m.queue,
            },
            current: Some(m.history.last()),
            history: m.history.drop_last(),
            ..m
        }
    }
}

/// The current track, if any, goes to the end of the history.
pub open spec fn retire_current(m: PlayerModel) -> PlayerModel {
    match m.current {
        Some(c) => PlayerModel { history: m.history.push(c), current: None, ..m },
        None => m,
    }
}

/// Jumping to entry `i` of the queue: the entries before it are dropped.
pub open spec fn jump_in_queue(m: PlayerModel, i: int) -> PlayerModel {
    if 0 <= i < m.queue.len() {
        let r = retire_current(m);
        PlayerModel { current: Some(m.queue[i]), queue: m.queue.skip(i + 1), ..r }
    } else {
        m
    }
}

/// Jumping to entry `i` of the history: the entry stays in the history too.
pub open spec fn jump_in_history(m: PlayerModel, i: int) -> PlayerModel {
    if 0 <= i < m.history.len() {
        let r = retire_current(m);
        PlayerModel { current: Some(m.history[i]), ..r }
    } else {
        m
    }
}

/// The ids of a sequence of tracks, in order.
pub open spec fn track_ids(s: Seq<AudioTrack>) -> Seq<i64> {
    s.map_values(|t: AudioTrack| t.id)
}

/// The first position from `from` on whose entry has id `id` and is not
/// among `taken`; -1 where there is none.
pub open spec fn first_free(q: Seq<AudioTrack>, taken: Seq<int>, id: i64, from: int) -> int
    decreases q.len() - from,
{
    if from < 0 || from >= q.len() {
        -1
    } else if q[from].id == id && !taken.contains(from) {
        from
    } else {
        first_free(q, taken, id, from + 1)
    }
}

/// The positions that reordering by `ids` takes: for each id in turn, the
/// first entry with that id not taken before.
pub open spec fn picks(q: Seq<AudioTrack>, ids: Seq<i64>) -> Seq<int>
    decreases ids.len(),
{
    if ids.len() == 0 {
        Seq::empty()
    } else {
        let p = picks(q, ids.drop_last());
        p.push(first_free(q, p, ids.last(), 0))
    }
}

/// Whether `ids` lists the ids of the queue's entries exactly, in some order.
pub open spec fn is_reordering(q: Seq<AudioTrack>, ids: Seq<i64>) -> bool {
    &&& ids.len() == q.len()
    &&& forall|k: int| 0 <= k < ids.len() ==> #[trigger] picks(q, ids)[k] >= 0
}

/// The queue reordered by a list of its ids; a repeated id takes the
/// entries with that id one after another.
pub open spec fn reordered(q: Seq<AudioTrack>, ids: Seq<i64>) -> Seq<AudioTrack> {
    picks(q, ids).map_values(|j: int| q[j])
}

/// Whether `drop` lists position `k`.
pub open spec fn lists_position(drop: Seq<i64>, k: int) -> bool {
    exists|j: int| 0 <= j < drop.len() && drop[j] == k
}

/// The entries of `q` whose position is not listed in `drop`.
pub open spec fn without_positions(q: Seq<AudioTrack>, drop: Seq<i64>) -> Seq<AudioTrack>
    decreases q.len(),
{
    if q.len() == 0 {
        q
    } else {
        let rest = without_positions(q.drop_last(), drop);
        if lists_position(drop, q.len() - 1) {
            rest
        } else {
            rest.push(q.last())
        }
    }
}

/// A response of the catalog to a Play request: the tracks replace the
/// queue, the current track goes to the history, and the first entry (or
/// entry `pick`, where the queue is shuffled) becomes current.
pub open spec fn play_list(m: PlayerModel, tracks: Seq<AudioTrack>, pick: int) -> PlayerModel {
    let r = PlayerModel { queue: tracks, ..retire_current(m) };
    if tracks.len() == 0 {
        r
    } else {
        take_at(r, pick_index(m, pick))
    }
}

/// `tracks` inserted into the queue before position `at`.
pub open spec fn inserted(q: Seq<AudioTrack>, tracks: Seq<AudioTrack>, at: int) -> Seq<AudioTrack> {
    q.subrange(0, at) + tracks + q.subrange(at, q.len() as int)
}

/// The session with `q` as its queue.
pub open spec fn with_queue(m: PlayerModel, q: Seq<AudioTrack>) -> PlayerModel {
    PlayerModel { queue: q, ..m }
}

/// Whether an insert position lies within the queue (no position: append).
pub open spec fn insert_fits(q: Seq<AudioTrack>, at: Option<usize>) -> bool {
    match at {
        Some(i) => i <= q.len(),
        None => true,
    }
}

/// The queue with `tracks` inserted before position `at`, or appended.
pub open spec fn insert_at(q: Seq<AudioTrack>, tracks: Seq<AudioTrack>, at: Option<usize>) -> Seq<AudioTrack> {
    match at {
        Some(i) => inserted(q, tracks, i as int),
        None => q + tracks,
    }
}

/// The tracks of an optional list.
pub open spec fn seq_of(v: Option<Vec<AudioTrack>>) -> Option<Seq<AudioTrack>> {
    match v {
        Some(t) => Some(t@),
        None => None,
    }
}

/// A seek: forwarded once playback has started, held until then.
pub open spec fn seek_to(m: PlayerModel, t: i64) -> PlayerModel {
    if m.started {
        m
    } else {
        PlayerModel { pending_seek: Some(t), ..m }
    }
}

/// Playback has started: a held seek is handed out and dropped.
pub open spec fn start(m: PlayerModel) -> PlayerModel {
    PlayerModel { pending_seek: None, started: true, ..m }
}

/// The session as the snapshot file holds it.
pub ghost struct SnapshotModel {
    pub volume: i32,
    pub position: i64,
    pub shuffle: bool,
    pub repeat: RepeatMode,
    pub current_id: i64,
    pub current_location: Seq<char>,
    pub queue: Seq<i64>,
    pub history: Seq<i64>,
}

impl View for AudioBackendState {
    type V = SnapshotModel;

    open spec fn view(&self) -> SnapshotModel {
        SnapshotModel {
            volume: self.volume,
            position: self.position,
            shuffle: self.shuffle_mode,
            repeat: self.repeat_mode,
            current_id: self.current_id,
            current_location: self.current_location@,
            queue: self.queue@,
            history: self.history@,
        }
    }
}

/// The snapshot of a session at playback position `position`. No current
/// track is written as id 0 with an empty location.
pub open spec fn snapshot_of(m: PlayerModel, position: i64) -> SnapshotModel {
    SnapshotModel {
        volume: m.volume,
        position,
        shuffle: m.shuffle,
        repeat: m.repeat,
        current_id: match m.current {
            Some(c) => c.id,
            None => 0,
        },
        current_location: match m.current {
            Some(c) => c.location@,
            None => Seq::empty(),
        },
        queue: track_ids(m.queue),
        history: track_ids(m.history),
    }
}

/// The session restored from a snapshot, before the catalog has resolved the
/// queue and history: the position waits for playback to start.
pub open spec fn restored(s: SnapshotModel, current: Option<AudioTrack>) -> PlayerModel {
    PlayerModel {
        queue: Seq::empty(),
        history: Seq::empty(),
        current,
        shuffle: s.shuffle,
        repeat: s.repeat,
        volume: s.volume,
        muted: false,
        pending_seek: if s.position != 0 {
            Some(s.position)
        } else {
            None
        },
        started: false,
    }
}

/// Whether `c` is the current track that a snapshot names: none for id 0,
/// else the snapshot's id and location.
pub open spec fn restores_current(c: Option<AudioTrack>, s: SnapshotModel) -> bool {
    match c {
        Some(t) => s.current_id != 0 && t.id == s.current_id && t.location@ == s.current_location,
        None => s.current_id == 0,
    }
}

/// The catalog's answer to a recovery request: the resolved tracks are
/// appended to the history and the queue.
pub open spec fn recovered(
    m: PlayerModel,
    history: Option<Seq<AudioTrack>>,
    queue: Option<Seq<AudioTrack>>,
) -> PlayerModel {
    PlayerModel {
        history: match history {
            Some(h) => m.history + h,
            None => m.history,
        },
        queue: match queue {
            Some(q) => m.queue + q,
            None => m.queue,
        },
        ..m
    }
}

/// Why a queue command was refused.
#[derive(Clone, Copy, Debug, PartialEq, Eq, Structural)]
pub enum QueueError {
    /// Ids that are not exactly those of the queue's entries.
    UnknownId,
    /// A position past the end of the queue.
    OutOfRange,
}

/// Relies on rand's `Rng::random_range` on the thread's generator: a value in
/// `0..bound`. It panics on an empty range, which `requires` leaves out.
#[verifier::external_body]
fn random_below(bound: usize) -> (r: usize)
    requires
        bound > 0,
    ensures
        r < bound,
{
    rand::Rng::random_range(&mut rand::rng(), 0..bound)
}

impl Player {
    /// A fresh session: nothing queued, no repeat, no shuffle, full volume.
    pub fn new() -> (r: Player)
        ensures
            r@.queue.len() == 0,
            r@.history.len() == 0,
            r@.current is None,
            !r@.shuffle,
            r@.repeat == RepeatMode::RepeatNone,
            r@.volume == 100,
            !r@.muted,
            r@.pending_seek is None,
            !r@.started,
    {
        Player {
            queue: Vec::new(),
            history: Vec::new(),
            current: None,
            shuffle: false,
            repeat: RepeatMode::RepeatNone,
            volume: 100,
            muted: false,
            pending_seek: None,
            started: false,
        }
    }

    /// The length the queue has once the current track is requeued: the
    /// bound of the entry that advancing picks.
    pub fn requeued_len(&self) -> (r: usize)
        requires
            self.queue@.len() < usize::MAX,
        ensures
            r == requeued(self@).queue.len(),
    {
        match self.current {
            Some(_) => match self.repeat {
                RepeatMode::RepeatNone => self.queue.len(),
                _ => self.queue.len() + 1,
            },
            None => self.queue.len(),
        }
    }

    /// Moves the current track to the history (and back into the queue, by
    /// the repeat mode), then makes entry `pick` of the queue current where
    /// the queue is shuffled, else its first entry. With an empty queue
    /// nothing is current and playback stops.
    pub fn advance_to(&mut self, pick: usize, resume: bool) -> (r: Effect)
        requires
            valid_pick(old(self)@, pick as int),
        ensures
            final(self)@ == advance(old(self)@, pick as int),
            r == load_effect(final(self)@, resume),
    {
        let cur = self.current.take();
        match cur {
            Some(c) => {
                self.history.push(c.copy());
                match self.repeat {
                    RepeatMode::RepeatQueue => self.queue.push(c),
                    RepeatMode::RepeatTrack => self.queue.insert(0, c),
                    RepeatMode::RepeatNone => {},
                }
            },
            None => {},
        }
        assert(self@ == requeued(old(self)@));
        if self.queue.len() == 0 {
            return Effect::Stop;
        }
        let i: usize = if self.shuffle && self.repeat != RepeatMode::RepeatTrack {
            pick
        } else {
            0
        };
        let c = self.queue.remove(i);
        let location = c.location.clone();
        self.current = Some(c);
        Effect::Load { location, resume }
    }

    /// Advances as [`Player::advance_to`] does, drawing the entry at random
    /// where the queue is shuffled.
    pub fn next(&mut self, resume: bool) -> (r: Effect)
        requires
            old(self).queue@.len() < usize::MAX,
        ensures
            !shuffles(old(self)@) ==> final(self)@ == advance(old(self)@, 0),
            exists|p: int| valid_pick(old(self)@, p) && final(self)@ == advance(old(self)@, p),
            r == load_effect(final(self)@, resume),
    {
        let bound = self.requeued_len();
        let pick: usize = if self.shuffle && self.repeat != RepeatMode::RepeatTrack && bound > 0 {
            random_below(bound)
        } else {
            0
        };
        let ghost before = self@;
        let r = self.advance_to(pick, resume);
        assert(valid_pick(before, pick as int));
        r
    }

    /// Goes back to the last track of the history; the current track returns
    /// to the front of the queue. With an empty history playback stops and the
    /// session is unchanged.
    pub fn prev(&mut self, resume: bool) -> (r: Effect)
        ensures
            final(self)@ == step_back(old(self)@),
            old(self)@.history.len() > 0 ==> r == load_effect(final(self)@, resume),
            old(self)@.history.len() == 0 ==> r == Effect::Stop,
    {
        if self.history.len() == 0 {
            return Effect::Stop;
        }
        let cur = self.current.take();
        match cur {
            Some(c) => self.queue.insert(0, c),
            None => {},
        }
        let last = self.history.pop();
        match last {
            Some(t) => {
                let location = t.location.clone();
                self.current = Some(t);
                Effect::Load { location, resume }
            },
            None => Effect::Stop,
        }
    }

    /// Plays entry `index` of the queue at once; the current track goes to
    /// the history and the entries before `index` are dropped. An index out
    /// of range is refused and the session is left as it is.
    pub fn queue_jump(&mut self, index: i64) -> (r: Result<Effect, QueueError>)
        ensures
            final(self)@ == jump_in_queue(old(self)@, index as int),
            (r is Ok) == (0 <= index < old(self)@.queue.len()),
            (r is Ok) ==> r == Ok::<Effect, QueueError>(load_effect(final(self)@, true)),
            (r is Err) ==> r == Err::<Effect, QueueError>(QueueError::OutOfRange),
    {
        if index < 0 || index as u64 >= self.queue.len() as u64 {
            return Err(QueueError::OutOfRange);
        }
        let index = index as usize;
        let cur = self.current.take();
        match cur {
            Some(c) => self.history.push(c),
            None => {},
        }
        let mut rest = self.queue.split_off(index + 1);
        let chosen = self.queue.pop();
        std::mem::swap(&mut self.queue, &mut rest);
        match chosen {
            Some(t) => {
                let location = t.location.clone();
                self.current = Some(t);
                assert(self.queue@ =~= old(self)@.queue.skip(index + 1));
                Ok(Effect::Load { location, resume: true })
            },
            None => Err(QueueError::OutOfRange),
        }
    }

    /// Plays entry `index` of the history at once; the current track goes to
    /// the end of the history, which otherwise stays as it is. An index out
    /// of range is refused and the session is left as it is.
    pub fn history_jump(&mut self, index: i64) -> (r: Result<Effect, QueueError>)
        ensures
            final(self)@ == jump_in_history(old(self)@, index as int),
            (r is Ok) == (0 <= index < old(self)@.history.len()),
            (r is Ok) ==> r == Ok::<Effect, QueueError>(load_effect(final(self)@, true)),
            (r is Err) ==> r == Err::<Effect, QueueError>(QueueError::OutOfRange),
    {
        if index < 0 || index as u64 >= self.history.len() as u64 {
            return Err(QueueError::OutOfRange);
        }
        let index = index as usize;
        let chosen = self.history[index].copy();
        let cur = self.current.take();
        match cur {
            Some(c) => self.history.push(c),
            None => {},
        }
        let location = chosen.location.clone();
        self.current = Some(chosen);
        Ok(Effect::Load { location, resume: true })
    }
}


proof fn lemma_picks_prefix(q: Seq<AudioTrack>, ids: Seq<i64>, m: int)
    requires
        0 <= m <= ids.len(),
    ensures
        picks(q, ids).len() == ids.len(),
        picks(q, ids).subrange(0, m) == picks(q, ids.subrange(0, m)),
    decreases ids.len(),
{
    if ids.len() > 0 {
        lemma_picks_prefix(q, ids.drop_last(), if m == ids.len() { m - 1 } else { m });
        if m == ids.len() {
            assert(ids.subrange(0, m) =~= ids);
            assert(picks(q, ids).subrange(0, m) =~= picks(q, ids));
        } else {
            assert(ids.drop_last().subrange(0, m) =~= ids.subrange(0, m));
            assert(picks(q, ids).subrange(0, m) =~= picks(q, ids.drop_last()).subrange(0, m));
        }
    } else {
        assert(ids.subrange(0, m) =~= ids);
    }
}

/// Whether `v` lists position `x`.
fn holds(v: &Vec<i64>, x: usize) -> (r: bool)
    ensures
        r == lists_position(v@, x as int),
{
    let mut j: usize = 0;
    while j < v.len()
        invariant
            0 <= j <= v@.len(),
            forall|i: int| 0 <= i < j ==> v@[i] != x as int,
        decreases v@.len() - j,
    {
        if v[j] >= 0 && v[j] as u64 == x as u64 {
            return true;
        }
        j = j + 1;
    }
    false
}

/// The ids of `tracks`, in order.
pub fn ids_of(tracks: &Vec<AudioTrack>) -> (r: Vec<i64>)
    ensures
        r@ == track_ids(tracks@),
{
    let mut r: Vec<i64> = Vec::new();
    let mut k: usize = 0;
    while k < tracks.len()
        invariant
            0 <= k <= tracks@.len(),
            r@ == track_ids(tracks@.subrange(0, k as int)),
        decreases tracks@.len() - k,
    {
        r.push(tracks[k].id);
        k = k + 1;
        assert(track_ids(tracks@.subrange(0, k as int)) =~= track_ids(
            tracks@.subrange(0, k - 1),
        ).push(tracks@[k - 1].id));
    }
    assert(tracks@.subrange(0, k as int) =~= tracks@);
    r
}

/// A copy of a list of ids.
fn copy_ids(v: &Vec<i64>) -> (r: Vec<i64>)
    ensures
        r@ == v@,
{
    let mut r: Vec<i64> = Vec::new();
    let mut k: usize = 0;
    while k < v.len()
        invariant
            0 <= k <= v@.len(),
            r@ == v@.subrange(0, k as int),
        decreases v@.len() - k,
    {
        r.push(v[k]);
        k = k + 1;
        assert(r@ =~= v@.subrange(0, k as int));
    }
    assert(v@.subrange(0, k as int) =~= v@);
    r
}

impl Player {
    /// Reorders the queue by `ids`, which must list the ids of its entries
    /// exactly (a repeated id takes its entries one after another). Any other
    /// list is refused and leaves the session unchanged.
    pub fn queue_move(&mut self, ids: &Vec<i64>) -> (r: Result<(), QueueError>)
        ensures
            (r is Ok) == is_reordering(old(self)@.queue, ids@),
            (r is Ok) ==> final(self)@ == with_queue(old(self)@, reordered(old(self)@.queue, ids@)),
            (r is Err) ==> r == Err::<(), QueueError>(QueueError::UnknownId),
            (r is Err) ==> final(self)@ == old(self)@,
    {
        let n = self.queue.len();
        proof {
            lemma_picks_prefix(self.queue@, ids@, 0);
        }
        if ids.len() != n {
            return Err(QueueError::UnknownId);
        }
        let mut taken: Vec<bool> = Vec::new();
        let mut t: usize = 0;
        while t < n
            invariant
                t <= n,
                taken@.len() == t,
                forall|j: int| 0 <= j < t ==> !#[trigger] taken@[j],
            decreases n - t,
        {
            taken.push(false);
            t = t + 1;
        }
        let ghost q = self.queue@;
        let ghost mut p: Seq<int> = Seq::empty();
        let mut moved: Vec<AudioTrack> = Vec::new();
        let mut k: usize = 0;
        assert(ids@.subrange(0, 0) =~= Seq::<i64>::empty());
        while k < ids.len()
            invariant
                0 <= k <= ids@.len(),
                ids@.len() == n,
                n == q.len(),
                self@ == old(self)@,
                q == self.queue@,
                taken@.len() == n,
                p == picks(q, ids@.subrange(0, k as int)),
                p.len() == k,
                forall|j: int| 0 <= j < k ==> 0 <= #[trigger] p[j] < n,
                forall|j: int| 0 <= j < n ==> (#[trigger] taken@[j] <==> p.contains(j)),
                moved@ == p.map_values(|j: int| q[j]),
            decreases ids@.len() - k,
        {
            let id = ids[k];
            let mut j: usize = 0;
            let mut found = false;
            while j < n && !found
                invariant
                    0 <= j <= n,
                    n == q.len(),
                    q == self.queue@,
                    taken@.len() == n,
                    forall|i: int| 0 <= i < n ==> (#[trigger] taken@[i] <==> p.contains(i)),
                    !found ==> first_free(q, p, id, 0) == first_free(q, p, id, j as int),
                    found ==> j < n && first_free(q, p, id, 0) == j as int,
                decreases n - j + (if found { 0int } else { 1int }),
            {
                if !taken[j] && self.queue[j].id == id {
                    assert(!p.contains(j as int));
                    found = true;
                } else {
                    j = j + 1;
                }
            }
            proof {
                lemma_picks_prefix(q, ids@, k + 1);
                let next = ids@.subrange(0, k + 1);
                assert(next.drop_last() =~= ids@.subrange(0, k as int));
                assert(next.last() == id);
            }
            if !found {
                proof {
                    assert(picks(q, ids@)[k as int] == picks(q, ids@.subrange(0, k + 1))[k as int]);
                }
                return Err(QueueError::UnknownId);
            }
            let ghost p0 = p;
            let ghost t0 = taken@;
            proof {
                let next = ids@.subrange(0, k + 1);
                assert(picks(q, next) == p0.push(j as int));
            }
            taken.set(j, true);
            moved.push(self.queue[j].copy());
            proof {
                p = p0.push(j as int);
                assert(moved@ =~= p.map_values(|i: int| q[i]));
                assert forall|i: int| 0 <= i < n implies (#[trigger] taken@[i] <==> p.contains(i)) by {
                    if i == j as int {
                        assert(p[p.len() - 1] == i);
                    } else {
                        assert(taken@[i] == t0[i]);
                        if p0.contains(i) {
                            let w = choose|w: int| 0 <= w < p0.len() && p0[w] == i;
                            assert(p[w] == i);
                        }
                        if p.contains(i) {
                            let w = choose|w: int| 0 <= w < p.len() && p[w] == i;
                            assert(w < p0.len());
                            assert(p0[w] == i);
                        }
                    }
                }
            }
            k = k + 1;
        }
        proof {
            assert(ids@.subrange(0, k as int) =~= ids@);
            assert forall|i: int| 0 <= i < ids@.len() implies #[trigger] picks(q, ids@)[i] >= 0 by {
                assert(p[i] >= 0);
            }
        }
        self.queue = moved;
        Ok(())
    }

    /// Removes the entries at the listed positions; positions past the end
    /// are ignored.
    pub fn queue_remove(&mut self, positions: &Vec<i64>)
        ensures
            final(self)@ == with_queue(old(self)@, without_positions(old(self)@.queue, positions@)),
    {
        let mut kept: Vec<AudioTrack> = Vec::new();
        let mut k: usize = 0;
        while k < self.queue.len()
            invariant
                0 <= k <= self.queue@.len(),
                self@ == old(self)@,
                kept@ == without_positions(self.queue@.subrange(0, k as int), positions@),
            decreases self.queue@.len() - k,
        {
            let ghost q = self.queue@;
            assert(q.subrange(0, k + 1).drop_last() =~= q.subrange(0, k as int));
            if !holds(positions, k) {
                kept.push(self.queue[k].copy());
            }
            k = k + 1;
        }
        assert(self.queue@.subrange(0, k as int) =~= self.queue@);
        self.queue = kept;
    }

    /// Empties the history.
    pub fn clear_history(&mut self)
        ensures
            final(self)@ == (PlayerModel { history: Seq::empty(), ..old(self)@ }),
    {
        self.history = Vec::new();
    }

    /// A seek to `position` ms: handed back for the decode engine once
    /// playback has started; before that it is held (a later seek replaces
    /// it) and nothing is handed back.
    pub fn seek(&mut self, position: i64) -> (r: Option<i64>)
        ensures
            final(self)@ == seek_to(old(self)@, position),
            old(self)@.started ==> r == Some(position),
            !old(self)@.started ==> r == None::<i64>,
    {
        if self.started {
            Some(position)
        } else {
            self.pending_seek = Some(position);
            None
        }
    }

    /// Playback has started: hands back the held seek, if any, which is then dropped.
    pub fn play_started(&mut self) -> (r: Option<i64>)
        ensures
            final(self)@ == start(old(self)@),
            r == old(self)@.pending_seek,
    {
        self.started = true;
        self.pending_seek.take()
    }

    /// Sets the volume where it lies in 0..=100; else leaves it and returns false.
    pub fn set_volume(&mut self, volume: i32) -> (r: bool)
        ensures
            r == (0 <= volume <= 100),
            r ==> final(self)@ == (PlayerModel { volume, ..old(self)@ }),
            !r ==> final(self)@ == old(self)@,
    {
        if 0 <= volume && volume <= 100 {
            self.volume = volume;
            true
        } else {
            false
        }
    }

    pub fn set_muted(&mut self, muted: bool)
        ensures
            final(self)@ == (PlayerModel { muted, ..old(self)@ }),
    {
        self.muted = muted;
    }

    pub fn set_shuffle(&mut self, shuffle: bool)
        ensures
            final(self)@ == (PlayerModel { shuffle, ..old(self)@ }),
    {
        self.shuffle = shuffle;
    }

    pub fn set_repeat(&mut self, repeat: RepeatMode)
        ensures
            final(self)@ == (PlayerModel { repeat, ..old(self)@ }),
    {
        self.repeat = repeat;
    }

    /// Replaces the queue with `tracks`, as a Play response of the catalog
    /// asks: the current track goes to the history, then entry `pick` (where
    /// the queue is shuffled) or the first entry becomes current. With no
    /// tracks nothing is current and playback stops.
    pub fn play_at(&mut self, tracks: Vec<AudioTrack>, pick: usize) -> (r: Effect)
        requires
            shuffles(old(self)@) && tracks@.len() > 0 ==> pick < tracks@.len(),
        ensures
            final(self)@ == play_list(old(self)@, tracks@, pick as int),
            r == load_effect(final(self)@, true),
    {
        let cur = self.current.take();
        match cur {
            Some(c) => self.history.push(c),
            None => {},
        }
        self.queue = tracks;
        if self.queue.len() == 0 {
            return Effect::Stop;
        }
        let i: usize = if self.shuffle && self.repeat != RepeatMode::RepeatTrack {
            pick
        } else {
            0
        };
        let c = self.queue.remove(i);
        let location = c.location.clone();
        self.current = Some(c);
        Effect::Load { location, resume: true }
    }

    /// As [`Player::play_at`], drawing the entry at random where the queue is shuffled.
    pub fn play(&mut self, tracks: Vec<AudioTrack>) -> (r: Effect)
        ensures
            !shuffles(old(self)@) ==> final(self)@ == play_list(old(self)@, tracks@, 0),
            exists|p: int| #[trigger] play_list(old(self)@, tracks@, p) == final(self)@
                && (tracks@.len() > 0 ==> 0 <= p < tracks@.len()),
            r == load_effect(final(self)@, true),
    {
        let pick: usize = if self.shuffle && self.repeat != RepeatMode::RepeatTrack
            && tracks.len() > 0 {
            random_below(tracks.len())
        } else {
            0
        };
        self.play_at(tracks, pick)
    }

    /// Inserts `tracks` into the queue before position `at`, or appends them.
    /// A position past the end is refused and the session is unchanged.
    pub fn queue_insert(&mut self, tracks: Vec<AudioTrack>, at: Option<usize>) -> (r: Result<(), QueueError>)
        ensures
            (r is Ok) == insert_fits(old(self)@.queue, at),
            (r is Ok) ==> final(self)@ == with_queue(old(self)@, insert_at(old(self)@.queue, tracks@, at)),
            (r is Err) ==> r == Err::<(), QueueError>(QueueError::OutOfRange),
            (r is Err) ==> final(self)@ == old(self)@,
    {
        let ghost added = tracks@;
        let mut tracks = tracks;
        match at {
            Some(i) => {
                if i > self.queue.len() {
                    return Err(QueueError::OutOfRange);
                }
                let mut rest = self.queue.split_off(i);
                self.queue.append(&mut tracks);
                self.queue.append(&mut rest);
                assert(self.queue@ =~= inserted(old(self)@.queue, added, i as int));
            },
            None => {
                self.queue.append(&mut tracks);
            },
        }
        Ok(())
    }

    /// Takes in the catalog's answer to a recovery request: the resolved
    /// tracks are appended to the history and to the queue.
    pub fn recover(&mut self, history: Option<Vec<AudioTrack>>, queue: Option<Vec<AudioTrack>>)
        ensures
            final(self)@ == recovered(old(self)@, seq_of(history), seq_of(queue)),
    {
        match history {
            Some(h) => {
                let mut h = h;
                self.history.append(&mut h);
            },
            None => {},
        }
        match queue {
            Some(q) => {
                let mut q = q;
                self.queue.append(&mut q);
            },
            None => {},
        }
    }

    /// The snapshot of the session at playback position `position`.
    pub fn snapshot(&self, position: i64) -> (r: AudioBackendState)
        ensures
            r@ == snapshot_of(self@, position),
    {
        let (current_id, current_location) = match &self.current {
            Some(c) => (c.id, c.location.clone()),
            None => (0, String::new()),
        };
        AudioBackendState {
            volume: self.volume,
            position,
            shuffle_mode: self.shuffle,
            repeat_mode: self.repeat,
            current_id,
            current_location,
            queue: ids_of(&self.queue),
            history: ids_of(&self.history),
        }
    }

    /// The session that a snapshot restores. Id 0 stands for no current
    /// track. The queue and history stay empty until the catalog resolves
    /// their ids (see [`recovery_ids`]); the position waits for playback to
    /// start.
    pub fn from_snapshot(s: &AudioBackendState) -> (r: Player)
        ensures
            r@ == restored(s@, r.current),
            restores_current(r.current, s@),
    {
        let current = if s.current_id != 0 {
            Some(AudioTrack { id: s.current_id, location: s.current_location.clone() })
        } else {
            None
        };
        Player {
            queue: Vec::new(),
            history: Vec::new(),
            current,
            shuffle: s.shuffle_mode,
            repeat: s.repeat_mode,
            volume: s.volume,
            muted: false,
            pending_seek: if s.position != 0 {
                Some(s.position)
            } else {
                None
            },
            started: false,
        }
    }
}

/// The history ids and the queue ids of a snapshot, which the catalog is asked
/// to resolve into playable tracks.
pub fn recovery_ids(s: &AudioBackendState) -> (r: (Vec<i64>, Vec<i64>))
    ensures
        r.0@ == s@.history,
        r.1@ == s@.queue,
{
    (copy_ids(&s.history), copy_ids(&s.queue))
}


/// Playing through a queue of three tracks without shuffle or repeat: each
/// advance makes the next track current, and one more empties the session,
/// with the three tracks in the history in the order they played.
pub proof fn lemma_plays_queue_in_order(
    m: PlayerModel,
    a: AudioTrack,
    b: AudioTrack,
    c: AudioTrack,
    pick_a: int,
    pick_b: int,
    pick_c: int,
    pick_d: int,
)
    requires
        m.queue == seq![a, b, c],
        m.current is None,
        m.repeat == RepeatMode::RepeatNone,
        !m.shuffle,
    ensures
        advance(m, pick_a).current == Some(a),
        advance(advance(m, pick_a), pick_b).current == Some(b),
        advance(advance(advance(m, pick_a), pick_b), pick_c).current == Some(c),
        advance(advance(advance(advance(m, pick_a), pick_b), pick_c), pick_d).current is None,
        advance(advance(advance(advance(m, pick_a), pick_b), pick_c), pick_d).queue.len() == 0,
        advance(advance(advance(advance(m, pick_a), pick_b), pick_c), pick_d).history == m.history + seq![a, b, c],
{
    let m1 = advance(m, pick_a);
    assert(m1.queue =~= seq![b, c]);
    let m2 = advance(m1, pick_b);
    assert(m2.queue =~= seq![c]);
    assert(m2.history =~= m.history + seq![a]);
    let m3 = advance(m2, pick_c);
    assert(m3.queue =~= Seq::<AudioTrack>::empty());
    assert(m3.history =~= m.history + seq![a, b]);
    let m4 = advance(m3, pick_d);
    assert(m4.history =~= m.history + seq![a, b, c]);
}

/// With a repeated track, advancing plays the same track again and leaves
/// the queue as it was; the track also goes to the history.
pub proof fn lemma_repeat_track_replays(m: PlayerModel, pick: int)
    requires
        m.current is Some,
        m.repeat == RepeatMode::RepeatTrack,
    ensures
        advance(m, pick).current == m.current,
        advance(m, pick).queue == m.queue,
        advance(m, pick).history == m.history.push(m.current.unwrap()),
{
    let c = m.current.unwrap();
    assert(m.queue.insert(0, c).remove(0) =~= m.queue);
}

/// A seek before playback first starts is held, a later one replaces it, it
/// is handed out once when playback starts, and then it is gone; after that
/// seeks are no longer held.
pub proof fn lemma_seek_held_until_start(m: PlayerModel, t1: i64, t2: i64, t3: i64)
    requires
        !m.started,
    ensures
        seek_to(seek_to(m, t1), t2).pending_seek == Some(t2),
        start(seek_to(seek_to(m, t1), t2)).pending_seek is None,
        start(start(seek_to(seek_to(m, t1), t2))).pending_seek is None,
        seek_to(start(seek_to(seek_to(m, t1), t2)), t3).pending_seek is None,
{
}

/// Writing a snapshot and restoring it, once the catalog has resolved the
/// queue and history ids, gives back the volume, shuffle and repeat modes,
/// the current track's id and the queue and history ids in order. (A current
/// track with id 0 cannot be told from none.)
pub proof fn lemma_snapshot_round_trip(
    m: PlayerModel,
    position: i64,
    current: Option<AudioTrack>,
    history: Seq<AudioTrack>,
    queue: Seq<AudioTrack>,
)
    requires
        m.current matches Some(c) ==> c.id != 0,
        restores_current(current, snapshot_of(m, position)),
        track_ids(history) == snapshot_of(m, position).history,
        track_ids(queue) == snapshot_of(m, position).queue,
    ensures
        ({
            let r = recovered(restored(snapshot_of(m, position), current), Some(history), Some(queue));
            &&& r.volume == m.volume
            &&& r.shuffle == m.shuffle
            &&& r.repeat == m.repeat
            &&& track_ids(r.queue) == track_ids(m.queue)
            &&& track_ids(r.history) == track_ids(m.history)
            &&& (r.current is Some) == (m.current is Some)
            &&& (r.current matches Some(c) ==> c.id == m.current.unwrap().id)
        }),
{
    let r = recovered(restored(snapshot_of(m, position), current), Some(history), Some(queue));
    assert(r.queue =~= queue);
    assert(r.history =~= history);
}

} // verus!
