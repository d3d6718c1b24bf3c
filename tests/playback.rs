use anmutunes::defs::{AudioBackendState, AudioTrack, RepeatMode};
use anmutunes::playback::{recovery_ids, Effect, Player, QueueError};

fn track(id: i64) -> AudioTrack {
    AudioTrack { id, location: format!("/music/{}.mp3", id) }
}

fn ids(tracks: &[AudioTrack]) -> Vec<i64> {
    tracks.iter().map(|t| t.id).collect()
}

fn current_id(p: &Player) -> Option<i64> {
    p.current.as_ref().map(|t| t.id)
}

#[test]
fn next_plays_queue_in_order_then_stops() {
    let mut p = Player::new();
    p.queue = vec![track(1), track(2), track(3)];
    let mut seen = vec![];
    for _ in 0..3 {
        match p.next(false) {
            Effect::Load { location, resume } => {
                assert!(!resume);
                seen.push(location);
            }
            Effect::Stop => panic!("stopped early"),
        }
        seen.push(format!("{:?}", current_id(&p)));
    }
    assert_eq!(
        seen,
        vec![
            "/music/1.mp3".to_string(),
            "Some(1)".to_string(),
            "/music/2.mp3".to_string(),
            "Some(2)".to_string(),
            "/music/3.mp3".to_string(),
            "Some(3)".to_string(),
        ]
    );
    assert!(matches!(p.next(true), Effect::Stop));
    assert_eq!(current_id(&p), None);
    assert!(p.queue.is_empty());
    assert_eq!(ids(&p.history), vec![1, 2, 3]);
}

#[test]
fn repeat_track_replays_current() {
    let mut p = Player::new();
    p.repeat = RepeatMode::RepeatTrack;
    p.current = Some(track(1));
    p.queue = vec![track(2)];
    let e = p.next(true);
    assert!(matches!(e, Effect::Load { ref location, resume: true } if location == "/music/1.mp3"));
    assert_eq!(current_id(&p), Some(1));
    assert_eq!(ids(&p.queue), vec![2]);
    assert_eq!(ids(&p.history), vec![1]);
}

#[test]
fn repeat_track_ignores_shuffle() {
    let mut p = Player::new();
    p.repeat = RepeatMode::RepeatTrack;
    p.shuffle = true;
    p.current = Some(track(1));
    p.queue = vec![track(2), track(3), track(4)];
    p.next(true);
    assert_eq!(current_id(&p), Some(1));
    assert_eq!(ids(&p.queue), vec![2, 3, 4]);
}

#[test]
fn repeat_queue_appends_current() {
    let mut p = Player::new();
    p.repeat = RepeatMode::RepeatQueue;
    p.current = Some(track(1));
    p.queue = vec![track(2)];
    p.next(true);
    assert_eq!(current_id(&p), Some(2));
    assert_eq!(ids(&p.queue), vec![1]);
    p.next(true);
    assert_eq!(current_id(&p), Some(1));
    assert_eq!(ids(&p.queue), vec![2]);
    assert_eq!(ids(&p.history), vec![1, 2]);
}

#[test]
fn shuffled_next_takes_a_queued_track() {
    for _ in 0..20 {
        let mut p = Player::new();
        p.shuffle = true;
        p.queue = vec![track(1), track(2), track(3), track(4)];
        p.next(true);
        let c = current_id(&p).unwrap();
        assert!((1..=4).contains(&c));
        let mut rest = ids(&p.queue);
        rest.push(c);
        rest.sort();
        assert_eq!(rest, vec![1, 2, 3, 4]);
    }
}

#[test]
fn advance_to_uses_pick_only_when_shuffled() {
    let mut p = Player::new();
    p.queue = vec![track(1), track(2), track(3)];
    p.advance_to(2, true);
    assert_eq!(current_id(&p), Some(1));
    let mut s = Player::new();
    s.shuffle = true;
    s.queue = vec![track(1), track(2), track(3)];
    s.advance_to(2, true);
    assert_eq!(current_id(&s), Some(3));
    assert_eq!(ids(&s.queue), vec![1, 2]);
}

#[test]
fn prev_returns_to_history() {
    let mut p = Player::new();
    p.history = vec![track(1), track(2)];
    p.current = Some(track(3));
    p.queue = vec![track(4)];
    let e = p.prev(false);
    assert!(matches!(e, Effect::Load { ref location, resume: false } if location == "/music/2.mp3"));
    assert_eq!(current_id(&p), Some(2));
    assert_eq!(ids(&p.queue), vec![3, 4]);
    assert_eq!(ids(&p.history), vec![1]);
}

#[test]
fn prev_with_empty_history_stops() {
    let mut p = Player::new();
    p.current = Some(track(3));
    assert!(matches!(p.prev(true), Effect::Stop));
    assert_eq!(current_id(&p), Some(3));
}

#[test]
fn queue_jump_drops_skipped_entries() {
    let mut p = Player::new();
    p.current = Some(track(1));
    p.queue = vec![track(2), track(3), track(4), track(5)];
    let e = p.queue_jump(2).unwrap();
    assert!(matches!(e, Effect::Load { ref location, resume: true } if location == "/music/4.mp3"));
    assert_eq!(current_id(&p), Some(4));
    assert_eq!(ids(&p.queue), vec![5]);
    assert_eq!(ids(&p.history), vec![1]);
    assert_eq!(p.queue_jump(5).unwrap_err(), QueueError::OutOfRange);
    assert_eq!(p.queue_jump(-1).unwrap_err(), QueueError::OutOfRange);
    assert_eq!(current_id(&p), Some(4));
    assert_eq!(ids(&p.queue), vec![5]);
}

#[test]
fn history_jump_keeps_history() {
    let mut p = Player::new();
    p.history = vec![track(1), track(2)];
    p.current = Some(track(3));
    p.history_jump(0).unwrap();
    assert_eq!(current_id(&p), Some(1));
    assert_eq!(ids(&p.history), vec![1, 2, 3]);
    assert_eq!(p.history_jump(9).unwrap_err(), QueueError::OutOfRange);
    assert_eq!(current_id(&p), Some(1));
}

#[test]
fn queue_move_reorders_by_ids() {
    let mut p = Player::new();
    p.queue = vec![track(1), track(2), track(3)];
    assert_eq!(p.queue_move(&vec![3, 1, 2]), Ok(()));
    assert_eq!(ids(&p.queue), vec![3, 1, 2]);
    assert_eq!(p.queue_move(&vec![3, 9, 1]), Err(QueueError::UnknownId));
    assert_eq!(p.queue_move(&vec![3, 1]), Err(QueueError::UnknownId));
    assert_eq!(p.queue_move(&vec![]), Err(QueueError::UnknownId));
    assert_eq!(p.queue_move(&vec![3, 3, 1]), Err(QueueError::UnknownId));
    assert_eq!(ids(&p.queue), vec![3, 1, 2]);
}

#[test]
fn queue_move_takes_repeated_ids_in_turn() {
    let mut p = Player::new();
    p.queue = vec![track(1), AudioTrack { id: 2, location: "a".into() }, AudioTrack { id: 2, location: "b".into() }];
    assert_eq!(p.queue_move(&vec![2, 1, 2]), Ok(()));
    assert_eq!(ids(&p.queue), vec![2, 1, 2]);
    assert_eq!(p.queue[0].location, "a");
    assert_eq!(p.queue[2].location, "b");
}

#[test]
fn queue_remove_drops_listed_positions() {
    let mut p = Player::new();
    p.queue = vec![track(1), track(2), track(3), track(4)];
    p.queue_remove(&vec![3, 0, 7, -1]);
    assert_eq!(ids(&p.queue), vec![2, 3]);
}

#[test]
fn queue_insert_at_position_and_append() {
    let mut p = Player::new();
    p.queue = vec![track(1), track(2)];
    assert_eq!(p.queue_insert(vec![track(7), track(8)], Some(1)), Ok(()));
    assert_eq!(ids(&p.queue), vec![1, 7, 8, 2]);
    assert_eq!(p.queue_insert(vec![track(9)], None), Ok(()));
    assert_eq!(ids(&p.queue), vec![1, 7, 8, 2, 9]);
    assert_eq!(p.queue_insert(vec![track(5)], Some(6)), Err(QueueError::OutOfRange));
    assert_eq!(ids(&p.queue), vec![1, 7, 8, 2, 9]);
}

#[test]
fn play_replaces_queue() {
    let mut p = Player::new();
    p.current = Some(track(1));
    p.queue = vec![track(2)];
    let e = p.play(vec![track(5), track(6)]);
    assert!(matches!(e, Effect::Load { ref location, resume: true } if location == "/music/5.mp3"));
    assert_eq!(current_id(&p), Some(5));
    assert_eq!(ids(&p.queue), vec![6]);
    assert_eq!(ids(&p.history), vec![1]);
    assert!(matches!(p.play(vec![]), Effect::Stop));
    assert_eq!(current_id(&p), None);
}

#[test]
fn seek_before_start_is_held_once() {
    let mut p = Player::new();
    assert_eq!(p.seek(1000), None);
    assert_eq!(p.seek(2500), None);
    assert_eq!(p.play_started(), Some(2500));
    assert_eq!(p.play_started(), None);
    assert_eq!(p.seek(4000), Some(4000));
    assert_eq!(p.pending_seek, None);
}

#[test]
fn volume_outside_range_is_refused() {
    let mut p = Player::new();
    assert!(p.set_volume(40));
    assert_eq!(p.volume, 40);
    assert!(!p.set_volume(101));
    assert!(!p.set_volume(-1));
    assert_eq!(p.volume, 40);
}

#[test]
fn snapshot_round_trip() {
    let mut p = Player::new();
    p.set_volume(35);
    p.set_shuffle(true);
    p.set_repeat(RepeatMode::RepeatQueue);
    p.current = Some(track(4));
    p.queue = vec![track(5), track(6)];
    p.history = vec![track(1), track(2)];
    let s: AudioBackendState = p.snapshot(12000);
    assert_eq!(s.current_id, 4);
    assert_eq!(s.current_location, "/music/4.mp3");
    assert_eq!(s.queue, vec![5, 6]);
    assert_eq!(s.history, vec![1, 2]);
    let mut q = Player::from_snapshot(&s);
    assert_eq!(q.volume, 35);
    assert!(q.shuffle);
    assert_eq!(q.repeat, RepeatMode::RepeatQueue);
    assert_eq!(current_id(&q), Some(4));
    assert_eq!(q.pending_seek, Some(12000));
    let (h, qu) = recovery_ids(&s);
    assert_eq!(h, vec![1, 2]);
    assert_eq!(qu, vec![5, 6]);
    q.recover(Some(h.into_iter().map(track).collect()), Some(qu.into_iter().map(track).collect()));
    assert_eq!(ids(&q.queue), vec![5, 6]);
    assert_eq!(ids(&q.history), vec![1, 2]);
}

#[test]
fn snapshot_without_current() {
    let p = Player::new();
    let s = p.snapshot(0);
    assert_eq!(s.current_id, 0);
    assert_eq!(s.current_location, "");
    let q = Player::from_snapshot(&s);
    assert!(q.current.is_none());
    assert_eq!(q.pending_seek, None);
}

#[test]
fn clear_history_empties_it() {
    let mut p = Player::new();
    p.history = vec![track(1)];
    p.clear_history();
    assert!(p.history.is_empty());
}
