use hover_arena::shared::trusted::{accept_batch, TrustedInput};
use hover_arena::shared::units::Vec3;

fn input(frame: u32, x: i64) -> TrustedInput {
    TrustedInput { frame, translation: Vec3::new(x, 0, 0) }
}

#[test]
fn older_frames_are_dropped() {
    let batch = vec![input(5, 1), input(3, 9), input(5, 2), input(7, 3)];
    let (lock, kept) = accept_batch(0, &batch);
    assert_eq!(lock, 7);
    // a frame equal to the lock is not older than it, and is accepted
    assert_eq!(kept, vec![Vec3::new(1, 0, 0), Vec3::new(2, 0, 0), Vec3::new(3, 0, 0)]);
}

#[test]
fn accepted_frames_never_decrease() {
    let frames = [4u32, 9, 2, 9, 10, 1, 3, 12, 11, 12];
    let batch: Vec<TrustedInput> =
        frames.iter().map(|frame| input(*frame, *frame as i64)).collect();
    let (lock, kept) = accept_batch(3, &batch);
    assert_eq!(lock, 12);
    let frames_kept: Vec<i64> = kept.iter().map(|translation| translation.x).collect();
    assert_eq!(frames_kept, vec![4, 9, 9, 10, 12, 12]);
    for pair in frames_kept.windows(2) {
        assert!(pair[0] <= pair[1]);
    }
}

#[test]
fn an_empty_batch_changes_nothing() {
    let (lock, kept) = accept_batch(42, &Vec::new());
    assert_eq!(lock, 42);
    assert!(kept.is_empty());
}

#[test]
fn a_batch_below_the_lock_is_dropped_whole() {
    let batch = vec![input(1, 1), input(2, 2)];
    let (lock, kept) = accept_batch(3, &batch);
    assert_eq!(lock, 3);
    assert!(kept.is_empty());
}

#[test]
fn two_batches_are_one_long_batch() {
    let first = vec![input(2, 1), input(1, 2), input(6, 3)];
    let second = vec![input(5, 4), input(6, 5), input(8, 6)];
    let (middle, kept_first) = accept_batch(0, &first);
    let (last, kept_second) = accept_batch(middle, &second);
    let mut all = first.clone();
    all.extend(second.iter().copied());
    let (lock, kept) = accept_batch(0, &all);
    assert_eq!(lock, last);
    let mut joined = kept_first.clone();
    joined.extend(kept_second.iter().copied());
    assert_eq!(kept, joined);
}

#[test]
fn the_largest_frame_is_accepted() {
    let batch = vec![input(u32::MAX, 1), input(u32::MAX, 2), input(0, 3)];
    let (lock, kept) = accept_batch(u32::MAX, &batch);
    assert_eq!(lock, u32::MAX);
    assert_eq!(kept.len(), 2);
}
