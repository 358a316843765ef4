use space_radio::tracker::ChangeTracker;

fn sorted(mut indices: Vec<usize>) -> Vec<usize> {
    indices.sort();
    indices
}

#[test]
fn fresh_tracker_drains_to_nothing() {
    let mut tracker = ChangeTracker::new();
    assert_eq!(tracker.drain(), Vec::<usize>::new());
}

#[test]
fn marked_index_comes_out_of_the_next_drain() {
    let mut tracker = ChangeTracker::new();
    tracker.mark_dirty(12);
    assert_eq!(tracker.drain(), vec![12]);
}

#[test]
fn marking_is_idempotent() {
    let mut tracker = ChangeTracker::new();
    tracker.mark_dirty(7);
    tracker.mark_dirty(7);
    tracker.mark_dirty(7);
    assert_eq!(tracker.drain(), vec![7]);
}

#[test]
fn drain_hands_out_every_index_once() {
    let mut tracker = ChangeTracker::new();
    for index in [9usize, 0, 63, 9, 31, 0, 1000] {
        tracker.mark_dirty(index);
    }
    assert_eq!(sorted(tracker.drain()), vec![0, 9, 31, 63, 1000]);
}

#[test]
fn drain_empties_the_tracker() {
    let mut tracker = ChangeTracker::new();
    tracker.mark_dirty(1);
    tracker.mark_dirty(2);
    assert_eq!(tracker.drain().len(), 2);
    assert!(tracker.drain().is_empty());
    assert!(tracker.drain().is_empty());
}

#[test]
fn tracker_is_usable_again_after_a_drain() {
    let mut tracker = ChangeTracker::new();
    tracker.mark_dirty(4);
    assert_eq!(tracker.drain(), vec![4]);
    tracker.mark_dirty(5);
    assert_eq!(tracker.drain(), vec![5]);
}

#[test]
fn tracker_holds_the_largest_index() {
    let mut tracker = ChangeTracker::new();
    tracker.mark_dirty(usize::MAX);
    assert_eq!(tracker.drain(), vec![usize::MAX]);
}
