use poltergeist::capture::{CaptureSlot, DeltaTracker, SurfaceMetadata};

fn meta(x: u32, y: u32) -> SurfaceMetadata {
    SurfaceMetadata { size_x: x, size_y: y, activated: true }
}

#[test]
fn capture_into_empty_slot() {
    let mut slot = CaptureSlot::new();
    assert!(!slot.is_occupied());
    let evicted = slot.captured("A".to_string(), Some(meta(640, 480)));
    assert!(evicted.is_none());
    assert!(slot.is_occupied());
    assert_eq!(slot.item.as_ref().unwrap().uid, "A");
}

#[test]
fn second_capture_evicts_first_exactly_once() {
    let mut slot = CaptureSlot::new();
    let e1 = slot.captured("A".to_string(), None);
    assert!(e1.is_none());
    let e2 = slot.captured("B".to_string(), None);
    // The first item comes back out of the slot exactly here, so its
    // resources are torn down once; the slot now holds the second item.
    assert_eq!(e2.unwrap().uid, "A");
    assert_eq!(slot.item.as_ref().unwrap().uid, "B");
}

#[test]
fn matching_release_empties_the_slot() {
    let mut slot = CaptureSlot::new();
    slot.captured("A".to_string(), None);
    let evicted = slot.released(&"A".to_string());
    assert_eq!(evicted.unwrap().uid, "A");
    assert!(!slot.is_occupied());
}

#[test]
fn mismatched_release_is_ignored() {
    let mut slot = CaptureSlot::new();
    slot.captured("B".to_string(), None);
    let evicted = slot.released(&"A".to_string());
    assert!(evicted.is_none());
    assert_eq!(slot.item.as_ref().unwrap().uid, "B");
}

#[test]
fn release_while_empty_is_a_noop() {
    let mut slot = CaptureSlot::new();
    assert!(slot.released(&"A".to_string()).is_none());
    assert!(!slot.is_occupied());
}

#[test]
fn metadata_commit_while_empty_is_a_noop() {
    let mut slot = CaptureSlot::new();
    slot.metadata_committed(Some(meta(1, 1)));
    assert!(!slot.is_occupied());
    assert!(slot.take_changed().is_none());
}

#[test]
fn tracker_first_check_fires_even_for_absent_value() {
    let mut t = DeltaTracker::new(None);
    assert!(t.check_changed());
    assert!(!t.check_changed());
}

#[test]
fn tracker_reports_each_distinct_value_once() {
    let mut t = DeltaTracker::new(Some(meta(640, 480)));
    assert!(t.check_changed());
    // Committing the value already held keeps the tracker quiet.
    t.commit(Some(meta(640, 480)));
    assert!(!t.check_changed());
    // A distinct value fires exactly once.
    t.commit(Some(meta(800, 600)));
    assert!(t.check_changed());
    assert!(!t.check_changed());
    // Two commits between checks still fire a single time.
    t.commit(None);
    t.commit(Some(meta(800, 600)));
    assert!(t.check_changed());
    assert!(!t.check_changed());
}

#[test]
fn fresh_capture_marks_metadata_changed() {
    let mut slot = CaptureSlot::new();
    slot.captured("A".to_string(), Some(meta(640, 480)));
    assert_eq!(slot.take_changed(), Some(Some(meta(640, 480))));
    assert_eq!(slot.take_changed(), None);
    slot.metadata_committed(Some(meta(640, 480)));
    assert_eq!(slot.take_changed(), None);
    slot.metadata_committed(Some(meta(1024, 768)));
    assert_eq!(slot.take_changed(), Some(Some(meta(1024, 768))));
    assert_eq!(slot.take_changed(), None);
}

#[test]
fn recapture_resets_the_delta() {
    let mut slot = CaptureSlot::new();
    slot.captured("A".to_string(), Some(meta(640, 480)));
    slot.take_changed();
    // A new capture starts a fresh tracker: its first check fires again.
    slot.captured("B".to_string(), Some(meta(640, 480)));
    assert_eq!(slot.take_changed(), Some(Some(meta(640, 480))));
}
