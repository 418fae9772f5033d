use poltergeist::capture::SurfaceMetadata;
use poltergeist::geom::{InputSample, Vec3Fx};
use poltergeist::poltergeist::Poltergeist;

fn meta(x: u32, y: u32) -> SurfaceMetadata {
    SurfaceMetadata { size_x: x, size_y: y, activated: true }
}

fn touch_center() -> Vec<InputSample> {
    vec![InputSample::Point { position: Vec3Fx { x: 0, y: 0, z: 0 } }]
}

#[test]
fn nothing_is_forwarded_while_empty() {
    let mut p = Poltergeist::new();
    let out = p.frame(&touch_center());
    assert!(out.motion.is_none());
    assert!(!out.press);
    assert!(!out.release);
}

#[test]
fn captured_surface_gets_press_motion_release() {
    let mut p = Poltergeist::new();
    p.captured("A".to_string(), Some(meta(640, 480)));
    // The fresh capture's metadata applies before the remap of this very
    // tick, so the center of the plane lands mid-surface.
    let out = p.frame(&touch_center());
    assert!(out.press);
    assert!(!out.release);
    assert_eq!(out.motion, Some((320, 239)));
    // Leaving the band releases the button.
    let out = p.frame(&Vec::new());
    assert!(!out.press);
    assert!(out.release);
    assert!(out.motion.is_none());
}

#[test]
fn metadata_change_mid_touch_keeps_contact() {
    let mut p = Poltergeist::new();
    p.captured("A".to_string(), Some(meta(640, 480)));
    let out = p.frame(&touch_center());
    assert!(out.press);
    // The surface declares a new size mid-touch: the ranges move, the
    // contact does not, so no second press fires.
    p.metadata_committed(Some(meta(320, 240)));
    let out = p.frame(&touch_center());
    assert!(!out.press);
    assert!(!out.release);
    assert_eq!(out.motion, Some((160, 119)));
}

#[test]
fn unchanged_metadata_keeps_ranges() {
    let mut p = Poltergeist::new();
    p.captured("A".to_string(), Some(meta(640, 480)));
    p.frame(&touch_center());
    // Re-committing the identical size changes nothing.
    p.metadata_committed(Some(meta(640, 480)));
    let out = p.frame(&touch_center());
    assert_eq!(out.motion, Some((320, 239)));
}

#[test]
fn recapture_evicts_and_stale_release_is_ignored() {
    let mut p = Poltergeist::new();
    assert!(p.captured("A".to_string(), None).is_none());
    let evicted = p.captured("B".to_string(), None);
    assert_eq!(evicted.unwrap().uid, "A");
    // The stale release of the superseded panel must not clear the slot.
    assert!(p.released(&"A".to_string()).is_none());
    assert_eq!(p.slot.item.as_ref().unwrap().uid, "B");
    assert_eq!(p.released(&"B".to_string()).unwrap().uid, "B");
    assert!(p.slot.item.is_none());
}
