use poltergeist::capture::SurfaceMetadata;
use poltergeist::panel::PanelItemUI;
use poltergeist::registry::{GrabEvent, PanelItemUIHandler};

fn meta(x: u32, y: u32) -> SurfaceMetadata {
    SurfaceMetadata { size_x: x, size_y: y, activated: true }
}

fn grab(uid: &str, started: bool, stopped: bool) -> GrabEvent {
    GrabEvent { uid: uid.to_string(), started, stopped }
}

#[test]
fn panel_scale_follows_aspect_ratio() {
    let (mut ui, scale) = PanelItemUI::new(Some(meta(640, 480)));
    // 0.1 wide, 0.1 * 480/640 = 0.075 tall, 0.01 thick.
    assert_eq!(scale, (100_000, 75_000, 10_000));
    let scale = ui.commit_toplevel(Some(meta(480, 640)));
    assert_eq!(scale, (100_000, 133_333, 10_000));
}

#[test]
fn absent_toplevel_falls_back_to_square() {
    let (_, scale) = PanelItemUI::new(None);
    assert_eq!(scale, (100_000, 100_000, 10_000));
    let (_, scale) = PanelItemUI::new(Some(meta(0, 480)));
    assert_eq!(scale, (100_000, 100_000, 10_000));
}

#[test]
fn panel_tracks_capture_state() {
    let (mut ui, _) = PanelItemUI::new(None);
    assert!(!ui.captured);
    ui.captured(&"r".to_string());
    assert!(ui.captured);
    ui.released(&"r".to_string());
    assert!(!ui.captured);
}

#[test]
fn registry_lifecycle() {
    let mut reg = PanelItemUIHandler::new();
    let scale = reg.item_created("a".to_string(), Some(meta(640, 480)));
    assert_eq!(scale, (100_000, 75_000, 10_000));
    assert_eq!(reg.items.len(), 1);
    reg.item_captured(&"a".to_string(), &"recept".to_string());
    assert!(reg.items[0].1.captured);
    reg.item_released(&"a".to_string(), &"recept".to_string());
    assert!(!reg.items[0].1.captured);
    reg.item_destroyed(&"a".to_string());
    assert!(reg.items.is_empty());
}

#[test]
fn registry_replaces_existing_uid() {
    let mut reg = PanelItemUIHandler::new();
    reg.item_created("a".to_string(), None);
    reg.item_captured(&"a".to_string(), &"recept".to_string());
    reg.item_created("a".to_string(), Some(meta(640, 480)));
    assert_eq!(reg.items.len(), 1);
    // The replacement is a fresh panel: not captured any more.
    assert!(!reg.items[0].1.captured);
}

#[test]
fn registry_ignores_unknown_uids() {
    let mut reg = PanelItemUIHandler::new();
    reg.item_created("a".to_string(), None);
    reg.item_captured(&"zz".to_string(), &"recept".to_string());
    reg.item_destroyed(&"zz".to_string());
    assert_eq!(reg.items.len(), 1);
    assert!(!reg.items[0].1.captured);
}

#[test]
fn frame_dispatches_grab_events() {
    let mut reg = PanelItemUIHandler::new();
    reg.item_created("a".to_string(), None);
    let grabs = vec![grab("a", true, false), grab("b", false, true), grab("a", false, true)];
    let actions = reg.frame(&grabs);
    assert_eq!(actions.len(), 3);
    assert!(actions[0].known && actions[0].reparent && !actions[0].resolve_docking);
    assert!(!actions[1].known && !actions[1].reparent && !actions[1].resolve_docking);
    assert!(actions[2].known && !actions[2].reparent && actions[2].resolve_docking);
}
