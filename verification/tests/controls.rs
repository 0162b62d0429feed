use epicycles::controls::{frame_pause, Action, Controls, Event, Key};

#[test]
fn controls_start_stopped_and_unlocked() {
    let controls = Controls::new();
    assert!(!controls.get_running());
    assert!(!controls.camera_lock);
}

#[test]
fn quitting_stops_the_drawing() {
    let mut controls = Controls::new();
    controls.set_running(true);
    assert!(controls.get_running());
    assert_eq!(controls.handle_event(Event::Quit), Action::Nothing);
    assert!(!controls.get_running());
    assert!(!controls.camera_lock);
}

#[test]
fn dragging_moves_a_free_camera() {
    let mut controls = Controls::new();
    assert_eq!(
        controls.handle_event(Event::MouseMotion { left: true, xrel: 3, yrel: -4 }),
        Action::MoveCamera { x: 3, y: -4 }
    );
    assert_eq!(
        controls.handle_event(Event::MouseMotion { left: false, xrel: 3, yrel: -4 }),
        Action::Nothing
    );
    assert_eq!(controls, Controls::new());
}

#[test]
fn a_locked_camera_is_not_dragged() {
    let mut controls = Controls::new();
    assert_eq!(controls.handle_event(Event::KeyDown { key: Key::L, repeat: false }), Action::Nothing);
    assert!(controls.camera_lock);
    assert_eq!(
        controls.handle_event(Event::MouseMotion { left: true, xrel: 3, yrel: -4 }),
        Action::Nothing
    );
    assert_eq!(controls.handle_event(Event::KeyDown { key: Key::L, repeat: false }), Action::Nothing);
    assert!(!controls.camera_lock);
    assert_eq!(
        controls.handle_event(Event::MouseMotion { left: true, xrel: 1, yrel: 2 }),
        Action::MoveCamera { x: 1, y: 2 }
    );
}

#[test]
fn the_wheel_zooms_by_its_notches() {
    let mut controls = Controls::new();
    assert_eq!(controls.handle_event(Event::MouseWheel { y: 2 }), Action::Zoom { notches: 2 });
    assert_eq!(controls.handle_event(Event::MouseWheel { y: -1 }), Action::Zoom { notches: -1 });
    controls.handle_event(Event::KeyDown { key: Key::L, repeat: false });
    assert_eq!(controls.handle_event(Event::MouseWheel { y: 0 }), Action::Zoom { notches: 0 });
}

#[test]
fn keys_change_the_speed_and_restart() {
    let mut controls = Controls::new();
    controls.set_running(true);
    assert_eq!(controls.handle_event(Event::KeyDown { key: Key::Equals, repeat: false }), Action::Faster);
    assert_eq!(controls.handle_event(Event::KeyDown { key: Key::Minus, repeat: false }), Action::Slower);
    assert_eq!(controls.handle_event(Event::KeyDown { key: Key::R, repeat: false }), Action::Restart);
    assert_eq!(controls.handle_event(Event::KeyDown { key: Key::Other, repeat: false }), Action::Nothing);
    assert_eq!(controls.handle_event(Event::Other), Action::Nothing);
    assert_eq!(controls, Controls { running: true, camera_lock: false });
}

#[test]
fn a_repeating_key_does_nothing() {
    let mut controls = Controls::new();
    for key in [Key::Equals, Key::Minus, Key::R, Key::L, Key::Other] {
        assert_eq!(controls.handle_event(Event::KeyDown { key, repeat: true }), Action::Nothing);
    }
    assert_eq!(controls, Controls::new());
}

#[test]
fn a_frame_rests_for_what_is_left_of_its_time() {
    assert_eq!(frame_pause(60, 0), 16_666_666);
    assert_eq!(frame_pause(60, 6_666_666), 10_000_000);
    assert_eq!(frame_pause(60, 16_666_665), 1);
    assert_eq!(frame_pause(1, 1), 999_999_999);
    assert_eq!(frame_pause(u32::MAX, 0), 0);
}

#[test]
fn a_late_frame_does_not_rest() {
    assert_eq!(frame_pause(60, 16_666_666), 0);
    assert_eq!(frame_pause(60, 1_000_000_000), 0);
    assert_eq!(frame_pause(60, u64::MAX), 0);
}
