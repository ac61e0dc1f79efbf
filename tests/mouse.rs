use viewer_core::integrator::{camera_mouse_movement, handle_mouse_event, MouseEvent, MouseState};
use viewer_core::orientation::{clamp_pitch, saturate_i64, Orientation, QUARTER_TURN, SAFE_PITCH};

#[test]
fn drag_start_uses_fresh_cursor_position() {
    let mut o = Orientation { yaw: 0, pitch: 0 };
    let mut m = MouseState::new(10_000);
    m.x = 100;
    m.y = 100;
    camera_mouse_movement(&mut o, &mut m, (200, 100));
    assert_eq!(o.yaw, 0);
    assert_eq!((m.x, m.y), (200, 100));
    m.set_drag(true);
    assert_eq!((m.x, m.y), (200, 100));
    camera_mouse_movement(&mut o, &mut m, (205, 100));
    assert_eq!(o.yaw, 50_000);
    assert_eq!(o.pitch, 0);
}

#[test]
fn moving_without_drag_keeps_orientation() {
    let mut o = Orientation::new();
    let mut m = MouseState::new(5_000);
    camera_mouse_movement(&mut o, &mut m, (-40, 73));
    assert_eq!(o, Orientation::new());
    assert_eq!(m, MouseState { x: -40, y: 73, sensitivity: 5_000, drag: false });
}

#[test]
fn moving_down_lowers_pitch() {
    let mut o = Orientation { yaw: 7, pitch: 0 };
    let mut m = MouseState::new(5_000);
    m.set_drag(true);
    camera_mouse_movement(&mut o, &mut m, (-3, 10));
    assert_eq!(o.yaw, 7 - 15_000);
    assert_eq!(o.pitch, -50_000);
}

#[test]
fn pitch_is_held_below_quarter_turn() {
    let mut o = Orientation { yaw: 0, pitch: 1_500_000 };
    let mut m = MouseState::new(5_000);
    m.set_drag(true);
    camera_mouse_movement(&mut o, &mut m, (0, -100));
    assert_eq!(o.pitch, SAFE_PITCH);
    assert_eq!(SAFE_PITCH, QUARTER_TURN - 100);
    camera_mouse_movement(&mut o, &mut m, (0, -200));
    assert_eq!(o.pitch, SAFE_PITCH);
}

#[test]
fn pitch_is_held_above_minus_quarter_turn() {
    let mut o = Orientation::new();
    let mut m = MouseState::new(5_000);
    m.set_drag(true);
    camera_mouse_movement(&mut o, &mut m, (0, 1_000));
    assert_eq!(o.pitch, -SAFE_PITCH);
    assert_eq!(o.yaw, QUARTER_TURN);
}

#[test]
fn release_stops_turning() {
    let mut o = Orientation::new();
    let mut m = MouseState::new(5_000);
    m.set_drag(true);
    camera_mouse_movement(&mut o, &mut m, (10, 0));
    m.set_drag(false);
    camera_mouse_movement(&mut o, &mut m, (500, 500));
    assert_eq!(o.yaw, QUARTER_TURN + 50_000);
    assert_eq!(o.pitch, 0);
}

#[test]
fn yaw_saturates_at_i64_limits() {
    let mut o = Orientation { yaw: i64::MAX - 10, pitch: 0 };
    let mut m = MouseState::new(i64::MAX);
    m.set_drag(true);
    camera_mouse_movement(&mut o, &mut m, (1, 0));
    assert_eq!(o.yaw, i64::MAX);
    let mut o = Orientation { yaw: i64::MIN + 10, pitch: 0 };
    let mut m = MouseState::new(i64::MAX);
    m.set_drag(true);
    camera_mouse_movement(&mut o, &mut m, (i32::MIN, 0));
    assert_eq!(o.yaw, i64::MIN);
}

#[test]
fn extreme_drag_does_not_overflow() {
    let mut o = Orientation::new();
    let mut m = MouseState { x: i32::MIN, y: i32::MIN, sensitivity: i64::MIN, drag: true };
    camera_mouse_movement(&mut o, &mut m, (i32::MAX, i32::MAX));
    assert_eq!(o.yaw, i64::MIN);
    assert_eq!(o.pitch, SAFE_PITCH);
}

#[test]
fn orientation_starts_level_facing_z() {
    let o = Orientation::new();
    assert_eq!(o.yaw, 1_570_796);
    assert_eq!(o.pitch, 0);
}

#[test]
fn clamp_pitch_values() {
    assert_eq!(clamp_pitch(0), 0);
    assert_eq!(clamp_pitch(-12), -12);
    assert_eq!(clamp_pitch(SAFE_PITCH as i128), SAFE_PITCH);
    assert_eq!(clamp_pitch(SAFE_PITCH as i128 + 1), SAFE_PITCH);
    assert_eq!(clamp_pitch(-(SAFE_PITCH as i128) - 1), -SAFE_PITCH);
    assert_eq!(clamp_pitch(i128::MAX), SAFE_PITCH);
}

#[test]
fn saturate_values() {
    assert_eq!(saturate_i64(5), 5);
    assert_eq!(saturate_i64(i64::MAX as i128 + 1), i64::MAX);
    assert_eq!(saturate_i64(i64::MIN as i128 - 1), i64::MIN);
}

#[test]
fn drag_start_through_events() {
    let mut o = Orientation { yaw: 0, pitch: 0 };
    let mut m = MouseState::new(10_000);
    let events = [
        MouseEvent::Moved(100, 100),
        MouseEvent::Moved(200, 100),
        MouseEvent::Button(true),
        MouseEvent::Moved(205, 100),
    ];
    for e in events {
        handle_mouse_event(&mut o, &mut m, e);
    }
    assert_eq!(o, Orientation { yaw: 50_000, pitch: 0 });
    assert_eq!(m, MouseState { x: 205, y: 100, sensitivity: 10_000, drag: true });
}

#[test]
fn button_release_through_events() {
    let mut o = Orientation::new();
    let mut m = MouseState::new(5_000);
    handle_mouse_event(&mut o, &mut m, MouseEvent::Button(true));
    handle_mouse_event(&mut o, &mut m, MouseEvent::Moved(0, -400));
    assert_eq!(o.pitch, SAFE_PITCH);
    handle_mouse_event(&mut o, &mut m, MouseEvent::Button(false));
    handle_mouse_event(&mut o, &mut m, MouseEvent::Moved(0, 400));
    assert_eq!(o.pitch, SAFE_PITCH);
    assert!(!m.drag);
    assert_eq!((m.x, m.y), (0, 400));
}
