//! The per-event and per-frame decisions that move the camera.
//!
//! Keyboard: on each of the three movement axes one of two opposing keys
//! selects a direction. Where both are held, the key checked first wins;
//! the two never cancel out. What is returned is a sign per axis, which the
//! caller scales by speed and elapsed time.
//!
//! Mouse: while the primary button is held, cursor motion turns the camera.
//! Every cursor move updates the remembered cursor position, dragging or
//! not, so that the first move of a drag is measured from where the cursor
//! really was.
use crate::keyboard::{key_down, KeyState, Keyboard};
use crate::orientation::{
    clamp_pitch, clamped_pitch, saturate, saturate_i64, Orientation, QUARTER_TURN, SAFE_PITCH,
};
use vstd::prelude::*;

verus! {

/// Code of the key that moves forward, `'W'`.
pub const KEY_W: u32 = 87;

/// Code of the key that moves backward, `'S'`.
pub const KEY_S: u32 = 83;

/// Code of the key that moves left, `'A'`.
pub const KEY_A: u32 = 65;

/// Code of the key that moves right, `'D'`.
pub const KEY_D: u32 = 68;

/// Code of the key that moves down, `'Q'`.
pub const KEY_Q: u32 = 81;

/// Code of the key that moves up, `'E'`.
pub const KEY_E: u32 = 69;

/// The sign selected on one axis: `first_sign` when `first` is held,
/// otherwise its opposite when `second` is held, otherwise zero.
pub open spec fn axis_sign(keys: Map<u32, KeyState>, first: u32, second: u32, first_sign: int) -> int {
    if key_down(keys, first) {
        first_sign
    } else if key_down(keys, second) {
        -first_sign
    } else {
        0
    }
}

/// The direction of motion on each axis, each -1, 0 or 1.
#[derive(Clone, Copy, Debug, PartialEq, Eq, Structural)]
pub struct Movement {
    /// Along the camera's forward axis.
    pub forward: i8,
    /// Along the camera's right axis.
    pub right: i8,
    /// Along the world's up axis.
    pub up: i8,
}

/// What the keys held on `keys` ask for: forward (W) before backward (S),
/// left (A) before right (D), down (Q) before up (E).
pub open spec fn movement_of(keys: Map<u32, KeyState>) -> Movement {
    Movement {
        forward: axis_sign(keys, KEY_W, KEY_S, 1) as i8,
        right: axis_sign(keys, KEY_A, KEY_D, -1) as i8,
        up: axis_sign(keys, KEY_Q, KEY_E, -1) as i8,
    }
}

fn axis(keyboard: &Keyboard, first: u32, second: u32, first_sign: i8) -> (r: i8)
    requires
        first_sign == 1 || first_sign == -1,
    ensures
        r == axis_sign(keyboard@, first, second, first_sign as int),
{
    if keyboard.is_pressed(first) {
        first_sign
    } else if keyboard.is_pressed(second) {
        -first_sign
    } else {
        0
    }
}

/// The direction of motion that the held keys select on each axis.
pub fn keyboard_movement(keyboard: &Keyboard) -> (m: Movement)
    ensures
        m == movement_of(keyboard@),
{
    Movement {
        forward: axis(keyboard, KEY_W, KEY_S, 1),
        right: axis(keyboard, KEY_A, KEY_D, -1),
        up: axis(keyboard, KEY_Q, KEY_E, -1),
    }
}

/// The mouse as the camera control sees it.
#[derive(Clone, Copy, Debug, PartialEq, Eq, Structural)]
pub struct MouseState {
    /// Last known cursor position, in window pixels.
    pub x: i32,
    pub y: i32,
    /// Turn per pixel of cursor motion, in micro-radians.
    pub sensitivity: i64,
    /// Whether the primary button is held.
    pub drag: bool,
}

impl MouseState {
    /// A mouse at the window's origin, not dragging.
    pub fn new(sensitivity: i64) -> (r: MouseState)
        ensures
            r == (MouseState { x: 0, y: 0, sensitivity, drag: false }),
    {
        MouseState { x: 0, y: 0, sensitivity, drag: false }
    }

    /// Records a press (`true`) or release (`false`) of the primary button.
    /// The cursor position is left as it is.
    pub fn set_drag(&mut self, pressed: bool)
        ensures
            *final(self) == (MouseState { drag: pressed, ..*old(self) }),
    {
        self.drag = pressed;
    }
}

/// The orientation after the cursor moves from the position `mouse` holds
/// to `(x, y)`: unchanged unless dragging; while dragging, yaw grows with the
/// horizontal motion and pitch falls with the vertical motion (screen y
/// grows downward), then is held within the safe range.
pub open spec fn turned(o: Orientation, mouse: MouseState, x: int, y: int) -> Orientation {
    if mouse.drag {
        Orientation {
            yaw: saturate(o.yaw + (x - mouse.x) * mouse.sensitivity) as i64,
            pitch: clamped_pitch(o.pitch - (y - mouse.y) * mouse.sensitivity) as i64,
        }
    } else {
        o
    }
}

/// Handles a cursor move to `position`: turns the camera if dragging, and
/// always remembers the new position.
pub fn camera_mouse_movement(
    orientation: &mut Orientation,
    state: &mut MouseState,
    position: (i32, i32),
)
    ensures
        *final(orientation) == turned(*old(orientation), *old(state), position.0 as int, position.1 as int),
        *final(state) == (MouseState { x: position.0, y: position.1, ..*old(state) }),
        old(state).drag ==> final(orientation).pitch_in_range(),
        old(orientation).pitch_in_range() ==> final(orientation).pitch_in_range(),
{
    let (x, y) = position;
    if state.drag {
        let dx = x as i128 - state.x as i128;
        let dy = y as i128 - state.y as i128;
        let s = state.sensitivity as i128;
        assert(-0x1_0000_0000 <= dx <= 0x1_0000_0000);
        assert(-0x1_0000_0000 <= dy <= 0x1_0000_0000);
        assert(-0x1_0000_0000_0000_0000_0000_0000 <= dx * s <= 0x1_0000_0000_0000_0000_0000_0000)
            by (nonlinear_arith)
            requires
                -0x1_0000_0000 <= dx <= 0x1_0000_0000,
                -0x8000_0000_0000_0000 <= s < 0x8000_0000_0000_0000,
        ;
        assert(-0x1_0000_0000_0000_0000_0000_0000 <= dy * s <= 0x1_0000_0000_0000_0000_0000_0000)
            by (nonlinear_arith)
            requires
                -0x1_0000_0000 <= dy <= 0x1_0000_0000,
                -0x8000_0000_0000_0000 <= s < 0x8000_0000_0000_0000,
        ;
        orientation.yaw = saturate_i64(orientation.yaw as i128 + dx * s);
        orientation.pitch = clamp_pitch(orientation.pitch as i128 - dy * s);
    }
    state.x = x;
    state.y = y;
}

/// A mouse event as the camera control sees it.
#[derive(Clone, Copy, Debug, PartialEq, Eq, Structural)]
pub enum MouseEvent {
    /// The primary button went down (`true`) or up (`false`).
    Button(bool),
    /// The cursor moved to this position, in window pixels.
    Moved(i32, i32),
}

/// The orientation and mouse after one event.
pub open spec fn mouse_step(o: Orientation, mouse: MouseState, e: MouseEvent) -> (
    Orientation,
    MouseState,
) {
    match e {
        MouseEvent::Button(pressed) => (o, MouseState { drag: pressed, ..mouse }),
        MouseEvent::Moved(x, y) => (turned(o, mouse, x as int, y as int), MouseState { x, y, ..mouse }),
    }
}

/// The orientation and mouse after `events`, in order.
pub open spec fn mouse_run(o: Orientation, mouse: MouseState, events: Seq<MouseEvent>) -> (
    Orientation,
    MouseState,
)
    decreases events.len(),
{
    if events.len() == 0 {
        (o, mouse)
    } else {
        let (o1, m1) = mouse_step(o, mouse, events[0]);
        mouse_run(o1, m1, events.subrange(1, events.len() as int))
    }
}

/// Applies one mouse event: a button event starts or ends a drag, a cursor
/// move turns the camera while dragging.
pub fn handle_mouse_event(orientation: &mut Orientation, state: &mut MouseState, event: MouseEvent)
    ensures
        (*final(orientation), *final(state)) == mouse_step(*old(orientation), *old(state), event),
{
    match event {
        MouseEvent::Button(pressed) => state.set_drag(pressed),
        MouseEvent::Moved(x, y) => camera_mouse_movement(orientation, state, (x, y)),
    }
}

/// No sequence of mouse events takes a camera whose pitch is in range out of
/// it: every orientation reachable from `Orientation::new` keeps its pitch
/// within the safe limit, short of a quarter turn.
pub proof fn lemma_reachable_pitch_in_range(o: Orientation, mouse: MouseState, events: Seq<MouseEvent>)
    requires
        o.pitch_in_range(),
    ensures
        mouse_run(o, mouse, events).0.pitch_in_range(),
        -QUARTER_TURN < mouse_run(o, mouse, events).0.pitch < QUARTER_TURN,
    decreases events.len(),
{
    if events.len() > 0 {
        let (o1, m1) = mouse_step(o, mouse, events[0]);
        lemma_reachable_pitch_in_range(o1, m1, events.subrange(1, events.len() as int));
    }
}

/// Dragging can never tilt the camera to a quarter turn or past it: a drag
/// that would carry the pitch beyond the safe limit leaves it exactly at the
/// limit, and every pitch that dragging leaves, or that a camera in range
/// keeps, is strictly short of straight up or straight down.
pub proof fn lemma_drag_pitch_limit(o: Orientation, mouse: MouseState, x: i32, y: i32)
    requires
        mouse.drag || o.pitch_in_range(),
    ensures
        ({
            let raw = o.pitch - (y - mouse.y) * mouse.sensitivity;
            let p = turned(o, mouse, x as int, y as int).pitch;
            &&& -SAFE_PITCH <= p <= SAFE_PITCH
            &&& -QUARTER_TURN < p < QUARTER_TURN
            &&& mouse.drag && raw > SAFE_PITCH ==> p == SAFE_PITCH
            &&& mouse.drag && raw < -SAFE_PITCH ==> p == -SAFE_PITCH
        }),
{
}

} // verus!
