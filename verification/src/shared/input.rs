//! The player's input of one frame, read from the state of the devices.

use crate::shared::units::{negate, spec_negate, Vec2, Vec3};
use vstd::prelude::*;

verus! {

/// A mouse button that is held down.
#[derive(Clone, Copy, Debug, PartialEq, Eq, Structural)]
pub enum MouseButton {
    Primary,
    Secondary,
    Auxiliary,
}

/// Something the mouse did since the last frame.
#[derive(Clone, Copy, Debug, PartialEq, Eq, Structural)]
pub enum MouseEvent {
    Motion { x: i64, y: i64, dx: i64, dy: i64 },
    Wheel { dx: i64, dy: i64 },
    Button { button: MouseButton, pressed: bool },
}

/// A key that is held down. The keys that steer are named; any other key is
/// known by its code.
#[derive(Clone, Copy, Debug, PartialEq, Eq, Structural)]
pub enum KeyboardKey {
    W,
    A,
    S,
    D,
    Up,
    Down,
    Left,
    Right,
    Other(u32),
}

/// What the window reported since the last frame.
#[derive(Clone, Copy, Debug, PartialEq, Eq, Structural)]
pub enum WindowEvent {
    CaptureMouse,
    ReleaseMouse,
    RequestFullscreen,
    ReleaseFullscreen,
}

/// The two sticks of a gamepad, each axis from -1 to 1.
#[derive(Clone, Copy, Debug, PartialEq, Eq, Structural)]
pub struct Gamepad {
    pub left_joystick: Vec2,
    pub right_joystick: Vec2,
}

/// The window as the devices see it.
pub struct Window {
    pub focus: bool,
    pub canvas_size: (u32, u32),
    pub pixel_ratio: i64,
    pub events: Vec<WindowEvent>,
}

/// The mouse as the devices see it.
pub struct Mouse {
    pub buttons: Vec<MouseButton>,
    pub events: Vec<MouseEvent>,
}

/// The state of all devices at one frame.
pub struct Devices {
    pub window: Window,
    pub mouse: Mouse,
    pub keyboard: Vec<KeyboardKey>,
    pub gamepads: Vec<Gamepad>,
}

/// A stick axis counts once it leaves this band around zero.
pub const STICK_DEAD_ZONE: i64 = 20_000;

/// The player's input of one frame.
pub struct PlayerInput {
    pub direction_vector: Vec3,
    pub mouse_delta: Vec2,
    pub mouse_position: Vec2,
    pub mouse_lock: bool,
    pub is_fullscreen: bool,
    pub focused: bool,
    pub left_click: bool,
    pub right_click: bool,
    pub canvas: (u32, u32),
    pub pixel_ratio: i64,
    pub keyboard: Vec<KeyboardKey>,
}

/// Whether a stick axis has left the dead zone.
pub open spec fn deflected(axis: i64) -> bool {
    axis > STICK_DEAD_ZONE || axis < -STICK_DEAD_ZONE
}

/// The direction after one key: D and Right steer right, A and Left steer
/// left, W and Up drive forward, S and Down drive back.
pub open spec fn steered(direction: Vec3, key: KeyboardKey) -> Vec3 {
    match key {
        KeyboardKey::D | KeyboardKey::Right => Vec3 { x: 1_000_000, ..direction },
        KeyboardKey::A | KeyboardKey::Left => Vec3 { x: (-1_000_000) as i64, ..direction },
        KeyboardKey::W | KeyboardKey::Up => Vec3 { z: 1_000_000, ..direction },
        KeyboardKey::S | KeyboardKey::Down => Vec3 { z: (-1_000_000) as i64, ..direction },
        KeyboardKey::Other(_) => direction,
    }
}

/// The direction after one gamepad: a deflected left stick overrides the
/// keys, its vertical axis turned round.
pub open spec fn steered_by_stick(direction: Vec3, gamepad: Gamepad) -> Vec3 {
    Vec3 {
        x: if deflected(gamepad.left_joystick.x) {
            gamepad.left_joystick.x
        } else {
            direction.x
        },
        y: direction.y,
        z: if deflected(gamepad.left_joystick.y) {
            spec_negate(gamepad.left_joystick.y)
        } else {
            direction.z
        },
    }
}

/// The mouse delta after one mouse event: a motion or a turn of the wheel
/// replaces it.
pub open spec fn moved(delta: Vec2, event: MouseEvent) -> Vec2 {
    match event {
        MouseEvent::Motion { x, y, dx, dy } => Vec2 { x: dx, y: dy },
        MouseEvent::Wheel { dx, dy } => Vec2 { x: dx, y: dy },
        MouseEvent::Button { .. } => delta,
    }
}

/// The mouse delta after one gamepad: while the left stick is deflected
/// along an axis, the right stick gives the delta along that axis.
pub open spec fn moved_by_stick(delta: Vec2, gamepad: Gamepad) -> Vec2 {
    Vec2 {
        x: if deflected(gamepad.left_joystick.x) {
            gamepad.right_joystick.x
        } else {
            delta.x
        },
        y: if deflected(gamepad.left_joystick.y) {
            gamepad.right_joystick.y
        } else {
            delta.y
        },
    }
}

/// Whether the mouse is captured after one window event.
pub open spec fn locked(mouse_lock: bool, event: WindowEvent) -> bool {
    match event {
        WindowEvent::CaptureMouse => true,
        WindowEvent::ReleaseMouse => false,
        _ => mouse_lock,
    }
}

/// Whether the window is full screen after one window event.
pub open spec fn enlarged(is_fullscreen: bool, event: WindowEvent) -> bool {
    match event {
        WindowEvent::RequestFullscreen => true,
        WindowEvent::ReleaseFullscreen => false,
        _ => is_fullscreen,
    }
}

impl Default for PlayerInput {
    fn default() -> (input: PlayerInput)
        ensures
            input.is_blank(),
    {
        PlayerInput::new(1920, 1080)
    }
}

impl PlayerInput {
    /// Whether the input reports nothing: no direction, no mouse movement,
    /// no click, no lock, no key, a canvas of 0 by 0 and a pixel ratio of 1.
    pub open spec fn is_blank(&self) -> bool {
        &&& self.direction_vector == Vec3::spec_zeros()
        &&& self.mouse_delta == Vec2::spec_zeros()
        &&& self.mouse_position == Vec2::spec_zeros()
        &&& !self.mouse_lock
        &&& !self.is_fullscreen
        &&& !self.focused
        &&& !self.left_click
        &&& !self.right_click
        &&& self.canvas == (0u32, 0u32)
        &&& self.pixel_ratio == 1_000_000
        &&& self.keyboard@ == Seq::<KeyboardKey>::empty()
    }

    /// An input that reports nothing. The size given is not kept: the canvas
    /// is 0 by 0 until the devices were read.
    pub fn new(width: u32, height: u32) -> (input: PlayerInput)
        ensures
            input.is_blank(),
    {
        PlayerInput {
            direction_vector: Vec3::zeros(),
            mouse_delta: Vec2::zeros(),
            mouse_position: Vec2::zeros(),
            mouse_lock: false,
            is_fullscreen: false,
            focused: false,
            left_click: false,
            right_click: false,
            canvas: (0, 0),
            pixel_ratio: 1_000_000,
            keyboard: Vec::new(),
        }
    }

    /// Forgets the direction and the mouse's movement and position; clicks,
    /// locks and the canvas stay.
    pub fn reset(&mut self)
        ensures
            final(self).direction_vector == Vec3::spec_zeros(),
            final(self).mouse_delta == Vec2::spec_zeros(),
            final(self).mouse_position == Vec2::spec_zeros(),
            final(self).mouse_lock == old(self).mouse_lock,
            final(self).is_fullscreen == old(self).is_fullscreen,
            final(self).focused == old(self).focused,
            final(self).left_click == old(self).left_click,
            final(self).right_click == old(self).right_click,
            final(self).canvas == old(self).canvas,
            final(self).pixel_ratio == old(self).pixel_ratio,
            final(self).keyboard@ == old(self).keyboard@,
    {
        self.direction_vector = Vec3::zeros();
        self.mouse_delta = Vec2::zeros();
        self.mouse_position = Vec2::zeros();
    }

    /// Reads the devices. Window focus, canvas and pixel ratio are copied. A
    /// held primary or secondary button sets the matching click, which nothing
    /// here clears. The last motion or wheel event gives the mouse delta. The
    /// keys steer in the order in which they are listed, then each gamepad
    /// overrides them where its left stick is deflected. The window events
    /// capture and release the mouse and the full screen, in order.
    pub fn from_devices(&mut self, device: &Devices)
        ensures
            final(self).focused == device.window.focus,
            final(self).canvas == device.window.canvas_size,
            final(self).pixel_ratio == device.window.pixel_ratio,
            final(self).left_click == (old(self).left_click || device.mouse.buttons@.contains(
                MouseButton::Primary,
            )),
            final(self).right_click == (old(self).right_click || device.mouse.buttons@.contains(
                MouseButton::Secondary,
            )),
            final(self).mouse_delta == device.gamepads@.fold_left(
                device.mouse.events@.fold_left(
                    old(self).mouse_delta,
                    |delta: Vec2, event: MouseEvent| moved(delta, event),
                ),
                |delta: Vec2, gamepad: Gamepad| moved_by_stick(delta, gamepad),
            ),
            final(self).direction_vector == device.gamepads@.fold_left(
                device.keyboard@.fold_left(
                    old(self).direction_vector,
                    |direction: Vec3, key: KeyboardKey| steered(direction, key),
                ),
                |direction: Vec3, gamepad: Gamepad| steered_by_stick(direction, gamepad),
            ),
            final(self).keyboard@ == device.keyboard@,
            final(self).mouse_lock == device.window.events@.fold_left(
                old(self).mouse_lock,
                |mouse_lock: bool, event: WindowEvent| locked(mouse_lock, event),
            ),
            final(self).is_fullscreen == device.window.events@.fold_left(
                old(self).is_fullscreen,
                |is_fullscreen: bool, event: WindowEvent| enlarged(is_fullscreen, event),
            ),
            final(self).mouse_position == old(self).mouse_position,
    {
        self.focused = device.window.focus;
        self.canvas = device.window.canvas_size;
        self.pixel_ratio = device.window.pixel_ratio;

        let mut i: usize = 0;
        while i < device.mouse.buttons.len()
            invariant
                i <= device.mouse.buttons.len(),
                self.left_click == (old(self).left_click || device.mouse.buttons@.take(
                    i as int,
                ).contains(MouseButton::Primary)),
                self.right_click == (old(self).right_click || device.mouse.buttons@.take(
                    i as int,
                ).contains(MouseButton::Secondary)),
                self.focused == device.window.focus,
                self.canvas == device.window.canvas_size,
                self.pixel_ratio == device.window.pixel_ratio,
                self.mouse_delta == old(self).mouse_delta,
                self.direction_vector == old(self).direction_vector,
                self.mouse_lock == old(self).mouse_lock,
                self.is_fullscreen == old(self).is_fullscreen,
                self.mouse_position == old(self).mouse_position,
            decreases device.mouse.buttons.len() - i,
        {
            proof {
                let before = device.mouse.buttons@.take(i as int);
                let after = device.mouse.buttons@.take(i + 1);
                let last = device.mouse.buttons@[i as int];
                assert forall|button: MouseButton|
                    after.contains(button) <==> (before.contains(button) || button == last) by {
                    if before.contains(button) {
                        let k = choose|k: int| 0 <= k < before.len() && before[k] == button;
                        assert(after[k] == button);
                    }
                    if button == last {
                        assert(after[i as int] == button);
                    }
                    if after.contains(button) {
                        let k = choose|k: int| 0 <= k < after.len() && after[k] == button;
                        if k < i {
                            assert(before[k] == button);
                        }
                    }
                }
            }
            match device.mouse.buttons[i] {
                MouseButton::Primary => {
                    self.left_click = true;
                },
                MouseButton::Secondary => {
                    self.right_click = true;
                },
                MouseButton::Auxiliary => {},
            }
            i += 1;
        }
        assert(device.mouse.buttons@.take(device.mouse.buttons.len() as int)
            == device.mouse.buttons@);

        let ghost move_by_event = |delta: Vec2, event: MouseEvent| moved(delta, event);
        let mut i: usize = 0;
        while i < device.mouse.events.len()
            invariant
                i <= device.mouse.events.len(),
                move_by_event == |delta: Vec2, event: MouseEvent| moved(delta, event),
                self.mouse_delta == device.mouse.events@.take(i as int).fold_left(
                    old(self).mouse_delta,
                    move_by_event,
                ),
                self.left_click == (old(self).left_click || device.mouse.buttons@.contains(
                    MouseButton::Primary,
                )),
                self.right_click == (old(self).right_click || device.mouse.buttons@.contains(
                    MouseButton::Secondary,
                )),
                self.focused == device.window.focus,
                self.canvas == device.window.canvas_size,
                self.pixel_ratio == device.window.pixel_ratio,
                self.direction_vector == old(self).direction_vector,
                self.mouse_lock == old(self).mouse_lock,
                self.is_fullscreen == old(self).is_fullscreen,
                self.mouse_position == old(self).mouse_position,
            decreases device.mouse.events.len() - i,
        {
            proof {
                assert(device.mouse.events@.take(i + 1).drop_last() == device.mouse.events@.take(
                    i as int,
                ));
            }
            match device.mouse.events[i] {
                MouseEvent::Motion { x, y, dx, dy } => {
                    self.mouse_delta.x = dx;
                    self.mouse_delta.y = dy;
                },
                MouseEvent::Wheel { dx, dy } => {
                    self.mouse_delta.x = dx;
                    self.mouse_delta.y = dy;
                },
                MouseEvent::Button { .. } => {},
            }
            i += 1;
        }
        assert(device.mouse.events@.take(device.mouse.events.len() as int)
            == device.mouse.events@);
        let ghost mouse_delta_after_events = self.mouse_delta;

        let ghost steer_by_key = |direction: Vec3, key: KeyboardKey| steered(direction, key);
        let mut i: usize = 0;
        while i < device.keyboard.len()
            invariant
                i <= device.keyboard.len(),
                steer_by_key == |direction: Vec3, key: KeyboardKey| steered(direction, key),
                self.direction_vector == device.keyboard@.take(i as int).fold_left(
                    old(self).direction_vector,
                    steer_by_key,
                ),
                self.mouse_delta == mouse_delta_after_events,
                self.left_click == (old(self).left_click || device.mouse.buttons@.contains(
                    MouseButton::Primary,
                )),
                self.right_click == (old(self).right_click || device.mouse.buttons@.contains(
                    MouseButton::Secondary,
                )),
                self.focused == device.window.focus,
                self.canvas == device.window.canvas_size,
                self.pixel_ratio == device.window.pixel_ratio,
                self.mouse_lock == old(self).mouse_lock,
                self.is_fullscreen == old(self).is_fullscreen,
                self.mouse_position == old(self).mouse_position,
            decreases device.keyboard.len() - i,
        {
            proof {
                assert(device.keyboard@.take(i + 1).drop_last() == device.keyboard@.take(i as int));
            }
            match device.keyboard[i] {
                KeyboardKey::D | KeyboardKey::Right => {
                    self.direction_vector.x = 1_000_000;
                },
                KeyboardKey::A | KeyboardKey::Left => {
                    self.direction_vector.x = -1_000_000;
                },
                KeyboardKey::W | KeyboardKey::Up => {
                    self.direction_vector.z = 1_000_000;
                },
                KeyboardKey::S | KeyboardKey::Down => {
                    self.direction_vector.z = -1_000_000;
                },
                KeyboardKey::Other(_) => {},
            }
            i += 1;
        }
        assert(device.keyboard@.take(device.keyboard.len() as int) == device.keyboard@);
        let ghost direction_after_keys = self.direction_vector;

        self.keyboard = device.keyboard.clone();

        let ghost steer_by_stick = |direction: Vec3, gamepad: Gamepad|
            steered_by_stick(direction, gamepad);
        let ghost move_by_stick = |delta: Vec2, gamepad: Gamepad| moved_by_stick(delta, gamepad);
        let mut i: usize = 0;
        while i < device.gamepads.len()
            invariant
                i <= device.gamepads.len(),
                steer_by_stick == |direction: Vec3, gamepad: Gamepad|
                    steered_by_stick(direction, gamepad),
                move_by_stick == |delta: Vec2, gamepad: Gamepad| moved_by_stick(delta, gamepad),
                self.direction_vector == device.gamepads@.take(i as int).fold_left(
                    direction_after_keys,
                    steer_by_stick,
                ),
                self.mouse_delta == device.gamepads@.take(i as int).fold_left(
                    mouse_delta_after_events,
                    move_by_stick,
                ),
                self.keyboard@ == device.keyboard@,
                self.left_click == (old(self).left_click || device.mouse.buttons@.contains(
                    MouseButton::Primary,
                )),
                self.right_click == (old(self).right_click || device.mouse.buttons@.contains(
                    MouseButton::Secondary,
                )),
                self.focused == device.window.focus,
                self.canvas == device.window.canvas_size,
                self.pixel_ratio == device.window.pixel_ratio,
                self.mouse_lock == old(self).mouse_lock,
                self.is_fullscreen == old(self).is_fullscreen,
                self.mouse_position == old(self).mouse_position,
            decreases device.gamepads.len() - i,
        {
            proof {
                assert(device.gamepads@.take(i + 1).drop_last() == device.gamepads@.take(i as int));
            }
            let gamepad = device.gamepads[i];
            let sideways = gamepad.left_joystick.x > STICK_DEAD_ZONE || gamepad.left_joystick.x
                < -STICK_DEAD_ZONE;
            let lengthways = gamepad.left_joystick.y > STICK_DEAD_ZONE || gamepad.left_joystick.y
                < -STICK_DEAD_ZONE;
            if sideways {
                self.direction_vector.x = gamepad.left_joystick.x;
            }
            if lengthways {
                self.direction_vector.z = negate(gamepad.left_joystick.y);
            }
            if sideways {
                self.mouse_delta.x = gamepad.right_joystick.x;
            }
            if lengthways {
                self.mouse_delta.y = gamepad.right_joystick.y;
            }
            i += 1;
        }
        assert(device.gamepads@.take(device.gamepads.len() as int) == device.gamepads@);

        let ghost lock_by_event = |mouse_lock: bool, event: WindowEvent| locked(mouse_lock, event);
        let ghost enlarge_by_event = |is_fullscreen: bool, event: WindowEvent|
            enlarged(is_fullscreen, event);
        let ghost direction_at_end = self.direction_vector;
        let ghost mouse_delta_at_end = self.mouse_delta;
        let mut i: usize = 0;
        while i < device.window.events.len()
            invariant
                i <= device.window.events.len(),
                lock_by_event == |mouse_lock: bool, event: WindowEvent| locked(mouse_lock, event),
                enlarge_by_event == |is_fullscreen: bool, event: WindowEvent|
                    enlarged(is_fullscreen, event),
                self.mouse_lock == device.window.events@.take(i as int).fold_left(
                    old(self).mouse_lock,
                    lock_by_event,
                ),
                self.is_fullscreen == device.window.events@.take(i as int).fold_left(
                    old(self).is_fullscreen,
                    enlarge_by_event,
                ),
                self.direction_vector == direction_at_end,
                self.mouse_delta == mouse_delta_at_end,
                self.keyboard@ == device.keyboard@,
                self.left_click == (old(self).left_click || device.mouse.buttons@.contains(
                    MouseButton::Primary,
                )),
                self.right_click == (old(self).right_click || device.mouse.buttons@.contains(
                    MouseButton::Secondary,
                )),
                self.focused == device.window.focus,
                self.canvas == device.window.canvas_size,
                self.pixel_ratio == device.window.pixel_ratio,
                self.mouse_position == old(self).mouse_position,
            decreases device.window.events.len() - i,
        {
            proof {
                assert(device.window.events@.take(i + 1).drop_last() == device.window.events@.take(
                    i as int,
                ));
            }
            match device.window.events[i] {
                WindowEvent::CaptureMouse => {
                    self.mouse_lock = true;
                },
                WindowEvent::ReleaseMouse => {
                    self.mouse_lock = false;
                },
                WindowEvent::RequestFullscreen => {
                    self.is_fullscreen = true;
                },
                WindowEvent::ReleaseFullscreen => {
                    self.is_fullscreen = false;
                },
            }
            i += 1;
        }
        assert(device.window.events@.take(device.window.events.len() as int)
            == device.window.events@);
    }
}

} // verus!
