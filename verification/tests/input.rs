use hover_arena::shared::input::{
    Devices, Gamepad, KeyboardKey, Mouse, MouseButton, MouseEvent, PlayerInput, Window,
    WindowEvent,
};
use hover_arena::shared::units::{Vec2, Vec3, MICRO};

fn devices() -> Devices {
    Devices {
        window: Window { focus: false, canvas_size: (0, 0), pixel_ratio: MICRO, events: vec![] },
        mouse: Mouse { buttons: vec![], events: vec![] },
        keyboard: vec![],
        gamepads: vec![],
    }
}

fn stick(left: (i64, i64), right: (i64, i64)) -> Gamepad {
    Gamepad {
        left_joystick: Vec2 { x: left.0, y: left.1 },
        right_joystick: Vec2 { x: right.0, y: right.1 },
    }
}

#[test]
fn a_new_input_reports_nothing() {
    for input in [PlayerInput::new(1920, 1080), PlayerInput::default()] {
        assert_eq!(input.direction_vector, Vec3::zeros());
        assert_eq!(input.mouse_delta, Vec2::zeros());
        assert_eq!(input.mouse_position, Vec2::zeros());
        assert!(!input.mouse_lock && !input.is_fullscreen && !input.focused);
        assert!(!input.left_click && !input.right_click);
        assert_eq!(input.canvas, (0, 0));
        assert_eq!(input.pixel_ratio, MICRO);
        assert!(input.keyboard.is_empty());
    }
}

#[test]
fn window_state_is_copied() {
    let mut device = devices();
    device.window.focus = true;
    device.window.canvas_size = (800, 600);
    device.window.pixel_ratio = 2 * MICRO;
    let mut input = PlayerInput::new(0, 0);
    input.from_devices(&device);
    assert!(input.focused);
    assert_eq!(input.canvas, (800, 600));
    assert_eq!(input.pixel_ratio, 2 * MICRO);
}

#[test]
fn keys_steer_and_the_last_one_wins() {
    let mut device = devices();
    device.keyboard = vec![KeyboardKey::W, KeyboardKey::A, KeyboardKey::Other(32)];
    let mut input = PlayerInput::new(0, 0);
    input.from_devices(&device);
    assert_eq!(input.direction_vector, Vec3::new(-MICRO, 0, MICRO));
    assert_eq!(input.keyboard, device.keyboard);

    device.keyboard = vec![KeyboardKey::Left, KeyboardKey::Right, KeyboardKey::Up, KeyboardKey::Down];
    input.reset();
    input.from_devices(&device);
    assert_eq!(input.direction_vector, Vec3::new(MICRO, 0, -MICRO));

    device.keyboard = vec![KeyboardKey::D, KeyboardKey::S];
    input.reset();
    input.from_devices(&device);
    assert_eq!(input.direction_vector, Vec3::new(MICRO, 0, -MICRO));
}

#[test]
fn clicks_stay_until_somebody_clears_them() {
    let mut device = devices();
    device.mouse.buttons = vec![MouseButton::Auxiliary, MouseButton::Primary];
    let mut input = PlayerInput::new(0, 0);
    input.from_devices(&device);
    assert!(input.left_click);
    assert!(!input.right_click);
    device.mouse.buttons = vec![MouseButton::Secondary];
    input.reset();
    input.from_devices(&device);
    assert!(input.left_click);
    assert!(input.right_click);
}

#[test]
fn the_last_mouse_event_gives_the_delta() {
    let mut device = devices();
    device.mouse.events = vec![
        MouseEvent::Motion { x: 1, y: 2, dx: 3, dy: 4 },
        MouseEvent::Wheel { dx: 5, dy: 6 },
        MouseEvent::Button { button: MouseButton::Primary, pressed: true },
    ];
    let mut input = PlayerInput::new(0, 0);
    input.from_devices(&device);
    assert_eq!(input.mouse_delta, Vec2 { x: 5, y: 6 });
    assert_eq!(input.mouse_position, Vec2::zeros());
}

#[test]
fn a_deflected_stick_overrides_the_keys() {
    let mut device = devices();
    device.keyboard = vec![KeyboardKey::W, KeyboardKey::D];
    device.gamepads = vec![stick((-500_000, 300_000), (7, 8))];
    let mut input = PlayerInput::new(0, 0);
    input.from_devices(&device);
    assert_eq!(input.direction_vector, Vec3::new(-500_000, 0, -300_000));
    assert_eq!(input.mouse_delta, Vec2 { x: 7, y: 8 });
}

#[test]
fn a_stick_in_the_dead_zone_changes_nothing() {
    let mut device = devices();
    device.keyboard = vec![KeyboardKey::W, KeyboardKey::D];
    device.mouse.events = vec![MouseEvent::Wheel { dx: 5, dy: 6 }];
    device.gamepads = vec![stick((20_000, -20_000), (7, 8))];
    let mut input = PlayerInput::new(0, 0);
    input.from_devices(&device);
    assert_eq!(input.direction_vector, Vec3::new(MICRO, 0, MICRO));
    assert_eq!(input.mouse_delta, Vec2 { x: 5, y: 6 });
    // just outside the dead zone, one axis at a time
    device.gamepads = vec![stick((20_001, 0), (7, 8)), stick((0, -20_001), (9, 10))];
    input.reset();
    input.from_devices(&device);
    assert_eq!(input.direction_vector, Vec3::new(20_001, 0, 20_001));
    assert_eq!(input.mouse_delta, Vec2 { x: 7, y: 10 });
}

#[test]
fn window_events_lock_and_release() {
    let mut device = devices();
    device.window.events = vec![
        WindowEvent::CaptureMouse,
        WindowEvent::RequestFullscreen,
        WindowEvent::ReleaseFullscreen,
    ];
    let mut input = PlayerInput::new(0, 0);
    input.from_devices(&device);
    assert!(input.mouse_lock);
    assert!(!input.is_fullscreen);
    device.window.events = vec![WindowEvent::ReleaseMouse, WindowEvent::RequestFullscreen];
    input.from_devices(&device);
    assert!(!input.mouse_lock);
    assert!(input.is_fullscreen);
    device.window.events = vec![];
    input.from_devices(&device);
    assert!(!input.mouse_lock);
    assert!(input.is_fullscreen);
}

#[test]
fn reset_keeps_clicks_and_locks() {
    let mut input = PlayerInput::new(0, 0);
    input.direction_vector = Vec3::new(1, 2, 3);
    input.mouse_delta = Vec2 { x: 1, y: 2 };
    input.mouse_position = Vec2 { x: 3, y: 4 };
    input.mouse_lock = true;
    input.left_click = true;
    input.canvas = (3, 4);
    input.reset();
    assert_eq!(input.direction_vector, Vec3::zeros());
    assert_eq!(input.mouse_delta, Vec2::zeros());
    assert_eq!(input.mouse_position, Vec2::zeros());
    assert!(input.mouse_lock);
    assert!(input.left_click);
    assert_eq!(input.canvas, (3, 4));
}
