use elements::input::{ElementState, Input, MouseButton, PhysicalKey};
use elements::resource_manager::ResourceManager;
use elements::window::Window;

const KEY_A: PhysicalKey = PhysicalKey { code: 30 };
const KEY_B: PhysicalKey = PhysicalKey { code: 48 };

#[test]
fn new_window_is_unfocused() {
    let window = Window::new(800, 600, Some(false));
    assert!(!window.is_focused());
    assert!(!window.is_minimized());
    assert_eq!(window.get_size(), (800, 600));
    assert_eq!(window.get_width(), 800);
    assert_eq!(window.get_height(), 600);
}

#[test]
fn window_of_unknown_state_counts_as_shown() {
    assert!(!Window::new(1, 1, None).is_minimized());
    assert!(Window::new(1, 1, Some(true)).is_minimized());
}

#[test]
fn window_takes_focus_and_size() {
    let mut window = Window::new(800, 600, Some(false));
    window.set_focused(true);
    window.set_size(1024, 768);
    assert!(window.is_focused());
    assert_eq!(window.get_size(), (1024, 768));
    window.set_focused(false);
    assert!(!window.is_focused());
    assert_eq!(window.get_width(), 1024);
}

#[test]
fn pressed_key_is_held_and_just_pressed_once() {
    let mut input = Input::new();
    assert!(!input.is_key_pressed(KEY_A));
    input.handle_keyboard_input(KEY_A, ElementState::Pressed);
    assert!(input.is_key_pressed(KEY_A));
    assert!(input.was_key_just_pressed(KEY_A));
    assert!(!input.is_key_pressed(KEY_B));
    input.prepare_for_next_frame();
    assert!(input.is_key_pressed(KEY_A));
    assert!(!input.was_key_just_pressed(KEY_A));
    input.handle_keyboard_input(KEY_A, ElementState::Pressed);
    assert!(!input.was_key_just_pressed(KEY_A));
}

#[test]
fn released_key_is_just_released_until_the_next_frame() {
    let mut input = Input::new();
    input.handle_keyboard_input(KEY_A, ElementState::Pressed);
    input.handle_keyboard_input(KEY_A, ElementState::Released);
    assert!(!input.is_key_pressed(KEY_A));
    assert!(input.was_key_just_released(KEY_A));
    assert!(input.was_key_just_pressed(KEY_A));
    input.prepare_for_next_frame();
    assert!(!input.was_key_just_released(KEY_A));
    assert!(!input.was_key_just_pressed(KEY_A));
}

#[test]
fn mouse_buttons_are_held_until_released() {
    let mut input = Input::new();
    input.handle_mouse_input(ElementState::Pressed, MouseButton::Left);
    input.handle_mouse_input(ElementState::Pressed, MouseButton::Other(0));
    assert!(input.is_mouse_button_pressed(MouseButton::Left));
    assert!(input.is_mouse_button_pressed(MouseButton::Other(0)));
    assert!(!input.is_mouse_button_pressed(MouseButton::Right));
    assert!(!input.is_mouse_button_pressed(MouseButton::Other(1)));
    input.handle_mouse_input(ElementState::Released, MouseButton::Left);
    assert!(!input.is_mouse_button_pressed(MouseButton::Left));
    assert!(input.is_mouse_button_pressed(MouseButton::Other(0)));
}

#[test]
fn button_codes_differ() {
    let buttons = [
        MouseButton::Left,
        MouseButton::Right,
        MouseButton::Middle,
        MouseButton::Back,
        MouseButton::Forward,
        MouseButton::Other(0),
        MouseButton::Other(u16::MAX),
    ];
    for (i, a) in buttons.iter().enumerate() {
        for (j, b) in buttons.iter().enumerate() {
            assert_eq!(a.code() == b.code(), i == j);
        }
    }
    assert_eq!(MouseButton::Other(u16::MAX).code(), 65540);
}

#[test]
fn cursor_position_is_kept() {
    let mut input = Input::new();
    assert_eq!(input.mouse_position(), (0, 0));
    input.handle_cursor(12.5f64.to_bits(), 40.0f64.to_bits());
    assert_eq!(f64::from_bits(input.mouse_position().0), 12.5);
    assert_eq!(f64::from_bits(input.mouse_position().1), 40.0);
}

#[test]
fn registry_returns_what_was_added() {
    let mut resources = ResourceManager::new();
    assert!(!resources.has::<Window>());
    assert!(!resources.has::<Input>());
    resources.add(Window::new(800, 600, Some(false)));
    assert!(resources.has::<Window>());
    assert!(!resources.has::<Input>());
    assert_eq!(resources.get::<Window>().get_size(), (800, 600));
    resources.add(Input::new());
    assert!(resources.has::<Input>());
    assert!(!resources.get::<Input>().is_key_pressed(KEY_A));
    assert_eq!(resources.get::<Window>().get_size(), (800, 600));
}

#[test]
fn registry_replaces_an_object_of_the_same_kind() {
    let mut resources = ResourceManager::new();
    resources.add(Window::new(800, 600, Some(false)));
    resources.add(Window::new(320, 200, None));
    assert_eq!(resources.get::<Window>().get_size(), (320, 200));
}

#[test]
fn registry_hands_out_objects_for_change() {
    let mut resources = ResourceManager::new();
    resources.add(Window::new(800, 600, Some(false)));
    resources.add(Input::new());
    resources.get_mut::<Window>().set_size(1024, 768);
    resources.get_mut::<Input>().handle_keyboard_input(KEY_B, ElementState::Pressed);
    assert_eq!(resources.get::<Window>().get_size(), (1024, 768));
    assert!(resources.get::<Input>().is_key_pressed(KEY_B));
    assert!(!resources.get::<Window>().is_focused());
}
