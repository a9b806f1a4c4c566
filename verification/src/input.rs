//! Keyboard and mouse state between frames.

use std::collections::HashSet;
use vstd::prelude::*;

verus! {

broadcast use vstd::std_specs::hash::group_hash_axioms;

/// A key, named by its position on the keyboard.
#[derive(Clone, Copy, Debug, PartialEq, Eq, Hash, Structural)]
pub struct PhysicalKey {
    /// The platform's code of the key.
    pub code: u32,
}

/// Whether a key or button went down or up.
#[derive(Clone, Copy, Debug, PartialEq, Eq, Structural)]
pub enum ElementState {
    Pressed,
    Released,
}

/// A mouse button.
#[derive(Clone, Copy, Debug, PartialEq, Eq, Hash, Structural)]
pub enum MouseButton {
    Left,
    Right,
    Middle,
    Back,
    Forward,
    /// A button known by its number only.
    Other(u16),
}

impl MouseButton {
    /// A number for the button, different for different buttons.
    pub open spec fn spec_code(self) -> u32 {
        match self {
            MouseButton::Left => 0,
            MouseButton::Right => 1,
            MouseButton::Middle => 2,
            MouseButton::Back => 3,
            MouseButton::Forward => 4,
            MouseButton::Other(number) => (5 + number) as u32,
        }
    }

    /// A number for the button, different for different buttons.
    #[verifier::when_used_as_spec(spec_code)]
    pub fn code(self) -> (code: u32)
        ensures
            code == self.spec_code(),
    {
        match self {
            MouseButton::Left => 0,
            MouseButton::Right => 1,
            MouseButton::Middle => 2,
            MouseButton::Back => 3,
            MouseButton::Forward => 4,
            MouseButton::Other(number) => 5 + number as u32,
        }
    }
}

/// Different buttons have different codes.
pub proof fn lemma_button_codes_differ(a: MouseButton, b: MouseButton)
    requires
        a.spec_code() == b.spec_code(),
    ensures
        a == b,
{
}

/// Keys and buttons that are held, and keys that changed since the frame
/// began.
pub struct Input {
    keys_pressed: HashSet<u32>,
    keys_just_pressed: HashSet<u32>,
    keys_just_released: HashSet<u32>,
    mouse_buttons_pressed: HashSet<u32>,
    mouse_pos: (u64, u64),
}

/// The input state as sets of key codes and button codes.
pub struct InputState {
    /// Keys that are held.
    pub keys_pressed: Set<u32>,
    /// Keys that went down since the frame began and were not held before.
    pub keys_just_pressed: Set<u32>,
    /// Keys that went up since the frame began.
    pub keys_just_released: Set<u32>,
    /// Codes of the buttons that are held.
    pub mouse_buttons_pressed: Set<u32>,
    /// Position of the cursor: the bit patterns of two 64-bit IEEE-754
    /// numbers, horizontal first.
    pub mouse_pos: (u64, u64),
}

impl View for Input {
    type V = InputState;

    closed spec fn view(&self) -> InputState {
        InputState {
            keys_pressed: self.keys_pressed@,
            keys_just_pressed: self.keys_just_pressed@,
            keys_just_released: self.keys_just_released@,
            mouse_buttons_pressed: self.mouse_buttons_pressed@,
            mouse_pos: self.mouse_pos,
        }
    }
}

impl InputState {
    /// Nothing held, nothing changed, the cursor at the origin.
    pub open spec fn idle() -> InputState {
        InputState {
            keys_pressed: Set::empty(),
            keys_just_pressed: Set::empty(),
            keys_just_released: Set::empty(),
            mouse_buttons_pressed: Set::empty(),
            mouse_pos: (0, 0),
        }
    }

    /// The state after a key went down or up.
    ///
    /// A key that goes down is held from then on, and counts as just pressed
    /// unless it was held already. A key that goes up is no longer held and
    /// counts as just released.
    pub open spec fn after_key(self, key: PhysicalKey, state: ElementState) -> InputState {
        match state {
            ElementState::Pressed => InputState {
                keys_pressed: self.keys_pressed.insert(key.code),
                keys_just_pressed: if self.keys_pressed.contains(key.code) {
                    self.keys_just_pressed
                } else {
                    self.keys_just_pressed.insert(key.code)
                },
                ..self
            },
            ElementState::Released => InputState {
                keys_pressed: self.keys_pressed.remove(key.code),
                keys_just_released: self.keys_just_released.insert(key.code),
                ..self
            },
        }
    }

    /// The state after a mouse button went down or up.
    pub open spec fn after_button(self, state: ElementState, button: MouseButton) -> InputState {
        InputState {
            mouse_buttons_pressed: match state {
                ElementState::Pressed => self.mouse_buttons_pressed.insert(button.spec_code()),
                ElementState::Released => self.mouse_buttons_pressed.remove(button.spec_code()),
            },
            ..self
        }
    }
}

impl Input {
    /// No key or button held, none changed.
    pub fn new() -> (input: Input)
        ensures
            input@ == InputState::idle(),
    {
        Input {
            keys_pressed: HashSet::new(),
            keys_just_pressed: HashSet::new(),
            keys_just_released: HashSet::new(),
            mouse_buttons_pressed: HashSet::new(),
            mouse_pos: (0, 0),
        }
    }

    /// Forgets which keys were just pressed or released. Called once for
    /// each frame.
    pub fn prepare_for_next_frame(&mut self)
        ensures
            final(self)@ == (InputState {
                keys_just_pressed: Set::empty(),
                keys_just_released: Set::empty(),
                ..old(self)@
            }),
    {
        self.keys_just_pressed.clear();
        self.keys_just_released.clear();
    }

    /// Whether the key is held.
    pub fn is_key_pressed(&self, key: PhysicalKey) -> (r: bool)
        ensures
            r == self@.keys_pressed.contains(key.code),
    {
        self.keys_pressed.contains(&key.code)
    }

    /// Whether the key went down since the frame began without having been
    /// held.
    pub fn was_key_just_pressed(&self, key: PhysicalKey) -> (r: bool)
        ensures
            r == self@.keys_just_pressed.contains(key.code),
    {
        self.keys_just_pressed.contains(&key.code)
    }

    /// Whether the key went up since the frame began.
    pub fn was_key_just_released(&self, key: PhysicalKey) -> (r: bool)
        ensures
            r == self@.keys_just_released.contains(key.code),
    {
        self.keys_just_released.contains(&key.code)
    }

    /// Whether the mouse button is held.
    pub fn is_mouse_button_pressed(&self, button: MouseButton) -> (r: bool)
        ensures
            r == self@.mouse_buttons_pressed.contains(button.spec_code()),
    {
        let code = button.code();
        self.mouse_buttons_pressed.contains(&code)
    }

    /// Position of the cursor, as the bit patterns it was given by.
    pub fn mouse_position(&self) -> (r: (u64, u64))
        ensures
            r == self@.mouse_pos,
    {
        self.mouse_pos
    }

    /// Takes note of a key that went down or up.
    pub fn handle_keyboard_input(&mut self, key: PhysicalKey, state: ElementState)
        ensures
            final(self)@ == old(self)@.after_key(key, state),
    {
        match state {
            ElementState::Pressed => {
                if !self.keys_pressed.contains(&key.code) {
                    self.keys_just_pressed.insert(key.code);
                }
                self.keys_pressed.insert(key.code);
            },
            ElementState::Released => {
                self.keys_pressed.remove(&key.code);
                self.keys_just_released.insert(key.code);
            },
        }
    }

    /// Takes note of a mouse button that went down or up.
    pub fn handle_mouse_input(&mut self, state: ElementState, button: MouseButton)
        ensures
            final(self)@ == old(self)@.after_button(state, button),
    {
        let code = button.code();
        match state {
            ElementState::Pressed => {
                self.mouse_buttons_pressed.insert(code);
            },
            ElementState::Released => {
                self.mouse_buttons_pressed.remove(&code);
            },
        }
    }

    /// Takes note of the position of the cursor, given as the bit patterns of
    /// two 64-bit IEEE-754 numbers.
    pub fn handle_cursor(&mut self, x: u64, y: u64)
        ensures
            final(self)@ == (InputState { mouse_pos: (x, y), ..old(self)@ }),
    {
        self.mouse_pos = (x, y);
    }
}

} // verus!
