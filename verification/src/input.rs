//! Window input as the game states see it, and how each state answers it.
use vstd::prelude::*;

verus! {

/// A key on the keyboard. The game tells apart the keys it reacts to; any
/// other key is kept by its number.
#[derive(Clone, Copy, Debug, PartialEq, Eq, Structural)]
pub enum Key {
    P,
    X,
    Escape,
    Other(u32),
}

/// Whether a key or button went down or up.
#[derive(Clone, Copy, Debug, PartialEq, Eq, Structural)]
pub enum ElementState {
    Pressed,
    Released,
}

/// A mouse button.
#[derive(Clone, Copy, Debug, PartialEq, Eq, Structural)]
pub enum MouseButton {
    Left,
    Right,
    Middle,
    Other(u8),
}

/// Something that happened to the game window.
#[derive(Clone, Copy, Debug, PartialEq, Eq, Structural)]
pub enum WindowEvent {
    /// A key went down or up; `key` is `None` for a key without a known code.
    KeyboardInput { key: Option<Key>, state: ElementState },
    /// A mouse button went down or up.
    MouseInput { button: MouseButton, state: ElementState },
    /// Anything else (resizing, focus, moving the cursor, ...).
    Other,
}

/// An event that reaches a game state.
#[derive(Clone, Copy, Debug, PartialEq, Eq, Structural)]
pub enum Event {
    WindowEvent(WindowEvent),
    Other,
}

/// The event is the key `key` going down.
pub open spec fn is_key_press(event: Event, key: Key) -> bool {
    event == Event::WindowEvent(
        WindowEvent::KeyboardInput { key: Some(key), state: ElementState::Pressed },
    )
}

/// Whether `event` is the key `key` going down.
pub fn event_was_key_pressed(event: &Event, key: Key) -> (r: bool)
    ensures
        r == is_key_press(*event, key),
{
    match event {
        Event::WindowEvent(WindowEvent::KeyboardInput { key: Some(key2), state: ElementState::Pressed }) => {
            *key2 == key
        },
        _ => false,
    }
}

/// What a game state asks of the state machine after an event.
#[derive(Clone, Copy, Debug, PartialEq, Eq, Structural)]
pub enum Transition {
    /// Stay in the current state.
    Stay,
    /// Leave the current state and go back to the one below it.
    Pop,
    /// Open the shop on top of the current state.
    PushBuyMenu,
}

/// While playing, the X key opens the shop; nothing else changes state.
pub fn game_transition(event: &Event) -> (t: Transition)
    ensures
        t == (if is_key_press(*event, Key::X) {
            Transition::PushBuyMenu
        } else {
            Transition::Stay
        }),
{
    if event_was_key_pressed(event, Key::X) {
        Transition::PushBuyMenu
    } else {
        Transition::Stay
    }
}

/// In the shop, the P key closes it; nothing else changes state.
pub fn buy_menu_transition(event: &Event) -> (t: Transition)
    ensures
        t == (if is_key_press(*event, Key::P) {
            Transition::Pop
        } else {
            Transition::Stay
        }),
{
    if event_was_key_pressed(event, Key::P) {
        Transition::Pop
    } else {
        Transition::Stay
    }
}

/// The fly-camera scene: Escape shows the mouse cursor, a left click hides
/// it again.
pub struct ExampleState;

impl ExampleState {
    /// Whether the cursor is hidden after a window event, given whether the
    /// event is Escape going down, whether it is the left mouse button going
    /// down, and whether the cursor was hidden before.
    pub fn handle_event(&self, escape_down: bool, left_button_down: bool, hidden: bool) -> (r: bool)
        ensures
            r == (if escape_down {
                false
            } else if left_button_down {
                true
            } else {
                hidden
            }),
    {
        if escape_down {
            false
        } else if left_button_down {
            true
        } else {
            hidden
        }
    }
}

/// Pressing a key is a press of that key and of no other; releasing a key,
/// a key without a known code, a mouse button or any other event is no key
/// press at all. So the shop opens on X alone and closes on P alone.
pub proof fn key_press_is_of_its_own_key(
    k: Key,
    other: Key,
    state: ElementState,
    button: MouseButton,
)
    ensures
        is_key_press(
            Event::WindowEvent(
                WindowEvent::KeyboardInput { key: Some(k), state: ElementState::Pressed },
            ),
            other,
        ) <==> other == k,
        !is_key_press(
            Event::WindowEvent(
                WindowEvent::KeyboardInput { key: Some(k), state: ElementState::Released },
            ),
            other,
        ),
        !is_key_press(Event::WindowEvent(WindowEvent::KeyboardInput { key: None, state }), other),
        !is_key_press(Event::WindowEvent(WindowEvent::MouseInput { button, state }), other),
        !is_key_press(Event::WindowEvent(WindowEvent::Other), other),
        !is_key_press(Event::Other, other),
{
}

/// No event is the press of two different keys.
pub proof fn event_presses_at_most_one_key(event: Event, k1: Key, k2: Key)
    ensures
        is_key_press(event, k1) && is_key_press(event, k2) ==> k1 == k2,
{
}

/// The shop opens only from play and closes only from the shop: the key that
/// opens it never closes it, and the key that closes it never opens it.
pub proof fn shop_keys_do_not_overlap(event: Event)
    ensures
        is_key_press(event, Key::X) ==> !is_key_press(event, Key::P),
        is_key_press(event, Key::P) ==> !is_key_press(event, Key::X),
{
}

} // verus!
