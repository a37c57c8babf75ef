use miner::input::{
    buy_menu_transition, event_was_key_pressed, game_transition, ElementState, Event, ExampleState,
    Key, MouseButton, Transition, WindowEvent,
};

fn key(k: Option<Key>, state: ElementState) -> Event {
    Event::WindowEvent(WindowEvent::KeyboardInput { key: k, state })
}

#[test]
fn key_press_is_recognised() {
    assert!(event_was_key_pressed(&key(Some(Key::X), ElementState::Pressed), Key::X));
    assert!(!event_was_key_pressed(&key(Some(Key::X), ElementState::Released), Key::X));
    assert!(!event_was_key_pressed(&key(Some(Key::P), ElementState::Pressed), Key::X));
    assert!(!event_was_key_pressed(&key(None, ElementState::Pressed), Key::X));
    assert!(event_was_key_pressed(&key(Some(Key::Other(3)), ElementState::Pressed), Key::Other(3)));
    assert!(!event_was_key_pressed(&key(Some(Key::Other(3)), ElementState::Pressed), Key::Other(4)));
    let click = Event::WindowEvent(WindowEvent::MouseInput {
        button: MouseButton::Left,
        state: ElementState::Pressed,
    });
    assert!(!event_was_key_pressed(&click, Key::X));
    assert!(!event_was_key_pressed(&Event::Other, Key::X));
    assert!(!event_was_key_pressed(&Event::WindowEvent(WindowEvent::Other), Key::X));
}

#[test]
fn x_opens_the_shop() {
    assert_eq!(game_transition(&key(Some(Key::X), ElementState::Pressed)), Transition::PushBuyMenu);
    assert_eq!(game_transition(&key(Some(Key::P), ElementState::Pressed)), Transition::Stay);
    assert_eq!(game_transition(&key(Some(Key::X), ElementState::Released)), Transition::Stay);
    assert_eq!(game_transition(&Event::Other), Transition::Stay);
}

#[test]
fn p_closes_the_shop() {
    assert_eq!(buy_menu_transition(&key(Some(Key::P), ElementState::Pressed)), Transition::Pop);
    assert_eq!(buy_menu_transition(&key(Some(Key::X), ElementState::Pressed)), Transition::Stay);
    assert_eq!(buy_menu_transition(&key(Some(Key::Escape), ElementState::Pressed)), Transition::Stay);
}

#[test]
fn escape_shows_and_click_hides_the_cursor() {
    let s = ExampleState;
    assert!(!s.handle_event(true, false, true));
    assert!(!s.handle_event(true, true, true));
    assert!(s.handle_event(false, true, false));
    assert!(s.handle_event(false, false, true));
    assert!(!s.handle_event(false, false, false));
}
