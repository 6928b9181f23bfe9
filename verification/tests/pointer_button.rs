use sim_logic::input::{
    ActionEdge, ButtonState, InputCancellationReason, InputControl, MouseButton,
    PhysicalKeyCode, PointerSample, TransitionIntentToken,
};
use sim_logic::pointer_button::{PointerButton, PointerButtonCancellation, PointerButtonEvent};

fn edge(state: ButtonState, inside: bool, token: u64) -> ActionEdge<u8> {
    ActionEdge {
        action: 0,
        control: InputControl::MouseButton(MouseButton::Left),
        state,
        pointer: Some(PointerSample::from_bits(1.0f32.to_bits(), 2.0f32.to_bits(), inside)),
        intent: TransitionIntentToken::from_raw(token),
        cancellation: None,
    }
}

#[test]
fn press_and_release_over_the_same_target_clicks() {
    let mut button = PointerButton::<u32>::new(MouseButton::Left);
    let press = button.process(edge(ButtonState::Pressed, true, 1), Some(5));
    assert!(press.claimed());
    assert!(matches!(
        press.event(),
        Some(PointerButtonEvent::Pressed { target: 5, .. })
    ));
    assert_eq!(button.captured(), Some(5));
    let release = button.process(edge(ButtonState::Released, true, 2), Some(5));
    assert!(release.claimed());
    assert!(matches!(
        release.event(),
        Some(PointerButtonEvent::Clicked { target: 5, .. })
    ));
    assert_eq!(button.captured(), None);
}

#[test]
fn press_outside_never_clicks_a_later_target() {
    let mut button = PointerButton::<u32>::new(MouseButton::Left);
    let press = button.process(edge(ButtonState::Pressed, true, 1), None);
    assert!(!press.claimed());
    assert_eq!(press.event(), None);
    let release = button.process(edge(ButtonState::Released, true, 2), Some(5));
    assert!(!release.claimed());
    assert_eq!(release.event(), None);
}

#[test]
fn release_elsewhere_or_cancellation_does_not_confirm() {
    let mut button = PointerButton::<u32>::new(MouseButton::Left);
    button.process(edge(ButtonState::Pressed, true, 1), Some(5));
    let release = button.process(edge(ButtonState::Released, true, 2), Some(6));
    assert!(matches!(
        release.event(),
        Some(PointerButtonEvent::Cancelled {
            target: 5,
            reason: PointerButtonCancellation::ReleasedOutside,
            ..
        })
    ));
    button.process(edge(ButtonState::Pressed, true, 3), Some(5));
    let mut cancelled = edge(ButtonState::Released, true, 4);
    cancelled.cancellation = Some(InputCancellationReason::FocusLost);
    let outcome = button.process(cancelled, Some(5));
    assert!(matches!(
        outcome.event(),
        Some(PointerButtonEvent::Cancelled {
            reason: PointerButtonCancellation::Input(InputCancellationReason::FocusLost),
            ..
        })
    ));
}

#[test]
fn other_controls_are_never_claimed() {
    let mut button = PointerButton::<u32>::new(MouseButton::Left);
    let mut key = edge(ButtonState::Pressed, true, 1);
    key.control = InputControl::Key(PhysicalKeyCode::Space);
    let outcome = button.process(key, Some(5));
    assert!(!outcome.claimed());
    assert_eq!(outcome.event(), None);
    assert_eq!(button.captured(), None);
    assert_eq!(button.button(), MouseButton::Left);
}

#[test]
fn explicit_cancel_returns_the_captured_target() {
    let mut button = PointerButton::<u32>::new(MouseButton::Left);
    button.process(edge(ButtonState::Pressed, true, 1), Some(9));
    assert_eq!(button.cancel(), Some(9));
    assert_eq!(button.captured(), None);
    assert_eq!(button.cancel(), None);
}

#[test]
fn captured_target_persists_until_release_or_cancel() {
    let mut button = PointerButton::<u32>::new(MouseButton::Left);
    button.process(edge(ButtonState::Pressed, false, 1), Some(3));
    assert_eq!(button.captured(), None);
    button.process(edge(ButtonState::Released, true, 2), None);
    button.process(edge(ButtonState::Pressed, true, 3), Some(4));
    assert_eq!(button.captured(), Some(4));
    let mut key = edge(ButtonState::Released, true, 4);
    key.control = InputControl::Key(PhysicalKeyCode::Space);
    button.process(key, None);
    button.process(edge(ButtonState::Pressed, true, 5), Some(8));
    assert_eq!(button.captured(), Some(4));
    button.process(edge(ButtonState::Released, false, 6), Some(4));
    assert_eq!(button.captured(), None);
    button.process(edge(ButtonState::Pressed, true, 7), Some(6));
    assert_eq!(button.captured(), Some(6));
    button.cancel();
    button.process(edge(ButtonState::Pressed, true, 8), Some(7));
    assert_eq!(button.captured(), None);
}
