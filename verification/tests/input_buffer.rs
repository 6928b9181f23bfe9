use sim_logic::input::{ButtonState, MouseButton, PhysicalKeyCode};
use sim_logic::input_buffer::{
    key_event_is_collected, physical_key_index, HostInput, InputBuffer, InputBufferFailure,
    InputEventKind, SUPPORTED_PHYSICAL_KEY_COUNT,
};

fn sum_deltas(previous: &i64, next: i64) -> Option<i64> {
    previous.checked_add(next)
}

#[test]
fn consecutive_relative_deltas_are_summed_into_one_slot() {
    let mut buffer: InputBuffer<i64> = InputBuffer::new(4);
    assert!(buffer.collect_input(InputEventKind::RelativeMotion, 3, sum_deltas));
    assert!(buffer.collect_input(InputEventKind::RelativeMotion, 4, sum_deltas));
    assert!(buffer.collect_input(InputEventKind::RelativeMotion, -2, sum_deltas));
    assert_eq!(buffer.events(), &vec![5]);
    assert_eq!(buffer.failure(), None);
}

#[test]
fn trailing_absolute_position_is_replaced() {
    let mut buffer: InputBuffer<i64> = InputBuffer::new(4);
    assert!(buffer.collect_input(InputEventKind::PointerMoved, 10, sum_deltas));
    assert!(buffer.collect_input(InputEventKind::PointerMoved, 20, sum_deltas));
    assert_eq!(buffer.events(), &vec![20]);
    assert_eq!(buffer.len(), 1);
}

#[test]
fn barrier_events_stop_coalescing() {
    let mut buffer: InputBuffer<i64> = InputBuffer::new(8);
    assert!(buffer.collect_input(InputEventKind::PointerMoved, 1, sum_deltas));
    assert!(buffer.collect_input(InputEventKind::Barrier, 100, sum_deltas));
    assert!(buffer.collect_input(InputEventKind::PointerMoved, 2, sum_deltas));
    assert!(buffer.collect_input(InputEventKind::RelativeMotion, 7, sum_deltas));
    assert!(buffer.collect_input(InputEventKind::Barrier, 200, sum_deltas));
    assert!(buffer.collect_input(InputEventKind::RelativeMotion, 8, sum_deltas));
    assert_eq!(buffer.events(), &vec![1, 100, 2, 7, 200, 8]);
}

#[test]
fn barriers_are_never_merged_with_each_other() {
    let mut buffer: InputBuffer<i64> = InputBuffer::new(3);
    assert!(buffer.collect_input(InputEventKind::Barrier, 1, sum_deltas));
    assert!(buffer.collect_input(InputEventKind::Barrier, 1, sum_deltas));
    assert_eq!(buffer.events(), &vec![1, 1]);
}

#[test]
fn a_full_queue_fails_with_limit_and_the_failure_is_sticky() {
    let mut buffer: InputBuffer<i64> = InputBuffer::new(2);
    assert!(buffer.collect_input(InputEventKind::Barrier, 1, sum_deltas));
    assert!(buffer.collect_input(InputEventKind::PointerMoved, 2, sum_deltas));
    // Replacing the trailing sample needs no new slot.
    assert!(buffer.collect_input(InputEventKind::PointerMoved, 3, sum_deltas));
    assert!(!buffer.collect_input(InputEventKind::Barrier, 4, sum_deltas));
    assert_eq!(buffer.failure(), Some(InputBufferFailure::Limit));
    // After the failure even a coalescing sample is refused.
    assert!(!buffer.collect_input(InputEventKind::PointerMoved, 5, sum_deltas));
    assert_eq!(buffer.events(), &vec![1, 3]);
    assert_eq!(buffer.failure(), Some(InputBufferFailure::Limit));
}

#[test]
fn unsummable_relative_deltas_fail_with_relative_motion() {
    let mut buffer: InputBuffer<i64> = InputBuffer::new(4);
    assert!(buffer.collect_input(InputEventKind::RelativeMotion, i64::MAX, sum_deltas));
    assert!(!buffer.collect_input(InputEventKind::RelativeMotion, 1, sum_deltas));
    assert_eq!(buffer.failure(), Some(InputBufferFailure::RelativeMotion));
    assert_eq!(buffer.events(), &vec![i64::MAX]);
    assert!(!buffer.collect_input(InputEventKind::Barrier, 9, sum_deltas));
    assert_eq!(buffer.len(), 1);
}

#[test]
fn zero_limit_refuses_the_first_event() {
    let mut buffer: InputBuffer<i64> = InputBuffer::new(0);
    assert!(!buffer.collect_input(InputEventKind::PointerMoved, 1, sum_deltas));
    assert_eq!(buffer.failure(), Some(InputBufferFailure::Limit));
    assert_eq!(buffer.limit(), 0);
}

#[test]
fn clear_empties_the_queue_and_keeps_the_failure() {
    let mut buffer: InputBuffer<i64> = InputBuffer::new(1);
    assert!(buffer.collect_input(InputEventKind::Barrier, 1, sum_deltas));
    buffer.clear();
    assert_eq!(buffer.len(), 0);
    assert!(buffer.collect_input(InputEventKind::Barrier, 2, sum_deltas));
    assert!(!buffer.collect_input(InputEventKind::Barrier, 3, sum_deltas));
    buffer.clear();
    assert_eq!(buffer.len(), 0);
    assert_eq!(buffer.failure(), Some(InputBufferFailure::Limit));
}

/// A desktop input event as queued: positions in physical pixels.
#[derive(Debug, Clone, Copy, PartialEq)]
enum Event {
    Moved(f64, f64),
    Relative(f64, f64),
    Key(PhysicalKeyCode, ButtonState),
    Button(MouseButton, ButtonState),
    Wheel(f64),
    Left,
    Resized(u32, u32),
    Scaled(f64),
    FocusLost,
}

fn sum_motion(previous: &Event, next: Event) -> Option<Event> {
    match (*previous, next) {
        (Event::Relative(ax, ay), Event::Relative(bx, by)) => Some(Event::Relative(ax + bx, ay + by)),
        _ => None,
    }
}

fn host(limit: usize) -> HostInput<Event> {
    HostInput::new(limit)
}

fn cursor(host: &mut HostInput<Event>, x: f64, y: f64) -> bool {
    host.collect_input(InputEventKind::PointerMoved, Event::Moved(x, y), sum_motion)
}

fn barrier(host: &mut HostInput<Event>, event: Event) -> bool {
    host.collect_input(InputEventKind::Barrier, event, sum_motion)
}

fn key(host: &mut HostInput<Event>, state: ButtonState, is_synthetic: bool, repeat: bool) -> bool {
    host.collect_key(
        Some(PhysicalKeyCode::KeyW),
        state,
        is_synthetic,
        repeat,
        Event::Key(PhysicalKeyCode::KeyW, state),
    )
}

fn queued(host: &HostInput<Event>) -> Vec<Event> {
    host.buffer().events().clone()
}

#[test]
fn relative_motion_is_summed_until_a_barrier() {
    let mut host = host(4);
    host.collect_input(InputEventKind::RelativeMotion, Event::Relative(1.0, 2.0), sum_motion);
    host.collect_input(InputEventKind::RelativeMotion, Event::Relative(3.0, -1.0), sum_motion);
    barrier(&mut host, Event::Left);
    host.collect_input(InputEventKind::RelativeMotion, Event::Relative(0.5, 0.5), sum_motion);
    assert_eq!(
        queued(&host),
        [Event::Relative(4.0, 1.0), Event::Left, Event::Relative(0.5, 0.5)]
    );
}

#[test]
fn trailing_motion_replaces_at_capacity_without_crossing_a_button() {
    let mut host = host(3);
    cursor(&mut host, 10.0, 20.0);
    barrier(&mut host, Event::Button(MouseButton::Left, ButtonState::Pressed));
    cursor(&mut host, 30.0, 40.0);
    for x in 50..100 {
        cursor(&mut host, f64::from(x), 60.0);
    }
    assert_eq!(host.buffer().len(), 3);
    assert_eq!(host.buffer().failure(), None);
    // The press keeps the position before it; the pointer ends at (99, 60).
    assert_eq!(
        queued(&host),
        [
            Event::Moved(10.0, 20.0),
            Event::Button(MouseButton::Left, ButtonState::Pressed),
            Event::Moved(99.0, 60.0),
        ]
    );
}

#[test]
fn key_and_leave_events_are_motion_coalescing_barriers() {
    let mut host = host(5);
    cursor(&mut host, 10.0, 20.0);
    host.collect_physical_key(
        PhysicalKeyCode::KeyW,
        ButtonState::Pressed,
        Event::Key(PhysicalKeyCode::KeyW, ButtonState::Pressed),
    );
    cursor(&mut host, 30.0, 40.0);
    barrier(&mut host, Event::Left);
    cursor(&mut host, 50.0, 60.0);
    assert_eq!(
        queued(&host),
        [
            Event::Moved(10.0, 20.0),
            Event::Key(PhysicalKeyCode::KeyW, ButtonState::Pressed),
            Event::Moved(30.0, 40.0),
            Event::Left,
            Event::Moved(50.0, 60.0),
        ]
    );
}

#[test]
fn motion_cannot_cross_a_full_key_barrier_and_failures_stay_sticky() {
    let mut host = host(2);
    cursor(&mut host, 10.0, 20.0);
    host.collect_physical_key(
        PhysicalKeyCode::KeyW,
        ButtonState::Pressed,
        Event::Key(PhysicalKeyCode::KeyW, ButtonState::Pressed),
    );
    let before = queued(&host);
    cursor(&mut host, 30.0, 40.0);
    assert_eq!(host.buffer().failure(), Some(InputBufferFailure::Limit));
    assert_eq!(queued(&host), before);

    // Once a physical event failed, even a later replaceable motion into a
    // queue with room must not conceal the missing event.
    host.clear_events();
    cursor(&mut host, 50.0, 60.0);
    assert_eq!(host.buffer().failure(), Some(InputBufferFailure::Limit));
    assert!(queued(&host).is_empty());
    host.collect_physical_key(
        PhysicalKeyCode::KeyW,
        ButtonState::Released,
        Event::Key(PhysicalKeyCode::KeyW, ButtonState::Released),
    );
    assert_eq!(host.buffer().failure(), Some(InputBufferFailure::Limit));
    assert!(queued(&host).is_empty());
    assert!(host.is_held(PhysicalKeyCode::KeyW));
}

#[test]
fn zero_capacity_fails_even_for_the_first_motion() {
    let mut host = host(0);
    cursor(&mut host, 10.0, 20.0);
    assert!(queued(&host).is_empty());
    assert_eq!(host.buffer().failure(), Some(InputBufferFailure::Limit));
}

#[test]
fn wheel_is_a_motion_barrier_and_is_never_coalesced_at_capacity() {
    let mut host = host(3);
    cursor(&mut host, 10.0, 20.0);
    barrier(&mut host, Event::Wheel(1.0));
    cursor(&mut host, 30.0, 40.0);
    cursor(&mut host, 50.0, 60.0);
    assert_eq!(host.buffer().len(), 3);
    let before = queued(&host);
    barrier(&mut host, Event::Wheel(-1.0));
    assert_eq!(host.buffer().failure(), Some(InputBufferFailure::Limit));
    assert_eq!(queued(&host), before);

    let mut host = self::host(2);
    barrier(&mut host, Event::Wheel(0.25));
    barrier(&mut host, Event::Wheel(0.25));
    assert_eq!(host.buffer().len(), 2);
    barrier(&mut host, Event::Wheel(0.25));
    assert_eq!(host.buffer().failure(), Some(InputBufferFailure::Limit));
}

#[test]
fn synthetic_events_repeated_presses_and_unmapped_keys_use_no_queue_capacity() {
    let mut host = host(0);
    for state in [ButtonState::Pressed, ButtonState::Released] {
        for repeat in [false, true] {
            key(&mut host, state, true, repeat);
        }
    }
    key(&mut host, ButtonState::Pressed, false, true);
    // KeyQ has no portable code.
    host.collect_key(
        None,
        ButtonState::Pressed,
        false,
        false,
        Event::Key(PhysicalKeyCode::KeyW, ButtonState::Pressed),
    );
    assert!(queued(&host).is_empty());
    assert_eq!(host.buffer().failure(), None);
    assert!(!host.is_held(PhysicalKeyCode::KeyW));
}

#[test]
fn repeat_flag_does_not_suppress_an_ordinary_key_release() {
    let mut host = host(2);
    key(&mut host, ButtonState::Pressed, false, false);
    key(&mut host, ButtonState::Released, false, true);
    assert_eq!(
        queued(&host),
        [
            Event::Key(PhysicalKeyCode::KeyW, ButtonState::Pressed),
            Event::Key(PhysicalKeyCode::KeyW, ButtonState::Released),
        ]
    );
    assert!(!host.is_held(PhysicalKeyCode::KeyW));
}

#[test]
fn synthetic_release_before_focus_loss_does_not_hide_cancellation() {
    let mut host = host(2);
    key(&mut host, ButtonState::Pressed, false, false);
    key(&mut host, ButtonState::Released, true, false);
    assert_eq!(host.buffer().len(), 1);
    assert!(host.is_held(PhysicalKeyCode::KeyW));
    assert!(host.collect_focus_loss(Event::FocusLost));
    assert!(!host.is_held(PhysicalKeyCode::KeyW));
    assert_eq!(
        queued(&host),
        [Event::Key(PhysicalKeyCode::KeyW, ButtonState::Pressed), Event::FocusLost]
    );
}

#[test]
fn focus_return_ignores_restoration_and_repeat_until_a_fresh_press() {
    let mut host = host(4);
    key(&mut host, ButtonState::Pressed, false, false);
    host.collect_focus_loss(Event::FocusLost);
    assert!(!host.is_held(PhysicalKeyCode::KeyW));
    host.clear_events();

    key(&mut host, ButtonState::Pressed, true, false);
    key(&mut host, ButtonState::Pressed, false, true);
    key(&mut host, ButtonState::Pressed, true, true);
    assert!(queued(&host).is_empty());
    assert!(!host.is_held(PhysicalKeyCode::KeyW));

    key(&mut host, ButtonState::Released, false, false);
    host.clear_events();
    key(&mut host, ButtonState::Pressed, false, false);
    assert!(host.is_held(PhysicalKeyCode::KeyW));
    assert_eq!(queued(&host), [Event::Key(PhysicalKeyCode::KeyW, ButtonState::Pressed)]);
}

#[test]
fn rejected_focus_boundary_preserves_local_state_and_overflow_remains_sticky() {
    let mut host = host(3);
    cursor(&mut host, 10.0, 20.0);
    host.collect_physical_key(
        PhysicalKeyCode::KeyW,
        ButtonState::Pressed,
        Event::Key(PhysicalKeyCode::KeyW, ButtonState::Pressed),
    );
    barrier(&mut host, Event::Button(MouseButton::Left, ButtonState::Pressed));
    let pending = queued(&host);
    assert!(!host.collect_focus_loss(Event::FocusLost));
    assert_eq!(host.buffer().failure(), Some(InputBufferFailure::Limit));
    assert!(host.is_held(PhysicalKeyCode::KeyW));
    assert_eq!(queued(&host), pending);

    // Even apparent room cannot recover a queue that lost an earlier event.
    host.clear_events();
    host.collect_focus_loss(Event::FocusLost);
    host.collect_physical_key(
        PhysicalKeyCode::KeyW,
        ButtonState::Released,
        Event::Key(PhysicalKeyCode::KeyW, ButtonState::Released),
    );
    barrier(&mut host, Event::Left);
    cursor(&mut host, 70.0, 80.0);
    barrier(&mut host, Event::Resized(1000, 700));
    barrier(&mut host, Event::Scaled(2.0));
    assert_eq!(host.buffer().failure(), Some(InputBufferFailure::Limit));
    assert!(host.is_held(PhysicalKeyCode::KeyW));
    assert!(queued(&host).is_empty());
}

#[test]
fn rejected_pointer_events_do_not_publish_proposed_geometry() {
    for change in 0..4 {
        let mut host = host(2);
        cursor(&mut host, 10.0, 20.0);
        host.collect_physical_key(
            PhysicalKeyCode::KeyW,
            ButtonState::Pressed,
            Event::Key(PhysicalKeyCode::KeyW, ButtonState::Pressed),
        );
        let pending = queued(&host);
        let accepted = match change {
            0 => cursor(&mut host, 70.0, 80.0),
            1 => barrier(&mut host, Event::Left),
            2 => barrier(&mut host, Event::Resized(1000, 700)),
            _ => barrier(&mut host, Event::Scaled(2.0)),
        };
        assert!(!accepted);
        assert_eq!(host.buffer().failure(), Some(InputBufferFailure::Limit));
        assert_eq!(queued(&host), pending);
    }
}

#[test]
fn rejected_key_press_or_release_preserves_adapter_held_state() {
    let mut pressed = host(0);
    key(&mut pressed, ButtonState::Pressed, false, false);
    assert!(!pressed.is_held(PhysicalKeyCode::KeyW));
    assert_eq!(pressed.buffer().failure(), Some(InputBufferFailure::Limit));

    let mut released = host(1);
    key(&mut released, ButtonState::Pressed, false, false);
    key(&mut released, ButtonState::Released, false, false);
    assert!(released.is_held(PhysicalKeyCode::KeyW));
    assert_eq!(released.buffer().failure(), Some(InputBufferFailure::Limit));
}

#[test]
fn key_table_positions_are_distinct_and_in_range() {
    let keys = [
        PhysicalKeyCode::KeyW,
        PhysicalKeyCode::ShiftLeft,
        PhysicalKeyCode::F7,
        PhysicalKeyCode::Digit1,
    ];
    let positions: Vec<usize> = keys.iter().map(|key| physical_key_index(*key)).collect();
    assert_eq!(positions, [0, 36, 34, 14]);
    assert!(positions.iter().all(|index| *index < SUPPORTED_PHYSICAL_KEY_COUNT));
}

#[test]
fn only_real_non_repeated_presses_and_any_real_release_are_collected() {
    assert!(key_event_is_collected(ButtonState::Pressed, false, false));
    assert!(key_event_is_collected(ButtonState::Released, false, true));
    assert!(!key_event_is_collected(ButtonState::Pressed, false, true));
    assert!(!key_event_is_collected(ButtonState::Released, true, false));
}

const ALL_PHYSICAL_KEYS: [PhysicalKeyCode; 37] = [
    PhysicalKeyCode::KeyW,
    PhysicalKeyCode::KeyA,
    PhysicalKeyCode::KeyS,
    PhysicalKeyCode::KeyD,
    PhysicalKeyCode::Enter,
    PhysicalKeyCode::Space,
    PhysicalKeyCode::ArrowLeft,
    PhysicalKeyCode::ArrowRight,
    PhysicalKeyCode::ArrowDown,
    PhysicalKeyCode::ArrowUp,
    PhysicalKeyCode::Escape,
    PhysicalKeyCode::KeyP,
    PhysicalKeyCode::KeyR,
    PhysicalKeyCode::KeyN,
    PhysicalKeyCode::Digit1,
    PhysicalKeyCode::Digit2,
    PhysicalKeyCode::Digit3,
    PhysicalKeyCode::Digit4,
    PhysicalKeyCode::Digit5,
    PhysicalKeyCode::F3,
    PhysicalKeyCode::F4,
    PhysicalKeyCode::F5,
    PhysicalKeyCode::F6,
    PhysicalKeyCode::F8,
    PhysicalKeyCode::F9,
    PhysicalKeyCode::KeyL,
    PhysicalKeyCode::KeyF,
    PhysicalKeyCode::KeyM,
    PhysicalKeyCode::KeyT,
    PhysicalKeyCode::KeyV,
    PhysicalKeyCode::Digit6,
    PhysicalKeyCode::Digit7,
    PhysicalKeyCode::Digit8,
    PhysicalKeyCode::Digit9,
    PhysicalKeyCode::F7,
    PhysicalKeyCode::KeyE,
    PhysicalKeyCode::ShiftLeft,
];

#[test]
fn focus_loss_queues_one_core_owned_boundary_after_all_supported_keys() {
    let mut host = host(ALL_PHYSICAL_KEYS.len() + 1);
    let new_keys = ALL_PHYSICAL_KEYS;

    for key in new_keys.into_iter().rev() {
        host.collect_physical_key(key, ButtonState::Pressed, Event::Key(key, ButtonState::Pressed));
    }
    host.collect_focus_loss(Event::FocusLost);

    let pending = queued(&host);
    assert_eq!(pending.len(), new_keys.len() + 1);
    for (index, key) in new_keys.into_iter().enumerate() {
        assert_eq!(
            pending[index],
            Event::Key(new_keys[new_keys.len() - index - 1], ButtonState::Pressed)
        );
        assert!(!host.is_held(key));
    }
    assert_eq!(pending.last(), Some(&Event::FocusLost));
    assert_eq!(host.buffer().failure(), None);
}

#[test]
fn every_supported_key_has_its_own_table_position() {
    let mut seen = [false; SUPPORTED_PHYSICAL_KEY_COUNT];
    for key in ALL_PHYSICAL_KEYS {
        let index = physical_key_index(key);
        assert!(!seen[index]);
        seen[index] = true;
    }
    assert!(seen.iter().all(|taken| *taken));
}
