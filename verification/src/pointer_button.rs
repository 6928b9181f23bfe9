//! Headless press-to-release ownership for one physical mouse button.
//!
//! The controller neither draws widgets nor consumes runtime input. The caller
//! selects an eligible hit target for every edge and routes claimed edges away
//! from competing gameplay handlers.

use vstd::prelude::*;
use vstd::std_specs::cmp::PartialEqSpec;

use crate::input::{
    ActionEdge, ButtonState, InputCancellationReason, InputControl, MouseButton, PointerSample,
    TransitionIntentToken,
};

verus! {

/// Why a captured button interaction ended without a click.
#[derive(Debug, Clone, Copy, PartialEq, Eq, Structural)]
pub enum PointerButtonCancellation {
    /// The input runtime cancelled the physical mouse hold.
    Input(InputCancellationReason),
    /// The release was outside the captured target, outside the viewport, or
    /// over a target the caller no longer considers eligible.
    ReleasedOutside,
    /// An ordinary release had no known pointer position.
    MissingPointer,
}

/// One change emitted while interpreting an individual mouse action edge.
#[derive(Debug, Clone, Copy, PartialEq, Eq)]
pub enum PointerButtonEvent<T> {
    /// A known in-viewport press captured an eligible target.
    Pressed {
        /// Target chosen by the caller at the press position.
        target: T,
        /// The press's immutable event-time pointer sample.
        pointer: PointerSample,
        /// The press occurrence's runtime-issued token.
        intent: TransitionIntentToken,
    },
    /// A normal release over that same eligible target confirmed a click.
    Clicked {
        /// Target captured at the press, equal to the release's eligible hit.
        target: T,
        /// The release's immutable event-time pointer sample.
        pointer: PointerSample,
        /// The release occurrence's runtime-issued token.
        intent: TransitionIntentToken,
    },
    /// A captured hold ended without confirmation.
    Cancelled {
        /// Target captured at the press; it must not receive a click.
        target: T,
        /// Why confirmation was rejected.
        reason: PointerButtonCancellation,
        /// The release or cancellation occurrence's runtime-issued token.
        intent: TransitionIntentToken,
    },
}

/// Local routing advice and optional interaction change for one input edge.
#[derive(Debug, Clone, Copy, PartialEq, Eq)]
pub struct PointerButtonOutcome<T> {
    claimed: bool,
    event: Option<PointerButtonEvent<T>>,
}

impl<T: Copy> PointerButtonOutcome<T> {
    /// Whether the controller owns the edge for local routing purposes.
    pub closed spec fn spec_claimed(self) -> bool {
        self.claimed
    }

    /// The press, click or cancellation emitted by the edge, if any.
    pub closed spec fn spec_event(self) -> Option<PointerButtonEvent<T>> {
        self.event
    }

    /// Whether this controller owns the edge for local routing purposes.
    ///
    /// Do not forward claimed edges to a competing gesture handler.
    pub fn claimed(self) -> (r: bool)
        ensures
            r == self.spec_claimed(),
    {
        self.claimed
    }

    /// Returns the press, confirmed click, or cancellation emitted by this edge.
    pub fn event(self) -> (r: Option<PointerButtonEvent<T>>)
        ensures
            r == self.spec_event(),
    {
        self.event
    }
}

/// Gesture ownership held by a [`PointerButton`] between edges.
#[derive(Debug, Clone, Copy, PartialEq, Eq)]
pub enum PointerButtonCapture<T> {
    /// No press of the configured button is in progress.
    Idle,
    /// The current press began outside every eligible target.
    Outside,
    /// The current press captured this target.
    Target(T),
    /// The captured target was invalidated; the remaining edges stay claimed.
    Suppressed,
}

/// Whether the hit is the captured target, as the target type's `==`
/// says.
pub open spec fn hit_is_captured<T: PartialEq>(capture: PointerButtonCapture<T>, hit: Option<T>) -> bool {
    match capture {
        PointerButtonCapture::Target(target) => hit is Some && hit->0.eq_spec(&target),
        _ => false,
    }
}

/// The complete effect of one edge: the next capture, whether the edge is
/// claimed, and the emitted event.
pub open spec fn process_step<T: PartialEq, A>(
    button: MouseButton,
    capture: PointerButtonCapture<T>,
    edge: ActionEdge<A>,
    hit: Option<T>,
) -> (PointerButtonCapture<T>, bool, Option<PointerButtonEvent<T>>) {
    process_step_over(button, capture, edge, hit, hit_is_captured(capture, hit))
}

/// The effect of one edge when `over` tells whether the hit is the captured
/// target: only a click depends on it.
pub open spec fn process_step_over<T, A>(
    button: MouseButton,
    capture: PointerButtonCapture<T>,
    edge: ActionEdge<A>,
    hit: Option<T>,
    over: bool,
) -> (PointerButtonCapture<T>, bool, Option<PointerButtonEvent<T>>) {
    if edge.control != InputControl::MouseButton(button) {
        (capture, false, None)
    } else {
        match edge.state {
            ButtonState::Pressed => match capture {
                PointerButtonCapture::Target(_) | PointerButtonCapture::Suppressed => (
                    capture,
                    true,
                    None,
                ),
                PointerButtonCapture::Outside => (capture, false, None),
                PointerButtonCapture::Idle => {
                    if hit is Some && edge.pointer is Some
                        && edge.pointer->0.spec_inside_viewport() {
                        (
                            PointerButtonCapture::Target(hit->0),
                            true,
                            Some(
                                PointerButtonEvent::Pressed {
                                    target: hit->0,
                                    pointer: edge.pointer->0,
                                    intent: edge.intent,
                                },
                            ),
                        )
                    } else {
                        (PointerButtonCapture::Outside, false, None)
                    }
                },
            },
            ButtonState::Released => match capture {
                PointerButtonCapture::Idle | PointerButtonCapture::Outside => (
                    PointerButtonCapture::Idle,
                    false,
                    None,
                ),
                PointerButtonCapture::Suppressed => (PointerButtonCapture::Idle, true, None),
                PointerButtonCapture::Target(target) => (
                    PointerButtonCapture::Idle,
                    true,
                    Some(release_event(target, edge, over)),
                ),
            },
        }
    }
}

/// The event ending a captured hold at a release or runtime cancellation.
pub open spec fn release_event<T, A>(
    target: T,
    edge: ActionEdge<A>,
    over: bool,
) -> PointerButtonEvent<T> {
    if edge.cancellation is Some {
        PointerButtonEvent::Cancelled {
            target,
            reason: PointerButtonCancellation::Input(edge.cancellation->0),
            intent: edge.intent,
        }
    } else if edge.pointer is Some {
        if edge.pointer->0.spec_inside_viewport() && over {
            PointerButtonEvent::Clicked { target, pointer: edge.pointer->0, intent: edge.intent }
        } else {
            PointerButtonEvent::Cancelled {
                target,
                reason: PointerButtonCancellation::ReleasedOutside,
                intent: edge.intent,
            }
        }
    } else {
        PointerButtonEvent::Cancelled {
            target,
            reason: PointerButtonCancellation::MissingPointer,
            intent: edge.intent,
        }
    }
}

/// One call on a controller: an edge with its hit target, or a cancel.
#[derive(Debug, Clone, Copy)]
pub enum PointerButtonCall<T, A> {
    /// `process` of an edge with the eligible target under its pointer.
    Process {
        /// The interpreted edge.
        edge: ActionEdge<A>,
        /// The eligible target under the edge's pointer sample.
        hit: Option<T>,
    },
    /// `cancel`.
    Cancel,
}

/// The capture after one call. It never depends on whether a release is
/// over the captured target.
pub open spec fn call_capture<T, A>(
    button: MouseButton,
    capture: PointerButtonCapture<T>,
    call: PointerButtonCall<T, A>,
) -> PointerButtonCapture<T> {
    match call {
        PointerButtonCall::Process { edge, hit } => process_step_over(
            button,
            capture,
            edge,
            hit,
            false,
        ).0,
        PointerButtonCall::Cancel => cancelled(capture),
    }
}

/// The capture after `cancel`: a captured target is suppressed.
pub open spec fn cancelled<T>(capture: PointerButtonCapture<T>) -> PointerButtonCapture<T> {
    match capture {
        PointerButtonCapture::Target(_) => PointerButtonCapture::Suppressed,
        _ => capture,
    }
}

/// The capture after a sequence of calls, starting from `capture`.
pub open spec fn capture_after<T, A>(
    button: MouseButton,
    capture: PointerButtonCapture<T>,
    calls: Seq<PointerButtonCall<T, A>>,
) -> PointerButtonCapture<T>
    decreases calls.len(),
{
    if calls.len() == 0 {
        capture
    } else {
        call_capture(button, capture_after(button, capture, calls.drop_last()), calls.last())
    }
}

/// The call captures `target`: a press of the configured button from idle,
/// with `target` hit under a known in-viewport pointer.
pub open spec fn captures_target<T, A>(
    button: MouseButton,
    capture: PointerButtonCapture<T>,
    call: PointerButtonCall<T, A>,
    target: T,
) -> bool {
    &&& call matches PointerButtonCall::Process { edge, hit }
    &&& capture is Idle
    &&& edge.control == InputControl::MouseButton(button)
    &&& edge.state == ButtonState::Pressed
    &&& hit == Some(target)
    &&& edge.pointer is Some
    &&& edge.pointer->0.spec_inside_viewport()
}

/// The call ends a gesture: a release of the configured button, or a cancel.
pub open spec fn ends_gesture<T, A>(button: MouseButton, call: PointerButtonCall<T, A>) -> bool {
    match call {
        PointerButtonCall::Process { edge, .. } => edge.control == InputControl::MouseButton(button)
            && edge.state == ButtonState::Released,
        PointerButtonCall::Cancel => true,
    }
}

/// `target` was captured by call `i` and no later call ended the gesture.
pub open spec fn captured_since<T, A>(
    button: MouseButton,
    start: PointerButtonCapture<T>,
    calls: Seq<PointerButtonCall<T, A>>,
    target: T,
    i: int,
) -> bool {
    &&& 0 <= i < calls.len()
    &&& captures_target(button, capture_after(button, start, calls.take(i)), calls[i], target)
    &&& forall|j: int| i < j < calls.len() ==> !ends_gesture(button, #[trigger] calls[j])
}

/// Tracks press-to-release ownership for one physical mouse button.
///
/// Feed every ordered edge of a frame exactly once, each with the eligible
/// target under that edge's own pointer sample. A press outside every
/// eligible target cannot become a click by releasing over a button later,
/// and only a release over the target captured at the press confirms a click.
#[derive(Debug)]
pub struct PointerButton<T: Copy + Eq> {
    button: MouseButton,
    capture: PointerButtonCapture<T>,
}

impl<T: Copy + Eq> PointerButton<T> {
    /// The configured physical mouse button.
    pub closed spec fn spec_button(&self) -> MouseButton {
        self.button
    }

    /// The current gesture ownership.
    pub closed spec fn spec_capture(&self) -> PointerButtonCapture<T> {
        self.capture
    }

    /// Creates an idle controller interpreting only edges of `button`.
    pub fn new(button: MouseButton) -> (controller: Self)
        ensures
            controller.spec_button() == button,
            controller.spec_capture() == PointerButtonCapture::<T>::Idle,
    {
        PointerButton { button, capture: PointerButtonCapture::Idle }
    }

    /// Returns the configured physical mouse button.
    pub fn button(&self) -> (r: MouseButton)
        ensures
            r == self.spec_button(),
    {
        self.button
    }

    /// Returns the initial pressed target while it still owns the gesture.
    pub fn captured(&self) -> (r: Option<T>)
        ensures
            r == (match self.spec_capture() {
                PointerButtonCapture::Target(target) => Some(target),
                _ => None,
            }),
    {
        match self.capture {
            PointerButtonCapture::Target(target) => Some(target),
            _ => None,
        }
    }

    /// Invalidates a captured target and returns it for caller-owned cleanup.
    ///
    /// The remaining matching mouse edges stay claimed until release. Without
    /// capture this changes nothing and returns `None`.
    pub fn cancel(&mut self) -> (r: Option<T>)
        ensures
            final(self).spec_button() == old(self).spec_button(),
            final(self).spec_capture() == cancelled(old(self).spec_capture()),
            match old(self).spec_capture() {
                PointerButtonCapture::Target(target) => {
                    &&& r == Some(target)
                    &&& final(self).spec_capture() == PointerButtonCapture::<T>::Suppressed
                },
                _ => {
                    &&& r is None
                    &&& final(self).spec_capture() == old(self).spec_capture()
                },
            },
    {
        match self.capture {
            PointerButtonCapture::Target(target) => {
                self.capture = PointerButtonCapture::Suppressed;
                Some(target)
            },
            _ => None,
        }
    }

    /// Interprets one ordered edge using its caller-selected eligible hit target.
    ///
    /// Unknown or out-of-viewport samples cannot capture or confirm. A normal
    /// release over the captured target clicks; a release elsewhere or a
    /// runtime cancellation ends the capture without confirmation. Edges of
    /// other controls are never claimed and leave the controller unchanged.
    pub fn process<A: Copy>(&mut self, edge: ActionEdge<A>, hit: Option<T>) -> (r:
        PointerButtonOutcome<T>)
        ensures
            final(self).spec_button() == old(self).spec_button(),
            edge.control != InputControl::MouseButton(old(self).spec_button()) ==> {
                &&& !r.spec_claimed()
                &&& r.spec_event() is None
                &&& final(self).spec_capture() == old(self).spec_capture()
            },
            exists|over: bool|
                (final(self).spec_capture(), r.spec_claimed(), r.spec_event()) == #[trigger] process_step_over(
                    old(self).spec_button(),
                    old(self).spec_capture(),
                    edge,
                    hit,
                    over,
                ),
            T::obeys_eq_spec() ==> (final(self).spec_capture(), r.spec_claimed(), r.spec_event())
                == process_step(old(self).spec_button(), old(self).spec_capture(), edge, hit),
            final(self).spec_capture() == call_capture(
                old(self).spec_button(),
                old(self).spec_capture(),
                PointerButtonCall::Process { edge, hit },
            ),
    {
        let over = match (self.capture, hit) {
            (PointerButtonCapture::Target(target), Some(current)) => current == target,
            _ => false,
        };
        let ghost step = process_step_over(self.button, self.capture, edge, hit, over);
        if edge.control() != InputControl::MouseButton(self.button) {
            return outcome(false, None);
        }
        match edge.state() {
            ButtonState::Pressed => match self.capture {
                PointerButtonCapture::Target(_) | PointerButtonCapture::Suppressed => outcome(
                    true,
                    None,
                ),
                PointerButtonCapture::Outside => outcome(false, None),
                PointerButtonCapture::Idle => {
                    match (hit, edge.pointer()) {
                        (Some(target), Some(pointer)) => {
                            if pointer.is_inside_viewport() {
                                self.capture = PointerButtonCapture::Target(target);
                                return outcome(
                                    true,
                                    Some(
                                        PointerButtonEvent::Pressed {
                                            target,
                                            pointer,
                                            intent: edge.intent(),
                                        },
                                    ),
                                );
                            }
                        },
                        _ => {},
                    }
                    self.capture = PointerButtonCapture::Outside;
                    outcome(false, None)
                },
            },
            ButtonState::Released => {
                let capture = self.capture;
                self.capture = PointerButtonCapture::Idle;
                match capture {
                    PointerButtonCapture::Idle | PointerButtonCapture::Outside => outcome(
                        false,
                        None,
                    ),
                    PointerButtonCapture::Suppressed => outcome(true, None),
                    PointerButtonCapture::Target(target) => {
                        let reason = if let Some(reason) = edge.cancellation_reason() {
                            PointerButtonCancellation::Input(reason)
                        } else if let Some(pointer) = edge.pointer() {
                            if pointer.is_inside_viewport() && over {
                                return outcome(
                                    true,
                                    Some(
                                        PointerButtonEvent::Clicked {
                                            target,
                                            pointer,
                                            intent: edge.intent(),
                                        },
                                    ),
                                );
                            }
                            PointerButtonCancellation::ReleasedOutside
                        } else {
                            PointerButtonCancellation::MissingPointer
                        };
                        outcome(
                            true,
                            Some(
                                PointerButtonEvent::Cancelled {
                                    target,
                                    reason,
                                    intent: edge.intent(),
                                },
                            ),
                        )
                    },
                }
            },
        }
    }
}

/// A press that captures nothing cannot become a click: the matching release
/// is not claimed, emits no event and returns the controller to idle, whatever
/// target lies under the release.
pub proof fn press_outside_never_clicks<T, A>(
    button: MouseButton,
    press: ActionEdge<A>,
    press_hit: Option<T>,
    press_over: bool,
    release: ActionEdge<A>,
    release_hit: Option<T>,
    release_over: bool,
)
    requires
        press.control == InputControl::MouseButton(button),
        press.state == ButtonState::Pressed,
        !(press_hit is Some && press.pointer is Some && press.pointer->0.spec_inside_viewport()),
        release.control == InputControl::MouseButton(button),
        release.state == ButtonState::Released,
    ensures
        ({
            let first = process_step_over(
                button,
                PointerButtonCapture::<T>::Idle,
                press,
                press_hit,
                press_over,
            );
            let second = process_step_over(button, first.0, release, release_hit, release_over);
            &&& first == (PointerButtonCapture::<T>::Outside, false, None::<PointerButtonEvent<T>>)
            &&& second == (PointerButtonCapture::<T>::Idle, false, None::<PointerButtonEvent<T>>)
        }),
{
}

/// A click confirms only the target captured at the press: it needs a normal,
/// in-viewport release of the configured button whose hit equals that target.
pub proof fn clicks_confirm_only_the_captured_target<T: PartialEq, A>(
    button: MouseButton,
    capture: PointerButtonCapture<T>,
    edge: ActionEdge<A>,
    hit: Option<T>,
    target: T,
    pointer: PointerSample,
    intent: TransitionIntentToken,
)
    requires
        process_step(button, capture, edge, hit).2 == Some(
            PointerButtonEvent::Clicked { target, pointer, intent },
        ),
    ensures
        capture == PointerButtonCapture::Target(target),
        edge.control == InputControl::MouseButton(button),
        edge.state == ButtonState::Released,
        edge.cancellation is None,
        edge.pointer == Some(pointer),
        pointer.spec_inside_viewport(),
        intent == edge.intent,
        hit is Some && hit->0.eq_spec(&target),
{
}

/// An invalidated capture keeps claiming the configured button without any
/// event until its release, which returns the controller to idle.
pub proof fn suppressed_capture_claims_silently_until_release<T, A>(
    button: MouseButton,
    edge: ActionEdge<A>,
    hit: Option<T>,
    over: bool,
)
    requires
        edge.control == InputControl::MouseButton(button),
    ensures
        process_step_over(button, PointerButtonCapture::<T>::Suppressed, edge, hit, over) == (if edge.state
            == ButtonState::Pressed {
            PointerButtonCapture::<T>::Suppressed
        } else {
            PointerButtonCapture::<T>::Idle
        }, true, None::<PointerButtonEvent<T>>),
{
}

/// Every release of the configured button ends the gesture, and a captured
/// target always receives exactly one terminal event from it.
pub proof fn release_always_ends_the_gesture<T, A>(
    button: MouseButton,
    capture: PointerButtonCapture<T>,
    edge: ActionEdge<A>,
    hit: Option<T>,
    over: bool,
)
    requires
        edge.control == InputControl::MouseButton(button),
        edge.state == ButtonState::Released,
    ensures
        process_step_over(button, capture, edge, hit, over).0 == PointerButtonCapture::<T>::Idle,
        capture is Target ==> process_step_over(button, capture, edge, hit, over).1
            && process_step_over(button, capture, edge, hit, over).2 is Some,
{
}

/// A press event is emitted only by an idle controller, for a known in-viewport
/// press of the configured button, and captures the hit target.
pub proof fn presses_capture_only_from_idle<T, A>(
    button: MouseButton,
    capture: PointerButtonCapture<T>,
    edge: ActionEdge<A>,
    hit: Option<T>,
    over: bool,
    target: T,
    pointer: PointerSample,
    intent: TransitionIntentToken,
)
    requires
        process_step_over(button, capture, edge, hit, over).2 == Some(
            PointerButtonEvent::Pressed { target, pointer, intent },
        ),
    ensures
        capture == PointerButtonCapture::<T>::Idle,
        edge.control == InputControl::MouseButton(button),
        edge.state == ButtonState::Pressed,
        hit == Some(target),
        edge.pointer == Some(pointer),
        pointer.spec_inside_viewport(),
        process_step_over(button, capture, edge, hit, over).0 == PointerButtonCapture::Target(
            target,
        ),
{
}

/// Every step is consistent, whatever the target type's `==` does: an event
/// implies a claim; a release of the configured button leaves no capture; a
/// click or cancellation names the target captured before; a press event
/// names the hit. The capture changes only by a press from idle that
/// captures the hit, or by a release of the configured button (or by
/// `cancel`), so a captured target stays captured until one of those.
pub proof fn every_step_keeps_ownership_consistent<T, A>(
    button: MouseButton,
    capture: PointerButtonCapture<T>,
    edge: ActionEdge<A>,
    hit: Option<T>,
    over: bool,
)
    ensures
        ({
            let (next, claimed, event) = process_step_over(button, capture, edge, hit, over);
            let matching = edge.control == InputControl::MouseButton(button);
            &&& event is Some ==> claimed
            &&& matching && edge.state == ButtonState::Released ==> next
                == PointerButtonCapture::<T>::Idle
            &&& event matches Some(PointerButtonEvent::Clicked { target, .. }) ==> capture
                == PointerButtonCapture::Target(target)
            &&& event matches Some(PointerButtonEvent::Cancelled { target, .. }) ==> capture
                == PointerButtonCapture::Target(target)
            &&& event matches Some(PointerButtonEvent::Pressed { target, .. }) ==> hit == Some(
                target,
            )
            &&& next is Target ==> (next == capture || (capture is Idle && matching
                && edge.state == ButtonState::Pressed && hit == Some(next->Target_0)))
            &&& capture is Target && next != capture ==> matching && edge.state
                == ButtonState::Released
        }),
{
}

/// Which target is captured after any sequence of `process` and `cancel`
/// calls on a controller that starts idle: `captured` gives `Some(target)`
/// exactly when some call captured `target` (a press of the configured button
/// from idle over `target` under a known in-viewport pointer) and no later
/// call released the configured button or cancelled. Edges of other controls
/// and further presses leave the capture unchanged.
pub proof fn captured_target_follows_the_call_history<T, A>(
    button: MouseButton,
    calls: Seq<PointerButtonCall<T, A>>,
    target: T,
)
    ensures
        capture_after(button, PointerButtonCapture::<T>::Idle, calls) == PointerButtonCapture::Target(
            target,
        ) <==> exists|i: int|
            captured_since(button, PointerButtonCapture::<T>::Idle, calls, target, i),
    decreases calls.len(),
{
    let idle = PointerButtonCapture::<T>::Idle;
    if calls.len() > 0 {
        let prefix = calls.drop_last();
        let last = calls.last();
        let n = calls.len() - 1;
        captured_target_follows_the_call_history::<T, A>(button, prefix, target);
        let before = capture_after(button, idle, prefix);
        assert(calls.take(n) =~= prefix);
        assert forall|i: int| 0 <= i < n implies #[trigger] calls.take(i) =~= prefix.take(i) by {}
        assert forall|j: int| 0 <= j < n implies #[trigger] calls[j] == prefix[j] by {}
        if capture_after(button, idle, calls) == PointerButtonCapture::Target(target) {
            if before == PointerButtonCapture::Target(target) {
                let i = choose|i: int| captured_since(button, idle, prefix, target, i);
                assert(!ends_gesture(button, last));
                assert(captured_since(button, idle, calls, target, i));
            } else {
                assert(captured_since(button, idle, calls, target, n));
            }
        }
        if exists|i: int| captured_since(button, idle, calls, target, i) {
            let i = choose|i: int| captured_since(button, idle, calls, target, i);
            if i < n {
                assert(captured_since(button, idle, prefix, target, i));
                assert(!ends_gesture(button, calls[n]));
            }
        }
    }
}

fn outcome<T>(claimed: bool, event: Option<PointerButtonEvent<T>>) -> (r: PointerButtonOutcome<T>)
    ensures
        r.claimed == claimed,
        r.event == event,
{
    PointerButtonOutcome { claimed, event }
}

} // verus!
