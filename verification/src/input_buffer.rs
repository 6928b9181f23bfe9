//! Bounded queue of platform input collected between two frames.
//!
//! Continuous pointer samples coalesce with the trailing sample of the same
//! kind, so a burst of motion costs one slot; every other event is a barrier
//! that keeps the pointer geometry before it causal. The first failure (the
//! queue is full, an allocation fails, or two relative deltas cannot be
//! summed) is sticky: afterwards nothing more is accepted, and the frame loop
//! reports the failure instead of running the frame.

use vstd::prelude::*;
use crate::input::{ButtonState, PhysicalKeyCode};

verus! {

/// Why an input buffer stopped accepting events.
#[derive(Clone, Copy, Debug, PartialEq, Eq, Structural)]
pub enum InputBufferFailure {
    /// The configured event limit was reached by a barrier event.
    Limit,
    /// Growing the queue by one event failed.
    Allocation,
    /// Two consecutive relative pointer deltas could not be summed.
    RelativeMotion,
}

/// How an event combines with the event queued just before it.
#[derive(Clone, Copy, Debug, PartialEq, Eq, Structural)]
pub enum InputEventKind {
    /// A relative pointer delta; consecutive deltas are summed into one.
    RelativeMotion,
    /// An absolute pointer position; a newer one replaces a trailing one.
    PointerMoved,
    /// Any other event (key, button, wheel, leave, focus, resize): it is
    /// always queued on its own and ends coalescing.
    Barrier,
}

/// Whether an event of kind `next` queued right after one of kind `previous`
/// merges into it instead of taking a slot of its own.
pub open spec fn coalesces(previous: InputEventKind, next: InputEventKind) -> bool {
    previous == next && next != InputEventKind::Barrier
}

/// Whether entries `index` and `index + 1` of `kinds` would have merged.
pub open spec fn merges_at(kinds: Seq<InputEventKind>, index: int) -> bool {
    coalesces(kinds[index], kinds[index + 1])
}

/// No two neighbouring entries would have merged: the queue holds every
/// event exactly as coalescing left it.
pub open spec fn fully_coalesced(kinds: Seq<InputEventKind>) -> bool {
    forall|index: int| 0 <= index && index + 1 < kinds.len() ==> !#[trigger] merges_at(kinds, index)
}

/// Events collected for the next frame, with their kinds.
pub struct InputBuffer<E> {
    kinds: Vec<InputEventKind>,
    events: Vec<E>,
    limit: usize,
    failure: Option<InputBufferFailure>,
}

impl<E> InputBuffer<E> {
    /// Kinds of the queued events, oldest first.
    pub closed spec fn kinds(&self) -> Seq<InputEventKind> {
        self.kinds@
    }

    /// Queued events, oldest first.
    pub closed spec fn queued(&self) -> Seq<E> {
        self.events@
    }

    /// Most events the queue may hold.
    pub closed spec fn spec_limit(&self) -> nat {
        self.limit as nat
    }

    /// The sticky failure, if any.
    pub closed spec fn spec_failure(&self) -> Option<InputBufferFailure> {
        self.failure
    }

    /// The queue's invariant: one kind per event, never more events than the
    /// limit, and no two neighbours that would have merged.
    pub open spec fn wf(&self) -> bool {
        &&& self.kinds().len() == self.queued().len()
        &&& self.queued().len() <= self.spec_limit()
        &&& fully_coalesced(self.kinds())
    }

    /// An empty queue that holds at most `limit` events.
    pub fn new(limit: usize) -> (buffer: Self)
        ensures
            buffer.wf(),
            buffer.queued() == Seq::<E>::empty(),
            buffer.spec_limit() == limit,
            buffer.spec_failure() is None,
    {
        InputBuffer { kinds: Vec::new(), events: Vec::new(), limit, failure: None }
    }

    /// Most events the queue may hold.
    pub fn limit(&self) -> (limit: usize)
        ensures
            limit == self.spec_limit(),
    {
        self.limit
    }

    /// Number of queued events.
    pub fn len(&self) -> (len: usize)
        requires
            self.wf(),
        ensures
            len == self.queued().len(),
    {
        self.events.len()
    }

    /// The sticky failure, if any.
    pub fn failure(&self) -> (failure: Option<InputBufferFailure>)
        ensures
            failure == self.spec_failure(),
    {
        self.failure
    }

    /// The queued events, oldest first.
    pub fn events(&self) -> (events: &Vec<E>)
        ensures
            events@ == self.queued(),
    {
        &self.events
    }

    /// Empties the queue after a frame consumed it. The limit and any
    /// failure stay.
    pub fn clear(&mut self)
        ensures
            final(self).wf(),
            final(self).queued() == Seq::<E>::empty(),
            final(self).kinds() == Seq::<InputEventKind>::empty(),
            final(self).spec_limit() == old(self).spec_limit(),
            final(self).spec_failure() == old(self).spec_failure(),
    {
        self.kinds.clear();
        self.events.clear();
    }

    /// Queues `event` of kind `kind`, returning whether it was accepted.
    ///
    /// After a failure nothing is accepted and nothing changes. A relative
    /// delta following a relative delta is summed into it by `merge`; if the
    /// sum cannot be formed the buffer fails with `RelativeMotion`. An
    /// absolute position following an absolute position replaces it. Any
    /// other event is appended: a full queue fails with `Limit`, and a
    /// failed reservation with `Allocation`. Events queued earlier are never
    /// changed, dropped or reordered.
    pub fn collect_input<F: FnOnce(&E, E) -> Option<E>>(
        &mut self,
        kind: InputEventKind,
        event: E,
        merge: F,
    ) -> (accepted: bool)
        requires
            old(self).wf(),
            forall|previous: &E, next: E| merge.requires((previous, next)),
        ensures
            final(self).wf(),
            input_collected(*old(self), *final(self), kind, event, merge, accepted),
    {
        if self.failure.is_some() {
            return false;
        }
        let len = self.events.len();
        if len > 0 {
            let last_kind = self.kinds[len - 1];
            let same = match (last_kind, kind) {
                (InputEventKind::RelativeMotion, InputEventKind::RelativeMotion) => 1u8,
                (InputEventKind::PointerMoved, InputEventKind::PointerMoved) => 2u8,
                _ => 0u8,
            };
            if same == 1 {
                let merged = merge(&self.events[len - 1], event);
                match merged {
                    Some(sum) => {
                        self.events.set(len - 1, sum);
                        return true;
                    },
                    None => {
                        self.failure = Some(InputBufferFailure::RelativeMotion);
                        return false;
                    },
                }
            }
            if same == 2 {
                self.events.set(len - 1, event);
                return true;
            }
        }
        self.append(kind, event)
    }

    /// Appends one event that does not merge with the last one.
    fn append(&mut self, kind: InputEventKind, event: E) -> (accepted: bool)
        requires
            old(self).wf(),
            old(self).spec_failure() is None,
            old(self).queued().len() > 0 ==> !coalesces(old(self).kinds().last(), kind),
        ensures
            final(self).wf(),
            final(self).spec_limit() == old(self).spec_limit(),
            ({
                let kinds = old(self).kinds();
                let queued = old(self).queued();
                if queued.len() >= old(self).spec_limit() {
                    &&& !accepted
                    &&& final(self).kinds() == kinds
                    &&& final(self).queued() == queued
                    &&& final(self).spec_failure() == Some(InputBufferFailure::Limit)
                } else {
                    &&& accepted ==> {
                        &&& final(self).kinds() == kinds.push(kind)
                        &&& final(self).queued() == queued.push(event)
                        &&& final(self).spec_failure() is None
                    }
                    &&& !accepted ==> {
                        &&& final(self).kinds() == kinds
                        &&& final(self).queued() == queued
                        &&& final(self).spec_failure() == Some(InputBufferFailure::Allocation)
                    }
                }
            }),
    {
        if self.events.len() >= self.limit {
            self.failure = Some(InputBufferFailure::Limit);
            return false;
        }
        if self.kinds.try_reserve(1).is_err() || self.events.try_reserve(1).is_err() {
            self.failure = Some(InputBufferFailure::Allocation);
            return false;
        }
        self.kinds.push(kind);
        self.events.push(event);
        proof {
            let kinds = self.kinds@;
            assert forall|index: int| 0 <= index && index + 1 < kinds.len() implies !#[trigger] merges_at(kinds, index) by {
                if index + 1 < kinds.len() - 1 {
                    assert(kinds[index] == old(self).kinds()[index]);
                    assert(kinds[index + 1] == old(self).kinds()[index + 1]);
                    assert(!merges_at(old(self).kinds(), index));
                }
            }
        }
        true
    }

    /// Queues a barrier event (key, button, wheel, leave, focus, resize),
    /// which never merges: it is appended unless the buffer already failed,
    /// is full (`Limit`) or cannot grow (`Allocation`).
    pub fn collect_barrier(&mut self, event: E) -> (accepted: bool)
        requires
            old(self).wf(),
        ensures
            final(self).wf(),
            final(self).spec_limit() == old(self).spec_limit(),
            ({
                let kinds = old(self).kinds();
                let queued = old(self).queued();
                if old(self).spec_failure() is Some {
                    &&& !accepted
                    &&& final(self).kinds() == kinds
                    &&& final(self).queued() == queued
                    &&& final(self).spec_failure() == old(self).spec_failure()
                } else if queued.len() >= old(self).spec_limit() {
                    &&& !accepted
                    &&& final(self).kinds() == kinds
                    &&& final(self).queued() == queued
                    &&& final(self).spec_failure() == Some(InputBufferFailure::Limit)
                } else {
                    &&& accepted ==> {
                        &&& final(self).kinds() == kinds.push(InputEventKind::Barrier)
                        &&& final(self).queued() == queued.push(event)
                        &&& final(self).spec_failure() is None
                    }
                    &&& !accepted ==> {
                        &&& final(self).kinds() == kinds
                        &&& final(self).queued() == queued
                        &&& final(self).spec_failure() == Some(InputBufferFailure::Allocation)
                    }
                }
            }),
    {
        if self.failure.is_some() {
            return false;
        }
        self.append(InputEventKind::Barrier, event)
    }
}


/// Number of physical keys the portable input layer supports.
pub const SUPPORTED_PHYSICAL_KEY_COUNT: usize = 37;

/// Position of `key` in a per-key table.
pub open spec fn spec_key_index(key: PhysicalKeyCode) -> int {
    match key {
        PhysicalKeyCode::KeyW => 0,
        PhysicalKeyCode::KeyA => 1,
        PhysicalKeyCode::KeyS => 2,
        PhysicalKeyCode::KeyD => 3,
        PhysicalKeyCode::Enter => 4,
        PhysicalKeyCode::Space => 5,
        PhysicalKeyCode::ArrowLeft => 6,
        PhysicalKeyCode::ArrowRight => 7,
        PhysicalKeyCode::ArrowDown => 8,
        PhysicalKeyCode::ArrowUp => 9,
        PhysicalKeyCode::Escape => 10,
        PhysicalKeyCode::KeyP => 11,
        PhysicalKeyCode::KeyR => 12,
        PhysicalKeyCode::KeyN => 13,
        PhysicalKeyCode::Digit1 => 14,
        PhysicalKeyCode::Digit2 => 15,
        PhysicalKeyCode::Digit3 => 16,
        PhysicalKeyCode::Digit4 => 17,
        PhysicalKeyCode::Digit5 => 18,
        PhysicalKeyCode::F3 => 19,
        PhysicalKeyCode::F4 => 20,
        PhysicalKeyCode::F5 => 21,
        PhysicalKeyCode::F6 => 22,
        PhysicalKeyCode::F8 => 23,
        PhysicalKeyCode::F9 => 24,
        PhysicalKeyCode::KeyL => 25,
        PhysicalKeyCode::KeyF => 26,
        PhysicalKeyCode::KeyM => 27,
        PhysicalKeyCode::KeyT => 28,
        PhysicalKeyCode::KeyV => 29,
        PhysicalKeyCode::Digit6 => 30,
        PhysicalKeyCode::Digit7 => 31,
        PhysicalKeyCode::Digit8 => 32,
        PhysicalKeyCode::Digit9 => 33,
        PhysicalKeyCode::F7 => 34,
        PhysicalKeyCode::KeyE => 35,
        PhysicalKeyCode::ShiftLeft => 36,
    }
}

/// Position of `key` in a per-key table: below the key count, and distinct
/// for distinct keys.
pub fn physical_key_index(key: PhysicalKeyCode) -> (index: usize)
    ensures
        index == spec_key_index(key),
        index < SUPPORTED_PHYSICAL_KEY_COUNT,
{
    match key {
        PhysicalKeyCode::KeyW => 0,
        PhysicalKeyCode::KeyA => 1,
        PhysicalKeyCode::KeyS => 2,
        PhysicalKeyCode::KeyD => 3,
        PhysicalKeyCode::Enter => 4,
        PhysicalKeyCode::Space => 5,
        PhysicalKeyCode::ArrowLeft => 6,
        PhysicalKeyCode::ArrowRight => 7,
        PhysicalKeyCode::ArrowDown => 8,
        PhysicalKeyCode::ArrowUp => 9,
        PhysicalKeyCode::Escape => 10,
        PhysicalKeyCode::KeyP => 11,
        PhysicalKeyCode::KeyR => 12,
        PhysicalKeyCode::KeyN => 13,
        PhysicalKeyCode::Digit1 => 14,
        PhysicalKeyCode::Digit2 => 15,
        PhysicalKeyCode::Digit3 => 16,
        PhysicalKeyCode::Digit4 => 17,
        PhysicalKeyCode::Digit5 => 18,
        PhysicalKeyCode::F3 => 19,
        PhysicalKeyCode::F4 => 20,
        PhysicalKeyCode::F5 => 21,
        PhysicalKeyCode::F6 => 22,
        PhysicalKeyCode::F8 => 23,
        PhysicalKeyCode::F9 => 24,
        PhysicalKeyCode::KeyL => 25,
        PhysicalKeyCode::KeyF => 26,
        PhysicalKeyCode::KeyM => 27,
        PhysicalKeyCode::KeyT => 28,
        PhysicalKeyCode::KeyV => 29,
        PhysicalKeyCode::Digit6 => 30,
        PhysicalKeyCode::Digit7 => 31,
        PhysicalKeyCode::Digit8 => 32,
        PhysicalKeyCode::Digit9 => 33,
        PhysicalKeyCode::F7 => 34,
        PhysicalKeyCode::KeyE => 35,
        PhysicalKeyCode::ShiftLeft => 36,
    }
}

/// Distinct keys have distinct table positions.
pub proof fn key_indices_are_distinct(a: PhysicalKeyCode, b: PhysicalKeyCode)
    ensures
        spec_key_index(a) == spec_key_index(b) ==> a == b,
        0 <= spec_key_index(a) < SUPPORTED_PHYSICAL_KEY_COUNT,
{
}

/// Whether a platform key event is a new physical user action worth
/// queueing: synthesized events (restored or released around focus
/// changes) and auto-repeated presses are not. A repeated release is.
pub fn key_event_is_collected(state: ButtonState, is_synthetic: bool, repeat: bool) -> (collected:
    bool)
    ensures
        collected == !(is_synthetic || (repeat && state == ButtonState::Pressed)),
{
    let pressed = match state {
        ButtonState::Pressed => true,
        ButtonState::Released => false,
    };
    !(is_synthetic || (repeat && pressed))
}

/// The desktop host's input state between frames: the event queue and the
/// keys it believes held. A key's held state changes only when its event
/// was accepted; focus loss, once queued, releases every key.
pub struct HostInput<E> {
    buffer: InputBuffer<E>,
    held_keys: Vec<bool>,
}

impl<E> HostInput<E> {
    /// The event queue.
    pub closed spec fn spec_buffer(&self) -> InputBuffer<E> {
        self.buffer
    }

    /// Whether `key` is believed held.
    pub closed spec fn spec_held(&self, key: PhysicalKeyCode) -> bool {
        self.held_keys@[spec_key_index(key)]
    }

    /// The state's invariant: a valid queue and one flag per supported key.
    pub closed spec fn inv(&self) -> bool {
        &&& self.buffer.wf()
        &&& self.held_keys@.len() == SUPPORTED_PHYSICAL_KEY_COUNT
    }

    /// No key is believed held.
    pub open spec fn none_held(&self) -> bool {
        forall|key: PhysicalKeyCode| !#[trigger] self.spec_held(key)
    }

    /// An empty queue of at most `limit` events and no held key.
    pub fn new(limit: usize) -> (input: Self)
        ensures
            input.inv(),
            input.spec_buffer().queued() == Seq::<E>::empty(),
            input.spec_buffer().spec_limit() == limit,
            input.spec_buffer().spec_failure() is None,
            input.none_held(),
    {
        let mut held_keys: Vec<bool> = Vec::new();
        let mut k: usize = 0;
        while k < SUPPORTED_PHYSICAL_KEY_COUNT
            invariant
                k <= SUPPORTED_PHYSICAL_KEY_COUNT,
                held_keys@.len() == k,
                forall|i: int| 0 <= i < k ==> !#[trigger] held_keys@[i],
            decreases SUPPORTED_PHYSICAL_KEY_COUNT - k,
        {
            held_keys.push(false);
            k += 1;
        }
        let input = HostInput { buffer: InputBuffer::new(limit), held_keys };
        proof {
            assert forall|key: PhysicalKeyCode| !#[trigger] input.spec_held(key) by {
                key_indices_are_distinct(key, key);
            }
        }
        input
    }

    /// The event queue.
    pub fn buffer(&self) -> (buffer: &InputBuffer<E>)
        ensures
            *buffer == self.spec_buffer(),
    {
        &self.buffer
    }

    /// Whether `key` is believed held.
    pub fn is_held(&self, key: PhysicalKeyCode) -> (held: bool)
        requires
            self.inv(),
        ensures
            held == self.spec_held(key),
    {
        self.held_keys[physical_key_index(key)]
    }

    /// Collects one platform key event. Synthesized events, repeated
    /// presses and keys without a portable code (`None`) are ignored and
    /// change nothing; any other event is queued as a barrier, and only if
    /// it was accepted does the key's held state follow it.
    pub fn collect_key(
        &mut self,
        key: Option<PhysicalKeyCode>,
        state: ButtonState,
        is_synthetic: bool,
        repeat: bool,
        event: E,
    ) -> (accepted: bool)
        requires
            old(self).inv(),
        ensures
            final(self).inv(),
            key_event_collected(*old(self), *final(self), key, state, is_synthetic, repeat, event, accepted),
    {
        if !key_event_is_collected(state, is_synthetic, repeat) {
            return false;
        }
        match key {
            Some(key) => self.collect_physical_key(key, state, event),
            None => false,
        }
    }

    /// Queues a key event as a barrier; only if it was accepted does `key`
    /// become held (pressed) or not held (released). Other keys never change.
    pub fn collect_physical_key(&mut self, key: PhysicalKeyCode, state: ButtonState, event: E) -> (accepted: bool)
        requires
            old(self).inv(),
        ensures
            final(self).inv(),
            physical_key_collected(*old(self), *final(self), key, state, event, accepted),
    {
        let accepted = self.buffer.collect_barrier(event);
        if accepted {
            let index = physical_key_index(key);
            let pressed = match state {
                ButtonState::Pressed => true,
                ButtonState::Released => false,
            };
            self.held_keys.set(index, pressed);
            proof {
                assert forall|other: PhysicalKeyCode| other != key implies #[trigger] self.spec_held(other)
                    == old(self).spec_held(other) by {
                    key_indices_are_distinct(other, key);
                }
            }
        }
        accepted
    }

    /// Queues the focus-loss boundary; only if it was accepted is every key
    /// released. A refused boundary changes nothing but the sticky failure.
    pub fn collect_focus_loss(&mut self, event: E) -> (accepted: bool)
        requires
            old(self).inv(),
        ensures
            final(self).inv(),
            barrier_collected(old(self).spec_buffer(), final(self).spec_buffer(), event, accepted),
            accepted ==> final(self).none_held(),
            !accepted ==> forall|key: PhysicalKeyCode| #[trigger] final(self).spec_held(key)
                == old(self).spec_held(key),
    {
        let accepted = self.buffer.collect_barrier(event);
        if accepted {
            let ghost queue = self.buffer;
            let mut k: usize = 0;
            while k < SUPPORTED_PHYSICAL_KEY_COUNT
                invariant
                    self.buffer == queue,
                    k <= SUPPORTED_PHYSICAL_KEY_COUNT,
                    self.held_keys@.len() == SUPPORTED_PHYSICAL_KEY_COUNT,
                    forall|i: int| 0 <= i < k ==> !#[trigger] self.held_keys@[i],
                decreases SUPPORTED_PHYSICAL_KEY_COUNT - k,
            {
                self.held_keys.set(k, false);
                k += 1;
            }
            proof {
                assert forall|key: PhysicalKeyCode| !#[trigger] self.spec_held(key) by {
                    key_indices_are_distinct(key, key);
                }
            }
        }
        accepted
    }

    /// Queues any other event of kind `kind`, as `InputBuffer::collect_input`
    /// does; held keys never change.
    pub fn collect_input<F: FnOnce(&E, E) -> Option<E>>(
        &mut self,
        kind: InputEventKind,
        event: E,
        merge: F,
    ) -> (accepted: bool)
        requires
            old(self).inv(),
            forall|previous: &E, next: E| merge.requires((previous, next)),
        ensures
            final(self).inv(),
            forall|key: PhysicalKeyCode| #[trigger] final(self).spec_held(key) == old(self).spec_held(key),
            input_collected(
                old(self).spec_buffer(),
                final(self).spec_buffer(),
                kind,
                event,
                merge,
                accepted,
            ),
    {
        self.buffer.collect_input(kind, event, merge)
    }

    /// Empties the queue after a frame consumed it; held keys and any
    /// failure stay.
    pub fn clear_events(&mut self)
        requires
            old(self).inv(),
        ensures
            final(self).inv(),
            final(self).spec_buffer().queued() == Seq::<E>::empty(),
            final(self).spec_buffer().spec_limit() == old(self).spec_buffer().spec_limit(),
            final(self).spec_buffer().spec_failure() == old(self).spec_buffer().spec_failure(),
            forall|key: PhysicalKeyCode| #[trigger] final(self).spec_held(key) == old(self).spec_held(key),
    {
        self.buffer.clear();
    }
}

/// `after` is `before` with `event` of kind `kind` collected, `merge`
/// summing consecutive relative deltas, and `accepted` the answer.
pub open spec fn input_collected<E, F: FnOnce(&E, E) -> Option<E>>(
    before: InputBuffer<E>,
    after: InputBuffer<E>,
    kind: InputEventKind,
    event: E,
    merge: F,
    accepted: bool,
) -> bool {
    &&& after.spec_limit() == before.spec_limit()
    &&& {
        let kinds = before.kinds();
        let queued = before.queued();
        let len = queued.len();
        let merging = len > 0 && coalesces(kinds.last(), kind);
        if before.spec_failure() is Some {
            &&& !accepted
            &&& after.kinds() == kinds
            &&& after.queued() == queued
            &&& after.spec_failure() == before.spec_failure()
        } else if merging && kind == InputEventKind::RelativeMotion {
            &&& after.kinds() == kinds
            &&& after.queued().len() == len
            &&& after.queued().drop_last() =~= queued.drop_last()
            &&& accepted ==> {
                &&& after.spec_failure() is None
                &&& call_ensures(
                    merge,
                    (&queued.last(), event),
                    Some(after.queued().last()),
                )
            }
            &&& !accepted ==> {
                &&& after.queued() == queued
                &&& after.spec_failure() == Some(InputBufferFailure::RelativeMotion)
                &&& call_ensures(merge, (&queued.last(), event), None)
            }
        } else if merging {
            &&& accepted
            &&& after.kinds() == kinds
            &&& after.queued() =~= queued.update(len - 1, event)
            &&& after.spec_failure() is None
        } else if len >= before.spec_limit() {
            &&& !accepted
            &&& after.kinds() == kinds
            &&& after.queued() == queued
            &&& after.spec_failure() == Some(InputBufferFailure::Limit)
        } else {
            &&& accepted ==> {
                &&& after.kinds() == kinds.push(kind)
                &&& after.queued() == queued.push(event)
                &&& after.spec_failure() is None
            }
            &&& !accepted ==> {
                &&& after.kinds() == kinds
                &&& after.queued() == queued
                &&& after.spec_failure() == Some(InputBufferFailure::Allocation)
            }
        }
    }
}

/// The rule of `key_event_is_collected`.
pub open spec fn key_event_is_collected_spec(state: ButtonState, is_synthetic: bool, repeat: bool) -> bool {
    !(is_synthetic || (repeat && state == ButtonState::Pressed))
}

/// `after` is `before` with `event` queued as a barrier, as
/// `InputBuffer::collect_barrier` states.
pub open spec fn barrier_collected<E>(
    before: InputBuffer<E>,
    after: InputBuffer<E>,
    event: E,
    accepted: bool,
) -> bool {
    &&& after.spec_limit() == before.spec_limit()
    &&& if before.spec_failure() is Some {
        &&& !accepted
        &&& after.kinds() == before.kinds()
        &&& after.queued() == before.queued()
        &&& after.spec_failure() == before.spec_failure()
    } else if before.queued().len() >= before.spec_limit() {
        &&& !accepted
        &&& after.kinds() == before.kinds()
        &&& after.queued() == before.queued()
        &&& after.spec_failure() == Some(InputBufferFailure::Limit)
    } else {
        &&& accepted ==> {
            &&& after.kinds() == before.kinds().push(InputEventKind::Barrier)
            &&& after.queued() == before.queued().push(event)
            &&& after.spec_failure() is None
        }
        &&& !accepted ==> {
            &&& after.kinds() == before.kinds()
            &&& after.queued() == before.queued()
            &&& after.spec_failure() == Some(InputBufferFailure::Allocation)
        }
    }
}

/// `after` is `before` with the event of `key` going to `state` queued as a
/// barrier; the key's held state follows only an accepted event.
pub open spec fn physical_key_collected<E>(
    before: HostInput<E>,
    after: HostInput<E>,
    key: PhysicalKeyCode,
    state: ButtonState,
    event: E,
    accepted: bool,
) -> bool {
    &&& barrier_collected(before.spec_buffer(), after.spec_buffer(), event, accepted)
    &&& accepted ==> after.spec_held(key) == (state == ButtonState::Pressed)
    &&& !accepted ==> after.spec_held(key) == before.spec_held(key)
    &&& forall|other: PhysicalKeyCode| other != key ==> #[trigger] after.spec_held(other)
        == before.spec_held(other)
}


/// `after` is `before` with one platform key event collected: ignored
/// events change nothing, others are collected as physical key events.
pub open spec fn key_event_collected<E>(
    before: HostInput<E>,
    after: HostInput<E>,
    key: Option<PhysicalKeyCode>,
    state: ButtonState,
    is_synthetic: bool,
    repeat: bool,
    event: E,
    accepted: bool,
) -> bool {
    if !key_event_is_collected_spec(state, is_synthetic, repeat) || key is None {
        &&& !accepted
        &&& after == before
    } else {
        physical_key_collected(before, after, key->0, state, event, accepted)
    }
}

/// A key that is not held becomes held through a platform key event only
/// when that event is an accepted, real, non-repeated press of that key; so
/// after focus loss released every key, restored or repeated presses cannot
/// make one held again.
pub proof fn key_becomes_held_only_by_a_fresh_press<E>(
    before: HostInput<E>,
    after: HostInput<E>,
    key: Option<PhysicalKeyCode>,
    state: ButtonState,
    is_synthetic: bool,
    repeat: bool,
    event: E,
    accepted: bool,
    watched: PhysicalKeyCode,
)
    requires
        key_event_collected(before, after, key, state, is_synthetic, repeat, event, accepted),
        !before.spec_held(watched),
        after.spec_held(watched),
    ensures
        key == Some(watched),
        state == ButtonState::Pressed,
        !is_synthetic,
        !repeat,
        accepted,
{
}

} // verus!
