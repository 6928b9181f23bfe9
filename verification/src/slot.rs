//! Last-applied state of retained 3D scene slots, updated field by field so
//! that unchanged fields cause no setter work and a failed setter never
//! leaves a record claiming a value the scene did not accept; and the
//! per-frame synchronisation of a slot list with the desired objects.

use vstd::prelude::*;
use vstd::laws_eq::obeys_concrete_eq;
use vstd::std_specs::cmp::PartialEqSpec;
use crate::storage::{vec_capacity, vec_try_reserve_exact};

verus! {

/// One setter call on a retained slot.
#[derive(Debug, Clone, Copy, PartialEq)]
pub enum SlotChange<T, St> {
    /// Replace the transform.
    Transform(T),
    /// Replace the style.
    Style(St),
    /// Show or hide the slot.
    Visible(bool),
}

/// What a retained slot last accepted, and the source it is attributed to.
#[derive(Debug, Clone, Copy, PartialEq)]
pub struct AppliedState<S, T, St> {
    /// Managed source occupying the slot.
    pub source: S,
    /// Last accepted transform.
    pub transform: T,
    /// Last accepted style.
    pub style: St,
    /// Last accepted visibility.
    pub visible: bool,
}

/// `state` after its first `accepted` changed fields, in the order
/// transform, style, visibility, took their desired values.
pub open spec fn partially_applied<S, T, St>(
    state: AppliedState<S, T, St>,
    desired: AppliedState<S, T, St>,
    accepted: int,
) -> AppliedState<S, T, St> {
    AppliedState {
        source: state.source,
        transform: if accepted >= 1 { desired.transform } else { state.transform },
        style: if accepted >= 2 { desired.style } else { state.style },
        visible: if accepted >= 3 { desired.visible } else { state.visible },
    }
}

/// Some state of the setter `F` was called with `change` and accepted it.
pub open spec fn accepted<T, St, E, F: FnMut(SlotChange<T, St>) -> Result<(), E>>(
    change: SlotChange<T, St>,
) -> bool {
    exists|setter: F, answer: Result<(), E>| call_ensures(setter, (change,), answer) && answer is Ok
}

/// Some state of the setter `F` was called with `change` and answered
/// `answer`: the change reached the setter.
pub open spec fn answered<T, St, E, F: FnMut(SlotChange<T, St>) -> Result<(), E>>(
    change: SlotChange<T, St>,
    answer: Result<(), E>,
) -> bool {
    exists|setter: F| call_ensures(setter, (change,), answer)
}

impl<S: Copy, T: Copy + PartialEq, St: Copy + PartialEq> AppliedState<S, T, St> {
    /// Brings the slot to `desired`, calling `apply` once for each field that
    /// differs, in the order transform, style, visibility. A field is
    /// recorded only after its setter succeeded; the first failure is
    /// returned and later fields are left for a retry. On success the slot
    /// is attributed to the desired source.
    pub fn update<E, F: FnMut(SlotChange<T, St>) -> Result<(), E>>(
        &mut self,
        desired: Self,
        mut apply: F,
    ) -> (result: Result<(), E>)
        requires
            forall|setter: F, change: SlotChange<T, St>| setter.requires((change,)),
        ensures
            obeys_concrete_eq::<T>() && obeys_concrete_eq::<St>() ==> {
                let state = *old(self);
                let t = state.transform != desired.transform;
                let st = state.style != desired.style;
                let v = state.visible != desired.visible;
                let answered_ok = |step: int|
                    {
                        &&& (step > 0 && t) ==> accepted::<T, St, E, F>(SlotChange::Transform(desired.transform))
                        &&& (step > 1 && st) ==> accepted::<T, St, E, F>(SlotChange::Style(desired.style))
                        &&& (step > 2 && v) ==> accepted::<T, St, E, F>(SlotChange::Visible(desired.visible))
                    };
                &&& !t && !st && !v ==> result is Ok
                &&& result is Ok ==> *final(self) == desired && answered_ok(3)
                &&& result is Err ==> {
                    ||| t && *final(self) == partially_applied(state, desired, 0)
                        && answered::<T, St, E, F>(SlotChange::Transform(desired.transform), result)
                    ||| st && *final(self) == partially_applied(state, desired, 1) && answered_ok(1)
                        && answered::<T, St, E, F>(SlotChange::Style(desired.style), result)
                    ||| v && *final(self) == partially_applied(state, desired, 2) && answered_ok(2)
                        && answered::<T, St, E, F>(SlotChange::Visible(desired.visible), result)
                }
            },
    {
        proof {
            reveal(obeys_concrete_eq);
        }
        let transform_differs = self.transform != desired.transform;
        proof {
            if obeys_concrete_eq::<T>() {
                assert(self.transform.eq_spec(&desired.transform) <==> self.transform
                    == desired.transform);
            }
        }
        if transform_differs {
            let ghost setter = apply;
            let change = SlotChange::Transform(desired.transform);
            let answer = apply(change);
            proof {
                assert(call_ensures(setter, (change,), answer));
                assert(answered::<T, St, E, F>(change, answer));
            }
            if let Err(error) = answer {
                return Err(error);
            }
            proof {
                assert(call_ensures(setter, (change,), answer) && answer is Ok);
                assert(accepted::<T, St, E, F>(change));
            }
            self.transform = desired.transform;
        }
        let style_differs = self.style != desired.style;
        proof {
            if obeys_concrete_eq::<St>() {
                assert(self.style.eq_spec(&desired.style) <==> self.style == desired.style);
            }
        }
        if style_differs {
            let ghost setter = apply;
            let change = SlotChange::Style(desired.style);
            let answer = apply(change);
            proof {
                assert(call_ensures(setter, (change,), answer));
                assert(answered::<T, St, E, F>(change, answer));
            }
            if let Err(error) = answer {
                return Err(error);
            }
            proof {
                assert(call_ensures(setter, (change,), answer) && answer is Ok);
                assert(accepted::<T, St, E, F>(change));
            }
            self.style = desired.style;
        }
        if self.visible != desired.visible {
            let ghost setter = apply;
            let change = SlotChange::Visible(desired.visible);
            let answer = apply(change);
            proof {
                assert(call_ensures(setter, (change,), answer));
                assert(answered::<T, St, E, F>(change, answer));
            }
            if let Err(error) = answer {
                return Err(error);
            }
            proof {
                assert(call_ensures(setter, (change,), answer) && answer is Ok);
                assert(accepted::<T, St, E, F>(change));
            }
            self.visible = desired.visible;
        }
        self.source = desired.source;
        Ok(())
    }
}


/// `state` hidden: the same record with visibility off.
pub open spec fn hidden<S, T, St>(state: AppliedState<S, T, St>) -> AppliedState<S, T, St> {
    AppliedState {
        source: state.source,
        transform: state.transform,
        style: state.style,
        visible: false,
    }
}

/// One retained scene object: the scene's identity for it and what it last
/// accepted.
#[derive(Debug, Clone, Copy)]
pub struct SceneSlot<Id, S, T, St> {
    /// The scene's identity of the object.
    pub id: Id,
    /// What the object last accepted.
    pub applied: AppliedState<S, T, St>,
}

impl<Id: Copy, S: Copy, T: Copy + PartialEq, St: Copy + PartialEq> SceneSlot<Id, S, T, St> {
    /// Brings the slot's object in `scene` to `desired`, calling `apply`
    /// with the scene and the object's identity once for each differing
    /// field, in the order transform, style, visibility, and recording each
    /// field only after its setter succeeded. The identity never changes.
    pub fn update<C, E, A: FnMut(&mut C, Id, SlotChange<T, St>) -> Result<(), E>>(
        &mut self,
        scene: &mut C,
        desired: AppliedState<S, T, St>,
        apply: &mut A,
    ) -> (result: Result<(), E>)
        requires
            forall|setter: A, target: &mut C, id: Id, change: SlotChange<T, St>|
                setter.requires((target, id, change)),
        ensures
            final(self).id == old(self).id,
            obeys_concrete_eq::<T>() && obeys_concrete_eq::<St>() ==> {
                let state = old(self).applied;
                let id = old(self).id;
                let t = state.transform != desired.transform;
                let st = state.style != desired.style;
                let v = state.visible != desired.visible;
                let accepted_up_to = |step: int|
                    {
                        &&& (step > 0 && t) ==> slot_accepted::<C, Id, T, St, E, A>(
                            id,
                            SlotChange::Transform(desired.transform),
                        )
                        &&& (step > 1 && st) ==> slot_accepted::<C, Id, T, St, E, A>(
                            id,
                            SlotChange::Style(desired.style),
                        )
                        &&& (step > 2 && v) ==> slot_accepted::<C, Id, T, St, E, A>(
                            id,
                            SlotChange::Visible(desired.visible),
                        )
                    };
                &&& !t && !st && !v ==> result is Ok
                &&& result is Ok ==> final(self).applied == desired && accepted_up_to(3)
                    && changes_accepted::<C, Id, S, T, St, E, A>(id, state, desired)
                &&& result is Err ==> {
                    ||| t && final(self).applied == partially_applied(state, desired, 0)
                        && slot_answered::<C, Id, T, St, E, A>(
                        id,
                        SlotChange::Transform(desired.transform),
                        result,
                    )
                    ||| st && final(self).applied == partially_applied(state, desired, 1)
                        && accepted_up_to(1) && slot_answered::<C, Id, T, St, E, A>(
                        id,
                        SlotChange::Style(desired.style),
                        result,
                    )
                    ||| v && final(self).applied == partially_applied(state, desired, 2)
                        && accepted_up_to(2) && slot_answered::<C, Id, T, St, E, A>(
                        id,
                        SlotChange::Visible(desired.visible),
                        result,
                    )
                }
            },
    {
        proof {
            reveal(obeys_concrete_eq);
        }
        let id = self.id;
        let transform_differs = self.applied.transform != desired.transform;
        proof {
            if obeys_concrete_eq::<T>() {
                assert(self.applied.transform.eq_spec(&desired.transform) <==> self.applied.transform
                    == desired.transform);
            }
        }
        if transform_differs {
            let ghost setter = *apply;
            let change = SlotChange::Transform(desired.transform);
            let answer = apply(scene, id, change);
            proof {
                assert(slot_answered::<C, Id, T, St, E, A>(id, change, answer));
            }
            if let Err(error) = answer {
                return Err(error);
            }
            proof {
                assert(slot_accepted::<C, Id, T, St, E, A>(id, change));
            }
            self.applied.transform = desired.transform;
        }
        let style_differs = self.applied.style != desired.style;
        proof {
            if obeys_concrete_eq::<St>() {
                assert(self.applied.style.eq_spec(&desired.style) <==> self.applied.style
                    == desired.style);
            }
        }
        if style_differs {
            let ghost setter = *apply;
            let change = SlotChange::Style(desired.style);
            let answer = apply(scene, id, change);
            proof {
                assert(slot_answered::<C, Id, T, St, E, A>(id, change, answer));
            }
            if let Err(error) = answer {
                return Err(error);
            }
            proof {
                assert(slot_accepted::<C, Id, T, St, E, A>(id, change));
            }
            self.applied.style = desired.style;
        }
        if self.applied.visible != desired.visible {
            let ghost setter = *apply;
            let change = SlotChange::Visible(desired.visible);
            let answer = apply(scene, id, change);
            proof {
                assert(slot_answered::<C, Id, T, St, E, A>(id, change, answer));
            }
            if let Err(error) = answer {
                return Err(error);
            }
            proof {
                assert(slot_accepted::<C, Id, T, St, E, A>(id, change));
            }
            self.applied.visible = desired.visible;
        }
        self.applied.source = desired.source;
        Ok(())
    }
}

/// Some state of the setter `A` was called, with some scene, for object
/// `id` and `change`, and accepted it.
pub open spec fn slot_accepted<C, Id, T, St, E, A: FnMut(&mut C, Id, SlotChange<T, St>) -> Result<(), E>>(
    id: Id,
    change: SlotChange<T, St>,
) -> bool {
    exists|setter: A, target: &mut C, answer: Result<(), E>|
        call_ensures(setter, (target, id, change), answer) && answer is Ok
}

/// Some state of the setter `A` was called, with some scene, for object
/// `id` and `change`, and answered `answer`.
pub open spec fn slot_answered<C, Id, T, St, E, A: FnMut(&mut C, Id, SlotChange<T, St>) -> Result<(), E>>(
    id: Id,
    change: SlotChange<T, St>,
    answer: Result<(), E>,
) -> bool {
    exists|setter: A, target: &mut C| call_ensures(setter, (target, id, change), answer)
}

/// Every field of object `id` that differs between `state` and `desired`
/// reached the setter, for that object, and was accepted.
pub open spec fn changes_accepted<C, Id, S, T, St, E, A: FnMut(&mut C, Id, SlotChange<T, St>) -> Result<(), E>>(
    id: Id,
    state: AppliedState<S, T, St>,
    desired: AppliedState<S, T, St>,
) -> bool {
    &&& state.transform != desired.transform ==> slot_accepted::<C, Id, T, St, E, A>(
        id,
        SlotChange::Transform(desired.transform),
    )
    &&& state.style != desired.style ==> slot_accepted::<C, Id, T, St, E, A>(
        id,
        SlotChange::Style(desired.style),
    )
    &&& state.visible != desired.visible ==> slot_accepted::<C, Id, T, St, E, A>(
        id,
        SlotChange::Visible(desired.visible),
    )
}

/// Some state of the creator `I` was called, with some scene, for
/// `desired` and answered with the identity `id`.
pub open spec fn object_created<C, Id, S, T, St, E, I: FnMut(&mut C, AppliedState<S, T, St>) -> Result<Id, E>>(
    desired: AppliedState<S, T, St>,
    id: Id,
) -> bool {
    exists|creator: I, target: &mut C| call_ensures(creator, (target, desired), Ok::<Id, E>(id))
}

/// Which step of a slot synchronisation failed.
#[derive(Debug, Clone, Copy, PartialEq)]
pub enum SlotSyncError<E> {
    /// Growing the slot list by one slot failed.
    AllocationFailed {
        /// Bytes of the slot that could not be reserved.
        requested_bytes: usize,
    },
    /// Inserting or updating the object of desired entry `index` failed.
    Object {
        /// Position of the desired entry.
        index: usize,
        /// What the scene reported.
        error: E,
    },
    /// Hiding the surplus slot at `index` failed.
    Hide {
        /// Position of the surplus slot.
        index: usize,
        /// What the scene reported.
        error: E,
    },
}

/// Slots `[0, upto)` hold the desired states, in order.
pub open spec fn slots_match<Id, S, T, St>(
    slots: Seq<SceneSlot<Id, S, T, St>>,
    desired: Seq<AppliedState<S, T, St>>,
    upto: int,
) -> bool {
    forall|i: int| 0 <= i < upto ==> #[trigger] slots[i].applied == desired[i]
}

/// Slots `[from, upto)` are the earlier slots hidden.
pub open spec fn slots_hidden<Id, S, T, St>(
    slots: Seq<SceneSlot<Id, S, T, St>>,
    before: Seq<SceneSlot<Id, S, T, St>>,
    from: int,
    upto: int,
) -> bool {
    forall|i: int| from <= i < upto ==> #[trigger] slots[i].applied == hidden(before[i].applied)
}

/// The first `count` slots keep their scene identities.
pub open spec fn ids_kept<Id, S, T, St>(
    slots: Seq<SceneSlot<Id, S, T, St>>,
    before: Seq<SceneSlot<Id, S, T, St>>,
    count: int,
) -> bool {
    forall|i: int| 0 <= i < count ==> #[trigger] slots[i].id == before[i].id
}

/// Synchronises the slots with one frame's desired objects in `scene`, in
/// order.
///
/// Entry `i` reuses slot `i` when it exists, updating only differing
/// fields; otherwise one slot is reserved and `insert` creates the object,
/// which then holds the desired state. Slots past the desired entries stay
/// allocated and are hidden. Existing slots keep their identities. The
/// first failure stops the work: everything before it is done, nothing
/// after it is touched.
pub fn synchronize_slots<
    Id: Copy,
    S: Copy,
    T: Copy + PartialEq,
    St: Copy + PartialEq,
    C,
    E,
    I: FnMut(&mut C, AppliedState<S, T, St>) -> Result<Id, E>,
    A: FnMut(&mut C, Id, SlotChange<T, St>) -> Result<(), E>,
>(
    slots: &mut Vec<SceneSlot<Id, S, T, St>>,
    scene: &mut C,
    desired: &[AppliedState<S, T, St>],
    insert: &mut I,
    apply: &mut A,
) -> (result: Result<(), SlotSyncError<E>>)
    requires
        forall|creator: I, target: &mut C, state: AppliedState<S, T, St>|
            creator.requires((target, state)),
        forall|setter: A, target: &mut C, id: Id, change: SlotChange<T, St>|
            setter.requires((target, id, change)),
    ensures
        ({
            let before = old(slots)@;
            let after = final(slots)@;
            let wanted = desired@;
            let full = if before.len() < wanted.len() { wanted.len() } else { before.len() };
            &&& before.len() <= after.len() <= full
            &&& ids_kept(after, before, before.len() as int)
            &&& result is Ok ==> after.len() == full
            &&& result matches Err(SlotSyncError::AllocationFailed { requested_bytes }) ==> {
                &&& requested_bytes == vstd::layout::size_of::<SceneSlot<Id, S, T, St>>()
                &&& after.len() < wanted.len()
            }
            &&& result matches Err(SlotSyncError::Object { index, error }) ==> index < wanted.len()
            &&& result matches Err(SlotSyncError::Hide { index, error }) ==> wanted.len() <= index
                < before.len()
            &&& obeys_concrete_eq::<T>() && obeys_concrete_eq::<St>() ==> {
                &&& result is Ok ==> {
                    &&& slots_match(after, wanted, wanted.len() as int)
                    &&& slots_hidden(after, before, wanted.len() as int, before.len() as int)
                    &&& forall|i: int|
                        0 <= i < wanted.len() && i < before.len() ==> changes_accepted::<
                            C,
                            Id,
                            S,
                            T,
                            St,
                            E,
                            A,
                        >(before[i].id, before[i].applied, #[trigger] wanted[i])
                    &&& forall|i: int|
                        before.len() <= i < wanted.len() ==> object_created::<
                            C,
                            Id,
                            S,
                            T,
                            St,
                            E,
                            I,
                        >(wanted[i], #[trigger] after[i].id)
                    &&& forall|i: int|
                        wanted.len() <= i < before.len() ==> changes_accepted::<
                            C,
                            Id,
                            S,
                            T,
                            St,
                            E,
                            A,
                        >(before[i].id, before[i].applied, hidden(#[trigger] before[i].applied))
                }
                &&& result is Err && result->Err_0 is AllocationFailed ==> slots_match(
                    after,
                    wanted,
                    after.len() as int,
                )
                &&& result matches Err(SlotSyncError::Object { index, error }) ==> slots_match(
                    after,
                    wanted,
                    index as int,
                )
                &&& result matches Err(SlotSyncError::Hide { index, error }) ==> {
                    &&& slots_match(after, wanted, wanted.len() as int)
                    &&& slots_hidden(after, before, wanted.len() as int, index as int)
                }
            }
        }),
{
    let ghost before = slots@;
    let count = desired.len();
    let mut index: usize = 0;
    while index < count
        invariant
            old(slots)@ == before,
            count == desired@.len(),
            index <= count,
            forall|creator: I, target: &mut C, state: AppliedState<S, T, St>|
                creator.requires((target, state)),
            forall|setter: A, target: &mut C, id: Id, change: SlotChange<T, St>|
                setter.requires((target, id, change)),
            slots@.len() == (if before.len() < index { index as int } else { before.len() as int }),
            ids_kept(slots@, before, before.len() as int),
            forall|i: int| index <= i < before.len() ==> #[trigger] slots@[i] == before[i],
            obeys_concrete_eq::<T>() && obeys_concrete_eq::<St>() ==> slots_match(
                slots@,
                desired@,
                index as int,
            ),
            obeys_concrete_eq::<T>() && obeys_concrete_eq::<St>() ==> forall|i: int|
                0 <= i < index && i < before.len() ==> changes_accepted::<C, Id, S, T, St, E, A>(
                    before[i].id,
                    before[i].applied,
                    #[trigger] desired@[i],
                ),
            forall|i: int|
                before.len() <= i < index ==> object_created::<C, Id, S, T, St, E, I>(
                    desired@[i],
                    #[trigger] slots@[i].id,
                ),
        decreases count - index,
    {
        let wanted = desired[index];
        if index == slots.len() {
            if slots.len() == vec_capacity(slots) {
                if !vec_try_reserve_exact(slots, 1) {
                    return Err(
                        SlotSyncError::AllocationFailed {
                            requested_bytes: core::mem::size_of::<SceneSlot<Id, S, T, St>>(),
                        },
                    );
                }
            }
            let ghost creator = *insert;
            let created = insert(scene, wanted);
            let id = match created {
                Ok(id) => id,
                Err(error) => return Err(SlotSyncError::Object { index, error }),
            };
            proof {
                assert(object_created::<C, Id, S, T, St, E, I>(wanted, id));
            }
            slots.push(SceneSlot { id, applied: wanted });
        } else {
            let mut slot = slots[index];
            let outcome = slot.update(scene, wanted, apply);
            slots.set(index, slot);
            if let Err(error) = outcome {
                return Err(SlotSyncError::Object { index, error });
            }
        }
        index += 1;
    }
    let total = slots.len();
    let mut surplus = count;
    while surplus < total
        invariant
            old(slots)@ == before,
            count == desired@.len(),
            count <= surplus <= total,
            total == slots@.len(),
            forall|setter: A, target: &mut C, id: Id, change: SlotChange<T, St>|
                setter.requires((target, id, change)),
            slots@.len() == (if before.len() < count { count as int } else { before.len() as int }),
            ids_kept(slots@, before, before.len() as int),
            forall|i: int| surplus <= i < before.len() ==> #[trigger] slots@[i] == before[i],
            obeys_concrete_eq::<T>() && obeys_concrete_eq::<St>() ==> {
                &&& slots_match(slots@, desired@, count as int)
                &&& slots_hidden(slots@, before, count as int, surplus as int)
                &&& forall|i: int|
                    0 <= i < count && i < before.len() ==> changes_accepted::<C, Id, S, T, St, E, A>(
                        before[i].id,
                        before[i].applied,
                        #[trigger] desired@[i],
                    )
                &&& forall|i: int|
                    count <= i < surplus ==> changes_accepted::<C, Id, S, T, St, E, A>(
                        before[i].id,
                        before[i].applied,
                        hidden(#[trigger] before[i].applied),
                    )
            },
            forall|i: int|
                before.len() <= i < count ==> object_created::<C, Id, S, T, St, E, I>(
                    desired@[i],
                    #[trigger] slots@[i].id,
                ),
        decreases total - surplus,
    {
        let mut slot = slots[surplus];
        let state = slot.applied;
        let outcome = slot.update(
            scene,
            AppliedState {
                source: state.source,
                transform: state.transform,
                style: state.style,
                visible: false,
            },
            apply,
        );
        slots.set(surplus, slot);
        if let Err(error) = outcome {
            return Err(SlotSyncError::Hide { index: surplus, error });
        }
        surplus += 1;
    }
    Ok(())
}

} // verus!
