//! Bounded association of submitted GPU passes with the logical frames that
//! submitted them.

use vstd::prelude::*;

verus! {

/// Number of submission associations retained at once.
pub const MAX_PENDING: usize = 16;

/// The GPU pass category that produced a timing report.
#[derive(Debug, Clone, Copy, PartialEq, Eq, Hash, Structural)]
pub enum GpuTimingSource {
    /// A retained 3D scene's offscreen pass.
    Scene3d,
    /// A composed frame's surface render pass.
    FrameComposer,
}

/// One submitted pass awaiting its timing sample.
#[derive(Debug, Clone, Copy, PartialEq, Eq, Structural)]
pub struct PendingTiming {
    /// Monotonic report identity issued by the renderer.
    pub id: u64,
    /// The pass category of the report.
    pub source: GpuTimingSource,
    /// The logical frame that submitted the pass.
    pub logic_frame: u64,
}

/// Whether a slot holds the association for `id` and `source`.
pub open spec fn slot_matches(slot: Option<PendingTiming>, id: u64, source: GpuTimingSource) -> bool {
    slot is Some && slot->0.id == id && slot->0.source == source
}

/// Whether some slot holds the association for `id` and `source`.
pub open spec fn holds_key(slots: Seq<Option<PendingTiming>>, id: u64, source: GpuTimingSource) -> bool {
    exists|k: int| 0 <= k < slots.len() && slot_matches(#[trigger] slots[k], id, source)
}

/// `k` is the first slot holding the association for `id` and `source`.
pub open spec fn is_first_match(
    slots: Seq<Option<PendingTiming>>,
    k: int,
    id: u64,
    source: GpuTimingSource,
) -> bool {
    &&& 0 <= k < slots.len()
    &&& slot_matches(slots[k], id, source)
    &&& forall|j: int| 0 <= j < k ==> !slot_matches(#[trigger] slots[j], id, source)
}

/// `k` is the first empty slot.
pub open spec fn is_first_vacant(slots: Seq<Option<PendingTiming>>, k: int) -> bool {
    &&& 0 <= k < slots.len()
    &&& slots[k] is None
    &&& forall|j: int| 0 <= j < k ==> (#[trigger] slots[j]) is Some
}

/// Every association slot is taken.
pub open spec fn table_full(slots: Seq<Option<PendingTiming>>) -> bool {
    forall|k: int| 0 <= k < MAX_PENDING ==> (#[trigger] slots[k]) is Some
}

/// `k` is the first slot holding the smallest (oldest) report identity.
pub open spec fn is_oldest(slots: Seq<Option<PendingTiming>>, k: int) -> bool {
    &&& 0 <= k < slots.len()
    &&& slots[k] is Some
    &&& forall|j: int|
        0 <= j < slots.len() && (#[trigger] slots[j]) is Some ==> slots[k]->0.id <= slots[j]->0.id
    &&& forall|j: int| 0 <= j < k && (#[trigger] slots[j]) is Some ==> slots[k]->0.id < slots[j]->0.id
}

/// No two slots hold the same identity and source.
pub open spec fn keys_are_unique(slots: Seq<Option<PendingTiming>>) -> bool {
    forall|i: int, j: int|
        0 <= i < slots.len() && 0 <= j < slots.len() && i != j && (#[trigger] slots[i]) is Some
            && (#[trigger] slots[j]) is Some ==> !(slots[i]->0.id == slots[j]->0.id
            && slots[i]->0.source == slots[j]->0.source)
}

/// Read after write: once an absent key is stored in any slot, taking that key
/// finds exactly that slot and returns the recorded frame.
pub proof fn stored_association_is_taken_back(
    slots: Seq<Option<PendingTiming>>,
    k: int,
    id: u64,
    source: GpuTimingSource,
    logic_frame: u64,
)
    requires
        0 <= k < slots.len(),
        !holds_key(slots, id, source),
    ensures
        holds_key(slots.update(k, Some(PendingTiming { id, source, logic_frame })), id, source),
        is_first_match(
            slots.update(k, Some(PendingTiming { id, source, logic_frame })),
            k,
            id,
            source,
        ),
        slots.update(k, Some(PendingTiming { id, source, logic_frame }))[k]->0.logic_frame
            == logic_frame,
{
    let after = slots.update(k, Some(PendingTiming { id, source, logic_frame }));
    assert(slot_matches(after[k], id, source));
    assert forall|j: int| 0 <= j < k implies !slot_matches(#[trigger] after[j], id, source) by {
        assert(after[j] == slots[j]);
    }
}

/// Taking a key removes it: no slot holds it afterwards.
pub proof fn taken_association_is_gone(
    slots: Seq<Option<PendingTiming>>,
    k: int,
    id: u64,
    source: GpuTimingSource,
)
    requires
        keys_are_unique(slots),
        is_first_match(slots, k, id, source),
    ensures
        !holds_key(slots.update(k, None), id, source),
{
    let after = slots.update(k, None);
    assert forall|j: int| 0 <= j < after.len() implies !slot_matches(#[trigger] after[j], id, source) by {
        if j != k {
            assert(after[j] == slots[j]);
        }
    }
}

/// At most sixteen report-to-frame associations, each keyed by the complete
/// report identity and its pass category.
///
/// A repeated submission never reassigns an identity to another frame. When
/// every slot is used, the association with the oldest identity is evicted.
#[derive(Debug)]
pub struct PendingTimings {
    entries: Vec<Option<PendingTiming>>,
}

impl PendingTimings {
    /// The ordered association slots.
    pub closed spec fn spec_slots(&self) -> Seq<Option<PendingTiming>> {
        self.entries@
    }

    /// The table has exactly sixteen slots and never holds one key twice.
    pub closed spec fn well_formed(&self) -> bool {
        &&& self.entries@.len() == MAX_PENDING
        &&& keys_are_unique(self.entries@)
    }

    /// Creates an empty association table.
    pub fn new() -> (pending: Self)
        ensures
            pending.well_formed(),
            pending.spec_slots().len() == MAX_PENDING,
            forall|k: int| 0 <= k < MAX_PENDING ==> (#[trigger] pending.spec_slots()[k]) is None,
    {
        let mut entries: Vec<Option<PendingTiming>> = Vec::new();
        let mut count: usize = 0;
        while count < MAX_PENDING
            invariant
                count <= MAX_PENDING,
                entries@.len() == count,
                forall|k: int| 0 <= k < count ==> (#[trigger] entries@[k]) is None,
            decreases MAX_PENDING - count,
        {
            entries.push(None);
            count = count + 1;
        }
        PendingTimings { entries }
    }

    /// Records that `logic_frame` submitted the pass `id` of `source`.
    ///
    /// Returns whether a previous association had to be evicted. An identity
    /// already associated for this source keeps its initial frame.
    pub fn insert(&mut self, id: u64, source: GpuTimingSource, logic_frame: u64) -> (evicted: bool)
        requires
            old(self).well_formed(),
        ensures
            final(self).well_formed(),
            final(self).spec_slots().len() == MAX_PENDING,
            holds_key(old(self).spec_slots(), id, source) ==> {
                &&& !evicted
                &&& final(self).spec_slots() == old(self).spec_slots()
            },
            !holds_key(old(self).spec_slots(), id, source) ==> exists|k: int|
                {
                    &&& (if evicted {
                        is_oldest(old(self).spec_slots(), k)
                    } else {
                        is_first_vacant(old(self).spec_slots(), k)
                    })
                    &&& final(self).spec_slots() == old(self).spec_slots().update(
                        k,
                        Some(PendingTiming { id, source, logic_frame }),
                    )
                },
            evicted <==> (!holds_key(old(self).spec_slots(), id, source) && forall|k: int|
                0 <= k < MAX_PENDING ==> (#[trigger] old(self).spec_slots()[k]) is Some),
    {
        let len = self.entries.len();
        let mut i: usize = 0;
        while i < len
            invariant
                len == self.entries@.len(),
                self.entries@ == old(self).entries@,
                self.well_formed(),
                i <= len,
                forall|j: int| 0 <= j < i ==> !slot_matches(#[trigger] self.entries@[j], id, source),
            decreases len - i,
        {
            if let Some(entry) = self.entries[i] {
                if entry.id == id && entry.source == source {
                    return false;
                }
            }
            i = i + 1;
        }
        // Prefer the first vacant slot; only a full table evicts.
        let mut vacant: Option<usize> = None;
        let mut i: usize = 0;
        while i < len
            invariant
                len == self.entries@.len(),
                self.entries@ == old(self).entries@,
                self.well_formed(),
                i <= len,
                match vacant {
                    Some(k) => is_first_vacant(self.entries@, k as int),
                    None => forall|j: int| 0 <= j < i ==> (#[trigger] self.entries@[j]) is Some,
                },
            decreases len - i,
        {
            if vacant.is_none() && self.entries[i].is_none() {
                vacant = Some(i);
            }
            i = i + 1;
        }
        let ghost before = self.entries@;
        let index = match vacant {
            Some(k) => k,
            None => {
                // Engine identities are monotonic, so the smallest is the oldest.
                let mut oldest: usize = 0;
                let mut i: usize = 1;
                while i < len
                    invariant
                        len == self.entries@.len(),
                        len == MAX_PENDING,
                        1 <= i <= len,
                        oldest < i,
                        forall|j: int| 0 <= j < len ==> (#[trigger] self.entries@[j]) is Some,
                        forall|j: int|
                            0 <= j < i ==> self.entries@[oldest as int]->0.id <= (
                            #[trigger] self.entries@[j])->0.id,
                        forall|j: int|
                            0 <= j < oldest ==> self.entries@[oldest as int]->0.id < (
                            #[trigger] self.entries@[j])->0.id,
                    decreases len - i,
                {
                    let candidate = self.entries[i].unwrap().id;
                    let current = self.entries[oldest].unwrap().id;
                    if candidate < current {
                        oldest = i;
                    }
                    i = i + 1;
                }
                oldest
            },
        };
        let ghost after = before.update(index as int, Some(PendingTiming { id, source, logic_frame }));
        proof {
            assert(!holds_key(before, id, source));
            assert forall|a: int, b: int|
                0 <= a < after.len() && 0 <= b < after.len() && a != b && (
                #[trigger] after[a]) is Some && (#[trigger] after[b]) is Some implies !(after[a]->0.id
                == after[b]->0.id && after[a]->0.source == after[b]->0.source) by {
                if a == index as int {
                    assert(!slot_matches(before[b], id, source));
                } else if b == index as int {
                    assert(!slot_matches(before[a], id, source));
                }
            }
        }
        self.entries.set(index, Some(PendingTiming { id, source, logic_frame }));
        vacant.is_none()
    }

    /// Removes and returns the frame associated with `id` and `source`.
    ///
    /// Both the identity and the pass category must match; nothing changes
    /// when no association is retained.
    pub fn take(&mut self, id: u64, source: GpuTimingSource) -> (frame: Option<u64>)
        requires
            old(self).well_formed(),
        ensures
            final(self).well_formed(),
            final(self).spec_slots().len() == MAX_PENDING,
            !holds_key(old(self).spec_slots(), id, source) ==> {
                &&& frame is None
                &&& final(self).spec_slots() == old(self).spec_slots()
            },
            holds_key(old(self).spec_slots(), id, source) ==> exists|k: int|
                {
                    &&& is_first_match(old(self).spec_slots(), k, id, source)
                    &&& frame == Some(old(self).spec_slots()[k]->0.logic_frame)
                    &&& final(self).spec_slots() == old(self).spec_slots().update(k, None)
                },
    {
        let len = self.entries.len();
        let mut i: usize = 0;
        while i < len
            invariant
                len == self.entries@.len(),
                self.entries@ == old(self).entries@,
                self.well_formed(),
                i <= len,
                forall|j: int| 0 <= j < i ==> !slot_matches(#[trigger] self.entries@[j], id, source),
            decreases len - i,
        {
            if let Some(entry) = self.entries[i] {
                if entry.id == id && entry.source == source {
                    let ghost before = self.entries@;
                    let ghost after = before.update(i as int, None);
                    proof {
                        assert(is_first_match(before, i as int, id, source));
                        assert forall|a: int, b: int|
                            0 <= a < after.len() && 0 <= b < after.len() && a != b && (
                            #[trigger] after[a]) is Some && (#[trigger] after[b]) is Some implies !(
                        after[a]->0.id == after[b]->0.id && after[a]->0.source == after[b]->0.source) by {
                            assert(before[a] == after[a] && before[b] == after[b]);
                        }
                    }
                    self.entries.set(i, None);
                    return Some(entry.logic_frame);
                }
            }
            i = i + 1;
        }
        None
    }
}

impl Default for PendingTimings {
    /// An empty association table.
    fn default() -> (pending: Self)
        ensures
            pending.well_formed(),
            pending.spec_slots().len() == MAX_PENDING,
            forall|k: int| 0 <= k < MAX_PENDING ==> (#[trigger] pending.spec_slots()[k]) is None,
    {
        PendingTimings::new()
    }
}

/// Number of correlated samples retained from the latest batch.
pub const MAX_COLLECTED: usize = 8;

/// What taking `id` and `source` from the slots leaves and returns.
pub open spec fn spec_take(
    slots: Seq<Option<PendingTiming>>,
    id: u64,
    source: GpuTimingSource,
) -> (Seq<Option<PendingTiming>>, Option<u64>) {
    if holds_key(slots, id, source) {
        let k = choose|k: int| is_first_match(slots, k, id, source);
        (slots.update(k, None), Some(slots[k]->0.logic_frame))
    } else {
        (slots, None)
    }
}

/// There is at most one first match.
proof fn lemma_first_match_unique(
    slots: Seq<Option<PendingTiming>>,
    a: int,
    b: int,
    id: u64,
    source: GpuTimingSource,
)
    requires
        is_first_match(slots, a, id, source),
        is_first_match(slots, b, id, source),
    ensures
        a == b,
{
    if a < b {
        assert(!slot_matches(slots[a], id, source));
    } else if b < a {
        assert(!slot_matches(slots[b], id, source));
    }
}

/// A key that is held has a first match.
proof fn lemma_first_match_exists(
    slots: Seq<Option<PendingTiming>>,
    id: u64,
    source: GpuTimingSource,
)
    requires
        holds_key(slots, id, source),
    ensures
        exists|k: int| is_first_match(slots, k, id, source),
{
    let w = choose|k: int| 0 <= k < slots.len() && slot_matches(#[trigger] slots[k], id, source);
    lemma_first_match_from(slots, 0, w, id, source);
}

proof fn lemma_first_match_from(
    slots: Seq<Option<PendingTiming>>,
    i: int,
    w: int,
    id: u64,
    source: GpuTimingSource,
)
    requires
        0 <= i <= w < slots.len(),
        slot_matches(slots[w], id, source),
        forall|j: int| 0 <= j < i ==> !slot_matches(#[trigger] slots[j], id, source),
    ensures
        exists|k: int| is_first_match(slots, k, id, source),
    decreases w - i,
{
    if slot_matches(slots[i], id, source) {
        assert(is_first_match(slots, i, id, source));
    } else {
        lemma_first_match_from(slots, i + 1, w, id, source);
    }
}

/// One collected sample matched to the logical frame that submitted it.
#[derive(Debug, Clone, Copy, PartialEq, Eq, Structural)]
pub struct CorrelatedSample {
    /// The logical frame that submitted the pass.
    pub logic_frame: u64,
    /// The device generation the sample belongs to.
    pub generation: u64,
    /// Position of the sample in its batch.
    pub index: usize,
}

/// Saturating increment of a counter.
pub open spec fn bumped(count: u64) -> u64 {
    if count == u64::MAX { count } else { (count + 1) as u64 }
}

/// Correlation state after the first `count` samples of a batch: the
/// association slots, the correlated samples and the unmatched count.
pub open spec fn correlate_state(
    slots: Seq<Option<PendingTiming>>,
    unmatched: u64,
    generation: u64,
    batch: Seq<(u64, GpuTimingSource)>,
    count: int,
) -> (Seq<Option<PendingTiming>>, Seq<Option<CorrelatedSample>>, u64)
    decreases count,
{
    if count <= 0 {
        (slots, Seq::new(MAX_COLLECTED as nat, |k: int| None::<CorrelatedSample>), unmatched)
    } else {
        let (slots, samples, unmatched) = correlate_state(
            slots,
            unmatched,
            generation,
            batch,
            count - 1,
        );
        let (id, source) = batch[count - 1];
        let (slots, frame) = spec_take(slots, id, source);
        if frame is Some && count - 1 < MAX_COLLECTED {
            (
                slots,
                samples.update(
                    count - 1,
                    Some(
                        CorrelatedSample {
                            logic_frame: frame->0,
                            generation,
                            index: (count - 1) as usize,
                        },
                    ),
                ),
                unmatched,
            )
        } else {
            (slots, samples, bumped(unmatched))
        }
    }
}

/// Bounded diagnostics that attribute collected GPU samples to the logical
/// frames that submitted them, for one device generation.
#[derive(Debug)]
pub struct GpuTimingCorrelation {
    generation: u64,
    pending: PendingTimings,
    samples: Vec<Option<CorrelatedSample>>,
    unmatched_samples: u64,
    evicted_correlations: u64,
}

impl GpuTimingCorrelation {
    /// The device generation.
    pub closed spec fn spec_generation(&self) -> u64 {
        self.generation
    }

    /// The association slots.
    pub closed spec fn spec_pending(&self) -> Seq<Option<PendingTiming>> {
        self.pending.spec_slots()
    }

    /// The correlated samples of the latest nonempty batch, by batch position.
    pub closed spec fn spec_samples(&self) -> Seq<Option<CorrelatedSample>> {
        self.samples@
    }

    /// Collected samples that matched no retained association.
    pub closed spec fn spec_unmatched(&self) -> u64 {
        self.unmatched_samples
    }

    /// Associations evicted from the full table.
    pub closed spec fn spec_evicted(&self) -> u64 {
        self.evicted_correlations
    }

    /// The association table is well formed and the sample slots are fixed.
    pub closed spec fn well_formed(&self) -> bool {
        &&& self.pending.well_formed()
        &&& self.samples@.len() == MAX_COLLECTED
    }

    /// Fresh diagnostics of device generation `generation`.
    pub fn new(generation: u64) -> (timings: Self)
        ensures
            timings.well_formed(),
            timings.spec_generation() == generation,
            timings.spec_unmatched() == 0,
            timings.spec_evicted() == 0,
            forall|k: int| 0 <= k < MAX_PENDING ==> (#[trigger] timings.spec_pending()[k]) is None,
            timings.spec_samples() == Seq::new(MAX_COLLECTED as nat, |k: int| None::<CorrelatedSample>),
    {
        let mut samples: Vec<Option<CorrelatedSample>> = Vec::new();
        let mut k: usize = 0;
        while k < MAX_COLLECTED
            invariant
                k <= MAX_COLLECTED,
                samples@ =~= Seq::new(k as nat, |j: int| None::<CorrelatedSample>),
            decreases MAX_COLLECTED - k,
        {
            samples.push(None);
            k += 1;
        }
        GpuTimingCorrelation {
            generation,
            pending: PendingTimings::new(),
            samples,
            unmatched_samples: 0,
            evicted_correlations: 0,
        }
    }

    /// Discards every sample, association and counter for a new device
    /// generation.
    pub fn reset_generation(&mut self, generation: u64)
        ensures
            final(self).well_formed(),
            final(self).spec_generation() == generation,
            final(self).spec_unmatched() == 0,
            final(self).spec_evicted() == 0,
            forall|k: int| 0 <= k < MAX_PENDING ==> (#[trigger] final(self).spec_pending()[k]) is None,
            final(self).spec_samples() == Seq::new(
                MAX_COLLECTED as nat,
                |k: int| None::<CorrelatedSample>,
            ),
    {
        *self = GpuTimingCorrelation::new(generation);
    }

    /// Returns the device generation.
    pub fn device_generation(&self) -> (generation: u64)
        ensures
            generation == self.spec_generation(),
    {
        self.generation
    }

    /// Returns the unmatched sample count.
    pub fn unmatched_samples(&self) -> (count: u64)
        ensures
            count == self.spec_unmatched(),
    {
        self.unmatched_samples
    }

    /// Returns the evicted association count.
    pub fn evicted_correlations(&self) -> (count: u64)
        ensures
            count == self.spec_evicted(),
    {
        self.evicted_correlations
    }

    /// Returns the correlated sample at batch position `index`, if any.
    pub fn sample(&self, index: usize) -> (sample: Option<CorrelatedSample>)
        requires
            self.well_formed(),
        ensures
            sample == (if index < MAX_COLLECTED {
                self.spec_samples()[index as int]
            } else {
                None
            }),
    {
        if index < self.samples.len() {
            self.samples[index]
        } else {
            None
        }
    }

    /// Records a submitted pass. A pass without a timing identity is not
    /// recorded; an association evicted from the full table is counted.
    pub fn submitted(&mut self, logic_frame: u64, source: GpuTimingSource, id: Option<u64>)
        requires
            old(self).well_formed(),
        ensures
            final(self).well_formed(),
            final(self).spec_generation() == old(self).spec_generation(),
            final(self).spec_samples() == old(self).spec_samples(),
            final(self).spec_unmatched() == old(self).spec_unmatched(),
            id is None ==> final(self).spec_pending() == old(self).spec_pending()
                && final(self).spec_evicted() == old(self).spec_evicted(),
            id is Some && holds_key(old(self).spec_pending(), id->0, source) ==> final(self).spec_pending() == old(self).spec_pending() && final(self).spec_evicted() == old(self).spec_evicted(),
            id is Some && !holds_key(old(self).spec_pending(), id->0, source) ==> holds_key(
                final(self).spec_pending(),
                id->0,
                source,
            ),
            id is Some && !holds_key(old(self).spec_pending(), id->0, source) ==> {
                let full = table_full(old(self).spec_pending());
                &&& exists|k: int|
                    {
                        &&& (if full {
                            is_oldest(old(self).spec_pending(), k)
                        } else {
                            is_first_vacant(old(self).spec_pending(), k)
                        })
                        &&& final(self).spec_pending() == old(self).spec_pending().update(
                            k,
                            Some(PendingTiming { id: id->0, source, logic_frame }),
                        )
                    }
                &&& final(self).spec_evicted() == (if full {
                    bumped(old(self).spec_evicted())
                } else {
                    old(self).spec_evicted()
                })
            },
            final(self).spec_evicted() == old(self).spec_evicted() || final(self).spec_evicted()
                == bumped(old(self).spec_evicted()),
    {
        if let Some(id) = id {
            let ghost before = self.pending.spec_slots();
            let evicted = self.pending.insert(id, source, logic_frame);
            proof {
                if !holds_key(before, id, source) {
                    let k = choose|k: int|
                        (if evicted {
                            is_oldest(before, k)
                        } else {
                            is_first_vacant(before, k)
                        }) && self.pending.spec_slots() == before.update(
                            k,
                            Some(PendingTiming { id, source, logic_frame }),
                        );
                    stored_association_is_taken_back(before, k, id, source, logic_frame);
                }
            }
            if evicted {
                self.evicted_correlations = self.evicted_correlations.saturating_add(1);
            }
        }
    }

    /// Correlates one collected batch, given as each sample's identity and
    /// source in batch order. An empty batch changes nothing. Otherwise the
    /// previous samples are replaced: each sample whose association is
    /// retained takes it and is kept at its batch position when that is one
    /// of the first eight; every other sample is counted as unmatched.
    pub fn collect(&mut self, batch: &[(u64, GpuTimingSource)])
        requires
            old(self).well_formed(),
        ensures
            final(self).well_formed(),
            final(self).spec_generation() == old(self).spec_generation(),
            final(self).spec_evicted() == old(self).spec_evicted(),
            batch@.len() == 0 ==> final(self).spec_pending() == old(self).spec_pending()
                && final(self).spec_samples() == old(self).spec_samples()
                && final(self).spec_unmatched() == old(self).spec_unmatched(),
            batch@.len() > 0 ==> (final(self).spec_pending(), final(self).spec_samples(), final(self).spec_unmatched()) == correlate_state(
                old(self).spec_pending(),
                old(self).spec_unmatched(),
                old(self).spec_generation(),
                batch@,
                batch@.len() as int,
            ),
    {
        if batch.len() == 0 {
            return;
        }
        let mut k: usize = 0;
        while k < MAX_COLLECTED
            invariant
                k <= MAX_COLLECTED,
                self.samples@.len() == MAX_COLLECTED,
                forall|j: int| 0 <= j < k ==> (#[trigger] self.samples@[j]) is None,
                self.pending == old(self).pending,
                self.generation == old(self).generation,
                self.unmatched_samples == old(self).unmatched_samples,
                self.evicted_correlations == old(self).evicted_correlations,
            decreases MAX_COLLECTED - k,
        {
            self.samples.set(k, None);
            k += 1;
        }
        proof {
            assert(self.samples@ =~= Seq::new(MAX_COLLECTED as nat, |j: int| None::<CorrelatedSample>));
        }
        let mut index: usize = 0;
        while index < batch.len()
            invariant
                index <= batch@.len(),
                batch@.len() > 0,
                self.pending.well_formed(),
                self.samples@.len() == MAX_COLLECTED,
                self.generation == old(self).generation,
                self.evicted_correlations == old(self).evicted_correlations,
                (self.pending.spec_slots(), self.samples@, self.unmatched_samples) == correlate_state(
                    old(self).pending.spec_slots(),
                    old(self).unmatched_samples,
                    old(self).generation,
                    batch@,
                    index as int,
                ),
            decreases batch@.len() - index,
        {
            let (id, source) = batch[index];
            let ghost before = self.pending.spec_slots();
            let frame = self.pending.take(id, source);
            proof {
                if holds_key(before, id, source) {
                    let k = choose|k: int|
                        is_first_match(before, k, id, source) && frame == Some(before[k]->0.logic_frame)
                            && self.pending.spec_slots() == before.update(k, None);
                    lemma_first_match_exists(before, id, source);
                    let c = choose|c: int| is_first_match(before, c, id, source);
                    lemma_first_match_unique(before, k, c, id, source);
                }
            }
            match frame {
                Some(logic_frame) if index < MAX_COLLECTED => {
                    self.samples.set(
                        index,
                        Some(CorrelatedSample { logic_frame, generation: self.generation, index }),
                    );
                },
                _ => {
                    self.unmatched_samples = self.unmatched_samples.saturating_add(1);
                },
            }
            index += 1;
        }
    }
}

} // verus!
