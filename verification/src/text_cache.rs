//! Bookkeeping of retained label resources: at most one atlas per font and
//! one run per live visible label, retired when the display scale or the
//! world changes, or when their label is gone.

use vstd::prelude::*;
use crate::identity::{LogicEntity, WorldGeneration};

verus! {

/// A label could not be prepared for the desktop renderer.
#[derive(Debug, Clone, Copy, PartialEq, Eq, Structural)]
pub enum DesktopTextError {
    /// Bounded cache metadata could not be allocated.
    Allocation {
        /// Minimum additional metadata bytes requested.
        requested_bytes: usize,
    },
    /// The published draw plan and prepared cache disagree.
    InvalidDrawPlan,
}

/// Retained fonts and runs, the live label bits of the current frame, and
/// the world generation and display scale they were prepared for.
pub struct RetainedTextCache<Font, Run> {
    /// One prepared atlas per used font.
    pub fonts: Vec<Font>,
    /// One prepared run per live visible label.
    pub runs: Vec<Run>,
    /// Sorted stable bits of the frame's visible, nonempty labels.
    pub live: Vec<u64>,
    /// The world generation the runs belong to.
    pub generation: Option<WorldGeneration>,
    /// The bits of the display scale the atlases were rasterized at.
    pub scale_bits: Option<u32>,
}

/// The stable bits of the visible, nonempty labels, in label order.
pub open spec fn live_bits(labels: Seq<(LogicEntity, bool)>) -> Seq<u64>
    decreases labels.len(),
{
    if labels.len() == 0 {
        Seq::empty()
    } else {
        let last = labels.last();
        let rest = live_bits(labels.drop_last());
        if last.1 {
            rest.push(last.0.spec_stable_bits())
        } else {
            rest
        }
    }
}

/// Whether a run's label is live: its source, as `source` reports it, has
/// stable bits among `live`.
pub open spec fn run_is_live<Run, S: Fn(&Run) -> LogicEntity>(
    source: S,
    live: Seq<u64>,
    run: Run,
) -> bool {
    exists|entity: LogicEntity| source.ensures((&run,), entity) && live.contains(
        entity.spec_stable_bits(),
    )
}

/// Nondecreasing bits.
pub open spec fn bits_sorted(bits: Seq<u64>) -> bool {
    forall|a: int, b: int| 0 <= a <= b < bits.len() ==> #[trigger] bits[a] <= #[trigger] bits[b]
}

impl<Font, Run> Default for RetainedTextCache<Font, Run> {
    fn default() -> (cache: Self)
        ensures
            cache.fonts@.len() == 0,
            cache.runs@.len() == 0,
            cache.live@.len() == 0,
            cache.generation is None,
            cache.scale_bits is None,
    {
        RetainedTextCache {
            fonts: Vec::new(),
            runs: Vec::new(),
            live: Vec::new(),
            generation: None,
            scale_bits: None,
        }
    }
}

fn contains_bits(live: &Vec<u64>, bits: u64) -> (found: bool)
    ensures
        found == live@.contains(bits),
{
    let mut k: usize = 0;
    while k < live.len()
        invariant
            k <= live@.len(),
            forall|j: int| 0 <= j < k ==> live@[j] != bits,
        decreases live@.len() - k,
    {
        if live[k] == bits {
            return true;
        }
        k += 1;
    }
    false
}

fn sort_bits(bits: &mut Vec<u64>)
    ensures
        final(bits)@.to_multiset() == old(bits)@.to_multiset(),
        bits_sorted(final(bits)@),
{
    let ghost initial = bits@;
    let mut sorted: Vec<u64> = Vec::new();
    let mut k: usize = 0;
    proof {
        assert(initial.take(0) =~= Seq::<u64>::empty());
        assert(sorted@ =~= Seq::<u64>::empty());
    }
    while k < bits.len()
        invariant
            bits@ == initial,
            k <= bits@.len(),
            sorted@.to_multiset() == initial.take(k as int).to_multiset(),
            bits_sorted(sorted@),
        decreases bits@.len() - k,
    {
        let value = bits[k];
        let mut position: usize = 0;
        while position < sorted.len() && sorted[position] <= value
            invariant
                position <= sorted@.len(),
                forall|j: int| 0 <= j < position ==> #[trigger] sorted@[j] <= value,
                bits_sorted(sorted@),
            decreases sorted@.len() - position,
        {
            position += 1;
        }
        let ghost before = sorted@;
        sorted.insert(position, value);
        proof {
            assert(initial.take(k + 1) =~= initial.take(k as int).push(value));
            vstd::seq_lib::to_multiset_build(initial.take(k as int), value);
            vstd::seq_lib::to_multiset_insert(before, position as int, value);
            before.insert_ensures(position as int, value);
            assert forall|a: int, b: int| 0 <= a <= b < sorted@.len() implies #[trigger] sorted@[a]
                <= #[trigger] sorted@[b] by {
                let p = position as int;
                if a < p && b > p {
                    assert(sorted@[a] == before[a] && sorted@[b] == before[b - 1]);
                } else if a == p && b > p {
                    assert(sorted@[b] == before[b - 1]);
                    assert(before[p] > value);
                    assert(before[p] <= before[b - 1]);
                } else if a > p {
                    assert(sorted@[a] == before[a - 1] && sorted@[b] == before[b - 1]);
                } else if b < p {
                    assert(sorted@[a] == before[a] && sorted@[b] == before[b]);
                } else if a < p && b == p {
                    assert(sorted@[a] == before[a]);
                }
            }
        }
        k += 1;
    }
    proof {
        assert(initial.take(initial.len() as int) =~= initial);
    }
    // Write back in place, so the vector keeps its storage.
    bits.clear();
    let mut j: usize = 0;
    while j < sorted.len()
        invariant
            j <= sorted@.len(),
            bits@ == sorted@.take(j as int),
        decreases sorted@.len() - j,
    {
        bits.push(sorted[j]);
        proof {
            assert(sorted@.take(j + 1) =~= sorted@.take(j as int).push(sorted@[j as int]));
        }
        j += 1;
    }
    proof {
        assert(sorted@.take(sorted@.len() as int) =~= sorted@);
    }
}

impl<Font, Run> RetainedTextCache<Font, Run> {
    /// Drops every run, then every atlas, and forgets both epochs.
    pub fn clear(&mut self)
        ensures
            final(self).fonts@.len() == 0,
            final(self).runs@.len() == 0,
            final(self).live@.len() == 0,
            final(self).generation is None,
            final(self).scale_bits is None,
    {
        self.runs.clear();
        self.fonts.clear();
        self.live.clear();
        self.generation = None;
        self.scale_bits = None;
    }

    /// Starts a frame of `generation` at the display scale with bits
    /// `scale_bits`. A new scale retires everything (after releasing the
    /// frame bindings that still reference old atlases, if any atlases were
    /// prepared at an earlier scale); a new world retires only the runs.
    pub fn begin_frame<F: FnOnce()>(
        &mut self,
        generation: WorldGeneration,
        scale_bits: u32,
        clear_frame_bindings: F,
    )
        requires
            clear_frame_bindings.requires(()),
        ensures
            final(self).generation == Some(generation),
            final(self).scale_bits == Some(scale_bits),
            old(self).scale_bits != Some(scale_bits) ==> final(self).fonts@.len() == 0
                && final(self).runs@.len() == 0 && final(self).live@.len() == 0,
            old(self).scale_bits == Some(scale_bits) ==> final(self).fonts@ == old(self).fonts@
                && final(self).live@ == old(self).live@,
            old(self).scale_bits == Some(scale_bits) && old(self).generation == Some(generation)
                ==> final(self).runs@ == old(self).runs@,
            old(self).generation != Some(generation) ==> final(self).runs@.len() == 0,
    {
        let same_scale = match self.scale_bits {
            Some(bits) => bits == scale_bits,
            None => false,
        };
        if !same_scale {
            if self.scale_bits.is_some() {
                clear_frame_bindings();
            }
            self.clear();
            self.scale_bits = Some(scale_bits);
        }
        let same_generation = match self.generation {
            Some(current) => current == generation,
            None => false,
        };
        if !same_generation {
            self.runs.clear();
            self.generation = Some(generation);
        }
    }

    /// Keeps only the runs of visible, nonempty labels. `live` becomes the
    /// sorted stable bits of those labels; a run is kept when the stable
    /// bits of its source are live. A failed reservation keeps every run.
    pub fn retain_visible_runs<S: Fn(&Run) -> LogicEntity>(
        &mut self,
        labels: &[(LogicEntity, bool)],
        source: S,
    ) -> (result: Result<(), DesktopTextError>)
        requires
            forall|run: &Run| source.requires((run,)),
            forall|run: &Run, a: LogicEntity, b: LogicEntity|
                source.ensures((run,), a) && source.ensures((run,), b) ==> a == b,
        ensures
            final(self).fonts@ == old(self).fonts@,
            final(self).generation == old(self).generation,
            final(self).scale_bits == old(self).scale_bits,
            match result {
                Ok(()) => {
                    &&& final(self).live@.to_multiset() == live_bits(labels@).to_multiset()
                    &&& bits_sorted(final(self).live@)
                    &&& final(self).runs@ == old(self).runs@.filter(
                        |run: Run| run_is_live(source, final(self).live@, run),
                    )
                },
                Err(error) => {
                    &&& final(self).runs@ == old(self).runs@
                    &&& final(self).live@.len() == 0
                    &&& error == DesktopTextError::Allocation {
                        requested_bytes: if labels@.len() * 8 > usize::MAX {
                            usize::MAX
                        } else {
                            (labels@.len() * 8) as usize
                        },
                    }
                },
            },
            labels@.len() == 0 ==> result is Ok,
    {
        self.live.clear();
        // Reserving nothing always succeeds, so an empty frame asks for nothing.
        if labels.len() > 0 && self.live.try_reserve(labels.len()).is_err() {
            let requested_bytes = match labels.len().checked_mul(8) {
                Some(bytes) => bytes,
                None => usize::MAX,
            };
            return Err(DesktopTextError::Allocation { requested_bytes });
        }
        let mut k: usize = 0;
        while k < labels.len()
            invariant
                k <= labels@.len(),
                self.live@ == live_bits(labels@.take(k as int)),
                self.fonts@ == old(self).fonts@,
                self.runs@ == old(self).runs@,
                self.generation == old(self).generation,
                self.scale_bits == old(self).scale_bits,
            decreases labels@.len() - k,
        {
            let (label, nonempty) = labels[k];
            proof {
                assert(labels@.take(k + 1).drop_last() =~= labels@.take(k as int));
            }
            if nonempty {
                self.live.push(label.stable_bits());
            }
            k += 1;
        }
        proof {
            assert(labels@.take(labels@.len() as int) =~= labels@);
        }
        sort_bits(&mut self.live);
        // Take the runs out in reverse, then put the live ones back in order.
        let ghost initial = self.runs@;
        let count = self.runs.len();
        let mut reversed: Vec<Run> = Vec::new();
        while self.runs.len() > 0
            invariant
                initial == self.runs@ + reversed@.reverse(),
                initial.len() == count,
                self.fonts@ == old(self).fonts@,
                self.generation == old(self).generation,
                self.scale_bits == old(self).scale_bits,
                bits_sorted(self.live@),
                self.live@.to_multiset() == live_bits(labels@).to_multiset(),
            decreases self.runs@.len(),
        {
            let ghost before = self.runs@;
            let ghost taken = reversed@;
            let run = self.runs.pop().unwrap();
            reversed.push(run);
            proof {
                assert(before =~= self.runs@.push(run));
                assert(reversed@.reverse() =~= seq![run] + taken.reverse());
                assert(initial =~= self.runs@ + reversed@.reverse());
            }
        }
        proof {
            assert(self.runs@ + reversed@.reverse() =~= reversed@.reverse());
        }
        let ghost keep = |run: Run| run_is_live(source, self.live@, run);
        let mut done: usize = 0;
        while reversed.len() > 0
            invariant
                forall|run: &Run| source.requires((run,)),
                forall|run: &Run, a: LogicEntity, b: LogicEntity|
                    source.ensures((run,), a) && source.ensures((run,), b) ==> a == b,
                initial == initial.take(done as int) + reversed@.reverse(),
                initial.len() == count,
                self.fonts@ == old(self).fonts@,
                self.generation == old(self).generation,
                self.scale_bits == old(self).scale_bits,
                bits_sorted(self.live@),
                self.live@.to_multiset() == live_bits(labels@).to_multiset(),
                done <= initial.len(),
                done + reversed@.len() == initial.len(),
                self.runs@ == initial.take(done as int).filter(keep),
                keep == (|run: Run| run_is_live(source, self.live@, run)),
            decreases reversed@.len(),
        {
            let ghost taken = reversed@;
            let run = reversed.pop().unwrap();
            let entity = source(&run);
            let alive = contains_bits(&self.live, entity.stable_bits());
            proof {
                assert(taken =~= reversed@.push(run));
                assert(taken.reverse() =~= seq![run] + reversed@.reverse());
                assert(initial[done as int] == run);
                assert(initial.take(done + 1) =~= initial.take(done as int).push(run));
                initial.take(done as int).lemma_filter_push(run, keep);
                assert(initial =~= initial.take(done + 1) + reversed@.reverse());
            }
            proof {
                assert(alive == keep(run)) by {
                    if !alive {
                        assert forall|other: LogicEntity| source.ensures((&run,), other) implies !self.live@.contains(
                            other.spec_stable_bits(),
                        ) by {
                            assert(other == entity);
                        }
                    }
                }
            }
            if alive {
                self.runs.push(run);
            }
            done += 1;
        }
        proof {
            assert(initial.take(done as int) =~= initial);
        }
        Ok(())
    }
}


/// Where a key stands among `keys[0..count]`: the first index holding it,
/// or, when none does, the number of keys below it (its place in a sorted
/// list).
pub open spec fn key_position(keys: Seq<u64>, key: u64, count: int) -> Result<usize, usize>
    decreases count,
{
    if count <= 0 {
        Err(0)
    } else {
        match key_position(keys, key, count - 1) {
            Ok(index) => Ok(index),
            Err(position) => if keys[count - 1] == key {
                Ok((count - 1) as usize)
            } else if keys[count - 1] < key {
                Err((position + 1) as usize)
            } else {
                Err(position)
            },
        }
    }
}

proof fn lemma_key_position_bounded(keys: Seq<u64>, key: u64, count: int)
    requires
        0 <= count,
    ensures
        match key_position(keys, key, count) {
            Ok(index) => index < count,
            Err(position) => position <= count,
        },
    decreases count,
{
    if count > 0 {
        lemma_key_position_bounded(keys, key, count - 1);
    }
}

proof fn lemma_key_found_persists(keys: Seq<u64>, key: u64, count: int, later: int)
    requires
        0 <= count <= later,
        key_position(keys, key, count) is Ok,
    ensures
        key_position(keys, key, later) == key_position(keys, key, count),
    decreases later - count,
{
    if later > count {
        lemma_key_found_persists(keys, key, count, later - 1);
    }
}

/// Finds `key` in `keys` as `key_position` says.
fn find_key(keys: &[u64], key: u64) -> (r: Result<usize, usize>)
    ensures
        r == key_position(keys@, key, keys@.len() as int),
{
    let mut k: usize = 0;
    let mut below: usize = 0;
    while k < keys.len()
        invariant
            k <= keys@.len(),
            key_position(keys@, key, k as int) == Err::<usize, usize>(below),
            below <= k,
        decreases keys@.len() - k,
    {
        if keys[k] == key {
            proof {
                lemma_key_found_persists(keys@, key, k + 1, keys@.len() as int);
            }
            return Ok(k);
        }
        if keys[k] < key {
            below += 1;
        }
        k += 1;
    }
    Err(below)
}

/// What preparing one label does with the font atlases.
#[derive(Debug, Clone, Copy, PartialEq, Eq, Structural)]
pub enum FontStep {
    /// The label's font already has an atlas at `index`.
    Reuse {
        /// Position of the atlas.
        index: usize,
    },
    /// A new atlas is created and inserted at `position`.
    Create {
        /// Sorted insertion position.
        position: usize,
    },
}

/// What preparing one label does with its retained run.
#[derive(Debug, Clone, Copy, PartialEq, Eq, Structural)]
pub enum RunStep {
    /// The run at `index` already shows this text in this font.
    Keep {
        /// Position of the run.
        index: usize,
    },
    /// The run at `index` keeps its font and is updated to the new text.
    Update {
        /// Position of the run.
        index: usize,
    },
    /// The run at `index` used another font and is prepared anew.
    Replace {
        /// Position of the run.
        index: usize,
    },
    /// The label has no run; a new one is inserted at `position`.
    Insert {
        /// Sorted insertion position.
        position: usize,
    },
}

/// The font and run decisions for one visible label.
#[derive(Debug, Clone, Copy, PartialEq, Eq, Structural)]
pub struct LabelAction {
    /// The atlas decision.
    pub font: FontStep,
    /// The run decision.
    pub run: RunStep,
}

/// The source bits of each retained run.
pub open spec fn run_sources(runs: Seq<(u64, u64, bool)>) -> Seq<u64> {
    runs.map_values(|run: (u64, u64, bool)| run.0)
}

/// The decisions for a label of source `source_bits` in font `font_slot`,
/// given the retained atlases' font slots and, per retained run, its source
/// bits, its font slot and whether its text equals the label's: a missing
/// atlas is created; a run in another font is replaced, one with other text
/// is updated, an equal one kept, and a missing one inserted.
pub open spec fn spec_label_action(
    font_slots: Seq<u64>,
    runs: Seq<(u64, u64, bool)>,
    font_slot: u64,
    source_bits: u64,
) -> LabelAction {
    let font = match key_position(font_slots, font_slot, font_slots.len() as int) {
        Ok(index) => FontStep::Reuse { index },
        Err(position) => FontStep::Create { position },
    };
    let run = match key_position(run_sources(runs), source_bits, runs.len() as int) {
        Ok(index) => if runs[index as int].1 != font_slot {
            RunStep::Replace { index }
        } else if !runs[index as int].2 {
            RunStep::Update { index }
        } else {
            RunStep::Keep { index }
        },
        Err(position) => RunStep::Insert { position },
    };
    LabelAction { font, run }
}

/// Decides what preparing one label does with its font atlas and its run.
pub fn label_action(
    font_slots: &[u64],
    runs: &[(u64, u64, bool)],
    font_slot: u64,
    source_bits: u64,
) -> (a: LabelAction)
    ensures
        a == spec_label_action(font_slots@, runs@, font_slot, source_bits),
{
    let font = match find_key(font_slots, font_slot) {
        Ok(index) => FontStep::Reuse { index },
        Err(position) => FontStep::Create { position },
    };
    let mut sources: Vec<u64> = Vec::new();
    let mut k: usize = 0;
    while k < runs.len()
        invariant
            k <= runs@.len(),
            sources@ == run_sources(runs@.take(k as int)),
        decreases runs@.len() - k,
    {
        sources.push(runs[k].0);
        proof {
            assert(runs@.take(k + 1) =~= runs@.take(k as int).push(runs@[k as int]));
            assert(run_sources(runs@.take(k + 1)) =~= run_sources(runs@.take(k as int)).push(
                runs@[k as int].0,
            ));
        }
        k += 1;
    }
    proof {
        assert(runs@.take(runs@.len() as int) =~= runs@);
    }
    let found = find_key(sources.as_slice(), source_bits);
    proof {
        lemma_key_position_bounded(run_sources(runs@), source_bits, runs@.len() as int);
    }
    let run = match found {
        Ok(index) => {
            let (_, slot, same_text) = runs[index];
            if slot != font_slot {
                RunStep::Replace { index }
            } else if !same_text {
                RunStep::Update { index }
            } else {
                RunStep::Keep { index }
            }
        },
        Err(position) => RunStep::Insert { position },
    };
    LabelAction { font, run }
}

} // verus!
