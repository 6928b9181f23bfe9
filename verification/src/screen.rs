//! Admission of screen-fixed sources into one bounded snapshot: provenance,
//! registration and validity of every source, independent per-kind caps,
//! summed label bytes and glyphs, then one painter order per kind and the
//! mixed draw plan.

use vstd::prelude::*;
use crate::draw_plan::{
    compose, order_le, spec_plan, DrawPlanError, RectangleRun, ScreenDraw, VisualOrder,
};
use crate::identity::{LogicEntity, WorldGeneration};
use crate::image::ImageAssetId;

verus! {

/// Caps of one screen snapshot.
#[derive(Debug, Clone, Copy, PartialEq, Eq, Structural)]
pub struct ScreenLimits {
    /// Screen rectangles.
    pub max_rectangles: usize,
    /// Screen images.
    pub max_images: usize,
    /// Screen labels.
    pub max_texts: usize,
    /// Summed UTF-8 bytes of all labels.
    pub max_text_bytes: usize,
    /// Summed shaped glyphs of all labels.
    pub max_text_glyphs: usize,
    /// Commands of the rectangle scene.
    pub max_commands: usize,
}

/// One screen source as extraction sees it.
#[derive(Debug, Clone, Copy, PartialEq, Eq, Structural)]
pub enum ScreenSource {
    /// A screen rectangle.
    Rectangle {
        /// Managed source.
        entity: LogicEntity,
        /// Painter order.
        order: VisualOrder,
        /// The visual passed its own validation.
        valid: bool,
    },
    /// A screen image.
    Image {
        /// Managed source.
        entity: LogicEntity,
        /// Painter order.
        order: VisualOrder,
        /// Drawn asset.
        image: ImageAssetId,
        /// The asset is registered in the application's registry.
        registered: bool,
        /// The visual passed its own validation.
        valid: bool,
    },
    /// A screen label.
    Text {
        /// Managed source.
        entity: LogicEntity,
        /// Painter order.
        order: VisualOrder,
        /// The label's font is registered.
        registered: bool,
        /// The visual passed its own validation.
        valid: bool,
        /// UTF-8 bytes of the label.
        text_bytes: usize,
        /// Shaped glyphs of the label.
        glyphs: usize,
    },
}

/// Why a screen snapshot was rejected.
#[derive(Debug, Clone, Copy, PartialEq, Eq, Structural)]
pub enum ScreenExtractionError {
    /// A source belonged to another world generation.
    ForeignEntity {
        /// Rejected source.
        entity: LogicEntity,
        /// Generation being extracted.
        expected: WorldGeneration,
    },
    /// Too many screen rectangles.
    ScreenRectangleLimitExceeded {
        /// The cap.
        limit: usize,
    },
    /// The rectangle scene would exceed its command cap.
    ScreenCommandLimitExceeded {
        /// The cap.
        limit: usize,
        /// Commands requested.
        requested: usize,
    },
    /// A rectangle failed validation.
    InvalidScreenVisual {
        /// Rejected source.
        entity: LogicEntity,
    },
    /// Too many screen images.
    ScreenImageLimitExceeded {
        /// The cap.
        limit: usize,
    },
    /// An image's asset is not registered.
    UnregisteredImageAsset {
        /// Rejected source.
        entity: LogicEntity,
        /// The unregistered asset.
        image: ImageAssetId,
    },
    /// An image failed validation.
    InvalidScreenImage {
        /// Rejected source.
        entity: LogicEntity,
    },
    /// Too many screen labels.
    ScreenTextLimitExceeded {
        /// The cap.
        limit: usize,
    },
    /// A label's font is not registered.
    UnregisteredTextFont {
        /// Rejected source.
        entity: LogicEntity,
    },
    /// A label failed validation.
    InvalidScreenText {
        /// Rejected source.
        entity: LogicEntity,
    },
    /// The labels' summed bytes exceed the cap; an overflowing sum is
    /// reported as `usize::MAX`.
    ScreenTextBytesLimitExceeded {
        /// The cap.
        limit: usize,
        /// Summed bytes.
        requested: usize,
    },
    /// The labels' summed glyphs exceed the cap; an overflowing sum is
    /// reported as `usize::MAX`.
    ScreenTextGlyphLimitExceeded {
        /// The cap.
        limit: usize,
        /// Summed glyphs.
        requested: usize,
    },
    /// Snapshot storage could not be reserved.
    AllocationFailed {
        /// Bytes that could not be reserved.
        requested_bytes: usize,
    },
}

/// The admitted sources of one snapshot, by index into the source list.
#[derive(Debug, Clone, PartialEq, Eq)]
pub struct ScreenAdmission {
    /// Admitted rectangles.
    pub rectangles: Vec<usize>,
    /// Admitted images.
    pub images: Vec<usize>,
    /// Admitted labels.
    pub texts: Vec<usize>,
}

/// The painter order of a source.
pub open spec fn spec_order_of(source: ScreenSource) -> VisualOrder {
    match source {
        ScreenSource::Rectangle { order, .. } => order,
        ScreenSource::Image { order, .. } => order,
        ScreenSource::Text { order, .. } => order,
    }
}

/// Returns the painter order of a source.
pub fn order_of(source: &ScreenSource) -> (order: VisualOrder)
    ensures
        order == spec_order_of(*source),
{
    match source {
        ScreenSource::Rectangle { order, .. } => *order,
        ScreenSource::Image { order, .. } => *order,
        ScreenSource::Text { order, .. } => *order,
    }
}

/// Admission progress: admitted rectangles, images and labels, and the
/// running label byte and glyph sums.
pub type AdmissionState = (Seq<usize>, Seq<usize>, Seq<usize>, int, int);

/// Admits source `index`, or raises the error it causes.
pub open spec fn admit_step(
    state: AdmissionState,
    source: ScreenSource,
    index: int,
    generation: WorldGeneration,
    limits: ScreenLimits,
) -> Result<AdmissionState, ScreenExtractionError> {
    let (rects, images, texts, bytes, glyphs) = state;
    match source {
        ScreenSource::Rectangle { entity, valid, .. } => {
            if entity.spec_world_generation() != generation {
                Err(ScreenExtractionError::ForeignEntity { entity, expected: generation })
            } else if rects.len() == limits.max_rectangles {
                Err(
                    ScreenExtractionError::ScreenRectangleLimitExceeded {
                        limit: limits.max_rectangles,
                    },
                )
            } else if rects.len() == limits.max_commands {
                Err(
                    ScreenExtractionError::ScreenCommandLimitExceeded {
                        limit: limits.max_commands,
                        requested: if rects.len() + 1 > usize::MAX {
                            usize::MAX
                        } else {
                            (rects.len() + 1) as usize
                        },
                    },
                )
            } else if !valid {
                Err(ScreenExtractionError::InvalidScreenVisual { entity })
            } else {
                Ok((rects.push(index as usize), images, texts, bytes, glyphs))
            }
        },
        ScreenSource::Image { entity, image, registered, valid, .. } => {
            if images.len() == limits.max_images {
                Err(ScreenExtractionError::ScreenImageLimitExceeded { limit: limits.max_images })
            } else if entity.spec_world_generation() != generation {
                Err(ScreenExtractionError::ForeignEntity { entity, expected: generation })
            } else if !registered {
                Err(ScreenExtractionError::UnregisteredImageAsset { entity, image })
            } else if !valid {
                Err(ScreenExtractionError::InvalidScreenImage { entity })
            } else {
                Ok((rects, images.push(index as usize), texts, bytes, glyphs))
            }
        },
        ScreenSource::Text { entity, registered, valid, text_bytes, glyphs: count, .. } => {
            if texts.len() == limits.max_texts {
                Err(ScreenExtractionError::ScreenTextLimitExceeded { limit: limits.max_texts })
            } else if entity.spec_world_generation() != generation {
                Err(ScreenExtractionError::ForeignEntity { entity, expected: generation })
            } else if !registered {
                Err(ScreenExtractionError::UnregisteredTextFont { entity })
            } else if !valid {
                Err(ScreenExtractionError::InvalidScreenText { entity })
            } else if bytes + text_bytes > usize::MAX {
                Err(
                    ScreenExtractionError::ScreenTextBytesLimitExceeded {
                        limit: limits.max_text_bytes,
                        requested: usize::MAX,
                    },
                )
            } else if bytes + text_bytes > limits.max_text_bytes {
                Err(
                    ScreenExtractionError::ScreenTextBytesLimitExceeded {
                        limit: limits.max_text_bytes,
                        requested: (bytes + text_bytes) as usize,
                    },
                )
            } else if glyphs + count > usize::MAX {
                Err(
                    ScreenExtractionError::ScreenTextGlyphLimitExceeded {
                        limit: limits.max_text_glyphs,
                        requested: usize::MAX,
                    },
                )
            } else if glyphs + count > limits.max_text_glyphs {
                Err(
                    ScreenExtractionError::ScreenTextGlyphLimitExceeded {
                        limit: limits.max_text_glyphs,
                        requested: (glyphs + count) as usize,
                    },
                )
            } else {
                Ok((rects, images, texts.push(index as usize), bytes + text_bytes, glyphs + count))
            }
        },
    }
}

/// Admission of the first `count` sources, in order.
pub open spec fn admission_state(
    sources: Seq<ScreenSource>,
    generation: WorldGeneration,
    limits: ScreenLimits,
    count: int,
) -> Result<AdmissionState, ScreenExtractionError>
    decreases count,
{
    if count <= 0 {
        Ok((Seq::empty(), Seq::empty(), Seq::empty(), 0, 0))
    } else {
        match admission_state(sources, generation, limits, count - 1) {
            Ok(state) => admit_step(state, sources[count - 1], count - 1, generation, limits),
            Err(error) => Err(error),
        }
    }
}

/// A rejected source ends admission: later sources do not change the error.
proof fn lemma_admission_error_persists(
    sources: Seq<ScreenSource>,
    generation: WorldGeneration,
    limits: ScreenLimits,
    count: int,
    later: int,
)
    requires
        0 <= count <= later,
        admission_state(sources, generation, limits, count) is Err,
    ensures
        admission_state(sources, generation, limits, later) == admission_state(
            sources,
            generation,
            limits,
            count,
        ),
    decreases later - count,
{
    if later > count {
        lemma_admission_error_persists(sources, generation, limits, count, later - 1);
    }
}

/// The failure to reserve one more admitted index.
pub open spec fn admission_allocation_failure() -> ScreenExtractionError {
    ScreenExtractionError::AllocationFailed {
        requested_bytes: vstd::layout::size_of::<usize>() as usize,
    }
}

/// Admission reached source `k` without a rejection, and source `k` is
/// admissible: the point where one more index has to be reserved.
pub open spec fn reserves_at(
    sources: Seq<ScreenSource>,
    generation: WorldGeneration,
    limits: ScreenLimits,
    k: int,
) -> bool {
    &&& 0 <= k < sources.len()
    &&& admission_state(sources, generation, limits, k) is Ok
    &&& admit_step(
        admission_state(sources, generation, limits, k)->Ok_0,
        sources[k],
        k,
        generation,
        limits,
    ) is Ok
}

/// An allocation failure of admission arises only where an index has to be
/// reserved.
pub open spec fn admission_allocation_point(
    sources: Seq<ScreenSource>,
    generation: WorldGeneration,
    limits: ScreenLimits,
) -> bool {
    exists|k: int| #[trigger] reserves_at(sources, generation, limits, k)
}

fn push_index(indices: &mut Vec<usize>, index: usize) -> (result: Result<(), ScreenExtractionError>)
    ensures
        result is Ok ==> final(indices)@ == old(indices)@.push(index),
        result is Err ==> result == Err::<(), ScreenExtractionError>(
            admission_allocation_failure(),
        ),
{
    if indices.try_reserve(1).is_err() {
        return Err(
            ScreenExtractionError::AllocationFailed { requested_bytes: core::mem::size_of::<usize>() },
        );
    }
    indices.push(index);
    Ok(())
}

/// Admits every source in order and returns the admitted indices per kind,
/// in source order, or the first rejection.
pub fn admit_screen_sources(
    generation: WorldGeneration,
    limits: ScreenLimits,
    sources: &[ScreenSource],
) -> (result: Result<ScreenAdmission, ScreenExtractionError>)
    ensures
        match result {
            Ok(admission) => admission_state(
                sources@,
                generation,
                limits,
                sources@.len() as int,
            ) matches Ok((rects, images, texts, _, _)) && admission.rectangles@ == rects
                && admission.images@ == images && admission.texts@ == texts,
            Err(error) => (error == admission_allocation_failure() && admission_allocation_point(
                sources@,
                generation,
                limits,
            )) || admission_state(sources@, generation, limits, sources@.len() as int) == Err::<
                AdmissionState,
                ScreenExtractionError,
            >(error),
        },
        sources@.len() == 0 ==> result is Ok,
{
    let mut rectangles: Vec<usize> = Vec::new();
    let mut images: Vec<usize> = Vec::new();
    let mut texts: Vec<usize> = Vec::new();
    let mut text_bytes: usize = 0;
    let mut text_glyphs: usize = 0;
    let mut k: usize = 0;
    while k < sources.len()
        invariant
            k <= sources@.len(),
            admission_state(sources@, generation, limits, k as int) == Ok::<
                AdmissionState,
                ScreenExtractionError,
            >((rectangles@, images@, texts@, text_bytes as int, text_glyphs as int)),
        decreases sources@.len() - k,
    {
        let source = sources[k];
        let step: Result<(), ScreenExtractionError> = match source {
            ScreenSource::Rectangle { entity, valid, .. } => {
                if entity.world_generation() != generation {
                    Err(ScreenExtractionError::ForeignEntity { entity, expected: generation })
                } else if rectangles.len() == limits.max_rectangles {
                    Err(
                        ScreenExtractionError::ScreenRectangleLimitExceeded {
                            limit: limits.max_rectangles,
                        },
                    )
                } else if rectangles.len() == limits.max_commands {
                    Err(
                        ScreenExtractionError::ScreenCommandLimitExceeded {
                            limit: limits.max_commands,
                            requested: rectangles.len().saturating_add(1),
                        },
                    )
                } else if !valid {
                    Err(ScreenExtractionError::InvalidScreenVisual { entity })
                } else {
                    match push_index(&mut rectangles, k) {
                        Ok(()) => Ok(()),
                        Err(error) => {
                            proof {
                                assert(reserves_at(sources@, generation, limits, k as int));
                            }
                            return Err(error);
                        },
                    }
                }
            },
            ScreenSource::Image { entity, image, registered, valid, .. } => {
                if images.len() == limits.max_images {
                    Err(
                        ScreenExtractionError::ScreenImageLimitExceeded {
                            limit: limits.max_images,
                        },
                    )
                } else if entity.world_generation() != generation {
                    Err(ScreenExtractionError::ForeignEntity { entity, expected: generation })
                } else if !registered {
                    Err(ScreenExtractionError::UnregisteredImageAsset { entity, image })
                } else if !valid {
                    Err(ScreenExtractionError::InvalidScreenImage { entity })
                } else {
                    match push_index(&mut images, k) {
                        Ok(()) => Ok(()),
                        Err(error) => {
                            proof {
                                assert(reserves_at(sources@, generation, limits, k as int));
                            }
                            return Err(error);
                        },
                    }
                }
            },
            ScreenSource::Text { entity, registered, valid, text_bytes: bytes, glyphs, .. } => {
                if texts.len() == limits.max_texts {
                    Err(
                        ScreenExtractionError::ScreenTextLimitExceeded {
                            limit: limits.max_texts,
                        },
                    )
                } else if entity.world_generation() != generation {
                    Err(ScreenExtractionError::ForeignEntity { entity, expected: generation })
                } else if !registered {
                    Err(ScreenExtractionError::UnregisteredTextFont { entity })
                } else if !valid {
                    Err(ScreenExtractionError::InvalidScreenText { entity })
                } else {
                    match text_bytes.checked_add(bytes) {
                        None => Err(
                            ScreenExtractionError::ScreenTextBytesLimitExceeded {
                                limit: limits.max_text_bytes,
                                requested: usize::MAX,
                            },
                        ),
                        Some(total_bytes) => if total_bytes > limits.max_text_bytes {
                            Err(
                                ScreenExtractionError::ScreenTextBytesLimitExceeded {
                                    limit: limits.max_text_bytes,
                                    requested: total_bytes,
                                },
                            )
                        } else {
                            match text_glyphs.checked_add(glyphs) {
                                None => Err(
                                    ScreenExtractionError::ScreenTextGlyphLimitExceeded {
                                        limit: limits.max_text_glyphs,
                                        requested: usize::MAX,
                                    },
                                ),
                                Some(total_glyphs) => if total_glyphs > limits.max_text_glyphs {
                                    Err(
                                        ScreenExtractionError::ScreenTextGlyphLimitExceeded {
                                            limit: limits.max_text_glyphs,
                                            requested: total_glyphs,
                                        },
                                    )
                                } else {
                                    match push_index(&mut texts, k) {
                                        Ok(()) => {
                                            text_bytes = total_bytes;
                                            text_glyphs = total_glyphs;
                                            Ok(())
                                        },
                                        Err(error) => {
                                            proof {
                                                assert(reserves_at(
                                                    sources@,
                                                    generation,
                                                    limits,
                                                    k as int,
                                                ));
                                            }
                                            return Err(error);
                                        },
                                    }
                                },
                            }
                        },
                    }
                }
            },
        };
        if let Err(error) = step {
            proof {
                lemma_admission_error_persists(
                    sources@,
                    generation,
                    limits,
                    k + 1,
                    sources@.len() as int,
                );
            }
            return Err(error);
        }
        k += 1;
    }
    Ok(ScreenAdmission { rectangles, images, texts })
}

/// The painter orders of the indexed sources.
pub open spec fn keys_of(ids: Seq<usize>, sources: Seq<ScreenSource>) -> Seq<VisualOrder> {
    ids.map_values(|id: usize| spec_order_of(sources[id as int]))
}

/// The indexed sources are in nondecreasing painter order.
pub open spec fn sorted_by_order(ids: Seq<usize>, sources: Seq<ScreenSource>) -> bool {
    forall|a: int, b: int|
        0 <= a <= b < ids.len() ==> order_le(
            spec_order_of(sources[#[trigger] ids[a] as int]),
            spec_order_of(sources[#[trigger] ids[b] as int]),
        )
}

/// Every index names a source.
pub open spec fn indices_in_bounds(ids: Seq<usize>, sources: Seq<ScreenSource>) -> bool {
    forall|k: int| 0 <= k < ids.len() ==> #[trigger] ids[k] < sources.len()
}

/// Sorts source indices into painter order: the result holds the same
/// indices, each as often, in nondecreasing order of their sources.
pub fn sort_by_visual_order(ids: &Vec<usize>, sources: &[ScreenSource]) -> (sorted: Vec<usize>)
    requires
        indices_in_bounds(ids@, sources@),
    ensures
        sorted@.to_multiset() == ids@.to_multiset(),
        sorted_by_order(sorted@, sources@),
        indices_in_bounds(sorted@, sources@),
{
    broadcast use vstd::seq_lib::to_multiset_insert;

    let mut sorted: Vec<usize> = Vec::new();
    let mut k: usize = 0;
    proof {
        assert(ids@.take(0) =~= Seq::<usize>::empty());
        assert(sorted@ =~= Seq::<usize>::empty());
    }
    while k < ids.len()
        invariant
            k <= ids@.len(),
            indices_in_bounds(ids@, sources@),
            indices_in_bounds(sorted@, sources@),
            sorted@.to_multiset() == ids@.take(k as int).to_multiset(),
            sorted_by_order(sorted@, sources@),
        decreases ids@.len() - k,
    {
        let id = ids[k];
        let key = order_of(&sources[id]);
        // Insert after every source that does not follow it.
        let mut position: usize = 0;
        while position < sorted.len() && crate::draw_plan::visual_order_le(
            &order_of(&sources[sorted[position]]),
            &key,
        )
            invariant
                position <= sorted@.len(),
                indices_in_bounds(sorted@, sources@),
                id < sources@.len(),
                key == spec_order_of(sources@[id as int]),
                forall|j: int|
                    0 <= j < position ==> order_le(
                        spec_order_of(sources@[#[trigger] sorted@[j] as int]),
                        key,
                    ),
                sorted_by_order(sorted@, sources@),
            decreases sorted@.len() - position,
        {
            position += 1;
        }
        let ghost before = sorted@;
        sorted.insert(position, id);
        proof {
            assert(ids@.take(k + 1) =~= ids@.take(k as int).push(id));
            vstd::seq_lib::to_multiset_build(ids@.take(k as int), id);
            assert(sorted@ == before.insert(position as int, id));
            vstd::seq_lib::to_multiset_insert(before, position as int, id);
            assert(sorted@.to_multiset() == ids@.take(k + 1).to_multiset());
            before.insert_ensures(position as int, id);
            assert forall|a: int, b: int| 0 <= a <= b < sorted@.len() implies order_le(
                spec_order_of(sources@[#[trigger] sorted@[a] as int]),
                spec_order_of(sources@[#[trigger] sorted@[b] as int]),
            ) by {
                let p = position as int;
                if a < p && b < p {
                    assert(sorted@[a] == before[a] && sorted@[b] == before[b]);
                } else if a < p && b == p {
                    assert(sorted@[a] == before[a]);
                } else if a < p && b > p {
                    assert(sorted@[a] == before[a] && sorted@[b] == before[b - 1]);
                    assert(order_le(
                        spec_order_of(sources@[before[a] as int]),
                        spec_order_of(sources@[before[b - 1] as int]),
                    ));
                } else if a == p && b == p {
                } else if a == p && b > p {
                    assert(sorted@[b] == before[b - 1]);
                    // The element now after the insertion point follows the key.
                    assert(!order_le(spec_order_of(sources@[before[p] as int]), key));
                    assert(order_le(
                        spec_order_of(sources@[before[p] as int]),
                        spec_order_of(sources@[before[b - 1] as int]),
                    ));
                } else {
                    assert(sorted@[a] == before[a - 1] && sorted@[b] == before[b - 1]);
                    assert(order_le(
                        spec_order_of(sources@[before[a - 1] as int]),
                        spec_order_of(sources@[before[b - 1] as int]),
                    ));
                }
            }
        }
        k += 1;
    }
    proof {
        assert(ids@.take(ids@.len() as int) =~= ids@);
    }
    sorted
}

/// Admitted indices name sources already seen.
proof fn lemma_admitted_in_bounds(
    sources: Seq<ScreenSource>,
    generation: WorldGeneration,
    limits: ScreenLimits,
    count: int,
)
    requires
        0 <= count <= sources.len(),
        sources.len() <= usize::MAX,
        admission_state(sources, generation, limits, count) is Ok,
    ensures
        ({
            let (rects, images, texts, _, _) = admission_state(
                sources,
                generation,
                limits,
                count,
            )->Ok_0;
            &&& indices_in_bounds(rects, sources)
            &&& indices_in_bounds(images, sources)
            &&& indices_in_bounds(texts, sources)
        }),
    decreases count,
{
    if count > 0 {
        lemma_admitted_in_bounds(sources, generation, limits, count - 1);
    }
}

/// The painter orders of the indexed sources, in index order.
pub fn orders_of(ids: &Vec<usize>, sources: &[ScreenSource]) -> (keys: Vec<VisualOrder>)
    requires
        indices_in_bounds(ids@, sources@),
    ensures
        keys@ == keys_of(ids@, sources@),
{
    let mut keys: Vec<VisualOrder> = Vec::new();
    let mut k: usize = 0;
    while k < ids.len()
        invariant
            k <= ids@.len(),
            indices_in_bounds(ids@, sources@),
            keys@ =~= keys_of(ids@.take(k as int), sources@),
        decreases ids@.len() - k,
    {
        keys.push(order_of(&sources[ids[k]]));
        proof {
            assert(ids@.take(k + 1) =~= ids@.take(k as int).push(ids@[k as int]));
        }
        k += 1;
    }
    proof {
        assert(ids@.take(ids@.len() as int) =~= ids@);
    }
    keys
}

/// Extracts one screen snapshot: admits every source, sorts each kind into
/// painter order and builds the mixed draw plan into `draws` and `runs`.
pub fn extract_screen(
    generation: WorldGeneration,
    limits: ScreenLimits,
    sources: &[ScreenSource],
    draws: &mut Vec<ScreenDraw>,
    runs: &mut Vec<RectangleRun>,
) -> (result: Result<ScreenAdmission, ScreenExtractionError>)
    ensures
        match result {
            Ok(admission) => {
                &&& admission_state(sources@, generation, limits, sources@.len() as int) matches Ok(
                    (rects, images, texts, _, _),
                )
                &&& admission.rectangles@.to_multiset() == rects.to_multiset()
                &&& admission.images@.to_multiset() == images.to_multiset()
                &&& admission.texts@.to_multiset() == texts.to_multiset()
                &&& sorted_by_order(admission.rectangles@, sources@)
                &&& sorted_by_order(admission.images@, sources@)
                &&& sorted_by_order(admission.texts@, sources@)
                &&& (final(draws)@, final(runs)@) == spec_plan(
                    keys_of(admission.rectangles@, sources@),
                    keys_of(admission.images@, sources@),
                    keys_of(admission.texts@, sources@),
                )
            },
            Err(error) => {
                ||| admission_state(sources@, generation, limits, sources@.len() as int) == Err::<
                    AdmissionState,
                    ScreenExtractionError,
                >(error)
                ||| error == admission_allocation_failure() && admission_allocation_point(
                    sources@,
                    generation,
                    limits,
                )
                ||| admission_state(sources@, generation, limits, sources@.len() as int) is Ok
                    && (error == ScreenExtractionError::AllocationFailed {
                    requested_bytes: vstd::layout::size_of::<ScreenDraw>() as usize,
                } || error == ScreenExtractionError::AllocationFailed {
                    requested_bytes: vstd::layout::size_of::<RectangleRun>() as usize,
                })
            },
        },
        sources@.len() == 0 ==> result is Ok,
{
    let admitted = admit_screen_sources(generation, limits, sources)?;
    let count = sources.len();
    proof {
        lemma_admitted_in_bounds(sources@, generation, limits, sources@.len() as int);
    }
    let rectangles = sort_by_visual_order(&admitted.rectangles, sources);
    let images = sort_by_visual_order(&admitted.images, sources);
    let texts = sort_by_visual_order(&admitted.texts, sources);
    proof {
        if sources@.len() == 0 {
            vstd::seq_lib::to_multiset_len(rectangles@);
            vstd::seq_lib::to_multiset_len(admitted.rectangles@);
            vstd::seq_lib::to_multiset_len(images@);
            vstd::seq_lib::to_multiset_len(admitted.images@);
            vstd::seq_lib::to_multiset_len(texts@);
            vstd::seq_lib::to_multiset_len(admitted.texts@);
        }
    }
    let rectangle_keys = orders_of(&rectangles, sources);
    let image_keys = orders_of(&images, sources);
    let text_keys = orders_of(&texts, sources);
    match compose(&rectangle_keys, &image_keys, &text_keys, draws, runs) {
        Ok(()) => Ok(ScreenAdmission { rectangles, images, texts }),
        Err(DrawPlanError::AllocationFailed { requested_bytes }) => Err(
            ScreenExtractionError::AllocationFailed { requested_bytes },
        ),
    }
}

/// The entity of a source.
pub open spec fn spec_entity_of(source: ScreenSource) -> LogicEntity {
    match source {
        ScreenSource::Rectangle { entity, .. } => entity,
        ScreenSource::Image { entity, .. } => entity,
        ScreenSource::Text { entity, .. } => entity,
    }
}

/// Every indexed source is valid, registered where it needs a registration,
/// of the extracted generation, and of the expected kind.
pub open spec fn admitted_sources_are_sound(
    ids: Seq<usize>,
    sources: Seq<ScreenSource>,
    generation: WorldGeneration,
    kind: int,
) -> bool {
    forall|k: int|
        0 <= k < ids.len() ==> {
            let source = sources[#[trigger] ids[k] as int];
            &&& spec_entity_of(source).spec_world_generation() == generation
            &&& match source {
                ScreenSource::Rectangle { valid, .. } => kind == 0 && valid,
                ScreenSource::Image { registered, valid, .. } => kind == 1 && registered && valid,
                ScreenSource::Text { registered, valid, .. } => kind == 2 && registered && valid,
            }
        }
}

/// Law: an admitted snapshot never exceeds a cap, never holds a source of
/// another world generation, and holds only registered, valid sources of
/// the right kind; the label sums stay within their caps.
pub proof fn admission_respects_caps_and_provenance(
    sources: Seq<ScreenSource>,
    generation: WorldGeneration,
    limits: ScreenLimits,
    count: int,
)
    requires
        0 <= count <= sources.len(),
        sources.len() <= usize::MAX,
        admission_state(sources, generation, limits, count) is Ok,
    ensures
        ({
            let (rects, images, texts, bytes, glyphs) = admission_state(
                sources,
                generation,
                limits,
                count,
            )->Ok_0;
            &&& rects.len() <= limits.max_rectangles
            &&& rects.len() <= limits.max_commands
            &&& images.len() <= limits.max_images
            &&& texts.len() <= limits.max_texts
            &&& 0 <= bytes <= limits.max_text_bytes
            &&& 0 <= glyphs <= limits.max_text_glyphs
            &&& admitted_sources_are_sound(rects, sources, generation, 0)
            &&& admitted_sources_are_sound(images, sources, generation, 1)
            &&& admitted_sources_are_sound(texts, sources, generation, 2)
        }),
    decreases count,
{
    if count > 0 {
        admission_respects_caps_and_provenance(sources, generation, limits, count - 1);
        let (rects, images, texts, bytes, glyphs) = admission_state(
            sources,
            generation,
            limits,
            count - 1,
        )->Ok_0;
        let (rects2, images2, texts2, _, _) = admission_state(
            sources,
            generation,
            limits,
            count,
        )->Ok_0;
        assert forall|k: int| 0 <= k < rects2.len() implies rects2[k] == (if k < rects.len() {
            rects[k]
        } else {
            (count - 1) as usize
        }) by {}
        assert forall|k: int| 0 <= k < images2.len() implies images2[k] == (if k < images.len() {
            images[k]
        } else {
            (count - 1) as usize
        }) by {}
        assert forall|k: int| 0 <= k < texts2.len() implies texts2[k] == (if k < texts.len() {
            texts[k]
        } else {
            (count - 1) as usize
        }) by {}
    }
}

} // verus!
