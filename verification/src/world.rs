//! Admission of world sources into one bounded snapshot: provenance and
//! validity of every circle, rectangle and line, independent per-kind caps,
//! one aggregate command cap over everything drawn, lines of zero length
//! counted against their cap but not drawn, then one painter order per kind.
//!
//! Floating-point checks (finite values, interpolation, representable
//! bounds) are made where the sources are read; admission sees their
//! outcomes as flags.

use vstd::prelude::*;
use crate::draw_plan::{order_le, visual_order_le, VisualOrder};
use crate::identity::{LogicEntity, WorldGeneration};

verus! {

/// Caps of one world snapshot.
#[derive(Debug, Clone, Copy, PartialEq, Eq, Structural)]
pub struct WorldLimits {
    /// Extracted circles.
    pub max_circles: usize,
    /// Extracted rectangles.
    pub max_rectangles: usize,
    /// Enabled line sources, drawn or not.
    pub max_lines: usize,
    /// Commands of the world scene: circles, rectangles and drawn lines.
    pub max_commands: usize,
}

/// One world circle or rectangle as admission sees it.
#[derive(Debug, Clone, Copy, PartialEq, Eq, Structural)]
pub struct WorldSource {
    /// Managed source.
    pub entity: LogicEntity,
    /// Painter order.
    pub order: VisualOrder,
    /// The visual values passed their validation.
    pub valid: bool,
    /// Interpolating the two translations gave a finite position.
    pub interpolated: bool,
    /// The resolved shape is representable (rectangle bounds; always true
    /// for circles).
    pub resolved: bool,
}

/// One world line source as admission sees it.
#[derive(Debug, Clone, Copy, PartialEq, Eq, Structural)]
pub struct LineSource {
    /// Managed source.
    pub entity: LogicEntity,
    /// Painter order.
    pub order: VisualOrder,
    /// The visual values passed their validation.
    pub valid: bool,
    /// The line's vector is zero: it is counted but not drawn.
    pub zero_length: bool,
    /// Interpolating the anchor gave a finite position.
    pub interpolated: bool,
    /// The resolved segment is finite and not collapsed.
    pub resolved: bool,
}

/// Why a world snapshot was rejected.
#[derive(Debug, Clone, Copy, PartialEq, Eq, Structural)]
pub enum WorldExtractionError {
    /// The world held no camera marked for extraction.
    MissingActiveCamera,
    /// The world held more than one camera marked for extraction.
    MultipleActiveCameras,
    /// A source belonged to another world generation.
    ForeignEntity {
        /// The rejected source.
        entity: LogicEntity,
        /// The generation being extracted.
        expected: WorldGeneration,
    },
    /// The circle cap was exceeded.
    CircleLimitExceeded {
        /// Configured cap.
        limit: usize,
    },
    /// The rectangle cap was exceeded.
    RectangleLimitExceeded {
        /// Configured cap.
        limit: usize,
    },
    /// The line-source cap was exceeded.
    LineLimitExceeded {
        /// Configured cap.
        limit: usize,
    },
    /// The world scene's command cap was exceeded.
    CommandLimitExceeded {
        /// Configured cap.
        limit: usize,
        /// Commands the source would need; saturates at `usize::MAX`.
        requested: usize,
    },
    /// A source carried an invalid visual value.
    InvalidVisual {
        /// The rejected source.
        entity: LogicEntity,
    },
    /// Interpolation did not give a finite position.
    InvalidInterpolatedTranslation {
        /// The rejected source.
        entity: LogicEntity,
    },
    /// A rectangle's bounds are not representable.
    InvalidResolvedRectangle {
        /// The rejected source.
        entity: LogicEntity,
    },
    /// A line's resolved segment is not representable.
    InvalidResolvedLine {
        /// The rejected source.
        entity: LogicEntity,
    },
    /// Snapshot storage could not be reserved.
    AllocationFailed {
        /// Bytes that could not be reserved.
        requested_bytes: usize,
    },
}

/// The admitted sources of one world snapshot, by index into each source
/// list, in painter order.
#[derive(Debug, Clone, PartialEq, Eq)]
pub struct WorldAdmission {
    /// Admitted circles.
    pub circles: Vec<usize>,
    /// Admitted rectangles.
    pub rectangles: Vec<usize>,
    /// Admitted lines that are drawn.
    pub lines: Vec<usize>,
}

/// Admission progress: admitted circles, rectangles and drawn lines, and
/// the line sources seen.
pub type WorldState = (Seq<usize>, Seq<usize>, Seq<usize>, int);

/// `n`, saturated at `usize::MAX`.
pub open spec fn saturated(n: int) -> int {
    if n > usize::MAX { usize::MAX as int } else { n }
}

/// The command-cap error for `retained` commands already admitted.
pub open spec fn command_limit_error(retained: int, limit: usize) -> WorldExtractionError {
    WorldExtractionError::CommandLimitExceeded {
        limit,
        requested: saturated(retained + 1) as usize,
    }
}

/// Admits circle `index`, or raises the error it causes.
pub open spec fn circle_step(
    state: WorldState,
    source: WorldSource,
    index: int,
    generation: WorldGeneration,
    limits: WorldLimits,
) -> Result<WorldState, WorldExtractionError> {
    let (circles, rects, lines, seen) = state;
    if source.entity.spec_world_generation() != generation {
        Err(WorldExtractionError::ForeignEntity { entity: source.entity, expected: generation })
    } else if circles.len() == limits.max_circles {
        Err(WorldExtractionError::CircleLimitExceeded { limit: limits.max_circles })
    } else if circles.len() == limits.max_commands {
        Err(command_limit_error(circles.len() as int, limits.max_commands))
    } else if !source.valid {
        Err(WorldExtractionError::InvalidVisual { entity: source.entity })
    } else if !source.interpolated {
        Err(WorldExtractionError::InvalidInterpolatedTranslation { entity: source.entity })
    } else {
        Ok((circles.push(index as usize), rects, lines, seen))
    }
}

/// Admits rectangle `index`, or raises the error it causes.
pub open spec fn rectangle_step(
    state: WorldState,
    source: WorldSource,
    index: int,
    generation: WorldGeneration,
    limits: WorldLimits,
) -> Result<WorldState, WorldExtractionError> {
    let (circles, rects, lines, seen) = state;
    if source.entity.spec_world_generation() != generation {
        Err(WorldExtractionError::ForeignEntity { entity: source.entity, expected: generation })
    } else if rects.len() == limits.max_rectangles {
        Err(WorldExtractionError::RectangleLimitExceeded { limit: limits.max_rectangles })
    } else if saturated((circles.len() + rects.len()) as int) == limits.max_commands {
        Err(command_limit_error(saturated((circles.len() + rects.len()) as int), limits.max_commands))
    } else if !source.valid {
        Err(WorldExtractionError::InvalidVisual { entity: source.entity })
    } else if !source.interpolated {
        Err(WorldExtractionError::InvalidInterpolatedTranslation { entity: source.entity })
    } else if !source.resolved {
        Err(WorldExtractionError::InvalidResolvedRectangle { entity: source.entity })
    } else {
        Ok((circles, rects.push(index as usize), lines, seen))
    }
}

/// Admits line `index`, or raises the error it causes. A zero-length line
/// counts against the line cap but is not drawn.
pub open spec fn line_step(
    state: WorldState,
    source: LineSource,
    index: int,
    generation: WorldGeneration,
    limits: WorldLimits,
) -> Result<WorldState, WorldExtractionError> {
    let (circles, rects, lines, seen) = state;
    let retained = saturated(saturated((circles.len() + rects.len()) as int) + lines.len());
    if source.entity.spec_world_generation() != generation {
        Err(WorldExtractionError::ForeignEntity { entity: source.entity, expected: generation })
    } else if seen == limits.max_lines {
        Err(WorldExtractionError::LineLimitExceeded { limit: limits.max_lines })
    } else if !source.valid {
        Err(WorldExtractionError::InvalidVisual { entity: source.entity })
    } else if source.zero_length {
        Ok((circles, rects, lines, seen + 1))
    } else if retained == limits.max_commands {
        Err(command_limit_error(retained as int, limits.max_commands))
    } else if !source.interpolated {
        Err(WorldExtractionError::InvalidInterpolatedTranslation { entity: source.entity })
    } else if !source.resolved {
        Err(WorldExtractionError::InvalidResolvedLine { entity: source.entity })
    } else {
        Ok((circles, rects, lines.push(index as usize), seen + 1))
    }
}

/// Admission after the first `count` circles.
pub open spec fn circles_state(
    circles: Seq<WorldSource>,
    generation: WorldGeneration,
    limits: WorldLimits,
    count: int,
) -> Result<WorldState, WorldExtractionError>
    decreases count,
{
    if count <= 0 {
        Ok((Seq::empty(), Seq::empty(), Seq::empty(), 0))
    } else {
        match circles_state(circles, generation, limits, count - 1) {
            Ok(state) => circle_step(state, circles[count - 1], count - 1, generation, limits),
            Err(error) => Err(error),
        }
    }
}

/// Admission after every circle and the first `count` rectangles.
pub open spec fn rectangles_state(
    circles: Seq<WorldSource>,
    rectangles: Seq<WorldSource>,
    generation: WorldGeneration,
    limits: WorldLimits,
    count: int,
) -> Result<WorldState, WorldExtractionError>
    decreases count,
{
    if count <= 0 {
        circles_state(circles, generation, limits, circles.len() as int)
    } else {
        match rectangles_state(circles, rectangles, generation, limits, count - 1) {
            Ok(state) => rectangle_step(
                state,
                rectangles[count - 1],
                count - 1,
                generation,
                limits,
            ),
            Err(error) => Err(error),
        }
    }
}

/// Admission after every circle and rectangle and the first `count` lines.
pub open spec fn lines_state(
    circles: Seq<WorldSource>,
    rectangles: Seq<WorldSource>,
    lines: Seq<LineSource>,
    generation: WorldGeneration,
    limits: WorldLimits,
    count: int,
) -> Result<WorldState, WorldExtractionError>
    decreases count,
{
    if count <= 0 {
        rectangles_state(circles, rectangles, generation, limits, rectangles.len() as int)
    } else {
        match lines_state(circles, rectangles, lines, generation, limits, count - 1) {
            Ok(state) => line_step(state, lines[count - 1], count - 1, generation, limits),
            Err(error) => Err(error),
        }
    }
}

/// Admission of a whole world snapshot: circles, then rectangles, then
/// lines, each in source order; the first rejection ends it.
pub open spec fn world_admission_state(
    circles: Seq<WorldSource>,
    rectangles: Seq<WorldSource>,
    lines: Seq<LineSource>,
    generation: WorldGeneration,
    limits: WorldLimits,
) -> Result<WorldState, WorldExtractionError> {
    lines_state(circles, rectangles, lines, generation, limits, lines.len() as int)
}

proof fn lemma_circles_error_persists(
    circles: Seq<WorldSource>,
    generation: WorldGeneration,
    limits: WorldLimits,
    count: int,
    later: int,
)
    requires
        0 <= count <= later,
        circles_state(circles, generation, limits, count) is Err,
    ensures
        circles_state(circles, generation, limits, later) == circles_state(
            circles,
            generation,
            limits,
            count,
        ),
    decreases later - count,
{
    if later > count {
        lemma_circles_error_persists(circles, generation, limits, count, later - 1);
    }
}

proof fn lemma_rectangles_error_persists(
    circles: Seq<WorldSource>,
    rectangles: Seq<WorldSource>,
    generation: WorldGeneration,
    limits: WorldLimits,
    count: int,
    later: int,
)
    requires
        0 <= count <= later,
        rectangles_state(circles, rectangles, generation, limits, count) is Err,
    ensures
        rectangles_state(circles, rectangles, generation, limits, later) == rectangles_state(
            circles,
            rectangles,
            generation,
            limits,
            count,
        ),
    decreases later - count,
{
    if later > count {
        lemma_rectangles_error_persists(circles, rectangles, generation, limits, count, later - 1);
    }
}

proof fn lemma_lines_error_persists(
    circles: Seq<WorldSource>,
    rectangles: Seq<WorldSource>,
    lines: Seq<LineSource>,
    generation: WorldGeneration,
    limits: WorldLimits,
    count: int,
    later: int,
)
    requires
        0 <= count <= later,
        lines_state(circles, rectangles, lines, generation, limits, count) is Err,
    ensures
        lines_state(circles, rectangles, lines, generation, limits, later) == lines_state(
            circles,
            rectangles,
            lines,
            generation,
            limits,
            count,
        ),
    decreases later - count,
{
    if later > count {
        lemma_lines_error_persists(circles, rectangles, lines, generation, limits, count, later - 1);
    }
}

/// The failure to reserve one more admitted index.
pub open spec fn world_allocation_failure() -> WorldExtractionError {
    WorldExtractionError::AllocationFailed {
        requested_bytes: vstd::layout::size_of::<usize>() as usize,
    }
}

/// Admission reached a source without a rejection and that source is
/// admitted and drawn: the points where one more index is reserved.
pub open spec fn world_reserves_at(
    circles: Seq<WorldSource>,
    rectangles: Seq<WorldSource>,
    lines: Seq<LineSource>,
    generation: WorldGeneration,
    limits: WorldLimits,
    kind: int,
    k: int,
) -> bool {
    if kind == 0 {
        &&& 0 <= k < circles.len()
        &&& circles_state(circles, generation, limits, k) is Ok
        &&& circle_step(
            circles_state(circles, generation, limits, k)->Ok_0,
            circles[k],
            k,
            generation,
            limits,
        ) is Ok
    } else if kind == 1 {
        &&& 0 <= k < rectangles.len()
        &&& rectangles_state(circles, rectangles, generation, limits, k) is Ok
        &&& rectangle_step(
            rectangles_state(circles, rectangles, generation, limits, k)->Ok_0,
            rectangles[k],
            k,
            generation,
            limits,
        ) is Ok
    } else {
        &&& 0 <= k < lines.len()
        &&& lines_state(circles, rectangles, lines, generation, limits, k) is Ok
        &&& !lines[k].zero_length
        &&& line_step(
            lines_state(circles, rectangles, lines, generation, limits, k)->Ok_0,
            lines[k],
            k,
            generation,
            limits,
        ) is Ok
    }
}

/// An allocation failure arises only where an index is reserved.
pub open spec fn world_allocation_point(
    circles: Seq<WorldSource>,
    rectangles: Seq<WorldSource>,
    lines: Seq<LineSource>,
    generation: WorldGeneration,
    limits: WorldLimits,
) -> bool {
    exists|kind: int, k: int| #[trigger]
        world_reserves_at(circles, rectangles, lines, generation, limits, kind, k)
}

fn push_index(indices: &mut Vec<usize>, index: usize) -> (result: Result<(), WorldExtractionError>)
    ensures
        result is Ok ==> final(indices)@ == old(indices)@.push(index),
        result is Err ==> result == Err::<(), WorldExtractionError>(world_allocation_failure()),
{
    if indices.try_reserve(1).is_err() {
        return Err(
            WorldExtractionError::AllocationFailed { requested_bytes: core::mem::size_of::<usize>() },
        );
    }
    indices.push(index);
    Ok(())
}

/// The painter orders of a source list.
pub open spec fn world_orders(sources: Seq<WorldSource>) -> Seq<VisualOrder> {
    sources.map_values(|source: WorldSource| source.order)
}

/// The painter orders of a line list.
pub open spec fn line_orders(sources: Seq<LineSource>) -> Seq<VisualOrder> {
    sources.map_values(|source: LineSource| source.order)
}

/// Every index names a key.
pub open spec fn keys_in_bounds(ids: Seq<usize>, orders: Seq<VisualOrder>) -> bool {
    forall|k: int| 0 <= k < ids.len() ==> #[trigger] ids[k] < orders.len()
}

/// The indexed keys are in nondecreasing painter order.
pub open spec fn sorted_by_keys(ids: Seq<usize>, orders: Seq<VisualOrder>) -> bool {
    forall|a: int, b: int|
        0 <= a <= b < ids.len() ==> order_le(
            orders[#[trigger] ids[a] as int],
            orders[#[trigger] ids[b] as int],
        )
}

pub fn sort_by_painter_order(ids: &Vec<usize>, orders: &[VisualOrder]) -> (sorted: Vec<usize>)
    requires
        keys_in_bounds(ids@, orders@),
    ensures
        sorted@.to_multiset() == ids@.to_multiset(),
        sorted_by_keys(sorted@, orders@),
        keys_in_bounds(sorted@, orders@),
{
    broadcast use vstd::seq_lib::to_multiset_insert;

    let mut sorted: Vec<usize> = Vec::new();
    let mut k: usize = 0;
    proof {
        assert(ids@.take(0) =~= Seq::<usize>::empty());
        assert(sorted@ =~= Seq::<usize>::empty());
    }
    while k < ids.len()
        invariant
            k <= ids@.len(),
            keys_in_bounds(ids@, orders@),
            keys_in_bounds(sorted@, orders@),
            sorted@.to_multiset() == ids@.take(k as int).to_multiset(),
            sorted_by_keys(sorted@, orders@),
        decreases ids@.len() - k,
    {
        let id = ids[k];
        let key = orders[id];
        // Insert after every source that does not follow it.
        let mut position: usize = 0;
        while position < sorted.len() && crate::draw_plan::visual_order_le(
            &orders[sorted[position]],
            &key,
        )
            invariant
                position <= sorted@.len(),
                keys_in_bounds(sorted@, orders@),
                id < orders@.len(),
                key == orders@[id as int],
                forall|j: int|
                    0 <= j < position ==> order_le(
                        (orders@[#[trigger] sorted@[j] as int]),
                        key,
                    ),
                sorted_by_keys(sorted@, orders@),
            decreases sorted@.len() - position,
        {
            position += 1;
        }
        let ghost before = sorted@;
        sorted.insert(position, id);
        proof {
            assert(ids@.take(k + 1) =~= ids@.take(k as int).push(id));
            vstd::seq_lib::to_multiset_build(ids@.take(k as int), id);
            assert(sorted@ == before.insert(position as int, id));
            vstd::seq_lib::to_multiset_insert(before, position as int, id);
            assert(sorted@.to_multiset() == ids@.take(k + 1).to_multiset());
            before.insert_ensures(position as int, id);
            assert forall|a: int, b: int| 0 <= a <= b < sorted@.len() implies order_le(
                (orders@[#[trigger] sorted@[a] as int]),
                (orders@[#[trigger] sorted@[b] as int]),
            ) by {
                let p = position as int;
                if a < p && b < p {
                    assert(sorted@[a] == before[a] && sorted@[b] == before[b]);
                } else if a < p && b == p {
                    assert(sorted@[a] == before[a]);
                } else if a < p && b > p {
                    assert(sorted@[a] == before[a] && sorted@[b] == before[b - 1]);
                    assert(order_le(
                        (orders@[before[a] as int]),
                        (orders@[before[b - 1] as int]),
                    ));
                } else if a == p && b == p {
                } else if a == p && b > p {
                    assert(sorted@[b] == before[b - 1]);
                    // The element now after the insertion point follows the key.
                    assert(!order_le((orders@[before[p] as int]), key));
                    assert(order_le(
                        (orders@[before[p] as int]),
                        (orders@[before[b - 1] as int]),
                    ));
                } else {
                    assert(sorted@[a] == before[a - 1] && sorted@[b] == before[b - 1]);
                    assert(order_le(
                        (orders@[before[a - 1] as int]),
                        (orders@[before[b - 1] as int]),
                    ));
                }
            }
        }
        k += 1;
    }
    proof {
        assert(ids@.take(ids@.len() as int) =~= ids@);
    }
    sorted
}

fn circle_orders(sources: &[WorldSource]) -> (orders: Vec<VisualOrder>)
    ensures
        orders@ == world_orders(sources@),
{
    let mut orders: Vec<VisualOrder> = Vec::new();
    let mut k: usize = 0;
    while k < sources.len()
        invariant
            k <= sources@.len(),
            orders@ == world_orders(sources@.take(k as int)),
        decreases sources@.len() - k,
    {
        orders.push(sources[k].order);
        proof {
            assert(sources@.take(k + 1) =~= sources@.take(k as int).push(sources@[k as int]));
            assert(world_orders(sources@.take(k + 1)) =~= world_orders(sources@.take(k as int)).push(
                sources@[k as int].order,
            ));
        }
        k += 1;
    }
    proof {
        assert(sources@.take(sources@.len() as int) =~= sources@);
    }
    orders
}

fn segment_orders(sources: &[LineSource]) -> (orders: Vec<VisualOrder>)
    ensures
        orders@ == line_orders(sources@),
{
    let mut orders: Vec<VisualOrder> = Vec::new();
    let mut k: usize = 0;
    while k < sources.len()
        invariant
            k <= sources@.len(),
            orders@ == line_orders(sources@.take(k as int)),
        decreases sources@.len() - k,
    {
        orders.push(sources[k].order);
        proof {
            assert(sources@.take(k + 1) =~= sources@.take(k as int).push(sources@[k as int]));
            assert(line_orders(sources@.take(k + 1)) =~= line_orders(sources@.take(k as int)).push(
                sources@[k as int].order,
            ));
        }
        k += 1;
    }
    proof {
        assert(sources@.take(sources@.len() as int) =~= sources@);
    }
    orders
}

/// What admitting the given sources gives back: on success the admitted
/// indices of each kind, in painter order; on failure the first rejection in
/// source order, or an allocation failure at the point where storage is
/// reserved.
pub open spec fn world_admission_outcome(
    r: Result<WorldAdmission, WorldExtractionError>,
    circles: Seq<WorldSource>,
    rectangles: Seq<WorldSource>,
    lines: Seq<LineSource>,
    generation: WorldGeneration,
    limits: WorldLimits,
) -> bool {
    match r {
        Ok(admission) => {
            &&& world_admission_state(circles, rectangles, lines, generation, limits) matches Ok(
                (admitted_circles, admitted_rectangles, drawn_lines, _),
            )
            &&& admission.circles@.to_multiset() == admitted_circles.to_multiset()
            &&& admission.rectangles@.to_multiset() == admitted_rectangles.to_multiset()
            &&& admission.lines@.to_multiset() == drawn_lines.to_multiset()
            &&& sorted_by_keys(admission.circles@, world_orders(circles))
            &&& sorted_by_keys(admission.rectangles@, world_orders(rectangles))
            &&& sorted_by_keys(admission.lines@, line_orders(lines))
        },
        Err(error) => {
            ||| world_admission_state(circles, rectangles, lines, generation, limits)
                == Err::<WorldState, WorldExtractionError>(error)
            ||| error == world_allocation_failure() && world_allocation_point(
                circles,
                rectangles,
                lines,
                generation,
                limits,
            )
        },
    }
}

/// The camera rule of a frame: exactly one camera must be marked for
/// extraction.
pub open spec fn camera_rule(active_cameras: usize) -> Result<(), WorldExtractionError> {
    if active_cameras == 0 {
        Err(WorldExtractionError::MissingActiveCamera)
    } else if active_cameras > 1 {
        Err(WorldExtractionError::MultipleActiveCameras)
    } else {
        Ok(())
    }
}

/// Checks that exactly one camera is marked for extraction.
pub fn check_active_cameras(active_cameras: usize) -> (r: Result<(), WorldExtractionError>)
    ensures
        r == camera_rule(active_cameras),
{
    if active_cameras == 0 {
        Err(WorldExtractionError::MissingActiveCamera)
    } else if active_cameras > 1 {
        Err(WorldExtractionError::MultipleActiveCameras)
    } else {
        Ok(())
    }
}

/// Admits a world frame: first the camera rule, then the sources as
/// `admit_world_sources` does.
pub fn admit_world_frame(
    active_cameras: usize,
    generation: WorldGeneration,
    limits: WorldLimits,
    circles: &[WorldSource],
    rectangles: &[WorldSource],
    lines: &[LineSource],
) -> (r: Result<WorldAdmission, WorldExtractionError>)
    ensures
        camera_rule(active_cameras) matches Err(error) ==> r == Err::<
            WorldAdmission,
            WorldExtractionError,
        >(error),
        camera_rule(active_cameras) is Ok ==> world_admission_outcome(
            r,
            circles@,
            rectangles@,
            lines@,
            generation,
            limits,
        ),
        camera_rule(active_cameras) is Ok && circles@.len() == 0 && rectangles@.len() == 0
            && lines@.len() == 0 ==> r is Ok,
{
    check_active_cameras(active_cameras)?;
    admit_world_sources(generation, limits, circles, rectangles, lines)
}

/// Admits a world snapshot: circles, then rectangles, then lines, each in
/// source order, stopping at the first rejection; then sorts each kind into
/// painter order. Zero-length lines count against the line cap but are not
/// drawn. With no source at all nothing is reserved and the call succeeds.
pub fn admit_world_sources(
    generation: WorldGeneration,
    limits: WorldLimits,
    circles: &[WorldSource],
    rectangles: &[WorldSource],
    lines: &[LineSource],
) -> (r: Result<WorldAdmission, WorldExtractionError>)
    ensures
        world_admission_outcome(r, circles@, rectangles@, lines@, generation, limits),
        circles@.len() == 0 && rectangles@.len() == 0 && lines@.len() == 0 ==> r is Ok,
{
    let mut admitted_circles: Vec<usize> = Vec::new();
    let mut admitted_rectangles: Vec<usize> = Vec::new();
    let mut drawn_lines: Vec<usize> = Vec::new();
    let mut seen: usize = 0;
    let mut k: usize = 0;
    while k < circles.len()
        invariant
            k <= circles@.len(),
            circles_state(circles@, generation, limits, k as int) == Ok::<
                WorldState,
                WorldExtractionError,
            >((admitted_circles@, admitted_rectangles@, drawn_lines@, seen as int)),
            keys_in_bounds(admitted_circles@, world_orders(circles@)),
        decreases circles@.len() - k,
    {
        let source = circles[k];
        let step: Result<(), WorldExtractionError> = if source.entity.world_generation()
            != generation {
            Err(WorldExtractionError::ForeignEntity { entity: source.entity, expected: generation })
        } else if admitted_circles.len() == limits.max_circles {
            Err(WorldExtractionError::CircleLimitExceeded { limit: limits.max_circles })
        } else if admitted_circles.len() == limits.max_commands {
            Err(
                WorldExtractionError::CommandLimitExceeded {
                    limit: limits.max_commands,
                    requested: admitted_circles.len().saturating_add(1),
                },
            )
        } else if !source.valid {
            Err(WorldExtractionError::InvalidVisual { entity: source.entity })
        } else if !source.interpolated {
            Err(WorldExtractionError::InvalidInterpolatedTranslation { entity: source.entity })
        } else {
            match push_index(&mut admitted_circles, k) {
                Ok(()) => Ok(()),
                Err(error) => {
                    proof {
                        assert(world_reserves_at(
                            circles@,
                            rectangles@,
                            lines@,
                            generation,
                            limits,
                            0,
                            k as int,
                        ));
                    }
                    return Err(error);
                },
            }
        };
        if let Err(error) = step {
            proof {
                lemma_circles_error_persists(
                    circles@,
                    generation,
                    limits,
                    k + 1,
                    circles@.len() as int,
                );
                lemma_rectangles_error_persists(
                    circles@,
                    rectangles@,
                    generation,
                    limits,
                    0,
                    rectangles@.len() as int,
                );
                lemma_lines_error_persists(
                    circles@,
                    rectangles@,
                    lines@,
                    generation,
                    limits,
                    0,
                    lines@.len() as int,
                );
            }
            return Err(error);
        }
        k += 1;
    }
    let mut k: usize = 0;
    while k < rectangles.len()
        invariant
            k <= rectangles@.len(),
            rectangles_state(circles@, rectangles@, generation, limits, k as int) == Ok::<
                WorldState,
                WorldExtractionError,
            >((admitted_circles@, admitted_rectangles@, drawn_lines@, seen as int)),
            keys_in_bounds(admitted_circles@, world_orders(circles@)),
            keys_in_bounds(admitted_rectangles@, world_orders(rectangles@)),
        decreases rectangles@.len() - k,
    {
        let source = rectangles[k];
        let retained = admitted_circles.len().saturating_add(admitted_rectangles.len());
        let step: Result<(), WorldExtractionError> = if source.entity.world_generation()
            != generation {
            Err(WorldExtractionError::ForeignEntity { entity: source.entity, expected: generation })
        } else if admitted_rectangles.len() == limits.max_rectangles {
            Err(WorldExtractionError::RectangleLimitExceeded { limit: limits.max_rectangles })
        } else if retained == limits.max_commands {
            Err(
                WorldExtractionError::CommandLimitExceeded {
                    limit: limits.max_commands,
                    requested: retained.saturating_add(1),
                },
            )
        } else if !source.valid {
            Err(WorldExtractionError::InvalidVisual { entity: source.entity })
        } else if !source.interpolated {
            Err(WorldExtractionError::InvalidInterpolatedTranslation { entity: source.entity })
        } else if !source.resolved {
            Err(WorldExtractionError::InvalidResolvedRectangle { entity: source.entity })
        } else {
            match push_index(&mut admitted_rectangles, k) {
                Ok(()) => Ok(()),
                Err(error) => {
                    proof {
                        assert(world_reserves_at(
                            circles@,
                            rectangles@,
                            lines@,
                            generation,
                            limits,
                            1,
                            k as int,
                        ));
                    }
                    return Err(error);
                },
            }
        };
        if let Err(error) = step {
            proof {
                lemma_rectangles_error_persists(
                    circles@,
                    rectangles@,
                    generation,
                    limits,
                    k + 1,
                    rectangles@.len() as int,
                );
                lemma_lines_error_persists(
                    circles@,
                    rectangles@,
                    lines@,
                    generation,
                    limits,
                    0,
                    lines@.len() as int,
                );
            }
            return Err(error);
        }
        k += 1;
    }
    let mut k: usize = 0;
    while k < lines.len()
        invariant
            k <= lines@.len(),
            lines_state(circles@, rectangles@, lines@, generation, limits, k as int) == Ok::<
                WorldState,
                WorldExtractionError,
            >((admitted_circles@, admitted_rectangles@, drawn_lines@, seen as int)),
            seen <= k,
            keys_in_bounds(admitted_circles@, world_orders(circles@)),
            keys_in_bounds(admitted_rectangles@, world_orders(rectangles@)),
            keys_in_bounds(drawn_lines@, line_orders(lines@)),
        decreases lines@.len() - k,
    {
        let source = lines[k];
        let step: Result<(), WorldExtractionError> = if source.entity.world_generation()
            != generation {
            Err(WorldExtractionError::ForeignEntity { entity: source.entity, expected: generation })
        } else if seen == limits.max_lines {
            Err(WorldExtractionError::LineLimitExceeded { limit: limits.max_lines })
        } else if !source.valid {
            Err(WorldExtractionError::InvalidVisual { entity: source.entity })
        } else if source.zero_length {
            seen = seen + 1;
            Ok(())
        } else {
            let retained = admitted_circles.len().saturating_add(admitted_rectangles.len()).saturating_add(
                drawn_lines.len(),
            );
            if retained == limits.max_commands {
                Err(
                    WorldExtractionError::CommandLimitExceeded {
                        limit: limits.max_commands,
                        requested: retained.saturating_add(1),
                    },
                )
            } else if !source.interpolated {
                Err(WorldExtractionError::InvalidInterpolatedTranslation { entity: source.entity })
            } else if !source.resolved {
                Err(WorldExtractionError::InvalidResolvedLine { entity: source.entity })
            } else {
                match push_index(&mut drawn_lines, k) {
                    Ok(()) => {
                        seen = seen + 1;
                        Ok(())
                    },
                    Err(error) => {
                        proof {
                            assert(world_reserves_at(
                                circles@,
                                rectangles@,
                                lines@,
                                generation,
                                limits,
                                2,
                                k as int,
                            ));
                        }
                        return Err(error);
                    },
                }
            }
        };
        if let Err(error) = step {
            proof {
                lemma_lines_error_persists(
                    circles@,
                    rectangles@,
                    lines@,
                    generation,
                    limits,
                    k + 1,
                    lines@.len() as int,
                );
            }
            return Err(error);
        }
        k += 1;
    }
    let circle_keys = circle_orders(circles);
    let rectangle_keys = circle_orders(rectangles);
    let line_keys = segment_orders(lines);
    let circles_sorted = sort_by_painter_order(&admitted_circles, &circle_keys);
    let rectangles_sorted = sort_by_painter_order(&admitted_rectangles, &rectangle_keys);
    let lines_sorted = sort_by_painter_order(&drawn_lines, &line_keys);
    Ok(WorldAdmission { circles: circles_sorted, rectangles: rectangles_sorted, lines: lines_sorted })
}


/// An admission state within every cap.
pub open spec fn within_caps(state: WorldState, limits: WorldLimits) -> bool {
    let (circles, rects, lines, seen) = state;
    &&& circles.len() <= limits.max_circles
    &&& rects.len() <= limits.max_rectangles
    &&& seen <= limits.max_lines
    &&& lines.len() <= seen
    &&& circles.len() + rects.len() + lines.len() <= limits.max_commands
}

proof fn lemma_circles_within_caps(
    circles: Seq<WorldSource>,
    generation: WorldGeneration,
    limits: WorldLimits,
    count: int,
)
    requires
        circles_state(circles, generation, limits, count) is Ok,
    ensures
        within_caps(circles_state(circles, generation, limits, count)->Ok_0, limits),
        circles_state(circles, generation, limits, count)->Ok_0.1.len() == 0,
        circles_state(circles, generation, limits, count)->Ok_0.2.len() == 0,
        circles_state(circles, generation, limits, count)->Ok_0.3 == 0,
    decreases count,
{
    if count > 0 {
        lemma_circles_within_caps(circles, generation, limits, count - 1);
    }
}

proof fn lemma_rectangles_within_caps(
    circles: Seq<WorldSource>,
    rectangles: Seq<WorldSource>,
    generation: WorldGeneration,
    limits: WorldLimits,
    count: int,
)
    requires
        rectangles_state(circles, rectangles, generation, limits, count) is Ok,
    ensures
        within_caps(rectangles_state(circles, rectangles, generation, limits, count)->Ok_0, limits),
        rectangles_state(circles, rectangles, generation, limits, count)->Ok_0.2.len() == 0,
        rectangles_state(circles, rectangles, generation, limits, count)->Ok_0.3 == 0,
    decreases count,
{
    if count > 0 {
        lemma_rectangles_within_caps(circles, rectangles, generation, limits, count - 1);
    } else {
        lemma_circles_within_caps(circles, generation, limits, circles.len() as int);
    }
}

proof fn lemma_lines_within_caps(
    circles: Seq<WorldSource>,
    rectangles: Seq<WorldSource>,
    lines: Seq<LineSource>,
    generation: WorldGeneration,
    limits: WorldLimits,
    count: int,
)
    requires
        lines_state(circles, rectangles, lines, generation, limits, count) is Ok,
    ensures
        within_caps(lines_state(circles, rectangles, lines, generation, limits, count)->Ok_0, limits),
    decreases count,
{
    if count > 0 {
        lemma_lines_within_caps(circles, rectangles, lines, generation, limits, count - 1);
    } else {
        lemma_rectangles_within_caps(circles, rectangles, generation, limits, rectangles.len() as int);
    }
}

/// Law: an admitted world snapshot never exceeds a cap: circles,
/// rectangles and line sources (drawn or not) each within their own cap,
/// drawn lines no more than line sources, and everything drawn within the
/// world scene's command cap.
pub proof fn world_admission_respects_caps(
    circles: Seq<WorldSource>,
    rectangles: Seq<WorldSource>,
    lines: Seq<LineSource>,
    generation: WorldGeneration,
    limits: WorldLimits,
)
    requires
        world_admission_state(circles, rectangles, lines, generation, limits) is Ok,
    ensures
        within_caps(world_admission_state(circles, rectangles, lines, generation, limits)->Ok_0, limits),
{
    lemma_lines_within_caps(circles, rectangles, lines, generation, limits, lines.len() as int);
}

/// A circle may be drawn: it belongs to the extracted generation, its visual
/// is valid and its interpolated position is finite.
pub open spec fn circle_is_drawable(source: WorldSource, generation: WorldGeneration) -> bool {
    &&& source.entity.spec_world_generation() == generation
    &&& source.valid
    &&& source.interpolated
}

/// A rectangle may be drawn: like a circle, and its bounds are
/// representable.
pub open spec fn rectangle_is_drawable(source: WorldSource, generation: WorldGeneration) -> bool {
    &&& circle_is_drawable(source, generation)
    &&& source.resolved
}

/// A line may be drawn or skipped: it belongs to the extracted generation
/// and its visual is valid; unless it has zero length, its anchor is finite
/// and its segment representable.
pub open spec fn line_is_acceptable(source: LineSource, generation: WorldGeneration) -> bool {
    &&& source.entity.spec_world_generation() == generation
    &&& source.valid
    &&& !source.zero_length ==> source.interpolated && source.resolved
}

proof fn lemma_circles_drawable(
    circles: Seq<WorldSource>,
    generation: WorldGeneration,
    limits: WorldLimits,
    count: int,
)
    requires
        0 <= count <= circles.len(),
        circles_state(circles, generation, limits, count) is Ok,
    ensures
        forall|j: int| 0 <= j < count ==> circle_is_drawable(#[trigger] circles[j], generation),
    decreases count,
{
    if count > 0 {
        lemma_circles_drawable(circles, generation, limits, count - 1);
    }
}

proof fn lemma_rectangles_drawable(
    circles: Seq<WorldSource>,
    rectangles: Seq<WorldSource>,
    generation: WorldGeneration,
    limits: WorldLimits,
    count: int,
)
    requires
        0 <= count <= rectangles.len(),
        rectangles_state(circles, rectangles, generation, limits, count) is Ok,
    ensures
        forall|j: int| 0 <= j < circles.len() ==> circle_is_drawable(#[trigger] circles[j], generation),
        forall|j: int|
            0 <= j < count ==> rectangle_is_drawable(#[trigger] rectangles[j], generation),
    decreases count,
{
    if count > 0 {
        lemma_rectangles_drawable(circles, rectangles, generation, limits, count - 1);
    } else {
        lemma_circles_drawable(circles, generation, limits, circles.len() as int);
    }
}

proof fn lemma_lines_acceptable(
    circles: Seq<WorldSource>,
    rectangles: Seq<WorldSource>,
    lines: Seq<LineSource>,
    generation: WorldGeneration,
    limits: WorldLimits,
    count: int,
)
    requires
        0 <= count <= lines.len(),
        lines_state(circles, rectangles, lines, generation, limits, count) is Ok,
    ensures
        forall|j: int| 0 <= j < circles.len() ==> circle_is_drawable(#[trigger] circles[j], generation),
        forall|j: int|
            0 <= j < rectangles.len() ==> rectangle_is_drawable(#[trigger] rectangles[j], generation),
        forall|j: int| 0 <= j < count ==> line_is_acceptable(#[trigger] lines[j], generation),
    decreases count,
{
    if count > 0 {
        lemma_lines_acceptable(circles, rectangles, lines, generation, limits, count - 1);
    } else {
        lemma_rectangles_drawable(circles, rectangles, generation, limits, rectangles.len() as int);
    }
}

/// Law: a world snapshot is admitted only when every one of its sources
/// passed every check: each circle and rectangle belongs to the extracted
/// generation, has a valid visual and a finite interpolated position, each
/// rectangle has representable bounds, and each line belongs to the
/// generation, has a valid visual and, unless it has zero length, a finite
/// anchor and a representable segment. So no admitted index ever names an
/// invalid, foreign or unresolved source.
pub proof fn admitted_worlds_hold_only_checked_sources(
    circles: Seq<WorldSource>,
    rectangles: Seq<WorldSource>,
    lines: Seq<LineSource>,
    generation: WorldGeneration,
    limits: WorldLimits,
)
    requires
        world_admission_state(circles, rectangles, lines, generation, limits) is Ok,
    ensures
        forall|j: int| 0 <= j < circles.len() ==> circle_is_drawable(#[trigger] circles[j], generation),
        forall|j: int|
            0 <= j < rectangles.len() ==> rectangle_is_drawable(#[trigger] rectangles[j], generation),
        forall|j: int| 0 <= j < lines.len() ==> line_is_acceptable(#[trigger] lines[j], generation),
{
    lemma_lines_acceptable(circles, rectangles, lines, generation, limits, lines.len() as int);
}

} // verus!
