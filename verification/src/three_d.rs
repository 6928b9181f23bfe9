//! Independent 3D work caps checked before any GPU work, the byte
//! allowances of overlapping mesh replacement, and the source bookkeeping of
//! retained scene slots.

use vstd::prelude::*;
use vstd::std_specs::cmp::PartialEqSpec;
use crate::limits::{ThreeDLimitResource, ThreeDRenderLimits};
use crate::identity::{LogicEntity, WorldGeneration};
use crate::storage::{vec_capacity, vec_try_reserve_exact};

verus! {

/// Surface triangles of one cuboid.
pub const CUBOID_TRIANGLES: u64 = 12;

/// A 3D CPU snapshot could not be produced within its frozen caps.
#[derive(Debug, Clone, Copy, PartialEq, Eq, Structural)]
pub enum ThreeDExtractionError {
    /// A visible object belonged to a different world or application.
    StaleEntity {
        /// Rejected managed source.
        source: LogicEntity,
    },
    /// A visible cuboid could not be represented by portable geometry.
    InvalidCuboid {
        /// Managed source whose geometry failed validation.
        source: LogicEntity,
    },
    /// A configured independent 3D work cap was exceeded.
    LimitExceeded {
        /// Resource that would exceed its cap.
        resource: ThreeDLimitResource,
        /// Work requested by this snapshot.
        requested: u64,
        /// Frozen application cap.
        limit: u64,
    },
    /// Bounded CPU metadata storage could not be reserved.
    AllocationFailed {
        /// Minimum additional requested allocation bytes.
        requested_bytes: usize,
    },
}

/// A desktop 3D pass could not be prepared within its caps.
#[derive(Debug, Clone, Copy, PartialEq, Eq, Structural)]
pub enum DesktopThreeDError {
    /// An independent 3D allowance was exceeded before preparing GPU resources.
    LimitExceeded {
        /// Resource exceeding its frozen cap.
        resource: ThreeDLimitResource,
        /// Requested resource count.
        requested: u64,
        /// Frozen maximum count.
        limit: u64,
    },
    /// Bounded mesh or scene metadata allocation failed.
    AllocationFailed {
        /// Minimum additional requested bytes.
        requested_bytes: usize,
    },
    /// Private retained cache state was inconsistent.
    InvalidCache,
    /// The surface format or target byte count could not be represented.
    InvalidTargetLayout,
}

/// Rejects `requested` when it exceeds `limit`.
pub fn check_limit(resource: ThreeDLimitResource, requested: usize, limit: usize) -> (result:
    Result<(), ThreeDExtractionError>)
    ensures
        requested <= limit ==> result is Ok,
        requested > limit ==> result == Err::<(), ThreeDExtractionError>(
            ThreeDExtractionError::LimitExceeded {
                resource,
                requested: requested as u64,
                limit: limit as u64,
            },
        ),
{
    if requested > limit {
        return Err(
            ThreeDExtractionError::LimitExceeded {
                resource,
                requested: requested as u64,
                limit: limit as u64,
            },
        );
    }
    Ok(())
}

/// Adds `additional` to a running total and checks the sum against `limit`.
/// An overflowing sum is reported as a request of `u64::MAX`.
pub fn checked_sum(
    current: usize,
    additional: usize,
    resource: ThreeDLimitResource,
    limit: usize,
) -> (result: Result<usize, ThreeDExtractionError>)
    ensures
        current + additional <= limit ==> result == Ok::<usize, ThreeDExtractionError>(
            (current + additional) as usize,
        ),
        limit < current + additional <= usize::MAX ==> result == Err::<
            usize,
            ThreeDExtractionError,
        >(
            ThreeDExtractionError::LimitExceeded {
                resource,
                requested: (current + additional) as u64,
                limit: limit as u64,
            },
        ),
        current + additional > usize::MAX ==> result == Err::<usize, ThreeDExtractionError>(
            ThreeDExtractionError::LimitExceeded {
                resource,
                requested: u64::MAX,
                limit: limit as u64,
            },
        ),
{
    let sum = match current.checked_add(additional) {
        Some(sum) => sum,
        None => {
            return Err(
                ThreeDExtractionError::LimitExceeded {
                    resource,
                    requested: u64::MAX,
                    limit: limit as u64,
                },
            );
        },
    };
    match check_limit(resource, sum, limit) {
        Ok(()) => Ok(sum),
        Err(error) => Err(error),
    }
}

/// The prepass decision: the first cap, in the order cuboids, triangles,
/// target pixels, that the request exceeds. A triangle count that does not
/// fit in `u64` is reported first, as a request of `u64::MAX`.
pub open spec fn spec_check_limits(count: usize, width: u32, height: u32, limits:
    ThreeDRenderLimits) -> Result<(), DesktopThreeDError> {
    if count * 12 > u64::MAX {
        Err(
            DesktopThreeDError::LimitExceeded {
                resource: ThreeDLimitResource::Triangles,
                requested: u64::MAX,
                limit: limits.spec_max_triangles() as u64,
            },
        )
    } else if count > limits.spec_max_cuboids() {
        Err(
            DesktopThreeDError::LimitExceeded {
                resource: ThreeDLimitResource::Cuboids,
                requested: count as u64,
                limit: limits.spec_max_cuboids() as u64,
            },
        )
    } else if count * 12 > limits.spec_max_triangles() {
        Err(
            DesktopThreeDError::LimitExceeded {
                resource: ThreeDLimitResource::Triangles,
                requested: (count * 12) as u64,
                limit: limits.spec_max_triangles() as u64,
            },
        )
    } else if width * height > limits.spec_max_target_pixels() {
        Err(
            DesktopThreeDError::LimitExceeded {
                resource: ThreeDLimitResource::TargetPixels,
                requested: (width * height) as u64,
                limit: limits.spec_max_target_pixels(),
            },
        )
    } else {
        Ok(())
    }
}

/// Checks the visible cuboid count and the target size against the frozen
/// 3D caps before any GPU work.
pub fn check_limits(count: usize, width: u32, height: u32, limits: ThreeDRenderLimits) -> (result:
    Result<(), DesktopThreeDError>)
    ensures
        result == spec_check_limits(count, width, height, limits),
{
    let count64 = count as u64;
    let triangles = match count64.checked_mul(CUBOID_TRIANGLES) {
        Some(triangles) => triangles,
        None => {
            return Err(
                DesktopThreeDError::LimitExceeded {
                    resource: ThreeDLimitResource::Triangles,
                    requested: u64::MAX,
                    limit: limits.max_triangles() as u64,
                },
            );
        },
    };
    if count64 > limits.max_cuboids() as u64 {
        return Err(
            DesktopThreeDError::LimitExceeded {
                resource: ThreeDLimitResource::Cuboids,
                requested: count64,
                limit: limits.max_cuboids() as u64,
            },
        );
    }
    if triangles > limits.max_triangles() as u64 {
        return Err(
            DesktopThreeDError::LimitExceeded {
                resource: ThreeDLimitResource::Triangles,
                requested: triangles,
                limit: limits.max_triangles() as u64,
            },
        );
    }
    assert((width as u64) * (height as u64) <= u64::MAX) by (nonlinear_arith);
    let pixels = (width as u64) * (height as u64);
    if pixels > limits.max_target_pixels() {
        return Err(
            DesktopThreeDError::LimitExceeded {
                resource: ThreeDLimitResource::TargetPixels,
                requested: pixels,
                limit: limits.max_target_pixels(),
            },
        );
    }
    Ok(())
}

/// The peak byte allowance of an overlapping replacement: twice the scene
/// ceiling, less what unrelated residents already hold.
pub open spec fn spec_aggregate_peak_allowance(limit: int, current: int, outgoing: int) -> int {
    let doubled = if 2 * limit > usize::MAX { usize::MAX as int } else { 2 * limit };
    let unrelated = if current > outgoing { current - outgoing } else { 0 };
    if doubled > unrelated { doubled - unrelated } else { 0 }
}

/// Peak allowance for replacing `outgoing` bytes while `current` bytes are
/// resident under a ceiling of `limit`; saturating at both ends.
pub fn aggregate_peak_allowance(limit: usize, current: usize, outgoing: usize) -> (allowance:
    usize)
    ensures
        allowance == spec_aggregate_peak_allowance(limit as int, current as int, outgoing as int),
{
    let doubled = match limit.checked_mul(2) {
        Some(doubled) => doubled,
        None => usize::MAX,
    };
    doubled.saturating_sub(current.saturating_sub(outgoing))
}

/// Whether a retained slot's source is the incoming source.
pub fn same_source<Id: PartialEq>(source: Id, incoming: Option<Id>) -> (same: bool)
    ensures
        incoming is None ==> !same,
        Id::obeys_eq_spec() ==> same == (incoming is Some && PartialEqSpec::eq_spec(
            &source,
            &incoming->0,
        )),
{
    match incoming {
        Some(incoming) => source == incoming,
        None => false,
    }
}

/// Index of the first visible slot whose complete handle equals `id`.
pub open spec fn is_first_visible_match<Id: PartialEq, S>(
    slots: Seq<(Id, S, bool)>,
    id: Id,
    k: int,
) -> bool {
    &&& 0 <= k < slots.len()
    &&& slots[k].2
    &&& PartialEqSpec::eq_spec(&slots[k].0, &id)
    &&& forall|j: int|
        0 <= j < k ==> !((#[trigger] slots[j]).2 && PartialEqSpec::eq_spec(&slots[j].0, &id))
}

/// The source of the first visible slot holding `id`, compared by the whole
/// handle and never by a diagnostic number.
pub fn find_object_source<Id: PartialEq, S: Copy>(id: &Id, slots: &[(Id, S, bool)]) -> (found:
    Option<S>)
    ensures
        Id::obeys_eq_spec() ==> (match found {
            Some(source) => exists|k: int|
                is_first_visible_match(slots@, *id, k) && #[trigger] slots@[k].1 == source,
            None => forall|k: int|
                0 <= k < slots@.len() ==> !((#[trigger] slots@[k]).2 && PartialEqSpec::eq_spec(
                    &slots@[k].0,
                    id,
                )),
        }),
{
    let mut index: usize = 0;
    while index < slots.len()
        invariant
            index <= slots@.len(),
            Id::obeys_eq_spec() ==> forall|j: int|
                0 <= j < index ==> !((#[trigger] slots@[j]).2 && PartialEqSpec::eq_spec(
                    &slots@[j].0,
                    id,
                )),
        decreases slots@.len() - index,
    {
        let (slot_id, source, visible) = &slots[index];
        if *visible && *slot_id == *id {
            proof {
                if Id::obeys_eq_spec() {
                    assert(is_first_visible_match(slots@, *id, index as int));
                }
            }
            return Some(*source);
        }
        index += 1;
    }
    None
}

/// Creates an empty vector with room for `capacity` values, or reports the
/// bytes it asked for. Whether the allocator grants the room decides which
/// of the two comes back, and the room itself is a capacity, which no
/// contract here describes: only the empty result and the exact error are
/// stated.
pub fn reserved<T>(capacity: usize) -> (result: Result<Vec<T>, DesktopThreeDError>)
    ensures
        match result {
            Ok(values) => values@.len() == 0,
            Err(error) => error == DesktopThreeDError::AllocationFailed {
                requested_bytes: if capacity * vstd::layout::size_of::<T>() > usize::MAX {
                    usize::MAX
                } else {
                    (capacity * vstd::layout::size_of::<T>()) as usize
                },
            },
        },
{
    let mut values: Vec<T> = Vec::new();
    if vec_try_reserve_exact(&mut values, capacity) {
        Ok(values)
    } else {
        let size = core::mem::size_of::<T>();
        let requested_bytes = match capacity.checked_mul(size) {
            Some(bytes) => bytes,
            None => usize::MAX,
        };
        Err(DesktopThreeDError::AllocationFailed { requested_bytes })
    }
}

/// Generated-topology ceilings of one 3D depth prepass.
#[derive(Debug, Clone, Copy, PartialEq, Eq, Structural)]
pub struct GeneratedBudget {
    /// Maximum generated clip-space vertices.
    pub vertices: usize,
    /// Maximum generated triangles.
    pub triangles: usize,
    /// Maximum generated upload bytes.
    pub upload_bytes: usize,
}

impl GeneratedBudget {
    /// Returns the maximum generated clip-space vertices.
    pub fn max_generated_vertices(self) -> (r: usize)
        ensures
            r == self.vertices,
    {
        self.vertices
    }

    /// Returns the maximum generated triangles.
    pub fn max_generated_triangles(self) -> (r: usize)
        ensures
            r == self.triangles,
    {
        self.triangles
    }

    /// Returns the maximum generated upload bytes.
    pub fn max_generated_upload_bytes(self) -> (r: usize)
        ensures
            r == self.upload_bytes,
    {
        self.upload_bytes
    }
}

/// Calls `Mesh3dRenderBudget::default` and reads its generated vertex,
/// triangle and upload ceilings; the crate's source builds the default from
/// exactly these three constants.
#[verifier::external_body]
fn engine_default_generated_limits() -> (limits: (usize, usize, usize))
    ensures
        limits == (1_048_575usize, 349_525usize, 16_777_200usize),
{
    let budget = sim_engine::Mesh3dRenderBudget::default();
    (
        budget.max_generated_vertices(),
        budget.max_generated_triangles(),
        budget.max_generated_upload_bytes(),
    )
}

/// Saturating subtraction of counts.
pub open spec fn sat_sub(a: int, b: int) -> int {
    if a > b { a - b } else { 0 }
}

/// Saturating product of counts.
pub open spec fn sat_mul(a: int, b: int) -> int {
    if a * b > usize::MAX { usize::MAX as int } else { a * b }
}

/// The generated-triangle allowance of `count` visible cuboids: room for
/// every cuboid but one to keep its retained triangles, capped by the
/// engine's default.
pub open spec fn spec_generated_triangles(count: int, max_triangles: int, engine_max: int) -> int {
    if count == 0 {
        0
    } else {
        let retained = sat_mul(sat_sub(count, 1), 12);
        let room = sat_sub(max_triangles, retained);
        if room < engine_max { room } else { engine_max }
    }
}

fn saturating_mul(a: usize, b: usize) -> (product: usize)
    ensures
        product == sat_mul(a as int, b as int),
{
    match a.checked_mul(b) {
        Some(product) => product,
        None => usize::MAX,
    }
}

/// The engine's generated-topology ceilings for a prepass of `count`
/// visible cuboids: the triangle allowance, three vertices per triangle
/// capped by the engine's default, and the engine's default upload ceiling.
pub fn engine_render_budget(count: usize, limits: ThreeDRenderLimits) -> (budget: GeneratedBudget)
    ensures
        budget.triangles == spec_generated_triangles(
            count as int,
            limits.spec_max_triangles() as int,
            349_525,
        ),
        budget.vertices == (if sat_mul(budget.triangles as int, 3) < 1_048_575 {
            sat_mul(budget.triangles as int, 3)
        } else {
            1_048_575
        }),
        budget.upload_bytes == 16_777_200,
{
    let (default_vertices, default_triangles, default_upload) = engine_default_generated_limits();
    let retained = saturating_mul(count.saturating_sub(1), 12);
    let triangles = if count == 0 {
        0
    } else {
        let room = limits.max_triangles().saturating_sub(retained);
        if room < default_triangles {
            room
        } else {
            default_triangles
        }
    };
    let tripled = saturating_mul(triangles, 3);
    let vertices = if tripled < default_vertices {
        tripled
    } else {
        default_vertices
    };
    GeneratedBudget { vertices, triangles, upload_bytes: default_upload }
}

/// Law: for any admitted cuboid count, however many cuboids cross the near
/// plane, the retained triangles of the others plus the generated allowance
/// stay within the triangle cap.
pub proof fn generated_allowance_keeps_the_triangle_cap(
    count: int,
    crossing: int,
    max_triangles: int,
    engine_max: int,
)
    requires
        1 <= crossing <= count,
        count * 12 <= max_triangles <= usize::MAX,
        0 <= engine_max,
    ensures
        (count - crossing) * 12 + spec_generated_triangles(count, max_triangles, engine_max)
            <= max_triangles,
{
}

/// Mesh upload allowances: the scene's aggregate ceilings (doubled while
/// replacing), less what the scene already holds, and capped by the source
/// allowance and the scene's GPU ceiling.
pub fn upload_allowance(
    limits: ThreeDRenderLimits,
    max_cpu_bytes: usize,
    max_gpu_bytes: usize,
    cpu_bytes: usize,
    gpu_bytes: usize,
    replacing: bool,
) -> (allowance: (usize, usize))
    ensures
        ({
            let overlap: int = if replacing { 2 } else { 1 };
            let cpu = sat_sub(sat_mul(max_cpu_bytes as int, overlap), cpu_bytes as int);
            let gpu = sat_sub(sat_mul(max_gpu_bytes as int, overlap), gpu_bytes as int);
            &&& allowance.0 == (if cpu < limits.spec_max_mesh_source_bytes() {
                cpu
            } else {
                limits.spec_max_mesh_source_bytes() as int
            })
            &&& allowance.1 == (if gpu < max_gpu_bytes { gpu } else { max_gpu_bytes as int })
        }),
{
    let overlap: usize = if replacing { 2 } else { 1 };
    let cpu = saturating_mul(max_cpu_bytes, overlap).saturating_sub(cpu_bytes);
    let gpu = saturating_mul(max_gpu_bytes, overlap).saturating_sub(gpu_bytes);
    let source_cap = limits.max_mesh_source_bytes();
    let cpu = if cpu < source_cap { cpu } else { source_cap };
    let gpu = if gpu < max_gpu_bytes { gpu } else { max_gpu_bytes };
    (cpu, gpu)
}

/// Bytes of a color target of `width` by `height` texels whose format copies
/// `bytes_per_texel` bytes per texel; a format without a fixed texel size, or
/// a byte count that `u64` or `usize` cannot hold, is an unrepresentable
/// layout.
pub fn color_target_bytes(width: u32, height: u32, bytes_per_texel: Option<u32>) -> (r: Result<
    usize,
    DesktopThreeDError,
>)
    ensures
        match bytes_per_texel {
            None => r == Err::<usize, DesktopThreeDError>(DesktopThreeDError::InvalidTargetLayout),
            Some(texel) => {
                let bytes = width * height * texel;
                if bytes <= u64::MAX && bytes <= usize::MAX {
                    r == Ok::<usize, DesktopThreeDError>(bytes as usize)
                } else {
                    r == Err::<usize, DesktopThreeDError>(DesktopThreeDError::InvalidTargetLayout)
                }
            },
        },
{
    let texel = match bytes_per_texel {
        Some(texel) => texel,
        None => return Err(DesktopThreeDError::InvalidTargetLayout),
    };
    proof {
        assert(width * height * texel == (width * height) * texel);
        assert(0 <= width * height <= 0xffff_ffffu64 * 0xffff_ffffu64) by (nonlinear_arith)
            requires
                0 <= width <= 0xffff_ffffu64,
                0 <= height <= 0xffff_ffffu64,
        ;
        assert((width * height) <= (width * height) * texel || texel == 0) by (nonlinear_arith)
            requires
                width * height >= 0,
                texel >= 0,
        ;
    }
    let pixels = match (width as u64).checked_mul(height as u64) {
        Some(pixels) => pixels,
        None => return Err(DesktopThreeDError::InvalidTargetLayout),
    };
    let bytes = match pixels.checked_mul(texel as u64) {
        Some(bytes) => bytes,
        None => return Err(DesktopThreeDError::InvalidTargetLayout),
    };
    if bytes > usize::MAX as u64 {
        return Err(DesktopThreeDError::InvalidTargetLayout);
    }
    Ok(bytes as usize)
}

/// Saturating sum of counts.
pub open spec fn sat_add(a: int, b: int) -> int {
    if a + b > usize::MAX { usize::MAX as int } else { a + b }
}

/// Source triangles of a snapshot: twelve per cuboid, then each mesh
/// instance's triangles, added in order with saturation.
pub open spec fn spec_source_triangles(cuboids: int, mesh_triangles: Seq<usize>) -> int
    decreases mesh_triangles.len(),
{
    if mesh_triangles.len() == 0 {
        sat_mul(cuboids, 12)
    } else {
        sat_add(
            spec_source_triangles(cuboids, mesh_triangles.drop_last()),
            mesh_triangles.last() as int,
        )
    }
}

/// Counts the source triangles of `cuboids` cuboids and of mesh instances
/// with the given triangle counts, saturating at `usize::MAX`.
pub fn source_triangle_count(cuboids: usize, mesh_triangles: &[usize]) -> (count: usize)
    ensures
        count == spec_source_triangles(cuboids as int, mesh_triangles@),
{
    let mut sum = saturating_mul(cuboids, 12);
    let mut index: usize = 0;
    while index < mesh_triangles.len()
        invariant
            index <= mesh_triangles@.len(),
            sum == spec_source_triangles(cuboids as int, mesh_triangles@.take(index as int)),
        decreases mesh_triangles@.len() - index,
    {
        proof {
            assert(mesh_triangles@.take(index + 1).drop_last() =~= mesh_triangles@.take(
                index as int,
            ));
        }
        sum = sum.saturating_add(mesh_triangles[index]);
        index += 1;
    }
    proof {
        assert(mesh_triangles@.take(index as int) =~= mesh_triangles@);
    }
    sum
}

/// The object ceiling of the engine scene: the cuboid cap, but at least one,
/// since the engine needs a nonzero ceiling even for a background-only
/// scene (the earlier count check still admits no cuboid under a zero cap).
pub fn scene_object_ceiling(limits: ThreeDRenderLimits) -> (ceiling: usize)
    ensures
        ceiling == (if limits.spec_max_cuboids() == 0 { 1 } else { limits.spec_max_cuboids() }),
{
    let cuboids = limits.max_cuboids();
    if cuboids == 0 {
        1
    } else {
        cuboids
    }
}

/// Smallest of four integers.
pub open spec fn min4(a: int, b: int, c: int, d: int) -> int {
    let ab = if a < b { a } else { b };
    let cd = if c < d { c } else { d };
    if ab < cd { ab } else { cd }
}

/// Byte allowance for creating a texture: the overlap room left under twice
/// each aggregate texture ceiling, capped by each single ceiling.
pub fn texture_creation_allowance(
    max_cpu_bytes: usize,
    max_gpu_bytes: usize,
    cpu_bytes: usize,
    gpu_bytes: usize,
) -> (allowance: usize)
    ensures
        allowance == min4(
            sat_sub(sat_mul(max_cpu_bytes as int, 2), cpu_bytes as int),
            sat_sub(sat_mul(max_gpu_bytes as int, 2), gpu_bytes as int),
            max_cpu_bytes as int,
            max_gpu_bytes as int,
        ),
{
    let cpu = saturating_mul(max_cpu_bytes, 2).saturating_sub(cpu_bytes);
    let gpu = saturating_mul(max_gpu_bytes, 2).saturating_sub(gpu_bytes);
    let overlap = if cpu < gpu { cpu } else { gpu };
    let single = if max_cpu_bytes < max_gpu_bytes { max_cpu_bytes } else { max_gpu_bytes };
    if overlap < single { overlap } else { single }
}

/// Refuses a texture whose complete-chain bytes exceed the creation
/// allowance, before any copy of its pixels is made.
pub fn check_texture_creation(required: usize, allowance: usize) -> (r: Result<(), DesktopThreeDError>)
    ensures
        required <= allowance ==> r is Ok,
        required > allowance ==> r == Err::<(), DesktopThreeDError>(
            DesktopThreeDError::LimitExceeded {
                resource: ThreeDLimitResource::TextureGpuBytes,
                requested: required as u64,
                limit: allowance as u64,
            },
        ),
{
    if required > allowance {
        return Err(
            DesktopThreeDError::LimitExceeded {
                resource: ThreeDLimitResource::TextureGpuBytes,
                requested: required as u64,
                limit: allowance as u64,
            },
        );
    }
    Ok(())
}

/// One 3D object as extraction sees it.
#[derive(Debug, Clone, Copy, PartialEq, Eq, Structural)]
pub struct ObjectSource {
    /// Managed source.
    pub entity: LogicEntity,
    /// The object is visible.
    pub visible: bool,
    /// The object's geometry passed its own validation.
    pub valid: bool,
    /// Surface triangles of the object's mesh.
    pub triangles: usize,
    /// CPU source capacity of the object's mesh.
    pub source_bytes: usize,
}

/// Admission of the first `count` cuboid sources: the admitted indices, or
/// the first rejection. Hidden cuboids are skipped; every cuboid counts
/// twelve triangles.
pub open spec fn cuboid_admission(
    sources: Seq<ObjectSource>,
    generation: WorldGeneration,
    limits: ThreeDRenderLimits,
    count: int,
) -> Result<Seq<usize>, ThreeDExtractionError>
    decreases count,
{
    if count <= 0 {
        Ok(Seq::empty())
    } else {
        match cuboid_admission(sources, generation, limits, count - 1) {
            Err(error) => Err(error),
            Ok(admitted) => {
                let source = sources[count - 1];
                let next = admitted.len() + 1;
                if !source.visible {
                    Ok(admitted)
                } else if source.entity.spec_world_generation() != generation {
                    Err(ThreeDExtractionError::StaleEntity { source: source.entity })
                } else if next > limits.spec_max_cuboids() {
                    Err(
                        ThreeDExtractionError::LimitExceeded {
                            resource: ThreeDLimitResource::Cuboids,
                            requested: next as u64,
                            limit: limits.spec_max_cuboids() as u64,
                        },
                    )
                } else if next * 12 > usize::MAX {
                    Err(
                        ThreeDExtractionError::LimitExceeded {
                            resource: ThreeDLimitResource::Triangles,
                            requested: u64::MAX,
                            limit: limits.spec_max_triangles() as u64,
                        },
                    )
                } else if next * 12 > limits.spec_max_triangles() {
                    Err(
                        ThreeDExtractionError::LimitExceeded {
                            resource: ThreeDLimitResource::Triangles,
                            requested: (next * 12) as u64,
                            limit: limits.spec_max_triangles() as u64,
                        },
                    )
                } else if !source.valid {
                    Err(ThreeDExtractionError::InvalidCuboid { source: source.entity })
                } else {
                    Ok(admitted.push((count - 1) as usize))
                }
            },
        }
    }
}

/// Admission of the first `count` mesh sources, after `base_triangles`
/// triangles of cuboids: the admitted indices and the running triangle and
/// source-byte sums, or the first rejection.
pub open spec fn mesh_admission(
    sources: Seq<ObjectSource>,
    generation: WorldGeneration,
    limits: ThreeDRenderLimits,
    base_triangles: int,
    count: int,
) -> Result<(Seq<usize>, int, int), ThreeDExtractionError>
    decreases count,
{
    if count <= 0 {
        Ok((Seq::empty(), base_triangles, 0))
    } else {
        match mesh_admission(sources, generation, limits, base_triangles, count - 1) {
            Err(error) => Err(error),
            Ok((admitted, triangles, bytes)) => {
                let source = sources[count - 1];
                let next = admitted.len() + 1;
                if !source.visible {
                    Ok((admitted, triangles, bytes))
                } else if source.entity.spec_world_generation() != generation {
                    Err(ThreeDExtractionError::StaleEntity { source: source.entity })
                } else if next > limits.spec_max_meshes() {
                    Err(
                        ThreeDExtractionError::LimitExceeded {
                            resource: ThreeDLimitResource::Meshes,
                            requested: next as u64,
                            limit: limits.spec_max_meshes() as u64,
                        },
                    )
                } else if triangles + source.triangles > usize::MAX {
                    Err(
                        ThreeDExtractionError::LimitExceeded {
                            resource: ThreeDLimitResource::Triangles,
                            requested: u64::MAX,
                            limit: limits.spec_max_triangles() as u64,
                        },
                    )
                } else if triangles + source.triangles > limits.spec_max_triangles() {
                    Err(
                        ThreeDExtractionError::LimitExceeded {
                            resource: ThreeDLimitResource::Triangles,
                            requested: (triangles + source.triangles) as u64,
                            limit: limits.spec_max_triangles() as u64,
                        },
                    )
                } else if bytes + source.source_bytes > usize::MAX {
                    Err(
                        ThreeDExtractionError::LimitExceeded {
                            resource: ThreeDLimitResource::MeshSourceBytes,
                            requested: u64::MAX,
                            limit: limits.spec_max_mesh_source_bytes() as u64,
                        },
                    )
                } else if bytes + source.source_bytes > limits.spec_max_mesh_source_bytes() {
                    Err(
                        ThreeDExtractionError::LimitExceeded {
                            resource: ThreeDLimitResource::MeshSourceBytes,
                            requested: (bytes + source.source_bytes) as u64,
                            limit: limits.spec_max_mesh_source_bytes() as u64,
                        },
                    )
                } else {
                    Ok(
                        (
                            admitted.push((count - 1) as usize),
                            triangles + source.triangles,
                            bytes + source.source_bytes,
                        ),
                    )
                }
            },
        }
    }
}

/// The failure to reserve one more admitted object.
pub open spec fn object_allocation_failure() -> ThreeDExtractionError {
    ThreeDExtractionError::AllocationFailed {
        requested_bytes: vstd::layout::size_of::<usize>() as usize,
    }
}

fn push_object(admitted: &mut Vec<usize>, index: usize) -> (result: Result<(), ThreeDExtractionError>)
    ensures
        result is Ok ==> final(admitted)@ == old(admitted)@.push(index),
        result is Err ==> final(admitted)@ == old(admitted)@ && result == Err::<
            (),
            ThreeDExtractionError,
        >(object_allocation_failure()),
{
    if admitted.len() == vec_capacity(admitted) {
        if !vec_try_reserve_exact(admitted, 1) {
            return Err(
                ThreeDExtractionError::AllocationFailed {
                    requested_bytes: core::mem::size_of::<usize>(),
                },
            );
        }
    }
    admitted.push(index);
    Ok(())
}

/// Indices in nondecreasing order of their sources' stable bits.
pub open spec fn sorted_by_source(ids: Seq<usize>, sources: Seq<ObjectSource>) -> bool {
    forall|a: int, b: int|
        0 <= a <= b < ids.len() ==> sources[#[trigger] ids[a] as int].entity.spec_stable_bits()
            <= sources[#[trigger] ids[b] as int].entity.spec_stable_bits()
}

/// Every index names a source.
pub open spec fn objects_in_bounds(ids: Seq<usize>, sources: Seq<ObjectSource>) -> bool {
    forall|k: int| 0 <= k < ids.len() ==> #[trigger] ids[k] < sources.len()
}

/// Sorts admitted indices by their sources' stable bits, in place.
pub fn sort_by_source(ids: &mut Vec<usize>, sources: &[ObjectSource])
    requires
        objects_in_bounds(old(ids)@, sources@),
    ensures
        final(ids)@.to_multiset() == old(ids)@.to_multiset(),
        sorted_by_source(final(ids)@, sources@),
        objects_in_bounds(final(ids)@, sources@),
{
    let ghost initial = ids@;
    let mut sorted: Vec<usize> = Vec::new();
    let mut k: usize = 0;
    proof {
        assert(initial.take(0) =~= Seq::<usize>::empty());
        assert(sorted@ =~= Seq::<usize>::empty());
    }
    while k < ids.len()
        invariant
            ids@ == initial,
            objects_in_bounds(initial, sources@),
            objects_in_bounds(sorted@, sources@),
            k <= ids@.len(),
            sorted@.to_multiset() == initial.take(k as int).to_multiset(),
            sorted_by_source(sorted@, sources@),
        decreases ids@.len() - k,
    {
        let id = ids[k];
        let bits = sources[id].entity.stable_bits();
        let mut position: usize = 0;
        while position < sorted.len() && sources[sorted[position]].entity.stable_bits() <= bits
            invariant
                position <= sorted@.len(),
                objects_in_bounds(sorted@, sources@),
                id < sources@.len(),
                bits == sources@[id as int].entity.spec_stable_bits(),
                forall|j: int|
                    0 <= j < position ==> sources@[#[trigger] sorted@[j] as int].entity.spec_stable_bits()
                        <= bits,
                sorted_by_source(sorted@, sources@),
            decreases sorted@.len() - position,
        {
            position += 1;
        }
        let ghost before = sorted@;
        sorted.insert(position, id);
        proof {
            assert(initial.take(k + 1) =~= initial.take(k as int).push(id));
            vstd::seq_lib::to_multiset_build(initial.take(k as int), id);
            vstd::seq_lib::to_multiset_insert(before, position as int, id);
            before.insert_ensures(position as int, id);
            let key = |i: usize| sources@[i as int].entity.spec_stable_bits();
            assert forall|a: int, b: int| 0 <= a <= b < sorted@.len() implies sources@[
                #[trigger] sorted@[a] as int
            ].entity.spec_stable_bits() <= sources@[#[trigger] sorted@[b] as int].entity.spec_stable_bits() by {
                let p = position as int;
                if a < p && b > p {
                    assert(sorted@[a] == before[a] && sorted@[b] == before[b - 1]);
                    assert(key(before[a]) <= key(before[b - 1]));
                } else if a == p && b > p {
                    assert(sorted@[b] == before[b - 1]);
                    assert(key(before[p]) > bits);
                    assert(key(before[p]) <= key(before[b - 1]));
                } else if a > p {
                    assert(sorted@[a] == before[a - 1] && sorted@[b] == before[b - 1]);
                    assert(key(before[a - 1]) <= key(before[b - 1]));
                } else if b < p {
                    assert(sorted@[a] == before[a] && sorted@[b] == before[b]);
                    assert(key(before[a]) <= key(before[b]));
                } else if a < p && b == p {
                    assert(sorted@[a] == before[a]);
                }
            }
        }
        k += 1;
    }
    proof {
        assert(initial.take(initial.len() as int) =~= initial);
    }
    // Write back in place, so the vector keeps its storage.
    ids.clear();
    let mut j: usize = 0;
    while j < sorted.len()
        invariant
            j <= sorted@.len(),
            ids@ == sorted@.take(j as int),
        decreases sorted@.len() - j,
    {
        ids.push(sorted[j]);
        proof {
            assert(sorted@.take(j + 1) =~= sorted@.take(j as int).push(sorted@[j as int]));
        }
        j += 1;
    }
    proof {
        assert(sorted@.take(sorted@.len() as int) =~= sorted@);
    }
}

proof fn lemma_cuboid_error_persists(
    sources: Seq<ObjectSource>,
    generation: WorldGeneration,
    limits: ThreeDRenderLimits,
    count: int,
    later: int,
)
    requires
        0 <= count <= later,
        cuboid_admission(sources, generation, limits, count) is Err,
    ensures
        cuboid_admission(sources, generation, limits, later) == cuboid_admission(
            sources,
            generation,
            limits,
            count,
        ),
    decreases later - count,
{
    if later > count {
        lemma_cuboid_error_persists(sources, generation, limits, count, later - 1);
    }
}

proof fn lemma_cuboids_in_bounds(
    sources: Seq<ObjectSource>,
    generation: WorldGeneration,
    limits: ThreeDRenderLimits,
    count: int,
)
    requires
        0 <= count <= sources.len(),
        sources.len() <= usize::MAX,
        cuboid_admission(sources, generation, limits, count) is Ok,
    ensures
        objects_in_bounds(cuboid_admission(sources, generation, limits, count)->Ok_0, sources),
    decreases count,
{
    if count > 0 {
        lemma_cuboids_in_bounds(sources, generation, limits, count - 1);
    }
}

/// Storage is reserved only to keep a visible cuboid that admission accepts.
pub open spec fn cuboid_allocation_point(
    sources: Seq<ObjectSource>,
    generation: WorldGeneration,
    limits: ThreeDRenderLimits,
) -> bool {
    exists|k: int|
        #![trigger sources[k]]
        0 <= k < sources.len() && sources[k].visible && cuboid_admission(
            sources,
            generation,
            limits,
            k + 1,
        ) is Ok
}

/// Storage is reserved only to keep a visible mesh that admission accepts.
pub open spec fn mesh_allocation_point(
    sources: Seq<ObjectSource>,
    generation: WorldGeneration,
    limits: ThreeDRenderLimits,
    base: int,
) -> bool {
    exists|k: int|
        #![trigger sources[k]]
        0 <= k < sources.len() && sources[k].visible && mesh_admission(
            sources,
            generation,
            limits,
            base,
            k + 1,
        ) is Ok
}

/// Extracts the visible cuboids of one 3D snapshot into `resolved`, which is
/// cleared first: every visible cuboid must belong to `generation`, fit the
/// cuboid and triangle caps and be valid. The admitted indices are then
/// sorted by stable entity bits. On error `resolved` holds no claim.
pub fn extract_cuboids(
    generation: WorldGeneration,
    limits: ThreeDRenderLimits,
    sources: &[ObjectSource],
    resolved: &mut Vec<usize>,
) -> (result: Result<(), ThreeDExtractionError>)
    ensures
        match result {
            Ok(()) => {
                &&& cuboid_admission(sources@, generation, limits, sources@.len() as int) is Ok
                &&& final(resolved)@.to_multiset() == cuboid_admission(
                    sources@,
                    generation,
                    limits,
                    sources@.len() as int,
                )->Ok_0.to_multiset()
                &&& sorted_by_source(final(resolved)@, sources@)
            },
            Err(error) => error == object_allocation_failure() && cuboid_allocation_point(
                sources@,
                generation,
                limits,
            ) || cuboid_admission(sources@, generation, limits, sources@.len() as int) == Err::<
                Seq<usize>,
                ThreeDExtractionError,
            >(error),
        },
        (forall|k: int| 0 <= k < sources@.len() ==> !(#[trigger] sources@[k]).visible) ==> result is Ok,
{
    resolved.clear();
    let count = sources.len();
    let mut k: usize = 0;
    while k < sources.len()
        invariant
            k <= sources@.len(),
            count == sources@.len(),
            resolved@.len() <= k,
            cuboid_admission(sources@, generation, limits, k as int) == Ok::<
                Seq<usize>,
                ThreeDExtractionError,
            >(resolved@),
        decreases sources@.len() - k,
    {
        let source = sources[k];
        if source.visible {
            let next = resolved.len().saturating_add(1);
            let step = if source.entity.world_generation() != generation {
                Err(ThreeDExtractionError::StaleEntity { source: source.entity })
            } else if next > limits.max_cuboids() {
                Err(
                    ThreeDExtractionError::LimitExceeded {
                        resource: ThreeDLimitResource::Cuboids,
                        requested: next as u64,
                        limit: limits.max_cuboids() as u64,
                    },
                )
            } else {
                match next.checked_mul(12) {
                    None => Err(
                        ThreeDExtractionError::LimitExceeded {
                            resource: ThreeDLimitResource::Triangles,
                            requested: u64::MAX,
                            limit: limits.max_triangles() as u64,
                        },
                    ),
                    Some(triangles) => if triangles > limits.max_triangles() {
                        Err(
                            ThreeDExtractionError::LimitExceeded {
                                resource: ThreeDLimitResource::Triangles,
                                requested: triangles as u64,
                                limit: limits.max_triangles() as u64,
                            },
                        )
                    } else if !source.valid {
                        Err(ThreeDExtractionError::InvalidCuboid { source: source.entity })
                    } else {
                        Ok(())
                    },
                }
            };
            if let Err(error) = step {
                proof {
                    lemma_cuboid_error_persists(
                        sources@,
                        generation,
                        limits,
                        k + 1,
                        sources@.len() as int,
                    );
                }
                return Err(error);
            }
            if let Err(error) = push_object(resolved, k) {
                proof {
                    assert(cuboid_admission(sources@, generation, limits, k + 1) is Ok);
                }
                return Err(error);
            }
        }
        k += 1;
    }
    proof {
        lemma_cuboids_in_bounds(sources@, generation, limits, sources@.len() as int);
    }
    sort_by_source(resolved, sources);
    Ok(())
}

proof fn lemma_mesh_error_persists(
    sources: Seq<ObjectSource>,
    generation: WorldGeneration,
    limits: ThreeDRenderLimits,
    base: int,
    count: int,
    later: int,
)
    requires
        0 <= count <= later,
        mesh_admission(sources, generation, limits, base, count) is Err,
    ensures
        mesh_admission(sources, generation, limits, base, later) == mesh_admission(
            sources,
            generation,
            limits,
            base,
            count,
        ),
    decreases later - count,
{
    if later > count {
        lemma_mesh_error_persists(sources, generation, limits, base, count, later - 1);
    }
}

proof fn lemma_meshes_in_bounds(
    sources: Seq<ObjectSource>,
    generation: WorldGeneration,
    limits: ThreeDRenderLimits,
    base: int,
    count: int,
)
    requires
        0 <= count <= sources.len(),
        sources.len() <= usize::MAX,
        mesh_admission(sources, generation, limits, base, count) is Ok,
    ensures
        objects_in_bounds(mesh_admission(sources, generation, limits, base, count)->Ok_0.0, sources),
    decreases count,
{
    if count > 0 {
        lemma_meshes_in_bounds(sources, generation, limits, base, count - 1);
    }
}

/// Extracts the visible custom meshes of one 3D snapshot into `resolved`,
/// which is cleared first. Their triangles are added to `triangles`, the
/// cuboids' triangles, and checked with the summed mesh source capacity
/// against the caps; the admitted indices are then sorted by stable entity
/// bits.
pub fn extract_meshes(
    generation: WorldGeneration,
    limits: ThreeDRenderLimits,
    triangles: usize,
    sources: &[ObjectSource],
    resolved: &mut Vec<usize>,
) -> (result: Result<(), ThreeDExtractionError>)
    ensures
        match result {
            Ok(()) => {
                &&& mesh_admission(
                    sources@,
                    generation,
                    limits,
                    triangles as int,
                    sources@.len() as int,
                ) is Ok
                &&& final(resolved)@.to_multiset() == mesh_admission(
                    sources@,
                    generation,
                    limits,
                    triangles as int,
                    sources@.len() as int,
                )->Ok_0.0.to_multiset()
                &&& sorted_by_source(final(resolved)@, sources@)
            },
            Err(error) => error == object_allocation_failure() && mesh_allocation_point(
                sources@,
                generation,
                limits,
                triangles as int,
            ) || mesh_admission(
                sources@,
                generation,
                limits,
                triangles as int,
                sources@.len() as int,
            ) == Err::<(Seq<usize>, int, int), ThreeDExtractionError>(error),
        },
        (forall|k: int| 0 <= k < sources@.len() ==> !(#[trigger] sources@[k]).visible) ==> result is Ok,
{
    resolved.clear();
    let count = sources.len();
    let mut total_triangles = triangles;
    let mut source_bytes: usize = 0;
    let mut k: usize = 0;
    while k < sources.len()
        invariant
            k <= sources@.len(),
            count == sources@.len(),
            resolved@.len() <= k,
            mesh_admission(sources@, generation, limits, triangles as int, k as int) == Ok::<
                (Seq<usize>, int, int),
                ThreeDExtractionError,
            >((resolved@, total_triangles as int, source_bytes as int)),
        decreases sources@.len() - k,
    {
        let source = sources[k];
        if source.visible {
            let next = resolved.len() + 1;
            let step = if source.entity.world_generation() != generation {
                Err(ThreeDExtractionError::StaleEntity { source: source.entity })
            } else if next > limits.max_meshes() {
                Err(
                    ThreeDExtractionError::LimitExceeded {
                        resource: ThreeDLimitResource::Meshes,
                        requested: next as u64,
                        limit: limits.max_meshes() as u64,
                    },
                )
            } else {
                match checked_sum(
                    total_triangles,
                    source.triangles,
                    ThreeDLimitResource::Triangles,
                    limits.max_triangles(),
                ) {
                    Err(error) => Err(error),
                    Ok(sum) => match checked_sum(
                        source_bytes,
                        source.source_bytes,
                        ThreeDLimitResource::MeshSourceBytes,
                        limits.max_mesh_source_bytes(),
                    ) {
                        Err(error) => Err(error),
                        Ok(bytes) => {
                            total_triangles = sum;
                            source_bytes = bytes;
                            Ok(())
                        },
                    },
                }
            };
            if let Err(error) = step {
                proof {
                    lemma_mesh_error_persists(
                        sources@,
                        generation,
                        limits,
                        triangles as int,
                        k + 1,
                        sources@.len() as int,
                    );
                }
                return Err(error);
            }
            if let Err(error) = push_object(resolved, k) {
                proof {
                    assert(mesh_admission(sources@, generation, limits, triangles as int, k + 1) is Ok);
                }
                return Err(error);
            }
        }
        k += 1;
    }
    proof {
        lemma_meshes_in_bounds(sources@, generation, limits, triangles as int, sources@.len() as int);
    }
    sort_by_source(resolved, sources);
    Ok(())
}

/// Law: an admitted 3D snapshot stays within its object and triangle caps
/// and holds only visible, valid cuboids of the extracted generation.
pub proof fn cuboid_admission_respects_caps(
    sources: Seq<ObjectSource>,
    generation: WorldGeneration,
    limits: ThreeDRenderLimits,
    count: int,
)
    requires
        0 <= count <= sources.len(),
        sources.len() <= usize::MAX,
        cuboid_admission(sources, generation, limits, count) is Ok,
    ensures
        ({
            let admitted = cuboid_admission(sources, generation, limits, count)->Ok_0;
            &&& admitted.len() <= limits.spec_max_cuboids()
            &&& admitted.len() * 12 <= limits.spec_max_triangles()
            &&& forall|k: int|
                0 <= k < admitted.len() ==> {
                    let source = sources[#[trigger] admitted[k] as int];
                    &&& source.visible
                    &&& source.valid
                    &&& source.entity.spec_world_generation() == generation
                }
            &&& forall|j: int|
                0 <= j < count && (#[trigger] sources[j]).visible ==> sources[j].valid
                    && sources[j].entity.spec_world_generation() == generation
        }),
    decreases count,
{
    if count > 0 {
        cuboid_admission_respects_caps(sources, generation, limits, count - 1);
        let before = cuboid_admission(sources, generation, limits, count - 1)->Ok_0;
        let after = cuboid_admission(sources, generation, limits, count)->Ok_0;
        assert forall|k: int| 0 <= k < after.len() implies after[k] == (if k < before.len() {
            before[k]
        } else {
            (count - 1) as usize
        }) by {}
    }
}

/// Law: an admitted set of custom meshes stays within the mesh, triangle and
/// source-byte caps, and holds only visible meshes of the extracted
/// generation, each once and in source order; and admission succeeds only
/// when no visible mesh belongs to another generation.
pub proof fn mesh_admission_respects_caps_and_provenance(
    sources: Seq<ObjectSource>,
    generation: WorldGeneration,
    limits: ThreeDRenderLimits,
    base: int,
    count: int,
)
    requires
        0 <= count <= sources.len(),
        sources.len() <= usize::MAX,
        0 <= base,
        mesh_admission(sources, generation, limits, base, count) is Ok,
    ensures
        ({
            let (admitted, triangles, bytes) = mesh_admission(
                sources,
                generation,
                limits,
                base,
                count,
            )->Ok_0;
            &&& admitted.len() <= limits.spec_max_meshes()
            &&& 0 <= bytes <= limits.spec_max_mesh_source_bytes()
            &&& base <= triangles
            &&& admitted.len() > 0 ==> triangles <= limits.spec_max_triangles()
            &&& forall|k: int|
                0 <= k < admitted.len() ==> {
                    let index = #[trigger] admitted[k] as int;
                    &&& 0 <= index < count
                    &&& sources[index].visible
                    &&& sources[index].entity.spec_world_generation() == generation
                }
            &&& forall|a: int, b: int| 0 <= a < b < admitted.len() ==> #[trigger] admitted[a] < #[trigger] admitted[b]
            &&& forall|j: int|
                0 <= j < count && (#[trigger] sources[j]).visible
                    ==> sources[j].entity.spec_world_generation() == generation
        }),
    decreases count,
{
    if count > 0 {
        mesh_admission_respects_caps_and_provenance(sources, generation, limits, base, count - 1);
        let before = mesh_admission(sources, generation, limits, base, count - 1)->Ok_0.0;
        let after = mesh_admission(sources, generation, limits, base, count)->Ok_0.0;
        assert forall|k: int| 0 <= k < after.len() implies after[k] == (if k < before.len() {
            before[k]
        } else {
            (count - 1) as usize
        }) by {}
    }
}

} // verus!
