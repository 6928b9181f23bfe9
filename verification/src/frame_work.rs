//! CPU preflight of one presented frame: the work of the world scene, every
//! rectangle run and every image draw is counted, each shared texture once,
//! and checked against the frame limits before any GPU work.

use vstd::prelude::*;
use crate::draw_plan::ScreenDraw;
use crate::image::ImageAssetId;
use crate::limits::FrameLimits;
use crate::storage::{vec_capacity, vec_try_reserve_exact};

verus! {

/// The public CPU statistics of one scene.
#[derive(Debug, Clone, Copy, PartialEq, Eq, Default, Structural)]
pub struct SceneWork {
    /// Accepted draw commands.
    pub commands: usize,
    /// Estimated tessellated vertices.
    pub vertices: usize,
    /// Estimated upload bytes.
    pub upload_bytes: usize,
    /// Estimated draw batches.
    pub draw_batches: usize,
}

/// A frame-work category.
#[derive(Debug, Clone, Copy, PartialEq, Eq, Structural)]
pub enum FrameBudgetResource {
    /// Ordered sources of the frame.
    Passes,
    /// Scene commands.
    Commands,
    /// Vertices.
    Vertices,
    /// Uploaded bytes.
    UploadBytes,
    /// Referenced texel bytes.
    TextureBytes,
    /// GPU draw calls.
    DrawCalls,
}

/// Why a frame cannot be presented within its limits.
#[derive(Debug, Clone, Copy, PartialEq, Eq, Structural)]
pub enum PreflightError {
    /// A frame-work limit would be exceeded.
    BudgetExceeded {
        /// Category whose limit was exceeded.
        resource: FrameBudgetResource,
        /// Configured upper bound.
        limit: usize,
        /// Counted work.
        actual: usize,
    },
    /// The texture bookkeeping could not be reserved.
    AllocationFailed {
        /// Bytes that could not be reserved.
        requested_bytes: usize,
    },
    /// A draw referenced an unavailable rectangle run or image.
    InvalidDrawPlan,
    /// A drawn image did not resolve in the registry.
    MissingAsset {
        /// Index of the resolved image.
        index: usize,
        /// The unresolved asset.
        image: ImageAssetId,
    },
}

/// One resolved screen image: its asset and, when the asset resolves, its
/// texel byte length.
#[derive(Debug, Clone, Copy, PartialEq, Eq, Structural)]
pub struct PreflightImage {
    /// The drawn asset.
    pub image: ImageAssetId,
    /// Texel bytes of the registered asset, or `None` when it is missing.
    pub pixel_bytes: Option<usize>,
}

/// Counted work of one frame; every count saturates.
#[derive(Debug, Clone, Copy, PartialEq, Eq, Structural)]
pub struct FrameWork {
    /// Ordered sources.
    pub passes: usize,
    /// Scene commands.
    pub commands: usize,
    /// Vertices.
    pub vertices: usize,
    /// Uploaded bytes.
    pub upload_bytes: usize,
    /// Referenced texel bytes.
    pub texture_bytes: usize,
    /// GPU draw calls.
    pub draw_calls: usize,
}

/// Saturating addition of counts.
pub open spec fn sat_add(a: int, b: int) -> int {
    if a + b > usize::MAX {
        usize::MAX as int
    } else {
        a + b
    }
}

/// The work after one more scene pass.
pub open spec fn scene_step(work: FrameWork, scene: SceneWork) -> FrameWork {
    FrameWork {
        passes: sat_add(work.passes as int, 1) as usize,
        commands: sat_add(work.commands as int, scene.commands as int) as usize,
        vertices: sat_add(work.vertices as int, scene.vertices as int) as usize,
        upload_bytes: sat_add(work.upload_bytes as int, scene.upload_bytes as int) as usize,
        texture_bytes: work.texture_bytes,
        draw_calls: sat_add(work.draw_calls as int, scene.draw_batches as int) as usize,
    }
}

/// The work after one more image pass: one command, one quad, one call.
pub open spec fn image_step(work: FrameWork) -> FrameWork {
    FrameWork {
        passes: sat_add(work.passes as int, 1) as usize,
        commands: sat_add(work.commands as int, 1) as usize,
        vertices: sat_add(work.vertices as int, 6) as usize,
        upload_bytes: work.upload_bytes,
        texture_bytes: work.texture_bytes,
        draw_calls: sat_add(work.draw_calls as int, 1) as usize,
    }
}

/// The first exceeded limit, in the order passes, commands, vertices,
/// upload bytes, texture bytes, draw calls.
pub open spec fn spec_validate(work: FrameWork, budget: FrameLimits) -> Result<(), PreflightError> {
    if work.passes > budget.spec_max_passes() {
        Err(
            PreflightError::BudgetExceeded {
                resource: FrameBudgetResource::Passes,
                limit: budget.spec_max_passes(),
                actual: work.passes,
            },
        )
    } else if work.commands > budget.spec_max_commands() {
        Err(
            PreflightError::BudgetExceeded {
                resource: FrameBudgetResource::Commands,
                limit: budget.spec_max_commands(),
                actual: work.commands,
            },
        )
    } else if work.vertices > budget.spec_max_vertices() {
        Err(
            PreflightError::BudgetExceeded {
                resource: FrameBudgetResource::Vertices,
                limit: budget.spec_max_vertices(),
                actual: work.vertices,
            },
        )
    } else if work.upload_bytes > budget.spec_max_upload_bytes() {
        Err(
            PreflightError::BudgetExceeded {
                resource: FrameBudgetResource::UploadBytes,
                limit: budget.spec_max_upload_bytes(),
                actual: work.upload_bytes,
            },
        )
    } else if work.texture_bytes > budget.spec_max_texture_bytes() {
        Err(
            PreflightError::BudgetExceeded {
                resource: FrameBudgetResource::TextureBytes,
                limit: budget.spec_max_texture_bytes(),
                actual: work.texture_bytes,
            },
        )
    } else if work.draw_calls > budget.spec_max_draw_calls() {
        Err(
            PreflightError::BudgetExceeded {
                resource: FrameBudgetResource::DrawCalls,
                limit: budget.spec_max_draw_calls(),
                actual: work.draw_calls,
            },
        )
    } else {
        Ok(())
    }
}

fn saturating_add(a: usize, b: usize) -> (sum: usize)
    ensures
        sum == sat_add(a as int, b as int),
{
    a.saturating_add(b)
}

impl Default for FrameWork {
    fn default() -> (work: Self)
        ensures
            work == (FrameWork {
                passes: 0,
                commands: 0,
                vertices: 0,
                upload_bytes: 0,
                texture_bytes: 0,
                draw_calls: 0,
            }),
    {
        FrameWork {
            passes: 0,
            commands: 0,
            vertices: 0,
            upload_bytes: 0,
            texture_bytes: 0,
            draw_calls: 0,
        }
    }
}

impl FrameWork {
    /// Counts one scene pass with its statistics.
    pub fn scene(&mut self, statistics: SceneWork)
        ensures
            *final(self) == scene_step(*old(self), statistics),
    {
        self.passes = saturating_add(self.passes, 1);
        self.commands = saturating_add(self.commands, statistics.commands);
        self.vertices = saturating_add(self.vertices, statistics.vertices);
        self.upload_bytes = saturating_add(self.upload_bytes, statistics.upload_bytes);
        self.draw_calls = saturating_add(self.draw_calls, statistics.draw_batches);
    }

    /// Counts one image pass.
    pub fn image(&mut self)
        ensures
            *final(self) == image_step(*old(self)),
    {
        self.passes = saturating_add(self.passes, 1);
        self.commands = saturating_add(self.commands, 1);
        self.vertices = saturating_add(self.vertices, 6);
        self.draw_calls = saturating_add(self.draw_calls, 1);
    }

    /// Checks every count against its limit.
    pub fn validate(&self, budget: FrameLimits) -> (result: Result<(), PreflightError>)
        ensures
            result == spec_validate(*self, budget),
    {
        if self.passes > budget.max_passes() {
            return Err(
                PreflightError::BudgetExceeded {
                    resource: FrameBudgetResource::Passes,
                    limit: budget.max_passes(),
                    actual: self.passes,
                },
            );
        }
        if self.commands > budget.max_commands() {
            return Err(
                PreflightError::BudgetExceeded {
                    resource: FrameBudgetResource::Commands,
                    limit: budget.max_commands(),
                    actual: self.commands,
                },
            );
        }
        if self.vertices > budget.max_vertices() {
            return Err(
                PreflightError::BudgetExceeded {
                    resource: FrameBudgetResource::Vertices,
                    limit: budget.max_vertices(),
                    actual: self.vertices,
                },
            );
        }
        if self.upload_bytes > budget.max_upload_bytes() {
            return Err(
                PreflightError::BudgetExceeded {
                    resource: FrameBudgetResource::UploadBytes,
                    limit: budget.max_upload_bytes(),
                    actual: self.upload_bytes,
                },
            );
        }
        if self.texture_bytes > budget.max_texture_bytes() {
            return Err(
                PreflightError::BudgetExceeded {
                    resource: FrameBudgetResource::TextureBytes,
                    limit: budget.max_texture_bytes(),
                    actual: self.texture_bytes,
                },
            );
        }
        if self.draw_calls > budget.max_draw_calls() {
            return Err(
                PreflightError::BudgetExceeded {
                    resource: FrameBudgetResource::DrawCalls,
                    limit: budget.max_draw_calls(),
                    actual: self.draw_calls,
                },
            );
        }
        Ok(())
    }
}

/// The counted work and the referenced assets after one more draw, or the
/// error that draw raises. Rectangle runs count their scene; an image counts
/// one pass and charges its texels only the first time its asset appears.
/// Labels are not drawn by this presenter.
pub open spec fn draw_step(
    state: (FrameWork, Seq<ImageAssetId>),
    draw: ScreenDraw,
    runs: Seq<SceneWork>,
    images: Seq<PreflightImage>,
) -> Result<(FrameWork, Seq<ImageAssetId>), PreflightError> {
    let (work, referenced) = state;
    match draw {
        ScreenDraw::Rectangles { run } => if run < runs.len() {
            Ok((scene_step(work, runs[run as int]), referenced))
        } else {
            Err(PreflightError::InvalidDrawPlan)
        },
        ScreenDraw::Image { index } => if index >= images.len() {
            Err(PreflightError::InvalidDrawPlan)
        } else {
            let visual = images[index as int];
            match visual.pixel_bytes {
                None => Err(PreflightError::MissingAsset { index, image: visual.image }),
                Some(bytes) => if referenced.contains(visual.image) {
                    Ok((image_step(work), referenced))
                } else {
                    let charged = FrameWork {
                        texture_bytes: sat_add(work.texture_bytes as int, bytes as int) as usize,
                        ..work
                    };
                    Ok((image_step(charged), referenced.push(visual.image)))
                },
            }
        },
        ScreenDraw::Text { .. } => Err(PreflightError::InvalidDrawPlan),
    }
}

/// The state after the first `count` draws, starting from the world scene.
pub open spec fn preflight_state(
    world: SceneWork,
    draws: Seq<ScreenDraw>,
    runs: Seq<SceneWork>,
    images: Seq<PreflightImage>,
    count: int,
) -> Result<(FrameWork, Seq<ImageAssetId>), PreflightError>
    decreases count,
{
    if count <= 0 {
        Ok(
            (
                scene_step(
                    FrameWork {
                        passes: 0,
                        commands: 0,
                        vertices: 0,
                        upload_bytes: 0,
                        texture_bytes: 0,
                        draw_calls: 0,
                    },
                    world,
                ),
                Seq::empty(),
            ),
        )
    } else {
        match preflight_state(world, draws, runs, images, count - 1) {
            Ok(state) => draw_step(state, draws[count - 1], runs, images),
            Err(error) => Err(error),
        }
    }
}

/// The preflight result: the first draw error, else the first exceeded
/// limit.
pub open spec fn spec_preflight(
    world: SceneWork,
    draws: Seq<ScreenDraw>,
    runs: Seq<SceneWork>,
    images: Seq<PreflightImage>,
    budget: FrameLimits,
) -> Result<(), PreflightError> {
    match preflight_state(world, draws, runs, images, draws.len() as int) {
        Ok((work, _)) => spec_validate(work, budget),
        Err(error) => Err(error),
    }
}

/// A draw error ends the preflight: later draws do not change it.
proof fn lemma_error_persists(
    world: SceneWork,
    draws: Seq<ScreenDraw>,
    runs: Seq<SceneWork>,
    images: Seq<PreflightImage>,
    count: int,
    later: int,
)
    requires
        0 <= count <= later,
        preflight_state(world, draws, runs, images, count) is Err,
    ensures
        preflight_state(world, draws, runs, images, later) == preflight_state(
            world,
            draws,
            runs,
            images,
            count,
        ),
    decreases later - count,
{
    if later > count {
        lemma_error_persists(world, draws, runs, images, count, later - 1);
    }
}

/// The asset drawn by draw `k`, when it is an image draw of a resolved image.
pub open spec fn drawn_asset(
    draws: Seq<ScreenDraw>,
    images: Seq<PreflightImage>,
    k: int,
    asset: ImageAssetId,
) -> bool {
    draws[k] matches ScreenDraw::Image { index } && index < images.len() && images[index as int].image
        == asset
}

/// Law: the preflight references each drawn asset exactly once, and only
/// drawn assets, so a texture shared by several draws is charged once.
pub proof fn preflight_references_each_asset_once(
    world: SceneWork,
    draws: Seq<ScreenDraw>,
    runs: Seq<SceneWork>,
    images: Seq<PreflightImage>,
    count: int,
)
    requires
        0 <= count <= draws.len(),
        preflight_state(world, draws, runs, images, count) is Ok,
    ensures
        ({
            let referenced = preflight_state(world, draws, runs, images, count)->Ok_0.1;
            &&& referenced.no_duplicates()
            &&& forall|k: int, asset: ImageAssetId|
                0 <= k < count && #[trigger] drawn_asset(draws, images, k, asset)
                    ==> referenced.contains(asset)
            &&& forall|asset: ImageAssetId|
                #[trigger] referenced.contains(asset) ==> exists|k: int|
                    0 <= k < count && #[trigger] drawn_asset(draws, images, k, asset)
        }),
    decreases count,
{
    if count > 0 {
        preflight_references_each_asset_once(world, draws, runs, images, count - 1);
        let previous = preflight_state(world, draws, runs, images, count - 1)->Ok_0.1;
        let referenced = preflight_state(world, draws, runs, images, count)->Ok_0.1;
        let draw = draws[count - 1];
        assert forall|k: int, asset: ImageAssetId|
            0 <= k < count && #[trigger] drawn_asset(draws, images, k, asset)
                implies referenced.contains(asset) by {
            if k < count - 1 {
                assert(previous.contains(asset));
                let j = choose|j: int| 0 <= j < previous.len() && previous[j] == asset;
                if referenced != previous {
                    assert(referenced[j] == previous[j]);
                }
            } else if previous.contains(asset) {
                let j = choose|j: int| 0 <= j < previous.len() && previous[j] == asset;
                if referenced != previous {
                    assert(referenced[j] == previous[j]);
                }
            } else {
                assert(referenced[referenced.len() - 1] == asset);
            }
        }
        assert forall|asset: ImageAssetId| #[trigger] referenced.contains(asset) implies exists|
            k: int,
        | 0 <= k < count && #[trigger] drawn_asset(draws, images, k, asset) by {
            let j = choose|j: int| 0 <= j < referenced.len() && referenced[j] == asset;
            if j < previous.len() {
                assert(previous[j] == asset);
                assert(previous.contains(asset));
            } else {
                assert(drawn_asset(draws, images, count - 1, asset));
            }
        }
    }
}

/// Whether `image` is already referenced.
fn references(referenced: &Vec<ImageAssetId>, image: ImageAssetId) -> (found: bool)
    ensures
        found == referenced@.contains(image),
{
    let mut index: usize = 0;
    while index < referenced.len()
        invariant
            index <= referenced@.len(),
            forall|j: int| 0 <= j < index ==> referenced@[j] != image,
        decreases referenced@.len() - index,
    {
        if referenced[index] == image {
            return true;
        }
        index += 1;
    }
    false
}

/// Counts the work of a frame (the world scene, then each draw of the plan)
/// and checks it against `budget`. `referenced` is cleared and then lists
/// each drawn asset once, in first-draw order; it is first given room for
/// `asset_count` assets, the size of the bounded registry.
pub fn preflight(
    world: SceneWork,
    draws: &[ScreenDraw],
    runs: &[SceneWork],
    images: &[PreflightImage],
    asset_count: usize,
    referenced: &mut Vec<ImageAssetId>,
    budget: FrameLimits,
) -> (result: Result<(), PreflightError>)
    ensures
        match result {
            Err(PreflightError::AllocationFailed { requested_bytes }) => requested_bytes == (if asset_count
                * vstd::layout::size_of::<ImageAssetId>() > usize::MAX {
                usize::MAX as int
            } else {
                asset_count * vstd::layout::size_of::<ImageAssetId>()
            }),
            _ => result == spec_preflight(world, draws@, runs@, images@, budget),
        },
        asset_count == 0 ==> result == spec_preflight(world, draws@, runs@, images@, budget),
        match preflight_state(world, draws@, runs@, images@, draws@.len() as int) {
            Ok((_, assets)) => !(result matches Err(PreflightError::AllocationFailed { .. }))
                ==> final(referenced)@ == assets,
            Err(_) => true,
        },
{
    referenced.clear();
    if vec_capacity(referenced) < asset_count {
        if !vec_try_reserve_exact(referenced, asset_count) {
            let size = core::mem::size_of::<ImageAssetId>();
            let requested_bytes = match asset_count.checked_mul(size) {
                Some(bytes) => bytes,
                None => usize::MAX,
            };
            return Err(PreflightError::AllocationFailed { requested_bytes });
        }
    }
    let mut work = FrameWork::default();
    work.scene(world);
    let mut k: usize = 0;
    while k < draws.len()
        invariant
            k <= draws@.len(),
            preflight_state(world, draws@, runs@, images@, k as int) == Ok::<
                (FrameWork, Seq<ImageAssetId>),
                PreflightError,
            >((work, referenced@)),
        decreases draws@.len() - k,
    {
        match draws[k] {
            ScreenDraw::Rectangles { run } => {
                if run >= runs.len() {
                    proof {
                        lemma_error_persists(world, draws@, runs@, images@, k + 1, draws@.len() as int);
                    }
                    return Err(PreflightError::InvalidDrawPlan);
                }
                work.scene(runs[run]);
            },
            ScreenDraw::Image { index } => {
                if index >= images.len() {
                    proof {
                        lemma_error_persists(world, draws@, runs@, images@, k + 1, draws@.len() as int);
                    }
                    return Err(PreflightError::InvalidDrawPlan);
                }
                let visual = images[index];
                let bytes = match visual.pixel_bytes {
                    Some(bytes) => bytes,
                    None => {
                        proof {
                            lemma_error_persists(world, draws@, runs@, images@, k + 1, draws@.len() as int);
                        }
                        return Err(PreflightError::MissingAsset { index, image: visual.image });
                    },
                };
                if !references(referenced, visual.image) {
                    referenced.push(visual.image);
                    work.texture_bytes = saturating_add(work.texture_bytes, bytes);
                }
                work.image();
            },
            ScreenDraw::Text { .. } => {
                proof {
                    lemma_error_persists(world, draws@, runs@, images@, k + 1, draws@.len() as int);
                }
                return Err(PreflightError::InvalidDrawPlan);
            },
        }
        k += 1;
    }
    work.validate(budget)
}

/// Every counted quantity of `work` is within its limit in `budget`.
pub open spec fn within_budget(work: FrameWork, budget: FrameLimits) -> bool {
    &&& work.passes <= budget.spec_max_passes()
    &&& work.commands <= budget.spec_max_commands()
    &&& work.vertices <= budget.spec_max_vertices()
    &&& work.upload_bytes <= budget.spec_max_upload_bytes()
    &&& work.texture_bytes <= budget.spec_max_texture_bytes()
    &&& work.draw_calls <= budget.spec_max_draw_calls()
}

/// Law: validation accepts exactly the work that fits every limit, and a
/// rejection names a resource whose count is over its limit.
pub proof fn validation_accepts_exactly_work_within_budget(work: FrameWork, budget: FrameLimits)
    ensures
        spec_validate(work, budget) is Ok <==> within_budget(work, budget),
        spec_validate(work, budget) matches Err(PreflightError::BudgetExceeded { resource, limit, actual })
            ==> actual > limit && match resource {
            FrameBudgetResource::Passes => actual == work.passes && limit == budget.spec_max_passes(),
            FrameBudgetResource::Commands => actual == work.commands && limit
                == budget.spec_max_commands(),
            FrameBudgetResource::Vertices => actual == work.vertices && limit
                == budget.spec_max_vertices(),
            FrameBudgetResource::UploadBytes => actual == work.upload_bytes && limit
                == budget.spec_max_upload_bytes(),
            FrameBudgetResource::TextureBytes => actual == work.texture_bytes && limit
                == budget.spec_max_texture_bytes(),
            FrameBudgetResource::DrawCalls => actual == work.draw_calls && limit
                == budget.spec_max_draw_calls(),
        },
{
}

/// Law: a frame passes its preflight only when the work counted for it (the
/// world scene, then every draw of the plan, each drawn asset charged once)
/// fits every limit of the budget.
pub proof fn accepted_frames_fit_their_budget(
    world: SceneWork,
    draws: Seq<ScreenDraw>,
    runs: Seq<SceneWork>,
    images: Seq<PreflightImage>,
    budget: FrameLimits,
)
    requires
        spec_preflight(world, draws, runs, images, budget) is Ok,
    ensures
        preflight_state(world, draws, runs, images, draws.len() as int) is Ok,
        within_budget(preflight_state(world, draws, runs, images, draws.len() as int)->Ok_0.0, budget),
{
    validation_accepts_exactly_work_within_budget(
        preflight_state(world, draws, runs, images, draws.len() as int)->Ok_0.0,
        budget,
    );
}

} // verus!
