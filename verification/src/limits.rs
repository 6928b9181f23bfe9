//! Renderer-independent work limits for composed frames, 3D passes and fonts.

use vstd::prelude::*;

verus! {

/// Work limits for a single composed presentation frame.
///
/// The same values are available in a headless build; a desktop bridge
/// converts them to the renderer's own budget at its feature boundary.
#[derive(Debug, Clone, Copy, PartialEq, Eq, Structural)]
pub struct FrameLimits {
    max_passes: usize,
    max_commands: usize,
    max_vertices: usize,
    max_upload_bytes: usize,
    max_texture_bytes: usize,
    max_draw_calls: usize,
}

impl FrameLimits {
    /// The configured maximum number of ordered render sources.
    pub closed spec fn spec_max_passes(self) -> usize {
        self.max_passes
    }

    /// The configured maximum number of referenced scene commands.
    pub closed spec fn spec_max_commands(self) -> usize {
        self.max_commands
    }

    /// The configured maximum number of referenced or generated vertices.
    pub closed spec fn spec_max_vertices(self) -> usize {
        self.max_vertices
    }

    /// The configured maximum bytes uploaded while preparing a frame.
    pub closed spec fn spec_max_upload_bytes(self) -> usize {
        self.max_upload_bytes
    }

    /// The configured maximum nominal texture bytes referenced by a frame.
    pub closed spec fn spec_max_texture_bytes(self) -> usize {
        self.max_texture_bytes
    }

    /// The configured maximum conservative draw-call count.
    pub closed spec fn spec_max_draw_calls(self) -> usize {
        self.max_draw_calls
    }

    /// The limits `new` builds from these caps.
    pub closed spec fn spec_new(
        max_passes: usize,
        max_commands: usize,
        max_vertices: usize,
        max_upload_bytes: usize,
        max_texture_bytes: usize,
        max_draw_calls: usize,
    ) -> Self {
        FrameLimits {
            max_passes,
            max_commands,
            max_vertices,
            max_upload_bytes,
            max_texture_bytes,
            max_draw_calls,
        }
    }

    /// Creates exact limits for one composed frame.
    pub fn new(
        max_passes: usize,
        max_commands: usize,
        max_vertices: usize,
        max_upload_bytes: usize,
        max_texture_bytes: usize,
        max_draw_calls: usize,
    ) -> (limits: Self)
        ensures
            limits == Self::spec_new(
                max_passes,
                max_commands,
                max_vertices,
                max_upload_bytes,
                max_texture_bytes,
                max_draw_calls,
            ),
            limits.spec_max_passes() == max_passes,
            limits.spec_max_commands() == max_commands,
            limits.spec_max_vertices() == max_vertices,
            limits.spec_max_upload_bytes() == max_upload_bytes,
            limits.spec_max_texture_bytes() == max_texture_bytes,
            limits.spec_max_draw_calls() == max_draw_calls,
    {
        FrameLimits {
            max_passes,
            max_commands,
            max_vertices,
            max_upload_bytes,
            max_texture_bytes,
            max_draw_calls,
        }
    }

    /// Returns the maximum number of ordered render sources.
    pub fn max_passes(self) -> (r: usize)
        ensures
            r == self.spec_max_passes(),
    {
        self.max_passes
    }

    /// Returns the maximum number of referenced scene commands.
    pub fn max_commands(self) -> (r: usize)
        ensures
            r == self.spec_max_commands(),
    {
        self.max_commands
    }

    /// Returns the maximum number of referenced or generated vertices.
    pub fn max_vertices(self) -> (r: usize)
        ensures
            r == self.spec_max_vertices(),
    {
        self.max_vertices
    }

    /// Returns the maximum bytes uploaded while preparing a frame.
    pub fn max_upload_bytes(self) -> (r: usize)
        ensures
            r == self.spec_max_upload_bytes(),
    {
        self.max_upload_bytes
    }

    /// Returns the maximum nominal retained texture bytes referenced by a frame.
    pub fn max_texture_bytes(self) -> (r: usize)
        ensures
            r == self.spec_max_texture_bytes(),
    {
        self.max_texture_bytes
    }

    /// Returns the maximum conservative draw-call count.
    pub fn max_draw_calls(self) -> (r: usize)
        ensures
            r == self.spec_max_draw_calls(),
    {
        self.max_draw_calls
    }
}

impl Default for FrameLimits {
    /// Allows one world source and one screen source, with the sum of their
    /// default command, vertex, upload and draw limits and no textures.
    fn default() -> (limits: Self)
        ensures
            limits == FrameLimits::spec_new(
                2,
                10_256usize,
                2_003_072usize,
                134_742_016usize,
                0,
                10_256usize,
            ),
            limits.spec_max_passes() == 2,
            limits.spec_max_commands() == 10_256,
            limits.spec_max_vertices() == 2_003_072,
            limits.spec_max_upload_bytes() == 134_742_016,
            limits.spec_max_texture_bytes() == 0,
            limits.spec_max_draw_calls() == 10_256,
    {
        FrameLimits::new(
            2,
            10_000 + 256,
            2_000_000 + 3_072,
            128 * 1024 * 1024 + 512 * 1024,
            0,
            10_000 + 256,
        )
    }
}

/// Frozen opt-in limits for 3D geometry, textures and the desktop 3D passes.
///
/// All limits default to zero. Every visible cuboid consumes twelve triangles.
#[derive(Debug, Clone, Copy, PartialEq, Eq, Structural)]
pub struct ThreeDRenderLimits {
    max_cuboids: usize,
    max_triangles: usize,
    max_target_pixels: u64,
    max_meshes: usize,
    max_mesh_source_bytes: usize,
    max_texture_source_bytes: usize,
    max_texture_gpu_bytes: usize,
}

impl ThreeDRenderLimits {
    /// The inclusive visible-cuboid cap.
    pub closed spec fn spec_max_cuboids(self) -> usize {
        self.max_cuboids
    }

    /// The inclusive submitted surface-triangle cap.
    pub closed spec fn spec_max_triangles(self) -> usize {
        self.max_triangles
    }

    /// The inclusive physical-pixel cap of the 3D target.
    pub closed spec fn spec_max_target_pixels(self) -> u64 {
        self.max_target_pixels
    }

    /// The inclusive visible custom-mesh instance cap.
    pub closed spec fn spec_max_meshes(self) -> usize {
        self.max_meshes
    }

    /// The inclusive summed per-instance mesh source-capacity cap.
    pub closed spec fn spec_max_mesh_source_bytes(self) -> usize {
        self.max_mesh_source_bytes
    }

    /// The inclusive summed per-instance base texture capacity cap.
    pub closed spec fn spec_max_texture_source_bytes(self) -> usize {
        self.max_texture_source_bytes
    }

    /// The inclusive summed per-instance full-mip texel cap.
    pub closed spec fn spec_max_texture_gpu_bytes(self) -> usize {
        self.max_texture_gpu_bytes
    }

    /// The limits `new` builds from these caps.
    pub closed spec fn spec_new(max_cuboids: usize, max_triangles: usize, max_target_pixels: u64) -> Self {
        ThreeDRenderLimits {
            max_cuboids,
            max_triangles,
            max_target_pixels,
            max_meshes: 0,
            max_mesh_source_bytes: 0,
            max_texture_source_bytes: 0,
            max_texture_gpu_bytes: 0,
        }
    }

    /// Sets exact inclusive object, surface-triangle and physical-pixel caps;
    /// mesh and texture allowances stay zero.
    pub fn new(max_cuboids: usize, max_triangles: usize, max_target_pixels: u64) -> (limits: Self)
        ensures
            limits == Self::spec_new(max_cuboids, max_triangles, max_target_pixels),
            limits.spec_max_cuboids() == max_cuboids,
            limits.spec_max_triangles() == max_triangles,
            limits.spec_max_target_pixels() == max_target_pixels,
            limits.spec_max_meshes() == 0,
            limits.spec_max_mesh_source_bytes() == 0,
            limits.spec_max_texture_source_bytes() == 0,
            limits.spec_max_texture_gpu_bytes() == 0,
    {
        ThreeDRenderLimits {
            max_cuboids,
            max_triangles,
            max_target_pixels,
            max_meshes: 0,
            max_mesh_source_bytes: 0,
            max_texture_source_bytes: 0,
            max_texture_gpu_bytes: 0,
        }
    }

    /// Returns the maximum visible cuboid count and retained scene slot count.
    pub fn max_cuboids(self) -> (r: usize)
        ensures
            r == self.spec_max_cuboids(),
    {
        self.max_cuboids
    }

    /// Returns the maximum submitted surface triangle count.
    pub fn max_triangles(self) -> (r: usize)
        ensures
            r == self.spec_max_triangles(),
    {
        self.max_triangles
    }

    /// Returns the maximum physical width times height of the depth target.
    pub fn max_target_pixels(self) -> (r: u64)
        ensures
            r == self.spec_max_target_pixels(),
    {
        self.max_target_pixels
    }

    /// Enables custom meshes with inclusive instance and CPU-source caps,
    /// leaving every other cap unchanged.
    pub fn with_mesh_limits(self, max_meshes: usize, max_source_bytes: usize) -> (limits: Self)
        ensures
            limits.spec_max_meshes() == max_meshes,
            limits.spec_max_mesh_source_bytes() == max_source_bytes,
            limits.spec_max_cuboids() == self.spec_max_cuboids(),
            limits.spec_max_triangles() == self.spec_max_triangles(),
            limits.spec_max_target_pixels() == self.spec_max_target_pixels(),
            limits.spec_max_texture_source_bytes() == self.spec_max_texture_source_bytes(),
            limits.spec_max_texture_gpu_bytes() == self.spec_max_texture_gpu_bytes(),
    {
        ThreeDRenderLimits { max_meshes, max_mesh_source_bytes: max_source_bytes, ..self }
    }

    /// Returns the maximum visible custom-mesh instance count.
    pub fn max_meshes(self) -> (r: usize)
        ensures
            r == self.spec_max_meshes(),
    {
        self.max_meshes
    }

    /// Returns the summed per-instance topology-capacity allowance.
    pub fn max_mesh_source_bytes(self) -> (r: usize)
        ensures
            r == self.spec_max_mesh_source_bytes(),
    {
        self.max_mesh_source_bytes
    }

    /// Enables textures with inclusive base-source and complete-mip texel caps,
    /// leaving every other cap unchanged.
    pub fn with_texture_limits(self, max_source_bytes: usize, max_gpu_bytes: usize) -> (limits:
        Self)
        ensures
            limits.spec_max_texture_source_bytes() == max_source_bytes,
            limits.spec_max_texture_gpu_bytes() == max_gpu_bytes,
            limits.spec_max_cuboids() == self.spec_max_cuboids(),
            limits.spec_max_triangles() == self.spec_max_triangles(),
            limits.spec_max_target_pixels() == self.spec_max_target_pixels(),
            limits.spec_max_meshes() == self.spec_max_meshes(),
            limits.spec_max_mesh_source_bytes() == self.spec_max_mesh_source_bytes(),
    {
        ThreeDRenderLimits {
            max_texture_source_bytes: max_source_bytes,
            max_texture_gpu_bytes: max_gpu_bytes,
            ..self
        }
    }

    /// Returns the per-visible-instance summed base-pixel capacity allowance.
    pub fn max_texture_source_bytes(self) -> (r: usize)
        ensures
            r == self.spec_max_texture_source_bytes(),
    {
        self.max_texture_source_bytes
    }

    /// Returns the per-visible-instance summed nominal full-mip texel allowance.
    pub fn max_texture_gpu_bytes(self) -> (r: usize)
        ensures
            r == self.spec_max_texture_gpu_bytes(),
    {
        self.max_texture_gpu_bytes
    }
}

impl Default for ThreeDRenderLimits {
    /// Every 3D allowance is zero until the application opts in.
    fn default() -> (limits: Self)
        ensures
            limits == ThreeDRenderLimits::spec_new(0, 0, 0),
            limits.spec_max_cuboids() == 0,
            limits.spec_max_triangles() == 0,
            limits.spec_max_target_pixels() == 0,
            limits.spec_max_meshes() == 0,
            limits.spec_max_mesh_source_bytes() == 0,
            limits.spec_max_texture_source_bytes() == 0,
            limits.spec_max_texture_gpu_bytes() == 0,
    {
        ThreeDRenderLimits::new(0, 0, 0)
    }
}

/// Identifies which independent 3D work limit was exceeded.
#[derive(Debug, Clone, Copy, PartialEq, Eq, Structural)]
pub enum ThreeDLimitResource {
    /// Visible extracted cuboids and retained desktop scene slots.
    Cuboids,
    /// Visible custom-mesh instances.
    Meshes,
    /// CPU topology capacities charged once per visible custom-mesh instance.
    MeshSourceBytes,
    /// Base texture pixel capacities charged per visible textured mesh instance.
    TextureSourceBytes,
    /// Nominal complete-chain texture bytes charged per visible instance.
    TextureGpuBytes,
    /// Filled surface triangles from cuboids and custom meshes.
    Triangles,
    /// Physical pixels in the color/depth target pair.
    TargetPixels,
}

/// Frozen limits for application-owned font registrations.
#[derive(Debug, Clone, Copy, PartialEq, Eq, Structural)]
pub struct TextLimits {
    max_fonts: usize,
    max_font_bytes: usize,
}

impl TextLimits {
    /// The inclusive number of distinct font registrations.
    pub closed spec fn spec_max_fonts(self) -> usize {
        self.max_fonts
    }

    /// The inclusive sum of registered font source capacities.
    pub closed spec fn spec_max_font_bytes(self) -> usize {
        self.max_font_bytes
    }

    /// The limits `new` builds from these caps.
    pub closed spec fn spec_new(max_fonts: usize, max_font_bytes: usize) -> Self {
        TextLimits { max_fonts, max_font_bytes }
    }

    /// Creates exact registration-count and aggregate source-capacity limits.
    pub fn new(max_fonts: usize, max_font_bytes: usize) -> (limits: Self)
        ensures
            limits == Self::spec_new(max_fonts, max_font_bytes),
            limits.spec_max_fonts() == max_fonts,
            limits.spec_max_font_bytes() == max_font_bytes,
    {
        TextLimits { max_fonts, max_font_bytes }
    }

    /// Returns the maximum number of distinct immutable font registrations.
    pub fn max_fonts(self) -> (r: usize)
        ensures
            r == self.spec_max_fonts(),
    {
        self.max_fonts
    }

    /// Returns the maximum sum of registered font source capacities.
    pub fn max_font_bytes(self) -> (r: usize)
        ensures
            r == self.spec_max_font_bytes(),
    {
        self.max_font_bytes
    }
}

impl Default for TextLimits {
    /// Allows eight font registrations sharing an aggregate 32 MiB source cap.
    fn default() -> (limits: Self)
        ensures
            limits == TextLimits::spec_new(8, 33_554_432usize),
            limits.spec_max_fonts() == 8,
            limits.spec_max_font_bytes() == 32 * 1024 * 1024,
    {
        TextLimits::new(8, 32 * 1024 * 1024)
    }
}

} // verus!
