use sim_logic::identity::{ApplicationId, WorldGeneration};
use sim_logic::limits::{FrameLimits, TextLimits, ThreeDRenderLimits};
use sim_logic::text::TextAlignment;

#[test]
fn frame_limits_keep_every_cap() {
    let limits = FrameLimits::new(2, 3, 5, 7, 11, 13);
    assert_eq!(limits.max_passes(), 2);
    assert_eq!(limits.max_commands(), 3);
    assert_eq!(limits.max_vertices(), 5);
    assert_eq!(limits.max_upload_bytes(), 7);
    assert_eq!(limits.max_texture_bytes(), 11);
    assert_eq!(limits.max_draw_calls(), 13);
    let defaults = FrameLimits::default();
    assert_eq!(defaults.max_passes(), 2);
    assert_eq!(defaults.max_texture_bytes(), 0);
}

#[test]
fn three_d_builders_leave_other_caps_unchanged() {
    let limits = ThreeDRenderLimits::new(2, 24, 640 * 360)
        .with_mesh_limits(3, 4096)
        .with_texture_limits(100, 200);
    assert_eq!(limits.max_cuboids(), 2);
    assert_eq!(limits.max_triangles(), 24);
    assert_eq!(limits.max_target_pixels(), 640 * 360);
    assert_eq!(limits.max_meshes(), 3);
    assert_eq!(limits.max_mesh_source_bytes(), 4096);
    assert_eq!(limits.max_texture_source_bytes(), 100);
    assert_eq!(limits.max_texture_gpu_bytes(), 200);
    let defaults = ThreeDRenderLimits::default();
    assert_eq!(defaults.max_cuboids(), 0);
    assert_eq!(defaults.max_meshes(), 0);
}

#[test]
fn text_limits_and_alignment_defaults() {
    let limits = TextLimits::new(3, 1024);
    assert_eq!((limits.max_fonts(), limits.max_font_bytes()), (3, 1024));
    assert_eq!(TextAlignment::default(), TextAlignment::Left);
}

#[test]
fn generations_compare_by_application_and_sequence() {
    let application = ApplicationId::from_raw(9);
    assert_eq!(application.raw(), 9);
    let first = WorldGeneration::new(application, 1);
    assert_eq!(first.application(), application);
    assert_eq!(first.sequence(), 1);
    assert_eq!(first, WorldGeneration::new(ApplicationId::from_raw(9), 1));
    assert_ne!(first, WorldGeneration::new(ApplicationId::from_raw(10), 1));
    assert_ne!(first, WorldGeneration::new(application, 2));
}
