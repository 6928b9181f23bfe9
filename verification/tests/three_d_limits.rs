use sim_engine::{Mesh3dRenderBudget, Scene3d};
use sim_logic::limits::{ThreeDLimitResource, ThreeDRenderLimits};
use sim_logic::three_d::{
    aggregate_peak_allowance, check_limit, check_limits, checked_sum, engine_render_budget,
    check_texture_creation, color_target_bytes, find_object_source, reserved, same_source, texture_creation_allowance,
    source_triangle_count, upload_allowance, DesktopThreeDError,
    ThreeDExtractionError,
};

#[test]
fn retirement_uses_full_entity_generation_not_asset_or_record_position() {
    assert!(same_source((1, 7), Some((1, 7))));
    assert!(!same_source((1, 7), None));
    assert!(!same_source((1, 7), Some((2, 7))));
}

#[test]
fn overlap_allowance_charges_unrelated_residency() {
    assert_eq!(aggregate_peak_allowance(100, 90, 20), 130);
    assert_eq!(aggregate_peak_allowance(100, 100, 1), 101);
    assert_eq!(aggregate_peak_allowance(100, 300, 20), 0);
}

#[test]
fn overlap_allowance_saturates_a_huge_ceiling() {
    assert_eq!(aggregate_peak_allowance(usize::MAX, 0, 0), usize::MAX);
    assert_eq!(aggregate_peak_allowance(usize::MAX, 10, 20), usize::MAX);
    assert_eq!(aggregate_peak_allowance(usize::MAX, 30, 20), usize::MAX - 10);
}

#[test]
fn independent_prepass_limits_reject_before_gpu_work() {
    let limits = ThreeDRenderLimits::new(2, 24, 640 * 360);
    assert!(check_limits(2, 640, 360, limits).is_ok());
    assert!(matches!(
        check_limits(3, 640, 360, limits),
        Err(DesktopThreeDError::LimitExceeded {
            resource: ThreeDLimitResource::Cuboids,
            ..
        })
    ));
    assert!(matches!(
        check_limits(2, 1280, 720, limits),
        Err(DesktopThreeDError::LimitExceeded {
            resource: ThreeDLimitResource::TargetPixels,
            ..
        })
    ));
    assert!(matches!(
        check_limits(2, 640, 360, ThreeDRenderLimits::new(2, 23, 640 * 360)),
        Err(DesktopThreeDError::LimitExceeded {
            resource: ThreeDLimitResource::Triangles,
            ..
        })
    ));
    assert!(
        check_limits(
            0,
            u32::MAX,
            u32::MAX,
            ThreeDRenderLimits::new(0, 0, u64::MAX)
        )
        .is_ok()
    );
}

#[test]
fn prepass_errors_carry_exact_counts() {
    let limits = ThreeDRenderLimits::new(2, 24, 640 * 360);
    assert_eq!(
        check_limits(3, 640, 360, limits),
        Err(DesktopThreeDError::LimitExceeded {
            resource: ThreeDLimitResource::Cuboids,
            requested: 3,
            limit: 2,
        })
    );
    assert_eq!(
        check_limits(2, 1280, 720, limits),
        Err(DesktopThreeDError::LimitExceeded {
            resource: ThreeDLimitResource::TargetPixels,
            requested: 1280 * 720,
            limit: 640 * 360,
        })
    );
    assert_eq!(
        check_limits(usize::MAX, 1, 1, ThreeDRenderLimits::new(usize::MAX, 5, 1)),
        Err(DesktopThreeDError::LimitExceeded {
            resource: ThreeDLimitResource::Triangles,
            requested: u64::MAX,
            limit: 5,
        })
    );
}

#[test]
fn background_only_limits_admit_no_objects_and_no_generated_topology() {
    let limits = ThreeDRenderLimits::new(0, 0, 640 * 360);
    assert!(check_limits(0, 640, 360, limits).is_ok());
    assert!(matches!(
        check_limits(1, 640, 360, limits),
        Err(DesktopThreeDError::LimitExceeded {
            resource: ThreeDLimitResource::Cuboids,
            requested: 1,
            limit: 0,
        })
    ));
    let budget = engine_render_budget(0, limits);
    assert_eq!(budget.max_generated_vertices(), 0);
    assert_eq!(budget.max_generated_triangles(), 0);
}

#[test]
fn generated_allowance_reserves_space_for_retained_cube_triangles() {
    for count in 1..=32 {
        for spare in [0, 1, 12, 84, 4096] {
            let limit = count * 12 + spare;
            let budget = engine_render_budget(count, ThreeDRenderLimits::new(count, limit, 1));
            assert_eq!(budget.max_generated_triangles(), 12 + spare);
            assert_eq!(budget.max_generated_vertices(), 3 * (12 + spare));
            // One or more crossing cubes leave at most count-1 cubes using
            // retained triangles. No permitted combination exceeds the cap.
            for crossing in 1..=count {
                let total = (count - crossing) * 12 + budget.max_generated_triangles();
                assert!(total <= limit);
            }
        }
    }
}

#[test]
fn generated_budget_arithmetic_stays_bounded_at_extreme_author_limits() {
    let limits = ThreeDRenderLimits::new(usize::MAX, usize::MAX, u64::MAX);
    let defaults = Mesh3dRenderBudget::default();
    for count in [0, 1, 2, usize::MAX / 12, usize::MAX] {
        let budget = engine_render_budget(count, limits);
        assert!(budget.max_generated_vertices() <= defaults.max_generated_vertices());
        assert!(budget.max_generated_triangles() <= defaults.max_generated_triangles());
        assert!(budget.max_generated_upload_bytes() <= defaults.max_generated_upload_bytes());
    }
    let invalid_count = engine_render_budget(usize::MAX, limits);
    assert_eq!(invalid_count.max_generated_triangles(), 0);
    assert_eq!(invalid_count.max_generated_vertices(), 0);
}

#[test]
fn generated_budget_uses_the_engine_defaults_as_ceilings() {
    let defaults = Mesh3dRenderBudget::default();
    let budget = engine_render_budget(1, ThreeDRenderLimits::new(1, usize::MAX, 1));
    assert_eq!(budget.max_generated_triangles(), defaults.max_generated_triangles());
    assert_eq!(budget.max_generated_vertices(), defaults.max_generated_vertices());
    assert_eq!(
        budget.max_generated_upload_bytes(),
        defaults.max_generated_upload_bytes()
    );
}

#[test]
fn first_upload_respects_available_aggregate_and_source_caps() {
    let scene = Scene3d::new(sim_engine::Color::BLACK).unwrap();
    let limits = ThreeDRenderLimits::new(0, 100, 1).with_mesh_limits(8, 4096);
    let budget = scene.budget();
    let statistics = scene.statistics();
    let (recovery, gpu) = upload_allowance(
        limits,
        budget.max_mesh_cpu_bytes(),
        budget.max_mesh_gpu_bytes(),
        statistics.mesh_cpu_bytes(),
        statistics.mesh_gpu_bytes(),
        false,
    );
    assert_eq!(recovery, 4096);
    assert_eq!(gpu, scene.budget().max_mesh_gpu_bytes());
}

#[test]
fn replacement_upload_doubles_the_ceiling_less_residency() {
    let limits = ThreeDRenderLimits::new(0, 0, 0).with_mesh_limits(1, usize::MAX);
    assert_eq!(upload_allowance(limits, 100, 80, 30, 50, true), (170, 80));
    assert_eq!(upload_allowance(limits, 100, 80, 30, 50, false), (70, 30));
    assert_eq!(upload_allowance(limits, 100, 80, 300, 500, true), (0, 0));
}

#[test]
fn source_lookup_uses_complete_identity_and_ignores_hidden_slots() {
    // Equality-based lookup with provenance-bearing test keys.
    let slots = [
        ((1, 7), (1u64, 0u32), true),
        ((2, 7), (2u64, 0u32), true),
        ((2, 8), (2u64, 1u32), false),
    ];
    assert_eq!(find_object_source(&(1, 7), &slots), Some((1, 0)));
    assert_eq!(find_object_source(&(2, 7), &slots), Some((2, 0)));
    assert_eq!(find_object_source(&(2, 8), &slots), None);
    assert_eq!(find_object_source(&(3, 7), &slots), None);
}

#[test]
fn source_lookup_returns_the_first_visible_match() {
    let slots = [(5u32, 10u64, false), (5, 11, true), (5, 12, true)];
    assert_eq!(find_object_source(&5, &slots), Some(11));
}

#[test]
fn single_limits_and_running_sums() {
    assert_eq!(check_limit(ThreeDLimitResource::Meshes, 4, 4), Ok(()));
    assert_eq!(
        check_limit(ThreeDLimitResource::Meshes, 5, 4),
        Err(ThreeDExtractionError::LimitExceeded {
            resource: ThreeDLimitResource::Meshes,
            requested: 5,
            limit: 4,
        })
    );
    assert_eq!(
        checked_sum(10, 5, ThreeDLimitResource::MeshSourceBytes, 15),
        Ok(15)
    );
    assert_eq!(
        checked_sum(10, 6, ThreeDLimitResource::MeshSourceBytes, 15),
        Err(ThreeDExtractionError::LimitExceeded {
            resource: ThreeDLimitResource::MeshSourceBytes,
            requested: 16,
            limit: 15,
        })
    );
    assert_eq!(
        checked_sum(usize::MAX, 1, ThreeDLimitResource::TextureSourceBytes, 15),
        Err(ThreeDExtractionError::LimitExceeded {
            resource: ThreeDLimitResource::TextureSourceBytes,
            requested: u64::MAX,
            limit: 15,
        })
    );
}

#[test]
fn reservations_are_empty_or_report_their_bytes() {
    let values: Vec<u64> = reserved(8).unwrap();
    assert!(values.is_empty());
    assert!(values.capacity() >= 8);
    assert_eq!(
        reserved::<u64>(usize::MAX),
        Err(DesktopThreeDError::AllocationFailed {
            requested_bytes: usize::MAX
        })
    );
}

#[test]
fn texture_creation_allowance_charges_resident_bytes_and_single_ceilings() {
    // Plenty of overlap room: the smaller single ceiling decides.
    assert_eq!(texture_creation_allowance(100, 80, 0, 0), 80);
    // Overlap room under the doubled CPU ceiling is the tightest.
    assert_eq!(texture_creation_allowance(100, 100, 150, 20), 50);
    // Overlap room under the doubled GPU ceiling is the tightest.
    assert_eq!(texture_creation_allowance(100, 100, 0, 170), 30);
    // Residency beyond twice a ceiling leaves nothing.
    assert_eq!(texture_creation_allowance(100, 100, 300, 0), 0);
    // Doubling saturates instead of wrapping.
    assert_eq!(texture_creation_allowance(usize::MAX, usize::MAX, 1, 1), usize::MAX - 1);
}

#[test]
fn texture_creation_is_refused_above_the_allowance() {
    assert_eq!(check_texture_creation(48, 48), Ok(()));
    assert_eq!(
        check_texture_creation(49, 48),
        Err(DesktopThreeDError::LimitExceeded {
            resource: ThreeDLimitResource::TextureGpuBytes,
            requested: 49,
            limit: 48,
        })
    );
}

#[test]
fn color_target_bytes_multiply_texels_by_the_format_size() {
    assert_eq!(color_target_bytes(1280, 720, Some(4)), Ok(1280 * 720 * 4));
    assert_eq!(color_target_bytes(0, 720, Some(4)), Ok(0));
    assert_eq!(color_target_bytes(16, 16, None), Err(DesktopThreeDError::InvalidTargetLayout));
    // u32::MAX squared times 16 exceeds u64.
    assert_eq!(
        color_target_bytes(u32::MAX, u32::MAX, Some(16)),
        Err(DesktopThreeDError::InvalidTargetLayout)
    );
}

#[test]
fn source_triangles_count_twelve_per_cuboid_plus_each_mesh() {
    assert_eq!(source_triangle_count(0, &[]), 0);
    assert_eq!(source_triangle_count(3, &[]), 36);
    assert_eq!(source_triangle_count(2, &[1, 100]), 125);
    assert_eq!(source_triangle_count(1, &[usize::MAX - 5, 10]), usize::MAX);
    assert_eq!(source_triangle_count(usize::MAX, &[]), usize::MAX);
}

#[test]
fn background_only_engine_minimum_does_not_enable_logic_objects() {
    let limits = ThreeDRenderLimits::new(0, 0, 640 * 360);
    assert_eq!(sim_logic::three_d::scene_object_ceiling(limits), 1);
    assert!(check_limits(0, 640, 360, limits).is_ok());
    assert!(matches!(
        check_limits(1, 640, 360, limits),
        Err(DesktopThreeDError::LimitExceeded {
            resource: ThreeDLimitResource::Cuboids,
            requested: 1,
            limit: 0,
        })
    ));
    let budget = engine_render_budget(0, limits);
    assert_eq!(budget.max_generated_vertices(), 0);
    assert_eq!(budget.max_generated_triangles(), 0);
}
