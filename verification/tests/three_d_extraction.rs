use sim_logic::identity::{ApplicationId, LogicEntity, WorldGeneration};
use sim_logic::limits::{ThreeDLimitResource, ThreeDRenderLimits};
use sim_logic::three_d::{extract_cuboids, extract_meshes, ObjectSource, ThreeDExtractionError};

fn identity(generation: u64, row: u64) -> LogicEntity {
    let application = ApplicationId::from_raw(1);
    LogicEntity::new(application, WorldGeneration::new(application, generation), row)
}

fn cuboid(entity: LogicEntity, visible: bool) -> ObjectSource {
    ObjectSource {
        entity,
        visible,
        valid: true,
        triangles: 12,
        source_bytes: 0,
    }
}

#[test]
fn extraction_checks_provenance_and_exact_object_triangle_limits() {
    let mut resolved = Vec::new();
    let generation = identity(1, 0).world_generation();
    let limits = ThreeDRenderLimits::new(1, 12, 1);
    assert!(matches!(
        extract_cuboids(generation, limits, &[cuboid(identity(2, 0), true)], &mut resolved),
        Err(ThreeDExtractionError::StaleEntity { .. })
    ));
    assert!(matches!(
        extract_cuboids(
            generation,
            ThreeDRenderLimits::new(1, 11, 1),
            &[cuboid(identity(1, 0), true)],
            &mut resolved
        ),
        Err(ThreeDExtractionError::LimitExceeded {
            resource: ThreeDLimitResource::Triangles,
            ..
        })
    ));
    assert!(matches!(
        extract_cuboids(
            generation,
            limits,
            &[cuboid(identity(1, 0), true), cuboid(identity(1, 1), true)],
            &mut resolved
        ),
        Err(ThreeDExtractionError::LimitExceeded {
            resource: ThreeDLimitResource::Cuboids,
            ..
        })
    ));
}

#[test]
fn extraction_reuses_bounded_records_and_sorts_sources() {
    let mut resolved = Vec::new();
    let generation = identity(1, 0).world_generation();
    let limits = ThreeDRenderLimits::new(2, 24, 1);
    let sources = [
        cuboid(identity(1, 9), true),
        cuboid(identity(1, 2), true),
        cuboid(identity(2, 0), false),
    ];
    extract_cuboids(generation, limits, &sources, &mut resolved).unwrap();
    assert_eq!(resolved, [1, 0]);
    assert!(sources[resolved[0]].entity.stable_bits() < sources[resolved[1]].entity.stable_bits());
    let pointer = resolved.as_ptr();
    for _ in 0..8 {
        extract_cuboids(generation, limits, &sources, &mut resolved).unwrap();
        assert_eq!(resolved.as_ptr(), pointer);
    }
}

#[test]
fn invalid_cuboids_are_attributed() {
    let mut resolved = Vec::new();
    let generation = identity(1, 0).world_generation();
    let mut invalid = cuboid(identity(1, 4), true);
    invalid.valid = false;
    assert_eq!(
        extract_cuboids(generation, ThreeDRenderLimits::new(2, 24, 1), &[invalid], &mut resolved),
        Err(ThreeDExtractionError::InvalidCuboid {
            source: identity(1, 4)
        })
    );
}

fn mesh(row: u64, triangles: usize, source_bytes: usize) -> ObjectSource {
    ObjectSource {
        entity: identity(1, row),
        visible: true,
        valid: true,
        triangles,
        source_bytes,
    }
}

#[test]
fn meshes_share_the_triangle_cap_with_cuboids_and_sum_source_bytes() {
    let generation = identity(1, 0).world_generation();
    let limits = ThreeDRenderLimits::new(1, 30, 1).with_mesh_limits(2, 100);
    let mut resolved = Vec::new();
    extract_meshes(generation, limits, 12, &[mesh(5, 8, 40), mesh(3, 10, 60)], &mut resolved)
        .unwrap();
    assert_eq!(resolved, [1, 0]);
    assert_eq!(
        extract_meshes(generation, limits, 12, &[mesh(5, 8, 40), mesh(3, 11, 60)], &mut resolved),
        Err(ThreeDExtractionError::LimitExceeded {
            resource: ThreeDLimitResource::Triangles,
            requested: 31,
            limit: 30
        })
    );
    assert_eq!(
        extract_meshes(generation, limits, 12, &[mesh(5, 8, 40), mesh(3, 10, 61)], &mut resolved),
        Err(ThreeDExtractionError::LimitExceeded {
            resource: ThreeDLimitResource::MeshSourceBytes,
            requested: 101,
            limit: 100
        })
    );
    assert_eq!(
        extract_meshes(
            generation,
            limits,
            0,
            &[mesh(1, 1, 1), mesh(2, 1, 1), mesh(3, 1, 1)],
            &mut resolved
        ),
        Err(ThreeDExtractionError::LimitExceeded {
            resource: ThreeDLimitResource::Meshes,
            requested: 3,
            limit: 2
        })
    );
}
