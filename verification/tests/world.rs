use sim_logic::draw_plan::{world_draw_order, VisualOrder, WorldDraw};
use sim_logic::identity::{ApplicationId, LogicEntity, WorldGeneration};
use sim_logic::world::{
    admit_world_frame, admit_world_sources, check_active_cameras, LineSource,
    WorldExtractionError, WorldLimits, WorldSource,
};

fn generation(sequence: u64) -> WorldGeneration {
    WorldGeneration::new(ApplicationId::from_raw(3), sequence)
}

fn entity(sequence: u64, row: u64) -> LogicEntity {
    LogicEntity::new(ApplicationId::from_raw(3), generation(sequence), row)
}

fn shape(row: u64, depth: f32) -> WorldSource {
    WorldSource {
        entity: entity(1, row),
        order: VisualOrder::new(0, depth.to_bits(), row),
        valid: true,
        interpolated: true,
        resolved: true,
    }
}

fn line(row: u64, zero_length: bool) -> LineSource {
    LineSource {
        entity: entity(1, row),
        order: VisualOrder::new(0, 0, row),
        valid: true,
        zero_length,
        interpolated: true,
        resolved: true,
    }
}

fn limits(circles: usize, rectangles: usize, lines: usize, commands: usize) -> WorldLimits {
    WorldLimits {
        max_circles: circles,
        max_rectangles: rectangles,
        max_lines: lines,
        max_commands: commands,
    }
}

#[test]
fn an_empty_world_is_admitted() {
    let admitted = admit_world_sources(generation(1), limits(0, 0, 0, 0), &[], &[], &[]).unwrap();
    assert!(admitted.circles.is_empty() && admitted.rectangles.is_empty() && admitted.lines.is_empty());
}

#[test]
fn admitted_sources_come_out_in_painter_order() {
    let circles = [shape(1, 3.0), shape(2, 1.0), shape(3, 2.0)];
    let rectangles = [shape(4, 0.5), shape(5, 0.25)];
    let admitted =
        admit_world_sources(generation(1), limits(3, 2, 0, 5), &circles, &rectangles, &[]).unwrap();
    assert_eq!(admitted.circles, [1, 2, 0]);
    assert_eq!(admitted.rectangles, [1, 0]);
}

#[test]
fn per_kind_caps_are_exact() {
    let circles = [shape(1, 0.0), shape(2, 0.0)];
    assert_eq!(
        admit_world_sources(generation(1), limits(1, 4, 4, 8), &circles, &[], &[]),
        Err(WorldExtractionError::CircleLimitExceeded { limit: 1 })
    );
    assert_eq!(
        admit_world_sources(generation(1), limits(4, 1, 4, 8), &[], &circles, &[]),
        Err(WorldExtractionError::RectangleLimitExceeded { limit: 1 })
    );
    assert_eq!(
        admit_world_sources(generation(1), limits(4, 4, 1, 8), &[], &[], &[line(1, false), line(2, false)]),
        Err(WorldExtractionError::LineLimitExceeded { limit: 1 })
    );
}

#[test]
fn zero_lines_are_omitted_but_still_count_toward_the_source_limit() {
    let lines = [line(1, true), line(2, false)];
    let admitted =
        admit_world_sources(generation(1), limits(0, 0, 2, 1), &[], &[], &lines).unwrap();
    assert_eq!(admitted.lines, [1]);
    let lines = [line(1, true), line(2, true), line(3, false)];
    assert_eq!(
        admit_world_sources(generation(1), limits(0, 0, 2, 4), &[], &[], &lines),
        Err(WorldExtractionError::LineLimitExceeded { limit: 2 })
    );
}

#[test]
fn the_aggregate_command_cap_counts_every_drawn_kind() {
    let circles = [shape(1, 0.0)];
    let rectangles = [shape(2, 0.0)];
    assert_eq!(
        admit_world_sources(generation(1), limits(4, 4, 4, 2), &circles, &rectangles, &[line(3, false)]),
        Err(WorldExtractionError::CommandLimitExceeded { limit: 2, requested: 3 })
    );
    assert_eq!(
        admit_world_sources(generation(1), limits(4, 4, 4, 1), &circles, &rectangles, &[]),
        Err(WorldExtractionError::CommandLimitExceeded { limit: 1, requested: 2 })
    );
}

#[test]
fn foreign_and_invalid_sources_keep_their_entity() {
    let foreign = WorldSource { entity: entity(2, 7), ..shape(7, 0.0) };
    assert_eq!(
        admit_world_sources(generation(1), limits(4, 4, 4, 8), &[foreign], &[], &[]),
        Err(WorldExtractionError::ForeignEntity { entity: entity(2, 7), expected: generation(1) })
    );
    let collapsed = WorldSource { resolved: false, ..shape(8, 0.0) };
    assert_eq!(
        admit_world_sources(generation(1), limits(4, 4, 4, 8), &[], &[collapsed], &[]),
        Err(WorldExtractionError::InvalidResolvedRectangle { entity: entity(1, 8) })
    );
    let broken = LineSource { resolved: false, ..line(9, false) };
    assert_eq!(
        admit_world_sources(generation(1), limits(4, 4, 4, 8), &[], &[], &[broken]),
        Err(WorldExtractionError::InvalidResolvedLine { entity: entity(1, 9) })
    );
    let invalid = WorldSource { valid: false, ..shape(10, 0.0) };
    assert_eq!(
        admit_world_sources(generation(1), limits(4, 4, 4, 8), &[invalid], &[], &[]),
        Err(WorldExtractionError::InvalidVisual { entity: entity(1, 10) })
    );
}

#[test]
fn camera_cardinality_is_checked() {
    let missing = admit_world_frame(0, generation(1), limits(4, 4, 4, 8), &[], &[], &[]);
    assert!(matches!(missing, Err(WorldExtractionError::MissingActiveCamera)));

    let multiple = admit_world_frame(2, generation(1), limits(4, 4, 4, 8), &[], &[], &[]);
    assert!(matches!(multiple, Err(WorldExtractionError::MultipleActiveCameras)));
}

#[test]
fn the_camera_rule_is_checked_before_any_source() {
    let foreign = WorldSource { entity: entity(2, 7), ..shape(7, 0.0) };
    assert_eq!(
        admit_world_frame(3, generation(1), limits(4, 4, 4, 8), &[foreign], &[], &[]),
        Err(WorldExtractionError::MultipleActiveCameras)
    );
    assert_eq!(
        admit_world_frame(1, generation(1), limits(4, 4, 4, 8), &[foreign], &[], &[]),
        Err(WorldExtractionError::ForeignEntity { entity: entity(2, 7), expected: generation(1) })
    );
    assert_eq!(check_active_cameras(1), Ok(()));
    assert_eq!(check_active_cameras(0), Err(WorldExtractionError::MissingActiveCamera));
}

fn layered(row: u64, layer: i32, depth: f32) -> WorldSource {
    WorldSource { order: VisualOrder::new(layer, depth.to_bits(), row), ..shape(row, depth) }
}

fn layered_line(row: u64, layer: i32, depth: f32) -> LineSource {
    LineSource { order: VisualOrder::new(layer, depth.to_bits(), row), ..line(row, false) }
}

#[test]
fn foreign_generation_is_rejected() {
    let stale = WorldSource { entity: entity(2, 1), ..shape(1, 0.0) };
    assert_eq!(
        admit_world_frame(1, generation(1), limits(4, 4, 4, 8), &[stale], &[], &[]),
        Err(WorldExtractionError::ForeignEntity { entity: entity(2, 1), expected: generation(1) })
    );
}

#[test]
fn line_and_aggregate_command_limits_are_distinct() {
    assert_eq!(
        admit_world_frame(1, generation(1), limits(4, 4, 1, 8), &[], &[], &[line(1, false), line(2, false)]),
        Err(WorldExtractionError::LineLimitExceeded { limit: 1 })
    );
    assert_eq!(
        admit_world_frame(1, generation(1), limits(1, 4, 1, 1), &[shape(1, 0.0)], &[], &[line(2, false)]),
        Err(WorldExtractionError::CommandLimitExceeded { limit: 1, requested: 2 })
    );
}

#[test]
fn mixed_scene_uses_one_total_order_with_rectangle_circle_line_on_exact_tie() {
    // Entities: tied = 1, early = 2, late = 3.
    let circles = [layered(3, 1, 0.0), layered(1, 0, 1.0)];
    let rectangles = [layered(1, 0, 1.0), layered(2, 0, 0.0)];
    let lines = [layered_line(1, 0, 1.0)];
    let admitted =
        admit_world_frame(1, generation(1), limits(4, 4, 4, 8), &circles, &rectangles, &lines).unwrap();
    assert_eq!(admitted.rectangles, [1, 0]);
    assert_eq!(admitted.circles, [1, 0]);
    let rect_orders: Vec<VisualOrder> = admitted.rectangles.iter().map(|&k| rectangles[k].order).collect();
    let circle_orders: Vec<VisualOrder> = admitted.circles.iter().map(|&k| circles[k].order).collect();
    let line_orders: Vec<VisualOrder> = admitted.lines.iter().map(|&k| lines[k].order).collect();
    assert_eq!(
        world_draw_order(&rect_orders, &circle_orders, &line_orders),
        [
            WorldDraw::Rectangle { index: 0 },
            WorldDraw::Rectangle { index: 1 },
            WorldDraw::Circle { index: 0 },
            WorldDraw::Line { index: 0 },
            WorldDraw::Circle { index: 1 },
        ]
    );

    for (circle_depth, rectangle_depth) in [(-0.0f32, 0.0f32), (0.0, -0.0)] {
        let circle = [layered(1, 0, circle_depth)];
        let rectangle = [layered(1, 0, rectangle_depth)];
        let line = [layered_line(1, 0, circle_depth)];
        let admitted =
            admit_world_frame(1, generation(1), limits(4, 4, 4, 8), &circle, &rectangle, &line).unwrap();
        assert_eq!(admitted.lines.len(), 1);
        assert_eq!(
            world_draw_order(&[rectangle[0].order], &[circle[0].order], &[line[0].order]),
            [
                WorldDraw::Rectangle { index: 0 },
                WorldDraw::Circle { index: 0 },
                WorldDraw::Line { index: 0 },
            ]
        );
    }
}
