use sim_logic::draw_plan::{
    compose, depth_key, run_records, visual_order_le, RectangleRun, ScreenDraw, VisualOrder,
};

fn order(layer: i32, depth: f32, entity: u64) -> VisualOrder {
    VisualOrder::new(layer, depth.to_bits(), entity)
}

fn plan(
    rects: &[VisualOrder],
    images: &[VisualOrder],
    texts: &[VisualOrder],
) -> (Vec<ScreenDraw>, Vec<RectangleRun>) {
    let mut draws = vec![ScreenDraw::Image { index: 99 }];
    let mut runs = vec![RectangleRun { start: 5, end: 9 }];
    compose(rects, images, texts, &mut draws, &mut runs).unwrap();
    (draws, runs)
}

#[test]
fn depth_keys_follow_the_float_total_order_with_equal_zeros() {
    let values = [
        f32::NEG_INFINITY,
        -3.5,
        -1.0,
        -f32::MIN_POSITIVE,
        0.0,
        f32::MIN_POSITIVE,
        1.0,
        2.5,
        f32::INFINITY,
    ];
    for pair in values.windows(2) {
        assert!(depth_key(pair[0].to_bits()) < depth_key(pair[1].to_bits()));
    }
    assert_eq!(depth_key((-0.0f32).to_bits()), depth_key(0.0f32.to_bits()));
    assert_eq!(depth_key(0.0f32.to_bits()), 0);
}

#[test]
fn visual_order_is_layer_then_depth_then_entity() {
    assert!(visual_order_le(&order(0, 5.0, 9), &order(1, -5.0, 0)));
    assert!(!visual_order_le(&order(1, -5.0, 0), &order(0, 5.0, 9)));
    assert!(visual_order_le(&order(0, -1.0, 9), &order(0, 1.0, 0)));
    assert!(visual_order_le(&order(0, 1.0, 3), &order(0, 1.0, 4)));
    assert!(visual_order_le(&order(0, 1.0, 4), &order(0, 1.0, 4)));
    assert!(!visual_order_le(&order(0, 1.0, 5), &order(0, 1.0, 4)));
    assert!(visual_order_le(&order(0, -0.0, 4), &order(0, 0.0, 4)));
    assert!(visual_order_le(&order(0, 0.0, 4), &order(0, -0.0, 4)));
}

#[test]
fn rectangles_alone_use_the_whole_scene_without_runs() {
    let rects = [order(0, 0.0, 1), order(0, 1.0, 2)];
    assert_eq!(plan(&rects, &[], &[]), (vec![ScreenDraw::Rectangles { run: 0 }], vec![]));
    assert_eq!(plan(&[], &[], &[]), (vec![], vec![]));
}

#[test]
fn images_split_rectangles_into_ordered_runs() {
    // Rectangles at depths 0, 2, 4 and images at depths 1, 3.
    let rects = [order(0, 0.0, 1), order(0, 2.0, 2), order(0, 4.0, 3)];
    let images = [order(0, 1.0, 4), order(0, 3.0, 5)];
    let (draws, runs) = plan(&rects, &images, &[]);
    assert_eq!(
        draws,
        [
            ScreenDraw::Rectangles { run: 0 },
            ScreenDraw::Image { index: 0 },
            ScreenDraw::Rectangles { run: 1 },
            ScreenDraw::Image { index: 1 },
            ScreenDraw::Rectangles { run: 2 },
        ]
    );
    assert_eq!(
        runs,
        [
            RectangleRun { start: 0, end: 1 },
            RectangleRun { start: 1, end: 2 },
            RectangleRun { start: 2, end: 3 },
        ]
    );
}

#[test]
fn exact_ties_draw_rectangles_then_images_then_labels() {
    let same = order(2, 1.0, 7);
    let (draws, runs) = plan(&[same], &[same], &[same]);
    assert_eq!(
        draws,
        [
            ScreenDraw::Rectangles { run: 0 },
            ScreenDraw::Image { index: 0 },
            ScreenDraw::Text { index: 0 },
        ]
    );
    assert_eq!(runs, [RectangleRun { start: 0, end: 1 }]);
}

#[test]
fn consecutive_rectangles_share_one_run_and_labels_interleave() {
    let rects = [order(0, 0.0, 1), order(0, 0.5, 2), order(1, 0.0, 3)];
    let texts = [order(0, 0.75, 4)];
    let images = [order(-1, 9.0, 5)];
    let (draws, runs) = plan(&rects, &images, &texts);
    assert_eq!(
        draws,
        [
            ScreenDraw::Image { index: 0 },
            ScreenDraw::Rectangles { run: 0 },
            ScreenDraw::Text { index: 0 },
            ScreenDraw::Rectangles { run: 1 },
        ]
    );
    assert_eq!(
        runs,
        [
            RectangleRun { start: 0, end: 2 },
            RectangleRun { start: 2, end: 3 },
        ]
    );
}

#[test]
fn images_without_rectangles_need_no_runs() {
    let images = [order(0, 0.0, 1), order(0, 0.0, 2)];
    let (draws, runs) = plan(&[], &images, &[]);
    assert_eq!(
        draws,
        [ScreenDraw::Image { index: 0 }, ScreenDraw::Image { index: 1 }]
    );
    assert!(runs.is_empty());
}

#[test]
fn run_records_select_the_whole_list_or_a_recorded_range() {
    let runs = [RectangleRun { start: 0, end: 2 }, RectangleRun { start: 2, end: 5 }];
    assert_eq!(run_records(3, false, &[], 0), Some(RectangleRun { start: 0, end: 3 }));
    assert_eq!(run_records(3, false, &[], 1), None);
    assert_eq!(run_records(0, false, &[], 0), None);
    assert_eq!(run_records(5, true, &runs, 1), Some(RectangleRun { start: 2, end: 5 }));
    assert_eq!(run_records(4, true, &runs, 1), None);
    assert_eq!(run_records(5, true, &runs, 2), None);
}
