use sim_logic::draw_plan::ScreenDraw;
use sim_logic::frame_work::{
    preflight, FrameBudgetResource, FrameWork, PreflightError, PreflightImage, SceneWork,
};
use sim_logic::image::ImageAssetId;
use sim_logic::limits::FrameLimits;

fn scene(commands: usize) -> SceneWork {
    SceneWork {
        commands,
        vertices: commands * 4,
        upload_bytes: commands * 64,
        draw_batches: 1,
    }
}

fn asset() -> ImageAssetId {
    ImageAssetId::new(1, 0, 4, 1)
}

fn mixed_plan() -> (Vec<ScreenDraw>, Vec<SceneWork>, Vec<PreflightImage>) {
    let draws = vec![
        ScreenDraw::Rectangles { run: 0 },
        ScreenDraw::Image { index: 0 },
        ScreenDraw::Rectangles { run: 1 },
        ScreenDraw::Image { index: 1 },
        ScreenDraw::Rectangles { run: 2 },
    ];
    let runs = vec![scene(1), scene(1), scene(1)];
    let image = PreflightImage {
        image: asset(),
        pixel_bytes: Some(16),
    };
    (draws, runs, vec![image, image])
}

#[test]
fn mixed_plan_preflight_counts_every_run_and_each_shared_texture_once() {
    let (draws, runs, images) = mixed_plan();
    let mut referenced = Vec::new();
    let enough = FrameLimits::new(6, 100, 1000, 10000, 16, 100);
    preflight(scene(0), &draws, &runs, &images, 1, &mut referenced, enough).unwrap();
    assert_eq!(referenced, [asset()]);
    let passes = FrameLimits::new(5, 100, 1000, 10000, 16, 100);
    assert_eq!(
        preflight(scene(0), &draws, &runs, &images, 1, &mut referenced, passes),
        Err(PreflightError::BudgetExceeded {
            resource: FrameBudgetResource::Passes,
            limit: 5,
            actual: 6
        })
    );
    let textures = FrameLimits::new(6, 100, 1000, 10000, 15, 100);
    assert_eq!(
        preflight(scene(0), &draws, &runs, &images, 1, &mut referenced, textures),
        Err(PreflightError::BudgetExceeded {
            resource: FrameBudgetResource::TextureBytes,
            limit: 15,
            actual: 16
        })
    );
}

#[test]
fn inconsistent_plans_and_missing_assets_are_rejected() {
    let (draws, runs, images) = mixed_plan();
    let enough = FrameLimits::new(6, 100, 1000, 10000, 16, 100);
    let mut referenced = Vec::new();
    assert_eq!(
        preflight(scene(0), &draws, &runs[..2], &images, 1, &mut referenced, enough),
        Err(PreflightError::InvalidDrawPlan)
    );
    assert_eq!(
        preflight(scene(0), &draws, &runs, &images[..1], 1, &mut referenced, enough),
        Err(PreflightError::InvalidDrawPlan)
    );
    let missing = [
        images[0],
        PreflightImage {
            image: asset(),
            pixel_bytes: None,
        },
    ];
    assert_eq!(
        preflight(scene(0), &draws, &runs, &missing, 1, &mut referenced, enough),
        Err(PreflightError::MissingAsset {
            index: 1,
            image: asset()
        })
    );
    assert_eq!(
        preflight(
            scene(0),
            &[ScreenDraw::Text { index: 0 }],
            &runs,
            &images,
            1,
            &mut referenced,
            enough
        ),
        Err(PreflightError::InvalidDrawPlan)
    );
}

#[test]
fn work_counters_saturate_and_validate_in_resource_order() {
    let mut work = FrameWork::default();
    work.scene(SceneWork {
        commands: usize::MAX,
        vertices: 3,
        upload_bytes: 5,
        draw_batches: 7,
    });
    work.scene(scene(1));
    work.image();
    assert_eq!(work.passes, 3);
    assert_eq!(work.commands, usize::MAX);
    assert_eq!(work.vertices, 3 + 4 + 6);
    assert_eq!(work.upload_bytes, 5 + 64);
    assert_eq!(work.draw_calls, 7 + 1 + 1);
    assert_eq!(
        work.validate(FrameLimits::new(2, 0, 0, 0, 0, 0)),
        Err(PreflightError::BudgetExceeded {
            resource: FrameBudgetResource::Passes,
            limit: 2,
            actual: 3
        })
    );
    assert_eq!(
        work.validate(FrameLimits::new(3, usize::MAX, 12, 0, 0, 0)),
        Err(PreflightError::BudgetExceeded {
            resource: FrameBudgetResource::Vertices,
            limit: 12,
            actual: 13
        })
    );
    assert_eq!(
        work.validate(FrameLimits::new(3, usize::MAX, 13, 69, 0, 9)),
        Ok(())
    );
}
