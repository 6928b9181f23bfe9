use sim_logic::image::{
    ImageAssetId, ImageFilter, ImageRegion, ImageSelection, ImageVisualError,
};

fn image(width: u32, height: u32) -> ImageAssetId {
    ImageAssetId::new(1, 0, width, height)
}

#[test]
fn source_regions_reject_empty_overflow_and_out_of_image_bounds() {
    for (x, y, width, height) in [
        (0, 0, 0, 1),
        (0, 0, 1, 0),
        (u32::MAX, 0, 1, 1),
        (0, u32::MAX, 1, 1),
    ] {
        assert!(matches!(
            ImageRegion::new(x, y, width, height),
            Err(ImageVisualError::InvalidRegion { .. })
        ));
    }
    let largest = ImageRegion::new(0, 0, u32::MAX, u32::MAX).unwrap();
    assert_eq!(largest.width(), u32::MAX);
    let mut visual = ImageSelection::new(image(8, 6));
    let exact = ImageRegion::new(2, 1, 6, 5).unwrap();
    assert_eq!(
        (exact.x(), exact.y(), exact.width(), exact.height()),
        (2, 1, 6, 5)
    );
    visual.set_source_region(Some(exact)).unwrap();
    for region in [
        ImageRegion::new(2, 1, 7, 5).unwrap(),
        ImageRegion::new(2, 1, 6, 6).unwrap(),
        largest,
    ] {
        let before = visual;
        assert!(matches!(
            visual.set_source_region(Some(region)),
            Err(ImageVisualError::RegionOutOfBounds { .. })
        ));
        assert_eq!(visual, before);
    }
    visual.set_source_region(None).unwrap();
    assert_eq!(visual.source_region(), None);
}

#[test]
fn replacing_an_asset_preserves_a_valid_region_and_rejects_smaller_images_atomically() {
    let mut visual = ImageSelection::new(image(8, 6));
    visual
        .set_source_region(Some(ImageRegion::new(3, 2, 4, 3).unwrap()))
        .unwrap();
    visual.set_filter(ImageFilter::Linear);
    let before = visual;
    let small = image(4, 4);
    assert!(matches!(
        visual.set_image(small),
        Err(ImageVisualError::RegionOutOfBounds { image, .. }) if image == small
    ));
    assert_eq!(visual, before);
    let large = image(16, 16);
    visual.set_image(large).unwrap();
    assert_eq!(visual.image(), large);
    assert_eq!(visual.source_region(), before.source_region());
    visual.set_source_region(None).unwrap();
    visual.set_image(small).unwrap();
    assert_eq!(visual.image(), small);
    assert_eq!(visual.filter(), ImageFilter::Linear);
}

#[test]
fn regions_check_against_image_bounds() {
    let region = ImageRegion::new(7, 0, 2, 1).unwrap();
    assert_eq!(region.validate(), Ok(()));
    assert_eq!(
        region.validate_image(image(8, 6)),
        Err(ImageVisualError::RegionOutOfBounds {
            region,
            image: image(8, 6)
        })
    );
    assert_eq!(region.validate_image(image(9, 1)), Ok(()));
    assert_eq!(ImageFilter::default(), ImageFilter::Nearest);
}
