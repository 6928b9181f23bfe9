//! Image handles, exact texel source regions and the atomic image/region
//! selection of a managed screen image.

use vstd::prelude::*;

verus! {

/// An immutable application image handle, carrying the registered texel
/// dimensions it was issued with.
#[derive(Debug, Clone, Copy, PartialEq, Eq, Hash, Structural)]
pub struct ImageAssetId {
    application: u64,
    index: u32,
    width: u32,
    height: u32,
}

impl ImageAssetId {
    /// The issuing application's raw identity.
    pub closed spec fn spec_application(self) -> u64 {
        self.application
    }

    /// The registration index within the issuing application.
    pub closed spec fn spec_index(self) -> u32 {
        self.index
    }

    /// The registered image width in texels.
    pub closed spec fn spec_width(self) -> u32 {
        self.width
    }

    /// The registered image height in texels.
    pub closed spec fn spec_height(self) -> u32 {
        self.height
    }

    /// Describes the handle issued for one registered image.
    pub fn new(application: u64, index: u32, width: u32, height: u32) -> (id: Self)
        ensures
            id.spec_application() == application,
            id.spec_index() == index,
            id.spec_width() == width,
            id.spec_height() == height,
    {
        ImageAssetId { application, index, width, height }
    }

    /// Returns the registered image width in texels.
    pub fn width(self) -> (r: u32)
        ensures
            r == self.spec_width(),
    {
        self.width
    }

    /// Returns the registered image height in texels.
    pub fn height(self) -> (r: u32)
        ensures
            r == self.spec_height(),
    {
        self.height
    }
}

/// Sampling applied when a source image is scaled.
#[derive(Debug, Clone, Copy, PartialEq, Eq, Hash, Structural)]
pub enum ImageFilter {
    /// Select the nearest texel, preserving hard pixel boundaries by default.
    Nearest,
    /// Blend neighboring texels when sampling the source image.
    Linear,
}

impl Default for ImageFilter {
    /// Nearest-texel sampling.
    fn default() -> (filter: Self)
        ensures
            filter == ImageFilter::Nearest,
    {
        ImageFilter::Nearest
    }
}

/// An exact rectangular source region in image texels, with top-left origin.
///
/// Width and height are positive, and each origin plus extent fits in u32.
#[derive(Debug, Clone, Copy, PartialEq, Eq, Hash, Structural)]
pub struct ImageRegion {
    x: u32,
    y: u32,
    width: u32,
    height: u32,
}

/// A region with positive extents whose far edges are representable in u32.
pub open spec fn region_is_valid(x: u32, y: u32, width: u32, height: u32) -> bool {
    &&& width > 0
    &&& height > 0
    &&& x + width <= u32::MAX
    &&& y + height <= u32::MAX
}

/// A region lying entirely inside an image of the given texel dimensions.
pub open spec fn region_fits(region: ImageRegion, image_width: u32, image_height: u32) -> bool {
    &&& region.spec_x() + region.spec_width() <= image_width
    &&& region.spec_y() + region.spec_height() <= image_height
}

impl ImageRegion {
    /// Leftmost source texel coordinate.
    pub closed spec fn spec_x(self) -> u32 {
        self.x
    }

    /// Topmost source texel coordinate.
    pub closed spec fn spec_y(self) -> u32 {
        self.y
    }

    /// Positive source width in texels.
    pub closed spec fn spec_width(self) -> u32 {
        self.width
    }

    /// Positive source height in texels.
    pub closed spec fn spec_height(self) -> u32 {
        self.height
    }

    /// Creates a source region, rejecting zero extents and overflowing bounds.
    ///
    /// Coordinates are texels, not normalized UVs or logical screen pixels.
    pub fn new(x: u32, y: u32, width: u32, height: u32) -> (r: Result<Self, ImageVisualError>)
        ensures
            region_is_valid(x, y, width, height) ==> (r matches Ok(region) && region.spec_x() == x
                && region.spec_y() == y && region.spec_width() == width && region.spec_height()
                == height),
            !region_is_valid(x, y, width, height) ==> r == Err::<Self, ImageVisualError>(
                ImageVisualError::InvalidRegion { x, y, width, height },
            ),
    {
        let region = ImageRegion { x, y, width, height };
        match region.validate() {
            Ok(()) => Ok(region),
            Err(error) => Err(error),
        }
    }

    /// Returns the leftmost source texel coordinate.
    pub fn x(self) -> (r: u32)
        ensures
            r == self.spec_x(),
    {
        self.x
    }

    /// Returns the topmost source texel coordinate.
    pub fn y(self) -> (r: u32)
        ensures
            r == self.spec_y(),
    {
        self.y
    }

    /// Returns the positive source width in texels.
    pub fn width(self) -> (r: u32)
        ensures
            r == self.spec_width(),
    {
        self.width
    }

    /// Returns the positive source height in texels.
    pub fn height(self) -> (r: u32)
        ensures
            r == self.spec_height(),
    {
        self.height
    }

    /// Rechecks the positive-extent and representable-bounds contract.
    pub fn validate(self) -> (r: Result<(), ImageVisualError>)
        ensures
            region_is_valid(self.spec_x(), self.spec_y(), self.spec_width(), self.spec_height()) ==> r is Ok,
            !region_is_valid(self.spec_x(), self.spec_y(), self.spec_width(), self.spec_height()) ==> r == Err::<
                (),
                ImageVisualError,
            >(
                ImageVisualError::InvalidRegion {
                    x: self.spec_x(),
                    y: self.spec_y(),
                    width: self.spec_width(),
                    height: self.spec_height(),
                },
            ),
    {
        if self.width == 0 || self.height == 0 || self.x.checked_add(self.width).is_none()
            || self.y.checked_add(self.height).is_none() {
            return Err(
                ImageVisualError::InvalidRegion {
                    x: self.x,
                    y: self.y,
                    width: self.width,
                    height: self.height,
                },
            );
        }
        Ok(())
    }

    /// Checks this region against the dimensions of a selected image.
    ///
    /// Corrupted extents report `InvalidRegion` without overflowing; a valid
    /// region beyond the image reports `RegionOutOfBounds`.
    pub fn validate_image(self, image: ImageAssetId) -> (r: Result<(), ImageVisualError>)
        ensures
            !region_is_valid(self.spec_x(), self.spec_y(), self.spec_width(), self.spec_height()) ==> r == Err::<
                (),
                ImageVisualError,
            >(
                ImageVisualError::InvalidRegion {
                    x: self.spec_x(),
                    y: self.spec_y(),
                    width: self.spec_width(),
                    height: self.spec_height(),
                },
            ),
            region_is_valid(self.spec_x(), self.spec_y(), self.spec_width(), self.spec_height()) && !region_fits(
                self,
                image.spec_width(),
                image.spec_height(),
            ) ==> r == Err::<(), ImageVisualError>(
                ImageVisualError::RegionOutOfBounds { region: self, image },
            ),
            r is Ok <==> region_is_valid(self.spec_x(), self.spec_y(), self.spec_width(), self.spec_height()) && region_fits(
                self,
                image.spec_width(),
                image.spec_height(),
            ),
    {
        self.validate()?;
        if self.x + self.width > image.width() || self.y + self.height > image.height() {
            return Err(ImageVisualError::RegionOutOfBounds { region: self, image });
        }
        Ok(())
    }
}

/// An invalid image region rejected before changing any selection.
#[derive(Debug, Clone, Copy, PartialEq, Eq, Structural)]
pub enum ImageVisualError {
    /// A source region has zero extent or overflowing integer bounds.
    InvalidRegion {
        /// Rejected horizontal texel origin.
        x: u32,
        /// Rejected vertical texel origin.
        y: u32,
        /// Rejected texel width.
        width: u32,
        /// Rejected texel height.
        height: u32,
    },
    /// A valid source region extends beyond the selected image dimensions.
    RegionOutOfBounds {
        /// Rejected source region in texels.
        region: ImageRegion,
        /// Image whose dimensions the region must fit.
        image: ImageAssetId,
    },
}

/// An optional region is acceptable for an image: absent, or valid and inside it.
pub open spec fn selection_allows(region: Option<ImageRegion>, image: ImageAssetId) -> bool {
    match region {
        Some(r) => region_is_valid(r.spec_x(), r.spec_y(), r.spec_width(), r.spec_height())
            && region_fits(r, image.spec_width(), image.spec_height()),
        None => true,
    }
}

/// The image, optional source region and sampling of one managed screen image.
///
/// Replacements are atomic: a region that does not fit the selected image is
/// rejected and every field stays unchanged.
#[derive(Debug, Clone, Copy, PartialEq, Eq, Structural)]
pub struct ImageSelection {
    image: ImageAssetId,
    source_region: Option<ImageRegion>,
    filter: ImageFilter,
}

impl ImageSelection {
    /// The selected image handle.
    pub closed spec fn spec_image(self) -> ImageAssetId {
        self.image
    }

    /// The selected source texels, or `None` for the complete image.
    pub closed spec fn spec_source_region(self) -> Option<ImageRegion> {
        self.source_region
    }

    /// The sampling used when scaling the image.
    pub closed spec fn spec_filter(self) -> ImageFilter {
        self.filter
    }

    /// The selected region, if any, is valid and lies inside the image.
    pub open spec fn consistent(self) -> bool {
        selection_allows(self.spec_source_region(), self.spec_image())
    }

    /// Selects the complete image with nearest-texel sampling.
    pub fn new(image: ImageAssetId) -> (selection: Self)
        ensures
            selection.spec_image() == image,
            selection.spec_source_region() is None,
            selection.spec_filter() == ImageFilter::Nearest,
            selection.consistent(),
    {
        ImageSelection { image, source_region: None, filter: ImageFilter::Nearest }
    }

    /// Returns the selected image handle.
    pub fn image(&self) -> (r: ImageAssetId)
        ensures
            r == self.spec_image(),
    {
        self.image
    }

    /// Returns the source texel rectangle, or `None` for the complete image.
    pub fn source_region(&self) -> (r: Option<ImageRegion>)
        ensures
            r == self.spec_source_region(),
    {
        self.source_region
    }

    /// Returns the sampling policy used when scaling this image.
    pub fn filter(&self) -> (r: ImageFilter)
        ensures
            r == self.spec_filter(),
    {
        self.filter
    }

    /// Replaces the image while retaining its source region and sampling.
    ///
    /// If the existing region does not fit the new image, nothing changes.
    pub fn set_image(&mut self, image: ImageAssetId) -> (r: Result<(), ImageVisualError>)
        ensures
            r is Ok <==> selection_allows(old(self).spec_source_region(), image),
            r is Ok ==> final(self).consistent(),
            r is Ok ==> final(self).spec_image() == image,
            final(self).spec_source_region() == old(self).spec_source_region(),
            final(self).spec_filter() == old(self).spec_filter(),
            r is Err ==> *final(self) == *old(self),
            r matches Err(error) ==> error is InvalidRegion || error == (
            ImageVisualError::RegionOutOfBounds { region: old(self).spec_source_region()->0, image }),
    {
        if let Some(region) = self.source_region {
            region.validate_image(image)?;
        }
        self.image = image;
        Ok(())
    }

    /// Selects exact source texels, or resets to the full image with `None`.
    ///
    /// A region outside the selected image leaves every field unchanged.
    pub fn set_source_region(&mut self, region: Option<ImageRegion>) -> (r: Result<(), ImageVisualError>)
        ensures
            r is Ok <==> selection_allows(region, old(self).spec_image()),
            r is Ok ==> final(self).consistent(),
            r is Ok ==> final(self).spec_source_region() == region,
            r is Err ==> *final(self) == *old(self),
            final(self).spec_image() == old(self).spec_image(),
            final(self).spec_filter() == old(self).spec_filter(),
            r matches Err(error) ==> error is InvalidRegion || error == (
            ImageVisualError::RegionOutOfBounds { region: region->0, image: old(self).spec_image() }),
    {
        if let Some(region) = region {
            region.validate_image(self.image)?;
        }
        self.source_region = region;
        Ok(())
    }

    /// Replaces the sampling policy without changing image or region.
    pub fn set_filter(&mut self, filter: ImageFilter)
        ensures
            final(self).spec_filter() == filter,
            final(self).spec_image() == old(self).spec_image(),
            final(self).spec_source_region() == old(self).spec_source_region(),
    {
        self.filter = filter;
    }

    /// Rechecks the selected region against the selected image.
    pub fn validate(&self) -> (r: Result<(), ImageVisualError>)
        ensures
            r is Ok <==> self.consistent(),
    {
        if let Some(region) = self.source_region {
            region.validate_image(self.image)?;
        }
        Ok(())
    }
}

} // verus!
