//! Immutable CPU texture snapshots with exact revision identities.

use vstd::prelude::*;

use std::sync::Arc;
use vstd::std_specs::cmp::{PartialEqSpec, PartialEqSpecImpl};

use crate::image::{region_is_valid, ImageRegion};
use crate::storage::{arc_clone, vec_capacity, vec_try_reserve_exact};
use crate::three_d::DesktopThreeDError;

verus! {

/// Invalid CPU texture data or a failed bounded snapshot allocation.
#[derive(Debug, Clone, Copy, PartialEq, Eq, Structural)]
pub enum TextureVisualError {
    /// Image dimensions must both be positive.
    InvalidDimensions,
    /// Pixel or mip-chain byte arithmetic cannot be represented by usize.
    SizeOverflow,
    /// Base-level input length does not exactly match RGBA8 dimensions.
    PixelLength {
        /// Required tightly packed byte length.
        expected: usize,
        /// Supplied byte length.
        actual: usize,
    },
    /// Retained pixel capacity exceeds the explicit inclusive limit.
    SourceLimit {
        /// Required or allocated pixel capacity.
        requested: usize,
        /// Inclusive caller-provided capacity allowance.
        limit: usize,
    },
    /// A patch rectangle lies outside the image.
    RegionOutOfBounds,
    /// Patch row stride or exact input byte length is invalid.
    InvalidPatchLayout,
    /// Tint channels are not finite and normalized in 0..=1.
    InvalidTint,
    /// A fallible CPU pixel reservation was rejected.
    AllocationFailed {
        /// Requested new pixel capacity in bytes.
        requested_bytes: usize,
    },
    /// Monotonic revision identities are exhausted.
    IdentityExhausted,
}

/// Whether a result is a rejected source capacity.
pub open spec fn is_source_limit<T>(r: Result<T, TextureVisualError>) -> bool {
    r matches Err(TextureVisualError::SourceLimit { .. })
}

/// Exact tightly packed RGBA8 byte count of a `width` by `height` image.
pub open spec fn rgba8_bytes(width: int, height: int) -> int {
    width * height * 4
}

/// The result of checking RGBA8 dimensions and their byte arithmetic.
pub open spec fn pixel_bytes_result(width: u32, height: u32) -> Result<usize, TextureVisualError> {
    if width == 0 || height == 0 {
        Err(TextureVisualError::InvalidDimensions)
    } else if rgba8_bytes(width as int, height as int) > usize::MAX {
        Err(TextureVisualError::SizeOverflow)
    } else {
        Ok(rgba8_bytes(width as int, height as int) as usize)
    }
}

/// Computes `width * height * 4`, rejecting empty or unrepresentable images.
pub fn pixel_bytes(width: u32, height: u32) -> (r: Result<usize, TextureVisualError>)
    ensures
        r == pixel_bytes_result(width, height),
{
    if width == 0 || height == 0 {
        return Err(TextureVisualError::InvalidDimensions);
    }
    let w = width as usize;
    let h = height as usize;
    match w.checked_mul(h) {
        Some(texels) => match texels.checked_mul(4) {
            Some(bytes) => Ok(bytes),
            None => Err(TextureVisualError::SizeOverflow),
        },
        None => {
            proof {
                assert(w * h * 4 >= w * h) by (nonlinear_arith);
            }
            Err(TextureVisualError::SizeOverflow)
        },
    }
}

/// Rejects a requested capacity above its inclusive limit.
pub fn check_bytes(requested: usize, limit: usize) -> (r: Result<(), TextureVisualError>)
    ensures
        requested <= limit ==> r is Ok,
        requested > limit ==> r == Err::<(), TextureVisualError>(
            TextureVisualError::SourceLimit { requested, limit },
        ),
{
    if requested > limit {
        return Err(TextureVisualError::SourceLimit { requested, limit });
    }
    Ok(())
}

/// Issues strictly increasing texture revision identities, starting at one.
///
/// Identities are unique per issuer, not per process: two issuers both start
/// at one, so snapshots made through different issuers can compare equal and
/// report shared storage although they hold different pixels. Snapshots
/// compare identities, never pixel contents, so a program keeps exactly one
/// issuer and makes every snapshot and revision through it.
#[derive(Debug)]
pub struct TextureRevisions {
    next: u64,
}

impl TextureRevisions {
    /// The identity the next successful issue returns.
    pub closed spec fn spec_next(&self) -> u64 {
        self.next
    }

    /// Creates an issuer whose first identity is one.
    pub fn new() -> (revisions: Self)
        ensures
            revisions.spec_next() == 1,
    {
        TextureRevisions { next: 1 }
    }

    /// Returns a fresh identity, or fails once identities are exhausted.
    pub fn issue_revision(&mut self) -> (r: Result<u64, TextureVisualError>)
        ensures
            old(self).spec_next() < u64::MAX ==> r == Ok::<u64, TextureVisualError>(
                old(self).spec_next(),
            ) && final(self).spec_next() == old(self).spec_next() + 1,
            old(self).spec_next() == u64::MAX ==> r == Err::<u64, TextureVisualError>(
                TextureVisualError::IdentityExhausted,
            ) && final(self).spec_next() == old(self).spec_next(),
    {
        match self.next.checked_add(1) {
            Some(following) => {
                let issued = self.next;
                self.next = following;
                Ok(issued)
            },
            None => Err(TextureVisualError::IdentityExhausted),
        }
    }
}

impl Default for TextureRevisions {
    /// An issuer whose first identity is one.
    fn default() -> (revisions: Self)
        ensures
            revisions.spec_next() == 1,
    {
        TextureRevisions::new()
    }
}

#[derive(Debug)]
struct TextureData {
    width: u32,
    height: u32,
    pixels: Vec<u8>,
    capacity: usize,
    revision: u64,
    parent: Option<u64>,
    region: Option<ImageRegion>,
}

/// Shared immutable, top-left-origin sRGB RGBA8 pixels with straight alpha.
///
/// Construction requires an explicit source-capacity limit. Clones share CPU
/// pixels; editing returns a new snapshot and never modifies existing aliases.
#[derive(Debug)]
pub struct TextureAsset3d {
    data: Arc<TextureData>,
}

/// The patch rectangle lies inside an image of the given dimensions.
pub open spec fn patch_fits(image_width: u32, image_height: u32, region: ImageRegion) -> bool {
    &&& region.spec_x() + region.spec_width() <= image_width
    &&& region.spec_y() + region.spec_height() <= image_height
}

/// The strided patch covers each row and has exactly the required length.
pub open spec fn patch_layout_fits(region: ImageRegion, row_stride: int, length: int) -> bool {
    &&& region.spec_width() * 4 <= row_stride
    &&& length == (region.spec_height() - 1) * row_stride + region.spec_width() * 4
}

/// Bytes a strided patch of `region` spans: every row but the last is a
/// whole stride, the last only its texels.
pub open spec fn patch_span_bytes(region: ImageRegion, row_stride: int) -> int {
    (region.spec_height() - 1) * row_stride + region.spec_width() * 4
}

/// Index of byte `col` of patch row `row` within the complete image.
pub open spec fn patch_target(image_width: u32, region: ImageRegion, row: int, col: int) -> int {
    (region.spec_y() + row) * (image_width * 4) + region.spec_x() * 4 + col
}

/// Whether image byte `index` lies inside the patched rectangle.
pub open spec fn patch_covers(image_width: u32, region: ImageRegion, index: int) -> bool {
    exists|row: int, col: int|
        0 <= row < region.spec_height() && 0 <= col < region.spec_width() * 4 && index
            == #[trigger] patch_target(image_width, region, row, col)
}

/// The new pixels equal the old ones with the strided patch rows written into
/// the region: every patch byte lands at its target and every other byte is
/// kept.
pub open spec fn patched(
    before: Seq<u8>,
    after: Seq<u8>,
    image_width: u32,
    region: ImageRegion,
    row_stride: int,
    patch: Seq<u8>,
) -> bool {
    &&& after.len() == before.len()
    &&& forall|row: int, col: int|
        0 <= row < region.spec_height() && 0 <= col < region.spec_width() * 4 ==> after[
        #[trigger] patch_target(image_width, region, row, col)] == patch[row * row_stride + col]
    &&& forall|index: int|
        0 <= index < before.len() && !patch_covers(image_width, region, index) ==> #[trigger] after[index]
            == before[index]
}

proof fn lemma_target_in_bounds(
    image_width: u32,
    image_height: u32,
    region: ImageRegion,
    row: int,
    col: int,
)
    requires
        region.spec_x() + region.spec_width() <= image_width,
        region.spec_y() + region.spec_height() <= image_height,
        0 <= row < region.spec_height(),
        0 <= col < region.spec_width() * 4,
    ensures
        0 <= (region.spec_y() + row) * (image_width * 4),
        (region.spec_y() + row) * (image_width * 4) <= patch_target(image_width, region, row, col),
        patch_target(image_width, region, row, col) < rgba8_bytes(
            image_width as int,
            image_height as int,
        ),
{
    let d = image_width * 4;
    let a = region.spec_y() + row;
    let b = region.spec_x() * 4 + col;
    assert(0 <= b < d);
    assert(a + 1 <= image_height);
    assert(0 <= a * d) by (nonlinear_arith)
        requires
            a >= 0,
            d >= 0,
    ;
    assert(a * d + b < (a + 1) * d) by (nonlinear_arith)
        requires
            b < d,
    ;
    assert((a + 1) * d <= image_height * d) by (nonlinear_arith)
        requires
            a + 1 <= image_height,
            d >= 0,
    ;
    assert(image_height * d == image_width * image_height * 4) by (nonlinear_arith)
        requires
            d == image_width * 4,
    ;
}

proof fn lemma_targets_distinct(
    image_width: u32,
    region: ImageRegion,
    row: int,
    col: int,
    other_row: int,
    other_col: int,
)
    requires
        region.spec_x() + region.spec_width() <= image_width,
        0 <= row,
        0 <= other_row,
        0 <= col < region.spec_width() * 4,
        0 <= other_col < region.spec_width() * 4,
        row != other_row || col != other_col,
    ensures
        patch_target(image_width, region, row, col) != patch_target(
            image_width,
            region,
            other_row,
            other_col,
        ),
{
    let d = image_width * 4;
    let a = region.spec_y() + row;
    let a2 = region.spec_y() + other_row;
    let b = region.spec_x() * 4 + col;
    let b2 = region.spec_x() * 4 + other_col;
    if a == a2 {
        assert(b != b2);
    } else if a < a2 {
        assert(a * d + b < a2 * d + b2) by (nonlinear_arith)
            requires
                a < a2,
                0 <= b < d,
                0 <= b2,
        ;
    } else {
        assert(a2 * d + b2 < a * d + b) by (nonlinear_arith)
            requires
                a2 < a,
                0 <= b2 < d,
                0 <= b,
        ;
    }
}

proof fn lemma_source_in_bounds(row_stride: int, height: int, row_bytes: int, row: int, col: int)
    requires
        0 <= row < height,
        0 <= col < row_bytes,
        row_bytes <= row_stride,
    ensures
        0 <= row * row_stride,
        row * row_stride + col < (height - 1) * row_stride + row_bytes,
{
    assert(0 <= row * row_stride) by (nonlinear_arith)
        requires
            0 <= row,
            0 <= row_stride,
    ;
    assert(row * row_stride <= (height - 1) * row_stride) by (nonlinear_arith)
        requires
            row <= height - 1,
            0 <= row_stride,
    ;
}

impl TextureAsset3d {
    #[verifier::type_invariant]
    spec fn tightly_packed(self) -> bool {
        &&& self.data.width > 0
        &&& self.data.height > 0
        &&& self.data.pixels@.len() == rgba8_bytes(self.data.width as int, self.data.height as int)
        &&& self.data.capacity >= self.data.pixels@.len()
    }

    /// The pixel capacity the snapshot retains, as read when it was made.
    pub closed spec fn spec_source_bytes(&self) -> usize {
        self.data.capacity
    }

    /// The positive image width in texels.
    pub closed spec fn spec_width(&self) -> u32 {
        self.data.width
    }

    /// The positive image height in texels.
    pub closed spec fn spec_height(&self) -> u32 {
        self.data.height
    }

    /// The tightly packed base-level RGBA8 bytes.
    pub closed spec fn spec_pixels(&self) -> Seq<u8> {
        self.data.pixels@
    }

    /// The snapshot's revision identity.
    pub closed spec fn spec_key(&self) -> u64 {
        self.data.revision
    }

    /// The identity of the snapshot this one was patched from.
    pub closed spec fn spec_parent(&self) -> Option<u64> {
        self.data.parent
    }

    /// The patch applied to the immediate parent.
    pub closed spec fn spec_updated_region(&self) -> Option<ImageRegion> {
        self.data.region
    }

    /// Takes exactly `width * height * 4` tightly packed bytes without copying.
    ///
    /// Dimensions must be positive, arithmetic must fit usize, and the Vec's
    /// capacity must fit the inclusive limit. The new snapshot receives a
    /// fresh identity from `revisions`, which changes only on success.
    pub fn rgba8(
        width: u32,
        height: u32,
        pixels: Vec<u8>,
        max_source_bytes: usize,
        revisions: &mut TextureRevisions,
    ) -> (r: Result<Self, TextureVisualError>)
        ensures
            pixel_bytes_result(width, height) matches Err(error) ==> r == Err::<
                Self,
                TextureVisualError,
            >(error),
            pixel_bytes_result(width, height) is Ok && pixels@.len() != rgba8_bytes(
                width as int,
                height as int,
            ) ==> r == Err::<Self, TextureVisualError>(
                TextureVisualError::PixelLength {
                    expected: rgba8_bytes(width as int, height as int) as usize,
                    actual: pixels@.len() as usize,
                },
            ),
            r matches Err(TextureVisualError::SourceLimit { requested, limit }) ==> limit
                == max_source_bytes && requested > max_source_bytes && requested
                >= pixels@.len(),
            r is Err ==> final(revisions).spec_next() == old(revisions).spec_next(),
            r matches Ok(texture) ==> {
                &&& pixel_bytes_result(width, height) == Ok::<usize, TextureVisualError>(
                    pixels@.len() as usize,
                )
                &&& pixels@.len() <= max_source_bytes
                &&& old(revisions).spec_next() < u64::MAX
                &&& texture.spec_width() == width
                &&& texture.spec_height() == height
                &&& texture.spec_pixels() == pixels@
                &&& pixels@.len() <= texture.spec_source_bytes() <= max_source_bytes
                &&& texture.spec_key() == old(revisions).spec_next()
                &&& texture.spec_parent() is None
                &&& texture.spec_updated_region() is None
                &&& final(revisions).spec_next() == old(revisions).spec_next() + 1
            },
            pixel_bytes_result(width, height) == Ok::<usize, TextureVisualError>(
                pixels@.len() as usize,
            ) && old(revisions).spec_next() == u64::MAX ==> r is Err,
            pixel_bytes_result(width, height) == Ok::<usize, TextureVisualError>(
                pixels@.len() as usize,
            ) ==> (r is Ok || is_source_limit(r) || r == Err::<Self, TextureVisualError>(
                TextureVisualError::IdentityExhausted,
            )),
            r == Err::<Self, TextureVisualError>(TextureVisualError::IdentityExhausted)
                ==> old(revisions).spec_next() == u64::MAX,
            pixel_bytes_result(width, height) == Ok::<usize, TextureVisualError>(
                pixels@.len() as usize,
            ) && max_source_bytes == usize::MAX && old(revisions).spec_next() < u64::MAX
                ==> r is Ok,
    {
        let expected = pixel_bytes(width, height)?;
        if pixels.len() != expected {
            return Err(TextureVisualError::PixelLength { expected, actual: pixels.len() });
        }
        let capacity = vec_capacity(&pixels);
        check_bytes(capacity, max_source_bytes)?;
        let revision = revisions.issue_revision()?;
        Ok(
            TextureAsset3d {
                data: Arc::new(
                    TextureData {
                        width,
                        height,
                        pixels,
                        capacity,
                        revision,
                        parent: None,
                        region: None,
                    },
                ),
            },
        )
    }

    /// Returns the positive image width in texels.
    pub fn width(&self) -> (r: u32)
        ensures
            r == self.spec_width(),
    {
        self.data.width
    }

    /// Returns the positive image height in texels.
    pub fn height(&self) -> (r: u32)
        ensures
            r == self.spec_height(),
    {
        self.data.height
    }

    /// Returns tightly packed immutable base-level sRGB RGBA8 bytes.
    pub fn pixels(&self) -> (r: &[u8])
        ensures
            r@ == self.spec_pixels(),
            r@.len() == rgba8_bytes(self.spec_width() as int, self.spec_height() as int),
    {
        proof {
            use_type_invariant(self);
        }
        self.data.pixels.as_slice()
    }

    /// Returns retained base-level pixel capacity, at least the pixel length.
    pub fn source_bytes(&self) -> (r: usize)
        ensures
            r == self.spec_source_bytes(),
            r >= self.spec_pixels().len(),
    {
        proof {
            use_type_invariant(self);
        }
        self.data.capacity
    }

    /// Reports shared snapshot identity, not equality of pixel contents.
    pub fn shares_storage(&self, other: &Self) -> (r: bool)
        ensures
            r == (self.spec_key() == other.spec_key()),
    {
        self.key() == other.key()
    }

    /// Reports whether this snapshot was patched directly from `previous`.
    /// Equal pixel contents do not imply a revision relationship.
    pub fn is_direct_revision_of(&self, previous: &Self) -> (r: bool)
        ensures
            r == (self.spec_parent() == Some(previous.spec_key())),
    {
        match self.data.parent {
            Some(parent) => parent == previous.key(),
            None => false,
        }
    }

    /// Returns the snapshot's revision identity.
    pub fn key(&self) -> (r: u64)
        ensures
            r == self.spec_key(),
    {
        self.data.revision
    }

    /// Returns the identity of the immediate parent, or `None` for a fresh image.
    pub fn parent_key(&self) -> (r: Option<u64>)
        ensures
            r == self.spec_parent(),
    {
        self.data.parent
    }

    /// Returns the patch from the immediate parent, or `None` for a fresh image.
    /// It is not a cumulative patch relative to older snapshots.
    pub fn updated_region(&self) -> (r: Option<ImageRegion>)
        ensures
            r == self.spec_updated_region(),
    {
        self.data.region
    }

    /// Copies a rectangular strided patch into a new complete CPU snapshot.
    ///
    /// `row_stride` is in bytes and must cover each patch row. The input length
    /// must equal `(height - 1) * row_stride + width * 4`; final-row padding is
    /// not supplied. The inclusive limit bounds the new pixel allocation.
    /// Failure leaves every existing snapshot and the issuer unchanged.
    pub fn with_region_update(
        &self,
        region: ImageRegion,
        row_stride: usize,
        pixels: &[u8],
        max_source_bytes: usize,
        revisions: &mut TextureRevisions,
    ) -> (r: Result<Self, TextureVisualError>)
        requires
            region_is_valid(
                region.spec_x(),
                region.spec_y(),
                region.spec_width(),
                region.spec_height(),
            ),
        ensures
            !patch_fits(self.spec_width(), self.spec_height(), region) ==> r == Err::<
                Self,
                TextureVisualError,
            >(TextureVisualError::RegionOutOfBounds),
            patch_fits(self.spec_width(), self.spec_height(), region) && patch_span_bytes(
                region,
                row_stride as int,
            ) > usize::MAX ==> r == Err::<Self, TextureVisualError>(
                TextureVisualError::SizeOverflow,
            ),
            patch_fits(self.spec_width(), self.spec_height(), region) && patch_span_bytes(
                region,
                row_stride as int,
            ) <= usize::MAX && !patch_layout_fits(region, row_stride as int, pixels@.len() as int)
                ==> r == Err::<Self, TextureVisualError>(TextureVisualError::InvalidPatchLayout),
            patch_fits(self.spec_width(), self.spec_height(), region) && patch_layout_fits(
                region,
                row_stride as int,
                pixels@.len() as int,
            ) && self.spec_pixels().len() <= max_source_bytes ==> {
                ||| r is Ok
                ||| r == Err::<Self, TextureVisualError>(
                    TextureVisualError::AllocationFailed {
                        requested_bytes: self.spec_pixels().len() as usize,
                    },
                )
                ||| is_source_limit(r)
                ||| r == Err::<Self, TextureVisualError>(TextureVisualError::IdentityExhausted)
                    && old(revisions).spec_next() == u64::MAX
            },
            patch_fits(self.spec_width(), self.spec_height(), region) && patch_layout_fits(
                region,
                row_stride as int,
                pixels@.len() as int,
            ) && self.spec_pixels().len() > max_source_bytes ==> r == Err::<
                Self,
                TextureVisualError,
            >(
                TextureVisualError::SourceLimit {
                    requested: self.spec_pixels().len() as usize,
                    limit: max_source_bytes,
                },
            ),
            patch_fits(self.spec_width(), self.spec_height(), region) && patch_layout_fits(
                region,
                row_stride as int,
                pixels@.len() as int,
            ) && max_source_bytes == usize::MAX && old(revisions).spec_next() < u64::MAX ==> {
                ||| r is Ok
                ||| r == Err::<Self, TextureVisualError>(
                    TextureVisualError::AllocationFailed {
                        requested_bytes: self.spec_pixels().len() as usize,
                    },
                )
            },
            r is Err ==> final(revisions).spec_next() == old(revisions).spec_next(),
            r matches Err(TextureVisualError::AllocationFailed { requested_bytes }) ==> requested_bytes
                == self.spec_pixels().len(),
            r matches Err(TextureVisualError::SourceLimit { requested, limit }) ==> limit
                == max_source_bytes && requested > max_source_bytes && requested
                >= self.spec_pixels().len(),
            r matches Ok(texture) ==> {
                &&& patch_fits(self.spec_width(), self.spec_height(), region)
                &&& patch_layout_fits(region, row_stride as int, pixels@.len() as int)
                &&& self.spec_pixels().len() <= texture.spec_source_bytes() <= max_source_bytes
                &&& old(revisions).spec_next() < u64::MAX
                &&& texture.spec_width() == self.spec_width()
                &&& texture.spec_height() == self.spec_height()
                &&& patched(
                    self.spec_pixels(),
                    texture.spec_pixels(),
                    self.spec_width(),
                    region,
                    row_stride as int,
                    pixels@,
                )
                &&& texture.spec_key() == old(revisions).spec_next()
                &&& self.spec_key() < old(revisions).spec_next() ==> texture.spec_key()
                    != self.spec_key()
                &&& texture.spec_parent() == Some(self.spec_key())
                &&& texture.spec_updated_region() == Some(region)
                &&& final(revisions).spec_next() == old(revisions).spec_next() + 1
            },
    {
        proof {
            use_type_invariant(self);
        }
        let width = self.data.width;
        let height = self.data.height;
        let rx = region.x();
        let ry = region.y();
        let rw = region.width();
        let rh = region.height();
        if rx as u64 + rw as u64 > width as u64 || ry as u64 + rh as u64 > height as u64 {
            return Err(TextureVisualError::RegionOutOfBounds);
        }
        let row_bytes = pixel_bytes(rw, 1)?;
        proof {
            assert(rw * 1 * 4 == rw * 4) by (nonlinear_arith);
        }
        let patch_length = pixels.len();
        let last_row = (rh - 1) as usize;
        let required = match last_row.checked_mul(row_stride) {
            Some(bytes) => match bytes.checked_add(row_bytes) {
                Some(total) => total,
                None => return Err(TextureVisualError::SizeOverflow),
            },
            None => return Err(TextureVisualError::SizeOverflow),
        };
        if row_stride < row_bytes || pixels.len() != required {
            return Err(TextureVisualError::InvalidPatchLayout);
        }
        let size = self.data.pixels.len();
        check_bytes(size, max_source_bytes)?;
        let mut revised: Vec<u8> = Vec::new();
        if !vec_try_reserve_exact(&mut revised, size) {
            return Err(TextureVisualError::AllocationFailed { requested_bytes: size });
        }
        revised.extend_from_slice(self.data.pixels.as_slice());
        let capacity = vec_capacity(&revised);
        check_bytes(capacity, max_source_bytes)?;
        let ghost before = self.data.pixels@;
        proof {
            assert(revised@ =~= before);
            assert(size == width * height * 4);
            assert(width * 4 <= width * height * 4) by (nonlinear_arith)
                requires
                    height >= 1,
            ;
        }
        let destination_stride = (width as usize) * 4;
        let mut row: usize = 0;
        while row < rh as usize
            invariant
                self.spec_pixels() == before,
                before.len() == width * height * 4,
                size == before.len(),
                destination_stride == width * 4,
                width == self.spec_width(),
                rx == region.spec_x(),
                ry == region.spec_y(),
                rw == region.spec_width(),
                rh == region.spec_height(),
                rx + rw <= width,
                ry + rh <= height,
                row_bytes == rw * 4,
                row_bytes <= row_stride,
                pixels@.len() == (rh - 1) * row_stride + row_bytes,
                required == pixels@.len(),
                row <= rh,
                revised@.len() == size,
                size <= capacity <= max_source_bytes,
                forall|r: int, c: int|
                    0 <= r < row && 0 <= c < rw * 4 ==> revised@[#[trigger] patch_target(
                        width,
                        region,
                        r,
                        c,
                    )] == pixels@[r * row_stride + c],
                forall|index: int|
                    0 <= index < size && !(exists|r: int, c: int|
                        0 <= r < row && 0 <= c < rw * 4 && index == #[trigger] patch_target(
                            width,
                            region,
                            r,
                            c,
                        )) ==> #[trigger] revised@[index] == before[index],
            decreases rh - row,
        {
            let mut col: usize = 0;
            while col < row_bytes
                invariant
                    self.spec_pixels() == before,
                    before.len() == width * height * 4,
                    size == before.len(),
                    destination_stride == width * 4,
                    width == self.spec_width(),
                    rx == region.spec_x(),
                    ry == region.spec_y(),
                    rw == region.spec_width(),
                    rh == region.spec_height(),
                    rx + rw <= width,
                    ry + rh <= height,
                    row_bytes == rw * 4,
                    row_bytes <= row_stride,
                    pixels@.len() == (rh - 1) * row_stride + row_bytes,
                    required == pixels@.len(),
                    row < rh,
                    col <= row_bytes,
                    revised@.len() == size,
                    forall|r: int, c: int|
                        0 <= r < row && 0 <= c < rw * 4 ==> revised@[#[trigger] patch_target(
                            width,
                            region,
                            r,
                            c,
                        )] == pixels@[r * row_stride + c],
                    forall|c: int|
                        0 <= c < col ==> revised@[#[trigger] patch_target(
                            width,
                            region,
                            row as int,
                            c,
                        )] == pixels@[row * row_stride + c],
                    forall|index: int|
                        0 <= index < size && !(exists|r: int, c: int|
                            0 <= r < row && 0 <= c < rw * 4 && index == #[trigger] patch_target(
                                width,
                                region,
                                r,
                                c,
                            )) && !(exists|c: int|
                            0 <= c < col && index == #[trigger] patch_target(
                                width,
                                region,
                                row as int,
                                c,
                            )) ==> #[trigger] revised@[index] == before[index],
                decreases row_bytes - col,
            {
                proof {
                    lemma_target_in_bounds(width, height, region, row as int, col as int);
                    lemma_source_in_bounds(
                        row_stride as int,
                        rh as int,
                        row_bytes as int,
                        row as int,
                        col as int,
                    );
                }
                let destination = (ry as usize + row) * destination_stride + (rx as usize) * 4
                    + col;
                let source = row * row_stride + col;
                let ghost previous = revised@;
                revised.set(destination, pixels[source]);
                proof {
                    assert forall|r: int, c: int|
                        0 <= r < row && 0 <= c < rw * 4 implies revised@[#[trigger] patch_target(
                        width,
                        region,
                        r,
                        c,
                    )] == pixels@[r * row_stride + c] by {
                        lemma_targets_distinct(width, region, r, c, row as int, col as int);
                        lemma_target_in_bounds(width, height, region, r, c);
                        assert(revised@[patch_target(width, region, r, c)] == previous[patch_target(
                            width,
                            region,
                            r,
                            c,
                        )]);
                    }
                    assert forall|c: int|
                        0 <= c < col + 1 implies revised@[#[trigger] patch_target(
                        width,
                        region,
                        row as int,
                        c,
                    )] == pixels@[row * row_stride + c] by {
                        if c != col as int {
                            lemma_targets_distinct(width, region, row as int, c, row as int, col as int);
                            lemma_target_in_bounds(width, height, region, row as int, c);
                            assert(revised@[patch_target(width, region, row as int, c)]
                                == previous[patch_target(width, region, row as int, c)]);
                        }
                    }
                    assert forall|index: int|
                        0 <= index < size && !(exists|r: int, c: int|
                            0 <= r < row && 0 <= c < rw * 4 && index == #[trigger] patch_target(
                                width,
                                region,
                                r,
                                c,
                            )) && !(exists|c: int|
                            0 <= c < col + 1 && index == #[trigger] patch_target(
                                width,
                                region,
                                row as int,
                                c,
                            )) implies #[trigger] revised@[index] == before[index] by {
                        assert(index != destination as int) by {
                            if index == destination as int {
                                assert(index == patch_target(width, region, row as int, col as int));
                            }
                        }
                        assert(revised@[index] == previous[index]);
                    }
                }
                col = col + 1;
            }
            proof {
                assert forall|r: int, c: int|
                    0 <= r < row + 1 && 0 <= c < rw * 4 implies revised@[#[trigger] patch_target(
                    width,
                    region,
                    r,
                    c,
                )] == pixels@[r * row_stride + c] by {
                    if r == row as int {
                        assert(revised@[patch_target(width, region, row as int, c)]
                            == pixels@[row * row_stride + c]);
                    }
                }
                assert forall|index: int|
                    0 <= index < size && !(exists|r: int, c: int|
                        0 <= r < row + 1 && 0 <= c < rw * 4 && index == #[trigger] patch_target(
                            width,
                            region,
                            r,
                            c,
                        )) implies #[trigger] revised@[index] == before[index] by {
                    assert(!(exists|c: int|
                        0 <= c < row_bytes && index == #[trigger] patch_target(
                            width,
                            region,
                            row as int,
                            c,
                        ))) by {
                        if exists|c: int|
                            0 <= c < row_bytes && index == #[trigger] patch_target(
                                width,
                                region,
                                row as int,
                                c,
                            ) {
                            let c = choose|c: int|
                                0 <= c < row_bytes && index == #[trigger] patch_target(
                                    width,
                                    region,
                                    row as int,
                                    c,
                                );
                            assert(0 <= row < row + 1 && 0 <= c < rw * 4 && index == patch_target(
                                width,
                                region,
                                row as int,
                                c,
                            ));
                        }
                    }
                    assert(!(exists|r: int, c: int|
                        0 <= r < row && 0 <= c < rw * 4 && index == #[trigger] patch_target(
                            width,
                            region,
                            r,
                            c,
                        ))) by {
                        if exists|r: int, c: int|
                            0 <= r < row && 0 <= c < rw * 4 && index == #[trigger] patch_target(
                                width,
                                region,
                                r,
                                c,
                            ) {
                            let (r, c) = choose|r: int, c: int|
                                0 <= r < row && 0 <= c < rw * 4 && index == #[trigger] patch_target(
                                    width,
                                    region,
                                    r,
                                    c,
                                );
                            assert(0 <= r < row + 1 && 0 <= c < rw * 4 && index == patch_target(
                                width,
                                region,
                                r,
                                c,
                            ));
                        }
                    }
                }
            }
            row = row + 1;
        }
        let revision = revisions.issue_revision()?;
        Ok(
            TextureAsset3d {
                data: Arc::new(
                    TextureData {
                        width,
                        height,
                        pixels: revised,
                        capacity,
                        revision,
                        parent: Some(self.data.revision),
                        region: Some(region),
                    },
                ),
            },
        )
    }
}

impl PartialEq for TextureAsset3d {
    /// Snapshots are equal exactly when they share one revision identity.
    fn eq(&self, other: &Self) -> (r: bool) {
        self.shares_storage(other)
    }
}

impl Eq for TextureAsset3d {

}

impl PartialEqSpecImpl for TextureAsset3d {
    open spec fn obeys_eq_spec() -> bool {
        true
    }

    open spec fn eq_spec(&self, other: &Self) -> bool {
        self.spec_key() == other.spec_key()
    }
}

/// Identities issued later by one issuer differ from every identity it issued
/// before, so a fresh snapshot or revision never shares storage with, nor is
/// equal to, any earlier snapshot of the same issuer.
pub proof fn fresh_snapshots_never_share_storage(
    earlier: TextureAsset3d,
    fresh: TextureAsset3d,
    revisions_before: u64,
)
    requires
        earlier.spec_key() < revisions_before,
        fresh.spec_key() == revisions_before,
    ensures
        earlier.spec_key() != fresh.spec_key(),
        !PartialEqSpec::eq_spec(&earlier, &fresh),
{
}

impl Clone for TextureAsset3d {
    /// Shares the same immutable snapshot and identity.
    fn clone(&self) -> (copy: Self)
        ensures
            copy == *self,
    {
        proof {
            use_type_invariant(self);
        }
        TextureAsset3d { data: arc_clone(&self.data) }
    }
}

/// The next mip level's dimensions: halved, never below one.
pub open spec fn next_level(width: int, height: int) -> (int, int) {
    (if width / 2 < 1 { 1 } else { width / 2 }, if height / 2 < 1 { 1 } else { height / 2 })
}

/// Bytes of the RGBA8 mip levels strictly after a `width` by `height` level.
pub open spec fn mip_tail_bytes(width: int, height: int) -> int
    decreases width + height,
{
    if width >= 1 && height >= 1 && (width > 1 || height > 1) {
        let (w, h) = next_level(width, height);
        rgba8_bytes(w, h) + mip_tail_bytes(w, h)
    } else {
        0
    }
}

/// Nominal RGBA8 texel bytes of a `width` by `height` texture: its base
/// level, plus every mip level down to one texel when mipmaps are enabled.
pub open spec fn spec_texel_bytes(width: u32, height: u32, mipmaps: bool) -> Result<
    usize,
    TextureVisualError,
> {
    if width == 0 || height == 0 {
        Err(TextureVisualError::InvalidDimensions)
    } else {
        let total = rgba8_bytes(width as int, height as int) + if mipmaps {
            mip_tail_bytes(width as int, height as int)
        } else {
            0
        };
        if total > usize::MAX {
            Err(TextureVisualError::SizeOverflow)
        } else {
            Ok(total as usize)
        }
    }
}

proof fn lemma_mip_tail_nonnegative(width: int, height: int)
    ensures
        mip_tail_bytes(width, height) >= 0,
    decreases width + height,
{
    if width >= 1 && height >= 1 && (width > 1 || height > 1) {
        let (w, h) = next_level(width, height);
        lemma_mip_tail_nonnegative(w, h);
        assert(rgba8_bytes(w, h) >= 0) by (nonlinear_arith)
            requires
                w >= 1,
                h >= 1,
        ;
    }
}

/// Computes the nominal RGBA8 texel bytes of a texture with the given base
/// dimensions, with or without a complete mip chain.
pub fn texel_bytes(width: u32, height: u32, mipmaps: bool) -> (r: Result<usize, TextureVisualError>)
    ensures
        r == spec_texel_bytes(width, height, mipmaps),
{
    let mut w = width;
    let mut h = height;
    proof {
        lemma_mip_tail_nonnegative(width as int, height as int);
    }
    let mut bytes = pixel_bytes(w, h)?;
    if !mipmaps {
        return Ok(bytes);
    }
    while w > 1 || h > 1
        invariant
            w >= 1,
            h >= 1,
            width >= 1,
            height >= 1,
            mipmaps,
            bytes + mip_tail_bytes(w as int, h as int) == rgba8_bytes(width as int, height as int)
                + mip_tail_bytes(width as int, height as int),
        decreases w + h,
    {
        let next_w = if w / 2 < 1 { 1 } else { w / 2 };
        let next_h = if h / 2 < 1 { 1 } else { h / 2 };
        proof {
            lemma_mip_tail_nonnegative(next_w as int, next_h as int);
            assert(rgba8_bytes(next_w as int, next_h as int) >= 0) by (nonlinear_arith)
                requires
                    next_w >= 1,
                    next_h >= 1,
            ;
        }
        let level = match pixel_bytes(next_w, next_h) {
            Ok(level) => level,
            Err(error) => {
                return Err(error);
            },
        };
        bytes = match bytes.checked_add(level) {
            Some(sum) => sum,
            None => {
                return Err(TextureVisualError::SizeOverflow);
            },
        };
        w = next_w;
        h = next_h;
    }
    Ok(bytes)
}

/// Two textures share uploaded storage when they hold the same snapshot
/// with the same mip policy; sampling choices do not matter.
pub fn same_texture(
    left: &TextureAsset3d,
    left_mipmaps: bool,
    right: &TextureAsset3d,
    right_mipmaps: bool,
) -> (same: bool)
    ensures
        same == (left.spec_key() == right.spec_key() && left_mipmaps == right_mipmaps),
{
    left.shares_storage(right) && left_mipmaps == right_mipmaps
}

/// A texture may be patched in place only by its immediate child snapshot
/// with the same mip policy.
pub fn can_patch(
    old: &TextureAsset3d,
    old_mipmaps: bool,
    new: &TextureAsset3d,
    new_mipmaps: bool,
) -> (patchable: bool)
    ensures
        patchable == (new.spec_parent() == Some(old.spec_key()) && old_mipmaps == new_mipmaps),
{
    new.is_direct_revision_of(old) && old_mipmaps == new_mipmaps
}


/// Offset in a tightly packed image of the first byte of `region`.
pub open spec fn patch_start(image_width: u32, region: ImageRegion) -> int {
    region.spec_y() * (image_width * 4) + region.spec_x() * 4
}

/// Bytes from the first byte of `region` through its last: every row but the
/// last spans a whole image row, padding included; the last stops at the
/// region's right edge.
pub open spec fn patch_span(image_width: u32, region: ImageRegion) -> int {
    (region.spec_height() - 1) * (image_width * 4) + region.spec_width() * 4
}

/// The upload window of a patched snapshot: its patch rectangle, the image's
/// row stride in bytes, and the bytes from the rectangle's first texel
/// through its last, read in place. A fresh snapshot, an invalid rectangle,
/// or a window past the pixels is an inconsistent cache.
pub fn patch_source(asset: &TextureAsset3d) -> (r: Result<
    (ImageRegion, usize, &[u8]),
    DesktopThreeDError,
>)
    ensures
        ({
            let width = asset.spec_width();
            let pixels = asset.spec_pixels();
            match asset.spec_updated_region() {
                None => r == Err::<(ImageRegion, usize, &[u8]), DesktopThreeDError>(
                    DesktopThreeDError::InvalidCache,
                ),
                Some(region) => {
                    let start = patch_start(width, region);
                    let end = start + patch_span(width, region);
                    if region_is_valid(
                        region.spec_x(),
                        region.spec_y(),
                        region.spec_width(),
                        region.spec_height(),
                    ) && end <= pixels.len() {
                        &&& r is Ok
                        &&& r->Ok_0.0 == region
                        &&& r->Ok_0.1 == width * 4
                        &&& r->Ok_0.2@ == pixels.subrange(start, end)
                    } else {
                        r == Err::<(ImageRegion, usize, &[u8]), DesktopThreeDError>(
                            DesktopThreeDError::InvalidCache,
                        )
                    }
                },
            }
        }),
{
    proof {
        use_type_invariant(asset);
    }
    let region = match asset.updated_region() {
        Some(region) => region,
        None => return Err(DesktopThreeDError::InvalidCache),
    };
    let x = region.x();
    let y = region.y();
    let region_width = region.width();
    let region_height = region.height();
    if region_width == 0 || region_height == 0 || x > u32::MAX - region_width || y > u32::MAX
        - region_height {
        return Err(DesktopThreeDError::InvalidCache);
    }
    let pixels = asset.pixels();
    let image_width = asset.width();
    let ghost len = pixels@.len();
    proof {
        assert(image_width * 4 <= len) by (nonlinear_arith)
            requires
                len == rgba8_bytes(image_width as int, asset.spec_height() as int),
                asset.spec_height() >= 1,
                image_width >= 0,
        ;
    }
    let pixel_len = pixels.len();
    proof {
        let w4 = image_width * 4;
        assert(0 <= y * w4) by (nonlinear_arith)
            requires
                y >= 0,
                w4 >= 0,
        ;
        assert(0 <= (region_height - 1) * w4) by (nonlinear_arith)
            requires
                region_height >= 1,
                w4 >= 0,
        ;
    }
    let stride = (image_width as usize) * 4;
    let x_bytes = match (x as usize).checked_mul(4) {
        Some(bytes) => bytes,
        None => return Err(DesktopThreeDError::InvalidCache),
    };
    let row_bytes = match (region_width as usize).checked_mul(4) {
        Some(bytes) => bytes,
        None => return Err(DesktopThreeDError::InvalidCache),
    };
    let start = match (y as usize).checked_mul(stride) {
        Some(offset) => match offset.checked_add(x_bytes) {
            Some(start) => start,
            None => return Err(DesktopThreeDError::InvalidCache),
        },
        None => return Err(DesktopThreeDError::InvalidCache),
    };
    let length = match ((region_height - 1) as usize).checked_mul(stride) {
        Some(rows) => match rows.checked_add(row_bytes) {
            Some(length) => length,
            None => return Err(DesktopThreeDError::InvalidCache),
        },
        None => return Err(DesktopThreeDError::InvalidCache),
    };
    let end = match start.checked_add(length) {
        Some(end) => end,
        None => return Err(DesktopThreeDError::InvalidCache),
    };
    if end > pixel_len {
        return Err(DesktopThreeDError::InvalidCache);
    }
    Ok((region, stride, vstd::slice::slice_subrange(pixels, start, end)))
}

} // verus!
