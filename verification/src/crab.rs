//! The optional Ferris mascot: decoding its embedded PNG into the 460 by 307
//! straight-alpha RGBA8 pixels that are registered as one ordinary image.

use vstd::prelude::*;
use crate::image::{ImageAssetId, ImageVisualError};
use crate::storage::vec_try_reserve_exact;

verus! {

/// Artwork width in texels.
pub const CRAB_WIDTH: u32 = 460;

/// Artwork height in texels.
pub const CRAB_HEIGHT: u32 = 307;

/// Tightly packed RGBA8 bytes of the artwork: 460 * 307 * 4.
pub const CRAB_PIXEL_BYTES: usize = 564_880;

/// Bytes the decoder may allocate while reading the artwork: 2 MiB.
pub const CRAB_PNG_LIMIT: usize = 2_097_152;

/// Declares `png::DecodingError` to Verus as an opaque type, carried
/// unopened in `CrabDrawError::Decode`.
#[verifier::external_type_specification]
#[verifier::external_body]
pub struct ExPngDecodingError(png::DecodingError);

/// Failed Ferris preparation; no World or renderer is modified.
#[derive(Debug)]
pub enum CrabDrawError {
    /// Destination geometry cannot be represented as a valid screen image.
    Visual(ImageVisualError),
    /// The pixel buffer could not be reserved.
    AllocationFailed {
        /// Bytes that could not be reserved.
        requested_bytes: usize,
    },
    /// The embedded PNG could not be decoded.
    Decode(png::DecodingError),
    /// The embedded artwork did not have its expected static RGBA layout.
    InvalidArtwork,
}

/// What `png` reads from the header of `bytes` when its decoder may allocate
/// `limit` bytes and skips text and ICC chunks: `None` on a decoding error,
/// else the width, the height, whether the colour type is RGBA, whether the
/// bit depth is eight, whether an animation control is present, and the
/// output buffer size.
pub uninterp spec fn spec_png_header(bytes: Seq<u8>, limit: usize) -> Option<
    (u32, u32, bool, bool, bool, Option<usize>),
>;

/// What `png` gives back when it decodes the first frame of `bytes` into
/// `buffer` with the same decoder settings: `None` on a decoding error, else
/// the frame's buffer size and the buffer's bytes afterwards.
pub uninterp spec fn spec_png_frame(bytes: Seq<u8>, limit: usize, buffer: Seq<u8>) -> Option<
    (usize, Seq<u8>),
>;

/// Calls `png::Decoder::new_with_limits` on the bytes with a `Limits` of
/// `limit` bytes, skips text and ICC chunks, calls `read_info`, and reads
/// the header fields and `output_buffer_size` of the reader. The outcome is
/// a function of the bytes and the limit alone; the error's contents are not
/// stated.
#[verifier::external_body]
fn png_read_header(bytes: &[u8], limit: usize) -> (r: Result<
    (u32, u32, bool, bool, bool, Option<usize>),
    png::DecodingError,
>)
    ensures
        r is Ok <==> spec_png_header(bytes@, limit) is Some,
        r matches Ok(header) ==> spec_png_header(bytes@, limit) == Some(header),
{
    let limits = png::Limits { bytes: limit };
    let mut decoder = png::Decoder::new_with_limits(std::io::Cursor::new(bytes), limits);
    decoder.set_ignore_text_chunk(true);
    decoder.set_ignore_iccp_chunk(true);
    let reader = decoder.read_info()?;
    let info = reader.info();
    let rgba = matches!(info.color_type, png::ColorType::Rgba);
    let eight_bit = matches!(info.bit_depth, png::BitDepth::Eight);
    let animated = info.animation_control.is_some();
    Ok((info.width, info.height, rgba, eight_bit, animated, reader.output_buffer_size()))
}

/// Decodes the first frame of the bytes into `pixels` with the decoder
/// settings of `png_read_header`, through `read_info` and
/// `Reader::next_frame`, and gives back `OutputInfo::buffer_size`. The
/// buffer keeps its length; the outcome is a function of the bytes, the
/// limit and the buffer's former contents; the error's contents are not
/// stated.
#[verifier::external_body]
fn png_read_frame(bytes: &[u8], limit: usize, pixels: &mut Vec<u8>) -> (r: Result<
    usize,
    png::DecodingError,
>)
    ensures
        final(pixels)@.len() == old(pixels)@.len(),
        r is Ok <==> spec_png_frame(bytes@, limit, old(pixels)@) is Some,
        r matches Ok(size) ==> spec_png_frame(bytes@, limit, old(pixels)@) == Some(
            (size, final(pixels)@),
        ),
{
    let limits = png::Limits { bytes: limit };
    let mut decoder = png::Decoder::new_with_limits(std::io::Cursor::new(bytes), limits);
    decoder.set_ignore_text_chunk(true);
    decoder.set_ignore_iccp_chunk(true);
    let mut reader = decoder.read_info()?;
    let frame = reader.next_frame(pixels.as_mut_slice())?;
    Ok(frame.buffer_size())
}

/// A header describes the expected artwork: 460 by 307, RGBA, eight bits per
/// sample, not animated, and exactly the packed pixel size on output.
pub open spec fn crab_layout_matches(header: (u32, u32, bool, bool, bool, Option<usize>)) -> bool {
    let (width, height, rgba, eight_bit, animated, output) = header;
    &&& width == CRAB_WIDTH
    &&& height == CRAB_HEIGHT
    &&& rgba
    &&& eight_bit
    &&& !animated
    &&& output == Some(CRAB_PIXEL_BYTES)
}

/// The zero-filled buffer that the frame is decoded into.
pub open spec fn crab_buffer() -> Seq<u8> {
    Seq::new(CRAB_PIXEL_BYTES as nat, |i: int| 0u8)
}

/// Checks a decoded header against the expected artwork layout.
pub fn check_crab_header(header: (u32, u32, bool, bool, bool, Option<usize>)) -> (r: Result<
    (),
    CrabDrawError,
>)
    ensures
        crab_layout_matches(header) ==> r is Ok,
        !crab_layout_matches(header) ==> r matches Err(CrabDrawError::InvalidArtwork),
{
    let (width, height, rgba, eight_bit, animated, output) = header;
    let sized = match output {
        Some(size) => size == CRAB_PIXEL_BYTES,
        None => false,
    };
    if width == CRAB_WIDTH && height == CRAB_HEIGHT && rgba && eight_bit && !animated && sized {
        Ok(())
    } else {
        Err(CrabDrawError::InvalidArtwork)
    }
}

/// Checks the buffer size of a decoded frame against the packed pixel size.
pub fn check_crab_frame(buffer_size: usize) -> (r: Result<(), CrabDrawError>)
    ensures
        buffer_size == CRAB_PIXEL_BYTES ==> r is Ok,
        buffer_size != CRAB_PIXEL_BYTES ==> r matches Err(CrabDrawError::InvalidArtwork),
{
    if buffer_size == CRAB_PIXEL_BYTES {
        Ok(())
    } else {
        Err(CrabDrawError::InvalidArtwork)
    }
}

/// What decoding `bytes` as the Ferris artwork gives back. A header that
/// cannot be read is a decoding error; a header of another layout is
/// rejected before the pixel buffer is reserved; once the buffer is reserved
/// the first frame is decoded into it, and a frame of another size is
/// rejected. Only the reservation can fail otherwise.
pub open spec fn crab_decode_outcome(bytes: Seq<u8>, r: Result<Vec<u8>, CrabDrawError>) -> bool {
    let header = spec_png_header(bytes, CRAB_PNG_LIMIT);
    let layout_ok = header is Some && crab_layout_matches(header->0);
    &&& header is None ==> (r matches Err(CrabDrawError::Decode(_)))
    &&& header is Some && !layout_ok ==> (r matches Err(CrabDrawError::InvalidArtwork))
    &&& layout_ok && !(r matches Err(CrabDrawError::AllocationFailed { .. })) ==> (match spec_png_frame(
        bytes,
        CRAB_PNG_LIMIT,
        crab_buffer(),
    ) {
        None => r matches Err(CrabDrawError::Decode(_)),
        Some((size, decoded)) => if size == CRAB_PIXEL_BYTES {
            r matches Ok(pixels) && pixels@ == decoded
        } else {
            r matches Err(CrabDrawError::InvalidArtwork)
        },
    })
    &&& (r matches Err(CrabDrawError::AllocationFailed { requested_bytes })
        ==> requested_bytes == CRAB_PIXEL_BYTES && layout_ok)
    &&& (r matches Ok(pixels) ==> pixels@.len() == CRAB_PIXEL_BYTES)
}

/// Decodes the Ferris PNG into its 564,880 RGBA8 pixel bytes, as
/// `crab_decode_outcome` describes.
pub fn decode_crab(bytes: &[u8]) -> (r: Result<Vec<u8>, CrabDrawError>)
    ensures
        crab_decode_outcome(bytes@, r),
{
    let header = match png_read_header(bytes, CRAB_PNG_LIMIT) {
        Ok(header) => header,
        Err(error) => return Err(CrabDrawError::Decode(error)),
    };
    check_crab_header(header)?;
    let mut pixels: Vec<u8> = Vec::new();
    if !vec_try_reserve_exact(&mut pixels, CRAB_PIXEL_BYTES) {
        return Err(CrabDrawError::AllocationFailed { requested_bytes: CRAB_PIXEL_BYTES });
    }
    pixels.resize(CRAB_PIXEL_BYTES, 0);
    proof {
        assert forall|i: int| 0 <= i < CRAB_PIXEL_BYTES implies pixels@[i] == 0u8 by {
            assert(cloned::<u8>(0u8, pixels@[i]));
        }
        assert(pixels@ =~= crab_buffer());
    }
    let size = match png_read_frame(bytes, CRAB_PNG_LIMIT, &mut pixels) {
        Ok(size) => size,
        Err(error) => return Err(CrabDrawError::Decode(error)),
    };
    check_crab_frame(size)?;
    Ok(pixels)
}

/// Why Ferris's image could not be had.
#[derive(Debug)]
pub enum CrabImageError<E> {
    /// The artwork could not be decoded.
    Artwork(CrabDrawError),
    /// The application refused to register the decoded image.
    Image(E),
}

/// The Ferris image of one application: registered by the first successful
/// call, then reused by every later call.
#[derive(Debug, Clone, Copy, PartialEq, Eq, Structural)]
pub struct CrabImage {
    image: Option<ImageAssetId>,
}

impl CrabImage {
    /// The registered image, if any.
    pub closed spec fn spec_image(self) -> Option<ImageAssetId> {
        self.image
    }

    /// An application with no Ferris image yet.
    pub fn new() -> (r: Self)
        ensures
            r.spec_image() is None,
    {
        CrabImage { image: None }
    }

    /// The registered image, if any.
    pub fn image(&self) -> (r: Option<ImageAssetId>)
        ensures
            r == self.spec_image(),
    {
        self.image
    }

    /// Gives the registered image; without one, decodes the artwork and
    /// registers its pixels through `register`, keeping the handle only on
    /// success. Nothing is decoded or registered once an image is kept.
    pub fn image_or_register<E, F: FnOnce(Vec<u8>) -> Result<ImageAssetId, E>>(
        &mut self,
        png_bytes: &[u8],
        register: F,
    ) -> (r: Result<ImageAssetId, CrabImageError<E>>)
        requires
            forall|pixels: Vec<u8>|
                pixels@.len() == CRAB_PIXEL_BYTES ==> #[trigger] call_requires(register, (pixels,)),
        ensures
            old(self).spec_image() matches Some(image) ==> r == Ok::<
                ImageAssetId,
                CrabImageError<E>,
            >(image) && *final(self) == *old(self),
            r matches Ok(image) ==> old(self).spec_image() is Some || final(self).spec_image()
                == Some(image),
            old(self).spec_image() is None && r is Err ==> final(self).spec_image() is None,
            r matches Err(CrabImageError::Artwork(error)) ==> old(self).spec_image() is None
                && crab_decode_outcome(png_bytes@, Err(error)),
            r matches Ok(image) ==> old(self).spec_image() is Some || exists|pixels: Vec<u8>|
                crab_decode_outcome(png_bytes@, Ok(pixels)) && #[trigger] call_ensures(
                    register,
                    (pixels,),
                    Ok::<ImageAssetId, E>(image),
                ),
            r matches Err(CrabImageError::Image(error)) ==> old(self).spec_image() is None
                && exists|pixels: Vec<u8>|
                crab_decode_outcome(png_bytes@, Ok(pixels)) && #[trigger] call_ensures(
                    register,
                    (pixels,),
                    Err::<ImageAssetId, E>(error),
                ),
    {
        if let Some(image) = self.image {
            return Ok(image);
        }
        let pixels = match decode_crab(png_bytes) {
            Ok(pixels) => pixels,
            Err(error) => return Err(CrabImageError::Artwork(error)),
        };
        let ghost decoded = pixels;
        let answer = register(pixels);
        assert(crab_decode_outcome(png_bytes@, Ok(decoded)));
        match answer {
            Ok(image) => {
                self.image = Some(image);
                assert(exists|pixels: Vec<u8>|
                    crab_decode_outcome(png_bytes@, Ok(pixels)) && #[trigger] call_ensures(
                        register,
                        (pixels,),
                        Ok::<ImageAssetId, E>(image),
                    )) by {
                    assert(call_ensures(register, (decoded,), Ok::<ImageAssetId, E>(image)));
                }
                Ok(image)
            },
            Err(error) => {
                assert(exists|pixels: Vec<u8>|
                    crab_decode_outcome(png_bytes@, Ok(pixels)) && #[trigger] call_ensures(
                        register,
                        (pixels,),
                        Err::<ImageAssetId, E>(error),
                    )) by {
                    assert(call_ensures(register, (decoded,), Err::<ImageAssetId, E>(error)));
                }
                let r = Err(CrabImageError::Image(error));
                assert(r matches Err(CrabImageError::Image(e)) && e == error);
                r
            },
        }
    }
}

} // verus!
