//! Turning an uploaded byte buffer into an RGB pixel buffer.
use vstd::prelude::*;
use crate::error::OcrError;

verus! {

/// Three channels per pixel: red, green, blue.
pub const CHANNELS: usize = 3;

/// What stb_image yields for a buffer when asked for three channels: the
/// pixels, the width, the height and the channel count, or nothing when the
/// buffer is not an image it can read.
pub uninterp spec fn stb_rgb_decoding(bytes: Seq<u8>) -> Option<(Seq<u8>, usize, usize, usize)>;

/// A decoded image: `width * height` pixels of three bytes each, row by row.
pub struct DecodedImage {
    pub pixels: Vec<u8>,
    pub width: u32,
    pub height: u32,
}

impl DecodedImage {
    /// The pixel buffer holds exactly three bytes for each pixel.
    pub open spec fn wf(&self) -> bool {
        self.pixels@.len() == self.width as int * self.height as int * 3
    }
}

/// Relies on stb_image::image::load_from_memory_with_depth with three forced
/// channels and HDR converted to eight bits: it yields `ImageU8` with depth 3
/// and `width * height * 3` bytes, or `Error`.
#[verifier::external_body]
fn stb_load_rgb(bytes: &[u8]) -> (r: Option<(Vec<u8>, usize, usize, usize)>)
    requires
        bytes@.len() <= i32::MAX,
    ensures
        match r {
            Some((data, w, h, c)) => {
                &&& stb_rgb_decoding(bytes@) == Some((data@, w, h, c))
                &&& c == 3
                &&& data@.len() == w * h * c
            },
            None => stb_rgb_decoding(bytes@) is None,
        },
{
    match stb_image::image::load_from_memory_with_depth(bytes, CHANNELS, true) {
        stb_image::image::LoadResult::ImageU8(img) => Some((img.data, img.width, img.height, img.depth)),
        stb_image::image::LoadResult::ImageF32(_) => None,
        stb_image::image::LoadResult::Error(_) => None,
    }
}

/// Relies on Vec::try_reserve_exact: it reserves room for `additional` more
/// bytes, reporting an error when the capacity overflows or the allocator
/// fails; the contents are left as they were either way.
#[verifier::external_body]
fn try_reserve_exact(v: &mut Vec<u8>, additional: usize) -> (ok: bool)
    ensures
        final(v)@ == old(v)@,
{
    v.try_reserve_exact(additional).is_ok()
}

/// An empty buffer for a request body of the declared length, reserved
/// fallibly so that an oversized declaration fails the request instead of
/// aborting the process.
pub fn body_buffer(declared_len: usize) -> (r: Result<Vec<u8>, OcrError>)
    ensures
        match r {
            Ok(v) => v@.len() == 0,
            Err(e) => e == OcrError::Decode,
        },
{
    let mut v: Vec<u8> = Vec::new();
    if try_reserve_exact(&mut v, declared_len) {
        Ok(v)
    } else {
        Err(OcrError::Decode)
    }
}

/// Whether the decoder's report describes a well-formed RGB image whose
/// dimensions fit in 32 bits.
pub open spec fn valid_decoding(data: Seq<u8>, width: usize, height: usize, channels: usize) -> bool {
    &&& channels == 3
    &&& width <= u32::MAX
    &&& height <= u32::MAX
    &&& data.len() == width * height * 3
}

/// Builds an image from what the decoder reported, refusing a report that
/// does not describe a three-channel image of 32-bit dimensions.
pub fn image_from_decoded(data: Vec<u8>, width: usize, height: usize, channels: usize) -> (r: Result<DecodedImage, OcrError>)
    ensures
        valid_decoding(data@, width, height, channels) <==> r is Ok,
        r matches Ok(img) ==> img.wf() && img.pixels@ == data@ && img.width == width && img.height == height,
        r matches Err(e) ==> e == OcrError::Decode,
{
    if channels != CHANNELS || width > u32::MAX as usize || height > u32::MAX as usize {
        return Err(OcrError::Decode);
    }
    let len = data.len();
    let area = match width.checked_mul(height) {
        Some(a) => a,
        None => return Err(OcrError::Decode),
    };
    match area.checked_mul(3) {
        Some(m) => {
            if m != len {
                return Err(OcrError::Decode);
            }
        },
        None => return Err(OcrError::Decode),
    }
    Ok(DecodedImage { pixels: data, width: width as u32, height: height as u32 })
}

/// The image a buffer decodes to: empty buffers and buffers too long for the
/// decoder are refused; otherwise the decoder's report, if well formed.
pub open spec fn decoded_image_of(bytes: Seq<u8>) -> Option<(Seq<u8>, usize, usize)> {
    if bytes.len() == 0 || bytes.len() > i32::MAX {
        None
    } else {
        match stb_rgb_decoding(bytes) {
            Some((data, w, h, c)) => if valid_decoding(data, w, h, c) { Some((data, w, h)) } else { None },
            None => None,
        }
    }
}

/// Decodes an uploaded buffer into a three-channel image; every failure is a
/// decode error, never a panic.
pub fn decode_image(bytes: &[u8]) -> (r: Result<DecodedImage, OcrError>)
    ensures
        match decoded_image_of(bytes@) {
            Some((data, w, h)) => r matches Ok(img) && img.wf() && img.pixels@ == data
                && img.width == w && img.height == h,
            None => r == Err::<DecodedImage, OcrError>(OcrError::Decode),
        },
{
    if bytes.len() == 0 || bytes.len() > i32::MAX as usize {
        return Err(OcrError::Decode);
    }
    match stb_load_rgb(bytes) {
        Some((data, w, h, c)) => image_from_decoded(data, w, h, c),
        None => Err(OcrError::Decode),
    }
}

} // verus!
