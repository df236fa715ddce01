//! Texture input: decoding a PNG byte stream and validating that it is
//! the square RGBA texture the renderer supports, with the mip-level
//! count derived from its dimensions.
//!
//! Decoding itself is done by the `png` crate behind a trusted wrapper;
//! everything decided about the decoded image is verified.

use vstd::prelude::*;

verus! {

/// The PNG color-type code for RGBA, as the format stores it.
pub const COLOR_TYPE_RGBA: u8 = 6;

/// The only texture edge length the renderer accepts.
pub const REQUIRED_TEXTURE_DIM: u32 = 1024;

/// What a PNG byte stream decodes to, as a mathematical value: decoding
/// depends on the bytes alone.
pub struct PngImage {
    pub width: u32,
    pub height: u32,
    pub color_code: u8,
    pub pixels: Seq<u8>,
}

/// The decoded image of a PNG byte stream, or `None` where decoding
/// fails; a function of the byte content alone.
pub uninterp spec fn png_decode_of(bytes: Seq<u8>) -> Option<PngImage>;

/// A decoded image: dimensions, color-type code, and raw pixel bytes.
#[derive(Clone, Debug)]
pub struct DecodedImage {
    pub width: u32,
    pub height: u32,
    pub color_code: u8,
    pub pixels: Vec<u8>,
}

/// Relies on png's `Decoder`, `Reader::next_frame` and `Reader::info`:
/// decoding a PNG byte stream yields dimensions, color type and pixel
/// bytes determined by the byte content alone, or fails deterministically.
#[verifier::external_body]
fn decode_png(bytes: &Vec<u8>) -> (r: Result<DecodedImage, String>)
    ensures
        match r {
            Ok(img) => png_decode_of(bytes@) == Some(PngImage {
                width: img.width,
                height: img.height,
                color_code: img.color_code,
                pixels: img.pixels@,
            }),
            Err(_) => png_decode_of(bytes@) is None,
        },
{
    let decoder = png::Decoder::new(std::io::Cursor::new(bytes.as_slice()));
    let mut reader = match decoder.read_info() {
        Ok(reader) => reader,
        Err(e) => return Err(e.to_string()),
    };
    let mut pixels = vec![0u8; reader.output_buffer_size()];
    if let Err(e) = reader.next_frame(&mut pixels) {
        return Err(e.to_string());
    }
    let info = reader.info();
    Ok(DecodedImage { width: info.width, height: info.height, color_code: info.color_type as u8, pixels })
}

/// Why texture loading can fail.
#[derive(Clone, Debug, PartialEq, Eq)]
pub enum TextureError {
    /// The texture file could not be opened: its path, and the system's
    /// error text.
    FileOpenError(String, String),
    /// The byte stream is not a decodable PNG: the decoder's error text.
    DecodingError(String),
    /// The image decoded, but is not a 1024 by 1024 RGBA texture.
    UnsupportedTextureError,
}

/// A validated texture ready for upload: dimensions, the mip chain's
/// length, and the raw RGBA pixel bytes.
#[derive(Clone, Debug)]
pub struct TexturePlan {
    pub width: u32,
    pub height: u32,
    pub mip_levels: u32,
    pub pixels: Vec<u8>,
}

/// Two to the power `e`.
pub open spec fn two_pow(e: nat) -> nat
    decreases e,
{
    if e == 0 {
        1
    } else {
        2 * two_pow((e - 1) as nat)
    }
}

/// The floor of the base-two logarithm, with `floor_log2(0) == 0`.
pub open spec fn floor_log2(n: nat) -> nat
    decreases n,
{
    if n <= 1 {
        0
    } else {
        1 + floor_log2(n / 2)
    }
}

/// How many mip levels an image of `w` by `h` pixels carries: the base
/// level plus one halving per power of two in the larger dimension.
pub open spec fn mip_level_count(w: nat, h: nat) -> nat {
    floor_log2(if w >= h { w } else { h }) + 1
}

/// `two_pow` grows monotonically.
proof fn lemma_two_pow_mono(a: nat, b: nat)
    requires
        a <= b,
    ensures
        two_pow(a) <= two_pow(b),
    decreases b,
{
    if a < b {
        lemma_two_pow_mono(a, (b - 1) as nat);
    }
}

/// `floor_log2(n)` is exact: `n` lies between consecutive powers of two.
pub proof fn lemma_floor_log2_range(n: nat)
    requires
        n >= 1,
    ensures
        two_pow(floor_log2(n)) <= n < two_pow(floor_log2(n) + 1),
    decreases n,
{
    if n > 1 {
        lemma_floor_log2_range(n / 2);
    }
}

/// For a 32-bit dimension the mip chain never exceeds 32 levels.
proof fn lemma_floor_log2_u32(n: nat)
    requires
        n <= u32::MAX,
    ensures
        floor_log2(n) <= 31,
{
    if n >= 1 && floor_log2(n) >= 32 {
        lemma_floor_log2_range(n);
        lemma_two_pow_mono(32, floor_log2(n));
        assert(two_pow(32) == 0x1_0000_0000) by {
            reveal_with_fuel(two_pow, 33);
        }
    }
}

/// Computes the mip-level count of a `width` by `height` image.
pub fn compute_mip_levels(width: u32, height: u32) -> (r: u32)
    ensures
        r == mip_level_count(width as nat, height as nat),
{
    let max_dim = if width >= height { width } else { height };
    proof {
        lemma_floor_log2_u32(max_dim as nat);
    }
    let mut m = max_dim;
    let mut levels: u32 = 1;
    while m > 1
        invariant
            levels as nat + floor_log2(m as nat) == mip_level_count(width as nat, height as nat),
            mip_level_count(width as nat, height as nat) <= 32,
        decreases m,
    {
        m = m / 2;
        levels = levels + 1;
    }
    levels
}

/// Accepts exactly the 1024 by 1024 RGBA images, pairing the pixel bytes
/// with the mip-level count of the accepted dimensions.
pub fn validate_texture(img: DecodedImage) -> (r: Result<TexturePlan, TextureError>)
    ensures
        match r {
            Ok(p) => {
                &&& img.width == REQUIRED_TEXTURE_DIM
                &&& img.height == REQUIRED_TEXTURE_DIM
                &&& img.color_code == COLOR_TYPE_RGBA
                &&& p.width == img.width
                &&& p.height == img.height
                &&& p.mip_levels == mip_level_count(img.width as nat, img.height as nat)
                &&& p.pixels@ == img.pixels@
            },
            Err(e) => {
                &&& e == TextureError::UnsupportedTextureError
                &&& (img.width != REQUIRED_TEXTURE_DIM || img.height != REQUIRED_TEXTURE_DIM
                    || img.color_code != COLOR_TYPE_RGBA)
            },
        },
{
    let mip_levels = compute_mip_levels(img.width, img.height);
    if img.width != REQUIRED_TEXTURE_DIM || img.height != REQUIRED_TEXTURE_DIM
        || img.color_code != COLOR_TYPE_RGBA {
        return Err(TextureError::UnsupportedTextureError);
    }
    Ok(TexturePlan { width: img.width, height: img.height, mip_levels, pixels: img.pixels })
}

/// Decodes a PNG byte stream and validates it as the renderer's texture:
/// exactly the decodable 1024 by 1024 RGBA images are accepted, with
/// their pixel bytes and mip-level count; smaller, larger or non-RGBA
/// images are unsupported, and undecodable bytes report the decoder's
/// error.
pub fn load_texture(bytes: &Vec<u8>) -> (r: Result<TexturePlan, TextureError>)
    ensures
        match png_decode_of(bytes@) {
            Some(img) => {
                if img.width == REQUIRED_TEXTURE_DIM && img.height == REQUIRED_TEXTURE_DIM
                    && img.color_code == COLOR_TYPE_RGBA {
                    r matches Ok(p)
                        && p.width == img.width
                        && p.height == img.height
                        && p.mip_levels == mip_level_count(img.width as nat, img.height as nat)
                        && p.pixels@ == img.pixels
                } else {
                    r matches Err(e) && e == TextureError::UnsupportedTextureError
                }
            },
            None => r matches Err(e) && e matches TextureError::DecodingError(_),
        },
{
    match decode_png(bytes) {
        Ok(img) => validate_texture(img),
        Err(message) => Err(TextureError::DecodingError(message)),
    }
}

} // verus!
