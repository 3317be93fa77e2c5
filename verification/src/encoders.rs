//! Pluggable image codecs. Each codec compresses one captured image:
//! `encode(pixels, width, height, stride, bpp, quality) -> bytes`.
//!
//! The row pitch (`stride`) must equal `width * bytesPerPixel`: none of the
//! codecs compensates for row padding, so a padded framebuffer is rejected
//! up front instead of silently producing a corrupted image.

use vstd::prelude::*;

verus! {

/// The PNG stream the lossless codec produces for a tightly packed image
/// with the given geometry and channel count (4 = RGBA, 1 = grayscale).
pub uninterp spec fn png_bytes(pixels: Seq<u8>, width: int, height: int, channels: int) -> Seq<u8>;

/// The JPEG stream the lossy codec produces for a tightly packed image with
/// the given geometry, quality and channel count (4 = RGBA, 1 = luminance).
pub uninterp spec fn jpeg_bytes(
    pixels: Seq<u8>,
    width: int,
    height: int,
    quality: int,
    channels: int,
) -> Seq<u8>;

/// Relies on png::Encoder (RGBA, 8-bit depth, high compression): writing to
/// an in-memory buffer cannot fail once width and height are nonzero and the
/// data length matches the geometry; the stream opens with the 8-byte PNG
/// signature; the output depends on the arguments alone.
#[verifier::external_body]
fn png_encode_rgba(pixels: &[u8], width: u32, height: u32) -> (r: Vec<u8>)
    requires
        1 <= width,
        1 <= height,
        pixels@.len() == width * height * 4,
    ensures
        r@ == png_bytes(pixels@, width as int, height as int, 4),
        r@.len() >= 8,
{
    let mut buffer: Vec<u8> = Vec::new();
    let writer = std::io::BufWriter::new(&mut buffer);
    let mut encoder = png::Encoder::new(writer, width, height);
    encoder.set_color(png::ColorType::Rgba);
    encoder.set_depth(png::BitDepth::Eight);
    encoder.set_compression(png::Compression::High);
    let mut writer = encoder.write_header().expect("cannot write PNG header");
    writer.write_image_data(pixels).expect("cannot encode PNG image");
    writer.finish().expect("cannot finish PNG stream");
    buffer
}

/// Relies on png::Encoder (grayscale, 8-bit depth, high compression); see
/// `png_encode_rgba` for why the call cannot fail under these bounds.
#[verifier::external_body]
fn png_encode_gray(pixels: &[u8], width: u32, height: u32) -> (r: Vec<u8>)
    requires
        1 <= width,
        1 <= height,
        pixels@.len() == width * height,
    ensures
        r@ == png_bytes(pixels@, width as int, height as int, 1),
        r@.len() >= 8,
{
    let mut buffer: Vec<u8> = Vec::new();
    let writer = std::io::BufWriter::new(&mut buffer);
    let mut encoder = png::Encoder::new(writer, width, height);
    encoder.set_color(png::ColorType::Grayscale);
    encoder.set_depth(png::BitDepth::Eight);
    encoder.set_compression(png::Compression::High);
    let mut writer = encoder.write_header().expect("cannot write PNG header");
    writer.write_image_data(pixels).expect("cannot encode PNG image");
    writer.finish().expect("cannot finish PNG stream");
    buffer
}

/// Relies on jpeg_encoder::Encoder::encode (RGBA input): it fails only on
/// zero dimensions or a data length below width * height * 4, and writing to
/// an in-memory buffer cannot fail; the stream opens with the two-byte SOI
/// marker; without the crate's simd feature the output depends on the
/// arguments alone.
#[verifier::external_body]
fn jpeg_encode_rgba(pixels: &[u8], width: u32, height: u32, quality: u32) -> (r: Vec<u8>)
    requires
        1 <= width <= 0xFFFF,
        1 <= height <= 0xFFFF,
        pixels@.len() == width * height * 4,
        1 <= quality <= 100,
    ensures
        r@ == jpeg_bytes(pixels@, width as int, height as int, quality as int, 4),
        r@.len() >= 2,
{
    let mut buffer: Vec<u8> = Vec::new();
    let writer = std::io::BufWriter::new(&mut buffer);
    let encoder = jpeg_encoder::Encoder::new(writer, quality as u8);
    encoder
        .encode(pixels, width as u16, height as u16, jpeg_encoder::ColorType::Rgba)
        .expect("cannot encode JPEG image");
    buffer
}

/// Relies on jpeg_encoder::Encoder::encode (single-channel luminance input);
/// see `jpeg_encode_rgba` for why the call cannot fail under these bounds.
#[verifier::external_body]
fn jpeg_encode_luma(pixels: &[u8], width: u32, height: u32, quality: u32) -> (r: Vec<u8>)
    requires
        1 <= width <= 0xFFFF,
        1 <= height <= 0xFFFF,
        pixels@.len() == width * height,
        1 <= quality <= 100,
    ensures
        r@ == jpeg_bytes(pixels@, width as int, height as int, quality as int, 1),
        r@.len() >= 2,
{
    let mut buffer: Vec<u8> = Vec::new();
    let writer = std::io::BufWriter::new(&mut buffer);
    let encoder = jpeg_encoder::Encoder::new(writer, quality as u8);
    encoder
        .encode(pixels, width as u16, height as u16, jpeg_encoder::ColorType::Luma)
        .expect("cannot encode JPEG image");
    buffer
}

/// One codec capability: compress a tightly packed captured image.
pub trait Encoder {
    /// The inputs this codec accepts.
    spec fn encode_ok(
        &self,
        input: Seq<u8>,
        width: u32,
        height: u32,
        stride: u32,
        bpp: u32,
        quality: u32,
    ) -> bool;

    /// The byte stream this codec yields for an accepted input.
    spec fn encoding(
        &self,
        input: Seq<u8>,
        width: u32,
        height: u32,
        stride: u32,
        bpp: u32,
        quality: u32,
    ) -> Seq<u8>;

    /// Compresses one image. `stride` is the row byte pitch and must equal
    /// `width * bytesPerPixel` (see the module note on padded rows).
    fn encode(
        &self,
        input_image: &[u8],
        width: u32,
        height: u32,
        stride: u32,
        bpp: u32,
        quality: u32,
    ) -> (r: Vec<u8>)
        requires
            self.encode_ok(input_image@, width, height, stride, bpp, quality),
        ensures
            r@ == self.encoding(input_image@, width, height, stride, bpp, quality),
            r@.len() > 0,
    ;
}

/// The lossless codec: PNG, fixed 8-bit depth, maximum compression effort.
/// The color mode follows bits-per-pixel: 32 is 4-channel color, 8 is
/// single-channel grayscale. The quality argument is ignored.
pub struct PNGEncoder;

/// Lossy codec A: JPEG with an integer quality of 1 to 100. The color mode
/// follows bits-per-pixel: 32 is 4-channel color, 8 is single-channel
/// luminance. Dimensions are limited to 16 bits by the JPEG headers.
pub struct JPEGEncoder;

impl Encoder for PNGEncoder {
    open spec fn encode_ok(
        &self,
        input: Seq<u8>,
        width: u32,
        height: u32,
        stride: u32,
        bpp: u32,
        quality: u32,
    ) -> bool {
        &&& (bpp == 32 || bpp == 8)
        &&& 1 <= width
        &&& 1 <= height
        &&& stride == width * (bpp / 8)
        &&& input.len() == width * height * (bpp / 8)
    }

    open spec fn encoding(
        &self,
        input: Seq<u8>,
        width: u32,
        height: u32,
        stride: u32,
        bpp: u32,
        quality: u32,
    ) -> Seq<u8> {
        if bpp == 32 {
            png_bytes(input, width as int, height as int, 4)
        } else {
            png_bytes(input, width as int, height as int, 1)
        }
    }

    fn encode(
        &self,
        input_image: &[u8],
        width: u32,
        height: u32,
        stride: u32,
        bpp: u32,
        quality: u32,
    ) -> (r: Vec<u8>) {
        if bpp == 32 {
            png_encode_rgba(input_image, width, height)
        } else {
            proof {
                assert(input_image@.len() == width * height * ((8 as u32) / 8));
                assert(width * height * ((8 as u32) / 8) == width * height) by (nonlinear_arith);
            }
            png_encode_gray(input_image, width, height)
        }
    }
}

impl Encoder for JPEGEncoder {
    open spec fn encode_ok(
        &self,
        input: Seq<u8>,
        width: u32,
        height: u32,
        stride: u32,
        bpp: u32,
        quality: u32,
    ) -> bool {
        &&& (bpp == 32 || bpp == 8)
        &&& 1 <= width <= 0xFFFF
        &&& 1 <= height <= 0xFFFF
        &&& stride == width * (bpp / 8)
        &&& input.len() == width * height * (bpp / 8)
        &&& 1 <= quality <= 100
    }

    open spec fn encoding(
        &self,
        input: Seq<u8>,
        width: u32,
        height: u32,
        stride: u32,
        bpp: u32,
        quality: u32,
    ) -> Seq<u8> {
        if bpp == 32 {
            jpeg_bytes(input, width as int, height as int, quality as int, 4)
        } else {
            jpeg_bytes(input, width as int, height as int, quality as int, 1)
        }
    }

    fn encode(
        &self,
        input_image: &[u8],
        width: u32,
        height: u32,
        stride: u32,
        bpp: u32,
        quality: u32,
    ) -> (r: Vec<u8>) {
        if bpp == 32 {
            jpeg_encode_rgba(input_image, width, height, quality)
        } else {
            proof {
                assert(input_image@.len() == width * height * ((8 as u32) / 8));
                assert(width * height * ((8 as u32) / 8) == width * height) by (nonlinear_arith);
            }
            jpeg_encode_luma(input_image, width, height, quality)
        }
    }
}

/// Factory for the codecs selected by startup configuration.
pub struct Encoders();

impl Encoders {
    /// The lossless codec.
    pub fn png() -> PNGEncoder {
        PNGEncoder
    }

    /// Lossy codec A (JPEG).
    pub fn jpeg() -> JPEGEncoder {
        JPEGEncoder
    }
}

} // verus!
