//! The calls into the `image` crate's decoder and encoders, and the pixel data
//! that runs between them.
use image::codecs::avif::AvifEncoder;
use image::codecs::jpeg::JpegEncoder;
use image::codecs::png::CompressionType;
use image::codecs::png::FilterType;
use image::codecs::png::PngEncoder;
use image::codecs::webp::WebPEncoder;
use image::ColorType;
use image::ImageEncoder;
use image::ImageError;
use image::ImageFormat as ContainerFormat;
use vstd::prelude::*;

verus! {

/// A decoded image: raw pixel bytes with the dimensions and the pixel layout
/// that give them meaning.
pub struct DecodedImage {
    pub pixels: Vec<u8>,
    pub width: u32,
    pub height: u32,
    pub color: ColorType,
}

/// The mathematical value of a [`DecodedImage`].
pub struct Raster {
    pub pixels: Seq<u8>,
    pub width: u32,
    pub height: u32,
    pub color: ColorType,
}

impl View for DecodedImage {
    type V = Raster;

    open spec fn view(&self) -> Raster {
        Raster { pixels: self.pixels@, width: self.width, height: self.height, color: self.color }
    }
}

/// Bytes taken by one pixel of each layout, as `ColorType::bytes_per_pixel` gives them.
pub open spec fn color_bytes(c: ColorType) -> nat {
    match c {
        ColorType::L8 => 1,
        ColorType::La8 => 2,
        ColorType::Rgb8 => 3,
        ColorType::Rgba8 => 4,
        ColorType::L16 => 2,
        ColorType::La16 => 4,
        ColorType::Rgb16 => 6,
        ColorType::Rgba16 => 8,
        ColorType::Rgb32F => 12,
        ColorType::Rgba32F => 16,
        _ => 0,
    }
}

/// The pixel buffer holds exactly `width * height` pixels of its layout, the
/// length that every encoder insists on.
pub open spec fn buffer_fits(r: Raster) -> bool {
    r.pixels.len() == r.width * r.height * color_bytes(r.color)
}

/// Relies on `ColorType::bytes_per_pixel`: its table of sizes per layout.
pub assume_specification[ ColorType::bytes_per_pixel ](c: ColorType) -> (r: u8)
    ensures
        r as nat == color_bytes(c),
;

/// The container that `image::guess_format` recognises from the leading bytes.
pub uninterp spec fn sniffed_of(bytes: Seq<u8>) -> Option<ContainerFormat>;

/// The image that `image::load_from_memory_with_format` decodes from the
/// bytes read as the given container, if they decode.
pub uninterp spec fn decoded_as(bytes: Seq<u8>, format: ContainerFormat) -> Option<Raster>;

/// The image that the bytes decode to: read as the container their leading
/// bytes name, if any.
pub open spec fn decoded_of(bytes: Seq<u8>) -> Option<Raster> {
    match sniffed_of(bytes) {
        Some(format) => decoded_as(bytes, format),
        None => None,
    }
}

/// The JPEG that `JpegEncoder` writes for an image at a quality.
pub uninterp spec fn jpeg_of(image: Raster, quality: u8) -> Option<Seq<u8>>;

/// The AVIF that `AvifEncoder` writes at a speed and quality, on a given
/// number of encoder threads.
pub uninterp spec fn avif_of(image: Raster, speed: u8, quality: u8, threads: usize) -> Option<
    Seq<u8>,
>;

/// The PNG that `PngEncoder` writes with default compression and adaptive filtering.
pub uninterp spec fn png_of(image: Raster) -> Option<Seq<u8>>;

/// The WebP that `WebPEncoder` writes in lossless mode.
pub uninterp spec fn webp_lossless_of(image: Raster) -> Option<Seq<u8>>;

/// Relies on `image::guess_format`: it matches the leading bytes against the
/// built-in table of magic numbers.
#[verifier::external_body]
fn guess_container(bytes: &[u8]) -> (r: Result<ContainerFormat, ImageError>)
    ensures
        match r {
            Ok(f) => sniffed_of(bytes@) == Some(f),
            Err(_) => sniffed_of(bytes@) is None,
        },
{
    image::guess_format(bytes)
}

/// Relies on `image::load_from_memory_with_format`: it decodes the bytes with
/// the built-in decoder of that container; `DynamicImage::as_bytes`, `width`,
/// `height` and `color` then hand out the pixel data.
#[verifier::external_body]
fn decode_as(bytes: &[u8], format: ContainerFormat) -> (r: Result<DecodedImage, ImageError>)
    ensures
        match r {
            Ok(d) => decoded_as(bytes@, format) == Some(d@),
            Err(_) => decoded_as(bytes@, format) is None,
        },
{
    match image::load_from_memory_with_format(bytes, format) {
        Ok(img) => Ok(
            DecodedImage {
                pixels: img.as_bytes().to_vec(),
                width: img.width(),
                height: img.height(),
                color: img.color(),
            },
        ),
        Err(e) => Err(e),
    }
}

/// Decodes the bytes as the container that their leading bytes name.
pub fn decode(bytes: &[u8]) -> (r: Result<DecodedImage, ImageError>)
    ensures
        match r {
            Ok(d) => decoded_of(bytes@) == Some(d@),
            Err(_) => decoded_of(bytes@) is None,
        },
{
    match guess_container(bytes) {
        Ok(format) => decode_as(bytes, format),
        Err(e) => Err(e),
    }
}

/// Relies on `JpegEncoder::new_with_quality` and its `write_image`, which
/// panics unless the buffer fits and accepts only `L8` and `Rgb8` pixels.
#[verifier::external_body]
pub(crate) fn encode_jpeg(img: &DecodedImage, quality: u8) -> (r: Result<Vec<u8>, ImageError>)
    requires
        buffer_fits(img@),
    ensures
        match r {
            Ok(v) => jpeg_of(img@, quality) == Some(v@),
            Err(_) => jpeg_of(img@, quality) is None,
        },
        r is Ok ==> (img.color == ColorType::L8 || img.color == ColorType::Rgb8),
{
    let mut buffer = std::io::Cursor::new(Vec::new());
    let encoder = JpegEncoder::new_with_quality(&mut buffer, quality);
    match encoder.write_image(&img.pixels, img.width, img.height, img.color.into()) {
        Ok(()) => Ok(buffer.into_inner()),
        Err(e) => Err(e),
    }
}

/// Relies on `AvifEncoder::new_with_speed_quality`, `with_num_threads` and
/// `write_image`. ravif panics on a speed outside 1..=10, a quality below 1 or
/// a thread count of 0, and `write_image` unless the buffer fits. With the
/// thread count fixed, the output depends on the arguments alone.
#[verifier::external_body]
pub(crate) fn encode_avif(img: &DecodedImage, speed: u8, quality: u8, threads: usize) -> (r:
    Result<Vec<u8>, ImageError>)
    requires
        buffer_fits(img@),
        1 <= speed <= 10,
        1 <= quality <= 100,
        threads > 0,
    ensures
        match r {
            Ok(v) => avif_of(img@, speed, quality, threads) == Some(v@),
            Err(_) => avif_of(img@, speed, quality, threads) is None,
        },
{
    let mut buffer = std::io::Cursor::new(Vec::new());
    let encoder = AvifEncoder::new_with_speed_quality(&mut buffer, speed, quality)
        .with_num_threads(Some(threads));
    match encoder.write_image(&img.pixels, img.width, img.height, img.color.into()) {
        Ok(()) => Ok(buffer.into_inner()),
        Err(e) => Err(e),
    }
}

/// Relies on `PngEncoder::new_with_quality` and its `write_image`, which
/// panics unless the buffer fits and refuses floating-point layouts.
#[verifier::external_body]
pub(crate) fn encode_png(img: &DecodedImage) -> (r: Result<Vec<u8>, ImageError>)
    requires
        buffer_fits(img@),
    ensures
        match r {
            Ok(v) => png_of(img@) == Some(v@),
            Err(_) => png_of(img@) is None,
        },
        r is Ok ==> !(img.color == ColorType::Rgb32F || img.color == ColorType::Rgba32F),
{
    let mut buffer = std::io::Cursor::new(Vec::new());
    let encoder = PngEncoder::new_with_quality(
        &mut buffer,
        CompressionType::Default,
        FilterType::Adaptive,
    );
    match encoder.write_image(&img.pixels, img.width, img.height, img.color.into()) {
        Ok(()) => Ok(buffer.into_inner()),
        Err(e) => Err(e),
    }
}

/// Relies on `WebPEncoder::new_lossless` and its `write_image`, which panics
/// unless the buffer fits and accepts only 8-bit layouts.
#[verifier::external_body]
pub(crate) fn encode_webp_lossless(img: &DecodedImage) -> (r: Result<Vec<u8>, ImageError>)
    requires
        buffer_fits(img@),
    ensures
        match r {
            Ok(v) => webp_lossless_of(img@) == Some(v@),
            Err(_) => webp_lossless_of(img@) is None,
        },
        r is Ok ==> (img.color == ColorType::L8 || img.color == ColorType::La8
            || img.color == ColorType::Rgb8 || img.color == ColorType::Rgba8),
{
    let mut buffer = std::io::Cursor::new(Vec::new());
    let encoder = WebPEncoder::new_lossless(&mut buffer);
    match encoder.write_image(&img.pixels, img.width, img.height, img.color.into()) {
        Ok(()) => Ok(buffer.into_inner()),
        Err(e) => Err(e),
    }
}

} // verus!
