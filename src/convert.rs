//! The transcoding pipeline: decode, pick the encoder, encode.
use crate::codec::buffer_fits;
use crate::codec::decode;
use crate::codec::decoded_of;
use crate::codec::encode_avif;
use crate::codec::encode_jpeg;
use crate::codec::encode_png;
use crate::codec::avif_of;
use crate::codec::encode_webp_lossless;
use crate::codec::jpeg_of;
use crate::codec::png_of;
use crate::codec::webp_lossless_of;
use crate::codec::DecodedImage;
use crate::codec::Raster;
use crate::format::ImageFormat;
use crate::settings::encoder_settings;
use crate::settings::settings_of;
use crate::settings::EncoderSettings;
use crate::settings::DEFAULT_AVIF_SPEED;
use crate::settings::DEFAULT_QUALITY;
use image::ImageError;
use vstd::prelude::*;

verus! {

/// Why a conversion produced no image.
#[derive(Clone, Copy, Debug, PartialEq, Eq, Structural)]
pub enum ConversionError {
    /// The bytes are not an image that the decoder recognises.
    InvalidInput,
    /// The image decoded, but the target encoder could not produce it.
    EncodeError,
}

/// A request to convert an encoded image into another container format.
pub struct ImageProcessingRequest {
    pub image: Vec<u8>,
    pub new_format: ImageFormat,
    pub encoding_speed: Option<u8>,
    pub encoding_quality: Option<u8>,
}

impl ImageProcessingRequest {
    /// The settings that the request's target format and knobs resolve to.
    pub open spec fn settings(&self) -> EncoderSettings {
        settings_of(self.new_format, self.encoding_speed, self.encoding_quality)
    }
}

/// A conversion outcome with its bytes as a sequence.
pub open spec fn view_result(r: Result<Vec<u8>, ConversionError>) -> Result<
    Seq<u8>,
    ConversionError,
> {
    match r {
        Ok(v) => Ok(v@),
        Err(e) => Err(e),
    }
}

/// An encoder's optional output as a conversion outcome.
pub open spec fn encoded_or_error(out: Option<Seq<u8>>) -> Result<Seq<u8>, ConversionError> {
    match out {
        Some(v) => Ok(v),
        None => Err(ConversionError::EncodeError),
    }
}

/// `v` brought into `lo..=hi`.
pub open spec fn clamped(v: u8, lo: u8, hi: u8) -> u8 {
    if v < lo {
        lo
    } else if v > hi {
        hi
    } else {
        v
    }
}

/// The AVIF speed that reaches the encoder: within 1..=10.
pub open spec fn avif_speed(speed: u8) -> u8 {
    clamped(speed, 1, 10)
}

/// The AVIF quality that reaches the encoder: within 1..=100.
pub open spec fn avif_quality(quality: u8) -> u8 {
    clamped(quality, 1, 100)
}

/// The encoder thread count that a requested count stands for: at least one.
pub open spec fn thread_count(threads: usize) -> usize {
    if threads == 0 {
        1
    } else {
        threads
    }
}

/// The outcome of encoding `image` with `settings` on `threads` encoder
/// threads. A pixel buffer of the wrong length is an encode error; otherwise
/// each format gives its encoder's output or, where that fails, an encode error.
pub open spec fn encode_outcome(image: Raster, settings: EncoderSettings, threads: usize) -> Result<
    Seq<u8>,
    ConversionError,
> {
    if !buffer_fits(image) {
        Err(ConversionError::EncodeError)
    } else {
        match settings {
            EncoderSettings::Jpeg { quality } => encoded_or_error(jpeg_of(image, quality)),
            EncoderSettings::Avif { speed, quality } => encoded_or_error(
                avif_of(image, avif_speed(speed), avif_quality(quality), thread_count(threads)),
            ),
            EncoderSettings::Png => encoded_or_error(png_of(image)),
            EncoderSettings::WebpLossless => encoded_or_error(webp_lossless_of(image)),
        }
    }
}

/// The outcome of converting `bytes`: an invalid input where they do not
/// decode, else the outcome of encoding the decoded image.
pub open spec fn conversion_of(bytes: Seq<u8>, settings: EncoderSettings, threads: usize) -> Result<
    Seq<u8>,
    ConversionError,
> {
    match decoded_of(bytes) {
        None => Err(ConversionError::InvalidInput),
        Some(image) => encode_outcome(image, settings, threads),
    }
}

fn clamp_u8(v: u8, lo: u8, hi: u8) -> (r: u8)
    requires
        lo <= hi,
    ensures
        r == clamped(v, lo, hi),
{
    if v < lo {
        lo
    } else if v > hi {
        hi
    } else {
        v
    }
}

/// Whether the pixel buffer holds exactly `width * height` pixels of its layout.
pub fn pixels_fit(img: &DecodedImage) -> (r: bool)
    ensures
        r == buffer_fits(img@),
{
    let len = img.pixels.len();
    let bytes = img.color.bytes_per_pixel() as u64;
    let w = img.width as u64;
    let h = img.height as u64;
    proof {
        assert(w * h <= u32::MAX * u32::MAX) by (nonlinear_arith)
            requires
                w <= u32::MAX,
                h <= u32::MAX,
        ;
    }
    let count = w * h;
    match count.checked_mul(bytes) {
        None => false,
        Some(total) => len as u64 == total,
    }
}

/// An encoder's result as a conversion outcome: its bytes as they are, or an
/// encode error whatever the encoder reported.
pub fn classify_encoded(encoded: Result<Vec<u8>, ImageError>) -> (r: Result<Vec<u8>, ConversionError>)
    ensures
        match encoded {
            Ok(v) => r == Ok::<Vec<u8>, ConversionError>(v),
            Err(_) => r == Err::<Vec<u8>, ConversionError>(ConversionError::EncodeError),
        },
{
    match encoded {
        Ok(bytes) => Ok(bytes),
        Err(_) => Err(ConversionError::EncodeError),
    }
}

/// Encodes a decoded image with the given settings; AVIF runs on `threads`
/// encoder threads (one where 0 is given) and has its speed and quality
/// brought into the encoder's ranges.
pub fn encode_image(img: &DecodedImage, settings: EncoderSettings, threads: usize) -> (r: Result<
    Vec<u8>,
    ConversionError,
>)
    ensures
        view_result(r) == encode_outcome(img@, settings, threads),
{
    if !pixels_fit(img) {
        return Err(ConversionError::EncodeError);
    }
    let encoded = match settings {
        EncoderSettings::Jpeg { quality } => encode_jpeg(img, quality),
        EncoderSettings::Avif { speed, quality } => {
            let threads = if threads == 0 {
                1
            } else {
                threads
            };
            encode_avif(img, clamp_u8(speed, 1, 10), clamp_u8(quality, 1, 100), threads)
        },
        EncoderSettings::Png => encode_png(img),
        EncoderSettings::WebpLossless => encode_webp_lossless(img),
    };
    classify_encoded(encoded)
}

/// Decodes `bytes`, whatever container they are in, and encodes the image
/// with `settings`.
pub fn transcode(bytes: &[u8], settings: EncoderSettings, threads: usize) -> (r: Result<
    Vec<u8>,
    ConversionError,
>)
    ensures
        view_result(r) == conversion_of(bytes@, settings, threads),
{
    match decode(bytes) {
        Err(_) => Err(ConversionError::InvalidInput),
        Ok(img) => encode_image(&img, settings, threads),
    }
}

/// Converts the request's image into its target format, with the quality and
/// speed it names or the format's defaults. `threads` is the number of
/// threads the AVIF encoder may use.
pub fn convert_image(req: &ImageProcessingRequest, threads: usize) -> (r: Result<
    Vec<u8>,
    ConversionError,
>)
    ensures
        view_result(r) == conversion_of(req.image@, req.settings(), threads),
{
    let settings = encoder_settings(req.new_format, req.encoding_speed, req.encoding_quality);
    transcode(req.image.as_slice(), settings, threads)
}

/// The transport status that stands for an outcome: 200 for an image, 400
/// for input that is no image, 500 for a failed encode.
pub fn status_code(r: &Result<Vec<u8>, ConversionError>) -> (code: u16)
    ensures
        code == match r {
            Ok(_) => 200u16,
            Err(ConversionError::InvalidInput) => 400u16,
            Err(ConversionError::EncodeError) => 500u16,
        },
{
    match r {
        Ok(_) => 200,
        Err(ConversionError::InvalidInput) => 400,
        Err(ConversionError::EncodeError) => 500,
    }
}

/// Bytes that do not decode are an invalid input, whatever the target, and
/// never an encode error.
pub proof fn lemma_undecodable_is_invalid_input(
    bytes: Seq<u8>,
    settings: EncoderSettings,
    threads: usize,
)
    requires
        decoded_of(bytes) is None,
    ensures
        conversion_of(bytes, settings, threads) == Err::<Seq<u8>, ConversionError>(
            ConversionError::InvalidInput,
        ),
{
}

/// Once the bytes decode, no outcome is an invalid input: a failure past the
/// decode is an encode error.
pub proof fn lemma_decodable_is_never_invalid_input(
    bytes: Seq<u8>,
    settings: EncoderSettings,
    threads: usize,
)
    requires
        decoded_of(bytes) is Some,
    ensures
        conversion_of(bytes, settings, threads) is Ok || conversion_of(bytes, settings, threads)
            == Err::<Seq<u8>, ConversionError>(ConversionError::EncodeError),
{
}

/// A request without speed or quality converts exactly as one that names the
/// defaults: the maximum quality and, for AVIF, the fastest speed.
pub proof fn lemma_absent_knobs_take_defaults(bytes: Seq<u8>, format: ImageFormat, threads: usize)
    ensures
        conversion_of(bytes, settings_of(format, None, None), threads) == conversion_of(
            bytes,
            settings_of(format, Some(DEFAULT_AVIF_SPEED), Some(DEFAULT_QUALITY)),
            threads,
        ),
{
}

/// A JPEG without a named quality is the encoder's output at quality 100.
pub proof fn lemma_default_jpeg_quality(bytes: Seq<u8>, speed: Option<u8>, threads: usize)
    requires
        decoded_of(bytes) is Some,
        buffer_fits(decoded_of(bytes)->Some_0),
    ensures
        conversion_of(bytes, settings_of(ImageFormat::Jpg, speed, None), threads)
            == encoded_or_error(jpeg_of(decoded_of(bytes)->Some_0, 100)),
{
}

/// An AVIF request reaches the AVIF encoder with its own speed and quality
/// (10 and 100 where absent), each brought into the encoder's range.
pub proof fn lemma_avif_knobs_reach_encoder(
    bytes: Seq<u8>,
    speed: Option<u8>,
    quality: Option<u8>,
    threads: usize,
)
    requires
        decoded_of(bytes) is Some,
        buffer_fits(decoded_of(bytes)->Some_0),
    ensures
        conversion_of(bytes, settings_of(ImageFormat::Avif, speed, quality), threads)
            == encoded_or_error(
            avif_of(
                decoded_of(bytes)->Some_0,
                avif_speed(speed.unwrap_or(10)),
                avif_quality(quality.unwrap_or(100)),
                thread_count(threads),
            ),
        ),
{
}

/// PNG and WebP outcomes do not depend on the speed or quality a request names.
pub proof fn lemma_lossless_targets_ignore_knobs(
    bytes: Seq<u8>,
    format: ImageFormat,
    speed1: Option<u8>,
    quality1: Option<u8>,
    speed2: Option<u8>,
    quality2: Option<u8>,
    threads: usize,
)
    requires
        format == ImageFormat::Png || format == ImageFormat::Webp,
    ensures
        conversion_of(bytes, settings_of(format, speed1, quality1), threads) == conversion_of(
            bytes,
            settings_of(format, speed2, quality2),
            threads,
        ),
{
}

} // verus!
