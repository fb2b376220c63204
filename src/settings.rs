use crate::format::ImageFormat;
use vstd::prelude::*;

verus! {

/// Quality used by the lossy encoders when the request names none: the maximum.
pub const DEFAULT_QUALITY: u8 = 100;

/// AVIF speed used when the request names none: the fastest encode.
pub const DEFAULT_AVIF_SPEED: u8 = 10;

/// The encoder chosen for a conversion, with the parameters it is built with.
#[derive(Clone, Copy, Debug, PartialEq, Eq, Structural)]
pub enum EncoderSettings {
    /// Baseline JPEG at the given quality.
    Jpeg { quality: u8 },
    /// AVIF at the given speed and quality.
    Avif { speed: u8, quality: u8 },
    /// PNG with default compression and adaptive row filtering.
    Png,
    /// Lossless WebP.
    WebpLossless,
}

/// What a value of an optional request field resolves to.
pub open spec fn or_default(v: Option<u8>, default: u8) -> u8 {
    match v {
        Some(x) => x,
        None => default,
    }
}

/// The encoder settings for a target format and the request's optional knobs.
/// JPEG reads the quality, AVIF the speed and the quality, and PNG and WebP neither.
pub open spec fn settings_of(
    format: ImageFormat,
    speed: Option<u8>,
    quality: Option<u8>,
) -> EncoderSettings {
    match format {
        ImageFormat::Jpg => EncoderSettings::Jpeg { quality: or_default(quality, DEFAULT_QUALITY) },
        ImageFormat::Avif => EncoderSettings::Avif {
            speed: or_default(speed, DEFAULT_AVIF_SPEED),
            quality: or_default(quality, DEFAULT_QUALITY),
        },
        ImageFormat::Png => EncoderSettings::Png,
        ImageFormat::Webp => EncoderSettings::WebpLossless,
    }
}

/// Resolves the encoder and its parameters for `format`, filling in the
/// documented default for each knob that is absent.
pub fn encoder_settings(format: ImageFormat, speed: Option<u8>, quality: Option<u8>) -> (r:
    EncoderSettings)
    ensures
        r == settings_of(format, speed, quality),
{
    match format {
        ImageFormat::Jpg => EncoderSettings::Jpeg { quality: quality.unwrap_or(DEFAULT_QUALITY) },
        ImageFormat::Avif => EncoderSettings::Avif {
            speed: speed.unwrap_or(DEFAULT_AVIF_SPEED),
            quality: quality.unwrap_or(DEFAULT_QUALITY),
        },
        ImageFormat::Png => EncoderSettings::Png,
        ImageFormat::Webp => EncoderSettings::WebpLossless,
    }
}

/// With neither knob given, each format takes its documented default:
/// JPEG and AVIF encode at the maximum quality, AVIF at the fastest speed.
pub proof fn lemma_defaults(format: ImageFormat)
    ensures
        settings_of(format, None, None) == match format {
            ImageFormat::Jpg => EncoderSettings::Jpeg { quality: 100 },
            ImageFormat::Avif => EncoderSettings::Avif { speed: 10, quality: 100 },
            ImageFormat::Png => EncoderSettings::Png,
            ImageFormat::Webp => EncoderSettings::WebpLossless,
        },
{
}

/// JPEG reads the quality alone: the speed never changes its settings.
pub proof fn lemma_jpeg_ignores_speed(speed1: Option<u8>, speed2: Option<u8>, quality: Option<u8>)
    ensures
        settings_of(ImageFormat::Jpg, speed1, quality) == settings_of(
            ImageFormat::Jpg,
            speed2,
            quality,
        ),
{
}

} // verus!
