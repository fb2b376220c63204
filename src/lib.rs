//! Transcoding of encoded images between JPEG, AVIF, PNG and WebP.
//!
//! The bytes are decoded whatever container they are in, then encoded into
//! the requested one with its quality and speed, or with that format's
//! defaults. A failure is classified as invalid input (the bytes do not
//! decode) or as an encode error (they did, the encoder failed).

pub mod codec;
pub mod convert;
pub mod format;
pub mod outside;
pub mod settings;

pub use codec::DecodedImage;
pub use convert::{
    classify_encoded, convert_image, encode_image, pixels_fit, status_code, transcode,
    ConversionError, ImageProcessingRequest,
};
pub use format::ImageFormat;
pub use settings::{encoder_settings, EncoderSettings};
