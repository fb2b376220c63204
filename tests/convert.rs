use image_convert::{
    classify_encoded, convert_image, encode_image, encoder_settings, pixels_fit, status_code,
    transcode, ConversionError, DecodedImage, EncoderSettings, ImageFormat,
    ImageProcessingRequest,
};
use std::io::Cursor;

const ALL_FORMATS: [ImageFormat; 4] =
    [ImageFormat::Jpg, ImageFormat::Avif, ImageFormat::Png, ImageFormat::Webp];

fn encode_with(img: image::DynamicImage, format: image::ImageFormat) -> Vec<u8> {
    let mut buf = Cursor::new(Vec::new());
    img.write_to(&mut buf, format).unwrap();
    buf.into_inner()
}

fn rgb_png(width: u32, height: u32) -> Vec<u8> {
    let img = image::RgbImage::from_fn(width, height, |x, y| {
        image::Rgb([(x * 60) as u8, (y * 90) as u8, ((x + y) * 40) as u8])
    });
    encode_with(image::DynamicImage::ImageRgb8(img), image::ImageFormat::Png)
}

fn rgba_png(width: u32, height: u32) -> Vec<u8> {
    let img = image::RgbaImage::from_fn(width, height, |x, y| {
        image::Rgba([(x * 60) as u8, (y * 90) as u8, 7, 128])
    });
    encode_with(image::DynamicImage::ImageRgba8(img), image::ImageFormat::Png)
}

fn rgb16_png(width: u32, height: u32) -> Vec<u8> {
    let img = image::ImageBuffer::<image::Rgb<u16>, Vec<u16>>::from_fn(width, height, |x, y| {
        image::Rgb([(x * 6000) as u16, (y * 9000) as u16, 300])
    });
    encode_with(image::DynamicImage::ImageRgb16(img), image::ImageFormat::Png)
}

// A textured picture with gradients and pseudo-random noise, so that the
// lossy encoders have detail to keep or throw away.
fn photo_png(width: u32, height: u32) -> Vec<u8> {
    let mut seed: u32 = 12345;
    let img = image::RgbImage::from_fn(width, height, |x, y| {
        seed = seed.wrapping_mul(1103515245).wrapping_add(12345);
        let noise = (seed >> 16) as u8 & 0x3f;
        image::Rgb([
            ((x * 255) / width) as u8 ^ noise,
            ((y * 255) / height) as u8 ^ (noise >> 1),
            (((x + y) * 127) / (width + height)) as u8 ^ (noise << 1),
        ])
    });
    encode_with(image::DynamicImage::ImageRgb8(img), image::ImageFormat::Png)
}

fn request(
    image: Vec<u8>,
    new_format: ImageFormat,
    encoding_speed: Option<u8>,
    encoding_quality: Option<u8>,
) -> ImageProcessingRequest {
    ImageProcessingRequest { image, new_format, encoding_speed, encoding_quality }
}

#[test]
fn every_target_gets_its_container() {
    let input = rgb_png(2, 2);
    for format in ALL_FORMATS {
        let out = convert_image(&request(input.clone(), format, None, None), 1).unwrap();
        assert!(!out.is_empty());
        let expected: image::ImageFormat = format.into();
        assert_eq!(image::guess_format(&out).unwrap(), expected);
    }
}

#[test]
fn undecodable_bytes_are_invalid_input() {
    let zeros = vec![0u8; 64];
    let truncated_png = rgb_png(2, 2)[..20].to_vec();
    for bytes in [zeros, truncated_png, Vec::new()] {
        for format in ALL_FORMATS {
            let r = convert_image(&request(bytes.clone(), format, None, None), 1);
            assert_eq!(r, Err(ConversionError::InvalidInput));
        }
    }
}

#[test]
fn random_bytes_to_png_are_invalid_input() {
    let bytes = vec![0x3a, 0x91, 0x5c, 0x07, 0xe2, 0x48, 0xb3, 0x1f, 0x6d, 0xc4];
    let r = convert_image(&request(bytes, ImageFormat::Png, None, None), 1);
    assert_eq!(r, Err(ConversionError::InvalidInput));
}

#[test]
fn rgb_png_to_jpeg_defaults_to_full_quality() {
    let input = rgb_png(2, 2);
    let out = convert_image(&request(input.clone(), ImageFormat::Jpg, None, None), 1).unwrap();
    assert_eq!(image::guess_format(&out).unwrap(), image::ImageFormat::Jpeg);
    let at_full = convert_image(&request(input.clone(), ImageFormat::Jpg, None, Some(100)), 1).unwrap();
    assert_eq!(out, at_full);
    let at_low = convert_image(&request(input, ImageFormat::Jpg, None, Some(10)), 1).unwrap();
    assert_ne!(out, at_low);
}

fn assert_lossless_round_trip(format: ImageFormat) {
    let input = rgb_png(5, 3);
    let original = image::load_from_memory(&input).unwrap();
    let out = convert_image(&request(input, format, None, None), 1).unwrap();
    let back = image::load_from_memory(&out).unwrap();
    assert_eq!(back.width(), original.width());
    assert_eq!(back.height(), original.height());
    assert_eq!(back.as_bytes(), original.as_bytes());
}

#[test]
fn png_round_trip_keeps_pixels() {
    assert_lossless_round_trip(ImageFormat::Png);
}

#[test]
fn webp_round_trip_keeps_pixels() {
    assert_lossless_round_trip(ImageFormat::Webp);
}

#[test]
fn jpeg_higher_quality_is_not_smaller() {
    let input = photo_png(48, 48);
    let high = convert_image(&request(input.clone(), ImageFormat::Jpg, None, Some(100)), 1).unwrap();
    let low = convert_image(&request(input, ImageFormat::Jpg, None, Some(10)), 1).unwrap();
    assert!(high.len() >= low.len());
}

#[test]
fn avif_higher_quality_is_not_smaller() {
    let input = photo_png(32, 32);
    let high =
        convert_image(&request(input.clone(), ImageFormat::Avif, Some(10), Some(100)), 1).unwrap();
    let low = convert_image(&request(input, ImageFormat::Avif, Some(10), Some(10)), 1).unwrap();
    assert!(high.len() >= low.len());
}

#[test]
fn absent_knobs_take_format_defaults() {
    assert_eq!(encoder_settings(ImageFormat::Jpg, None, None), EncoderSettings::Jpeg { quality: 100 });
    assert_eq!(
        encoder_settings(ImageFormat::Avif, None, None),
        EncoderSettings::Avif { speed: 10, quality: 100 }
    );
    assert_eq!(encoder_settings(ImageFormat::Png, None, None), EncoderSettings::Png);
    assert_eq!(encoder_settings(ImageFormat::Webp, None, None), EncoderSettings::WebpLossless);
}

#[test]
fn given_knobs_reach_their_encoders() {
    assert_eq!(
        encoder_settings(ImageFormat::Jpg, Some(3), Some(42)),
        EncoderSettings::Jpeg { quality: 42 }
    );
    assert_eq!(
        encoder_settings(ImageFormat::Avif, Some(3), None),
        EncoderSettings::Avif { speed: 3, quality: 100 }
    );
    assert_eq!(
        encoder_settings(ImageFormat::Avif, None, Some(55)),
        EncoderSettings::Avif { speed: 10, quality: 55 }
    );
    assert_eq!(encoder_settings(ImageFormat::Png, Some(1), Some(1)), EncoderSettings::Png);
    assert_eq!(encoder_settings(ImageFormat::Webp, Some(1), Some(1)), EncoderSettings::WebpLossless);
}

#[test]
fn absent_knobs_never_fail() {
    let input = rgb_png(2, 2);
    for format in ALL_FORMATS {
        assert!(convert_image(&request(input.clone(), format, None, None), 1).is_ok());
    }
}

#[test]
fn lossless_targets_ignore_knobs() {
    let input = rgb_png(4, 4);
    for format in [ImageFormat::Png, ImageFormat::Webp] {
        let plain = convert_image(&request(input.clone(), format, None, None), 1).unwrap();
        let knobs = convert_image(&request(input.clone(), format, Some(1), Some(5)), 1).unwrap();
        assert_eq!(plain, knobs);
    }
}

#[test]
fn jpeg_of_alpha_image_is_encode_error() {
    let r = convert_image(&request(rgba_png(2, 2), ImageFormat::Jpg, None, None), 1);
    assert_eq!(r, Err(ConversionError::EncodeError));
}

#[test]
fn webp_of_sixteen_bit_image_is_encode_error() {
    let r = convert_image(&request(rgb16_png(2, 2), ImageFormat::Webp, None, None), 1);
    assert_eq!(r, Err(ConversionError::EncodeError));
}

#[test]
fn png_of_sixteen_bit_image_round_trips() {
    let input = rgb16_png(3, 2);
    let original = image::load_from_memory(&input).unwrap();
    let out = convert_image(&request(input, ImageFormat::Png, None, None), 1).unwrap();
    let back = image::load_from_memory(&out).unwrap();
    assert_eq!(back.color(), image::ColorType::Rgb16);
    assert_eq!(back.as_bytes(), original.as_bytes());
}

#[test]
fn input_format_need_not_match_target() {
    let jpeg = convert_image(&request(rgb_png(4, 4), ImageFormat::Jpg, None, None), 1).unwrap();
    let png = transcode(&jpeg, EncoderSettings::Png, 1).unwrap();
    assert_eq!(image::guess_format(&png).unwrap(), image::ImageFormat::Png);
    let again = transcode(&jpeg, EncoderSettings::Jpeg { quality: 80 }, 1).unwrap();
    assert_eq!(image::guess_format(&again).unwrap(), image::ImageFormat::Jpeg);
}

#[test]
fn buffer_of_wrong_length_is_encode_error() {
    let img = DecodedImage {
        pixels: vec![1, 2, 3, 4, 5],
        width: 1,
        height: 2,
        color: image::ColorType::Rgb8,
    };
    assert!(!pixels_fit(&img));
    assert_eq!(encode_image(&img, EncoderSettings::Png, 1), Err(ConversionError::EncodeError));
}

#[test]
fn fitting_buffer_encodes() {
    let img = DecodedImage {
        pixels: vec![10, 20, 30, 40, 50, 60],
        width: 1,
        height: 2,
        color: image::ColorType::Rgb8,
    };
    assert!(pixels_fit(&img));
    let out = encode_image(&img, EncoderSettings::Png, 1).unwrap();
    let back = image::load_from_memory(&out).unwrap();
    assert_eq!(back.as_bytes(), &[10, 20, 30, 40, 50, 60]);
}

#[test]
fn huge_dimensions_do_not_fit() {
    let img = DecodedImage {
        pixels: vec![0; 16],
        width: u32::MAX,
        height: u32::MAX,
        color: image::ColorType::Rgba32F,
    };
    assert!(!pixels_fit(&img));
}

#[test]
fn encoder_errors_are_classified() {
    assert_eq!(classify_encoded(Ok(vec![1, 2, 3])), Ok(vec![1, 2, 3]));
    let err = image::ImageError::Limits(image::error::LimitError::from_kind(
        image::error::LimitErrorKind::InsufficientMemory,
    ));
    assert_eq!(classify_encoded(Err(err)), Err(ConversionError::EncodeError));
}

#[test]
fn outcomes_map_to_status_codes() {
    assert_eq!(status_code(&Ok(vec![1])), 200);
    assert_eq!(status_code(&Err(ConversionError::InvalidInput)), 400);
    assert_eq!(status_code(&Err(ConversionError::EncodeError)), 500);
}

#[test]
fn formats_name_their_containers() {
    let pairs = [
        (ImageFormat::Jpg, image::ImageFormat::Jpeg),
        (ImageFormat::Avif, image::ImageFormat::Avif),
        (ImageFormat::Png, image::ImageFormat::Png),
        (ImageFormat::Webp, image::ImageFormat::WebP),
    ];
    for (ours, theirs) in pairs {
        assert_eq!(image::ImageFormat::from(ours), theirs);
    }
}

#[test]
fn avif_knobs_out_of_range_are_clamped() {
    let input = rgb_png(4, 4);
    let low = convert_image(&request(input.clone(), ImageFormat::Avif, Some(0), Some(0)), 1).unwrap();
    let one = convert_image(&request(input.clone(), ImageFormat::Avif, Some(1), Some(1)), 1).unwrap();
    assert_eq!(low, one);
    let high = convert_image(&request(input.clone(), ImageFormat::Avif, Some(200), None), 1).unwrap();
    let ten = convert_image(&request(input, ImageFormat::Avif, Some(10), None), 1).unwrap();
    assert_eq!(high, ten);
}

#[test]
fn avif_with_fixed_threads_is_repeatable() {
    let input = rgb_png(4, 4);
    let first = convert_image(&request(input.clone(), ImageFormat::Avif, None, None), 2).unwrap();
    let second = convert_image(&request(input.clone(), ImageFormat::Avif, Some(10), Some(100)), 2).unwrap();
    assert_eq!(first, second);
    assert_eq!(&first[4..12], b"ftypavif");
}

#[test]
fn zero_threads_stand_for_one() {
    let input = rgb_png(4, 4);
    let zero = convert_image(&request(input.clone(), ImageFormat::Avif, None, None), 0).unwrap();
    let one = convert_image(&request(input, ImageFormat::Avif, None, None), 1).unwrap();
    assert_eq!(zero, one);
}
