use imgsqueeze::codec::create_codec_params;
use imgsqueeze::codec::decide_conversion;
use imgsqueeze::codec::mime_to_image_type;
use imgsqueeze::codec::sniff_image_type;
use imgsqueeze::settings::ProfileData;
use imgsqueeze::types::ImageType;

fn resize_profile() -> ProfileData {
    let mut p = ProfileData::new();
    p.should_resize = true;
    p.resize_width = 1000;
    p.resize_height = 1000;
    p
}

#[test]
fn test_resize_clamps_larger_dimension() {
    let p = resize_profile();
    let params = create_codec_params(&p, 2000, 1000);
    assert_eq!(params.width, 1000);
    assert_eq!(params.height, 0);
}

#[test]
fn test_resize_clamps_height_when_not_wider() {
    let p = resize_profile();
    let params = create_codec_params(&p, 1000, 2000);
    assert_eq!(params.width, 0);
    assert_eq!(params.height, 1000);
}

#[test]
fn test_resize_leaves_small_image_untouched() {
    let p = resize_profile();
    let params = create_codec_params(&p, 500, 500);
    assert_eq!(params.width, 0);
    assert_eq!(params.height, 0);
}

#[test]
fn test_resize_disabled_never_clamps() {
    let mut p = resize_profile();
    p.should_resize = false;
    let params = create_codec_params(&p, 9000, 9000);
    assert_eq!(params.width, 0);
    assert_eq!(params.height, 0);
}

#[test]
fn test_codec_params_carry_qualities() {
    let mut p = ProfileData::new();
    p.jpeg_quality = 10;
    p.png_quality = 20;
    p.webp_quality = 30;
    p.gif_quality = 40;
    let params = create_codec_params(&p, 100, 100);
    assert_eq!(params.jpeg_quality, 10);
    assert_eq!(params.png_quality, 20);
    assert_eq!(params.webp_quality, 30);
    assert_eq!(params.gif_quality, 40);
}

#[test]
fn test_decide_conversion() {
    let mut p = ProfileData::new();
    p.should_convert = true;
    p.convert_extension = ImageType::PNG;
    assert_eq!(decide_conversion(&p, ImageType::JPEG), Some(ImageType::PNG));
    assert_eq!(decide_conversion(&p, ImageType::PNG), None);
    p.should_convert = false;
    assert_eq!(decide_conversion(&p, ImageType::JPEG), None);
}

#[test]
fn test_mime_to_image_type() {
    assert_eq!(mime_to_image_type("image/jpeg").unwrap(), ImageType::JPEG);
    assert_eq!(mime_to_image_type("image/png").unwrap(), ImageType::PNG);
    assert_eq!(mime_to_image_type("image/webp").unwrap(), ImageType::WEBP);
    assert_eq!(mime_to_image_type("image/gif").unwrap(), ImageType::GIF);
    assert_eq!(mime_to_image_type("image/tiff").unwrap(), ImageType::TIFF);
}

#[test]
fn test_mime_to_image_type_unsupported() {
    let err = mime_to_image_type("image/bmp").unwrap_err();
    assert_eq!(err, "Error: Unsupported image type: image/bmp".to_string());
}

#[test]
fn test_guess_image_type() {
    // the JPEG magic bytes: FF D8 FF
    let buf: Vec<u8> = vec![0xFF, 0xD8, 0xFF, 0xAA];
    let result = sniff_image_type(&buf);
    println!("{:?}", result);
    assert_eq!(result.unwrap(), ImageType::JPEG);
}

#[test]
fn test_sniff_png_magic() {
    let buf: Vec<u8> = vec![0x89, 0x50, 0x4E, 0x47, 0x0D, 0x0A, 0x1A, 0x0A];
    assert_eq!(sniff_image_type(&buf).unwrap(), ImageType::PNG);
}

#[test]
fn test_sniff_unrecognized_content() {
    let buf: Vec<u8> = vec![0x00, 0x01, 0x02, 0x03];
    let err = sniff_image_type(&buf).unwrap_err();
    assert_eq!(err, "Error: Could not determine image type.".to_string());
}
