//! The codec adapter: deriving engine parameters (quality knobs and the
//! resize clamp) from a profile and the source dimensions, sniffing the true
//! image type from file content, deciding between the compress and convert
//! operations, and driving the external engine.

use vstd::prelude::*;
use vstd::string::StringExecFns;

use crate::paths::str_eq;
use crate::settings::ProfileData;
use crate::types::ImageType;

verus! {

/// The engine parameters the pipeline controls: one quality knob per codec
/// family and the resize bounds (0 meaning "leave this axis unconstrained").
#[derive(Debug, Clone, Copy, PartialEq, Eq, Structural)]
pub struct CodecParams {
    pub jpeg_quality: u32,
    pub png_quality: u32,
    pub webp_quality: u32,
    pub gif_quality: u32,
    pub width: u32,
    pub height: u32,
}

/// The resize clamp: when resizing is enabled and either source dimension
/// exceeds its configured bound, the larger-magnitude dimension is clamped to
/// its bound and the other axis is left unconstrained (0); an image already
/// within bounds is never resized, and never upscaled.
pub open spec fn spec_resize_target(p: ProfileData, width: u32, height: u32) -> (u32, u32) {
    if p.should_resize && (width > p.resize_width || height > p.resize_height) {
        if width > height {
            (p.resize_width, 0u32)
        } else {
            (0u32, p.resize_height)
        }
    } else {
        (0u32, 0u32)
    }
}

/// The engine parameters derived from a profile and the source dimensions.
pub open spec fn spec_codec_params(p: ProfileData, width: u32, height: u32) -> CodecParams {
    CodecParams {
        jpeg_quality: p.jpeg_quality,
        png_quality: p.png_quality,
        webp_quality: p.webp_quality,
        gif_quality: p.gif_quality,
        width: spec_resize_target(p, width, height).0,
        height: spec_resize_target(p, width, height).1,
    }
}

/// Derives the engine parameters for an image of the given dimensions: the
/// profile's four quality knobs, and the resize clamp.
pub fn create_codec_params(parameters: &ProfileData, width: u32, height: u32) -> (r: CodecParams)
    ensures
        r == spec_codec_params(*parameters, width, height),
{
    let mut new_width: u32 = 0;
    let mut new_height: u32 = 0;
    if parameters.should_resize {
        if width > parameters.resize_width || height > parameters.resize_height {
            if width > height {
                new_width = parameters.resize_width;
            } else {
                new_height = parameters.resize_height;
            }
        }
    }
    CodecParams {
        jpeg_quality: parameters.jpeg_quality,
        png_quality: parameters.png_quality,
        webp_quality: parameters.webp_quality,
        gif_quality: parameters.gif_quality,
        width: new_width,
        height: new_height,
    }
}

/// The conversion target, when the profile requests conversion and the
/// detected source format differs from it; compress-in-place otherwise.
pub open spec fn spec_conversion_target(p: ProfileData, detected: ImageType) -> Option<ImageType> {
    if p.should_convert && p.convert_extension != detected {
        Some(p.convert_extension)
    } else {
        None
    }
}

/// Decides between the convert operation (profile requests a format other
/// than the detected one) and plain recompression.
pub fn decide_conversion(parameters: &ProfileData, detected: ImageType) -> (r: Option<ImageType>)
    ensures
        r == spec_conversion_target(*parameters, detected),
{
    if parameters.should_convert && parameters.convert_extension != detected {
        Some(parameters.convert_extension)
    } else {
        None
    }
}

#[verifier::external_type_specification]
#[verifier::external_body]
pub struct ExCSParameters(caesium::parameters::CSParameters);

/// Relies on caesium::parameters::CSParameters::new for the engine's default
/// settings; the four quality knobs and the resize bounds are copied in from
/// `p`.
#[verifier::external_body]
fn engine_params(p: &CodecParams) -> caesium::parameters::CSParameters {
    let mut cs = caesium::parameters::CSParameters::new();
    cs.jpeg.quality = p.jpeg_quality;
    cs.png.quality = p.png_quality;
    cs.webp.quality = p.webp_quality;
    cs.gif.quality = p.gif_quality;
    cs.width = p.width;
    cs.height = p.height;
    cs
}

/// Relies on caesium::compress: recompresses the image file at `input` in its
/// own format into `output` under the given parameters; `Err` carries the
/// engine's message.
#[verifier::external_body]
fn compress_file(input: &str, output: &str, cs: &caesium::parameters::CSParameters) -> (r: Result<
    (),
    String,
>) {
    match caesium::compress(input.to_string(), output.to_string(), cs) {
        Ok(()) => Ok(()),
        Err(err) => Err(format!("Error: {}", err)),
    }
}

/// Relies on caesium::convert: re-encodes the image file at `input` into
/// `output` in the target format (recompressing as it goes); `Err` carries
/// the engine's message.
#[verifier::external_body]
fn convert_file(
    input: &str,
    output: &str,
    cs: &caesium::parameters::CSParameters,
    target: ImageType,
) -> (r: Result<(), String>) {
    let format = match target {
        ImageType::JPEG => caesium::SupportedFileTypes::Jpeg,
        ImageType::PNG => caesium::SupportedFileTypes::Png,
        ImageType::WEBP => caesium::SupportedFileTypes::WebP,
        ImageType::GIF => caesium::SupportedFileTypes::Gif,
        ImageType::TIFF => caesium::SupportedFileTypes::Tiff,
    };
    match caesium::convert(input.to_string(), output.to_string(), cs, format) {
        Ok(()) => Ok(()),
        Err(err) => Err(format!("Error: {}", err)),
    }
}

/// Runs the engine: the convert operation when a target is given, the
/// compress-in-place operation otherwise. Engine failures propagate as a
/// generic error carrying the underlying message; no retry.
pub(crate) fn run_stage(
    input: &str,
    output: &str,
    params: &CodecParams,
    convert_target: Option<ImageType>,
) -> (r: Result<(), String>) {
    let cs = engine_params(params);
    match convert_target {
        Some(t) => convert_file(input, output, &cs, t),
        None => compress_file(input, output, &cs),
    }
}

/// Relies on image::open and DynamicImage::{width, height}: decodes the image
/// at `path` and reports its pixel dimensions; `Err` carries the decoder's
/// message.
#[verifier::external_body]
pub(crate) fn read_image_dims(path: &str) -> (r: Result<(u32, u32), String>) {
    match image::open(path) {
        Ok(img) => Ok((img.width(), img.height())),
        Err(err) => Err(format!("Error: {}", err)),
    }
}

/// Relies on infer::get_from_path and infer::Type::mime_type: classifies the
/// file at `path` by its leading bytes (magic numbers, never the filename)
/// and reports the mime type, `Ok(None)` when the content is unrecognized,
/// `Err` when the file cannot be read.
#[verifier::external_body]
fn fetch_mime(path: &str) -> (r: Result<Option<String>, String>) {
    match infer::get_from_path(path) {
        Ok(Some(kind)) => Ok(Some(kind.mime_type().to_string())),
        Ok(None) => Ok(None),
        Err(err) => Err(format!("Error determining file type: {}", err)),
    }
}

/// The mime type under which each supported image format is sniffed.
pub open spec fn spec_mime_of(t: ImageType) -> Seq<char> {
    match t {
        ImageType::JPEG => "image/jpeg"@,
        ImageType::PNG => "image/png"@,
        ImageType::WEBP => "image/webp"@,
        ImageType::GIF => "image/gif"@,
        ImageType::TIFF => "image/tiff"@,
    }
}

/// Maps a sniffed mime type to the supported image format it names, or to an
/// error naming the unsupported type.
pub fn mime_to_image_type(mime: &str) -> (r: Result<ImageType, String>)
    ensures
        ({
            if mime@ == spec_mime_of(ImageType::JPEG) {
                r == Ok::<ImageType, String>(ImageType::JPEG)
            } else if mime@ == spec_mime_of(ImageType::PNG) {
                r == Ok::<ImageType, String>(ImageType::PNG)
            } else if mime@ == spec_mime_of(ImageType::WEBP) {
                r == Ok::<ImageType, String>(ImageType::WEBP)
            } else if mime@ == spec_mime_of(ImageType::GIF) {
                r == Ok::<ImageType, String>(ImageType::GIF)
            } else if mime@ == spec_mime_of(ImageType::TIFF) {
                r == Ok::<ImageType, String>(ImageType::TIFF)
            } else {
                r matches Err(e) && e@ == "Error: Unsupported image type: "@ + mime@
            }
        }),
{
    if str_eq(mime, "image/jpeg") {
        Ok(ImageType::JPEG)
    } else if str_eq(mime, "image/png") {
        Ok(ImageType::PNG)
    } else if str_eq(mime, "image/webp") {
        Ok(ImageType::WEBP)
    } else if str_eq(mime, "image/gif") {
        Ok(ImageType::GIF)
    } else if str_eq(mime, "image/tiff") {
        Ok(ImageType::TIFF)
    } else {
        let mut e = "Error: Unsupported image type: ".to_owned();
        e.append(mime);
        Err(e)
    }
}

/// Determines the true image format of the file at `path` by content
/// sniffing: the five supported formats are recognized by their mime type;
/// unrecognized or unreadable content is an error. What comes back from the
/// sniffer depends on what is on disk, so the exact mime mapping is stated on
/// `mime_to_image_type`, which this function applies to whatever was sniffed;
/// `sniff_image_type` states the whole classification for an in-memory
/// buffer.
pub fn guess_image_type(path: &str) -> (r: Result<ImageType, String>) {
    match fetch_mime(path) {
        Ok(Some(mime)) => mime_to_image_type(mime.as_str()),
        Ok(None) => Err("Error: Could not determine image type.".to_owned()),
        Err(e) => Err(e),
    }
}

/// What the sniffer reports for a byte buffer: a function of the bytes alone,
/// the same in every process and on every machine.
pub uninterp spec fn inferred_mime(b: Seq<u8>) -> Option<Seq<char>>;

/// Relies on infer::get and infer::Type::mime_type: classifies a byte buffer
/// by its magic numbers alone (a pure match on the leading bytes), reporting
/// the mime type named `inferred_mime`, or nothing when the content is
/// unrecognized.
#[verifier::external_body]
fn infer_mime(buf: &[u8]) -> (r: Option<String>)
    ensures
        match r {
            Some(m) => inferred_mime(buf@) == Some(m@),
            None => inferred_mime(buf@) is None,
        },
{
    match infer::get(buf) {
        Some(kind) => Some(kind.mime_type().to_string()),
        None => None,
    }
}

/// Determines the true image format of a file's leading bytes: the five
/// supported formats are recognized by their sniffed mime type; unrecognized
/// content is an error.
pub fn sniff_image_type(buf: &[u8]) -> (r: Result<ImageType, String>)
    ensures
        ({
            match inferred_mime(buf@) {
                Some(mime) => {
                    if mime == spec_mime_of(ImageType::JPEG) {
                        r == Ok::<ImageType, String>(ImageType::JPEG)
                    } else if mime == spec_mime_of(ImageType::PNG) {
                        r == Ok::<ImageType, String>(ImageType::PNG)
                    } else if mime == spec_mime_of(ImageType::WEBP) {
                        r == Ok::<ImageType, String>(ImageType::WEBP)
                    } else if mime == spec_mime_of(ImageType::GIF) {
                        r == Ok::<ImageType, String>(ImageType::GIF)
                    } else if mime == spec_mime_of(ImageType::TIFF) {
                        r == Ok::<ImageType, String>(ImageType::TIFF)
                    } else {
                        r matches Err(e) && e@ == "Error: Unsupported image type: "@ + mime
                    }
                },
                None => r matches Err(e) && e@ == "Error: Could not determine image type."@,
            }
        }),
{
    match infer_mime(buf) {
        Some(mime) => mime_to_image_type(mime.as_str()),
        None => Err("Error: Could not determine image type.".to_owned()),
    }
}

} // verus!
