//! Operations on one decoded image: cropping, encoding and inspection.

use crate::error::{CropError, CropErrorView, OutputStage};
use crate::format::{
    detect_format, format_to_string, kind_of_extension, lemma_label_names_kind, resolution,
    spells, ImageKind,
};
use crate::geometry::{crop_region, validate_crop_bounds, CropSettings};
use crate::paths::{extension_or_empty, path_file_name};
use crate::raster::{encode, encoding, error_text, image_height, image_pixels, image_width};
use image::DynamicImage;
use vstd::prelude::*;

verus! {

/// `cropped` is `source` with the margins of `settings` removed: it has the
/// size of the kept rectangle, and each of its pixels is the source's pixel
/// at the same place counted from `(left, top)`.
pub open spec fn is_crop_of(
    cropped: DynamicImage,
    source: DynamicImage,
    settings: CropSettings,
) -> bool {
    &&& image_width(cropped) == image_width(source) - settings.left - settings.right
    &&& image_height(cropped) == image_height(source) - settings.top - settings.bottom
    &&& forall|i: int, j: int|
        0 <= i < image_width(cropped) && 0 <= j < image_height(cropped)
            ==> #[trigger] image_pixels(cropped)[(i, j)] == image_pixels(source)[(
            settings.left + i,
            settings.top + j,
        )]
}

/// Cuts the margins of `settings` off an image, leaving the image itself
/// untouched.
///
/// Fails with the bounds fault exactly when the margins leave nothing along
/// an axis; otherwise the result is the kept rectangle.
pub fn crop(img: &DynamicImage, settings: &CropSettings) -> (r: Result<DynamicImage, CropError>)
    ensures
        match settings.fault(image_width(*img), image_height(*img)) {
            Some(fault) => r is Err && r->Err_0 == (CropError::Bounds { fault }),
            None => r is Ok && is_crop_of(r->Ok_0, *img, *settings),
        },
{
    let width: u32 = img.width();
    let height: u32 = img.height();
    match validate_crop_bounds(width, height, settings) {
        Err(fault) => Err(CropError::Bounds { fault }),
        Ok(()) => {
            let region = crop_region(width, height, settings);
            Ok(img.crop_imm(region.x, region.y, region.width, region.height))
        },
    }
}

/// `r` reports the encoding of `img` as `kind`: the encoded file, or an
/// `EncodeOrWrite` error of stage `stage` where the encoder rejects the
/// image.
pub open spec fn reports_encoding(
    r: Result<Vec<u8>, CropError>,
    img: DynamicImage,
    kind: ImageKind,
    stage: OutputStage,
) -> bool {
    match encoding(img, kind) {
        Some(bytes) => r is Ok && r->Ok_0@ == bytes,
        None => r is Err && r->Err_0@ is EncodeOrWrite && r->Err_0@->stage == stage,
    }
}

/// Encodes an image in the given format, reporting a codec failure as an
/// `EncodeOrWrite` error of the given stage.
pub fn encode_image(img: &DynamicImage, kind: ImageKind, stage: OutputStage) -> (r: Result<
    Vec<u8>,
    CropError,
>)
    ensures
        reports_encoding(r, *img, kind, stage),
{
    match encode(img, kind) {
        Ok(bytes) => Ok(bytes),
        Err(error) => Err(CropError::EncodeOrWrite { stage, detail: error_text(&error) }),
    }
}

/// `r` is the answer to storing the cropped image `cropped` in a file named
/// `name`: the unsupported extension where the name selects no format, and
/// otherwise the encoding of `cropped` in the selected format.
pub open spec fn answers_crop(
    r: Result<Vec<u8>, CropError>,
    cropped: DynamicImage,
    name: Option<Seq<char>>,
) -> bool {
    match resolution(name) {
        Err(extension) => r is Err && r->Err_0@ == (CropErrorView::UnsupportedFormat {
            extension,
        }),
        Ok(kind) => reports_encoding(r, cropped, kind, OutputStage::Save),
    }
}

/// Crops an image and encodes the result for storage at `output_path`, in
/// the format that the extension of the path's file name selects.
///
/// Fails with the first of: the bounds fault, exactly when the margins
/// leave nothing of the image; the unsupported extension of `output_path`,
/// exactly when it names no format; the encoder's rejection. On success the
/// bytes are the file to write: the encoding of the crop in that format.
pub fn crop_image(img: &DynamicImage, output_path: &str, settings: &CropSettings) -> (r: Result<
    Vec<u8>,
    CropError,
>)
    ensures
        match settings.fault(image_width(*img), image_height(*img)) {
            Some(fault) => r is Err && r->Err_0 == (CropError::Bounds { fault }),
            None => exists|cropped: DynamicImage|
                is_crop_of(cropped, *img, *settings) && #[trigger] answers_crop(
                    r,
                    cropped,
                    path_file_name(output_path@),
                ),
        },
{
    let cropped = match crop(img, settings) {
        Ok(cropped) => cropped,
        Err(e) => {
            return Err(e);
        },
    };
    let r = match detect_format(output_path) {
        Ok(kind) => encode_image(&cropped, kind, OutputStage::Save),
        Err(e) => Err(e),
    };
    assert(answers_crop(r, cropped, path_file_name(output_path@)));
    r
}

/// The dimensions and format of an image.
#[derive(Debug, Clone, PartialEq, Eq)]
pub struct ImageInfo {
    pub width: u32,
    pub height: u32,
    /// The canonical name of the format, or `unknown`.
    pub format: String,
}

/// The format tag reported for a file named `name`: the canonical name of
/// the format its extension selects, and `unknown` where it selects none.
pub open spec fn format_tag(name: Option<Seq<char>>) -> Seq<char> {
    match resolution(name) {
        Ok(kind) => kind.label(),
        Err(_) => "unknown"@,
    }
}

/// A file whose extension spells the canonical name of a format, in any
/// case, is tagged with that name; a file whose extension names no format is
/// tagged `unknown`.
pub proof fn lemma_format_tag(name: Option<Seq<char>>, kind: ImageKind)
    ensures
        spells(extension_or_empty(name), kind.label()) ==> format_tag(name) == kind.label(),
        kind_of_extension(extension_or_empty(name)) is None ==> format_tag(name) == "unknown"@,
{
    if spells(extension_or_empty(name), kind.label()) {
        lemma_label_names_kind(kind, extension_or_empty(name));
    }
}

/// Names a resolved format for reporting. A format that could not be
/// resolved is reported as `unknown`, whatever the reason.
pub fn format_tag_of(format: &Result<ImageKind, CropError>) -> (r: String)
    ensures
        r@ == match format {
            Ok(kind) => kind.label(),
            Err(_) => "unknown"@,
        },
{
    match format {
        Ok(kind) => format_to_string(*kind),
        Err(_) => String::from_str("unknown"),
    }
}

/// Reports the pixel dimensions of a decoded image and the format that the
/// file name of `path` indicates. An unrecognised extension is reported as
/// `unknown`; it is no failure.
pub fn get_info(img: &DynamicImage, path: &str) -> (r: ImageInfo)
    ensures
        r.width == image_width(*img),
        r.height == image_height(*img),
        r.format@ == format_tag(path_file_name(path@)),
{
    let resolved = detect_format(path);
    let format = format_tag_of(&resolved);
    ImageInfo { width: img.width(), height: img.height(), format }
}

} // verus!
