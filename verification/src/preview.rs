//! Previews: the size a preview is scaled to, and the inline payload that
//! carries it.

use crate::error::{CropError, CropErrorView, OutputStage};
use crate::format::ImageKind;
use crate::geometry::CropSettings;
use crate::processor::{crop, encode_image, is_crop_of};
use crate::raster::{allocatable, encoding, image_height, image_width, resample};
use image::DynamicImage;
use vstd::prelude::*;

verus! {

/// The largest preview side used where the caller names none.
pub const DEFAULT_PREVIEW_SIZE: u32 = 600;

/// A side of `side` pixels scaled by `max / longest`, rounded down.
pub open spec fn scaled(side: nat, max: nat, longest: nat) -> nat {
    side * max / longest
}

/// The size of the preview of a `width` x `height` image under the limit
/// `max`: the image's own size where both sides are within the limit, and
/// otherwise both sides scaled by the one factor that brings the longer side
/// to `max`.
pub open spec fn preview_size(width: nat, height: nat, max: nat) -> (nat, nat) {
    if width <= max && height <= max {
        (width, height)
    } else {
        let longest = if width >= height {
            width
        } else {
            height
        };
        (scaled(width, max, longest), scaled(height, max, longest))
    }
}

/// Scaling a side by `max / longest` gives the floor of the exact quotient,
/// which is at most `max`, and at most the side itself when `max` does not
/// exceed `longest`; the longest side comes out as `max` exactly.
pub proof fn lemma_scaled(side: nat, max: nat, longest: nat)
    requires
        side <= longest,
        longest > 0,
    ensures
        scaled(side, max, longest) * longest <= side * max < (scaled(side, max, longest) + 1)
            * longest,
        scaled(side, max, longest) <= max,
        max <= longest ==> scaled(side, max, longest) <= side,
        scaled(longest, max, longest) == max,
{
    let q = scaled(side, max, longest);
    assert(q * longest <= side * max < (q + 1) * longest) by (nonlinear_arith)
        requires
            q == side * max / longest,
            longest > 0,
    ;
    assert(q <= max) by (nonlinear_arith)
        requires
            q * longest <= side * max,
            side <= longest,
            longest > 0,
    ;
    if max <= longest {
        assert(q <= side) by (nonlinear_arith)
            requires
                q * longest <= side * max,
                max <= longest,
                longest > 0,
        ;
    }
    assert(longest * max / longest == max) by (nonlinear_arith)
        requires
            longest > 0,
    ;
}

/// A preview never exceeds the limit on either side and is never larger
/// than its source on either side.
pub proof fn lemma_preview_size_bounds(width: nat, height: nat, max: nat)
    ensures
        preview_size(width, height, max).0 <= max,
        preview_size(width, height, max).1 <= max,
        preview_size(width, height, max).0 <= width,
        preview_size(width, height, max).1 <= height,
{
    if !(width <= max && height <= max) {
        let longest = if width >= height {
            width
        } else {
            height
        };
        lemma_scaled(width, max, longest);
        lemma_scaled(height, max, longest);
    }
}

/// Computes the size of a preview.
pub fn preview_dimensions(width: u32, height: u32, max_size: u32) -> (r: (u32, u32))
    ensures
        r.0 == preview_size(width as nat, height as nat, max_size as nat).0,
        r.1 == preview_size(width as nat, height as nat, max_size as nat).1,
{
    if width <= max_size && height <= max_size {
        return (width, height);
    }
    let longest: u64 = if width >= height {
        width as u64
    } else {
        height as u64
    };
    proof {
        lemma_scaled(width as nat, max_size as nat, longest as nat);
        lemma_scaled(height as nat, max_size as nat, longest as nat);
        assert(width as u64 * max_size as u64 <= u64::MAX) by (nonlinear_arith);
        assert(height as u64 * max_size as u64 <= u64::MAX) by (nonlinear_arith);
    }
    let new_width: u64 = width as u64 * max_size as u64 / longest;
    let new_height: u64 = height as u64 * max_size as u64 / longest;
    (new_width as u32, new_height as u32)
}

/// A `width` x `height` image can be previewed under the limit `max`: it
/// fits as it is, or the image that resampling passes through, as wide as
/// the source and as high as the preview, is within the size of one
/// allocation.
pub open spec fn previewable(width: nat, height: nat, max: nat) -> bool {
    (width <= max && height <= max) || allocatable(
        width,
        preview_size(width, height, max).1,
        16,
    )
}

/// Decides whether an image of the given size can be previewed.
pub fn can_preview(width: u32, height: u32, max_size: u32) -> (r: bool)
    ensures
        r == previewable(width as nat, height as nat, max_size as nat),
{
    if width <= max_size && height <= max_size {
        return true;
    }
    let (_, new_height) = preview_dimensions(width, height, max_size);
    assert(16 * (width as nat) * (new_height as nat) <= u128::MAX) by (nonlinear_arith);
    assert((16 * width as u128) * new_height as u128 == 16 * (width as nat) * (new_height as nat))
        by (nonlinear_arith);
    16 * (width as u128) * (new_height as u128) <= isize::MAX as u128
}

/// `preview` is a preview of `source` under the limit `max`: it has the
/// preview's size, and it is `source` itself where that already fits.
pub open spec fn is_preview_of(preview: DynamicImage, source: DynamicImage, max: nat) -> bool {
    &&& image_width(preview) == preview_size(image_width(source), image_height(source), max).0
    &&& image_height(preview) == preview_size(image_width(source), image_height(source), max).1
    &&& image_width(source) <= max && image_height(source) <= max ==> preview == source
}

/// Scales an image down to fit within `max_size` on both sides, keeping its
/// aspect ratio. An image that already fits is handed back unchanged; none
/// is ever enlarged.
pub fn resize_for_preview(img: DynamicImage, max_size: u32) -> (r: DynamicImage)
    requires
        previewable(image_width(img), image_height(img), max_size as nat),
    ensures
        is_preview_of(r, img, max_size as nat),
        image_width(r) <= max_size,
        image_height(r) <= max_size,
        image_width(r) <= image_width(img),
        image_height(r) <= image_height(img),
{
    let width: u32 = img.width();
    let height: u32 = img.height();
    proof {
        lemma_preview_size_bounds(width as nat, height as nat, max_size as nat);
    }
    if width <= max_size && height <= max_size {
        return img;
    }
    let (new_width, new_height) = preview_dimensions(width, height, max_size);
    assert(4 * new_width * new_height <= 16 * width * new_height) by (nonlinear_arith)
        requires
            new_width <= width,
    ;
    resample(&img, new_width, new_height)
}

/// The text of the standard base64 encoding, with padding, of `bytes`.
pub uninterp spec fn base64_standard(bytes: Seq<u8>) -> Seq<char>;

/// The base64 text of `length` bytes has a length that the machine can
/// represent.
pub open spec fn encodable(length: nat) -> bool {
    4 * (length / 3 + 1) <= usize::MAX
}

/// `Engine::encode` of `base64`, on its `STANDARD` engine: the standard
/// alphabet with padding. The text is a function of the bytes alone.
#[verifier::external_body]
fn base64_encode(bytes: &Vec<u8>) -> (r: String)
    requires
        encodable(bytes@.len()),
    ensures
        r@ == base64_standard(bytes@),
{
    base64::Engine::encode(&base64::engine::general_purpose::STANDARD, bytes)
}

/// What every preview payload begins with: the data URI scheme, the media
/// type of PNG, and the mark of base64 content.
pub open spec fn data_uri_prefix() -> Seq<char> {
    "data:image/png;base64,"@
}

/// The inline form of an encoded PNG file: a data URI that names the media
/// type and carries the file in base64.
pub open spec fn data_uri(png: Seq<u8>) -> Seq<char> {
    data_uri_prefix() + base64_standard(png)
}

/// `text` begins with `prefix`.
pub open spec fn begins_with(text: Seq<char>, prefix: Seq<char>) -> bool {
    prefix.len() <= text.len() && text.subrange(0, prefix.len() as int) == prefix
}

/// The data URI of any file begins with the fixed prefix.
pub proof fn lemma_data_uri_prefix(png: Seq<u8>)
    ensures
        begins_with(data_uri(png), data_uri_prefix()),
{
    assert(data_uri(png).subrange(0, data_uri_prefix().len() as int) =~= data_uri_prefix());
}

/// What is reported where an image is too large to be turned into a preview.
pub open spec fn oversize() -> CropErrorView {
    CropErrorView::EncodeOrWrite { stage: OutputStage::Preview, detail: "画像が大きすぎます"@ }
}

fn oversize_error() -> (r: CropError)
    ensures
        r@ == oversize(),
{
    CropError::EncodeOrWrite {
        stage: OutputStage::Preview,
        detail: String::from_str("画像が大きすぎます"),
    }
}

/// Wraps an encoded PNG file as a data URI.
///
/// Fails only where the base64 text would be longer than the machine can
/// represent.
pub fn preview_payload(png: &Vec<u8>) -> (r: Result<String, CropError>)
    ensures
        match r {
            Ok(text) => encodable(png@.len()) && text@ == data_uri(png@),
            Err(e) => !encodable(png@.len()) && e@ == oversize(),
        },
{
    if png.len() / 3 >= usize::MAX / 4 {
        return Err(oversize_error());
    }
    let text = String::from_str("data:image/png;base64,");
    Ok(text.concat(base64_encode(png).as_str()))
}

/// `r` delivers the preview image `preview`: its PNG encoding as a data
/// URI, or the failure to make one.
pub open spec fn delivers(r: Result<String, CropError>, preview: DynamicImage) -> bool {
    match encoding(preview, ImageKind::Png) {
        Some(png) => if encodable(png.len()) {
            r is Ok && r->Ok_0@ == data_uri(png)
        } else {
            r is Err && r->Err_0@ == oversize()
        },
        None => r is Err && r->Err_0@ is EncodeOrWrite && r->Err_0@->stage
            == OutputStage::Preview,
    }
}

/// `r` is the answer to a request for the preview of `cropped` under the
/// limit `max`, where `preview` is the image that was encoded, if one was.
pub open spec fn answers_preview(
    r: Result<String, CropError>,
    cropped: DynamicImage,
    preview: DynamicImage,
    max: nat,
) -> bool {
    if previewable(image_width(cropped), image_height(cropped), max) {
        is_preview_of(preview, cropped, max) && delivers(r, preview)
    } else {
        r is Err && r->Err_0@ == oversize()
    }
}

/// `r` is an answer to a request for the preview of `img` cropped by
/// `settings`, under the limit `max`: the bounds fault where the margins
/// leave nothing of the image, and otherwise the answer for some crop of the
/// image and some preview of that crop.
pub open spec fn previews(
    r: Result<String, CropError>,
    img: DynamicImage,
    settings: CropSettings,
    max: nat,
) -> bool {
    match settings.fault(image_width(img), image_height(img)) {
        Some(fault) => r is Err && r->Err_0 == (CropError::Bounds { fault }),
        None => exists|cropped: DynamicImage, preview: DynamicImage|
            is_crop_of(cropped, img, settings) && #[trigger] answers_preview(
                r,
                cropped,
                preview,
                max,
            ),
    }
}

/// Renders the preview of a crop: the image is cropped, scaled down to fit
/// `max_size`, encoded as PNG whatever its source format, and wrapped as a
/// data URI.
///
/// Fails with the bounds fault exactly when the margins leave nothing of
/// the image. A payload, where one is returned, begins with the data URI
/// prefix.
pub fn generate_preview(img: &DynamicImage, settings: &CropSettings, max_size: u32) -> (r: Result<
    String,
    CropError,
>)
    ensures
        previews(r, *img, *settings, max_size as nat),
        r matches Ok(text) ==> begins_with(text@, data_uri_prefix()),
{
    let cropped = match crop(img, settings) {
        Ok(cropped) => cropped,
        Err(e) => {
            return Err(e);
        },
    };
    let ghost source = cropped;
    if !can_preview(cropped.width(), cropped.height(), max_size) {
        let r = Err(oversize_error());
        assert(answers_preview(r, source, source, max_size as nat));
        return r;
    }
    let resized = resize_for_preview(cropped, max_size);
    let r = match encode_image(&resized, ImageKind::Png, OutputStage::Preview) {
        Ok(png) => {
            proof {
                lemma_data_uri_prefix(png@);
            }
            preview_payload(&png)
        },
        Err(e) => Err(e),
    };
    assert(answers_preview(r, source, resized, max_size as nat));
    r
}

/// The limit that applies to a preview request: the one given, or
/// [`DEFAULT_PREVIEW_SIZE`].
pub open spec fn limit_of(max_size: Option<u32>) -> nat {
    match max_size {
        Some(limit) => limit as nat,
        None => DEFAULT_PREVIEW_SIZE as nat,
    }
}

/// Renders a preview under the caller's size limit, or under
/// [`DEFAULT_PREVIEW_SIZE`] where the caller names none.
pub fn get_preview_data(
    img: &DynamicImage,
    settings: &CropSettings,
    max_size: Option<u32>,
) -> (r: Result<String, CropError>)
    ensures
        previews(r, *img, *settings, limit_of(max_size)),
        r matches Ok(text) ==> begins_with(text@, data_uri_prefix()),
{
    let limit: u32 = match max_size {
        Some(limit) => limit,
        None => DEFAULT_PREVIEW_SIZE,
    };
    generate_preview(img, settings, limit)
}

} // verus!
