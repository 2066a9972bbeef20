//! Decoded images: what the library knows of them and what it asks of the
//! codec crate.

use crate::format::ImageKind;
use image::DynamicImage;
use vstd::prelude::*;

verus! {

/// `image::DynamicImage`: a decoded image, carried through the library as it
/// is. What the library knows of one is its size and its pixels, below.
#[verifier::external_type_specification]
#[verifier::external_body]
pub struct ExDynamicImage(image::DynamicImage);

/// The number of pixel columns of an image.
pub uninterp spec fn image_width(img: DynamicImage) -> nat;

/// The number of pixel rows of an image.
pub uninterp spec fn image_height(img: DynamicImage) -> nat;

/// The pixels of an image by `(column, row)`, each as the channel data the
/// image stores for it.
pub uninterp spec fn image_pixels(img: DynamicImage) -> Map<(int, int), Seq<u8>>;

/// `DynamicImage::width` reports the number of columns.
pub assume_specification[ DynamicImage::width ](img: &DynamicImage) -> (w: u32)
    ensures
        w == image_width(*img),
;

/// `DynamicImage::height` reports the number of rows.
pub assume_specification[ DynamicImage::height ](img: &DynamicImage) -> (h: u32)
    ensures
        h == image_height(*img),
;

/// `DynamicImage::crop_imm`, asked for a rectangle that lies inside the
/// image, returns a new image of exactly that size whose pixel at `(i, j)` is
/// the source's pixel at `(x + i, y + j)`.
pub assume_specification[ DynamicImage::crop_imm ](
    img: &DynamicImage,
    x: u32,
    y: u32,
    width: u32,
    height: u32,
) -> (r: DynamicImage)
    requires
        x + width <= image_width(*img),
        y + height <= image_height(*img),
    ensures
        image_width(r) == width,
        image_height(r) == height,
        forall|i: int, j: int|
            0 <= i < width && 0 <= j < height ==> #[trigger] image_pixels(r)[(i, j)]
                == image_pixels(*img)[(x + i, y + j)],
;

/// `image::ImageError`: an error of the `image` crate's codecs.
#[verifier::external_type_specification]
#[verifier::external_body]
pub struct ExImageError(image::ImageError);

/// A pixel buffer of `width` x `height` pixels at `bytes_per_pixel` is within
/// the size that a single allocation can have.
pub open spec fn allocatable(width: nat, height: nat, bytes_per_pixel: nat) -> bool {
    bytes_per_pixel * width * height <= isize::MAX
}

/// `imageops::resize` with the Lanczos filter of window 3, its result made a
/// `DynamicImage`: the result has exactly the dimensions asked for. Its
/// pixels come out of floating-point resampling and are not described.
///
/// The resampler first scales the rows into an image as wide as the source
/// with four 32-bit channels per pixel, then the columns into the result,
/// with four 8-bit channels; it panics where either buffer is too large to
/// allocate, which the precondition excludes.
#[verifier::external_body]
pub(crate) fn resample(img: &DynamicImage, width: u32, height: u32) -> (r: DynamicImage)
    requires
        allocatable(image_width(*img), height as nat, 16),
        allocatable(width as nat, height as nat, 4),
    ensures
        image_width(r) == width,
        image_height(r) == height,
{
    DynamicImage::from(
        image::imageops::resize(img, width, height, image::imageops::FilterType::Lanczos3),
    )
}

/// The file that the `image` crate's encoder for `kind` makes of an image,
/// or `None` where that encoder rejects the image.
pub uninterp spec fn encoding(img: DynamicImage, kind: ImageKind) -> Option<Seq<u8>>;

/// `DynamicImage::write_to` into memory, in the codec that `kind` names:
/// the encoded file on success, the codec's error otherwise. Success or
/// failure, and the bytes on success, are a function of the image and the
/// format alone.
#[verifier::external_body]
pub(crate) fn encode(img: &DynamicImage, kind: ImageKind) -> (r: Result<Vec<u8>, image::ImageError>)
    ensures
        match r {
            Ok(bytes) => encoding(*img, kind) == Some(bytes@),
            Err(_) => encoding(*img, kind) is None,
        },
{
    let format = match kind {
        ImageKind::Jpeg => image::ImageFormat::Jpeg,
        ImageKind::Png => image::ImageFormat::Png,
        ImageKind::WebP => image::ImageFormat::WebP,
        ImageKind::Bmp => image::ImageFormat::Bmp,
        ImageKind::Gif => image::ImageFormat::Gif,
        ImageKind::Tiff => image::ImageFormat::Tiff,
    };
    let mut out = std::io::Cursor::new(Vec::new());
    img.write_to(&mut out, format)?;
    Ok(out.into_inner())
}

/// `ImageError`'s `Display`, through `to_string`: the text of the error.
/// Nothing is claimed of it.
#[verifier::external_body]
pub(crate) fn error_text(error: &image::ImageError) -> (r: String) {
    error.to_string()
}

} // verus!
