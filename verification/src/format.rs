//! The supported file formats and how a file name selects one.

use crate::error::{CropError, CropErrorView};
use crate::paths::{
    cropped_name, extension_or_empty, file_extension, file_name, lemma_cropped_name_parts,
    path_file_name,
};
use crate::text::{folded, same_ignoring_case};
use vstd::prelude::*;

verus! {

/// A file format that the library reads and writes.
#[derive(Debug, Clone, Copy, PartialEq, Eq, Structural)]
pub enum ImageKind {
    Jpeg,
    Png,
    WebP,
    Bmp,
    Gif,
    Tiff,
}

impl ImageKind {
    /// The canonical lower-case name of the format.
    pub open spec fn label(self) -> Seq<char> {
        match self {
            ImageKind::Jpeg => "jpeg"@,
            ImageKind::Png => "png"@,
            ImageKind::WebP => "webp"@,
            ImageKind::Bmp => "bmp"@,
            ImageKind::Gif => "gif"@,
            ImageKind::Tiff => "tiff"@,
        }
    }
}

/// `extension` spells `word`, in any mix of upper and lower case.
pub open spec fn spells(extension: Seq<char>, word: Seq<char>) -> bool {
    folded(extension) == folded(word)
}

/// The format that an extension names, if it names one. `jpg` and `jpeg`
/// both name JPEG; `tif` and `tiff` both name TIFF.
pub open spec fn kind_of_extension(extension: Seq<char>) -> Option<ImageKind> {
    if spells(extension, "jpg"@) || spells(extension, "jpeg"@) {
        Some(ImageKind::Jpeg)
    } else if spells(extension, "png"@) {
        Some(ImageKind::Png)
    } else if spells(extension, "webp"@) {
        Some(ImageKind::WebP)
    } else if spells(extension, "bmp"@) {
        Some(ImageKind::Bmp)
    } else if spells(extension, "gif"@) {
        Some(ImageKind::Gif)
    } else if spells(extension, "tiff"@) || spells(extension, "tif"@) {
        Some(ImageKind::Tiff)
    } else {
        None
    }
}

/// Each format is named by its own canonical name, and so by that name in
/// any mix of upper and lower case.
pub proof fn lemma_label_names_kind(kind: ImageKind, extension: Seq<char>)
    requires
        spells(extension, kind.label()),
    ensures
        kind_of_extension(extension) == Some(kind),
{
    reveal_strlit("jpg");
    reveal_strlit("jpeg");
    reveal_strlit("png");
    reveal_strlit("webp");
    reveal_strlit("bmp");
    reveal_strlit("gif");
    reveal_strlit("tiff");
    reveal_strlit("tif");
    assert forall|word: Seq<char>| #[trigger] folded(word).len() == word.len() by {}
    assert(folded("jpg"@)[0] == 'j' && folded("jpeg"@)[0] == 'j');
    assert(folded("png"@)[0] == 'p');
    assert(folded("webp"@)[0] == 'w');
    assert(folded("bmp"@)[0] == 'b');
    assert(folded("gif"@)[0] == 'g');
    assert(folded("tiff"@)[0] == 't' && folded("tif"@)[0] == 't');
}

/// The outcome of resolving a format from a file name: the format its
/// extension names, or that extension as it was written.
pub open spec fn resolution(name: Option<Seq<char>>) -> Result<ImageKind, Seq<char>> {
    match kind_of_extension(extension_or_empty(name)) {
        Some(kind) => Ok(kind),
        None => Err(extension_or_empty(name)),
    }
}

/// The cropped copy of a file resolves to the format of the file itself:
/// its name carries the same extension.
pub proof fn lemma_copy_keeps_format(name: Option<Seq<char>>)
    ensures
        extension_or_empty(Some(cropped_name(name))) == extension_or_empty(name),
        resolution(Some(cropped_name(name))) == resolution(name),
{
    lemma_cropped_name_parts(name);
}

/// `r` is a resolver's answer for a file named `name`.
pub open spec fn resolves(r: Result<ImageKind, CropError>, name: Option<Seq<char>>) -> bool {
    match resolution(name) {
        Ok(kind) => r == Ok::<ImageKind, CropError>(kind),
        Err(extension) => r is Err && r->Err_0@ == (CropErrorView::UnsupportedFormat {
            extension,
        }),
    }
}

/// Maps an extension to the format it names, without regard to case.
///
/// Fails with `UnsupportedFormat`, carrying the extension as given, exactly
/// when the extension names none of the supported formats.
pub fn format_from_extension(extension: &str) -> (r: Result<ImageKind, CropError>)
    ensures
        match kind_of_extension(extension@) {
            Some(kind) => r == Ok::<ImageKind, CropError>(kind),
            None => r is Err && r->Err_0@ == (CropErrorView::UnsupportedFormat {
                extension: extension@,
            }),
        },
{
    if same_ignoring_case(extension, "jpg") || same_ignoring_case(extension, "jpeg") {
        Ok(ImageKind::Jpeg)
    } else if same_ignoring_case(extension, "png") {
        Ok(ImageKind::Png)
    } else if same_ignoring_case(extension, "webp") {
        Ok(ImageKind::WebP)
    } else if same_ignoring_case(extension, "bmp") {
        Ok(ImageKind::Bmp)
    } else if same_ignoring_case(extension, "gif") {
        Ok(ImageKind::Gif)
    } else if same_ignoring_case(extension, "tiff") || same_ignoring_case(extension, "tif") {
        Ok(ImageKind::Tiff)
    } else {
        Err(CropError::UnsupportedFormat { extension: String::from_str(extension) })
    }
}

/// Resolves the format of a file from its name alone.
pub fn format_of_file_name(name: Option<&str>) -> (r: Result<ImageKind, CropError>)
    ensures
        resolves(r, name.deep_view()),
{
    proof {
        reveal_strlit("");
        assert(""@ =~= Seq::<char>::empty());
    }
    match name {
        Some(name) => match file_extension(name) {
            Some(extension) => format_from_extension(extension),
            None => format_from_extension(""),
        },
        None => format_from_extension(""),
    }
}

/// Resolves the format of the file at `path` from the extension of its file
/// name, without regard to case.
///
/// Fails with `UnsupportedFormat`, carrying the extension as written,
/// exactly when that extension names none of the supported formats; a path
/// without a file name, and a name without an extension, count as having
/// the empty extension.
pub fn detect_format(path: &str) -> (r: Result<ImageKind, CropError>)
    ensures
        resolves(r, path_file_name(path@)),
{
    let name = file_name(path);
    match &name {
        Some(name) => format_of_file_name(Some(name.as_str())),
        None => format_of_file_name(None),
    }
}

/// The canonical name of a format.
pub fn format_to_string(format: ImageKind) -> (r: String)
    ensures
        r@ == format.label(),
{
    match format {
        ImageKind::Jpeg => String::from_str("jpeg"),
        ImageKind::Png => String::from_str("png"),
        ImageKind::WebP => String::from_str("webp"),
        ImageKind::Bmp => String::from_str("bmp"),
        ImageKind::Gif => String::from_str("gif"),
        ImageKind::Tiff => String::from_str("tiff"),
    }
}

} // verus!
