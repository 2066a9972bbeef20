//! Batch cropping of images by fixed pixel margins, with inspection and
//! downscaled previews.
//!
//! The library works on decoded images and on path texts; reading and
//! writing files is left to its caller.

pub mod batch;
pub mod error;
pub mod format;
pub mod geometry;
pub mod paths;
pub mod preview;
pub mod processor;
pub mod raster;
pub mod text;

pub use batch::{crop_single, Batch, CropResult, Job};
pub use error::{CropError, OutputStage};
pub use format::{detect_format, format_from_extension, format_to_string, ImageKind};
pub use geometry::{
    crop_region, validate_crop_bounds, Axis, BoundsFault, CropRegion, CropSettings,
};
pub use paths::{build_output_path, OutputPath};
pub use preview::{
    generate_preview, get_preview_data, preview_dimensions, preview_payload, resize_for_preview,
    DEFAULT_PREVIEW_SIZE,
};
pub use processor::{crop, crop_image, encode_image, get_info, ImageInfo};
