//! Crop margins, the bounds rule that gates every crop, and the rectangle a
//! valid crop selects.

use vstd::prelude::*;

verus! {

/// Margins to remove from each side of an image, in source pixels.
///
/// A value carries no relation to any image; it is checked against an image's
/// dimensions when it is applied.
#[derive(Debug, Clone, Copy, PartialEq, Eq, Structural)]
pub struct CropSettings {
    pub top: u32,
    pub bottom: u32,
    pub left: u32,
    pub right: u32,
}

/// The direction along which a pair of margins is measured.
#[derive(Debug, Clone, Copy, PartialEq, Eq, Structural)]
pub enum Axis {
    /// Left plus right, measured against the width.
    Horizontal,
    /// Top plus bottom, measured against the height.
    Vertical,
}

/// A pair of margins that leaves nothing of the image along one axis.
#[derive(Debug, Clone, Copy, PartialEq, Eq, Structural)]
pub struct BoundsFault {
    pub axis: Axis,
    /// The sum of the two margins along `axis`.
    pub sum: u64,
    /// The extent of the image along `axis`, which `sum` reaches or exceeds.
    pub limit: u32,
}

/// The rectangle that a crop keeps: its top-left corner and its size.
#[derive(Debug, Clone, Copy, PartialEq, Eq, Structural)]
pub struct CropRegion {
    pub x: u32,
    pub y: u32,
    pub width: u32,
    pub height: u32,
}

impl CropSettings {
    /// Left plus right margin.
    pub open spec fn horizontal(self) -> int {
        self.left + self.right
    }

    /// Top plus bottom margin.
    pub open spec fn vertical(self) -> int {
        self.top + self.bottom
    }

    /// The margins leave at least one pixel in each direction of a
    /// `width` x `height` image.
    pub open spec fn fits(self, width: nat, height: nat) -> bool {
        self.horizontal() < width && self.vertical() < height
    }

    /// What is wrong with the margins for a `width` x `height` image, if
    /// anything. The horizontal axis is examined first.
    pub open spec fn fault(self, width: nat, height: nat) -> Option<BoundsFault> {
        if self.horizontal() >= width {
            Some(
                BoundsFault {
                    axis: Axis::Horizontal,
                    sum: self.horizontal() as u64,
                    limit: width as u32,
                },
            )
        } else if self.vertical() >= height {
            Some(
                BoundsFault {
                    axis: Axis::Vertical,
                    sum: self.vertical() as u64,
                    limit: height as u32,
                },
            )
        } else {
            None
        }
    }

    /// The rectangle kept from a `width` x `height` image: origin
    /// `(left, top)`, extending to `(width - right, height - bottom)`
    /// exclusive.
    pub open spec fn region(self, width: nat, height: nat) -> CropRegion
        recommends
            self.fits(width, height),
    {
        CropRegion {
            x: self.left,
            y: self.top,
            width: (width - self.left - self.right) as u32,
            height: (height - self.top - self.bottom) as u32,
        }
    }
}

/// Margins are faulted exactly when their sum reaches the image's extent
/// along some axis; the fault then names the first such axis, horizontal
/// before vertical, with the sum of its margins.
pub proof fn lemma_fault_iff_unfit(settings: CropSettings, width: nat, height: nat)
    ensures
        settings.fault(width, height) is None <==> settings.fits(width, height),
        settings.fault(width, height) is Some <==> (settings.left + settings.right >= width
            || settings.top + settings.bottom >= height),
        settings.fault(width, height) matches Some(fault) ==> fault.sum == match fault.axis {
            Axis::Horizontal => settings.left + settings.right,
            Axis::Vertical => settings.top + settings.bottom,
        },
{
}

/// Margins of zero on all four sides fit every image that has a pixel, and
/// keep the whole of it.
pub proof fn lemma_zero_margins_keep_all(width: nat, height: nat)
    requires
        0 < width <= u32::MAX,
        0 < height <= u32::MAX,
    ensures
        ({
            let none = CropSettings { top: 0, bottom: 0, left: 0, right: 0 };
            &&& none.fits(width, height)
            &&& none.region(width, height) == (CropRegion {
                x: 0,
                y: 0,
                width: width as u32,
                height: height as u32,
            })
        }),
{
}

/// Margins that fit keep a rectangle of exactly `width - left - right` by
/// `height - top - bottom` pixels, which has at least one pixel and lies
/// inside the image.
pub proof fn lemma_region_size(settings: CropSettings, width: nat, height: nat)
    requires
        settings.fits(width, height),
        width <= u32::MAX,
        height <= u32::MAX,
    ensures
        settings.region(width, height).width == width - settings.left - settings.right,
        settings.region(width, height).height == height - settings.top - settings.bottom,
        settings.region(width, height).width > 0,
        settings.region(width, height).height > 0,
        settings.region(width, height).x + settings.region(width, height).width <= width,
        settings.region(width, height).y + settings.region(width, height).height <= height,
{
}

/// Checks crop margins against image dimensions.
///
/// Succeeds exactly when the margins leave a non-empty rectangle; otherwise
/// reports the first axis whose margins reach the image's extent, with their
/// sum. Sums are taken without wrapping.
pub fn validate_crop_bounds(width: u32, height: u32, settings: &CropSettings) -> (r: Result<
    (),
    BoundsFault,
>)
    ensures
        r == match settings.fault(width as nat, height as nat) {
            Some(fault) => Err::<(), BoundsFault>(fault),
            None => Ok(()),
        },
        r is Ok <==> settings.fits(width as nat, height as nat),
{
    let across: u64 = settings.left as u64 + settings.right as u64;
    if across >= width as u64 {
        return Err(BoundsFault { axis: Axis::Horizontal, sum: across, limit: width });
    }
    let down: u64 = settings.top as u64 + settings.bottom as u64;
    if down >= height as u64 {
        return Err(BoundsFault { axis: Axis::Vertical, sum: down, limit: height });
    }
    Ok(())
}

/// Computes the rectangle that valid margins keep.
pub fn crop_region(width: u32, height: u32, settings: &CropSettings) -> (r: CropRegion)
    requires
        settings.fits(width as nat, height as nat),
    ensures
        r == settings.region(width as nat, height as nat),
{
    CropRegion {
        x: settings.left,
        y: settings.top,
        width: width - settings.left - settings.right,
        height: height - settings.top - settings.bottom,
    }
}

} // verus!
