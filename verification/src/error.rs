//! The ways an operation can fail, and the message each failure shows.

use crate::geometry::{Axis, BoundsFault};
use crate::text::{decimal, decimal_string};
use vstd::prelude::*;

verus! {

/// The step at which output bytes could not be produced or stored.
#[derive(Debug, Clone, Copy, PartialEq, Eq, Structural)]
pub enum OutputStage {
    /// Encoding or writing a cropped file.
    Save,
    /// Encoding a preview.
    Preview,
}

/// A failed operation. Each variant carries what is needed to tell the
/// failure apart and to describe it.
#[derive(Debug, Clone, PartialEq, Eq)]
pub enum CropError {
    /// The source could not be read or decoded.
    Decode { detail: String },
    /// The margins leave nothing of the image along one axis.
    Bounds { fault: BoundsFault },
    /// The file extension names no supported format.
    UnsupportedFormat { extension: String },
    /// Output bytes could not be produced or stored.
    EncodeOrWrite { stage: OutputStage, detail: String },
    /// The unit of work could not be run at all.
    Dispatch { detail: String },
}

/// A `CropError` with its texts as character sequences.
pub enum CropErrorView {
    Decode { detail: Seq<char> },
    Bounds { fault: BoundsFault },
    UnsupportedFormat { extension: Seq<char> },
    EncodeOrWrite { stage: OutputStage, detail: Seq<char> },
    Dispatch { detail: Seq<char> },
}

impl View for CropError {
    type V = CropErrorView;

    open spec fn view(&self) -> CropErrorView {
        match self {
            CropError::Decode { detail } => CropErrorView::Decode { detail: detail@ },
            CropError::Bounds { fault } => CropErrorView::Bounds { fault: *fault },
            CropError::UnsupportedFormat { extension } => CropErrorView::UnsupportedFormat {
                extension: extension@,
            },
            CropError::EncodeOrWrite { stage, detail } => CropErrorView::EncodeOrWrite {
                stage: *stage,
                detail: detail@,
            },
            CropError::Dispatch { detail } => CropErrorView::Dispatch { detail: detail@ },
        }
    }
}

impl BoundsFault {
    /// The sentence that reports the fault: which margins, their sum, and
    /// the extent they reach.
    pub open spec fn message(self) -> Seq<char> {
        match self.axis {
            Axis::Horizontal => "左右のクロップ値の合計("@ + decimal(self.sum as nat) + ")が画像幅("@
                + decimal(self.limit as nat) + ")以上です"@,
            Axis::Vertical => "上下のクロップ値の合計("@ + decimal(self.sum as nat) + ")が画像高さ("@
                + decimal(self.limit as nat) + ")以上です"@,
        }
    }

    /// Renders [`BoundsFault::message`].
    pub fn describe(&self) -> (r: String)
        ensures
            r@ == self.message(),
    {
        let mut text = match self.axis {
            Axis::Horizontal => String::from_str("左右のクロップ値の合計("),
            Axis::Vertical => String::from_str("上下のクロップ値の合計("),
        };
        let sum = decimal_string(self.sum);
        text.append(sum.as_str());
        match self.axis {
            Axis::Horizontal => text.append(")が画像幅("),
            Axis::Vertical => text.append(")が画像高さ("),
        }
        let limit = decimal_string(self.limit as u64);
        text.append(limit.as_str());
        text.append(")以上です");
        text
    }
}

impl CropErrorView {
    /// The human-readable description of the failure.
    pub open spec fn message(self) -> Seq<char> {
        match self {
            CropErrorView::Decode { detail } => "画像の読み込みに失敗: "@ + detail,
            CropErrorView::Bounds { fault } => fault.message(),
            CropErrorView::UnsupportedFormat { extension } => "未対応の画像形式: "@ + extension,
            CropErrorView::EncodeOrWrite { stage, detail } => match stage {
                OutputStage::Save => "画像の保存に失敗: "@ + detail,
                OutputStage::Preview => "プレビュー生成に失敗: "@ + detail,
            },
            CropErrorView::Dispatch { detail } => "タスク実行エラー: "@ + detail,
        }
    }
}

impl CropError {
    /// Describes the failure in words, with the numbers or the extension
    /// involved.
    pub fn message(&self) -> (r: String)
        ensures
            r@ == self@.message(),
    {
        match self {
            CropError::Decode { detail } => String::from_str("画像の読み込みに失敗: ").concat(
                detail.as_str(),
            ),
            CropError::Bounds { fault } => fault.describe(),
            CropError::UnsupportedFormat { extension } => String::from_str(
                "未対応の画像形式: ",
            ).concat(extension.as_str()),
            CropError::EncodeOrWrite { stage, detail } => {
                let head = match stage {
                    OutputStage::Save => String::from_str("画像の保存に失敗: "),
                    OutputStage::Preview => String::from_str("プレビュー生成に失敗: "),
                };
                head.concat(detail.as_str())
            },
            CropError::Dispatch { detail } => String::from_str("タスク実行エラー: ").concat(
                detail.as_str(),
            ),
        }
    }
}

} // verus!
