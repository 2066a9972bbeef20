use batch_crop::{Axis, BoundsFault, CropError, OutputStage};

#[test]
fn horizontal_fault_names_sum_and_width() {
    let fault = BoundsFault { axis: Axis::Horizontal, sum: 120, limit: 100 };
    assert_eq!(fault.describe(), "左右のクロップ値の合計(120)が画像幅(100)以上です");
    assert_eq!(
        CropError::Bounds { fault }.message(),
        "左右のクロップ値の合計(120)が画像幅(100)以上です"
    );
}

#[test]
fn vertical_fault_names_sum_and_height() {
    let fault = BoundsFault { axis: Axis::Vertical, sum: 100, limit: 80 };
    assert_eq!(fault.describe(), "上下のクロップ値の合計(100)が画像高さ(80)以上です");
}

#[test]
fn fault_with_the_largest_sum() {
    let fault = BoundsFault { axis: Axis::Vertical, sum: 8_589_934_590, limit: 0 };
    assert_eq!(fault.describe(), "上下のクロップ値の合計(8589934590)が画像高さ(0)以上です");
}

#[test]
fn decode_failure_carries_its_detail() {
    let error = CropError::Decode { detail: "No such file".to_string() };
    assert_eq!(error.message(), "画像の読み込みに失敗: No such file");
}

#[test]
fn unsupported_format_carries_the_extension() {
    let error = CropError::UnsupportedFormat { extension: "xyz".to_string() };
    assert_eq!(error.message(), "未対応の画像形式: xyz");
    let error = CropError::UnsupportedFormat { extension: String::new() };
    assert_eq!(error.message(), "未対応の画像形式: ");
}

#[test]
fn output_failures_name_their_stage() {
    let error = CropError::EncodeOrWrite { stage: OutputStage::Save, detail: "disk full".to_string() };
    assert_eq!(error.message(), "画像の保存に失敗: disk full");
    let error =
        CropError::EncodeOrWrite { stage: OutputStage::Preview, detail: "too big".to_string() };
    assert_eq!(error.message(), "プレビュー生成に失敗: too big");
}

#[test]
fn dispatch_fault_carries_its_detail() {
    let error = CropError::Dispatch { detail: "task panicked".to_string() };
    assert_eq!(error.message(), "タスク実行エラー: task panicked");
}
