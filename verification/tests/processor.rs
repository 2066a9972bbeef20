use batch_crop::processor::format_tag_of;
use batch_crop::{
    crop, crop_image, encode_image, generate_preview, get_info, Axis, BoundsFault, CropError,
    CropSettings, ImageKind, OutputStage,
};
use image::{DynamicImage, GenericImageView, ImageBuffer, ImageFormat, Luma, Rgb, Rgba};

fn create_test_image(width: u32, height: u32) -> DynamicImage {
    let img = ImageBuffer::from_fn(width, height, |x, y| Rgba([x as u8, y as u8, 128, 255]));
    DynamicImage::ImageRgba8(img)
}

fn margins(top: u32, bottom: u32, left: u32, right: u32) -> CropSettings {
    CropSettings { top, bottom, left, right }
}

#[test]
fn test_crop_image() {
    let input = create_test_image(100, 80);
    let settings = CropSettings { top: 10, bottom: 10, left: 5, right: 5 };
    let bytes = crop_image(&input, "output.png", &settings).unwrap();

    let result = image::load_from_memory(&bytes).unwrap();
    assert_eq!(result.dimensions(), (90, 60));
}

#[test]
fn test_crop_invalid_bounds() {
    let input = create_test_image(100, 80);
    let settings = CropSettings { top: 50, bottom: 50, left: 0, right: 0 };
    let result = crop_image(&input, "out.png", &settings);
    assert!(result.is_err());
}

#[test]
fn test_get_info() {
    let input = create_test_image(200, 150);
    let info = get_info(&input, "test.png");
    assert_eq!(info.width, 200);
    assert_eq!(info.height, 150);
    assert_eq!(info.format, "png");
}

#[test]
fn test_generate_preview() {
    let input = create_test_image(200, 150);
    let settings = CropSettings { top: 10, bottom: 10, left: 10, right: 10 };
    let data_url = generate_preview(&input, &settings, 100).unwrap();
    assert!(data_url.starts_with("data:image/png;base64,"));
}

#[test]
fn crop_keeps_the_rectangle_inside_the_margins() {
    let input = create_test_image(100, 80);
    let cropped = crop(&input, &margins(10, 20, 5, 15)).unwrap();
    assert_eq!(cropped.dimensions(), (80, 50));
    for y in 0..50 {
        for x in 0..80 {
            assert_eq!(cropped.get_pixel(x, y), input.get_pixel(x + 5, y + 10));
        }
    }
}

#[test]
fn crop_leaves_the_source_as_it_was() {
    let input = create_test_image(40, 30);
    let before = input.clone();
    let _ = crop(&input, &margins(1, 2, 3, 4)).unwrap();
    assert_eq!(input, before);
}

#[test]
fn crop_by_zero_margins_is_the_whole_image() {
    let input = create_test_image(33, 21);
    let cropped = crop(&input, &margins(0, 0, 0, 0)).unwrap();
    assert_eq!(cropped, input);
}

#[test]
fn crop_down_to_one_pixel() {
    let input = create_test_image(10, 10);
    let cropped = crop(&input, &margins(4, 5, 7, 2)).unwrap();
    assert_eq!(cropped.dimensions(), (1, 1));
    assert_eq!(cropped.get_pixel(0, 0), Rgba([7, 4, 128, 255]));
}

#[test]
fn crop_keeps_the_colour_type_and_its_values() {
    let grey = ImageBuffer::from_fn(20, 10, |x, y| Luma([(x * 1000 + y) as u16]));
    let input = DynamicImage::ImageLuma16(grey);
    let cropped = crop(&input, &margins(2, 3, 4, 5)).unwrap();
    assert_eq!(cropped.color(), input.color());
    let expected = ImageBuffer::from_fn(11, 5, |x, y| Luma([((x + 4) * 1000 + y + 2) as u16]));
    assert_eq!(cropped, DynamicImage::ImageLuma16(expected));
}

#[test]
fn crop_reports_the_fault_with_axis_and_sum() {
    let input = create_test_image(100, 80);
    assert_eq!(
        crop(&input, &margins(50, 50, 0, 0)),
        Err(CropError::Bounds {
            fault: BoundsFault { axis: Axis::Vertical, sum: 100, limit: 80 }
        })
    );
    assert_eq!(
        crop(&input, &margins(0, 0, 50, 50)),
        Err(CropError::Bounds {
            fault: BoundsFault { axis: Axis::Horizontal, sum: 100, limit: 100 }
        })
    );
}

#[test]
fn crop_image_reports_the_fault_before_the_format() {
    let input = create_test_image(100, 80);
    assert_eq!(
        crop_image(&input, "out.unknown", &margins(50, 50, 0, 0)),
        Err(CropError::Bounds {
            fault: BoundsFault { axis: Axis::Vertical, sum: 100, limit: 80 }
        })
    );
}

#[test]
fn crop_image_rejects_an_unsupported_extension() {
    let input = create_test_image(100, 80);
    assert_eq!(
        crop_image(&input, "out.xyz", &margins(1, 1, 1, 1)),
        Err(CropError::UnsupportedFormat { extension: "xyz".to_string() })
    );
    assert_eq!(
        crop_image(&input, "out", &margins(1, 1, 1, 1)),
        Err(CropError::UnsupportedFormat { extension: String::new() })
    );
}

#[test]
fn crop_image_encodes_in_the_format_of_the_extension() {
    let input = create_test_image(64, 48);
    let cases = [
        ("out.png", ImageFormat::Png),
        ("out.JPG", ImageFormat::Jpeg),
        ("out.jpeg", ImageFormat::Jpeg),
        ("out.webp", ImageFormat::WebP),
        ("out.bmp", ImageFormat::Bmp),
        ("out.gif", ImageFormat::Gif),
        ("out.tiff", ImageFormat::Tiff),
        ("out.TIF", ImageFormat::Tiff),
    ];
    for (path, format) in cases {
        let bytes = crop_image(&input, path, &margins(4, 4, 8, 8)).unwrap();
        assert_eq!(image::guess_format(&bytes).unwrap(), format);
        let decoded = image::load_from_memory_with_format(&bytes, format).unwrap();
        assert_eq!(decoded.dimensions(), (48, 40));
    }
}

#[test]
fn crop_image_stores_the_cropped_pixels_losslessly_as_png() {
    let input = create_test_image(30, 20);
    let bytes = crop_image(&input, "out.png", &margins(1, 2, 3, 4)).unwrap();
    let decoded = image::load_from_memory(&bytes).unwrap();
    assert_eq!(decoded, crop(&input, &margins(1, 2, 3, 4)).unwrap());
}

#[test]
fn encode_writes_a_file_of_the_named_format() {
    let input = create_test_image(5, 4);
    let bytes = encode_image(&input, ImageKind::Bmp, OutputStage::Save).unwrap();
    assert_eq!(image::guess_format(&bytes).unwrap(), ImageFormat::Bmp);
    assert_eq!(image::load_from_memory(&bytes).unwrap().to_rgba8(), input.to_rgba8());
}

#[test]
fn encode_is_the_same_for_the_same_image() {
    let input = create_test_image(17, 9);
    for kind in [
        ImageKind::Jpeg,
        ImageKind::Png,
        ImageKind::WebP,
        ImageKind::Bmp,
        ImageKind::Gif,
        ImageKind::Tiff,
    ] {
        assert_eq!(
            encode_image(&input, kind, OutputStage::Save),
            encode_image(&input.clone(), kind, OutputStage::Save)
        );
    }
}

#[test]
fn encode_failure_is_an_output_error_of_its_stage() {
    let empty = DynamicImage::new_rgb8(0, 0);
    match encode_image(&empty, ImageKind::Png, OutputStage::Preview) {
        Err(CropError::EncodeOrWrite { stage, detail }) => {
            assert_eq!(stage, OutputStage::Preview);
            assert!(!detail.is_empty());
        }
        other => panic!("unexpected outcome: {:?}", other),
    }
    let too_tall = DynamicImage::new_rgb8(1, 70000);
    match encode_image(&too_tall, ImageKind::Jpeg, OutputStage::Save) {
        Err(CropError::EncodeOrWrite { stage, .. }) => assert_eq!(stage, OutputStage::Save),
        other => panic!("unexpected outcome: {:?}", other),
    }
}

#[test]
fn info_reports_the_canonical_name_of_each_format() {
    let input = create_test_image(3, 2);
    assert_eq!(get_info(&input, "a.jpg").format, "jpeg");
    assert_eq!(get_info(&input, "a.JPEG").format, "jpeg");
    assert_eq!(get_info(&input, "a.PNG").format, "png");
    assert_eq!(get_info(&input, "a.webp").format, "webp");
    assert_eq!(get_info(&input, "a.bmp").format, "bmp");
    assert_eq!(get_info(&input, "a.gif").format, "gif");
    assert_eq!(get_info(&input, "a.tif").format, "tiff");
    assert_eq!(get_info(&input, "a.tiff").format, "tiff");
}

#[test]
fn info_reports_unknown_for_other_extensions() {
    let input = create_test_image(7, 9);
    let info = get_info(&input, "picture.dat");
    assert_eq!((info.width, info.height), (7, 9));
    assert_eq!(info.format, "unknown");
    assert_eq!(get_info(&input, "picture").format, "unknown");
    assert_eq!(get_info(&input, "").format, "unknown");
}

#[test]
fn info_reads_the_size_of_any_colour_type() {
    let rgb = DynamicImage::ImageRgb8(ImageBuffer::from_pixel(12, 34, Rgb([1, 2, 3])));
    let info = get_info(&rgb, "x.bmp");
    assert_eq!((info.width, info.height), (12, 34));
}

#[test]
fn tag_of_a_resolved_format_is_its_canonical_name() {
    assert_eq!(format_tag_of(&Ok(ImageKind::Jpeg)), "jpeg");
    assert_eq!(format_tag_of(&Ok(ImageKind::Tiff)), "tiff");
}

#[test]
fn tag_of_an_unresolved_format_is_unknown() {
    assert_eq!(
        format_tag_of(&Err(CropError::UnsupportedFormat { extension: "dat".to_string() })),
        "unknown"
    );
    assert_eq!(format_tag_of(&Err(CropError::Decode { detail: String::new() })), "unknown");
}
