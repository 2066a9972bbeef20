use batch_crop::build_output_path;
use batch_crop::paths::{cropped_file_name, file_extension, file_stem, output_directory};
use std::path::Path;

fn joined(directory: &str, name: &str) -> String {
    Path::new(directory).join(name).to_string_lossy().into_owned()
}

#[test]
fn extension_follows_the_last_dot() {
    assert_eq!(file_extension("photo.png"), Some("png"));
    assert_eq!(file_extension("archive.tar.gz"), Some("gz"));
    assert_eq!(file_extension("Photo.JPG"), Some("JPG"));
}

#[test]
fn names_without_an_extension() {
    assert_eq!(file_extension("README"), None);
    assert_eq!(file_extension(".bashrc"), None);
    assert_eq!(file_extension(""), None);
}

#[test]
fn extension_may_be_empty() {
    assert_eq!(file_extension("trailing."), Some(""));
    assert_eq!(file_extension("a..b."), Some(""));
}

#[test]
fn hidden_file_with_extension() {
    assert_eq!(file_extension(".config.toml"), Some("toml"));
    assert_eq!(file_stem(".config.toml"), ".config");
}

#[test]
fn stem_precedes_the_last_dot() {
    assert_eq!(file_stem("photo.png"), "photo");
    assert_eq!(file_stem("archive.tar.gz"), "archive.tar");
    assert_eq!(file_stem("trailing."), "trailing");
}

#[test]
fn stem_is_the_whole_name_without_extension() {
    assert_eq!(file_stem("README"), "README");
    assert_eq!(file_stem(".bashrc"), ".bashrc");
    assert_eq!(file_stem(""), "");
}

#[test]
fn stem_and_extension_of_names_outside_ascii() {
    assert_eq!(file_stem("写真.png"), "写真");
    assert_eq!(file_extension("写真.png"), Some("png"));
    assert_eq!(file_extension("photo.画像"), Some("画像"));
}

#[test]
fn stem_and_extension_agree_with_the_standard_library() {
    for name in ["photo.png", "archive.tar.gz", "README", ".bashrc", "trailing.", ".a.b", "x.y.", "写真.png"] {
        let path = Path::new(name);
        assert_eq!(Some(file_stem(name)), path.file_stem().and_then(|s| s.to_str()));
        assert_eq!(file_extension(name), path.extension().and_then(|s| s.to_str()));
    }
}

#[test]
fn cropped_name_keeps_stem_and_extension() {
    assert_eq!(cropped_file_name(Some("photo.png")), "photo_cropped.png");
    assert_eq!(cropped_file_name(Some("archive.tar.gz")), "archive.tar_cropped.gz");
    assert_eq!(cropped_file_name(Some("Photo.JPG")), "Photo_cropped.JPG");
}

#[test]
fn cropped_name_without_extension_or_name() {
    assert_eq!(cropped_file_name(Some("README")), "README_cropped.");
    assert_eq!(cropped_file_name(Some(".bashrc")), ".bashrc_cropped.");
    assert_eq!(cropped_file_name(None), "_cropped.");
}

#[test]
fn override_directory_wins() {
    assert_eq!(output_directory(Some("/out"), Some("/in")), "/out");
    assert_eq!(output_directory(Some("/out"), None), "/out");
    assert_eq!(output_directory(Some(""), Some("/in")), "");
}

#[test]
fn directory_defaults_to_the_parent_then_to_the_current_one() {
    assert_eq!(output_directory(None, Some("/in")), "/in");
    assert_eq!(output_directory(None, Some("")), "");
    assert_eq!(output_directory(None, None), ".");
}

#[test]
fn output_goes_next_to_the_input() {
    let input = joined(&joined("pictures", "holiday"), "beach.png");
    let output = build_output_path(&input, None);
    assert_eq!(output.file_name, "beach_cropped.png");
    assert_eq!(output.directory, joined("pictures", "holiday"));
    assert_eq!(output.path, joined(&joined("pictures", "holiday"), "beach_cropped.png"));
}

#[test]
fn output_goes_to_the_override_directory() {
    let input = joined("pictures", "beach.JPG");
    let output = build_output_path(&input, Some("cropped"));
    assert_eq!(output.file_name, "beach_cropped.JPG");
    assert_eq!(output.directory, "cropped");
    assert_eq!(output.path, joined("cropped", "beach_cropped.JPG"));
}

#[test]
fn output_of_a_bare_file_name() {
    let output = build_output_path("beach.webp", None);
    assert_eq!(output.file_name, "beach_cropped.webp");
    assert_eq!(output.directory, "");
    assert_eq!(output.path, "beach_cropped.webp");
}

#[test]
fn output_of_a_path_without_file_name() {
    let output = build_output_path("", None);
    assert_eq!(output.file_name, "_cropped.");
    assert_eq!(output.directory, ".");
    assert_eq!(output.path, joined(".", "_cropped."));
}

#[test]
fn output_path_matches_the_standard_library_derivation() {
    let input = joined("a", "b.tiff");
    let path = Path::new(&input);
    let expected = path.parent().unwrap().join("b_cropped.tiff");
    assert_eq!(build_output_path(&input, None).path, expected.to_string_lossy());
}

#[test]
fn output_location_is_made_of_file_name_parent_and_join() {
    for (input, dir) in [("a/b/c.png", None), ("a/b/c.png", Some("out")), ("c.webp", None), ("a/", None), ("", Some("out"))] {
        let path = Path::new(input);
        let name = path.file_name().and_then(|name| name.to_str());
        let parent = path.parent().and_then(|parent| parent.to_str());
        let output = build_output_path(input, dir);
        assert_eq!(output.file_name, cropped_file_name(name));
        assert_eq!(output.directory, output_directory(dir, parent));
        assert_eq!(output.path, joined(&output.directory, &output.file_name));
    }
}
