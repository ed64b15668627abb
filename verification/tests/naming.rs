use jair::digits::{parse_u32, u32_string};
use jair::text::{file_stem, is_supported_image, join_path, output_name};

#[test]
fn uppercase_extension_is_supported() {
    assert!(is_supported_image("a.PNG"));
}

#[test]
fn plain_text_extension_is_not_supported() {
    assert!(!is_supported_image("a.txt"));
}

#[test]
fn missing_extension_is_not_supported() {
    assert!(!is_supported_image("a"));
}

#[test]
fn every_listed_extension_is_supported() {
    for path in [
        "x.jpg", "x.jpeg", "x.png", "x.gif", "x.bmp", "x.ico", "x.tiff", "x.webp",
    ] {
        assert!(is_supported_image(path), "{path} should be supported");
    }
}

#[test]
fn mixed_case_and_nested_paths() {
    assert!(is_supported_image("/home/me/Pictures/photo.WebP"));
    assert!(is_supported_image("shots/capture.TIFF"));
    assert!(!is_supported_image("archive.tar.gz"));
    assert!(!is_supported_image("dir.png/file"));
    assert!(!is_supported_image(".png"));
    assert!(!is_supported_image("trailing."));
    assert!(!is_supported_image(""));
}

#[test]
fn extensions_on_non_ascii_names_still_count() {
    assert!(is_supported_image("fotos/añejo.png"));
    assert!(is_supported_image("PHOTO.JPG"));
    assert!(!is_supported_image("añejo.pdf"));
}

#[test]
fn stem_keeps_non_ascii_characters() {
    assert_eq!(file_stem("fotos/añejo.png"), "añejo");
}

#[test]
fn stem_strips_directory_and_extension() {
    assert_eq!(file_stem("/a/b/photo.jpg"), "photo");
    assert_eq!(file_stem("photo.jpg"), "photo");
    assert_eq!(file_stem("photo"), "photo");
    assert_eq!(file_stem("archive.tar.gz"), "archive.tar");
    assert_eq!(file_stem(".hidden"), ".hidden");
    assert_eq!(file_stem("dir/"), "image");
    assert_eq!(file_stem(""), "image");
}

#[test]
fn join_adds_exactly_one_separator() {
    assert_eq!(join_path("out", "mdpi"), "out/mdpi");
    assert_eq!(join_path("out/", "mdpi"), "out/mdpi");
    assert_eq!(join_path("", "mdpi"), "mdpi");
}

#[test]
fn output_name_follows_the_scheme() {
    assert_eq!(output_name("logo", "mdpi", true), "logo-mdpi.png");
    assert_eq!(output_name("logo", "mdpi", false), "logo-mdpi.jpg");
}

#[test]
fn decimal_formatting_is_exact() {
    assert_eq!(u32_string(0), "0");
    assert_eq!(u32_string(7), "7");
    assert_eq!(u32_string(48), "48");
    assert_eq!(u32_string(1024), "1024");
    assert_eq!(u32_string(u32::MAX), "4294967295");
}

#[test]
fn decimal_parsing_matches_the_standard_unsigned_grammar() {
    for text in [
        "42",
        "0",
        "0048",
        "4294967295",
        "4294967296",
        "",
        "+1",
        "+42",
        "+",
        "++1",
        "+12a",
        "12a",
        "-5",
        " 7",
    ] {
        assert_eq!(
            parse_u32(text),
            text.parse::<u32>().ok(),
            "parse_u32({text:?}) disagrees with the standard parser"
        );
    }
}
