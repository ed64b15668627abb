use jair::processor::{resize_all, ResizeError};
use jair::size::Size;

fn jpeg_bytes(w: u32, h: u32) -> Vec<u8> {
    let img = image::DynamicImage::ImageRgb8(image::RgbImage::from_pixel(
        w,
        h,
        image::Rgb([200u8, 100u8, 50u8]),
    ));
    let mut bytes: Vec<u8> = Vec::new();
    img.write_to(
        &mut std::io::Cursor::new(&mut bytes),
        image::ImageOutputFormat::Jpeg(90),
    )
    .unwrap();
    bytes
}

fn two_sizes() -> Vec<Size> {
    vec![
        Size {
            width: 48,
            height: 48,
            name: "mdpi".to_string(),
        },
        Size {
            width: 96,
            height: 96,
            name: "xhdpi".to_string(),
        },
    ]
}

#[test]
fn one_output_per_size_with_exact_dimensions() {
    let bytes = jpeg_bytes(10, 20);
    let sizes = two_sizes();
    let outs = resize_all("photo.jpg", &bytes, "out", &sizes, true).unwrap();
    assert_eq!(outs.len(), sizes.len());
    for (out, size) in outs.iter().zip(sizes.iter()) {
        let produced = image::load_from_memory(&out.data).unwrap();
        assert_eq!(produced.width(), size.width);
        assert_eq!(produced.height(), size.height);
        assert_eq!(out.width, size.width);
        assert_eq!(out.height, size.height);
    }
}

#[test]
fn example_scenario_logo_two_png_variants() {
    let bytes = jpeg_bytes(64, 64);
    let sizes = two_sizes();
    let outs = resize_all("logo.jpg", &bytes, "/tmp/out", &sizes, true).unwrap();
    assert_eq!(outs.len(), 2);
    assert_eq!(outs[0].dir_path, "/tmp/out/mdpi");
    assert_eq!(outs[0].file_path, "/tmp/out/mdpi/logo-mdpi.png");
    assert_eq!(outs[1].dir_path, "/tmp/out/xhdpi");
    assert_eq!(outs[1].file_path, "/tmp/out/xhdpi/logo-xhdpi.png");
    let first = image::load_from_memory(&outs[0].data).unwrap();
    assert_eq!((first.width(), first.height()), (48, 48));
    let second = image::load_from_memory(&outs[1].data).unwrap();
    assert_eq!((second.width(), second.height()), (96, 96));
}

#[test]
fn jpeg_mode_derives_jpg_names() {
    let bytes = jpeg_bytes(32, 32);
    let sizes = vec![Size {
        width: 30,
        height: 40,
        name: "thumb".to_string(),
    }];
    let outs = resize_all("/pics/cat.png", &bytes, "out", &sizes, false).unwrap();
    assert_eq!(outs.len(), 1);
    assert_eq!(outs[0].file_path, "out/thumb/cat-thumb.jpg");
    let produced = image::load_from_memory(&outs[0].data).unwrap();
    assert_eq!((produced.width(), produced.height()), (30, 40));
}

#[test]
fn stem_falls_back_when_path_has_no_file_name() {
    let bytes = jpeg_bytes(8, 8);
    let sizes = vec![Size {
        width: 5,
        height: 5,
        name: "s".to_string(),
    }];
    let outs = resize_all("pics/", &bytes, "o", &sizes, true).unwrap();
    assert_eq!(outs[0].file_path, "o/s/image-s.png");
}

#[test]
fn out_dir_with_trailing_separator_gains_no_second_one() {
    let bytes = jpeg_bytes(8, 8);
    let sizes = vec![Size {
        width: 5,
        height: 5,
        name: "s".to_string(),
    }];
    let outs = resize_all("a.png", &bytes, "o/", &sizes, true).unwrap();
    assert_eq!(outs[0].dir_path, "o/s");
    assert_eq!(outs[0].file_path, "o/s/a-s.png");
}

#[test]
fn png_keeps_alpha_and_jpeg_drops_it() {
    let img = image::DynamicImage::ImageRgba8(image::RgbaImage::from_pixel(
        10,
        10,
        image::Rgba([10u8, 20u8, 30u8, 128u8]),
    ));
    let mut bytes: Vec<u8> = Vec::new();
    img.write_to(
        &mut std::io::Cursor::new(&mut bytes),
        image::ImageOutputFormat::Png,
    )
    .unwrap();
    let sizes = vec![Size {
        width: 5,
        height: 5,
        name: "s".to_string(),
    }];
    let png_outs = resize_all("t.png", &bytes, "o", &sizes, true).unwrap();
    let png_produced = image::load_from_memory(&png_outs[0].data).unwrap();
    assert!(png_produced.color().has_alpha());
    let jpg_outs = resize_all("t.png", &bytes, "o", &sizes, false).unwrap();
    let jpg_produced = image::load_from_memory(&jpg_outs[0].data).unwrap();
    assert!(!jpg_produced.color().has_alpha());
}

#[test]
fn undecodable_bytes_fail_at_the_decode_stage() {
    let bytes: Vec<u8> = b"this is not an image at all".to_vec();
    let sizes = two_sizes();
    let err = resize_all("bad.jpg", &bytes, "out", &sizes, true).unwrap_err();
    assert!(matches!(err, ResizeError::Decode(_)));
}

#[test]
fn rerun_names_the_same_files_with_identical_content() {
    let bytes = jpeg_bytes(40, 30);
    let sizes = two_sizes();
    let first = resize_all("logo.jpg", &bytes, "out", &sizes, true).unwrap();
    let second = resize_all("logo.jpg", &bytes, "out", &sizes, true).unwrap();
    assert_eq!(first.len(), second.len());
    for (a, b) in first.iter().zip(second.iter()) {
        assert_eq!(a.file_path, b.file_path);
        assert_eq!(a.dir_path, b.dir_path);
        assert_eq!(a.data, b.data);
    }
}
