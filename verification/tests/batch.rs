use jair::processor::{batch_resize, batch_resize_parallel, summarize, Outcome, ResizeError, SourceImage};
use jair::size::Size;

fn png_bytes(w: u32, h: u32, r: u8) -> Vec<u8> {
    let img = image::DynamicImage::ImageRgba8(image::RgbaImage::from_pixel(
        w,
        h,
        image::Rgba([r, 80u8, 60u8, 255u8]),
    ));
    let mut bytes: Vec<u8> = Vec::new();
    img.write_to(
        &mut std::io::Cursor::new(&mut bytes),
        image::ImageOutputFormat::Png,
    )
    .unwrap();
    bytes
}

fn sizes() -> Vec<Size> {
    vec![
        Size {
            width: 16,
            height: 16,
            name: "small".to_string(),
        },
        Size {
            width: 24,
            height: 12,
            name: "wide".to_string(),
        },
    ]
}

fn mixed_inputs() -> Vec<SourceImage> {
    vec![
        SourceImage {
            path: "a.png".to_string(),
            data: Ok(png_bytes(20, 20, 10)),
        },
        SourceImage {
            path: "b.png".to_string(),
            data: Ok(b"corrupted payload".to_vec()),
        },
        SourceImage {
            path: "c.png".to_string(),
            data: Ok(png_bytes(30, 10, 200)),
        },
    ]
}

#[test]
fn failing_image_does_not_stop_the_batch() {
    let inputs = mixed_inputs();
    let items = batch_resize(&inputs, "out", &sizes(), true);
    assert_eq!(items.len(), 3);
    assert_eq!(items[0].source, "a.png");
    assert_eq!(items[1].source, "b.png");
    assert_eq!(items[2].source, "c.png");
    assert!(matches!(items[0].outcome, Outcome::Success(_)));
    assert!(matches!(
        items[1].outcome,
        Outcome::Failure(ResizeError::Decode(_))
    ));
    assert!(matches!(items[2].outcome, Outcome::Success(_)));
    let produced: usize = items
        .iter()
        .map(|it| match &it.outcome {
            Outcome::Success(outs) => outs.len(),
            Outcome::Failure(_) => 0,
        })
        .sum();
    assert_eq!(produced, 2 * sizes().len());
    let summary = summarize(&items);
    assert_eq!(summary.processed, 3);
    assert_eq!(summary.successful, 2);
    assert_eq!(summary.failed, 1);
}

#[test]
fn unreadable_file_is_reported_as_its_read_error() {
    let inputs = vec![SourceImage {
        path: "gone.png".to_string(),
        data: Err("no such file".to_string()),
    }];
    let items = batch_resize(&inputs, "out", &sizes(), true);
    assert_eq!(items.len(), 1);
    match &items[0].outcome {
        Outcome::Failure(ResizeError::Decode(msg)) => assert_eq!(msg, "no such file"),
        other => panic!("expected a decode failure, got {:?}", discriminant_name(other)),
    }
}

fn discriminant_name(o: &Outcome) -> &'static str {
    match o {
        Outcome::Success(_) => "success",
        Outcome::Failure(ResizeError::Decode(_)) => "decode failure",
        Outcome::Failure(ResizeError::Directory(_)) => "directory failure",
        Outcome::Failure(ResizeError::Encode(_)) => "encode failure",
    }
}

#[test]
fn sequential_and_parallel_agree() {
    let inputs = mixed_inputs();
    let seq_items = batch_resize(&inputs, "out", &sizes(), true);
    let par_items = batch_resize_parallel(&inputs, "out", &sizes(), true);
    assert_eq!(seq_items.len(), par_items.len());
    for (a, b) in seq_items.iter().zip(par_items.iter()) {
        assert_eq!(a.source, b.source);
        match (&a.outcome, &b.outcome) {
            (Outcome::Success(x), Outcome::Success(y)) => {
                assert_eq!(x.len(), y.len());
                for (ox, oy) in x.iter().zip(y.iter()) {
                    assert_eq!(ox.file_path, oy.file_path);
                    assert_eq!(ox.dir_path, oy.dir_path);
                    assert_eq!(ox.data, oy.data);
                }
            }
            (Outcome::Failure(_), Outcome::Failure(_)) => {}
            _ => panic!("strategies disagree on {}", a.source),
        }
    }
}

#[test]
fn batch_of_only_failures_still_covers_every_input() {
    let inputs = vec![
        SourceImage {
            path: "x".to_string(),
            data: Err("unreadable".to_string()),
        },
        SourceImage {
            path: "y".to_string(),
            data: Ok(vec![0u8, 1, 2, 3]),
        },
    ];
    let items = batch_resize(&inputs, "out", &sizes(), false);
    assert_eq!(items.len(), 2);
    assert!(items
        .iter()
        .all(|it| matches!(it.outcome, Outcome::Failure(_))));
    let summary = summarize(&items);
    assert_eq!(summary.processed, 2);
    assert_eq!(summary.successful, 0);
    assert_eq!(summary.failed, 2);
}

#[test]
fn alpha_source_encodes_in_both_formats() {
    let inputs = vec![SourceImage {
        path: "t.png".to_string(),
        data: Ok(png_bytes(12, 12, 99)),
    }];
    let png_items = batch_resize(&inputs, "out", &sizes(), true);
    assert!(matches!(png_items[0].outcome, Outcome::Success(_)));
    let jpg_items = batch_resize(&inputs, "out", &sizes(), false);
    assert!(matches!(jpg_items[0].outcome, Outcome::Success(_)));
}
