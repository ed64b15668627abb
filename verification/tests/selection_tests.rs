use jair::selection::{filter_supported, gather_sizes, merge_new_images, preset_names, SelectionError};
use jair::size::{custom_size, valid_sizes};

#[test]
fn zero_width_or_height_is_rejected() {
    assert!(custom_size(0, 48).is_none());
    assert!(custom_size(48, 0).is_none());
    assert!(custom_size(0, 0).is_none());
}

#[test]
fn custom_size_carries_its_derived_name() {
    let s = custom_size(300, 200).unwrap();
    assert_eq!(s.width, 300);
    assert_eq!(s.height, 200);
    assert_eq!(s.name, "Custom_300x200");
}

#[test]
fn custom_platform_needs_valid_dimensions() {
    assert!(matches!(
        gather_sizes(3, 0, "", ""),
        Err(SelectionError::NoValidCustom)
    ));
    assert!(matches!(
        gather_sizes(3, 0, "0", "100"),
        Err(SelectionError::NoValidCustom)
    ));
    assert!(matches!(
        gather_sizes(3, 0, "abc", "100"),
        Err(SelectionError::NoValidCustom)
    ));
    let sizes = gather_sizes(3, 0, "300", "200").unwrap();
    assert_eq!(sizes.len(), 1);
    assert_eq!(sizes[0].name, "Custom_300x200");
}

#[test]
fn plus_signed_entries_parse_as_the_standard_parser_does() {
    let sizes = gather_sizes(3, 0, "+42", "100").unwrap();
    assert_eq!(sizes.len(), 1);
    assert_eq!(sizes[0].width, 42);
    assert_eq!(sizes[0].height, 100);
    assert_eq!(sizes[0].name, "Custom_42x100");
    assert!(matches!(
        gather_sizes(3, 0, "+", "100"),
        Err(SelectionError::NoValidCustom)
    ));
}

#[test]
fn unknown_platform_index_is_rejected() {
    assert!(matches!(
        gather_sizes(4, 0, "", ""),
        Err(SelectionError::UnknownPlatform)
    ));
}

#[test]
fn preset_platforms_resolve_their_preset() {
    let sizes = gather_sizes(0, 6, "", "").unwrap();
    let expected = jair::android_sizes::store_icon();
    assert_eq!(sizes.len(), expected.len());
    assert_eq!(sizes[0].width, 512);
    assert_eq!(sizes[0].height, 512);
    assert_eq!(sizes[0].name, "store-icon");
}

#[test]
fn preset_plus_custom_entry_appends_one_size() {
    let sizes = gather_sizes(0, 6, "77", "88").unwrap();
    assert_eq!(sizes.len(), 2);
    assert_eq!(sizes[0].name, "store-icon");
    assert_eq!(sizes[1].name, "Custom_77x88");
    assert!(valid_sizes(&sizes));
}

#[test]
fn preset_names_follow_the_platform() {
    let android = preset_names(0);
    assert_eq!(android.len(), 13);
    assert_eq!(android[0], "Complete Android Pack");
    let apple = preset_names(1);
    assert_eq!(apple.len(), 11);
    assert_eq!(apple[0], "Complete Apple Pack (iOS + Watch + Mac)");
    let web = preset_names(2);
    assert_eq!(web.len(), 12);
    assert_eq!(web[0], "Complete Social Media Pack");
    assert!(preset_names(3).is_empty());
}

#[test]
fn merging_adds_only_new_supported_paths() {
    let mut current = vec!["a.png".to_string()];
    let candidates = vec![
        "a.png".to_string(),
        "b.jpg".to_string(),
        "notes.txt".to_string(),
        "b.jpg".to_string(),
        "c.GIF".to_string(),
    ];
    merge_new_images(&mut current, &candidates);
    assert_eq!(current, vec!["a.png", "b.jpg", "c.GIF"]);
}

#[test]
fn filtering_keeps_supported_paths_in_order() {
    let names = vec![
        "one.png".to_string(),
        "two.txt".to_string(),
        "three.JPEG".to_string(),
        "four".to_string(),
        "five.webp".to_string(),
    ];
    let kept = filter_supported(&names);
    assert_eq!(kept, vec!["one.png", "three.JPEG", "five.webp"]);
}
