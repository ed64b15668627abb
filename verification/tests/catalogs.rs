use jair::android_sizes::{
    all_launcher_icons, all_playstore_graphics, all_screenshots, complete_android_pack,
    launcher_icons, AndroidPreset,
};
use jair::generic_sizes::{complete_social_pack, complete_web_pack, favicons, GenericPreset};
use jair::ios_sizes::{app_icons, complete_apple_pack, complete_ios_pack, watch_icons, IOSPreset};
use jair::size::{is_valid_size, valid_sizes, Size};

fn assert_entry(s: &Size, width: u32, height: u32, name: &str) {
    assert_eq!(s.width, width);
    assert_eq!(s.height, height);
    assert_eq!(s.name, name);
}

#[test]
fn launcher_icons_list_every_density() {
    let sizes = launcher_icons();
    assert_eq!(sizes.len(), 6);
    assert_entry(&sizes[0], 36, 36, "ldpi");
    assert_entry(&sizes[1], 48, 48, "mdpi");
    assert_entry(&sizes[2], 72, 72, "hdpi");
    assert_entry(&sizes[3], 96, 96, "xhdpi");
    assert_entry(&sizes[4], 144, 144, "xxhdpi");
    assert_entry(&sizes[5], 192, 192, "xxxhdpi");
}

#[test]
fn combined_android_packs_concatenate_their_parts() {
    assert_eq!(all_launcher_icons().len(), 11);
    assert_eq!(all_playstore_graphics().len(), 3);
    assert_eq!(all_screenshots().len(), 6);
    let pack = complete_android_pack();
    assert_eq!(pack.len(), 16);
    assert_entry(&pack[0], 36, 36, "ldpi");
    assert_entry(&pack[6], 81, 81, "mdpi-adaptive");
    assert_entry(&pack[11], 512, 512, "store-icon");
    assert_entry(&pack[15], 180, 120, "promo-graphic");
}

#[test]
fn android_presets_enumerate_and_resolve() {
    let all = AndroidPreset::all();
    assert_eq!(all.len(), 13);
    assert_eq!(all[0], AndroidPreset::CompleteAndroidPack);
    assert_eq!(all[0].name(), "Complete Android Pack");
    let sizes = AndroidPreset::StoreIcon.get_sizes();
    assert_eq!(sizes.len(), 1);
    assert_entry(&sizes[0], 512, 512, "store-icon");
}

#[test]
fn apple_catalogs_hold_their_entries() {
    let icons = app_icons();
    assert_eq!(icons.len(), 6);
    assert_entry(&icons[5], 1024, 1024, "app-store-1024pt");
    assert_eq!(watch_icons().len(), 12);
    assert_eq!(complete_ios_pack().len(), 6 + 8 + 4 + 6 + 4);
    assert_eq!(complete_apple_pack().len(), 6 + 8 + 4 + 12 + 10);
    let all = IOSPreset::all();
    assert_eq!(all.len(), 11);
    assert_eq!(all[0].name(), "Complete Apple Pack (iOS + Watch + Mac)");
}

#[test]
fn web_catalogs_hold_their_entries() {
    let favs = favicons();
    assert_eq!(favs.len(), 6);
    assert_entry(&favs[0], 16, 16, "favicon-16");
    assert_eq!(complete_social_pack().len(), 5 + 4 + 10);
    assert_eq!(complete_web_pack().len(), 6 + 4 + 4 + 3);
    let all = GenericPreset::all();
    assert_eq!(all.len(), 12);
    assert_eq!(all[1].name(), "Complete Web Pack");
}

#[test]
fn every_preset_of_every_platform_yields_valid_sizes() {
    for preset in AndroidPreset::all() {
        assert!(valid_sizes(&preset.get_sizes()), "{}", preset.name());
    }
    for preset in IOSPreset::all() {
        assert!(valid_sizes(&preset.get_sizes()), "{}", preset.name());
    }
    for preset in GenericPreset::all() {
        assert!(valid_sizes(&preset.get_sizes()), "{}", preset.name());
    }
}

#[test]
fn size_validity_checks_dimensions_and_name() {
    assert!(is_valid_size(&Size {
        width: 1,
        height: 1,
        name: "ok".to_string(),
    }));
    assert!(!is_valid_size(&Size {
        width: 0,
        height: 1,
        name: "ok".to_string(),
    }));
    assert!(!is_valid_size(&Size {
        width: 1,
        height: 1,
        name: "".to_string(),
    }));
    assert!(!is_valid_size(&Size {
        width: 1,
        height: 1,
        name: "a/b".to_string(),
    }));
}
