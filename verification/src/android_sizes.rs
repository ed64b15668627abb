use vstd::prelude::*;
use crate::size::Size;
use crate::size::SizeView;
use crate::size::all_valid;
use crate::size::lemma_all_valid_add;
use crate::size::seq_sizes;
use crate::size::size;
use crate::size::sv;

verus! {

/// Android launcher icon sizes (legacy densities).
pub open spec fn launcher_icons_spec() -> Seq<SizeView> {
    seq![
        sv(36, 36, "ldpi"@),
        sv(48, 48, "mdpi"@),
        sv(72, 72, "hdpi"@),
        sv(96, 96, "xhdpi"@),
        sv(144, 144, "xxhdpi"@),
        sv(192, 192, "xxxhdpi"@),
    ]
}

pub fn launcher_icons() -> (r: Vec<Size>)
    ensures
        seq_sizes(r@) == launcher_icons_spec(),
{
    let r = vec![
        size(36, 36, "ldpi"),
        size(48, 48, "mdpi"),
        size(72, 72, "hdpi"),
        size(96, 96, "xhdpi"),
        size(144, 144, "xxhdpi"),
        size(192, 192, "xxxhdpi"),
    ];
    proof {
        assert(seq_sizes(r@) =~= launcher_icons_spec());
    }
    r
}

/// Android adaptive icon sizes (modern, layered icons).
pub open spec fn adaptive_icons_spec() -> Seq<SizeView> {
    seq![
        sv(81, 81, "mdpi-adaptive"@),
        sv(108, 108, "hdpi-adaptive"@),
        sv(162, 162, "xhdpi-adaptive"@),
        sv(216, 216, "xxhdpi-adaptive"@),
        sv(324, 324, "xxxhdpi-adaptive"@),
    ]
}

pub fn adaptive_icons() -> (r: Vec<Size>)
    ensures
        seq_sizes(r@) == adaptive_icons_spec(),
{
    let r = vec![
        size(81, 81, "mdpi-adaptive"),
        size(108, 108, "hdpi-adaptive"),
        size(162, 162, "xhdpi-adaptive"),
        size(216, 216, "xxhdpi-adaptive"),
        size(324, 324, "xxxhdpi-adaptive"),
    ];
    proof {
        assert(seq_sizes(r@) =~= adaptive_icons_spec());
    }
    r
}

/// Play Store feature graphic.
pub open spec fn feature_graphic_spec() -> Seq<SizeView> {
    seq![sv(1024, 500, "feature-graphic"@)]
}

pub fn feature_graphic() -> (r: Vec<Size>)
    ensures
        seq_sizes(r@) == feature_graphic_spec(),
{
    let r = vec![size(1024, 500, "feature-graphic")];
    proof {
        assert(seq_sizes(r@) =~= feature_graphic_spec());
    }
    r
}

/// Play Store high-resolution icon.
pub open spec fn store_icon_spec() -> Seq<SizeView> {
    seq![sv(512, 512, "store-icon"@)]
}

pub fn store_icon() -> (r: Vec<Size>)
    ensures
        seq_sizes(r@) == store_icon_spec(),
{
    let r = vec![size(512, 512, "store-icon")];
    proof {
        assert(seq_sizes(r@) =~= store_icon_spec());
    }
    r
}

/// Play Store phone screenshots.
pub open spec fn screenshots_phone_spec() -> Seq<SizeView> {
    seq![sv(1080, 1920, "phone-portrait"@), sv(1920, 1080, "phone-landscape"@)]
}

pub fn screenshots_phone() -> (r: Vec<Size>)
    ensures
        seq_sizes(r@) == screenshots_phone_spec(),
{
    let r = vec![size(1080, 1920, "phone-portrait"), size(1920, 1080, "phone-landscape")];
    proof {
        assert(seq_sizes(r@) =~= screenshots_phone_spec());
    }
    r
}

/// Play Store 7-inch tablet screenshots.
pub open spec fn screenshots_tablet_7_spec() -> Seq<SizeView> {
    seq![sv(1200, 1920, "tablet-7-portrait"@), sv(1920, 1200, "tablet-7-landscape"@)]
}

pub fn screenshots_tablet_7() -> (r: Vec<Size>)
    ensures
        seq_sizes(r@) == screenshots_tablet_7_spec(),
{
    let r = vec![size(1200, 1920, "tablet-7-portrait"), size(1920, 1200, "tablet-7-landscape")];
    proof {
        assert(seq_sizes(r@) =~= screenshots_tablet_7_spec());
    }
    r
}

/// Play Store 10-inch tablet screenshots.
pub open spec fn screenshots_tablet_10_spec() -> Seq<SizeView> {
    seq![sv(1600, 2560, "tablet-10-portrait"@), sv(2560, 1600, "tablet-10-landscape"@)]
}

pub fn screenshots_tablet_10() -> (r: Vec<Size>)
    ensures
        seq_sizes(r@) == screenshots_tablet_10_spec(),
{
    let r = vec![size(1600, 2560, "tablet-10-portrait"), size(2560, 1600, "tablet-10-landscape")];
    proof {
        assert(seq_sizes(r@) =~= screenshots_tablet_10_spec());
    }
    r
}

/// Play Store promo graphic.
pub open spec fn promo_graphic_spec() -> Seq<SizeView> {
    seq![sv(180, 120, "promo-graphic"@)]
}

pub fn promo_graphic() -> (r: Vec<Size>)
    ensures
        seq_sizes(r@) == promo_graphic_spec(),
{
    let r = vec![size(180, 120, "promo-graphic")];
    proof {
        assert(seq_sizes(r@) =~= promo_graphic_spec());
    }
    r
}

/// Banner for television apps.
pub open spec fn tv_banner_spec() -> Seq<SizeView> {
    seq![sv(1280, 720, "tv-banner"@)]
}

pub fn tv_banner() -> (r: Vec<Size>)
    ensures
        seq_sizes(r@) == tv_banner_spec(),
{
    let r = vec![size(1280, 720, "tv-banner")];
    proof {
        assert(seq_sizes(r@) =~= tv_banner_spec());
    }
    r
}

/// Every Play Store graphic: store icon, feature graphic, promo graphic.
pub fn all_playstore_graphics() -> (r: Vec<Size>)
    ensures
        seq_sizes(r@) == store_icon_spec() + feature_graphic_spec() + promo_graphic_spec(),
{
    let mut r = store_icon();
    let mut b = feature_graphic();
    r.append(&mut b);
    let mut c = promo_graphic();
    r.append(&mut c);
    proof {
        assert(seq_sizes(r@) =~= store_icon_spec() + feature_graphic_spec()
            + promo_graphic_spec());
    }
    r
}

/// Every launcher icon, legacy and adaptive.
pub fn all_launcher_icons() -> (r: Vec<Size>)
    ensures
        seq_sizes(r@) == launcher_icons_spec() + adaptive_icons_spec(),
{
    let mut r = launcher_icons();
    let mut b = adaptive_icons();
    r.append(&mut b);
    proof {
        assert(seq_sizes(r@) =~= launcher_icons_spec() + adaptive_icons_spec());
    }
    r
}

/// Every screenshot size: phone and both tablet classes.
pub fn all_screenshots() -> (r: Vec<Size>)
    ensures
        seq_sizes(r@) == screenshots_phone_spec() + screenshots_tablet_7_spec()
            + screenshots_tablet_10_spec(),
{
    let mut r = screenshots_phone();
    let mut b = screenshots_tablet_7();
    r.append(&mut b);
    let mut c = screenshots_tablet_10();
    r.append(&mut c);
    proof {
        assert(seq_sizes(r@) =~= screenshots_phone_spec() + screenshots_tablet_7_spec()
            + screenshots_tablet_10_spec());
    }
    r
}

/// The complete Android asset pack.
pub open spec fn complete_android_pack_spec() -> Seq<SizeView> {
    launcher_icons_spec() + adaptive_icons_spec() + store_icon_spec() + feature_graphic_spec()
        + screenshots_phone_spec() + promo_graphic_spec()
}

pub fn complete_android_pack() -> (r: Vec<Size>)
    ensures
        seq_sizes(r@) == complete_android_pack_spec(),
{
    let mut r = launcher_icons();
    let mut b = adaptive_icons();
    r.append(&mut b);
    let mut c = store_icon();
    r.append(&mut c);
    let mut d = feature_graphic();
    r.append(&mut d);
    let mut e = screenshots_phone();
    r.append(&mut e);
    let mut f = promo_graphic();
    r.append(&mut f);
    proof {
        assert(seq_sizes(r@) =~= complete_android_pack_spec());
    }
    r
}

/// Preset categories offered for Android work.
#[derive(Debug, Clone, Copy, PartialEq, Eq, Structural)]
pub enum AndroidPreset {
    LauncherIcons,
    AdaptiveIcons,
    StoreIcon,
    FeatureGraphic,
    ScreenshotsPhone,
    ScreenshotsTablet7,
    ScreenshotsTablet10,
    PromoGraphic,
    TvBanner,
    AllPlayStoreGraphics,
    AllLauncherIcons,
    AllScreenshots,
    CompleteAndroidPack,
}

/// The sizes each Android preset stands for.
pub open spec fn android_preset_sizes(p: AndroidPreset) -> Seq<SizeView> {
    match p {
        AndroidPreset::LauncherIcons => launcher_icons_spec(),
        AndroidPreset::AdaptiveIcons => adaptive_icons_spec(),
        AndroidPreset::StoreIcon => store_icon_spec(),
        AndroidPreset::FeatureGraphic => feature_graphic_spec(),
        AndroidPreset::ScreenshotsPhone => screenshots_phone_spec(),
        AndroidPreset::ScreenshotsTablet7 => screenshots_tablet_7_spec(),
        AndroidPreset::ScreenshotsTablet10 => screenshots_tablet_10_spec(),
        AndroidPreset::PromoGraphic => promo_graphic_spec(),
        AndroidPreset::TvBanner => tv_banner_spec(),
        AndroidPreset::AllPlayStoreGraphics => store_icon_spec() + feature_graphic_spec()
            + promo_graphic_spec(),
        AndroidPreset::AllLauncherIcons => launcher_icons_spec() + adaptive_icons_spec(),
        AndroidPreset::AllScreenshots => screenshots_phone_spec() + screenshots_tablet_7_spec()
            + screenshots_tablet_10_spec(),
        AndroidPreset::CompleteAndroidPack => complete_android_pack_spec(),
    }
}

/// The display name of each Android preset.
pub open spec fn android_preset_name(p: AndroidPreset) -> Seq<char> {
    match p {
        AndroidPreset::LauncherIcons => "Launcher Icons (Legacy)"@,
        AndroidPreset::AdaptiveIcons => "Adaptive Icons"@,
        AndroidPreset::StoreIcon => "Play Store Icon (512x512)"@,
        AndroidPreset::FeatureGraphic => "Feature Graphic (1024x500)"@,
        AndroidPreset::ScreenshotsPhone => "Phone Screenshots"@,
        AndroidPreset::ScreenshotsTablet7 => "7-inch Tablet Screenshots"@,
        AndroidPreset::ScreenshotsTablet10 => "10-inch Tablet Screenshots"@,
        AndroidPreset::PromoGraphic => "Promo Graphic (180x120)"@,
        AndroidPreset::TvBanner => "TV Banner (1280x720)"@,
        AndroidPreset::AllPlayStoreGraphics => "All Play Store Graphics"@,
        AndroidPreset::AllLauncherIcons => "All Launcher Icons"@,
        AndroidPreset::AllScreenshots => "All Screenshots"@,
        AndroidPreset::CompleteAndroidPack => "Complete Android Pack"@,
    }
}

/// The fixed order the Android presets are offered in.
pub open spec fn android_preset_order() -> Seq<AndroidPreset> {
    seq![
        AndroidPreset::CompleteAndroidPack,
        AndroidPreset::AllPlayStoreGraphics,
        AndroidPreset::AllLauncherIcons,
        AndroidPreset::AllScreenshots,
        AndroidPreset::LauncherIcons,
        AndroidPreset::AdaptiveIcons,
        AndroidPreset::StoreIcon,
        AndroidPreset::FeatureGraphic,
        AndroidPreset::ScreenshotsPhone,
        AndroidPreset::ScreenshotsTablet7,
        AndroidPreset::ScreenshotsTablet10,
        AndroidPreset::PromoGraphic,
        AndroidPreset::TvBanner,
    ]
}

proof fn lemma_android_base_valid()
    ensures
        all_valid(launcher_icons_spec()),
        all_valid(adaptive_icons_spec()),
        all_valid(feature_graphic_spec()),
        all_valid(store_icon_spec()),
        all_valid(screenshots_phone_spec()),
        all_valid(screenshots_tablet_7_spec()),
        all_valid(screenshots_tablet_10_spec()),
        all_valid(promo_graphic_spec()),
        all_valid(tv_banner_spec()),
{
    reveal_strlit("ldpi");
    reveal_strlit("mdpi");
    reveal_strlit("hdpi");
    reveal_strlit("xhdpi");
    reveal_strlit("xxhdpi");
    reveal_strlit("xxxhdpi");
    reveal_strlit("mdpi-adaptive");
    reveal_strlit("hdpi-adaptive");
    reveal_strlit("xhdpi-adaptive");
    reveal_strlit("xxhdpi-adaptive");
    reveal_strlit("xxxhdpi-adaptive");
    reveal_strlit("feature-graphic");
    reveal_strlit("store-icon");
    reveal_strlit("phone-portrait");
    reveal_strlit("phone-landscape");
    reveal_strlit("tablet-7-portrait");
    reveal_strlit("tablet-7-landscape");
    reveal_strlit("tablet-10-portrait");
    reveal_strlit("tablet-10-landscape");
    reveal_strlit("promo-graphic");
    reveal_strlit("tv-banner");
}

/// Every size an Android preset stands for is valid: nonzero dimensions and
/// a path-safe name.
pub proof fn lemma_android_sizes_valid(p: AndroidPreset)
    ensures
        all_valid(android_preset_sizes(p)),
{
    lemma_android_base_valid();
    match p {
        AndroidPreset::AllPlayStoreGraphics => {
            lemma_all_valid_add(store_icon_spec(), feature_graphic_spec());
            lemma_all_valid_add(store_icon_spec() + feature_graphic_spec(), promo_graphic_spec());
        },
        AndroidPreset::AllLauncherIcons => {
            lemma_all_valid_add(launcher_icons_spec(), adaptive_icons_spec());
        },
        AndroidPreset::AllScreenshots => {
            lemma_all_valid_add(screenshots_phone_spec(), screenshots_tablet_7_spec());
            lemma_all_valid_add(
                screenshots_phone_spec() + screenshots_tablet_7_spec(),
                screenshots_tablet_10_spec(),
            );
        },
        AndroidPreset::CompleteAndroidPack => {
            let a = launcher_icons_spec();
            let b = adaptive_icons_spec();
            let c = store_icon_spec();
            let d = feature_graphic_spec();
            let e = screenshots_phone_spec();
            let f = promo_graphic_spec();
            lemma_all_valid_add(a, b);
            lemma_all_valid_add(a + b, c);
            lemma_all_valid_add(a + b + c, d);
            lemma_all_valid_add(a + b + c + d, e);
            lemma_all_valid_add(a + b + c + d + e, f);
        },
        _ => {},
    }
}

impl AndroidPreset {
    /// The sizes this preset stands for.
    pub fn get_sizes(&self) -> (r: Vec<Size>)
        ensures
            seq_sizes(r@) == android_preset_sizes(*self),
    {
        match self {
            AndroidPreset::LauncherIcons => launcher_icons(),
            AndroidPreset::AdaptiveIcons => adaptive_icons(),
            AndroidPreset::StoreIcon => store_icon(),
            AndroidPreset::FeatureGraphic => feature_graphic(),
            AndroidPreset::ScreenshotsPhone => screenshots_phone(),
            AndroidPreset::ScreenshotsTablet7 => screenshots_tablet_7(),
            AndroidPreset::ScreenshotsTablet10 => screenshots_tablet_10(),
            AndroidPreset::PromoGraphic => promo_graphic(),
            AndroidPreset::TvBanner => tv_banner(),
            AndroidPreset::AllPlayStoreGraphics => all_playstore_graphics(),
            AndroidPreset::AllLauncherIcons => all_launcher_icons(),
            AndroidPreset::AllScreenshots => all_screenshots(),
            AndroidPreset::CompleteAndroidPack => complete_android_pack(),
        }
    }

    /// The preset's display name.
    pub fn name(&self) -> (r: &'static str)
        ensures
            r@ == android_preset_name(*self),
    {
        match self {
            AndroidPreset::LauncherIcons => "Launcher Icons (Legacy)",
            AndroidPreset::AdaptiveIcons => "Adaptive Icons",
            AndroidPreset::StoreIcon => "Play Store Icon (512x512)",
            AndroidPreset::FeatureGraphic => "Feature Graphic (1024x500)",
            AndroidPreset::ScreenshotsPhone => "Phone Screenshots",
            AndroidPreset::ScreenshotsTablet7 => "7-inch Tablet Screenshots",
            AndroidPreset::ScreenshotsTablet10 => "10-inch Tablet Screenshots",
            AndroidPreset::PromoGraphic => "Promo Graphic (180x120)",
            AndroidPreset::TvBanner => "TV Banner (1280x720)",
            AndroidPreset::AllPlayStoreGraphics => "All Play Store Graphics",
            AndroidPreset::AllLauncherIcons => "All Launcher Icons",
            AndroidPreset::AllScreenshots => "All Screenshots",
            AndroidPreset::CompleteAndroidPack => "Complete Android Pack",
        }
    }

    /// Every Android preset, in the order offered.
    pub fn all() -> (r: Vec<AndroidPreset>)
        ensures
            r@ == android_preset_order(),
    {
        let r = vec![
            AndroidPreset::CompleteAndroidPack,
            AndroidPreset::AllPlayStoreGraphics,
            AndroidPreset::AllLauncherIcons,
            AndroidPreset::AllScreenshots,
            AndroidPreset::LauncherIcons,
            AndroidPreset::AdaptiveIcons,
            AndroidPreset::StoreIcon,
            AndroidPreset::FeatureGraphic,
            AndroidPreset::ScreenshotsPhone,
            AndroidPreset::ScreenshotsTablet7,
            AndroidPreset::ScreenshotsTablet10,
            AndroidPreset::PromoGraphic,
            AndroidPreset::TvBanner,
        ];
        proof {
            assert(r@ =~= android_preset_order());
        }
        r
    }
}

} // verus!
