use vstd::prelude::*;
use crate::size::Size;
use crate::size::SizeView;
use crate::size::all_valid;
use crate::size::lemma_all_valid_add;
use crate::size::seq_sizes;
use crate::size::size;
use crate::size::sv;

verus! {

/// App icons for iPhone, iPad and the App Store.
pub open spec fn app_icons_spec() -> Seq<SizeView> {
    seq![
        sv(120, 120, "iphone-60pt-2x"@),
        sv(180, 180, "iphone-60pt-3x"@),
        sv(76, 76, "ipad-76pt-1x"@),
        sv(152, 152, "ipad-76pt-2x"@),
        sv(167, 167, "ipad-pro-83.5pt-2x"@),
        sv(1024, 1024, "app-store-1024pt"@),
    ]
}

pub fn app_icons() -> (r: Vec<Size>)
    ensures
        seq_sizes(r@) == app_icons_spec(),
{
    let r = vec![
        size(120, 120, "iphone-60pt-2x"),
        size(180, 180, "iphone-60pt-3x"),
        size(76, 76, "ipad-76pt-1x"),
        size(152, 152, "ipad-76pt-2x"),
        size(167, 167, "ipad-pro-83.5pt-2x"),
        size(1024, 1024, "app-store-1024pt"),
    ];
    proof {
        assert(seq_sizes(r@) =~= app_icons_spec());
    }
    r
}

/// Spotlight and settings icons.
pub open spec fn spotlight_settings_icons_spec() -> Seq<SizeView> {
    seq![
        sv(80, 80, "spotlight-iphone-40pt-2x"@),
        sv(120, 120, "spotlight-iphone-40pt-3x"@),
        sv(40, 40, "spotlight-ipad-40pt-1x"@),
        sv(80, 80, "spotlight-ipad-40pt-2x"@),
        sv(58, 58, "settings-iphone-29pt-2x"@),
        sv(87, 87, "settings-iphone-29pt-3x"@),
        sv(29, 29, "settings-ipad-29pt-1x"@),
        sv(58, 58, "settings-ipad-29pt-2x"@),
    ]
}

pub fn spotlight_settings_icons() -> (r: Vec<Size>)
    ensures
        seq_sizes(r@) == spotlight_settings_icons_spec(),
{
    let r = vec![
        size(80, 80, "spotlight-iphone-40pt-2x"),
        size(120, 120, "spotlight-iphone-40pt-3x"),
        size(40, 40, "spotlight-ipad-40pt-1x"),
        size(80, 80, "spotlight-ipad-40pt-2x"),
        size(58, 58, "settings-iphone-29pt-2x"),
        size(87, 87, "settings-iphone-29pt-3x"),
        size(29, 29, "settings-ipad-29pt-1x"),
        size(58, 58, "settings-ipad-29pt-2x"),
    ];
    proof {
        assert(seq_sizes(r@) =~= spotlight_settings_icons_spec());
    }
    r
}

/// Notification icons.
pub open spec fn notification_icons_spec() -> Seq<SizeView> {
    seq![
        sv(40, 40, "notification-iphone-20pt-2x"@),
        sv(60, 60, "notification-iphone-20pt-3x"@),
        sv(20, 20, "notification-ipad-20pt-1x"@),
        sv(40, 40, "notification-ipad-20pt-2x"@),
    ]
}

pub fn notification_icons() -> (r: Vec<Size>)
    ensures
        seq_sizes(r@) == notification_icons_spec(),
{
    let r = vec![
        size(40, 40, "notification-iphone-20pt-2x"),
        size(60, 60, "notification-iphone-20pt-3x"),
        size(20, 20, "notification-ipad-20pt-1x"),
        size(40, 40, "notification-ipad-20pt-2x"),
    ];
    proof {
        assert(seq_sizes(r@) =~= notification_icons_spec());
    }
    r
}

/// App Store screenshots for iPhone.
pub open spec fn screenshots_iphone_spec() -> Seq<SizeView> {
    seq![
        sv(1290, 2796, "iphone-6.7-portrait"@),
        sv(2796, 1290, "iphone-6.7-landscape"@),
        sv(1242, 2688, "iphone-6.5-portrait"@),
        sv(2688, 1242, "iphone-6.5-landscape"@),
        sv(1242, 2208, "iphone-5.5-portrait"@),
        sv(2208, 1242, "iphone-5.5-landscape"@),
    ]
}

pub fn screenshots_iphone() -> (r: Vec<Size>)
    ensures
        seq_sizes(r@) == screenshots_iphone_spec(),
{
    let r = vec![
        size(1290, 2796, "iphone-6.7-portrait"),
        size(2796, 1290, "iphone-6.7-landscape"),
        size(1242, 2688, "iphone-6.5-portrait"),
        size(2688, 1242, "iphone-6.5-landscape"),
        size(1242, 2208, "iphone-5.5-portrait"),
        size(2208, 1242, "iphone-5.5-landscape"),
    ];
    proof {
        assert(seq_sizes(r@) =~= screenshots_iphone_spec());
    }
    r
}

/// App Store screenshots for iPad.
pub open spec fn screenshots_ipad_spec() -> Seq<SizeView> {
    seq![
        sv(2048, 2732, "ipad-12.9-portrait"@),
        sv(2732, 2048, "ipad-12.9-landscape"@),
        sv(1668, 2388, "ipad-11-portrait"@),
        sv(2388, 1668, "ipad-11-landscape"@),
    ]
}

pub fn screenshots_ipad() -> (r: Vec<Size>)
    ensures
        seq_sizes(r@) == screenshots_ipad_spec(),
{
    let r = vec![
        size(2048, 2732, "ipad-12.9-portrait"),
        size(2732, 2048, "ipad-12.9-landscape"),
        size(1668, 2388, "ipad-11-portrait"),
        size(2388, 1668, "ipad-11-landscape"),
    ];
    proof {
        assert(seq_sizes(r@) =~= screenshots_ipad_spec());
    }
    r
}

/// Watch app icons.
pub open spec fn watch_icons_spec() -> Seq<SizeView> {
    seq![
        sv(48, 48, "watch-24pt-2x-notification"@),
        sv(55, 55, "watch-27.5pt-2x-notification"@),
        sv(58, 58, "watch-29pt-2x-settings"@),
        sv(87, 87, "watch-29pt-3x-settings"@),
        sv(80, 80, "watch-40pt-2x-home"@),
        sv(88, 88, "watch-44pt-2x-home"@),
        sv(92, 92, "watch-46pt-2x-home"@),
        sv(100, 100, "watch-50pt-2x-home"@),
        sv(172, 172, "watch-86pt-2x-short-look"@),
        sv(196, 196, "watch-98pt-2x-short-look"@),
        sv(216, 216, "watch-108pt-2x-short-look"@),
        sv(1024, 1024, "watch-app-store"@),
    ]
}

pub fn watch_icons() -> (r: Vec<Size>)
    ensures
        seq_sizes(r@) == watch_icons_spec(),
{
    let r = vec![
        size(48, 48, "watch-24pt-2x-notification"),
        size(55, 55, "watch-27.5pt-2x-notification"),
        size(58, 58, "watch-29pt-2x-settings"),
        size(87, 87, "watch-29pt-3x-settings"),
        size(80, 80, "watch-40pt-2x-home"),
        size(88, 88, "watch-44pt-2x-home"),
        size(92, 92, "watch-46pt-2x-home"),
        size(100, 100, "watch-50pt-2x-home"),
        size(172, 172, "watch-86pt-2x-short-look"),
        size(196, 196, "watch-98pt-2x-short-look"),
        size(216, 216, "watch-108pt-2x-short-look"),
        size(1024, 1024, "watch-app-store"),
    ];
    proof {
        assert(seq_sizes(r@) =~= watch_icons_spec());
    }
    r
}

/// Desktop app icons.
pub open spec fn macos_icons_spec() -> Seq<SizeView> {
    seq![
        sv(16, 16, "mac-16pt-1x"@),
        sv(32, 32, "mac-16pt-2x"@),
        sv(32, 32, "mac-32pt-1x"@),
        sv(64, 64, "mac-32pt-2x"@),
        sv(128, 128, "mac-128pt-1x"@),
        sv(256, 256, "mac-128pt-2x"@),
        sv(256, 256, "mac-256pt-1x"@),
        sv(512, 512, "mac-256pt-2x"@),
        sv(512, 512, "mac-512pt-1x"@),
        sv(1024, 1024, "mac-512pt-2x"@),
    ]
}

pub fn macos_icons() -> (r: Vec<Size>)
    ensures
        seq_sizes(r@) == macos_icons_spec(),
{
    let r = vec![
        size(16, 16, "mac-16pt-1x"),
        size(32, 32, "mac-16pt-2x"),
        size(32, 32, "mac-32pt-1x"),
        size(64, 64, "mac-32pt-2x"),
        size(128, 128, "mac-128pt-1x"),
        size(256, 256, "mac-128pt-2x"),
        size(256, 256, "mac-256pt-1x"),
        size(512, 512, "mac-256pt-2x"),
        size(512, 512, "mac-512pt-1x"),
        size(1024, 1024, "mac-512pt-2x"),
    ];
    proof {
        assert(seq_sizes(r@) =~= macos_icons_spec());
    }
    r
}

/// Every phone and tablet icon: app, spotlight and settings, notification.
pub open spec fn all_ios_icons_spec() -> Seq<SizeView> {
    app_icons_spec() + spotlight_settings_icons_spec() + notification_icons_spec()
}

pub fn all_ios_icons() -> (r: Vec<Size>)
    ensures
        seq_sizes(r@) == all_ios_icons_spec(),
{
    let mut r = app_icons();
    let mut b = spotlight_settings_icons();
    r.append(&mut b);
    let mut c = notification_icons();
    r.append(&mut c);
    proof {
        assert(seq_sizes(r@) =~= all_ios_icons_spec());
    }
    r
}

/// Every screenshot size: iPhone and iPad.
pub open spec fn all_ios_screenshots_spec() -> Seq<SizeView> {
    screenshots_iphone_spec() + screenshots_ipad_spec()
}

pub fn all_ios_screenshots() -> (r: Vec<Size>)
    ensures
        seq_sizes(r@) == all_ios_screenshots_spec(),
{
    let mut r = screenshots_iphone();
    let mut b = screenshots_ipad();
    r.append(&mut b);
    proof {
        assert(seq_sizes(r@) =~= all_ios_screenshots_spec());
    }
    r
}

/// The complete phone and tablet pack: all icons plus all screenshots.
pub open spec fn complete_ios_pack_spec() -> Seq<SizeView> {
    app_icons_spec() + spotlight_settings_icons_spec() + notification_icons_spec()
        + screenshots_iphone_spec() + screenshots_ipad_spec()
}

pub fn complete_ios_pack() -> (r: Vec<Size>)
    ensures
        seq_sizes(r@) == complete_ios_pack_spec(),
{
    let mut r = app_icons();
    let mut b = spotlight_settings_icons();
    r.append(&mut b);
    let mut c = notification_icons();
    r.append(&mut c);
    let mut d = screenshots_iphone();
    r.append(&mut d);
    let mut e = screenshots_ipad();
    r.append(&mut e);
    proof {
        assert(seq_sizes(r@) =~= complete_ios_pack_spec());
    }
    r
}

/// The complete pack across the whole ecosystem: phone, tablet, watch and
/// desktop icons.
pub open spec fn complete_apple_pack_spec() -> Seq<SizeView> {
    app_icons_spec() + spotlight_settings_icons_spec() + notification_icons_spec()
        + watch_icons_spec() + macos_icons_spec()
}

pub fn complete_apple_pack() -> (r: Vec<Size>)
    ensures
        seq_sizes(r@) == complete_apple_pack_spec(),
{
    let mut r = app_icons();
    let mut b = spotlight_settings_icons();
    r.append(&mut b);
    let mut c = notification_icons();
    r.append(&mut c);
    let mut d = watch_icons();
    r.append(&mut d);
    let mut e = macos_icons();
    r.append(&mut e);
    proof {
        assert(seq_sizes(r@) =~= complete_apple_pack_spec());
    }
    r
}

/// Preset categories offered for Apple platforms.
#[derive(Debug, Clone, Copy, PartialEq, Eq, Structural)]
pub enum IOSPreset {
    AppIcons,
    SpotlightSettings,
    NotificationIcons,
    ScreenshotsIPhone,
    ScreenshotsIPad,
    WatchIcons,
    MacOSIcons,
    AllIOSIcons,
    AllIOSScreenshots,
    CompleteIOSPack,
    CompleteApplePack,
}

/// The sizes each Apple preset stands for.
pub open spec fn ios_preset_sizes(p: IOSPreset) -> Seq<SizeView> {
    match p {
        IOSPreset::AppIcons => app_icons_spec(),
        IOSPreset::SpotlightSettings => spotlight_settings_icons_spec(),
        IOSPreset::NotificationIcons => notification_icons_spec(),
        IOSPreset::ScreenshotsIPhone => screenshots_iphone_spec(),
        IOSPreset::ScreenshotsIPad => screenshots_ipad_spec(),
        IOSPreset::WatchIcons => watch_icons_spec(),
        IOSPreset::MacOSIcons => macos_icons_spec(),
        IOSPreset::AllIOSIcons => all_ios_icons_spec(),
        IOSPreset::AllIOSScreenshots => all_ios_screenshots_spec(),
        IOSPreset::CompleteIOSPack => complete_ios_pack_spec(),
        IOSPreset::CompleteApplePack => complete_apple_pack_spec(),
    }
}

/// The display name of each Apple preset.
pub open spec fn ios_preset_name(p: IOSPreset) -> Seq<char> {
    match p {
        IOSPreset::AppIcons => "App Icons"@,
        IOSPreset::SpotlightSettings => "Spotlight & Settings Icons"@,
        IOSPreset::NotificationIcons => "Notification Icons"@,
        IOSPreset::ScreenshotsIPhone => "iPhone Screenshots"@,
        IOSPreset::ScreenshotsIPad => "iPad Screenshots"@,
        IOSPreset::WatchIcons => "Apple Watch Icons"@,
        IOSPreset::MacOSIcons => "macOS Icons"@,
        IOSPreset::AllIOSIcons => "All iOS Icons"@,
        IOSPreset::AllIOSScreenshots => "All iOS Screenshots"@,
        IOSPreset::CompleteIOSPack => "Complete iOS Pack"@,
        IOSPreset::CompleteApplePack => "Complete Apple Pack (iOS + Watch + Mac)"@,
    }
}

/// The fixed order the Apple presets are offered in.
pub open spec fn ios_preset_order() -> Seq<IOSPreset> {
    seq![
        IOSPreset::CompleteApplePack,
        IOSPreset::CompleteIOSPack,
        IOSPreset::AllIOSIcons,
        IOSPreset::AllIOSScreenshots,
        IOSPreset::AppIcons,
        IOSPreset::SpotlightSettings,
        IOSPreset::NotificationIcons,
        IOSPreset::ScreenshotsIPhone,
        IOSPreset::ScreenshotsIPad,
        IOSPreset::WatchIcons,
        IOSPreset::MacOSIcons,
    ]
}

proof fn lemma_ios_base_valid()
    ensures
        all_valid(app_icons_spec()),
        all_valid(spotlight_settings_icons_spec()),
        all_valid(notification_icons_spec()),
        all_valid(screenshots_iphone_spec()),
        all_valid(screenshots_ipad_spec()),
        all_valid(watch_icons_spec()),
        all_valid(macos_icons_spec()),
{
    reveal_strlit("iphone-60pt-2x");
    reveal_strlit("iphone-60pt-3x");
    reveal_strlit("ipad-76pt-1x");
    reveal_strlit("ipad-76pt-2x");
    reveal_strlit("ipad-pro-83.5pt-2x");
    reveal_strlit("app-store-1024pt");
    reveal_strlit("spotlight-iphone-40pt-2x");
    reveal_strlit("spotlight-iphone-40pt-3x");
    reveal_strlit("spotlight-ipad-40pt-1x");
    reveal_strlit("spotlight-ipad-40pt-2x");
    reveal_strlit("settings-iphone-29pt-2x");
    reveal_strlit("settings-iphone-29pt-3x");
    reveal_strlit("settings-ipad-29pt-1x");
    reveal_strlit("settings-ipad-29pt-2x");
    reveal_strlit("notification-iphone-20pt-2x");
    reveal_strlit("notification-iphone-20pt-3x");
    reveal_strlit("notification-ipad-20pt-1x");
    reveal_strlit("notification-ipad-20pt-2x");
    reveal_strlit("iphone-6.7-portrait");
    reveal_strlit("iphone-6.7-landscape");
    reveal_strlit("iphone-6.5-portrait");
    reveal_strlit("iphone-6.5-landscape");
    reveal_strlit("iphone-5.5-portrait");
    reveal_strlit("iphone-5.5-landscape");
    reveal_strlit("ipad-12.9-portrait");
    reveal_strlit("ipad-12.9-landscape");
    reveal_strlit("ipad-11-portrait");
    reveal_strlit("ipad-11-landscape");
    reveal_strlit("watch-24pt-2x-notification");
    reveal_strlit("watch-27.5pt-2x-notification");
    reveal_strlit("watch-29pt-2x-settings");
    reveal_strlit("watch-29pt-3x-settings");
    reveal_strlit("watch-40pt-2x-home");
    reveal_strlit("watch-44pt-2x-home");
    reveal_strlit("watch-46pt-2x-home");
    reveal_strlit("watch-50pt-2x-home");
    reveal_strlit("watch-86pt-2x-short-look");
    reveal_strlit("watch-98pt-2x-short-look");
    reveal_strlit("watch-108pt-2x-short-look");
    reveal_strlit("watch-app-store");
    reveal_strlit("mac-16pt-1x");
    reveal_strlit("mac-16pt-2x");
    reveal_strlit("mac-32pt-1x");
    reveal_strlit("mac-32pt-2x");
    reveal_strlit("mac-128pt-1x");
    reveal_strlit("mac-128pt-2x");
    reveal_strlit("mac-256pt-1x");
    reveal_strlit("mac-256pt-2x");
    reveal_strlit("mac-512pt-1x");
    reveal_strlit("mac-512pt-2x");
}

/// Every size an Apple preset stands for is valid: nonzero dimensions and a
/// path-safe name.
pub proof fn lemma_ios_sizes_valid(p: IOSPreset)
    ensures
        all_valid(ios_preset_sizes(p)),
{
    lemma_ios_base_valid();
    let a = app_icons_spec();
    let b = spotlight_settings_icons_spec();
    let c = notification_icons_spec();
    match p {
        IOSPreset::AllIOSIcons => {
            lemma_all_valid_add(a, b);
            lemma_all_valid_add(a + b, c);
        },
        IOSPreset::AllIOSScreenshots => {
            lemma_all_valid_add(screenshots_iphone_spec(), screenshots_ipad_spec());
        },
        IOSPreset::CompleteIOSPack => {
            lemma_all_valid_add(a, b);
            lemma_all_valid_add(a + b, c);
            lemma_all_valid_add(a + b + c, screenshots_iphone_spec());
            lemma_all_valid_add(a + b + c + screenshots_iphone_spec(), screenshots_ipad_spec());
        },
        IOSPreset::CompleteApplePack => {
            lemma_all_valid_add(a, b);
            lemma_all_valid_add(a + b, c);
            lemma_all_valid_add(a + b + c, watch_icons_spec());
            lemma_all_valid_add(a + b + c + watch_icons_spec(), macos_icons_spec());
        },
        _ => {},
    }
}

impl IOSPreset {
    /// The sizes this preset stands for.
    pub fn get_sizes(&self) -> (r: Vec<Size>)
        ensures
            seq_sizes(r@) == ios_preset_sizes(*self),
    {
        match self {
            IOSPreset::AppIcons => app_icons(),
            IOSPreset::SpotlightSettings => spotlight_settings_icons(),
            IOSPreset::NotificationIcons => notification_icons(),
            IOSPreset::ScreenshotsIPhone => screenshots_iphone(),
            IOSPreset::ScreenshotsIPad => screenshots_ipad(),
            IOSPreset::WatchIcons => watch_icons(),
            IOSPreset::MacOSIcons => macos_icons(),
            IOSPreset::AllIOSIcons => all_ios_icons(),
            IOSPreset::AllIOSScreenshots => all_ios_screenshots(),
            IOSPreset::CompleteIOSPack => complete_ios_pack(),
            IOSPreset::CompleteApplePack => complete_apple_pack(),
        }
    }

    /// The preset's display name.
    pub fn name(&self) -> (r: &'static str)
        ensures
            r@ == ios_preset_name(*self),
    {
        match self {
            IOSPreset::AppIcons => "App Icons",
            IOSPreset::SpotlightSettings => "Spotlight & Settings Icons",
            IOSPreset::NotificationIcons => "Notification Icons",
            IOSPreset::ScreenshotsIPhone => "iPhone Screenshots",
            IOSPreset::ScreenshotsIPad => "iPad Screenshots",
            IOSPreset::WatchIcons => "Apple Watch Icons",
            IOSPreset::MacOSIcons => "macOS Icons",
            IOSPreset::AllIOSIcons => "All iOS Icons",
            IOSPreset::AllIOSScreenshots => "All iOS Screenshots",
            IOSPreset::CompleteIOSPack => "Complete iOS Pack",
            IOSPreset::CompleteApplePack => "Complete Apple Pack (iOS + Watch + Mac)",
        }
    }

    /// Every Apple preset, in the order offered.
    pub fn all() -> (r: Vec<IOSPreset>)
        ensures
            r@ == ios_preset_order(),
    {
        let r = vec![
            IOSPreset::CompleteApplePack,
            IOSPreset::CompleteIOSPack,
            IOSPreset::AllIOSIcons,
            IOSPreset::AllIOSScreenshots,
            IOSPreset::AppIcons,
            IOSPreset::SpotlightSettings,
            IOSPreset::NotificationIcons,
            IOSPreset::ScreenshotsIPhone,
            IOSPreset::ScreenshotsIPad,
            IOSPreset::WatchIcons,
            IOSPreset::MacOSIcons,
        ];
        proof {
            assert(r@ =~= ios_preset_order());
        }
        r
    }
}

} // verus!
