use vstd::prelude::*;
use crate::size::Size;
use crate::size::SizeView;
use crate::size::all_valid;
use crate::size::lemma_all_valid_add;
use crate::size::seq_sizes;
use crate::size::size;
use crate::size::sv;

verus! {

/// Social media profile pictures.
pub open spec fn social_profile_pictures_spec() -> Seq<SizeView> {
    seq![
        sv(180, 180, "facebook-profile"@),
        sv(400, 400, "twitter-profile"@),
        sv(320, 320, "instagram-profile"@),
        sv(300, 300, "linkedin-profile"@),
        sv(800, 800, "youtube-profile"@),
    ]
}

pub fn social_profile_pictures() -> (r: Vec<Size>)
    ensures
        seq_sizes(r@) == social_profile_pictures_spec(),
{
    let r = vec![
        size(180, 180, "facebook-profile"),
        size(400, 400, "twitter-profile"),
        size(320, 320, "instagram-profile"),
        size(300, 300, "linkedin-profile"),
        size(800, 800, "youtube-profile"),
    ];
    proof {
        assert(seq_sizes(r@) =~= social_profile_pictures_spec());
    }
    r
}

/// Social media cover and banner images.
pub open spec fn social_covers_spec() -> Seq<SizeView> {
    seq![
        sv(820, 312, "facebook-cover"@),
        sv(1500, 500, "twitter-header"@),
        sv(1584, 396, "linkedin-cover"@),
        sv(2560, 1440, "youtube-banner"@),
    ]
}

pub fn social_covers() -> (r: Vec<Size>)
    ensures
        seq_sizes(r@) == social_covers_spec(),
{
    let r = vec![
        size(820, 312, "facebook-cover"),
        size(1500, 500, "twitter-header"),
        size(1584, 396, "linkedin-cover"),
        size(2560, 1440, "youtube-banner"),
    ];
    proof {
        assert(seq_sizes(r@) =~= social_covers_spec());
    }
    r
}

/// Social media post images.
pub open spec fn social_posts_spec() -> Seq<SizeView> {
    seq![
        sv(1080, 1080, "instagram-square"@),
        sv(1080, 1350, "instagram-portrait"@),
        sv(1080, 608, "instagram-landscape"@),
        sv(1080, 1920, "instagram-story"@),
        sv(1200, 630, "facebook-post"@),
        sv(1080, 1920, "facebook-story"@),
        sv(1200, 675, "twitter-post"@),
        sv(1200, 627, "linkedin-post"@),
        sv(1000, 1500, "pinterest-pin"@),
        sv(1080, 1920, "tiktok-video"@),
    ]
}

pub fn social_posts() -> (r: Vec<Size>)
    ensures
        seq_sizes(r@) == social_posts_spec(),
{
    let r = vec![
        size(1080, 1080, "instagram-square"),
        size(1080, 1350, "instagram-portrait"),
        size(1080, 608, "instagram-landscape"),
        size(1080, 1920, "instagram-story"),
        size(1200, 630, "facebook-post"),
        size(1080, 1920, "facebook-story"),
        size(1200, 675, "twitter-post"),
        size(1200, 627, "linkedin-post"),
        size(1000, 1500, "pinterest-pin"),
        size(1080, 1920, "tiktok-video"),
    ];
    proof {
        assert(seq_sizes(r@) =~= social_posts_spec());
    }
    r
}

/// Web favicons.
pub open spec fn favicons_spec() -> Seq<SizeView> {
    seq![
        sv(16, 16, "favicon-16"@),
        sv(32, 32, "favicon-32"@),
        sv(48, 48, "favicon-48"@),
        sv(64, 64, "favicon-64"@),
        sv(128, 128, "favicon-128"@),
        sv(256, 256, "favicon-256"@),
    ]
}

pub fn favicons() -> (r: Vec<Size>)
    ensures
        seq_sizes(r@) == favicons_spec(),
{
    let r = vec![
        size(16, 16, "favicon-16"),
        size(32, 32, "favicon-32"),
        size(48, 48, "favicon-48"),
        size(64, 64, "favicon-64"),
        size(128, 128, "favicon-128"),
        size(256, 256, "favicon-256"),
    ];
    proof {
        assert(seq_sizes(r@) =~= favicons_spec());
    }
    r
}

/// Open Graph social sharing images.
pub open spec fn og_images_spec() -> Seq<SizeView> {
    seq![
        sv(1200, 630, "og-facebook"@),
        sv(1200, 627, "og-linkedin"@),
        sv(1200, 675, "og-twitter"@),
        sv(1200, 630, "og-general"@),
    ]
}

pub fn og_images() -> (r: Vec<Size>)
    ensures
        seq_sizes(r@) == og_images_spec(),
{
    let r = vec![
        size(1200, 630, "og-facebook"),
        size(1200, 627, "og-linkedin"),
        size(1200, 675, "og-twitter"),
        size(1200, 630, "og-general"),
    ];
    proof {
        assert(seq_sizes(r@) =~= og_images_spec());
    }
    r
}

/// Common web thumbnail sizes.
pub open spec fn web_thumbnails_spec() -> Seq<SizeView> {
    seq![
        sv(150, 150, "thumb-150"@),
        sv(300, 300, "thumb-300"@),
        sv(400, 400, "thumb-400"@),
        sv(600, 600, "thumb-600"@),
    ]
}

pub fn web_thumbnails() -> (r: Vec<Size>)
    ensures
        seq_sizes(r@) == web_thumbnails_spec(),
{
    let r = vec![
        size(150, 150, "thumb-150"),
        size(300, 300, "thumb-300"),
        size(400, 400, "thumb-400"),
        size(600, 600, "thumb-600"),
    ];
    proof {
        assert(seq_sizes(r@) =~= web_thumbnails_spec());
    }
    r
}

/// Common high-definition resolutions.
pub open spec fn hd_resolutions_spec() -> Seq<SizeView> {
    seq![
        sv(1280, 720, "hd-720p"@),
        sv(1920, 1080, "full-hd-1080p"@),
        sv(2560, 1440, "qhd-1440p"@),
        sv(3840, 2160, "4k-uhd"@),
    ]
}

pub fn hd_resolutions() -> (r: Vec<Size>)
    ensures
        seq_sizes(r@) == hd_resolutions_spec(),
{
    let r = vec![
        size(1280, 720, "hd-720p"),
        size(1920, 1080, "full-hd-1080p"),
        size(2560, 1440, "qhd-1440p"),
        size(3840, 2160, "4k-uhd"),
    ];
    proof {
        assert(seq_sizes(r@) =~= hd_resolutions_spec());
    }
    r
}

/// Email newsletter images.
pub open spec fn email_newsletter_spec() -> Seq<SizeView> {
    seq![
        sv(600, 400, "email-header"@),
        sv(600, 200, "email-banner"@),
        sv(300, 300, "email-thumbnail"@),
    ]
}

pub fn email_newsletter() -> (r: Vec<Size>)
    ensures
        seq_sizes(r@) == email_newsletter_spec(),
{
    let r = vec![
        size(600, 400, "email-header"),
        size(600, 200, "email-banner"),
        size(300, 300, "email-thumbnail"),
    ];
    proof {
        assert(seq_sizes(r@) =~= email_newsletter_spec());
    }
    r
}

/// Blog post images.
pub open spec fn blog_images_spec() -> Seq<SizeView> {
    seq![
        sv(1200, 630, "blog-featured"@),
        sv(800, 600, "blog-inline"@),
        sv(400, 300, "blog-thumbnail"@),
    ]
}

pub fn blog_images() -> (r: Vec<Size>)
    ensures
        seq_sizes(r@) == blog_images_spec(),
{
    let r = vec![
        size(1200, 630, "blog-featured"),
        size(800, 600, "blog-inline"),
        size(400, 300, "blog-thumbnail"),
    ];
    proof {
        assert(seq_sizes(r@) =~= blog_images_spec());
    }
    r
}

/// Product images for online shops.
pub open spec fn ecommerce_products_spec() -> Seq<SizeView> {
    seq![
        sv(2000, 2000, "product-zoom"@),
        sv(1000, 1000, "product-large"@),
        sv(500, 500, "product-medium"@),
        sv(250, 250, "product-thumbnail"@),
        sv(100, 100, "product-mini"@),
    ]
}

pub fn ecommerce_products() -> (r: Vec<Size>)
    ensures
        seq_sizes(r@) == ecommerce_products_spec(),
{
    let r = vec![
        size(2000, 2000, "product-zoom"),
        size(1000, 1000, "product-large"),
        size(500, 500, "product-medium"),
        size(250, 250, "product-thumbnail"),
        size(100, 100, "product-mini"),
    ];
    proof {
        assert(seq_sizes(r@) =~= ecommerce_products_spec());
    }
    r
}

/// The complete social media pack.
pub open spec fn complete_social_pack_spec() -> Seq<SizeView> {
    social_profile_pictures_spec() + social_covers_spec() + social_posts_spec()
}

pub fn complete_social_pack() -> (r: Vec<Size>)
    ensures
        seq_sizes(r@) == complete_social_pack_spec(),
{
    let mut r = social_profile_pictures();
    let mut b = social_covers();
    r.append(&mut b);
    let mut c = social_posts();
    r.append(&mut c);
    proof {
        assert(seq_sizes(r@) =~= complete_social_pack_spec());
    }
    r
}

/// The complete web pack.
pub open spec fn complete_web_pack_spec() -> Seq<SizeView> {
    favicons_spec() + og_images_spec() + web_thumbnails_spec() + blog_images_spec()
}

pub fn complete_web_pack() -> (r: Vec<Size>)
    ensures
        seq_sizes(r@) == complete_web_pack_spec(),
{
    let mut r = favicons();
    let mut b = og_images();
    r.append(&mut b);
    let mut c = web_thumbnails();
    r.append(&mut c);
    let mut d = blog_images();
    r.append(&mut d);
    proof {
        assert(seq_sizes(r@) =~= complete_web_pack_spec());
    }
    r
}

/// Preset categories offered for web and social media work.
#[derive(Debug, Clone, Copy, PartialEq, Eq, Structural)]
pub enum GenericPreset {
    SocialProfilePictures,
    SocialCovers,
    SocialPosts,
    Favicons,
    OGImages,
    WebThumbnails,
    HDResolutions,
    EmailNewsletter,
    BlogImages,
    EcommerceProducts,
    CompleteSocialPack,
    CompleteWebPack,
}

/// The sizes each web and social preset stands for.
pub open spec fn generic_preset_sizes(p: GenericPreset) -> Seq<SizeView> {
    match p {
        GenericPreset::SocialProfilePictures => social_profile_pictures_spec(),
        GenericPreset::SocialCovers => social_covers_spec(),
        GenericPreset::SocialPosts => social_posts_spec(),
        GenericPreset::Favicons => favicons_spec(),
        GenericPreset::OGImages => og_images_spec(),
        GenericPreset::WebThumbnails => web_thumbnails_spec(),
        GenericPreset::HDResolutions => hd_resolutions_spec(),
        GenericPreset::EmailNewsletter => email_newsletter_spec(),
        GenericPreset::BlogImages => blog_images_spec(),
        GenericPreset::EcommerceProducts => ecommerce_products_spec(),
        GenericPreset::CompleteSocialPack => complete_social_pack_spec(),
        GenericPreset::CompleteWebPack => complete_web_pack_spec(),
    }
}

/// The display name of each web and social preset.
pub open spec fn generic_preset_name(p: GenericPreset) -> Seq<char> {
    match p {
        GenericPreset::SocialProfilePictures => "Social Media Profile Pictures"@,
        GenericPreset::SocialCovers => "Social Media Covers/Banners"@,
        GenericPreset::SocialPosts => "Social Media Posts"@,
        GenericPreset::Favicons => "Web Favicons"@,
        GenericPreset::OGImages => "Open Graph / Social Share Images"@,
        GenericPreset::WebThumbnails => "Web Thumbnails"@,
        GenericPreset::HDResolutions => "HD Resolutions (720p - 4K)"@,
        GenericPreset::EmailNewsletter => "Email Newsletter Images"@,
        GenericPreset::BlogImages => "Blog Post Images"@,
        GenericPreset::EcommerceProducts => "E-commerce Product Images"@,
        GenericPreset::CompleteSocialPack => "Complete Social Media Pack"@,
        GenericPreset::CompleteWebPack => "Complete Web Pack"@,
    }
}

/// The fixed order the web and social presets are offered in.
pub open spec fn generic_preset_order() -> Seq<GenericPreset> {
    seq![
        GenericPreset::CompleteSocialPack,
        GenericPreset::CompleteWebPack,
        GenericPreset::SocialProfilePictures,
        GenericPreset::SocialCovers,
        GenericPreset::SocialPosts,
        GenericPreset::Favicons,
        GenericPreset::OGImages,
        GenericPreset::WebThumbnails,
        GenericPreset::HDResolutions,
        GenericPreset::EmailNewsletter,
        GenericPreset::BlogImages,
        GenericPreset::EcommerceProducts,
    ]
}

proof fn lemma_generic_base_valid()
    ensures
        all_valid(social_profile_pictures_spec()),
        all_valid(social_covers_spec()),
        all_valid(social_posts_spec()),
        all_valid(favicons_spec()),
        all_valid(og_images_spec()),
        all_valid(web_thumbnails_spec()),
        all_valid(hd_resolutions_spec()),
        all_valid(email_newsletter_spec()),
        all_valid(blog_images_spec()),
        all_valid(ecommerce_products_spec()),
{
    reveal_strlit("facebook-profile");
    reveal_strlit("twitter-profile");
    reveal_strlit("instagram-profile");
    reveal_strlit("linkedin-profile");
    reveal_strlit("youtube-profile");
    reveal_strlit("facebook-cover");
    reveal_strlit("twitter-header");
    reveal_strlit("linkedin-cover");
    reveal_strlit("youtube-banner");
    reveal_strlit("instagram-square");
    reveal_strlit("instagram-portrait");
    reveal_strlit("instagram-landscape");
    reveal_strlit("instagram-story");
    reveal_strlit("facebook-post");
    reveal_strlit("facebook-story");
    reveal_strlit("twitter-post");
    reveal_strlit("linkedin-post");
    reveal_strlit("pinterest-pin");
    reveal_strlit("tiktok-video");
    reveal_strlit("favicon-16");
    reveal_strlit("favicon-32");
    reveal_strlit("favicon-48");
    reveal_strlit("favicon-64");
    reveal_strlit("favicon-128");
    reveal_strlit("favicon-256");
    reveal_strlit("og-facebook");
    reveal_strlit("og-linkedin");
    reveal_strlit("og-twitter");
    reveal_strlit("og-general");
    reveal_strlit("thumb-150");
    reveal_strlit("thumb-300");
    reveal_strlit("thumb-400");
    reveal_strlit("thumb-600");
    reveal_strlit("hd-720p");
    reveal_strlit("full-hd-1080p");
    reveal_strlit("qhd-1440p");
    reveal_strlit("4k-uhd");
    reveal_strlit("email-header");
    reveal_strlit("email-banner");
    reveal_strlit("email-thumbnail");
    reveal_strlit("blog-featured");
    reveal_strlit("blog-inline");
    reveal_strlit("blog-thumbnail");
    reveal_strlit("product-zoom");
    reveal_strlit("product-large");
    reveal_strlit("product-medium");
    reveal_strlit("product-thumbnail");
    reveal_strlit("product-mini");
}

/// Every size a web or social preset stands for is valid: nonzero dimensions
/// and a path-safe name.
pub proof fn lemma_generic_sizes_valid(p: GenericPreset)
    ensures
        all_valid(generic_preset_sizes(p)),
{
    lemma_generic_base_valid();
    match p {
        GenericPreset::CompleteSocialPack => {
            lemma_all_valid_add(social_profile_pictures_spec(), social_covers_spec());
            lemma_all_valid_add(
                social_profile_pictures_spec() + social_covers_spec(),
                social_posts_spec(),
            );
        },
        GenericPreset::CompleteWebPack => {
            lemma_all_valid_add(favicons_spec(), og_images_spec());
            lemma_all_valid_add(favicons_spec() + og_images_spec(), web_thumbnails_spec());
            lemma_all_valid_add(
                favicons_spec() + og_images_spec() + web_thumbnails_spec(),
                blog_images_spec(),
            );
        },
        _ => {},
    }
}

impl GenericPreset {
    /// The sizes this preset stands for.
    pub fn get_sizes(&self) -> (r: Vec<Size>)
        ensures
            seq_sizes(r@) == generic_preset_sizes(*self),
    {
        match self {
            GenericPreset::SocialProfilePictures => social_profile_pictures(),
            GenericPreset::SocialCovers => social_covers(),
            GenericPreset::SocialPosts => social_posts(),
            GenericPreset::Favicons => favicons(),
            GenericPreset::OGImages => og_images(),
            GenericPreset::WebThumbnails => web_thumbnails(),
            GenericPreset::HDResolutions => hd_resolutions(),
            GenericPreset::EmailNewsletter => email_newsletter(),
            GenericPreset::BlogImages => blog_images(),
            GenericPreset::EcommerceProducts => ecommerce_products(),
            GenericPreset::CompleteSocialPack => complete_social_pack(),
            GenericPreset::CompleteWebPack => complete_web_pack(),
        }
    }

    /// The preset's display name.
    pub fn name(&self) -> (r: &'static str)
        ensures
            r@ == generic_preset_name(*self),
    {
        match self {
            GenericPreset::SocialProfilePictures => "Social Media Profile Pictures",
            GenericPreset::SocialCovers => "Social Media Covers/Banners",
            GenericPreset::SocialPosts => "Social Media Posts",
            GenericPreset::Favicons => "Web Favicons",
            GenericPreset::OGImages => "Open Graph / Social Share Images",
            GenericPreset::WebThumbnails => "Web Thumbnails",
            GenericPreset::HDResolutions => "HD Resolutions (720p - 4K)",
            GenericPreset::EmailNewsletter => "Email Newsletter Images",
            GenericPreset::BlogImages => "Blog Post Images",
            GenericPreset::EcommerceProducts => "E-commerce Product Images",
            GenericPreset::CompleteSocialPack => "Complete Social Media Pack",
            GenericPreset::CompleteWebPack => "Complete Web Pack",
        }
    }

    /// Every web and social preset, in the order offered.
    pub fn all() -> (r: Vec<GenericPreset>)
        ensures
            r@ == generic_preset_order(),
    {
        let r = vec![
            GenericPreset::CompleteSocialPack,
            GenericPreset::CompleteWebPack,
            GenericPreset::SocialProfilePictures,
            GenericPreset::SocialCovers,
            GenericPreset::SocialPosts,
            GenericPreset::Favicons,
            GenericPreset::OGImages,
            GenericPreset::WebThumbnails,
            GenericPreset::HDResolutions,
            GenericPreset::EmailNewsletter,
            GenericPreset::BlogImages,
            GenericPreset::EcommerceProducts,
        ];
        proof {
            assert(r@ =~= generic_preset_order());
        }
        r
    }
}

} // verus!
