use vstd::prelude::*;
use vstd::string::*;
use crate::android_sizes::AndroidPreset;
use crate::android_sizes::android_preset_name;
use crate::android_sizes::android_preset_order;
use crate::android_sizes::android_preset_sizes;
use crate::generic_sizes::GenericPreset;
use crate::generic_sizes::generic_preset_name;
use crate::generic_sizes::generic_preset_order;
use crate::generic_sizes::generic_preset_sizes;
use crate::ios_sizes::IOSPreset;
use crate::ios_sizes::ios_preset_name;
use crate::ios_sizes::ios_preset_order;
use crate::ios_sizes::ios_preset_sizes;
use crate::processor::sizes_ok;
use crate::size::Size;
use crate::size::SizeView;
use crate::size::all_valid;
use crate::size::custom_name;
use crate::size::custom_size;
use crate::size::lemma_all_valid_add;
use crate::size::lemma_custom_name_path_safe;
use crate::size::seq_sizes;
use crate::size::sv;
use crate::android_sizes::lemma_android_sizes_valid;
use crate::generic_sizes::lemma_generic_sizes_valid;
use crate::ios_sizes::lemma_ios_sizes_valid;
use crate::digits::dec_value;
use crate::digits::numeral_digits;
use crate::digits::parse_u32;
use crate::digits::u32_numeral;
use crate::text::spec_is_supported;
use crate::text::is_supported_image;

verus! {

/// The views of a list of paths or names.
pub open spec fn path_views(v: Seq<String>) -> Seq<Seq<char>> {
    v.map_values(|s: String| s@)
}

// ---------------------------------------------------------------------------
// Preset lists per platform
// ---------------------------------------------------------------------------

/// The preset display names one platform choice offers, in order. Platform
/// choices are numbered as the interface lists them: Android, then Apple,
/// then web and social media, then custom dimensions (which offer no
/// presets).
pub open spec fn spec_preset_names(platform_idx: u32) -> Seq<Seq<char>> {
    if platform_idx == 0 {
        android_preset_order().map_values(|p: AndroidPreset| android_preset_name(p))
    } else if platform_idx == 1 {
        ios_preset_order().map_values(|p: IOSPreset| ios_preset_name(p))
    } else if platform_idx == 2 {
        generic_preset_order().map_values(|p: GenericPreset| generic_preset_name(p))
    } else {
        Seq::empty()
    }
}

fn android_preset_names() -> (r: Vec<String>)
    ensures
        path_views(r@) == spec_preset_names(0),
{
    let presets = AndroidPreset::all();
    let mut r: Vec<String> = Vec::new();
    let mut i: usize = 0;
    while i < presets.len()
        invariant
            presets@ == android_preset_order(),
            i <= presets@.len(),
            r@.len() == i,
            forall|k: int| 0 <= k < i ==> (#[trigger] r@[k])@ == android_preset_name(presets@[k]),
        decreases presets@.len() - i,
    {
        r.push(String::from_str(presets[i].name()));
        i = i + 1;
    }
    proof {
        assert(path_views(r@) =~= spec_preset_names(0));
    }
    r
}

fn ios_preset_names() -> (r: Vec<String>)
    ensures
        path_views(r@) == spec_preset_names(1),
{
    let presets = IOSPreset::all();
    let mut r: Vec<String> = Vec::new();
    let mut i: usize = 0;
    while i < presets.len()
        invariant
            presets@ == ios_preset_order(),
            i <= presets@.len(),
            r@.len() == i,
            forall|k: int| 0 <= k < i ==> (#[trigger] r@[k])@ == ios_preset_name(presets@[k]),
        decreases presets@.len() - i,
    {
        r.push(String::from_str(presets[i].name()));
        i = i + 1;
    }
    proof {
        assert(path_views(r@) =~= spec_preset_names(1));
    }
    r
}

fn generic_preset_names() -> (r: Vec<String>)
    ensures
        path_views(r@) == spec_preset_names(2),
{
    let presets = GenericPreset::all();
    let mut r: Vec<String> = Vec::new();
    let mut i: usize = 0;
    while i < presets.len()
        invariant
            presets@ == generic_preset_order(),
            i <= presets@.len(),
            r@.len() == i,
            forall|k: int| 0 <= k < i ==> (#[trigger] r@[k])@ == generic_preset_name(presets@[k]),
        decreases presets@.len() - i,
    {
        r.push(String::from_str(presets[i].name()));
        i = i + 1;
    }
    proof {
        assert(path_views(r@) =~= spec_preset_names(2));
    }
    r
}

/// The preset display names to offer for one platform choice: empty for the
/// custom-dimensions choice and for indices that name no platform.
pub fn preset_names(platform_idx: u32) -> (r: Vec<String>)
    ensures
        path_views(r@) == spec_preset_names(platform_idx),
{
    if platform_idx == 0 {
        android_preset_names()
    } else if platform_idx == 1 {
        ios_preset_names()
    } else if platform_idx == 2 {
        generic_preset_names()
    } else {
        let r: Vec<String> = Vec::new();
        proof {
            assert(path_views(r@) =~= spec_preset_names(platform_idx));
        }
        r
    }
}

// ---------------------------------------------------------------------------
// Gathering the sizes of one request
// ---------------------------------------------------------------------------

/// Why no size list could be gathered.
#[derive(Debug)]
pub enum SelectionError {
    /// The platform index names no platform choice.
    UnknownPlatform,
    /// The custom-dimensions choice was made but no valid dimensions were
    /// entered.
    NoValidCustom,
}

/// The size the custom width and height entries stand for: present exactly
/// when both entries are numerals (an optional leading plus sign, then
/// digits) whose values are nonzero and fit in 32 bits.
pub open spec fn spec_custom_entry(w_text: Seq<char>, h_text: Seq<char>) -> Option<SizeView> {
    if u32_numeral(w_text) && u32_numeral(h_text) && 0 < dec_value(numeral_digits(w_text))
        <= u32::MAX && 0 < dec_value(numeral_digits(h_text)) <= u32::MAX {
        Some(
            sv(
                dec_value(numeral_digits(w_text)) as u32,
                dec_value(numeral_digits(h_text)) as u32,
                custom_name(
                    dec_value(numeral_digits(w_text)) as u32,
                    dec_value(numeral_digits(h_text)) as u32,
                ),
            ),
        )
    } else {
        None
    }
}

/// The sizes the custom entries contribute: one size or none.
pub open spec fn spec_custom_sizes(w_text: Seq<char>, h_text: Seq<char>) -> Seq<SizeView> {
    match spec_custom_entry(w_text, h_text) {
        Some(s) => seq![s],
        None => Seq::empty(),
    }
}

/// The preset sizes one platform and preset choice stands for; the
/// custom-dimensions choice starts from none.
pub open spec fn platform_preset_sizes(platform_idx: u32, preset_idx: int) -> Seq<SizeView> {
    if platform_idx == 0 {
        android_preset_sizes(android_preset_order()[preset_idx])
    } else if platform_idx == 1 {
        ios_preset_sizes(ios_preset_order()[preset_idx])
    } else if platform_idx == 2 {
        generic_preset_sizes(generic_preset_order()[preset_idx])
    } else {
        Seq::empty()
    }
}

/// Resolve the platform choice, preset choice and custom width and height
/// entries into the size list of one request: the chosen preset's sizes,
/// plus one custom size when both entries hold valid nonzero dimensions.
/// The custom-dimensions platform with no valid entries is rejected here,
/// before any work is dispatched.
pub fn gather_sizes(
    platform_idx: u32,
    preset_idx: usize,
    width_text: &str,
    height_text: &str,
) -> (r: Result<Vec<Size>, SelectionError>)
    requires
        platform_idx == 0 ==> preset_idx < android_preset_order().len(),
        platform_idx == 1 ==> preset_idx < ios_preset_order().len(),
        platform_idx == 2 ==> preset_idx < generic_preset_order().len(),
    ensures
        match r {
            Ok(sizes) => {
                &&& platform_idx <= 3
                &&& sizes_ok(sizes@)
                &&& seq_sizes(sizes@) == platform_preset_sizes(platform_idx, preset_idx as int)
                    + spec_custom_sizes(width_text@, height_text@)
                &&& platform_idx == 3 ==> spec_custom_entry(width_text@, height_text@) is Some
            },
            Err(SelectionError::UnknownPlatform) => platform_idx > 3,
            Err(SelectionError::NoValidCustom) => platform_idx == 3 && spec_custom_entry(
                width_text@,
                height_text@,
            ) is None,
        },
{
    let mut sizes: Vec<Size>;
    if platform_idx == 0 {
        let presets = AndroidPreset::all();
        sizes = presets[preset_idx].get_sizes();
    } else if platform_idx == 1 {
        let presets = IOSPreset::all();
        sizes = presets[preset_idx].get_sizes();
    } else if platform_idx == 2 {
        let presets = GenericPreset::all();
        sizes = presets[preset_idx].get_sizes();
    } else if platform_idx == 3 {
        sizes = Vec::new();
    } else {
        return Err(SelectionError::UnknownPlatform);
    }
    let ghost preset_part = seq_sizes(sizes@);
    assert(preset_part == platform_preset_sizes(platform_idx, preset_idx as int));
    let mut have_custom = false;
    if let (Some(w), Some(h)) = (parse_u32(width_text), parse_u32(height_text)) {
        if w > 0 && h > 0 {
            if let Some(s) = custom_size(w, h) {
                sizes.push(s);
                have_custom = true;
            }
        }
    }
    proof {
        if !have_custom {
            assert(spec_custom_entry(width_text@, height_text@) is None);
        }
        assert(seq_sizes(sizes@) =~= preset_part + spec_custom_sizes(width_text@, height_text@));
    }
    if platform_idx == 3 && sizes.len() == 0 {
        return Err(SelectionError::NoValidCustom);
    }
    proof {
        if platform_idx <= 2 {
            assert(platform_preset_sizes(platform_idx, preset_idx as int).len() > 0);
        }
        if platform_idx == 0 {
            lemma_android_sizes_valid(android_preset_order()[preset_idx as int]);
        } else if platform_idx == 1 {
            lemma_ios_sizes_valid(ios_preset_order()[preset_idx as int]);
        } else if platform_idx == 2 {
            lemma_generic_sizes_valid(generic_preset_order()[preset_idx as int]);
        }
        if spec_custom_entry(width_text@, height_text@) is Some {
            let cw = dec_value(numeral_digits(width_text@)) as u32;
            let ch = dec_value(numeral_digits(height_text@)) as u32;
            lemma_custom_name_path_safe(cw, ch);
        }
        lemma_all_valid_add(
            platform_preset_sizes(platform_idx, preset_idx as int),
            spec_custom_sizes(width_text@, height_text@),
        );
        assert(all_valid(seq_sizes(sizes@)));
    }
    Ok(sizes)
}

// ---------------------------------------------------------------------------
// Maintaining the selected-image list
// ---------------------------------------------------------------------------

/// What adding candidates to the selected list yields: each candidate in
/// turn is appended when it is a supported image path and not yet listed.
pub open spec fn spec_merge(current: Seq<Seq<char>>, candidates: Seq<Seq<char>>) -> Seq<Seq<char>>
    decreases candidates.len(),
{
    if candidates.len() == 0 {
        current
    } else if spec_is_supported(candidates.first()) && !current.contains(candidates.first()) {
        spec_merge(current.push(candidates.first()), candidates.drop_first())
    } else {
        spec_merge(current, candidates.drop_first())
    }
}

/// Whether the list already holds this path.
fn contains_path(v: &Vec<String>, s: &String) -> (r: bool)
    ensures
        r == path_views(v@).contains(s@),
{
    let mut i: usize = 0;
    while i < v.len()
        invariant
            i <= v@.len(),
            forall|k: int| 0 <= k < i ==> (#[trigger] v@[k])@ != s@,
        decreases v@.len() - i,
    {
        if v[i].eq(s) {
            assert(path_views(v@)[i as int] == s@);
            return true;
        }
        i = i + 1;
    }
    assert forall|k: int| 0 <= k < path_views(v@).len() implies path_views(v@)[k] != s@ by {
        assert(path_views(v@)[k] == v@[k]@);
    }
    false
}

/// Add newly picked candidate paths to the selected list: a candidate is
/// appended when it names a supported image and is not already listed;
/// order is kept and nothing else changes.
pub fn merge_new_images(current: &mut Vec<String>, candidates: &Vec<String>)
    ensures
        path_views(final(current)@) == spec_merge(path_views(old(current)@), path_views(
            candidates@,
        )),
{
    let ghost goal = spec_merge(path_views(old(current)@), path_views(candidates@));
    proof {
        assert(path_views(candidates@).skip(0) =~= path_views(candidates@));
    }
    let mut i: usize = 0;
    while i < candidates.len()
        invariant
            i <= candidates@.len(),
            goal == spec_merge(path_views(current@), path_views(candidates@).skip(i as int)),
        decreases candidates@.len() - i,
    {
        let ghost pre = path_views(current@);
        let ghost rest = path_views(candidates@).skip(i as int);
        assert(rest.first() == candidates@[i as int]@);
        assert(rest.drop_first() =~= path_views(candidates@).skip(i as int + 1));
        if is_supported_image(candidates[i].as_str()) && !contains_path(current, &candidates[i]) {
            current.push(candidates[i].clone());
            assert(path_views(current@) =~= pre.push(candidates@[i as int]@));
        }
        i = i + 1;
    }
    assert(path_views(candidates@).skip(candidates@.len() as int) =~= Seq::empty());
}

// ---------------------------------------------------------------------------
// Directory listings
// ---------------------------------------------------------------------------

/// The supported image paths among the given ones, in the order given.
pub open spec fn supported_of(paths: Seq<Seq<char>>) -> Seq<Seq<char>>
    decreases paths.len(),
{
    if paths.len() == 0 {
        Seq::empty()
    } else {
        let rest = supported_of(paths.drop_last());
        if spec_is_supported(paths.last()) {
            rest.push(paths.last())
        } else {
            rest
        }
    }
}

/// Keep exactly the paths that name supported image files, in the order
/// given.
pub fn filter_supported(names: &Vec<String>) -> (r: Vec<String>)
    ensures
        path_views(r@) == supported_of(path_views(names@)),
{
    let mut r: Vec<String> = Vec::new();
    proof {
        assert(path_views(names@).take(0).len() == 0);
    }
    let mut i: usize = 0;
    while i < names.len()
        invariant
            i <= names@.len(),
            path_views(r@) == supported_of(path_views(names@).take(i as int)),
        decreases names@.len() - i,
    {
        let ghost pre = path_views(r@);
        let ghost prefix = path_views(names@).take(i as int);
        assert(path_views(names@).take(i as int + 1).drop_last() =~= prefix);
        assert(path_views(names@).take(i as int + 1).last() == names@[i as int]@);
        if is_supported_image(names[i].as_str()) {
            r.push(names[i].clone());
            assert(path_views(r@) =~= pre.push(names@[i as int]@));
        }
        i = i + 1;
    }
    assert(path_views(names@).take(names@.len() as int) =~= path_views(names@));
    r
}

} // verus!
