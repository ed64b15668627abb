use vstd::prelude::*;
use vstd::string::*;
use crate::digits::dec_str;
use crate::digits::digit_char;
use crate::digits::lemma_dec_str_digits;
use crate::digits::u32_string;

verus! {

/// One target output dimension: width and height in pixels, plus a name that
/// serves both as a label and as the per-size output folder and filename suffix.
#[derive(Clone, Debug)]
pub struct Size {
    pub width: u32,
    pub height: u32,
    pub name: String,
}

/// The mathematical value of a `Size`: the two pixel counts and the name's
/// characters.
pub ghost struct SizeView {
    pub width: u32,
    pub height: u32,
    pub name: Seq<char>,
}

impl View for Size {
    type V = SizeView;

    open spec fn view(&self) -> SizeView {
        SizeView { width: self.width, height: self.height, name: self.name@ }
    }
}

/// A size name must be usable as a single path segment: nonempty and free of
/// path separators.
pub open spec fn path_safe(name: Seq<char>) -> bool {
    &&& name.len() > 0
    &&& forall|i: int| 0 <= i < name.len() ==> name[i] != '/'
}

/// A size is valid when both dimensions are nonzero and the name can stand as
/// a path segment.
pub open spec fn valid_size(s: SizeView) -> bool {
    s.width > 0 && s.height > 0 && path_safe(s.name)
}

/// Every size in the list is valid.
pub open spec fn all_valid(sizes: Seq<SizeView>) -> bool {
    forall|i: int| 0 <= i < sizes.len() ==> valid_size(#[trigger] sizes[i])
}

/// Validity carries through concatenation of size lists.
pub proof fn lemma_all_valid_add(a: Seq<SizeView>, b: Seq<SizeView>)
    requires
        all_valid(a),
        all_valid(b),
    ensures
        all_valid(a + b),
{
    assert forall|i: int| 0 <= i < (a + b).len() implies valid_size(#[trigger] (a + b)[i]) by {
        if i < a.len() {
            assert((a + b)[i] == a[i]);
        } else {
            assert((a + b)[i] == b[i - a.len()]);
        }
    }
}

/// The view of a size with the given parts: shorthand for catalog entries.
pub open spec fn sv(width: u32, height: u32, name: Seq<char>) -> SizeView {
    SizeView { width, height, name }
}

/// The views of a list of sizes.
pub open spec fn seq_sizes(v: Seq<Size>) -> Seq<SizeView> {
    v.map_values(|s: Size| s@)
}

/// Build a size from its parts.
pub fn size(width: u32, height: u32, name: &str) -> (s: Size)
    ensures
        s@ == (SizeView { width, height, name: name@ }),
{
    Size { width, height, name: name.to_owned() }
}

/// Decide whether one size is valid: nonzero dimensions and a path-safe name.
pub fn is_valid_size(s: &Size) -> (r: bool)
    ensures
        r == valid_size(s@),
{
    if s.width == 0 || s.height == 0 {
        return false;
    }
    let n = s.name.as_str().unicode_len();
    if n == 0 {
        return false;
    }
    let mut i: usize = 0;
    while i < n
        invariant
            n == s.name@.len(),
            i <= n,
            forall|j: int| 0 <= j < i ==> s.name@[j] != '/',
        decreases n - i,
    {
        if s.name.as_str().get_char(i) == '/' {
            return false;
        }
        i = i + 1;
    }
    true
}

/// Decide whether every size in a list is valid and the list is nonempty:
/// the condition a batch request must meet before it is dispatched.
pub fn valid_sizes(sizes: &Vec<Size>) -> (r: bool)
    ensures
        r == (sizes@.len() > 0 && all_valid(seq_sizes(sizes@))),
{
    if sizes.len() == 0 {
        return false;
    }
    let mut i: usize = 0;
    while i < sizes.len()
        invariant
            i <= sizes@.len(),
            forall|j: int| 0 <= j < i ==> valid_size(#[trigger] seq_sizes(sizes@)[j]),
        decreases sizes@.len() - i,
    {
        if !is_valid_size(&sizes[i]) {
            assert(seq_sizes(sizes@)[i as int] == sizes@[i as int]@);
            return false;
        }
        assert(seq_sizes(sizes@)[i as int] == sizes@[i as int]@);
        i = i + 1;
    }
    true
}

/// The derived name of a user-entered custom size.
pub open spec fn custom_name(width: u32, height: u32) -> Seq<char> {
    "Custom_"@ + dec_str(width as nat) + "x"@ + dec_str(height as nat)
}

/// A custom size's derived name is safe as a path segment: a fixed prefix,
/// two decimal numerals and a fixed joiner, none of which holds a separator.
pub proof fn lemma_custom_name_path_safe(width: u32, height: u32)
    ensures
        path_safe(custom_name(width, height)),
{
    reveal_strlit("Custom_");
    reveal_strlit("x");
    lemma_dec_str_digits(width as nat);
    lemma_dec_str_digits(height as nat);
    let name = custom_name(width, height);
    let a = "Custom_"@;
    let w = dec_str(width as nat);
    let x = "x"@;
    let h = dec_str(height as nat);
    assert forall|i: int| 0 <= i < name.len() implies name[i] != '/' by {
        if i < a.len() {
            assert(name[i] == a[i]);
        } else if i < a.len() + w.len() {
            assert(name[i] == w[i - a.len()]);
            assert(digit_char(name[i]));
        } else if i < a.len() + w.len() + x.len() {
            assert(name[i] == x[i - a.len() - w.len()]);
        } else {
            assert(name[i] == h[i - a.len() - w.len() - x.len()]);
            assert(digit_char(name[i]));
        }
    }
}

/// Build the size for user-entered custom dimensions. Zero for either
/// dimension is rejected before any work is dispatched: a zero-sized output
/// is undefined.
pub fn custom_size(width: u32, height: u32) -> (r: Option<Size>)
    ensures
        match r {
            Some(s) => width > 0 && height > 0 && s@ == (SizeView {
                width,
                height,
                name: custom_name(width, height),
            }),
            None => width == 0 || height == 0,
        },
{
    if width == 0 || height == 0 {
        return None;
    }
    let mut name = String::from_str("Custom_");
    name.append(u32_string(width).as_str());
    name.append("x");
    name.append(u32_string(height).as_str());
    Some(Size { width, height, name })
}

} // verus!
