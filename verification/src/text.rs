use vstd::prelude::*;
use vstd::string::*;

verus! {

// ---------------------------------------------------------------------------
// Characters
// ---------------------------------------------------------------------------

/// ASCII uppercase letters fold to lowercase; every other character is kept.
pub open spec fn lower_char(c: char) -> char {
    if 65 <= c as u32 && c as u32 <= 90 {
        ((c as u32 + 32) as char)
    } else {
        c
    }
}

/// Characterwise ASCII lowercasing of a character sequence.
pub open spec fn lower(s: Seq<char>) -> Seq<char> {
    s.map_values(|c: char| lower_char(c))
}

/// Fold one ASCII uppercase letter to lowercase.
pub fn char_to_lower(c: char) -> (r: char)
    ensures
        r == lower_char(c),
{
    let u = c as u32;
    if 65 <= u && u <= 90 {
        ((u + 32) as u8) as char
    } else {
        c
    }
}

// ---------------------------------------------------------------------------
// Path components
// ---------------------------------------------------------------------------

/// Index of the last occurrence of `c` in `s`, or -1 when `c` does not occur.
pub open spec fn last_occurrence(s: Seq<char>, c: char) -> int
    decreases s.len(),
{
    if s.len() == 0 {
        -1
    } else if s[s.len() - 1] == c {
        s.len() - 1
    } else {
        last_occurrence(s.drop_last(), c)
    }
}

pub proof fn lemma_last_occurrence(s: Seq<char>, c: char)
    ensures
        -1 <= last_occurrence(s, c) < s.len(),
        last_occurrence(s, c) >= 0 ==> s[last_occurrence(s, c)] == c,
        forall|j: int| last_occurrence(s, c) < j < s.len() ==> s[j] != c,
    decreases s.len(),
{
    if s.len() > 0 && s[s.len() - 1] != c {
        lemma_last_occurrence(s.drop_last(), c);
        assert(forall|j: int| 0 <= j < s.len() - 1 ==> s.drop_last()[j] == s[j]);
    }
}

/// Where the file name begins: just after the last path separator.
pub open spec fn name_start(path: Seq<char>) -> int {
    last_occurrence(path, '/') + 1
}

/// The file name: everything after the last path separator.
pub open spec fn file_name_of(path: Seq<char>) -> Seq<char> {
    path.subrange(name_start(path), path.len() as int)
}

/// Index of the dot that begins the extension. The extension is the part of
/// the file name after its last dot, except that a dot at the very start of
/// the file name marks a hidden file, not an extension.
pub open spec fn ext_dot(path: Seq<char>) -> int {
    last_occurrence(path, '.')
}

pub open spec fn has_extension(path: Seq<char>) -> bool {
    ext_dot(path) > name_start(path)
}

pub open spec fn extension_of(path: Seq<char>) -> Seq<char> {
    path.subrange(ext_dot(path) + 1, path.len() as int)
}

/// The file name without its extension.
pub open spec fn stem_of(path: Seq<char>) -> Seq<char> {
    if has_extension(path) {
        path.subrange(name_start(path), ext_dot(path))
    } else {
        file_name_of(path)
    }
}

/// The stem, or the fixed fallback when the path yields no usable stem.
pub open spec fn stem_or_default(path: Seq<char>) -> Seq<char> {
    if stem_of(path).len() == 0 {
        "image"@
    } else {
        stem_of(path)
    }
}

/// Find the last occurrence of `c` in `s`.
pub fn last_index(s: &str, c: char) -> (r: Option<usize>)
    ensures
        match r {
            Some(i) => i == last_occurrence(s@, c),
            None => last_occurrence(s@, c) == -1,
        },
{
    let n = s.unicode_len();
    let mut i = n;
    while i > 0
        invariant
            n == s@.len(),
            i <= n,
            forall|j: int| i <= j < n ==> s@[j] != c,
        decreases i,
    {
        i = i - 1;
        if s.get_char(i) == c {
            proof {
                lemma_last_occurrence(s@, c);
            }
            return Some(i);
        }
    }
    proof {
        lemma_last_occurrence(s@, c);
    }
    None
}

// ---------------------------------------------------------------------------
// Supported extensions
// ---------------------------------------------------------------------------

/// The fixed allow-list of raster-image file extensions, in lowercase.
pub open spec fn supported_ext(e: Seq<char>) -> bool {
    ||| e == "jpg"@
    ||| e == "jpeg"@
    ||| e == "png"@
    ||| e == "gif"@
    ||| e == "bmp"@
    ||| e == "ico"@
    ||| e == "tiff"@
    ||| e == "webp"@
}

/// A path is supported when it has an extension and that extension,
/// lowercased, is on the allow-list.
pub open spec fn spec_is_supported(path: Seq<char>) -> bool {
    has_extension(path) && supported_ext(lower(extension_of(path)))
}

/// Compare the lowercased characters of `s[from..to]` with `lit`.
fn chars_eq_lower(s: &str, from: usize, to: usize, lit: &str) -> (r: bool)
    requires
        from <= to <= s@.len(),
    ensures
        r == (lower(s@.subrange(from as int, to as int)) == lit@),
{
    let m = lit.unicode_len();
    if to - from != m {
        return false;
    }
    let mut j: usize = 0;
    while j < m
        invariant
            from <= to <= s@.len(),
            m == lit@.len(),
            to - from == m,
            j <= m,
            forall|k: int| 0 <= k < j ==> lower_char(s@[from + k]) == lit@[k],
        decreases m - j,
    {
        if char_to_lower(s.get_char(from + j)) != lit.get_char(j) {
            assert(lower(s@.subrange(from as int, to as int))[j as int] != lit@[j as int]);
            return false;
        }
        j = j + 1;
    }
    assert(lower(s@.subrange(from as int, to as int)) =~= lit@);
    true
}

/// Decide whether a path names a file of a supported raster-image type,
/// going by its extension alone, case-insensitively.
pub fn is_supported_image(path: &str) -> (r: bool)
    ensures
        r == spec_is_supported(path@),
{
    let n = path.unicode_len();
    proof {
        lemma_last_occurrence(path@, '/');
    }
    let start = match last_index(path, '/') {
        Some(i) => i + 1,
        None => 0,
    };
    let d = match last_index(path, '.') {
        Some(d) => d,
        None => {
            return false;
        },
    };
    if d <= start {
        return false;
    }
    proof {
        lemma_last_occurrence(path@, '.');
    }
    chars_eq_lower(path, d + 1, n, "jpg") || chars_eq_lower(path, d + 1, n, "jpeg")
        || chars_eq_lower(path, d + 1, n, "png") || chars_eq_lower(path, d + 1, n, "gif")
        || chars_eq_lower(path, d + 1, n, "bmp") || chars_eq_lower(path, d + 1, n, "ico")
        || chars_eq_lower(path, d + 1, n, "tiff") || chars_eq_lower(path, d + 1, n, "webp")
}

// ---------------------------------------------------------------------------
// Path and name building
// ---------------------------------------------------------------------------

/// Join a directory path and one further segment, adding a separator unless
/// the base is empty or already ends with one.
pub open spec fn spec_join(base: Seq<char>, seg: Seq<char>) -> Seq<char> {
    if base.len() == 0 || base[base.len() - 1] == '/' {
        base + seg
    } else {
        base + "/"@ + seg
    }
}

pub fn join_path(base: &str, seg: &str) -> (r: String)
    ensures
        r@ == spec_join(base@, seg@),
{
    let n = base.unicode_len();
    let mut r = base.to_owned();
    if n > 0 && base.get_char(n - 1) != '/' {
        r.append("/");
    }
    r.append(seg);
    r
}

/// The derived output file name: `{stem}-{size name}.{png|jpg}`.
pub open spec fn spec_output_name(stem: Seq<char>, size_name: Seq<char>, use_png: bool) -> Seq<
    char,
> {
    stem + "-"@ + size_name + "."@ + (if use_png {
        "png"@
    } else {
        "jpg"@
    })
}

pub fn output_name(stem: &str, size_name: &str, use_png: bool) -> (r: String)
    ensures
        r@ == spec_output_name(stem@, size_name@, use_png),
{
    let mut r = stem.to_owned();
    r.append("-");
    r.append(size_name);
    r.append(".");
    r.append(if use_png { "png" } else { "jpg" });
    r
}

/// The stem of the file the path points at, or the fixed fallback when the
/// path has no usable stem.
pub fn file_stem(path: &str) -> (r: String)
    ensures
        r@ == stem_or_default(path@),
{
    let n = path.unicode_len();
    proof {
        lemma_last_occurrence(path@, '/');
        lemma_last_occurrence(path@, '.');
    }
    let start = match last_index(path, '/') {
        Some(i) => i + 1,
        None => 0,
    };
    let end = match last_index(path, '.') {
        Some(d) if d > start => d,
        _ => n,
    };
    let stem = path.substring_char(start, end);
    if stem.unicode_len() == 0 {
        String::from_str("image")
    } else {
        stem.to_owned()
    }
}

} // verus!
