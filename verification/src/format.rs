//! The closed set of image formats and its mappings to content types and
//! file extensions.

use crate::text::text_eq;
use vstd::prelude::*;
use vstd::string::*;

verus! {

/// A recognised image encoding, or `Unknown` for everything else.
#[derive(Debug, Clone, Copy, PartialEq, Eq, Structural)]
pub enum ImageFormat {
    Jpeg,
    Png,
    Gif,
    WebP,
    Unknown,
}

/// `c` with the letters `A`..`Z` folded to `a`..`z`.
pub open spec fn ascii_lower(c: char) -> char {
    if 'A' <= c && c <= 'Z' {
        ((c as u8) + 32) as char
    } else {
        c
    }
}

/// `s` with every character folded by [`ascii_lower`].
pub open spec fn lowered(s: Seq<char>) -> Seq<char> {
    Seq::new(s.len(), |i: int| ascii_lower(s[i]))
}

/// The content type under which a format is served.
pub open spec fn content_type_of(f: ImageFormat) -> Seq<char> {
    match f {
        ImageFormat::Jpeg => "image/jpeg"@,
        ImageFormat::Png => "image/png"@,
        ImageFormat::Gif => "image/gif"@,
        ImageFormat::WebP => "image/webp"@,
        ImageFormat::Unknown => "application/octet-stream"@,
    }
}

/// The dotted file extension of a format; empty for `Unknown`.
pub open spec fn extension_of(f: ImageFormat) -> Seq<char> {
    match f {
        ImageFormat::Jpeg => ".jpeg"@,
        ImageFormat::Png => ".png"@,
        ImageFormat::Gif => ".gif"@,
        ImageFormat::WebP => ".webp"@,
        ImageFormat::Unknown => ""@,
    }
}

/// The format that a declared content type stands for: a match without
/// regard to letter case against the four image content types.
pub open spec fn format_of_content_type(s: Seq<char>) -> ImageFormat {
    if lowered(s) == "image/jpeg"@ {
        ImageFormat::Jpeg
    } else if lowered(s) == "image/png"@ {
        ImageFormat::Png
    } else if lowered(s) == "image/gif"@ {
        ImageFormat::Gif
    } else if lowered(s) == "image/webp"@ {
        ImageFormat::WebP
    } else {
        ImageFormat::Unknown
    }
}

/// The format that a stored extension stands for: an exact match.
pub open spec fn format_of_extension(s: Seq<char>) -> ImageFormat {
    if s == ".jpeg"@ {
        ImageFormat::Jpeg
    } else if s == ".png"@ {
        ImageFormat::Png
    } else if s == ".gif"@ {
        ImageFormat::Gif
    } else if s == ".webp"@ {
        ImageFormat::WebP
    } else {
        ImageFormat::Unknown
    }
}

fn fold_char(c: char) -> (r: char)
    ensures
        r == ascii_lower(c),
{
    if 'A' <= c && c <= 'Z' {
        ((c as u8) + 32) as char
    } else {
        c
    }
}

/// Whether `s` and `name` are the same text once letter case is set aside.
fn matches_ignoring_case(s: &str, name: &str) -> (r: bool)
    ensures
        r == (lowered(s@) == lowered(name@)),
{
    let n: usize = name.unicode_len();
    if s.unicode_len() != n {
        assert(lowered(s@).len() != lowered(name@).len());
        return false;
    }
    let mut i: usize = 0;
    while i < n
        invariant
            i <= n,
            n == name@.len(),
            n == s@.len(),
            forall|j: int| 0 <= j < i ==> ascii_lower(s@[j]) == ascii_lower(name@[j]),
        decreases n - i,
    {
        if fold_char(s.get_char(i)) != fold_char(name.get_char(i)) {
            assert(lowered(s@)[i as int] != lowered(name@)[i as int]);
            return false;
        }
        i = i + 1;
    }
    assert(lowered(s@) =~= lowered(name@));
    true
}

/// Maps a declared content type to its format. The match ignores letter
/// case and is otherwise exact; any other text gives `Unknown`.
pub fn detect_image_format(content_type: String) -> (format: ImageFormat)
    ensures
        format == format_of_content_type(content_type@),
{
    proof {
        lemma_names_are_lower_case();
    }
    let s = content_type.as_str();
    if matches_ignoring_case(s, "image/jpeg") {
        ImageFormat::Jpeg
    } else if matches_ignoring_case(s, "image/png") {
        ImageFormat::Png
    } else if matches_ignoring_case(s, "image/gif") {
        ImageFormat::Gif
    } else if matches_ignoring_case(s, "image/webp") {
        ImageFormat::WebP
    } else {
        ImageFormat::Unknown
    }
}

impl ImageFormat {
    /// The dotted file extension under which assets of this format are
    /// stored; empty for `Unknown`.
    pub fn as_str(&self) -> (ext: &'static str)
        ensures
            ext@ == extension_of(*self),
    {
        match self {
            ImageFormat::Jpeg => ".jpeg",
            ImageFormat::Png => ".png",
            ImageFormat::Gif => ".gif",
            ImageFormat::WebP => ".webp",
            ImageFormat::Unknown => "",
        }
    }

    /// The content type under which assets of this format are served.
    pub fn content_type(&self) -> (name: &'static str)
        ensures
            name@ == content_type_of(*self),
    {
        match self {
            ImageFormat::Jpeg => "image/jpeg",
            ImageFormat::Png => "image/png",
            ImageFormat::Gif => "image/gif",
            ImageFormat::WebP => "image/webp",
            ImageFormat::Unknown => "application/octet-stream",
        }
    }

    /// Resolves the extension recorded with a stored asset back to its
    /// format. Only the four canonical extensions are recognised.
    pub fn from_extension(ext: &str) -> (format: ImageFormat)
        ensures
            format == format_of_extension(ext@),
    {
        if text_eq(ext, ".jpeg") {
            ImageFormat::Jpeg
        } else if text_eq(ext, ".png") {
            ImageFormat::Png
        } else if text_eq(ext, ".gif") {
            ImageFormat::Gif
        } else if text_eq(ext, ".webp") {
            ImageFormat::WebP
        } else {
            ImageFormat::Unknown
        }
    }

    /// Whether a codec exists for this format.
    pub fn is_known(&self) -> (known: bool)
        ensures
            known == (*self != ImageFormat::Unknown),
    {
        match self {
            ImageFormat::Unknown => false,
            _ => true,
        }
    }
}

/// The four image content types are written in lower case, so folding
/// leaves them as they are.
pub proof fn lemma_names_are_lower_case()
    ensures
        lowered("image/jpeg"@) == "image/jpeg"@,
        lowered("image/png"@) == "image/png"@,
        lowered("image/gif"@) == "image/gif"@,
        lowered("image/webp"@) == "image/webp"@,
{
    reveal_strlit("image/jpeg");
    reveal_strlit("image/png");
    reveal_strlit("image/gif");
    reveal_strlit("image/webp");
    assert(lowered("image/jpeg"@) =~= "image/jpeg"@);
    assert(lowered("image/png"@) =~= "image/png"@);
    assert(lowered("image/gif"@) =~= "image/gif"@);
    assert(lowered("image/webp"@) =~= "image/webp"@);
}

/// Detection inverts the content-type mapping: the content type of every
/// supported format is detected as that format.
pub proof fn lemma_detect_content_type_of(f: ImageFormat)
    requires
        f != ImageFormat::Unknown,
    ensures
        format_of_content_type(content_type_of(f)) == f,
{
    lemma_names_are_lower_case();
    reveal_strlit("image/jpeg");
    reveal_strlit("image/png");
    reveal_strlit("image/gif");
    reveal_strlit("image/webp");
    assert("image/png"@.len() != "image/jpeg"@.len());
    assert("image/gif"@.len() != "image/jpeg"@.len());
    assert("image/gif"@[6] != "image/png"@[6]);
    assert("image/webp"@[6] != "image/jpeg"@[6]);
    assert("image/webp"@.len() != "image/png"@.len());
    assert("image/webp"@.len() != "image/gif"@.len());
}

/// A content type that matches none of the four supported ones, letter
/// case set aside, is detected as `Unknown`; and only such a one is.
pub proof fn lemma_detect_unknown(s: Seq<char>)
    ensures
        format_of_content_type(s) == ImageFormat::Unknown <==> forall|f: ImageFormat|
            f != ImageFormat::Unknown ==> lowered(s) != #[trigger] content_type_of(f),
{
    if format_of_content_type(s) == ImageFormat::Unknown {
        assert forall|f: ImageFormat| f != ImageFormat::Unknown implies lowered(s)
            != #[trigger] content_type_of(f) by {}
    } else {
        let f = format_of_content_type(s);
        assert(lowered(s) == content_type_of(f));
    }
}

/// Letter case never matters to detection.
pub proof fn lemma_detect_ignores_case(s: Seq<char>, t: Seq<char>)
    requires
        lowered(s) == lowered(t),
    ensures
        format_of_content_type(s) == format_of_content_type(t),
{
}

/// The extension mapping is inverted by `from_extension`, for every format.
pub proof fn lemma_extension_round_trip(f: ImageFormat)
    ensures
        format_of_extension(extension_of(f)) == f,
{
    reveal_strlit(".jpeg");
    reveal_strlit(".png");
    reveal_strlit(".gif");
    reveal_strlit(".webp");
    reveal_strlit("");
    assert(".png"@.len() != ".jpeg"@.len());
    assert(".gif"@.len() != ".jpeg"@.len());
    assert(".gif"@[1] != ".png"@[1]);
    assert(".webp"@[1] != ".jpeg"@[1]);
    assert(".webp"@.len() != ".png"@.len());
    assert(".webp"@.len() != ".gif"@.len());
}

} // verus!
