//! How stored assets are named: generated identifiers, the path of an
//! asset's bytes and the path and content of its metadata record.

use crate::format::{extension_of, format_of_extension, ImageFormat};
use crate::text::joined;
use vstd::prelude::*;

verus! {

/// The record kept beside every stored asset: the extension of its format
/// and the number of bytes stored.
#[derive(Debug)]
pub struct ImgMetadata {
    pub fmt: String,
    pub size_in_bytes: u32,
}

/// The mathematical value of an [`ImgMetadata`].
pub struct MetaView {
    pub fmt: Seq<char>,
    pub size_in_bytes: u32,
}

impl View for ImgMetadata {
    type V = MetaView;

    open spec fn view(&self) -> MetaView {
        MetaView { fmt: self.fmt@, size_in_bytes: self.size_in_bytes }
    }
}

/// The record of an asset of the given format and size.
pub open spec fn record_of(format: ImageFormat, size: u32) -> MetaView {
    MetaView { fmt: extension_of(format), size_in_bytes: size }
}

impl ImgMetadata {
    /// The record of an asset of the given format and size.
    pub fn describe(format: ImageFormat, size: u32) -> (meta: ImgMetadata)
        ensures
            meta@ == record_of(format, size),
    {
        ImgMetadata { fmt: format.as_str().to_owned(), size_in_bytes: size }
    }

    /// The format that the record names; `Unknown` unless it holds one of
    /// the four canonical extensions.
    pub fn format(&self) -> (format: ImageFormat)
        ensures
            format == format_of_extension(self@.fmt),
    {
        ImageFormat::from_extension(self.fmt.as_str())
    }
}

/// Whether `c` is a digit of lower-case hexadecimal.
pub open spec fn is_lower_hex(c: char) -> bool {
    ('0' <= c && c <= '9') || ('a' <= c && c <= 'f')
}

/// Whether `s` has the form of a generated identifier: 32 lower-case
/// hexadecimal digits in groups of 8, 4, 4, 4 and 12 with a hyphen
/// between groups, the third group starting with `4` and the fourth with
/// one of `8`, `9`, `a`, `b`.
pub open spec fn is_uuid_text(s: Seq<char>) -> bool {
    &&& s.len() == 36
    &&& forall|i: int|
        0 <= i < 36 ==> if i == 8 || i == 13 || i == 18 || i == 23 {
            #[trigger] s[i] == '-'
        } else {
            is_lower_hex(s[i])
        }
    &&& s[14] == '4'
    &&& (s[19] == '8' || s[19] == '9' || s[19] == 'a' || s[19] == 'b')
}

/// Calls `uuid::Uuid::new_v4` and formats the result by its `Display`.
/// Trusted: the text is the hyphenated lower-case form of a version 4,
/// variant 1 identifier. Nothing is claimed of which one it is: two
/// calls may differ, and with all but negligible chance do.
#[verifier::external_body]
pub(crate) fn random_uuid_text() -> (id: String)
    ensures
        is_uuid_text(id@),
{
    uuid::Uuid::new_v4().to_string()
}

/// Where the bytes of an asset lie: `{root}/{id}{extension}`.
pub open spec fn asset_path_of(root: Seq<char>, id: Seq<char>, format: ImageFormat) -> Seq<char> {
    root + "/"@ + id + extension_of(format)
}

/// Where the metadata record of an asset lies: `{root}/{id}`.
pub open spec fn meta_path_of(root: Seq<char>, id: Seq<char>) -> Seq<char> {
    root + "/"@ + id
}

/// The path of an asset's bytes; see [`asset_path_of`].
pub fn asset_path(root: &str, id: &str, format: ImageFormat) -> (path: String)
    ensures
        path@ == asset_path_of(root@, id@, format),
{
    let mut path = joined(root, "/");
    path.append(id);
    path.append(format.as_str());
    path
}

/// The path of an asset's metadata record; see [`meta_path_of`].
pub fn meta_path(root: &str, id: &str) -> (path: String)
    ensures
        path@ == meta_path_of(root@, id@),
{
    let mut path = joined(root, "/");
    path.append(id);
    path
}

/// Whether `s` holds no path separator.
pub open spec fn no_separator(s: Seq<char>) -> bool {
    forall|i: int| 0 <= i < s.len() ==> #[trigger] s[i] != '/'
}

/// A generated identifier holds no path separator, so an asset path made
/// with it names a file directly under the root.
pub proof fn lemma_uuid_text_has_no_separator(id: Seq<char>)
    requires
        is_uuid_text(id),
    ensures
        no_separator(id),
{
    assert forall|i: int| 0 <= i < id.len() implies #[trigger] id[i] != '/' by {
        if i == 8 || i == 13 || i == 18 || i == 23 {
            assert(id[i] == '-');
        } else {
            assert(is_lower_hex(id[i]));
        }
    }
}

/// The extension of every format holds no path separator, and that of a
/// known format is not empty.
pub proof fn lemma_extension_shape(format: ImageFormat)
    ensures
        no_separator(extension_of(format)),
        format != ImageFormat::Unknown ==> extension_of(format).len() > 0,
        format == ImageFormat::Unknown ==> extension_of(format).len() == 0,
{
    reveal_strlit(".jpeg");
    reveal_strlit(".png");
    reveal_strlit(".gif");
    reveal_strlit(".webp");
    reveal_strlit("");
}

/// The bytes of an asset of a known format and its metadata record never
/// share a path, whatever the two roots are, even the same: neither write
/// can overwrite the other. (An asset of unknown format has no extension;
/// it is kept apart from its record only by different roots.)
pub proof fn lemma_bytes_and_record_apart(
    file_root: Seq<char>,
    meta_root: Seq<char>,
    id: Seq<char>,
    format: ImageFormat,
)
    requires
        no_separator(id),
        format != ImageFormat::Unknown,
    ensures
        asset_path_of(file_root, id, format) != meta_path_of(meta_root, id),
{
    reveal_strlit("/");
    lemma_extension_shape(format);
    let ext = extension_of(format);
    let a = asset_path_of(file_root, id, format);
    let m = meta_path_of(meta_root, id);
    if a == m {
        let fa = file_root.len() as int;
        let fm = meta_root.len() as int;
        assert(a.len() == fa + 1 + id.len() + ext.len());
        assert(m.len() == fm + 1 + id.len());
        assert(a[fa] == '/');
        assert(m[fm] == '/');
        assert(fm > fa);
        // The separator of the record's path falls among the identifier
        // and the extension of the asset's path.
        let k = fm - fa - 1;
        if k < id.len() {
            assert(a[fm] == id[k]);
        } else {
            assert(a[fm] == ext[k - id.len()]);
        }
        assert(false);
    }
}

} // verus!
