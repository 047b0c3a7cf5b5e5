use vstd::prelude::*;

verus! {

/// The extension of a path as `std::path::Path::extension` finds it: the part
/// of the file name after its last dot, if any.
pub uninterp spec fn extension_of(path: Seq<char>) -> Option<Seq<char>>;

/// The lowercase form of a text as `str::to_lowercase` gives it.
pub uninterp spec fn lower_of(s: Seq<char>) -> Seq<char>;

/// Relies on `std::path::Path::extension`; a path made from a `str` is valid
/// UTF-8, so `to_string_lossy` hands its extension back unchanged.
#[verifier::external_body]
fn path_extension(path: &str) -> (r: Option<String>)
    ensures
        match r {
            Some(e) => extension_of(path@) == Some(e@),
            None => extension_of(path@) is None,
        },
{
    std::path::Path::new(path).extension().map(|e| e.to_string_lossy().into_owned())
}

/// Relies on `str::to_lowercase`: the result depends on the characters alone.
#[verifier::external_body]
fn lowercase(s: &str) -> (r: String)
    ensures
        r@ == lower_of(s@),
{
    s.to_lowercase()
}

/// The extensions of the image formats that a background may have.
pub open spec fn image_extension(ext: Seq<char>) -> bool {
    ||| ext == "png"@
    ||| ext == "jpg"@
    ||| ext == "jpeg"@
    ||| ext == "bmp"@
    ||| ext == "gif"@
    ||| ext == "webp"@
}

fn same_text(a: &str, b: &str) -> (r: bool)
    ensures
        r == (a@ == b@),
{
    a.to_owned() == b.to_owned()
}

/// Whether a lowercase extension is one of `png`, `jpg`, `jpeg`, `bmp`,
/// `gif` and `webp`.
pub fn is_image_extension(ext: &str) -> (r: bool)
    ensures
        r == image_extension(ext@),
{
    same_text(ext, "png") || same_text(ext, "jpg") || same_text(ext, "jpeg") || same_text(ext, "bmp")
        || same_text(ext, "gif") || same_text(ext, "webp")
}

/// Whether a path names an image by its extension, in any case.
pub fn is_valid_image(path: &str) -> (r: bool)
    ensures
        r == match extension_of(path@) {
            Some(e) => image_extension(lower_of(e)),
            None => false,
        },
{
    match path_extension(path) {
        Some(ext) => {
            let lower = lowercase(ext.as_str());
            is_image_extension(lower.as_str())
        },
        None => false,
    }
}

} // verus!
