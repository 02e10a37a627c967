//! The file extensions the tool treats as images, and as carriers of Exif data.
use vstd::prelude::*;

verus! {

/// The views of a sequence of string slices.
pub open spec fn strs_view(s: Seq<&str>) -> Seq<Seq<char>> {
    s.map_values(|x: &str| x@)
}

/// Extensions recognised as image files (compared exactly, case included).
pub open spec fn image_formats() -> Seq<Seq<char>> {
    seq![
        "png"@, "jpg"@, "jpeg"@, "gif"@, "webp"@, "raw"@, "tiff"@, "tif"@,
        "svg"@, "heic"@, "heif"@, "ico"@, "gif"@, "bmp"@, "psd"@, "avif"@,
    ]
}

/// Extensions whose files may carry Exif metadata.
pub open spec fn exif_formats() -> Seq<Seq<char>> {
    seq!["jpeg"@, "jpg"@, "tif"@, "tiff"@, "webp"@, "heic"@, "heif"@]
}

/// The image extensions, in order.
pub fn image_file_formats() -> (r: Vec<&'static str>)
    ensures
        strs_view(r@) == image_formats(),
{
    let r = vec![
        "png", "jpg", "jpeg", "gif", "webp", "raw", "tiff", "tif",
        "svg", "heic", "heif", "ico", "gif", "bmp", "psd", "avif",
    ];
    assert(strs_view(r@) =~= image_formats());
    r
}

/// The Exif-carrying extensions, in order.
pub fn exif_metadata_formats() -> (r: Vec<&'static str>)
    ensures
        strs_view(r@) == exif_formats(),
{
    let r = vec!["jpeg", "jpg", "tif", "tiff", "webp", "heic", "heif"];
    assert(strs_view(r@) =~= exif_formats());
    r
}

/// Whether two string slices hold the same characters.
pub fn str_equal(a: &str, b: &str) -> (r: bool)
    ensures
        r == (a@ == b@),
{
    let x = String::from_str(a);
    let y = String::from_str(b);
    x == y
}

/// Whether `extension` is one of `support_formats`, by exact comparison.
pub fn check_image_format_support(extension: &str, support_formats: &[&str]) -> (r: bool)
    ensures
        r == strs_view(support_formats@).contains(extension@),
{
    let mut found = false;
    let mut i: usize = 0;
    while i < support_formats.len()
        invariant
            i <= support_formats@.len(),
            found == exists|j: int| 0 <= j < i && (#[trigger] support_formats@[j])@ == extension@,
        decreases support_formats@.len() - i,
    {
        if str_equal(extension, support_formats[i]) {
            found = true;
        }
        i += 1;
    }
    proof {
        let v = strs_view(support_formats@);
        if found {
            let j = choose|j: int| 0 <= j < i && (#[trigger] support_formats@[j])@ == extension@;
            assert(v[j] == extension@);
        }
        if v.contains(extension@) {
            let j = choose|j: int| 0 <= j < v.len() && v[j] == extension@;
            assert(support_formats@[j]@ == extension@);
        }
    }
    found
}

/// Whether `extension` names an image format the tool supports.
pub fn is_image_format(extension: &str) -> (r: bool)
    ensures
        r == image_formats().contains(extension@),
{
    let formats = image_file_formats();
    check_image_format_support(extension, formats.as_slice())
}

/// Whether `extension` names a format that may carry Exif metadata.
pub fn is_exif_format(extension: &str) -> (r: bool)
    ensures
        r == exif_formats().contains(extension@),
{
    let formats = exif_metadata_formats();
    check_image_format_support(extension, formats.as_slice())
}

} // verus!
