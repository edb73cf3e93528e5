//! The image formats Bent knows, by file extension.
//!
//! The formats themselves are those of the `image` crate. This module states
//! which extensions that crate recognises and which it lists for a file
//! dialog, and asks the crate itself whenever an extension has to be judged.

use vstd::prelude::*;

verus! {

/// The lower-case form of an ASCII upper-case letter; any other character
/// unchanged.
pub open spec fn ascii_lowercase_char(c: char) -> char {
    if 'A' <= c && c <= 'Z' {
        ((c as u32) + 32) as char
    } else {
        c
    }
}

/// A string with every ASCII upper-case letter made lower-case.
pub open spec fn ascii_lowercase(s: Seq<char>) -> Seq<char> {
    Seq::new(s.len(), |i: int| ascii_lowercase_char(s[i]))
}

/// The extensions of image files, in lower case.
pub open spec fn known_extensions() -> Set<Seq<char>> {
    set![
        "avif"@,
        "jpg"@,
        "jpeg"@,
        "jfif"@,
        "png"@,
        "apng"@,
        "gif"@,
        "webp"@,
        "tif"@,
        "tiff"@,
        "tga"@,
        "dds"@,
        "bmp"@,
        "ico"@,
        "hdr"@,
        "exr"@,
        "pbm"@,
        "pam"@,
        "ppm"@,
        "pgm"@,
        "pnm"@,
        "ff"@,
        "qoi"@,
    ]
}

/// Whether an extension is that of an image file: whether its lower-case form
/// is one of [`known_extensions`].
pub open spec fn is_known_extension(ext: Seq<char>) -> bool {
    known_extensions().contains(ascii_lowercase(ext))
}

/// The extensions of each image format, format by format, as a file dialog
/// lists them.
pub open spec fn extensions_by_format() -> Seq<Seq<Seq<char>>> {
    seq![
        seq!["gif"@],
        seq!["ico"@],
        seq!["jpg"@, "jpeg"@],
        seq!["png"@],
        seq!["bmp"@],
        seq!["tiff"@, "tif"@],
        seq!["tga"@],
        seq!["pbm"@, "pam"@, "ppm"@, "pgm"@, "pnm"@],
        seq!["ff"@],
        seq!["avif"@],
        seq!["webp"@],
        seq!["exr"@],
        seq!["qoi"@],
        seq!["dds"@],
        seq!["hdr"@],
        seq!["pcx"@],
    ]
}

/// The extensions a file dialog offers as its filter: those of every format,
/// one format after the other.
pub open spec fn offered_extensions() -> Seq<Seq<char>> {
    extensions_by_format().flatten()
}

/// Asks `image::ImageFormat::from_extension` whether it knows a format for
/// the extension.
///
/// Trusted: the answer is claimed to be [`is_known_extension`], which is the
/// table that function matches the ASCII-lower-cased extension against.
#[verifier::external_body]
pub(crate) fn extension_is_known(ext: &str) -> (known: bool)
    ensures
        known == is_known_extension(ext@),
{
    image::ImageFormat::from_extension(ext).is_some()
}

/// Collects what `image::ImageFormat::extensions_str` lists for each format
/// of `image::ImageFormat::all`, in that order.
///
/// Trusted: the lists are claimed to be [`extensions_by_format`], which is
/// those two tables written out.
#[verifier::external_body]
pub(crate) fn format_extensions() -> (lists: Vec<Vec<String>>)
    ensures
        lists.deep_view() == extensions_by_format(),
{
    image::ImageFormat::all()
        .map(|format| format.extensions_str().iter().map(|ext| ext.to_string()).collect())
        .collect()
}

/// Joins lists of extensions into one list, in their order.
pub fn flatten_extensions(lists: &Vec<Vec<String>>) -> (flat: Vec<String>)
    ensures
        flat.deep_view() == lists.deep_view().flatten(),
{
    let mut flat: Vec<String> = Vec::new();
    let mut i: usize = 0;
    assert(lists.deep_view().take(0) =~= Seq::empty());
    assert(flat.deep_view() =~= Seq::empty());
    while i < lists.len()
        invariant
            i <= lists.len(),
            flat.deep_view() == lists.deep_view().take(i as int).flatten(),
        decreases lists.len() - i,
    {
        let list = &lists[i];
        let ghost before = flat.deep_view();
        let mut j: usize = 0;
        assert(list.deep_view().take(0) =~= Seq::empty());
        while j < list.len()
            invariant
                j <= list.len(),
                flat.deep_view() == before + list.deep_view().take(j as int),
            decreases list.len() - j,
        {
            let ghost joined = flat.deep_view();
            flat.push(list[j].clone());
            proof {
                assert(flat.deep_view() =~= joined.push(list@[j as int].deep_view()));
                assert(list.deep_view().take(j + 1) =~= list.deep_view().take(j as int).push(
                    list@[j as int].deep_view(),
                ));
                assert(flat.deep_view() =~= before + list.deep_view().take(j + 1));
            }
            j += 1;
        }
        proof {
            let done = lists.deep_view().take(i as int);
            assert(list.deep_view().take(j as int) =~= list.deep_view());
            assert(lists.deep_view().take(i + 1) =~= done.push(list.deep_view()));
            done.lemma_flatten_push(list.deep_view());
        }
        i += 1;
    }
    assert(lists.deep_view().take(i as int) =~= lists.deep_view());
    flat
}

/// The extensions a file dialog offers as its filter, as the `image` crate
/// lists them for its formats.
pub fn image_extensions() -> (list: Vec<String>)
    ensures
        list.deep_view() == offered_extensions(),
{
    flatten_extensions(&format_extensions())
}

/// The offered extensions written out in one list.
pub proof fn lemma_offered_extensions_in_order()
    ensures
        offered_extensions() == seq![
            "gif"@,
            "ico"@,
            "jpg"@,
            "jpeg"@,
            "png"@,
            "bmp"@,
            "tiff"@,
            "tif"@,
            "tga"@,
            "pbm"@,
            "pam"@,
            "ppm"@,
            "pgm"@,
            "pnm"@,
            "ff"@,
            "avif"@,
            "webp"@,
            "exr"@,
            "qoi"@,
            "dds"@,
            "hdr"@,
            "pcx"@,
        ],
{
    reveal_with_fuel(Seq::flatten, 18);
}

/// Matching is case-insensitive: an extension is known exactly when its
/// lower-case form is.
pub proof fn lemma_known_extension_ignores_case(ext: Seq<char>)
    ensures
        is_known_extension(ext) == is_known_extension(ascii_lowercase(ext)),
{
    assert(ascii_lowercase(ascii_lowercase(ext)) =~= ascii_lowercase(ext));
}

/// Two extensions that differ only in the case of ASCII letters are both
/// known or both unknown.
pub proof fn lemma_known_extension_same_for_equal_lowercase(a: Seq<char>, b: Seq<char>)
    requires
        ascii_lowercase(a) == ascii_lowercase(b),
    ensures
        is_known_extension(a) == is_known_extension(b),
{
}

} // verus!
