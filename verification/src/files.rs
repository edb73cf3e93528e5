//! Image files, and the check that makes a path one.
//!
//! A path becomes an [`ImageFile`] only by passing [`ImageFile::try_new`]:
//! its file name must have an extension, and the extension must be that of
//! an image format.

use vstd::prelude::*;
use vstd::string::{StrSliceExecFns, StringExecFns};

use crate::formats::{ascii_lowercase, extension_is_known, is_known_extension, known_extensions};

verus! {

/// The file name of a path, which is its final component: what
/// `std::path::Path::file_name` reports for the path where the library runs.
pub uninterp spec fn path_file_name(path: Seq<char>) -> Option<Seq<char>>;

/// The place of the last `'.'` in a name, or -1 where the name has none.
pub open spec fn last_dot(name: Seq<char>) -> int
    decreases name.len(),
{
    if name.len() == 0 {
        -1
    } else if name.last() == '.' {
        name.len() - 1
    } else {
        last_dot(name.drop_last())
    }
}

/// The extension of a file name: what follows its last `'.'`. A name without
/// a `'.'` has no extension, nor has one whose only `'.'` is its first
/// character.
pub open spec fn name_extension(name: Seq<char>) -> Option<Seq<char>> {
    let dot = last_dot(name);
    if dot <= 0 {
        None
    } else {
        Some(name.skip(dot + 1))
    }
}

/// The extension of a path: that of its file name, if it has one.
pub open spec fn path_extension(path: Seq<char>) -> Option<Seq<char>> {
    match path_file_name(path) {
        Some(name) => name_extension(name),
        None => None,
    }
}

/// A piece of text between double quotes with its special characters
/// escaped, as `{:?}` formats a piece of a path.
pub uninterp spec fn debug_quoted(text: Seq<char>) -> Seq<char>;

/// Why a path is no image file, with plain text in place of strings.
pub enum ImageFileErrorView {
    UnknownExtension(Seq<char>),
    NoExtension,
}

/// Why a path is no image file.
#[derive(Debug, PartialEq, Eq)]
pub enum ImageFileError {
    /// The path has an extension, this one, but no image format goes by it.
    UnknownExtension(String),
    /// The path has no extension.
    NoExtension,
}

impl View for ImageFileError {
    type V = ImageFileErrorView;

    open spec fn view(&self) -> ImageFileErrorView {
        match self {
            ImageFileError::UnknownExtension(ext) => ImageFileErrorView::UnknownExtension(ext@),
            ImageFileError::NoExtension => ImageFileErrorView::NoExtension,
        }
    }
}

/// The verdict on an extension: none is missing, and it must be known.
pub open spec fn extension_verdict(ext: Option<Seq<char>>) -> Result<(), ImageFileErrorView> {
    match ext {
        None => Err(ImageFileErrorView::NoExtension),
        Some(e) => if is_known_extension(e) {
            Ok(())
        } else {
            Err(ImageFileErrorView::UnknownExtension(e))
        },
    }
}

/// The outcome of validating a path: the path itself, unchanged, where its
/// extension passes; else the reason it does not.
pub open spec fn validation(path: Seq<char>) -> Result<Seq<char>, ImageFileErrorView> {
    match extension_verdict(path_extension(path)) {
        Ok(_) => Ok(path),
        Err(e) => Err(e),
    }
}

/// Whether a path passes validation.
pub open spec fn is_image_path(path: Seq<char>) -> bool {
    validation(path) is Ok
}

/// What the user is told about an unknown extension, given the extension in
/// quotes.
pub open spec fn unknown_extension_text(quoted: Seq<char>) -> Seq<char> {
    quoted + " is not a known image file extension"@
}

/// What the user is told about an error.
pub open spec fn error_text(error: ImageFileErrorView) -> Seq<char> {
    match error {
        ImageFileErrorView::UnknownExtension(ext) => unknown_extension_text(debug_quoted(ext)),
        ImageFileErrorView::NoExtension => "can't decode an image without a file extension"@,
    }
}

/// Calls `std::path::Path::file_name` on the path.
///
/// Trusted: the result is that function's, which [`path_file_name`] names.
#[verifier::external_body]
pub(crate) fn file_name_of(path: &str) -> (name: Option<String>)
    ensures
        name.deep_view() == path_file_name(path@),
{
    std::path::Path::new(path).file_name().map(|name| name.to_string_lossy().into_owned())
}

spec fn dot_index(dot: Option<usize>) -> int {
    match dot {
        Some(i) => i as int,
        None => -1,
    }
}

/// The extension of a file name, if it has one.
pub fn extension_of_name(name: &str) -> (ext: Option<String>)
    ensures
        ext.deep_view() == name_extension(name@),
{
    let total = name.unicode_len();
    let mut dot: Option<usize> = None;
    let mut seen: usize = 0;
    assert(name@.take(0) =~= Seq::empty());
    for c in it: name.chars()
        invariant
            seen == it.index(),
            it.seq() == name@,
            total == name@.len(),
            dot_index(dot) == last_dot(name@.take(seen as int)),
    {
        assert(name@.take(seen + 1).drop_last() =~= name@.take(seen as int));
        if c == '.' {
            dot = Some(seen);
        }
        seen = seen + 1;
    }
    proof {
        assert(name@.take(seen as int) =~= name@);
        lemma_last_dot_is_last(name@);
    }
    match dot {
        Some(i) => if i > 0 {
            Some(name.substring_char(i + 1, total).to_owned())
        } else {
            None
        },
        None => None,
    }
}

/// The extension of a path: that of its file name, if it has one.
pub fn extension_of(path: &str) -> (ext: Option<String>)
    ensures
        ext.deep_view() == path_extension(path@),
{
    match file_name_of(path) {
        Some(name) => extension_of_name(name.as_str()),
        None => None,
    }
}

/// Formats the text with `{:?}`, as a piece of a path.
///
/// Trusted: the result is that of the formatting, which [`debug_quoted`]
/// names.
#[verifier::external_body]
pub(crate) fn quote(text: &str) -> (quoted: String)
    ensures
        quoted@ == debug_quoted(text@),
{
    format!("{:?}", std::path::Path::new(text))
}

/// Judges an extension: `Ok` where it is that of an image format, else the
/// error that says what is wrong with it.
pub fn check_extension(ext: Option<String>) -> (verdict: Result<(), ImageFileError>)
    ensures
        verdict is Ok <==> extension_verdict(ext.deep_view()) is Ok,
        verdict matches Err(e) ==> extension_verdict(ext.deep_view()) == Err::<(), _>(e@),
{
    match ext {
        None => Err(ImageFileError::NoExtension),
        Some(e) => {
            if extension_is_known(e.as_str()) {
                Ok(())
            } else {
                Err(ImageFileError::UnknownExtension(e))
            }
        },
    }
}

/// The sentence about an unknown extension, given the extension in quotes.
pub fn unknown_extension_message(quoted: String) -> (message: String)
    ensures
        message@ == unknown_extension_text(quoted@),
{
    quoted.concat(" is not a known image file extension")
}

impl ImageFileError {
    /// The error as a sentence for the user.
    pub fn to_string(&self) -> (message: String)
        ensures
            message@ == error_text(self@),
    {
        match self {
            ImageFileError::UnknownExtension(ext) => unknown_extension_message(quote(ext.as_str())),
            ImageFileError::NoExtension => String::from_str(
                "can't decode an image without a file extension",
            ),
        }
    }
}

/// A file reference that passed validation: the path of a file whose
/// extension is that of an image format.
#[derive(Debug, PartialEq, Eq)]
pub struct ImageFile {
    path: String,
}

impl View for ImageFile {
    type V = Seq<char>;

    closed spec fn view(&self) -> Seq<char> {
        self.path@
    }
}

/// The views of a validation's two outcomes.
pub open spec fn validation_view(
    outcome: Result<ImageFile, ImageFileError>,
) -> Result<Seq<char>, ImageFileErrorView> {
    match outcome {
        Ok(file) => Ok(file@),
        Err(error) => Err(error@),
    }
}

impl ImageFile {
    /// What holds of every image file: its path passed validation.
    #[verifier::type_invariant]
    pub open spec fn validated(self) -> bool {
        is_image_path(self@)
    }

    /// Validates a path. It is accepted, unchanged, where its extension is
    /// that of an image format. A path without an extension and one with an
    /// unknown extension are rejected, each with its own error.
    pub fn try_new(path: &str) -> (outcome: Result<ImageFile, ImageFileError>)
        ensures
            validation_view(outcome) == validation(path@),
    {
        match check_extension(extension_of(path)) {
            Ok(_) => Ok(ImageFile { path: path.to_owned() }),
            Err(error) => Err(error),
        }
    }

    /// The path as text.
    pub fn as_str(&self) -> (path: &str)
        ensures
            path@ == self@,
            is_image_path(self@),
    {
        proof {
            use_type_invariant(self);
        }
        self.path.as_str()
    }

    /// The path as a string of its own.
    pub fn to_string(&self) -> (path: String)
        ensures
            path@ == self@,
    {
        self.path.clone()
    }
}

impl core::ops::Deref for ImageFile {
    type Target = String;

    /// The path.
    fn deref(&self) -> (path: &String)
        ensures
            path@ == self@,
    {
        &self.path
    }
}

impl Clone for ImageFile {
    fn clone(&self) -> (copy: Self)
        ensures
            copy@ == self@,
    {
        proof {
            use_type_invariant(self);
        }
        ImageFile { path: self.path.clone() }
    }
}

/// [`last_dot`] is the place of a `'.'` after which no other follows, and it
/// is -1 exactly where the name holds no `'.'` at all.
pub proof fn lemma_last_dot_is_last(name: Seq<char>)
    ensures
        -1 <= last_dot(name) < name.len(),
        last_dot(name) >= 0 ==> name[last_dot(name)] == '.',
        forall|i: int| last_dot(name) < i < name.len() ==> name[i] != '.',
    decreases name.len(),
{
    if name.len() > 0 && name.last() != '.' {
        let rest = name.drop_last();
        lemma_last_dot_is_last(rest);
        assert forall|i: int| last_dot(name) < i < name.len() implies name[i] != '.' by {
            if i < rest.len() {
                assert(rest[i] == name[i]);
            }
        }
    }
}

/// An extension holds no `'.'`, and the name ends with a `'.'` and the
/// extension.
pub proof fn lemma_name_ends_with_extension(name: Seq<char>, ext: Seq<char>)
    requires
        name_extension(name) == Some(ext),
    ensures
        !ext.contains('.'),
        name == name.take(last_dot(name)) + seq!['.'] + ext,
        name.take(last_dot(name)).len() > 0,
{
    lemma_last_dot_is_last(name);
    let dot = last_dot(name);
    assert(name =~= name.take(dot) + seq!['.'] + ext);
    if ext.contains('.') {
        let i = choose|i: int| 0 <= i < ext.len() && ext[i] == '.';
        assert(name[dot + 1 + i] == '.');
    }
}

/// A path with an extension is accepted exactly when the extension, in lower
/// case, is one of the known extensions. It is then accepted unchanged;
/// otherwise it is rejected with that extension, as it was written.
pub proof fn lemma_validation_goes_by_extension(path: Seq<char>, ext: Seq<char>)
    requires
        path_extension(path) == Some(ext),
    ensures
        validation(path) is Ok <==> known_extensions().contains(ascii_lowercase(ext)),
        validation(path) is Ok ==> validation(path) == Ok::<_, ImageFileErrorView>(path),
        validation(path) is Err ==> validation(path) == Err::<Seq<char>, _>(
            ImageFileErrorView::UnknownExtension(ext),
        ),
{
}

/// A path without an extension is rejected for having none.
pub proof fn lemma_validation_needs_extension(path: Seq<char>)
    requires
        path_extension(path) is None,
    ensures
        validation(path) == Err::<Seq<char>, _>(ImageFileErrorView::NoExtension),
{
}

/// Validating a path twice gives the same outcome twice: whatever
/// [`ImageFile::try_new`] returns for a path, it returns every time.
pub proof fn lemma_validation_repeats(
    path: Seq<char>,
    first: Result<ImageFile, ImageFileError>,
    second: Result<ImageFile, ImageFileError>,
)
    requires
        validation_view(first) == validation(path),
        validation_view(second) == validation(path),
    ensures
        validation_view(first) == validation_view(second),
        first is Ok <==> second is Ok,
{
}

} // verus!
