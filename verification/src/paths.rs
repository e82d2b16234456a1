//! File paths, held as strings, and the few operations on them that the
//! library needs. Each path operation is `std::path::Path`'s own, called
//! through a wrapper whose result is named by a spec function of its inputs.
use vstd::prelude::*;
use crate::text::{chars_of, chars_equal};

verus! {

/// What `Path::file_stem` gives for a path: the last component's name without
/// its final extension.
pub uninterp spec fn path_file_stem(path: Seq<char>) -> Option<Seq<char>>;

/// What `Path::parent` gives for a path.
pub uninterp spec fn path_parent(path: Seq<char>) -> Option<Seq<char>>;

/// What `Path::join` gives for a base path and a path to append to it.
pub uninterp spec fn path_join(base: Seq<char>, tail: Seq<char>) -> Seq<char>;

/// What `Path::extension` gives for a path.
pub uninterp spec fn path_extension(path: Seq<char>) -> Option<Seq<char>>;

/// What `Path::file_name` gives for a path.
pub uninterp spec fn path_file_name(path: Seq<char>) -> Option<Seq<char>>;

/// What `Path::with_file_name` gives for a path and a new file name.
pub uninterp spec fn path_with_file_name(path: Seq<char>, name: Seq<char>) -> Seq<char>;

/// What `str::to_lowercase` gives for a string.
pub uninterp spec fn lowercase(s: Seq<char>) -> Seq<char>;

/// `Path::file_stem`, converted to a string. The contract claims only that
/// the result is `path_file_stem` of the argument.
#[verifier::external_body]
pub(crate) fn file_stem(path: &str) -> (r: Option<String>)
    ensures
        r.deep_view() == path_file_stem(path@),
{
    match std::path::Path::new(path).file_stem() {
        Some(stem) => Some(stem.to_string_lossy().into_owned()),
        None => None,
    }
}

/// `Path::parent`, converted to a string. The contract claims only that the
/// result is `path_parent` of the argument.
#[verifier::external_body]
pub(crate) fn parent(path: &str) -> (r: Option<String>)
    ensures
        r.deep_view() == path_parent(path@),
{
    match std::path::Path::new(path).parent() {
        Some(dir) => Some(dir.to_string_lossy().into_owned()),
        None => None,
    }
}

/// `Path::join`, converted to a string. The contract claims only that the
/// result is `path_join` of the arguments.
#[verifier::external_body]
pub(crate) fn join(base: &str, tail: &str) -> (r: String)
    ensures
        r@ == path_join(base@, tail@),
{
    std::path::Path::new(base).join(tail).to_string_lossy().into_owned()
}

/// `Path::extension`, converted to a string. The contract claims only that the
/// result is `path_extension` of the argument.
#[verifier::external_body]
pub(crate) fn extension(path: &str) -> (r: Option<String>)
    ensures
        r.deep_view() == path_extension(path@),
{
    match std::path::Path::new(path).extension() {
        Some(ext) => Some(ext.to_string_lossy().into_owned()),
        None => None,
    }
}

/// `Path::file_name`, converted to a string. The contract claims only that the
/// result is `path_file_name` of the argument.
#[verifier::external_body]
pub(crate) fn file_name(path: &str) -> (r: Option<String>)
    ensures
        r.deep_view() == path_file_name(path@),
{
    match std::path::Path::new(path).file_name() {
        Some(name) => Some(name.to_string_lossy().into_owned()),
        None => None,
    }
}

/// `Path::with_file_name`, converted to a string. The contract claims only
/// that the result is `path_with_file_name` of the arguments.
#[verifier::external_body]
pub(crate) fn with_file_name(path: &str, name: &str) -> (r: String)
    ensures
        r@ == path_with_file_name(path@, name@),
{
    std::path::Path::new(path).with_file_name(name).to_string_lossy().into_owned()
}

/// `Path::exists`. Its answer depends on what is on disk at the moment of the
/// call, so nothing is claimed of it.
#[verifier::external_body]
pub(crate) fn path_exists(path: &str) -> (r: bool) {
    std::path::Path::new(path).exists()
}

/// `str::to_lowercase`. The contract claims only that the result is
/// `lowercase` of the argument.
#[verifier::external_body]
pub(crate) fn to_lowercase(s: &str) -> (r: String)
    ensures
        r@ == lowercase(s@),
{
    s.to_lowercase()
}

/// The (lower-case) file extensions that are taken for media files.
pub open spec fn is_media_extension_spec(ext: Seq<char>) -> bool {
    ||| ext == "mp4"@
    ||| ext == "mov"@
    ||| ext == "mkv"@
    ||| ext == "m4v"@
    ||| ext == "avi"@
    ||| ext == "webm"@
    ||| ext == "mts"@
    ||| ext == "m2ts"@
    ||| ext == "mpg"@
    ||| ext == "mpeg"@
}

fn equals_literal(v: &Vec<char>, lit: &str) -> (r: bool)
    ensures
        r == (v@ == lit@),
{
    let w = chars_of(lit);
    chars_equal(v, &w)
}

/// Whether an (already lower-cased) extension is one of the media extensions.
pub fn is_media_extension(ext: &str) -> (r: bool)
    ensures
        r == is_media_extension_spec(ext@),
{
    let v = chars_of(ext);
    equals_literal(&v, "mp4") || equals_literal(&v, "mov") || equals_literal(&v, "mkv")
        || equals_literal(&v, "m4v") || equals_literal(&v, "avi") || equals_literal(&v, "webm")
        || equals_literal(&v, "mts") || equals_literal(&v, "m2ts") || equals_literal(&v, "mpg")
        || equals_literal(&v, "mpeg")
}

/// Whether a path names a media file: it has an extension which, lower-cased,
/// is one of the media extensions.
pub open spec fn is_media_path(path: Seq<char>) -> bool {
    match path_extension(path) {
        Some(ext) => is_media_extension_spec(lowercase(ext)),
        None => false,
    }
}

/// Whether `path` has a media file's extension, in any letter case.
pub fn is_media_file(path: &str) -> (r: bool)
    ensures
        r == is_media_path(path@),
{
    match extension(path) {
        Some(ext) => {
            let lower = to_lowercase(ext.as_str());
            is_media_extension(lower.as_str())
        },
        None => false,
    }
}

/// The media extensions are exactly mp4, mov, mkv, m4v, avi, webm, mts, m2ts,
/// mpg and mpeg.
pub proof fn lemma_media_extensions(ext: Seq<char>)
    ensures
        is_media_extension_spec(ext) <==> (ext == "mp4"@ || ext == "mov"@ || ext == "mkv"@ || ext
            == "m4v"@ || ext == "avi"@ || ext == "webm"@ || ext == "mts"@ || ext == "m2ts"@ || ext
            == "mpg"@ || ext == "mpeg"@),
{
}

/// Whether a path is a media file depends only on its extension, up to
/// letter case: paths whose extensions lower-case alike are both media files
/// or both not, and a path without an extension is not one.
pub proof fn lemma_media_path_by_extension(p: Seq<char>, q: Seq<char>)
    ensures
        path_extension(p) is None ==> !is_media_path(p),
        (path_extension(p) matches Some(e) && path_extension(q) matches Some(f) && lowercase(e)
            == lowercase(f)) ==> is_media_path(p) == is_media_path(q),
        path_extension(p) matches Some(e) ==> (is_media_path(p) <==> is_media_extension_spec(
            lowercase(e),
        )),
{
}

} // verus!
