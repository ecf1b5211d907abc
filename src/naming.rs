//! The name of the file that a bordered image is saved to.
use vstd::prelude::*;

verus! {

/// What `Path::file_stem` gives for a path.
pub uninterp spec fn file_stem_of(path: Seq<char>) -> Option<Seq<char>>;

/// What `Path::extension` gives for a path.
pub uninterp spec fn extension_of(path: Seq<char>) -> Option<Seq<char>>;

/// What `Path::with_file_name` gives for a path and a file name.
pub uninterp spec fn with_file_name_of(path: Seq<char>, name: Seq<char>) -> Seq<char>;

/// Relies on `std::path::Path::file_stem`: the file name without its final
/// extension, if the path has a file name. From a `str` it is valid UTF-8, so
/// the conversion to `String` loses nothing.
#[verifier::external_body]
fn file_stem(path: &str) -> (r: Option<String>)
    ensures
        match r {
            Some(s) => file_stem_of(path@) == Some(s@),
            None => file_stem_of(path@) == None::<Seq<char>>,
        },
{
    match std::path::Path::new(path).file_stem() {
        Some(s) => Some(s.to_string_lossy().into_owned()),
        None => None,
    }
}

/// Relies on `std::path::Path::extension`: the part of the file name after
/// its final `.`, if there is one.
#[verifier::external_body]
fn extension(path: &str) -> (r: Option<String>)
    ensures
        match r {
            Some(s) => extension_of(path@) == Some(s@),
            None => extension_of(path@) == None::<Seq<char>>,
        },
{
    match std::path::Path::new(path).extension() {
        Some(s) => Some(s.to_string_lossy().into_owned()),
        None => None,
    }
}

/// Relies on `std::path::Path::with_file_name`: the path with its file name
/// replaced by `name`.
#[verifier::external_body]
fn with_file_name(path: &str, name: &str) -> (r: String)
    ensures
        r@ == with_file_name_of(path@, name@),
{
    std::path::Path::new(path).with_file_name(name).to_string_lossy().into_owned()
}

/// The suffix that marks a bordered file.
pub open spec fn bordered_suffix() -> Seq<char> {
    seq!['_', 'b', 'o', 'r', 'd', 'e', 'r', 'e', 'd']
}

/// The file name of the bordered copy of a file with stem `stem` and
/// extension `ext`: `<stem>_bordered.<ext>`, or `<stem>_bordered` without one.
pub open spec fn bordered_file_name(stem: Seq<char>, ext: Option<Seq<char>>) -> Seq<char> {
    match ext {
        Some(e) => stem + bordered_suffix() + seq!['.'] + e,
        None => stem + bordered_suffix(),
    }
}

/// The path of the bordered copy of `path`, in the same directory; a path
/// without a file name is kept as it is.
pub open spec fn bordered_name(path: Seq<char>) -> Seq<char> {
    match file_stem_of(path) {
        Some(stem) => with_file_name_of(path, bordered_file_name(stem, extension_of(path))),
        None => path,
    }
}

/// The path for the bordered copy of the image at `file`.
pub fn file_name(file: &str) -> (r: String)
    ensures
        r@ == bordered_name(file@),
{
    match file_stem(file) {
        Some(stem) => {
            proof {
                reveal_strlit("_bordered");
                reveal_strlit(".");
                assert("_bordered"@ =~= bordered_suffix());
                assert("."@ =~= seq!['.']);
            }
            let mut name = stem.concat("_bordered");
            match extension(file) {
                Some(ext) => {
                    name = name.concat(".");
                    name = name.concat(ext.as_str());
                },
                None => {},
            }
            with_file_name(file, name.as_str())
        },
        None => file.to_string(),
    }
}

} // verus!
