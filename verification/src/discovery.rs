//! Which of the files found under a root are photos to import.

use vstd::prelude::*;

verus! {

/// The glob that a photo's path matches, whatever the case of its letters.
pub const PHOTO_GLOB: &'static str = "**/*.{jpg,jpeg}";

/// A file to import, and the root under which it was found.
#[derive(Debug, Clone)]
pub struct PhotoPath {
    pub input_path: String,
    pub input_dir: String,
}

/// Whether globset matches `path` against `pattern`, case ignored or not;
/// `None` where it does not take `pattern` for a glob.
pub uninterp spec fn glob_match(pattern: Seq<char>, ignore_case: bool, path: Seq<char>) -> Option<
    bool,
>;

/// A path is a photo's if the photo glob matches it with case ignored.
pub open spec fn is_photo(path: Seq<char>) -> bool {
    glob_match(PHOTO_GLOB@, true, path) == Some(true)
}

/// The photos among the first `upto` of `found`, in the order found.
pub open spec fn photos_among(found: Seq<String>, upto: int) -> Seq<Seq<char>>
    decreases upto,
{
    if upto <= 0 {
        Seq::empty()
    } else if is_photo(found[upto - 1]@) {
        photos_among(found, upto - 1).push(found[upto - 1]@)
    } else {
        photos_among(found, upto - 1)
    }
}

/// The input paths of a list of files to import.
pub open spec fn input_paths(items: Seq<PhotoPath>) -> Seq<Seq<char>> {
    items.map_values(|item: PhotoPath| item.input_path@)
}

/// Whether the file at `path` is a photo to import.
pub fn is_photo_path(path: &str) -> (photo: bool)
    ensures
        photo == is_photo(path@),
{
    match glob_is_match(PHOTO_GLOB, true, path) {
        Some(matched) => matched,
        None => false,
    }
}

/// Keeps the photos among the files `found` under `input_dir`, in the order
/// found, each with the root it was found under.
pub fn find_all_photos(found: Vec<String>, input_dir: &str) -> (items: Vec<PhotoPath>)
    ensures
        input_paths(items@) == photos_among(found@, found@.len() as int),
        forall|i: int| 0 <= i < items@.len() ==> (#[trigger] items@[i]).input_dir@ == input_dir@,
{
    let mut items: Vec<PhotoPath> = Vec::new();
    let mut i: usize = 0;
    while i < found.len()
        invariant
            0 <= i <= found@.len(),
            input_paths(items@) =~= photos_among(found@, i as int),
            forall|k: int| 0 <= k < items@.len() ==> (#[trigger] items@[k]).input_dir@ == input_dir@,
        decreases found@.len() - i,
    {
        if is_photo_path(found[i].as_str()) {
            let ghost before = items@;
            let item = PhotoPath {
                input_path: found[i].clone(),
                input_dir: input_dir.to_owned(),
            };
            items.push(item);
            assert(input_paths(items@) =~= input_paths(before).push(found@[i as int]@));
        }
        i += 1;
    }
    items
}

/// Calls `GlobBuilder::new`, `case_insensitive`, `build`, `Glob::compile_matcher`
/// and `GlobMatcher::is_match` of globset. Believed of them: whether the glob
/// is taken and whether it matches depend on the three arguments alone, and
/// the photo glob compiles.
#[verifier::external_body]
fn glob_is_match(pattern: &str, ignore_case: bool, path: &str) -> (matched: Option<bool>)
    requires
        pattern@ == PHOTO_GLOB@,
    ensures
        matched == glob_match(pattern@, ignore_case, path@),
{
    match globset::GlobBuilder::new(pattern).case_insensitive(ignore_case).build() {
        Ok(glob) => Some(glob.compile_matcher().is_match(path)),
        Err(_) => None,
    }
}

} // verus!
