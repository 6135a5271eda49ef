//! Where the runtime may be installed, seen from the launcher's own place.
//!
//! Paths are held as text. Joining a path and a name, and taking a path's
//! parent, are left to `std::path`; what they return is named here, and the
//! contracts of this module speak of those names.

use vstd::prelude::*;

verus! {

/// The path that `std::path::Path::join` makes of `base` and `name`. It
/// depends on the two texts alone; the separator between them is the one of
/// the platform that the library is built for.
pub uninterp spec fn joined_path(base: Seq<char>, name: Seq<char>) -> Seq<char>;

/// The parent that `std::path::Path::parent` finds for `path`, if it finds one.
pub uninterp spec fn parent_path(path: Seq<char>) -> Option<Seq<char>>;

/// The text that `{:?}` writes for `path` as a `std::path::Path`: the path in
/// double quotes, with what needs an escape escaped.
pub uninterp spec fn quoted_path(path: Seq<char>) -> Seq<char>;

/// Calls `std::path::Path::join` on `base` with `name`. The contract only
/// gives the result its name, `joined_path`.
#[verifier::external_body]
pub(crate) fn join(base: &str, name: &str) -> (joined: String)
    ensures
        joined@ == joined_path(base@, name@),
{
    std::path::Path::new(base).join(name).to_string_lossy().into_owned()
}

/// Calls `std::path::Path::parent` on `path`. The contract only gives the
/// result its name, `parent_path`.
#[verifier::external_body]
pub(crate) fn parent(path: &str) -> (up: Option<String>)
    ensures
        up.deep_view() == parent_path(path@),
{
    match std::path::Path::new(path).parent() {
        Some(dir) => Some(dir.to_string_lossy().into_owned()),
        None => None,
    }
}

/// Formats `path` as a `std::path::Path` with `{:?}`. The contract only gives
/// the result its name, `quoted_path`.
#[verifier::external_body]
pub(crate) fn quote(path: &str) -> (text: String)
    ensures
        text@ == quoted_path(path@),
{
    format!("{:?}", std::path::Path::new(path))
}

/// The name of the directory that holds the runtime.
pub const BACKEND_NAME: &'static str = "backend";

/// The name of the directory that an installed layout puts the runtime under.
pub const RESOURCES_NAME: &'static str = "resources";

/// The path that stands for a launcher whose own location is unknown.
pub const UNKNOWN_LOCATION: &'static str = ".";

/// The directory of the launcher at `executable`: its parent, or the current
/// directory where it has none.
pub open spec fn directory_of(executable: Seq<char>) -> Seq<char> {
    match parent_path(executable) {
        Some(dir) => dir,
        None => UNKNOWN_LOCATION@,
    }
}

/// The directory one level above `directory`, or `directory` itself where
/// nothing is above it.
pub open spec fn level_up(directory: Seq<char>) -> Seq<char> {
    match parent_path(directory) {
        Some(dir) => dir,
        None => directory,
    }
}

/// The runtime's place under `root` in an installed layout.
pub open spec fn installed_layout(root: Seq<char>) -> Seq<char> {
    joined_path(joined_path(root, RESOURCES_NAME@), BACKEND_NAME@)
}

/// The runtime's place under `root` in a flat layout.
pub open spec fn flat_layout(root: Seq<char>) -> Seq<char> {
    joined_path(root, BACKEND_NAME@)
}

/// The candidates for the runtime's directory, the likeliest first: the
/// installed and the flat layout beside the launcher, then the same two one
/// level up.
pub open spec fn candidate_paths(directory: Seq<char>) -> Seq<Seq<char>> {
    seq![
        installed_layout(directory),
        flat_layout(directory),
        installed_layout(level_up(directory)),
        flat_layout(level_up(directory)),
    ]
}

/// The number of candidates that `candidate_paths` lists.
pub const CANDIDATE_COUNT: usize = 4;

/// Whether `index` is the first position of `found` that holds `true`.
pub open spec fn is_first_found(found: Seq<bool>, index: int) -> bool {
    &&& 0 <= index < found.len()
    &&& found[index]
    &&& forall|j: int| 0 <= j < index ==> !found[j]
}

/// The first position of `found` that holds `true`, if there is one.
pub open spec fn first_found(found: Seq<bool>) -> Option<int> {
    if exists|i: int| is_first_found(found, i) {
        Some(choose|i: int| is_first_found(found, i))
    } else {
        None
    }
}

/// At most one position is the first that holds `true`.
pub proof fn first_found_is_unique(found: Seq<bool>, i: int, j: int)
    requires
        is_first_found(found, i),
        is_first_found(found, j),
    ensures
        i == j,
{
}

/// The directory of the launcher at `executable`.
pub fn executable_directory(executable: &str) -> (directory: String)
    ensures
        directory@ == directory_of(executable@),
{
    match parent(executable) {
        Some(dir) => dir,
        None => String::from_str(UNKNOWN_LOCATION),
    }
}

/// The candidates for the runtime's directory, seen from the launcher's
/// directory, in the order in which they are to be tried.
pub fn candidate_backend_paths(directory: &str) -> (candidates: Vec<String>)
    ensures
        candidates.deep_view() == candidate_paths(directory@),
        candidates.len() == CANDIDATE_COUNT,
{
    let above = match parent(directory) {
        Some(dir) => dir,
        None => String::from_str(directory),
    };
    let mut candidates: Vec<String> = Vec::new();
    candidates.push(join(join(directory, RESOURCES_NAME).as_str(), BACKEND_NAME));
    candidates.push(join(directory, BACKEND_NAME));
    candidates.push(join(join(above.as_str(), RESOURCES_NAME).as_str(), BACKEND_NAME));
    candidates.push(join(above.as_str(), BACKEND_NAME));
    assert(candidates.deep_view() =~= candidate_paths(directory@));
    candidates
}

/// The candidate to settle on, given for each candidate whether it exists:
/// the first that exists, whatever follows it.
pub fn first_existing(found: &Vec<bool>) -> (choice: Option<usize>)
    ensures
        match choice {
            Some(index) => is_first_found(found@, index as int),
            None => forall|j: int| 0 <= j < found.len() ==> !found@[j],
        },
        choice.is_some() == first_found(found@).is_some(),
        choice matches Some(index) ==> first_found(found@) == Some(index as int),
{
    let mut index: usize = 0;
    while index < found.len()
        invariant
            index <= found.len(),
            forall|j: int| 0 <= j < index ==> !found@[j],
        decreases found.len() - index,
    {
        if found[index] {
            proof {
                assert(is_first_found(found@, index as int));
                let chosen = choose|i: int| is_first_found(found@, i);
                first_found_is_unique(found@, chosen, index as int);
            }
            return Some(index);
        }
        index += 1;
    }
    None
}

/// The directory in which the runtime is to be started: the parent of its
/// own directory. `None` where `backend` has no parent.
pub fn working_directory(backend: &str) -> (directory: Option<String>)
    ensures
        directory.deep_view() == parent_path(backend@),
{
    parent(backend)
}

} // verus!
