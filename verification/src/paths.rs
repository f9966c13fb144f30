//! Where the client finds its data files: next to the crate's directory.

use vstd::prelude::*;

verus! {

/// What `std::path::Path::parent` gives for the path `path`: the path
/// without its final component, or `None`.
pub uninterp spec fn std_path_parent(path: Seq<char>) -> Option<Seq<char>>;

/// What `std::path::Path::join` gives for `base` joined with `path`.
pub uninterp spec fn std_path_join(base: Seq<char>, path: Seq<char>) -> Seq<char>;

/// `std::path::Path::parent` on `path`, the result written back as text
/// (lossless, since it is a piece of a `str`). The contract ties the result
/// to `std_path_parent` and states what the documentation says of the empty
/// path: it has no parent. How components are split is left unsaid.
#[verifier::external_body]
fn path_parent(path: &str) -> (r: Option<String>)
    ensures
        match r {
            Some(p) => std_path_parent(path@) == Some(p@),
            None => std_path_parent(path@) is None,
        },
        path@.len() == 0 ==> r is None,
{
    match std::path::Path::new(path).parent() {
        Some(p) => Some(p.to_string_lossy().into_owned()),
        None => None,
    }
}

/// What `std::path::Path::is_absolute` gives for `path`.
pub uninterp spec fn std_path_is_absolute(path: Seq<char>) -> bool;

/// `std::path::Path::is_absolute` on `path`. The contract only ties the
/// answer to the name `std_path_is_absolute`; the platform's rule is left
/// unsaid.
#[verifier::external_body]
fn path_is_absolute(path: &str) -> (b: bool)
    ensures
        b == std_path_is_absolute(path@),
{
    std::path::Path::new(path).is_absolute()
}

/// Whether `path` is absolute, as `std::path::Path` judges it: an absolute
/// data-file path is used as it is by `resolve_csv_path`.
pub fn is_absolute_path(path: &str) -> (b: bool)
    ensures
        b == std_path_is_absolute(path@),
{
    path_is_absolute(path)
}

/// `std::path::Path::join` of `base` and `path`, written back as text
/// (lossless, since both are `str`). The contract ties the result to the
/// name `std_path_join` and states what the documentation says of an
/// absolute `path`: it replaces the base. The separator rules are left
/// unsaid.
#[verifier::external_body]
fn path_join(base: &str, path: &str) -> (r: String)
    ensures
        r@ == std_path_join(base@, path@),
        std_path_is_absolute(path@) ==> r@ == path@,
{
    std::path::Path::new(base).join(path).to_string_lossy().into_owned()
}

/// The directory above `crate_dir`, or `.` when it has none.
pub open spec fn workspace_root(crate_dir: Seq<char>) -> Seq<char> {
    match std_path_parent(crate_dir) {
        Some(p) => p,
        None => seq!['.'],
    }
}

/// The path of a data file of the workspace: `file_path` under the parent
/// of the crate directory `crate_dir` (under `.` when it has no parent).
pub fn resolve_csv_path(crate_dir: &str, file_path: &str) -> (r: String)
    ensures
        r@ == std_path_join(workspace_root(crate_dir@), file_path@),
        std_path_is_absolute(file_path@) ==> r@ == file_path@,
{
    proof {
        reveal_strlit(".");
    }
    let root = match path_parent(crate_dir) {
        Some(p) => p,
        None => {
            let mut dot = String::new();
            dot.append(".");
            dot
        },
    };
    assert("."@ =~= seq!['.']);
    path_join(root.as_str(), file_path)
}

} // verus!
