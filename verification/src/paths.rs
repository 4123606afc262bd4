use vstd::prelude::*;

use normalize_path::NormalizePath;

verus! {

/// What `normalize_path` makes of a path: `.` and `..` folded away and
/// redundant separators dropped, without looking at the file system.
pub uninterp spec fn normalized_path(path: Seq<char>) -> Seq<char>;

/// Whether std's `Path::is_absolute` holds of a path.
pub uninterp spec fn path_is_absolute(path: Seq<char>) -> bool;

/// What std's `Path::join` makes of a base and a path.
pub uninterp spec fn joined_path(base: Seq<char>, path: Seq<char>) -> Seq<char>;

/// Calls `normalize_path::NormalizePath::normalize` on the path; the result
/// is named by [`normalized_path`].
#[verifier::external_body]
fn normalize(path: &str) -> (r: String)
    ensures
        r@ == normalized_path(path@),
{
    std::path::Path::new(path).normalize().to_string_lossy().into_owned()
}

/// Calls std's `Path::is_absolute`; the result is named by
/// [`path_is_absolute`].
#[verifier::external_body]
fn is_absolute(path: &str) -> (r: bool)
    ensures
        r == path_is_absolute(path@),
{
    std::path::Path::new(path).is_absolute()
}

/// Calls std's `Path::join`; the result is named by [`joined_path`].
#[verifier::external_body]
fn join(base: &str, path: &str) -> (r: String)
    ensures
        r@ == joined_path(base@, path@),
{
    std::path::Path::new(base).join(path).to_string_lossy().into_owned()
}

/// The file that the run command runs, for `path` given in the directory
/// `cwd`: an absolute path normalized, a relative one joined to `cwd` and
/// normalized twice.
pub open spec fn run_entry(cwd: Seq<char>, path: Seq<char>) -> Seq<char> {
    if path_is_absolute(path) {
        normalized_path(path)
    } else {
        normalized_path(normalized_path(joined_path(cwd, path)))
    }
}

/// A file of the test command, for `file` given in the directory `cwd`: an
/// absolute path normalized, a relative one joined to `cwd` and normalized.
pub open spec fn test_entry(cwd: Seq<char>, file: Seq<char>) -> Seq<char> {
    if path_is_absolute(file) {
        normalized_path(file)
    } else {
        normalized_path(joined_path(cwd, file))
    }
}

/// The file that the run command runs.
pub fn resolve_run_entry(cwd: &str, path: &str) -> (r: String)
    ensures
        r@ == run_entry(cwd@, path@),
{
    let entry = if is_absolute(path) {
        String::from_str(path)
    } else {
        let joined = join(cwd, path);
        normalize(joined.as_str())
    };
    normalize(entry.as_str())
}

/// The files of the test command, in order.
pub fn resolve_test_entries(cwd: &str, files: &Vec<String>) -> (r: Vec<String>)
    ensures
        r@.len() == files@.len(),
        forall|i: int| 0 <= i < files@.len() ==> (#[trigger] r@[i])@ == test_entry(cwd@, files@[i]@),
{
    let mut entries: Vec<String> = Vec::new();
    let mut i: usize = 0;
    while i < files.len()
        invariant
            i <= files@.len(),
            entries@.len() == i,
            forall|j: int| 0 <= j < i ==> (#[trigger] entries@[j])@ == test_entry(cwd@, files@[j]@),
        decreases files@.len() - i,
    {
        let file = files[i].as_str();
        if is_absolute(file) {
            entries.push(normalize(file));
        } else {
            let joined = join(cwd, file);
            entries.push(normalize(joined.as_str()));
        }
        i = i + 1;
    }
    entries
}

} // verus!
