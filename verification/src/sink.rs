//! Where a task's captured output goes.
//!
//! Each processed file owns one result directory under the destination
//! root, named after the file, holding the two capture artifacts `out` and
//! `err`. The paths are derived here; creating the directory and the files
//! is the caller's business.
use vstd::prelude::*;

verus! {

/// The per-file result location: the directory and its two artifacts.
pub struct ResultLocation {
    /// `<destination root>/<file name>`.
    pub dir: String,
    /// `<dir>/out`: the capture of the process's standard output.
    pub out_path: String,
    /// `<dir>/err`: the capture of the process's standard error.
    pub err_path: String,
}

/// The result location for one source file: the file's own name names a
/// directory under the destination root, and the two artifact paths lie
/// directly inside it. Derivation is deterministic, so a second run with
/// the same configuration reaches the same two paths.
pub fn result_location(destination_root: &str, file_name: &str) -> (r: ResultLocation)
    ensures
        r.dir@ == destination_root@ + "/"@ + file_name@,
        r.out_path@ == r.dir@ + "/out"@,
        r.err_path@ == r.dir@ + "/err"@,
{
    let mut dir = destination_root.to_owned();
    dir.append("/");
    dir.append(file_name);
    let mut out_path = dir.clone();
    out_path.append("/out");
    let mut err_path = dir.clone();
    err_path.append("/err");
    ResultLocation { dir, out_path, err_path }
}

} // verus!
