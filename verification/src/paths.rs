//! Resolving a request path against the configured root directory, and
//! validating the root directory argument at startup.

use vstd::prelude::*;
use vstd::string::StringExecFns;

verus! {

/// The resolved filesystem path: the root directory and the request path,
/// joined with the path separator. No normalization is applied.
pub open spec fn joined_path(root: Seq<char>, req_path: Seq<char>) -> Seq<char> {
    root + "/"@ + req_path
}

/// Joins the configured root directory with a request path into a single
/// candidate filesystem path. Pure; performs no normalization and rejects
/// no `..` segments.
pub fn resolve_path(root: &str, req_path: &str) -> (r: String)
    ensures
        r@ == joined_path(root@, req_path@),
{
    let mut r = String::new();
    r.append(root);
    r.append("/");
    r.append(req_path);
    proof {
        assert(r@ =~= joined_path(root@, req_path@));
    }
    r
}

/// Decides whether a root directory argument is acceptable: it must exist
/// and be a directory. The caller supplies what the filesystem reported of
/// the path — whether it exists and whether it is a directory — and the
/// path is accepted exactly when both hold.
pub fn verify_path(path: &str, exists: bool, is_dir: bool) -> (r: Result<String, &'static str>)
    ensures
        r is Ok <==> exists && is_dir,
        r is Ok ==> r->Ok_0@ == path@,
        r is Err ==> r->Err_0@ == "Path does not exist or is not a directory"@,
{
    if exists && is_dir {
        Ok(String::from_str(path))
    } else {
        Err("Path does not exist or is not a directory")
    }
}

} // verus!
