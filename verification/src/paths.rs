//! Derivation of the log file's location: a fixed application folder
//! under the platform's per-user data directory, with a fixed file name.
//! The caller resolves the data directory and touches the filesystem;
//! only the path arithmetic lives here.

use vstd::prelude::*;
use vstd::string::StringExecFns;

verus! {

/// The log directory under the per-user data directory `base`.
pub open spec fn log_dir_of(base: Seq<char>) -> Seq<char> {
    base + "/"@ + "shitternet"@
}

/// The full log file path under the per-user data directory `base`.
pub open spec fn log_path_of(base: Seq<char>) -> Seq<char> {
    log_dir_of(base) + "/"@ + "up_down.log"@
}

/// The directory the log file lives in, to be created once when absent.
pub fn log_dir_path(base: &str) -> (r: String)
    ensures
        r@ == log_dir_of(base@),
{
    let mut s = String::from_str(base);
    s.append("/");
    s.append("shitternet");
    s
}

/// Where the log file lives, derived once at startup.
pub fn log_file_path(base: &str) -> (r: String)
    ensures
        r@ == log_path_of(base@),
{
    let mut s = log_dir_path(base);
    s.append("/");
    s.append("up_down.log");
    s
}

} // verus!
