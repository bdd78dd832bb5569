//! The managed directory layout, derived from the user's home directory,
//! and the path computations the dispatcher makes over it.
//!
//! Reading the home directory and touching the filesystem belong to the
//! surrounding program; everything here computes paths as plain strings.

use vstd::prelude::*;

use crate::strutil::{concat2, concat3, str_eq};

verus! {

/// `base` and `name` joined with a single path separator.
pub open spec fn spec_path_join(base: Seq<char>, name: Seq<char>) -> Seq<char> {
    base + "/"@ + name
}

/// Join one path component onto a base path.
pub fn path_join(base: &str, name: &str) -> (r: String)
    ensures
        r@ == spec_path_join(base@, name@),
{
    concat3(base, "/", name)
}

/// The managed configuration directory under the given home directory.
pub fn get_ozy_dir(home: &str) -> (r: String)
    ensures
        r@ == home@ + "/.ozy"@,
{
    concat2(home, "/.ozy")
}

/// The managed binary directory, inside the configuration directory.
pub fn get_ozy_bin_dir(home: &str) -> (r: String)
    ensures
        r@ == home@ + "/.ozy"@ + "/"@ + "bin"@,
{
    let dir = get_ozy_dir(home);
    path_join(dir.as_str(), "bin")
}

/// The installation cache directory under the given home directory.
pub fn get_ozy_cache_dir(home: &str) -> (r: String)
    ensures
        r@ == home@ + "/.cache/ozy"@,
{
    concat2(home, "/.cache/ozy")
}

/// The managed directories, in the order the `clean` operation removes
/// them: configuration directory, binary directory, cache directory.
pub fn delete_ozy_dirs(home: &str) -> (r: Vec<String>)
    ensures
        r@.len() == 3,
        r@[0]@ == home@ + "/.ozy"@,
        r@[1]@ == home@ + "/.ozy"@ + "/"@ + "bin"@,
        r@[2]@ == home@ + "/.cache/ozy"@,
{
    let mut v: Vec<String> = Vec::new();
    v.push(get_ozy_dir(home));
    v.push(get_ozy_bin_dir(home));
    v.push(get_ozy_cache_dir(home));
    v
}

/// Whether the managed binary directory is one of the searched path
/// entries; both sides are expected in canonical form.
pub fn check_path(ozy_bin_dir: &str, path_entries: &Vec<String>) -> (r: bool)
    ensures
        r == exists|i: int| 0 <= i < path_entries@.len() && (#[trigger] path_entries@[i])@
            == ozy_bin_dir@,
{
    let n = path_entries.len();
    let mut i: usize = 0;
    while i < n
        invariant
            n == path_entries@.len(),
            i <= n,
            forall|j: int| 0 <= j < i ==> (#[trigger] path_entries@[j])@ != ozy_bin_dir@,
        decreases n - i,
    {
        if str_eq(path_entries[i].as_str(), ozy_bin_dir) {
            return true;
        }
        i = i + 1;
    }
    false
}

} // verus!
