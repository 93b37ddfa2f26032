//! Start-up settings for the bundled image library.

use vstd::prelude::*;

verus! {

/// The program search path with the bundled library folder `bin_dir` put in front of
/// the current search path `current`, separated by `;`.
pub fn search_path_with(bin_dir: &str, current: &str) -> (r: String)
    ensures
        r@ == bin_dir@ + ";"@ + current@,
{
    let mut r = String::from_str(bin_dir);
    r.append(";");
    r.append(current);
    r
}

} // verus!
