//! Desktop-application bootstrapper core: computes the platform-specific
//! path of a bundled backend executable, builds a launch specification for
//! it, and decides what to do when the application window closes (one
//! best-effort HTTP shutdown request to the backend).
//!
//! All I/O (resolving the running executable's path, spawning the child
//! process, performing the HTTP request) is left to the surrounding
//! application shell; this crate holds the decisions and the strings.

use vstd::prelude::*;

pub mod launch;
pub mod paths;
pub mod shutdown;

verus! {

/// Compares two string slices for equality of their character sequences.
pub fn str_eq(a: &str, b: &str) -> (r: bool)
    ensures
        r == (a@ == b@),
{
    let x: String = a.to_owned();
    let y: String = b.to_owned();
    x == y
}

} // verus!
