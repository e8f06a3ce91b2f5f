//! The backend the unit tests exercise.
//!
//! In the deployed plugin the backend is a separately compiled library,
//! resolved at link time by the unmangled symbols `api_version` and
//! `api_signin`; the exported entry points declare and call those symbols.
//! The test suite links no such library: it runs against this backend, whose
//! version identifier carries a leading `V` — deliberately different from the
//! literal the bridge's own `version` entry point reports, so a test can tell
//! the two apart.

use vstd::prelude::*;

verus! {

/// The version identifier this backend reports for itself.
pub fn api_version() -> (r: String)
    ensures
        r@ == "V1.0.0"@,
{
    "V1.0.0".to_owned()
}

} // verus!
