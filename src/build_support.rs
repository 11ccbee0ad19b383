use vstd::prelude::*;
use vstd::string::StringExecFns;

verus! {

/// Helper for the build script: formats the directives that Cargo reads from
/// the script's standard output.
pub struct Build;

impl Build {
    pub fn new() -> (r: Build) {
        Build
    }

    /// The line that makes Cargo show `msg` as a warning.
    pub fn warn(&self, msg: &str) -> (r: String)
        ensures
            r@ == "cargo::warning="@ + msg@,
    {
        String::from_str("cargo::warning=").concat(msg)
    }

    /// The line that makes Cargo fail the build with `msg`.
    pub fn error(&self, msg: &str) -> (r: String)
        ensures
            r@ == "cargo::error="@ + msg@,
    {
        String::from_str("cargo::error=").concat(msg)
    }
}

} // verus!
