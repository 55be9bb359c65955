//! Resolved Node versions as this layer consumes them: either a structured
//! semantic version or an opaque named channel.

use vstd::prelude::*;

verus! {

/// A structured semantic version.
#[derive(Clone, Copy, Debug, PartialEq, Eq, Structural)]
pub struct Semver {
    pub major: u64,
    pub minor: u64,
    pub patch: u64,
}

impl Semver {
    pub fn new(major: u64, minor: u64, patch: u64) -> (r: Semver)
        ensures
            r.major == major,
            r.minor == minor,
            r.patch == patch,
    {
        Semver { major, minor, patch }
    }
}

/// A version value already reduced by the caller: a structured semantic
/// version, or a named channel reference such as an alias or an LTS name.
#[derive(Clone, Debug)]
pub enum Version {
    Semver(Semver),
    Named(String),
}

} // verus!
