//! The host's version, split into its semantic parts.

use vstd::prelude::*;

verus! {

/// A semantic version: the full rendering plus its numeric parts and an
/// optional pre-release label.
#[derive(Debug)]
pub struct Version {
    pub full: String,
    pub major: u32,
    pub minor: u32,
    pub patch: u32,
    pub pre: Option<String>,
}

impl Version {
    pub fn new(full: String, major: u32, minor: u32, patch: u32, pre: Option<String>) -> (r:
        Version)
        ensures
            r.full == full,
            r.major == major,
            r.minor == minor,
            r.patch == patch,
            r.pre == pre,
    {
        Version { full, major, minor, patch, pre }
    }

    /// The full rendering; what display layers print.
    pub fn render(&self) -> (r: String)
        ensures
            r@ == self.full@,
    {
        self.full.clone()
    }
}

} // verus!
