//! What is read from a package's own manifest.

use vstd::prelude::*;

verus! {

/// The declarations of one package that the session may have to fall back
/// on, as parsed from its manifest.
#[derive(Debug, Clone, Copy)]
pub struct Manifest {
    /// Whether the package may be published. `false` only where the manifest
    /// forbids it outright.
    pub publish: bool,
}

impl Manifest {
    pub fn new(publish: bool) -> (manifest: Manifest)
        ensures
            manifest.publish == publish,
    {
        Manifest { publish }
    }
}

} // verus!
