use crate::error::ResourceError;
use vstd::prelude::*;

verus! {

/// A source of raw bytes by path: the mounted virtual filesystems.
pub trait Filesystem {
    /// Whether `path` can be read.
    fn has_path(&self, path: &str) -> bool;

    /// Appends the bytes stored at `path` to `buf`.
    fn load_into(&self, path: &str, buf: &mut Vec<u8>) -> Result<(), ResourceError>;
}

/// Decodes the bytes of a resource of the type registered as `ty`.
pub trait ResourceParser<V> {
    fn parse(&self, ty: u64, bytes: &[u8]) -> Result<V, ResourceError>;
}

/// A second stage that builds a dependent resource from a parsed one.
pub trait ExternalResourceSystem<V> {
    /// What the caller hands to each transform.
    type Options;

    /// Builds the dependent resource of `path` from its parsed `base`.
    fn load(&mut self, path: &str, base: &V, options: Self::Options) -> Result<V, ResourceError>;

    /// Drops whatever this system no longer needs.
    fn unload_unused(&mut self);
}

} // verus!
