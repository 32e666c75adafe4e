//! The layer that holds installed gems, keyed by the Ruby version.

use vstd::prelude::*;
use crate::cache_buddy::Disposition;

verus! {

/// Creates the bundle path layer; its cached contents are reused for as long
/// as the Ruby version stays the same.
pub struct CreateBundlePathLayer {
    pub ruby_version: String,
}

/// The persisted metadata of the bundle path layer.
#[derive(Debug, Clone)]
pub struct CreateBundlePathMetadata {
    ruby_version: String,
}

impl CreateBundlePathMetadata {
    pub fn new(ruby_version: String) -> (r: Self)
        ensures
            r.version_spec() == ruby_version@,
    {
        CreateBundlePathMetadata { ruby_version }
    }

    /// The Ruby version the cached gems were installed under.
    pub closed spec fn version_spec(&self) -> Seq<char> {
        self.ruby_version@
    }
}

impl CreateBundlePathLayer {
    /// The metadata written for this layer.
    pub fn metadata(&self) -> (r: CreateBundlePathMetadata)
        ensures
            r.version_spec() == self.ruby_version@,
    {
        CreateBundlePathMetadata::new(self.ruby_version.clone())
    }

    /// Keeps an existing layer exactly when the Ruby version is unchanged.
    pub fn existing_layer_strategy(&self, old: &CreateBundlePathMetadata) -> (r: Disposition)
        ensures
            r == Disposition::Keep <==> self.ruby_version@ == old.version_spec(),
    {
        if self.ruby_version.eq(&old.ruby_version) {
            Disposition::Keep
        } else {
            Disposition::Recreate
        }
    }
}

} // verus!
