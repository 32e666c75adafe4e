//! The layer that installs Ruby, keyed by the stack and the Ruby version.

use vstd::prelude::*;

verus! {

/// The persisted metadata of the Ruby install layer: the stack the archive
/// was built for and the Ruby version it holds.
#[derive(Debug, Clone)]
pub struct RubyInstallLayerMetadata {
    pub stack: String,
    pub version: String,
}

/// What changed between two builds of the Ruby install layer, checked in
/// order: the stack first, then the Ruby version.
#[derive(Debug)]
pub enum Changed {
    /// Nothing cache-relevant changed; carries the unchanged version.
    Nothing(String),
    /// The stack changed; carries old and new.
    Stack(String, String),
    /// The Ruby version changed; carries old and new.
    RubyVersion(String, String),
}

/// Compares old and new metadata of the Ruby install layer.
pub fn cache_state(old: RubyInstallLayerMetadata, now: RubyInstallLayerMetadata) -> (r: Changed)
    ensures
        old.stack@ != now.stack@ ==> (r matches Changed::Stack(o, n) && o@ == old.stack@ && n@
            == now.stack@),
        old.stack@ == now.stack@ && old.version@ != now.version@ ==> (r matches
            Changed::RubyVersion(o, n) && o@ == old.version@ && n@ == now.version@),
        old.stack@ == now.stack@ && old.version@ == now.version@ ==> (r matches Changed::Nothing(
            v,
        ) && v@ == now.version@),
{
    let RubyInstallLayerMetadata { stack, version } = now;
    if !old.stack.eq(&stack) {
        Changed::Stack(old.stack, stack)
    } else if !old.version.eq(&version) {
        Changed::RubyVersion(old.version, version)
    } else {
        Changed::Nothing(version)
    }
}

} // verus!
