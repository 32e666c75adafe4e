//! The layer that installs the metrics agent, keyed by its download URL.

use vstd::prelude::*;
use crate::cache_buddy::Disposition;

verus! {

/// The persisted metadata of the metrics agent layer: where the installed
/// agent was downloaded from, when that is known.
#[derive(Debug, Clone)]
pub struct Metadata {
    pub download_url: Option<String>,
}

/// Keeps an existing layer exactly when it was installed from the wanted
/// URL; metadata without a URL always recreates.
pub fn existing_layer_strategy(old: &Metadata, wanted_url: &String) -> (r: Disposition)
    ensures
        r == Disposition::Keep <==> (old.download_url matches Some(url) && url@ == wanted_url@),
{
    match &old.download_url {
        Some(url) => {
            if url.eq(wanted_url) {
                Disposition::Keep
            } else {
                Disposition::Recreate
            }
        },
        None => Disposition::Recreate,
    }
}

} // verus!
