//! The cache-invalidation interface.
//!
//! A metadata schema decides for itself which of its fields are cache
//! relevant and how they are compared; the engine only asks for the list of
//! human-readable differences and keeps the cache exactly when that list is
//! empty.

use vstd::prelude::*;

verus! {

/// Field-level comparison of two values of one metadata schema.
///
/// `diff` is a pure function of the two values, stated over their views. The
/// returned strings are used for display and for the emptiness check only: an
/// empty list is the one and only signal that nothing cache-relevant changed.
pub trait CacheDiff: Sized + View {
    /// What `diff` returns, as a mathematical value over the two views.
    spec fn diff_spec(new: Self::V, old: Self::V) -> Seq<Seq<char>>;

    /// The differences between `self` (the fresh value) and `old` (the value
    /// restored from the previous build), one line per changed aspect.
    fn diff(&self, old: &Self) -> (r: Vec<String>)
        ensures
            r.deep_view() == Self::diff_spec(self@, old@),
    ;

    /// A value never differs from itself.
    proof fn diff_self_empty(v: Self::V)
        ensures
            Self::diff_spec(v, v).len() == 0,
    ;
}

/// Diffing a value against itself reports no change, whatever the schema.
pub proof fn lemma_diff_idempotent<M: CacheDiff>(m: &M)
    ensures
        M::diff_spec(m@, m@).len() == 0,
{
    M::diff_self_empty(m@);
}

} // verus!
