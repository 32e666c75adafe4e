//! The migration resolver.
//!
//! Raw persisted text is first read as the target schema itself; when that
//! fails, the schema's registered chain of historical shapes is walked, each
//! shape being read and then converted forward step by step. Exactly one of
//! four outcomes is produced: the direct read succeeded, a chain migration
//! succeeded, a conversion step refused, or nothing in the chain matched.
//!
//! The outcome of resolving a given text is stated over views: what a schema
//! value is as a mathematical object. The `*Spec` enums below carry those
//! views; their executable counterparts carry the values.

use vstd::prelude::*;

verus! {

/// Why one conversion step of a migration chain refused; display-ready.
#[derive(Debug, Clone)]
pub struct MigrationError {
    pub message: String,
}

impl MigrationError {
    pub fn new(message: String) -> (r: Self)
        ensures
            r.message == message,
    {
        MigrationError { message }
    }
}

/// What walking the historical chain alone (without the direct read of the
/// target schema) yields.
pub enum ChainOutcome<M> {
    /// A historical shape matched and every conversion step accepted.
    Migrated(M),
    /// A historical shape matched but a conversion step refused.
    Rejected(MigrationError),
    /// No historical shape matched the raw text.
    NoMatch,
}

/// `ChainOutcome`, over views: the migrated value as its view, the rejection
/// as the text of its message.
pub enum ChainOutcomeSpec<V> {
    Migrated(V),
    Rejected(Seq<char>),
    NoMatch,
}

/// The four outcomes of resolving raw persisted text against a schema.
pub enum MigrationOutcome<M> {
    /// The raw text read directly as the target schema.
    DirectSuccess(M),
    /// A historical shape matched and was converted to the target schema.
    MigratedSuccess(M),
    /// A conversion step refused; the error is display-ready.
    MigrationFailure(MigrationError),
    /// Nothing in the chain matched the raw text.
    Unparseable,
}

/// `MigrationOutcome`, over views.
pub enum MigrationOutcomeSpec<V> {
    DirectSuccess(V),
    MigratedSuccess(V),
    MigrationFailure(Seq<char>),
    Unparseable,
}

/// The view of an optional value.
pub open spec fn option_view<M: View>(r: Option<M>) -> Option<M::V> {
    match r {
        Some(v) => Some(v@),
        None => None,
    }
}

/// The view of a chain outcome.
pub open spec fn chain_outcome_view<M: View>(r: ChainOutcome<M>) -> ChainOutcomeSpec<M::V> {
    match r {
        ChainOutcome::Migrated(v) => ChainOutcomeSpec::Migrated(v@),
        ChainOutcome::Rejected(e) => ChainOutcomeSpec::Rejected(e.message@),
        ChainOutcome::NoMatch => ChainOutcomeSpec::NoMatch,
    }
}

/// The view of a resolver outcome.
pub open spec fn migration_outcome_view<M: View>(r: MigrationOutcome<M>) -> MigrationOutcomeSpec<
    M::V,
> {
    match r {
        MigrationOutcome::DirectSuccess(v) => MigrationOutcomeSpec::DirectSuccess(v@),
        MigrationOutcome::MigratedSuccess(v) => MigrationOutcomeSpec::MigratedSuccess(v@),
        MigrationOutcome::MigrationFailure(e) => MigrationOutcomeSpec::MigrationFailure(e.message@),
        MigrationOutcome::Unparseable => MigrationOutcomeSpec::Unparseable,
    }
}

/// A schema that can be read from raw persisted text, directly or through its
/// chain of historical shapes.
pub trait TryMigrate: Sized + View {
    /// What reading the raw text directly as this schema yields, over views.
    spec fn parse_spec(input: Seq<char>) -> Option<Self::V>;

    /// What walking this schema's historical chain yields; a chain start has
    /// no history and always yields `ChainOutcomeSpec::NoMatch`.
    spec fn chain_spec(input: Seq<char>) -> ChainOutcomeSpec<Self::V>;

    /// Reads the raw text directly as this schema.
    fn try_parse(input: &str) -> (r: Option<Self>)
        ensures
            option_view(r) == Self::parse_spec(input@),
    ;

    /// Walks this schema's historical chain.
    fn resolve_chain(input: &str) -> (r: ChainOutcome<Self>)
        ensures
            chain_outcome_view(r) == Self::chain_spec(input@),
    ;

    /// An exact copy of the value.
    fn clone_value(&self) -> (r: Self)
        ensures
            r == *self,
    ;
}

/// The outcome of resolving `input` against schema `M`: the direct read when
/// it succeeds, the chain's outcome otherwise. The direct path is always
/// preferred; when it succeeds the chain does not enter into the result.
pub open spec fn resolve_spec<M: TryMigrate>(input: Seq<char>) -> MigrationOutcomeSpec<M::V> {
    match M::parse_spec(input) {
        Some(v) => MigrationOutcomeSpec::DirectSuccess(v),
        None => match M::chain_spec(input) {
            ChainOutcomeSpec::Migrated(v) => MigrationOutcomeSpec::MigratedSuccess(v),
            ChainOutcomeSpec::Rejected(e) => MigrationOutcomeSpec::MigrationFailure(e),
            ChainOutcomeSpec::NoMatch => MigrationOutcomeSpec::Unparseable,
        },
    }
}

/// Resolves raw persisted text against schema `M`.
pub fn resolve<M: TryMigrate>(input: &str) -> (r: MigrationOutcome<M>)
    ensures
        migration_outcome_view(r) == resolve_spec::<M>(input@),
{
    match M::try_parse(input) {
        Some(v) => MigrationOutcome::DirectSuccess(v),
        None => match M::resolve_chain(input) {
            ChainOutcome::Migrated(v) => MigrationOutcome::MigratedSuccess(v),
            ChainOutcome::Rejected(e) => MigrationOutcome::MigrationFailure(e),
            ChainOutcome::NoMatch => MigrationOutcome::Unparseable,
        },
    }
}

/// Resolving as an optional result: `None` when nothing in the chain matched,
/// otherwise the migrated value or the conversion error.
pub fn try_from_str_migrations<M: TryMigrate>(input: &str) -> (r: Option<
    Result<M, MigrationError>,
>)
    ensures
        match resolve_spec::<M>(input@) {
            MigrationOutcomeSpec::DirectSuccess(v) => r matches Some(Ok(m)) && m@ == v,
            MigrationOutcomeSpec::MigratedSuccess(v) => r matches Some(Ok(m)) && m@ == v,
            MigrationOutcomeSpec::MigrationFailure(e) => r matches Some(Err(err)) && err.message@
                == e,
            MigrationOutcomeSpec::Unparseable => r is None,
        },
{
    match resolve::<M>(input) {
        MigrationOutcome::DirectSuccess(v) => Some(Ok(v)),
        MigrationOutcome::MigratedSuccess(v) => Some(Ok(v)),
        MigrationOutcome::MigrationFailure(e) => Some(Err(e)),
        MigrationOutcome::Unparseable => None,
    }
}

/// Raw text that reads directly as the target schema resolves to exactly that
/// value: the historical chain never enters into the result.
pub proof fn lemma_direct_path_preferred<M: TryMigrate>(input: Seq<char>, v: M::V)
    requires
        M::parse_spec(input) == Some(v),
    ensures
        resolve_spec::<M>(input) == MigrationOutcomeSpec::<M::V>::DirectSuccess(v),
{
}

/// Raw text that matches no schema in the chain resolves to `Unparseable`.
pub proof fn lemma_chain_exhaustion<M: TryMigrate>(input: Seq<char>)
    requires
        M::parse_spec(input) is None,
        M::chain_spec(input) is NoMatch,
    ensures
        resolve_spec::<M>(input) == MigrationOutcomeSpec::<M::V>::Unparseable,
{
}

} // verus!
