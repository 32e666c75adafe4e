//! The cache decision engine.
//!
//! Per layer and per build: prior persisted metadata (or its absence) and the
//! freshly computed metadata go in; a disposition (keep or recreate), a
//! user-readable cause, and the value to persist come out. The fresh value is
//! what gets persisted in every case, whatever the disposition, so stale-
//! shaped metadata never survives a build. When the cache is kept, the old
//! (restored or migrated) value is handed back for reuse.

use vstd::prelude::*;
use vstd::string::StringExecFns;
use crate::diff::CacheDiff;
use crate::display::{sentence_list, sentence_list_seq};
use crate::migrate::{
    option_view,
    resolve,
    resolve_spec,
    MigrationOutcome,
    MigrationOutcomeSpec,
    TryMigrate,
};
use crate::strings::{chars_of, string_of, trim_chars, trim_seq};

verus! {

/// The terminal decision for one layer in one build.
#[derive(Clone, Copy, Debug, PartialEq, Eq, Structural)]
pub enum Disposition {
    /// The cached contents and the restored value stay valid.
    Keep,
    /// The cached contents must be deleted and rebuilt.
    Recreate,
}

/// Either the restored (old) metadata, or a message describing why there is
/// none.
///
/// Functions here put metadata in it only when the cache is kept; when the
/// cache is cleared it carries the one user-readable line explaining why.
pub enum Meta<M> {
    Message(String),
    Data(M),
}

impl<M> Meta<M> {
    /// The user-facing line: the carried message, or `Using cache` when the
    /// old data was kept.
    pub open spec fn render_spec(&self) -> Seq<char> {
        match self {
            Meta::Message(s) => s@,
            Meta::Data(_) => "Using cache"@,
        }
    }

    pub fn as_str(&self) -> (r: &str)
        ensures
            r@ == self.render_spec(),
    {
        match self {
            Meta::Message(s) => s.as_str(),
            Meta::Data(_) => "Using cache",
        }
    }
}

/// What to do with the layer directory when prior metadata was restored.
pub enum RestoredLayerAction {
    KeepLayer,
    DeleteLayer,
}

/// What to do with the layer when prior metadata did not read as the target
/// schema.
pub enum InvalidMetadataAction<M> {
    DeleteLayer,
    ReplaceMetadata(M),
}

/// The clearing line for a non-empty diff: singular or plural to match the
/// number of changes, the changes joined as one sentence.
pub open spec fn clearing_message_spec(diff: Seq<Seq<char>>) -> Seq<char> {
    "Clearing cache due to "@ + (if diff.len() > 1 {
        "changes"@
    } else {
        "change"@
    }) + ": "@ + sentence_list_seq(diff)
}

fn clearing_message(diff: &Vec<String>) -> (r: String)
    ensures
        r@ == clearing_message_spec(diff.deep_view()),
{
    let mut r = String::new();
    r.append("Clearing cache due to ");
    if diff.len() > 1 {
        r.append("changes");
    } else {
        r.append("change");
    }
    r.append(": ");
    let list = sentence_list(diff);
    r.append(list.as_str());
    proof {
        assert(Seq::<char>::empty() + "Clearing cache due to "@ == "Clearing cache due to "@);
    }
    r
}

/// Standard handling of restored prior metadata.
///
/// An empty diff keeps the layer and hands the old value back exactly as it
/// was; a non-empty diff deletes the layer and explains every change in one
/// line.
pub fn restored_layer_action<M: CacheDiff>(old: M, now: &M) -> (r: (RestoredLayerAction, Meta<M>))
    ensures
        M::diff_spec(now@, old@).len() == 0 ==> r == (
            RestoredLayerAction::KeepLayer,
            Meta::Data(old),
        ),
        M::diff_spec(now@, old@).len() > 0 ==> r.0 is DeleteLayer && (r.1 matches Meta::Message(m)
            && m@ == clearing_message_spec(M::diff_spec(now@, old@))),
{
    let diff = now.diff(&old);
    if diff.len() == 0 {
        (RestoredLayerAction::KeepLayer, Meta::Data(old))
    } else {
        let message = clearing_message(&diff);
        (RestoredLayerAction::DeleteLayer, Meta::Message(message))
    }
}

/// The clearing line when a conversion step of the migration chain refused.
pub open spec fn migration_error_message_spec(error: Seq<char>) -> Seq<char> {
    "Clearing cache due to metadata migration error: "@ + error
}

/// The clearing line when nothing in the chain matched the raw text.
pub open spec fn invalid_metadata_message_spec(raw: Seq<char>) -> Seq<char> {
    "Clearing cache due to invalid metadata ("@ + trim_seq(raw) + ")"@
}

/// The clearing line when the prior value could not even be re-serialized.
pub open spec fn serialization_error_message_spec(error: Seq<char>) -> Seq<char> {
    "Clearing cache due to invalid metadata serialization error: "@ + error
}

fn migration_error_message(error: &String) -> (r: String)
    ensures
        r@ == migration_error_message_spec(error@),
{
    let mut r = String::new();
    r.append("Clearing cache due to metadata migration error: ");
    r.append(error.as_str());
    proof {
        assert(Seq::<char>::empty() + "Clearing cache due to metadata migration error: "@
            == "Clearing cache due to metadata migration error: "@);
    }
    r
}

fn invalid_metadata_message(raw: &String) -> (r: String)
    ensures
        r@ == invalid_metadata_message_spec(raw@),
{
    let mut r = String::new();
    r.append("Clearing cache due to invalid metadata (");
    let raw_chars = chars_of(raw.as_str());
    let trimmed = trim_chars(&raw_chars);
    let trimmed_string = string_of(&trimmed);
    r.append(trimmed_string.as_str());
    r.append(")");
    proof {
        assert(Seq::<char>::empty() + "Clearing cache due to invalid metadata ("@
            == "Clearing cache due to invalid metadata ("@);
    }
    r
}

/// Standard handling of prior metadata that did not read as the target
/// schema.
///
/// `serialized` is the prior value as text: `Ok` with the raw document, or
/// `Err` with the rendering of the serialization error when the prior value
/// could not be written back to text at all. A successful migration replaces
/// the metadata and hands the migrated value back; everything else deletes
/// the layer with one explaining line.
pub fn invalid_metadata_action<M: TryMigrate>(serialized: &Result<String, String>) -> (r: (
    InvalidMetadataAction<M>,
    Meta<M>,
))
    ensures
        match serialized {
            Ok(raw) => match resolve_spec::<M>(raw@) {
                MigrationOutcomeSpec::DirectSuccess(v) => r.0 matches
                    InvalidMetadataAction::ReplaceMetadata(m) && m@ == v && (r.1 matches Meta::Data(
                    m2,
                ) && m2 == m),
                MigrationOutcomeSpec::MigratedSuccess(v) => r.0 matches
                    InvalidMetadataAction::ReplaceMetadata(m) && m@ == v && (r.1 matches Meta::Data(
                    m2,
                ) && m2 == m),
                MigrationOutcomeSpec::MigrationFailure(e) => r.0 is DeleteLayer && (r.1 matches
                    Meta::Message(m) && m@ == migration_error_message_spec(e)),
                MigrationOutcomeSpec::Unparseable => r.0 is DeleteLayer && (r.1 matches
                    Meta::Message(m) && m@ == invalid_metadata_message_spec(raw@)),
            },
            Err(error) => r.0 is DeleteLayer && (r.1 matches Meta::Message(m) && m@
                == serialization_error_message_spec(error@)),
        },
{
    match serialized {
        Ok(raw) => match resolve::<M>(raw.as_str()) {
            MigrationOutcome::DirectSuccess(v) => {
                let copy = v.clone_value();
                (InvalidMetadataAction::ReplaceMetadata(copy), Meta::Data(v))
            },
            MigrationOutcome::MigratedSuccess(v) => {
                let copy = v.clone_value();
                (InvalidMetadataAction::ReplaceMetadata(copy), Meta::Data(v))
            },
            MigrationOutcome::MigrationFailure(e) => {
                let message = migration_error_message(&e.message);
                (InvalidMetadataAction::DeleteLayer, Meta::Message(message))
            },
            MigrationOutcome::Unparseable => {
                let message = invalid_metadata_message(raw);
                (InvalidMetadataAction::DeleteLayer, Meta::Message(message))
            },
        },
        Err(error) => {
            let mut message = String::new();
            message.append("Clearing cache due to invalid metadata serialization error: ");
            message.append(error.as_str());
            proof {
                assert(Seq::<char>::empty()
                    + "Clearing cache due to invalid metadata serialization error: "@
                    == "Clearing cache due to invalid metadata serialization error: "@);
            }
            (InvalidMetadataAction::DeleteLayer, Meta::Message(message))
        },
    }
}

/// What the host hands the engine about a layer's previous life: nothing, or
/// the raw text of the persisted metadata sidecar.
pub enum PriorState {
    Absent,
    Loaded(String),
}

/// Why a layer starts this build empty.
pub enum EmptyLayerCause<M> {
    /// First build: there was no prior metadata. Not an invalidation.
    NewlyCreated,
    /// Prior metadata did not read as the target schema and could not be
    /// migrated; the cause says why.
    InvalidMetadataAction { cause: Meta<M> },
    /// Prior metadata was restored but the diff was not empty; the cause
    /// lists the changes.
    RestoredLayerAction { cause: Meta<M> },
}

/// The layer's state after the decision.
pub enum LayerState<M> {
    /// The cached contents stay; the cause carries the old value.
    Restored { cause: Meta<M> },
    /// The cached contents are gone and must be rebuilt.
    Empty { cause: EmptyLayerCause<M> },
}

impl<M> LayerState<M> {
    /// The disposition this state stands for.
    pub open spec fn disposition(&self) -> Disposition {
        match self {
            LayerState::Restored { .. } => Disposition::Keep,
            LayerState::Empty { .. } => Disposition::Recreate,
        }
    }

    /// The old value handed back for reuse, present exactly when the cache
    /// was kept.
    pub open spec fn recovered(&self) -> Option<M> {
        match self {
            LayerState::Restored { cause: Meta::Data(m) } => Some(*m),
            _ => None,
        }
    }
}

/// One layer's outcome for this build: its state, the metadata that is
/// persisted (always the fresh value), and the pass-through cache flags.
pub struct LayerRef<M> {
    pub state: LayerState<M>,
    pub metadata: M,
    pub build: bool,
    pub launch: bool,
}

/// The disposition the engine reaches from a prior state and the view of a
/// fresh value.
pub open spec fn disposition_spec<M: CacheDiff + TryMigrate>(
    prior: PriorState,
    fresh: M::V,
) -> Disposition {
    match prior {
        PriorState::Absent => Disposition::Recreate,
        PriorState::Loaded(raw) => match resolve_spec::<M>(raw@) {
            MigrationOutcomeSpec::DirectSuccess(old) => if M::diff_spec(fresh, old).len() == 0 {
                Disposition::Keep
            } else {
                Disposition::Recreate
            },
            MigrationOutcomeSpec::MigratedSuccess(old) => if M::diff_spec(fresh, old).len() == 0 {
                Disposition::Keep
            } else {
                Disposition::Recreate
            },
            MigrationOutcomeSpec::MigrationFailure(_) => Disposition::Recreate,
            MigrationOutcomeSpec::Unparseable => Disposition::Recreate,
        },
    }
}

/// The view of the old value the engine hands back, present exactly when the
/// disposition is `Keep`.
pub open spec fn recovered_spec<M: CacheDiff + TryMigrate>(prior: PriorState, fresh: M::V) -> Option<
    M::V,
> {
    match prior {
        PriorState::Absent => None,
        PriorState::Loaded(raw) => match resolve_spec::<M>(raw@) {
            MigrationOutcomeSpec::DirectSuccess(old) => if M::diff_spec(fresh, old).len() == 0 {
                Some(old)
            } else {
                None
            },
            MigrationOutcomeSpec::MigratedSuccess(old) => if M::diff_spec(fresh, old).len() == 0 {
                Some(old)
            } else {
                None
            },
            MigrationOutcomeSpec::MigrationFailure(_) => None,
            MigrationOutcomeSpec::Unparseable => None,
        },
    }
}

/// The state reached once a prior value `old` was recovered and diffed
/// against the fresh value: restored with exactly `old` on an empty diff,
/// otherwise empty with the clearing line listing the changes.
pub open spec fn resolved_state_ok<M: CacheDiff + TryMigrate>(
    state: LayerState<M>,
    old: M,
    fresh: M,
) -> bool {
    if M::diff_spec(fresh@, old@).len() == 0 {
        state == (LayerState::Restored { cause: Meta::Data(old) })
    } else {
        state matches LayerState::Empty {
            cause: EmptyLayerCause::RestoredLayerAction { cause: Meta::Message(m) },
        } && m@ == clearing_message_spec(M::diff_spec(fresh@, old@))
    }
}

/// Caching behaviour for one layer: the two pass-through flags, and the
/// decision engine as `layer`.
#[derive(Clone, Copy, Debug, PartialEq, Eq, Structural)]
pub struct CacheBuddy {
    pub build: bool,
    pub launch: bool,
}

impl CacheBuddy {
    /// Decides one layer's fate for this build.
    ///
    /// The returned `metadata` is always the fresh value: that is what the
    /// host persists, whatever the disposition. The old value is handed back
    /// in the state exactly when the cache is kept. Every recreate after an
    /// invalidation carries one user-readable line saying why; a first build
    /// carries none, since it is no invalidation. The two flags pass through
    /// unchanged and never influence the decision.
    pub fn layer<M: CacheDiff + TryMigrate>(&self, prior: &PriorState, metadata: M) -> (d: LayerRef<
        M,
    >)
        ensures
            d.metadata == metadata,
            d.build == self.build,
            d.launch == self.launch,
            d.state.disposition() == disposition_spec::<M>(*prior, metadata@),
            option_view(d.state.recovered()) == recovered_spec::<M>(*prior, metadata@),
            match prior {
                PriorState::Absent => d.state matches LayerState::Empty {
                    cause: EmptyLayerCause::NewlyCreated,
                },
                PriorState::Loaded(raw) => match resolve_spec::<M>(raw@) {
                    MigrationOutcomeSpec::DirectSuccess(old) => exists|o: M|
                        o@ == old && #[trigger] resolved_state_ok(d.state, o, metadata),
                    MigrationOutcomeSpec::MigratedSuccess(old) => exists|o: M|
                        o@ == old && #[trigger] resolved_state_ok(d.state, o, metadata),
                    MigrationOutcomeSpec::MigrationFailure(e) => d.state matches LayerState::Empty {
                        cause: EmptyLayerCause::InvalidMetadataAction { cause: Meta::Message(m) },
                    } && m@ == migration_error_message_spec(e),
                    MigrationOutcomeSpec::Unparseable => d.state matches LayerState::Empty {
                        cause: EmptyLayerCause::InvalidMetadataAction { cause: Meta::Message(m) },
                    } && m@ == invalid_metadata_message_spec(raw@),
                },
            },
    {
        match prior {
            PriorState::Absent => LayerRef {
                state: LayerState::Empty { cause: EmptyLayerCause::NewlyCreated },
                metadata,
                build: self.build,
                launch: self.launch,
            },
            PriorState::Loaded(raw) => {
                let outcome = resolve::<M>(raw.as_str());
                match outcome {
                    MigrationOutcome::DirectSuccess(old) => self.diffed_layer(old, metadata),
                    MigrationOutcome::MigratedSuccess(old) => self.diffed_layer(old, metadata),
                    MigrationOutcome::MigrationFailure(e) => {
                        let message = migration_error_message(&e.message);
                        LayerRef {
                            state: LayerState::Empty {
                                cause: EmptyLayerCause::InvalidMetadataAction {
                                    cause: Meta::Message(message),
                                },
                            },
                            metadata,
                            build: self.build,
                            launch: self.launch,
                        }
                    },
                    MigrationOutcome::Unparseable => {
                        let message = invalid_metadata_message(raw);
                        LayerRef {
                            state: LayerState::Empty {
                                cause: EmptyLayerCause::InvalidMetadataAction {
                                    cause: Meta::Message(message),
                                },
                            },
                            metadata,
                            build: self.build,
                            launch: self.launch,
                        }
                    },
                }
            },
        }
    }

    fn diffed_layer<M: CacheDiff + TryMigrate>(&self, old: M, metadata: M) -> (d: LayerRef<M>)
        ensures
            d.metadata == metadata,
            d.build == self.build,
            d.launch == self.launch,
            resolved_state_ok(d.state, old, metadata),
    {
        let (action, meta) = restored_layer_action(old, &metadata);
        match action {
            RestoredLayerAction::KeepLayer => LayerRef {
                state: LayerState::Restored { cause: meta },
                metadata,
                build: self.build,
                launch: self.launch,
            },
            RestoredLayerAction::DeleteLayer => LayerRef {
                state: LayerState::Empty {
                    cause: EmptyLayerCause::RestoredLayerAction { cause: meta },
                },
                metadata,
                build: self.build,
                launch: self.launch,
            },
        }
    }
}

/// An empty diff between the fresh value and a recovered prior value always
/// keeps the cache and hands back exactly that prior value.
pub proof fn lemma_no_change_keeps_cache<M: CacheDiff + TryMigrate>(
    prior: PriorState,
    old: M::V,
    fresh: M::V,
)
    requires
        prior matches PriorState::Loaded(raw) && (resolve_spec::<M>(raw@)
            == MigrationOutcomeSpec::<M::V>::DirectSuccess(old) || resolve_spec::<M>(raw@)
            == MigrationOutcomeSpec::<M::V>::MigratedSuccess(old)),
        M::diff_spec(fresh, old).len() == 0,
    ensures
        disposition_spec::<M>(prior, fresh) == Disposition::Keep,
        recovered_spec::<M>(prior, fresh) == Some(old),
{
}

/// No cache is ever cleared silently: each of the three clearing lines is a
/// non-empty piece of text, whatever detail it carries.
pub proof fn lemma_every_clearing_is_explained(diff: Seq<Seq<char>>, raw: Seq<char>, error: Seq<
    char,
>)
    ensures
        clearing_message_spec(diff).len() > 0,
        invalid_metadata_message_spec(raw).len() > 0,
        migration_error_message_spec(error).len() > 0,
        serialization_error_message_spec(error).len() > 0,
{
    reveal_strlit("Clearing cache due to ");
    reveal_strlit("Clearing cache due to invalid metadata (");
    reveal_strlit("Clearing cache due to metadata migration error: ");
    reveal_strlit("Clearing cache due to invalid metadata serialization error: ");
}

/// Raw text that matches no schema in the chain always recreates the layer.
pub proof fn lemma_unparseable_recreates<M: CacheDiff + TryMigrate>(prior: PriorState, fresh: M::V)
    requires
        prior matches PriorState::Loaded(raw) && M::parse_spec(raw@) is None && M::chain_spec(raw@)
            is NoMatch,
    ensures
        disposition_spec::<M>(prior, fresh) == Disposition::Recreate,
        recovered_spec::<M>(prior, fresh) is None,
{
}

} // verus!
