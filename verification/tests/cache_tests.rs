use commons::cache_buddy::{
    invalid_metadata_action, restored_layer_action, CacheBuddy, EmptyLayerCause,
    InvalidMetadataAction, LayerState, Meta, PriorState, RestoredLayerAction,
};
use commons::migrate::{resolve, try_from_str_migrations, MigrationOutcome};
use commons::diff::CacheDiff;
use commons::schemas::{PersonV1, PersonV2, TestMetadata};

fn buddy() -> CacheBuddy {
    CacheBuddy { build: true, launch: true }
}

#[test]
fn test_cache_buddy() {
    // First build: no prior metadata.
    let result = buddy().layer(
        &PriorState::Absent,
        TestMetadata { value: "hello".to_string() },
    );
    assert!(matches!(
        result.state,
        LayerState::Empty { cause: EmptyLayerCause::NewlyCreated }
    ));
    assert_eq!(result.metadata.value, "hello");

    // Second build: the persisted metadata matches the fresh value.
    let prior = PriorState::Loaded("value = \"hello\"\n".to_string());
    let result = buddy().layer(&prior, TestMetadata { value: "hello".to_string() });
    let LayerState::Restored { cause } = &result.state else {
        panic!("Expected restored layer")
    };
    assert_eq!(cause.as_str(), "Using cache");

    // Third build: the value changed.
    let result = buddy().layer(&prior, TestMetadata { value: "world".to_string() });
    let LayerState::Empty { cause: EmptyLayerCause::RestoredLayerAction { cause } } = &result.state
    else {
        panic!("Expected empty layer with restored layer action");
    };
    assert_eq!(
        cause.as_str(),
        "Clearing cache due to change: value (hello to world)"
    );
}

#[test]
fn cache_buddy_test_invalid_metadata_action() {
    let (action, message) =
        invalid_metadata_action::<PersonV1>(&Ok("name = \"schneems\"\n".to_string()));
    assert!(matches!(action, InvalidMetadataAction::ReplaceMetadata(_)));
    assert_eq!(message.as_str(), "Using cache");

    let (action, message) =
        invalid_metadata_action::<PersonV2>(&Ok("name = \"not_richard\"\n".to_string()));
    assert!(matches!(action, InvalidMetadataAction::DeleteLayer));
    assert_eq!(
        message.as_str(),
        "Clearing cache due to metadata migration error: Not Richard"
    );

    let (action, message) =
        invalid_metadata_action::<PersonV2>(&Ok("value = \"world\"\n".to_string()));
    assert!(matches!(action, InvalidMetadataAction::DeleteLayer));
    assert_eq!(
        message.as_str(),
        "Clearing cache due to invalid metadata (value = \"world\")"
    );
}

#[test]
fn serialization_error_clears_the_cache() {
    let (action, message) =
        invalid_metadata_action::<PersonV2>(&Err("no text form".to_string()));
    assert!(matches!(action, InvalidMetadataAction::DeleteLayer));
    assert_eq!(
        message.as_str(),
        "Clearing cache due to invalid metadata serialization error: no text form"
    );
}

#[test]
fn migration_chain_success_recovers_migrated_value() {
    // Prior raw data in the historical shape, accepted by the conversion rule.
    let outcome = resolve::<PersonV2>("name = \"Schneems\"\n");
    let MigrationOutcome::MigratedSuccess(person) = outcome else {
        panic!("Expected a successful migration");
    };
    assert_eq!(person.name, "Schneems");
    assert_eq!(person.updated_at, "unknown");

    let migrated = try_from_str_migrations::<PersonV2>("name = \"Schneems\"\n");
    let Some(Ok(person)) = migrated else {
        panic!("Expected a successful migration");
    };
    assert_eq!(person.name, "Schneems");
    assert_eq!(person.updated_at, "unknown");
}

#[test]
fn direct_parse_is_preferred_over_the_chain() {
    // This document reads directly as the target schema, so the resolver
    // reports a direct success even though the chain would also accept it.
    let outcome = resolve::<PersonV2>("name = \"Schneems\"\nupdated_at = \"today\"\n");
    let MigrationOutcome::DirectSuccess(person) = outcome else {
        panic!("Expected a direct success");
    };
    assert_eq!(person.name, "Schneems");
    assert_eq!(person.updated_at, "today");
}

#[test]
fn unmatched_raw_data_is_unparseable_and_recreates() {
    let outcome = resolve::<PersonV2>("count = 4\n");
    assert!(matches!(outcome, MigrationOutcome::Unparseable));

    let prior = PriorState::Loaded("count = 4\n".to_string());
    let result = buddy().layer(&prior, TestMetadata { value: "hello".to_string() });
    let LayerState::Empty { cause: EmptyLayerCause::InvalidMetadataAction { cause } } =
        &result.state
    else {
        panic!("Expected the layer to be recreated");
    };
    assert_eq!(
        cause.as_str(),
        "Clearing cache due to invalid metadata (count = 4)"
    );
}

#[test]
fn conversion_rejection_reaches_the_layer_decision() {
    let prior = PriorState::Loaded("name = \"not_richard\"\n".to_string());
    let result = buddy().layer(&prior, PersonV2 {
        name: "Schneems".to_string(),
        updated_at: "today".to_string(),
    });
    let LayerState::Empty { cause: EmptyLayerCause::InvalidMetadataAction { cause } } =
        &result.state
    else {
        panic!("Expected the layer to be recreated");
    };
    assert_eq!(
        cause.as_str(),
        "Clearing cache due to metadata migration error: Not Richard"
    );
}

#[test]
fn fresh_metadata_is_persisted_whatever_the_disposition() {
    // Kept cache: the persisted value is still the fresh one.
    let prior = PriorState::Loaded("value = \"hello\"\n".to_string());
    let result = buddy().layer(&prior, TestMetadata { value: "hello".to_string() });
    assert_eq!(result.metadata.value, "hello");
    assert!(matches!(result.state, LayerState::Restored { .. }));

    // Cleared cache: the persisted value is the fresh one, not the old one.
    let result = buddy().layer(&prior, TestMetadata { value: "world".to_string() });
    assert_eq!(result.metadata.value, "world");
    assert!(matches!(result.state, LayerState::Empty { .. }));

    // Unparseable prior metadata: still the fresh value.
    let prior = PriorState::Loaded("not even toml [".to_string());
    let result = buddy().layer(&prior, TestMetadata { value: "world".to_string() });
    assert_eq!(result.metadata.value, "world");
}

#[test]
fn empty_diff_recovers_the_old_value() {
    let old = TestMetadata { value: "hello".to_string() };
    let now = TestMetadata { value: "hello".to_string() };
    let (action, meta) = restored_layer_action(old, &now);
    assert!(matches!(action, RestoredLayerAction::KeepLayer));
    match meta {
        Meta::Data(data) => assert_eq!(data.value, "hello"),
        Meta::Message(_) => panic!("Expected the old data back"),
    }
}

#[test]
fn kept_cache_hands_back_the_restored_value() {
    let prior = PriorState::Loaded("value = \"hello\"\n".to_string());
    let result = buddy().layer(&prior, TestMetadata { value: "hello".to_string() });
    let LayerState::Restored { cause: Meta::Data(old) } = result.state else {
        panic!("Expected the old value back");
    };
    assert_eq!(old.value, "hello");
}

#[test]
fn cache_flags_pass_through_unchanged() {
    let buddy = CacheBuddy { build: false, launch: true };
    let result = buddy.layer(&PriorState::Absent, TestMetadata { value: "hello".to_string() });
    assert!(!result.build);
    assert!(result.launch);
}

#[test]
fn two_changes_list_both_in_plural() {
    let prior = PriorState::Loaded(
        "name = \"Schneems\"\nupdated_at = \"today\"\n".to_string(),
    );
    let result = buddy().layer(&prior, PersonV2 {
        name: "schneems".to_string(),
        updated_at: "tomorrow".to_string(),
    });
    let LayerState::Empty { cause: EmptyLayerCause::RestoredLayerAction { cause } } = &result.state
    else {
        panic!("Expected the layer to be recreated");
    };
    assert_eq!(
        cause.as_str(),
        "Clearing cache due to changes: name (Schneems to schneems) and updated_at (today to tomorrow)"
    );
}

#[test]
fn empty_raw_data_is_unparseable() {
    let outcome = resolve::<PersonV2>("");
    assert!(matches!(outcome, MigrationOutcome::Unparseable));

    let prior = PriorState::Loaded(String::new());
    let result = buddy().layer(&prior, TestMetadata { value: "hello".to_string() });
    let LayerState::Empty { cause: EmptyLayerCause::InvalidMetadataAction { cause } } =
        &result.state
    else {
        panic!("Expected the layer to be recreated");
    };
    assert_eq!(cause.as_str(), "Clearing cache due to invalid metadata ()");
}

#[test]
fn direct_parse_of_simple_schema_round_trips() {
    let migrated = try_from_str_migrations::<TestMetadata>("value = \"hello\"\n");
    let Some(Ok(metadata)) = migrated else {
        panic!("Expected a direct read");
    };
    assert_eq!(metadata.value, "hello");

    let none = try_from_str_migrations::<TestMetadata>("other = \"hello\"\n");
    assert!(none.is_none());
}

#[test]
fn diff_of_a_value_with_itself_is_empty() {
    let metadata = TestMetadata { value: "hello".to_string() };
    assert_eq!(metadata.diff(&metadata), Vec::<String>::new());

    let person = PersonV2 { name: "Schneems".to_string(), updated_at: "today".to_string() };
    assert_eq!(person.diff(&person), Vec::<String>::new());
}
