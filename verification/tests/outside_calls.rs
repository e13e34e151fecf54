use asset_core::action::definition::ActionAccess;
use asset_core::action::orchestration::{resource_effects_step, EffectAction, EffectEvent, ResourceEffects};
use asset_core::action::output::{PluginResourceActionOutput, ResourceActionEffect, ResourceActionOutput};
use asset_core::domain::checksum::{hex_sha256, Checksum};
use asset_core::domain::ids::{DirectoryId, ResourceId};
use asset_core::domain::path::DirectoryPath;
use asset_core::domain::resource::{DirectoryLocation, Resource, ResourceContent, ResourceKind};
use asset_core::error::{CoreError, Invariant};
use asset_core::error::Conflict;
use asset_core::idempotency::{
    begin_step, decide, request_hash, request_hash_of_text, BeginPhase, IdempotencyAction, IdempotencyEvent,
    IdempotencyOutcome, IdempotencyRecord,
};
use asset_core::resource::contract::IdempotencyKey;
use asset_core::resource::query::LocatedResource;

#[test]
fn identities_print_as_hyphenated_uuids_and_parse_back() {
    let id = DirectoryId(0x0123_4567_89ab_cdef_0123_4567_89ab_cdef);
    assert_eq!(id.to_text(), "01234567-89ab-cdef-0123-456789abcdef");
    assert_eq!(DirectoryId::parse("01234567-89ab-cdef-0123-456789abcdef"), Some(id));
    assert_eq!(DirectoryId::parse("not a uuid"), None);
    assert_eq!(ResourceId(1).to_text(), "00000000-0000-0000-0000-000000000001");
}

#[test]
fn new_identities_are_time_ordered_version_seven_uuids() {
    let a = ResourceId::new();
    let b = ResourceId::new();
    assert_eq!((a.0 >> 76) & 0xf, 7);
    assert_eq!((b.0 >> 76) & 0xf, 7);
    assert_ne!(a, b);
    assert!(!DirectoryId::new().is_root());
}

#[test]
fn request_hashes_are_sha256_of_the_canonical_json_text() {
    assert_eq!(
        request_hash_of_text(""),
        "e3b0c44298fc1c149afbf4c8996fb92427ae41e4649b934ca495991b7852b855"
    );
    let value = serde_json::Value::Bool(true);
    assert_eq!(request_hash(&value), hex_sha256(b"true"));
    assert_eq!(request_hash(&serde_json::Value::Null), hex_sha256(b"null"));
}

#[test]
fn completed_records_replay_only_the_same_request() {
    let key = || IdempotencyKey::new("key-1").unwrap();
    let stored = serde_json::Value::String("done".to_string());
    let record = IdempotencyRecord::completed(key(), "abc".to_string(), stored);
    match decide(&record, "abc") {
        IdempotencyOutcome::Replay(v) => assert_eq!(v, serde_json::Value::String("done".to_string())),
        other => panic!("expected a replay, got {other:?}"),
    }
    assert!(matches!(decide(&record, "abd"), IdempotencyOutcome::Conflict));
    let pending = IdempotencyRecord::new(key(), "abc".to_string());
    assert!(matches!(decide(&pending, "abc"), IdempotencyOutcome::Conflict));
}

fn located_text_resource() -> LocatedResource {
    let mut resource = Resource::create("note.txt", DirectoryId::root(), ResourceKind::fallback()).unwrap();
    resource
        .attach_content(ResourceContent::verified(
            3,
            Checksum::sha256(&hex_sha256(b"old")).unwrap(),
            Some("text/plain".to_string()),
            None,
        ))
        .unwrap();
    LocatedResource::new(resource, DirectoryLocation::new(DirectoryId::root(), DirectoryPath::root())).unwrap()
}

fn replace_output(located: &LocatedResource, data: &str) -> ResourceActionOutput {
    ResourceActionOutput {
        resource_id: located.resource().id(),
        action: "core.text.edit".to_string(),
        output: PluginResourceActionOutput {
            view: None,
            effects: vec![ResourceActionEffect::ReplaceContent { data: data.to_string(), mime_type: None }],
        },
    }
}

#[test]
fn replacement_effects_decode_standard_base64() {
    let located = located_text_resource();
    let key = located.storage_key().unwrap();
    let output = replace_output(&located, "aGVsbG8=");
    let (_, action) = resource_effects_step(
        &located,
        &key,
        ActionAccess::Write,
        &output,
        ResourceEffects::Start,
        EffectEvent::Started,
    );
    match action {
        EffectAction::ReplaceBytes { data, content, storage_key, .. } => {
            assert_eq!(data, b"hello".to_vec());
            assert_eq!(content.size(), 5);
            assert_eq!(content.checksum().unwrap().value(), hex_sha256(b"hello"));
            assert_eq!(content.mime_type(), Some("text/plain"));
            assert_eq!(storage_key.as_str(), "note.txt");
        }
        other => panic!("expected a replacement, got {other:?}"),
    }

    let invalid = replace_output(&located, "***");
    let (_, action) = resource_effects_step(
        &located,
        &key,
        ActionAccess::Write,
        &invalid,
        ResourceEffects::Start,
        EffectEvent::Started,
    );
    assert!(matches!(
        action,
        EffectAction::Finish(Err(CoreError::Invariant(Invariant::ActionReturnedInvalidBase64)))
    ));
}

#[test]
fn first_request_inserts_a_pending_record_and_executes() {
    let key = IdempotencyKey::new("key-2").unwrap();
    let (state, action) = begin_step(&key, "h1", BeginPhase::Start, IdempotencyEvent::Started);
    assert!(matches!(state, BeginPhase::AwaitFind));
    assert!(matches!(action, IdempotencyAction::Find));
    let (state, action) = begin_step(&key, "h1", state, IdempotencyEvent::Found(None));
    assert!(matches!(state, BeginPhase::AwaitInsert));
    match action {
        IdempotencyAction::Insert(record) => {
            assert_eq!(record.key().as_str(), "key-2");
            assert_eq!(record.request_hash(), "h1");
            assert!(!record.is_completed());
        }
        other => panic!("expected an insert, got {other:?}"),
    }
    let (state, action) = begin_step(&key, "h1", state, IdempotencyEvent::Inserted);
    assert!(matches!(state, BeginPhase::Finished));
    assert!(matches!(action, IdempotencyAction::Finish(Ok(IdempotencyOutcome::Execute))));
}

#[test]
fn losing_the_insert_race_refinds_the_winner() {
    let key = IdempotencyKey::new("key-3").unwrap();
    let (state, _) = begin_step(&key, "h1", BeginPhase::AwaitInsert, IdempotencyEvent::Started);
    assert!(matches!(state, BeginPhase::Finished));
    let (state, action) = begin_step(
        &key,
        "h1",
        BeginPhase::AwaitInsert,
        IdempotencyEvent::Failed(CoreError::Conflict(Conflict::IdempotencyKeyReused)),
    );
    assert!(matches!(state, BeginPhase::AwaitRefind));
    assert!(matches!(action, IdempotencyAction::Find));
    let winner = IdempotencyRecord::completed(key.clone(), "h1".to_string(), serde_json::Value::Bool(true));
    let (_, action) = begin_step(&key, "h1", state, IdempotencyEvent::Found(Some(winner)));
    match action {
        IdempotencyAction::Finish(Ok(IdempotencyOutcome::Replay(v))) => assert_eq!(v, serde_json::Value::Bool(true)),
        other => panic!("expected a replay, got {other:?}"),
    }
    let (_, action) = begin_step(&key, "h1", BeginPhase::AwaitRefind, IdempotencyEvent::Found(None));
    assert!(matches!(action, IdempotencyAction::Finish(Ok(IdempotencyOutcome::Conflict))));
}
