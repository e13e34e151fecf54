//! Idempotent commands: the same-key, same-request rule. A guarded command computes a canonical
//! request hash, begins under its idempotency key, and then executes and completes, replays a
//! stored result, or is refused.

use crate::domain::checksum::{hex_sha256, hex_text, sha256_digest};
use crate::error::CoreError;
use crate::resource::contract::IdempotencyKey;
use vstd::prelude::*;
use vstd::string::*;

verus! {

/// A JSON value, carried through unchanged.
#[verifier::external_type_specification]
#[verifier::external_body]
pub struct ExJsonValue(serde_json::Value);

/// `serde_json::Value::Null`.
#[verifier::external_body]
fn json_null() -> (r: serde_json::Value) {
    serde_json::Value::Null
}

/// `Clone::clone` of a `serde_json::Value` (derived): a deep copy, equal to the value it copies.
#[verifier::external_body]
fn json_clone(value: &serde_json::Value) -> (r: serde_json::Value)
    ensures
        r == *value,
{
    value.clone()
}

/// The compact JSON text `serde_json::to_string` writes for a value: a function of the value
/// alone.
pub uninterp spec fn json_text_of(value: serde_json::Value) -> Seq<char>;

/// `serde_json::to_string` of a `serde_json::Value`: its compact JSON text, object keys in the
/// order the value holds them, named `json_text_of`. Serializing a `Value` does not fail (its
/// map keys are strings); the error arm is unreachable. The text identifies the value: every
/// string is written with its escapes, every number in its one shortest form (integers without
/// a fraction, floats with one), and every array and object with all its elements and entries,
/// so no other value is written as the same text.
#[verifier::external_body]
fn json_text(value: &serde_json::Value) -> (r: String)
    ensures
        r@ == json_text_of(*value),
        forall|other: serde_json::Value| #[trigger] json_text_of(other) == r@ ==> other == *value,
{
    match serde_json::to_string(value) {
        Ok(text) => text,
        Err(_) => String::new(),
    }
}

/// The fingerprint of a request's canonical JSON text: the lowercase hexadecimal SHA-256 digest
/// of its UTF-8 bytes.
pub fn request_hash_of_text(json: &str) -> (r: String)
    ensures
        r@ == hex_text(sha256_digest(json.spec_bytes())),
{
    let bytes = json.as_bytes_vec();
    hex_sha256(bytes.as_slice())
}

/// The canonical fingerprint of a command's idempotency-relevant fields: the digest of the
/// UTF-8 bytes of the value's JSON text, so the same value always gives the same hash, and the
/// text that is hashed differs for every other request: two requests that differ in any field
/// (such as the input of an action) are fingerprinted from different texts.
pub fn request_hash(canonical: &serde_json::Value) -> (r: String)
    ensures
        r@ == hex_text(sha256_digest(vstd::utf8::encode_utf8(json_text_of(*canonical)))),
        forall|other: serde_json::Value|
            other != *canonical ==> #[trigger] json_text_of(other) != json_text_of(*canonical),
{
    let text = json_text(canonical);
    request_hash_of_text(text.as_str())
}

/// A stored idempotency record: the key, the request it was taken for, and the result once the
/// command completed.
#[derive(Debug)]
pub struct IdempotencyRecord {
    key: IdempotencyKey,
    request_hash: String,
    result: Option<serde_json::Value>,
}

impl IdempotencyRecord {
    pub closed spec fn spec_key(&self) -> Seq<char> {
        self.key@
    }

    pub closed spec fn spec_request_hash(&self) -> Seq<char> {
        self.request_hash@
    }

    pub closed spec fn spec_completed(&self) -> bool {
        self.result is Some
    }

    /// The stored result, once the command completed.
    pub closed spec fn spec_result(&self) -> Option<serde_json::Value> {
        self.result
    }

    /// A record taken for a request that has not completed.
    pub fn new(key: IdempotencyKey, request_hash: String) -> (r: IdempotencyRecord)
        ensures
            r.spec_key() == key@,
            r.spec_request_hash() == request_hash@,
            !r.spec_completed(),
            r.spec_result() is None,
    {
        IdempotencyRecord { key, request_hash, result: None }
    }

    /// A record whose command completed with `result`.
    pub fn completed(key: IdempotencyKey, request_hash: String, result: serde_json::Value) -> (r:
        IdempotencyRecord)
        ensures
            r.spec_key() == key@,
            r.spec_request_hash() == request_hash@,
            r.spec_completed(),
            r.spec_result() == Some(result),
    {
        IdempotencyRecord { key, request_hash, result: Some(result) }
    }

    pub fn key(&self) -> (r: &IdempotencyKey)
        ensures
            r@ == self.spec_key(),
    {
        &self.key
    }

    pub fn request_hash(&self) -> (r: &str)
        ensures
            r@ == self.spec_request_hash(),
    {
        self.request_hash.as_str()
    }

    pub fn is_completed(&self) -> (r: bool)
        ensures
            r == self.spec_completed(),
    {
        self.result.is_some()
    }

    pub fn result(&self) -> (r: Option<&serde_json::Value>)
        ensures
            r is Some == self.spec_completed(),
            match r {
                Some(v) => self.spec_result() == Some(*v),
                None => self.spec_result() is None,
            },
    {
        self.result.as_ref()
    }
}

/// The decision of beginning a guarded command.
#[derive(Debug)]
pub enum IdempotencyOutcome {
    /// No prior result: execute the command, then complete or abandon.
    Execute,
    /// A completed, matching record exists: return its stored result without executing.
    Replay(serde_json::Value),
    /// The key is already taken by a different request, or its command is still in progress.
    Conflict,
}

/// Decide on an existing record: replay its result only if its command completed for the same
/// request; anything else is a conflict.
pub fn decide(record: &IdempotencyRecord, request_hash: &str) -> (r: IdempotencyOutcome)
    ensures
        (r is Replay) == (record.spec_completed() && record.spec_request_hash() == request_hash@),
        !(r is Execute),
        r matches IdempotencyOutcome::Replay(v) ==> record.spec_result() == Some(v),
{
    if record.is_completed() && crate::text::str_eq(record.request_hash(), request_hash) {
        let stored = match record.result() {
            Some(v) => json_clone(v),
            None => json_null(),
        };
        return IdempotencyOutcome::Replay(stored);
    }
    IdempotencyOutcome::Conflict
}

/// The outcome of the last repository operation.
#[derive(Debug)]
pub enum IdempotencyEvent {
    Started,
    /// The repository returned this record.
    Found(Option<IdempotencyRecord>),
    /// The new record was inserted.
    Inserted,
    /// The operation failed.
    Failed(CoreError),
}

/// The next repository operation.
#[derive(Debug)]
pub enum IdempotencyAction {
    /// Find the record of the key.
    Find,
    /// Insert a new record.
    Insert(IdempotencyRecord),
    /// Beginning ended with this outcome.
    Finish(Result<IdempotencyOutcome, CoreError>),
}

/// Phases of beginning a guarded command.
#[derive(Debug)]
pub enum BeginPhase {
    Start,
    AwaitFind,
    AwaitInsert,
    AwaitRefind,
    Finished,
}

/// What one step of beginning a guarded command answers to each event.
pub open spec fn begin_transition(
    key: IdempotencyKey,
    request_hash: Seq<char>,
    state: BeginPhase,
    event: IdempotencyEvent,
    r: (BeginPhase, IdempotencyAction),
) -> bool {
    &&& match r.1 {
        IdempotencyAction::Insert(rec) => rec.spec_key() == key@ && rec.spec_request_hash()
            == request_hash && !rec.spec_completed() && state is AwaitFind,
        IdempotencyAction::Finish(Ok(IdempotencyOutcome::Execute)) => state is AwaitInsert
            && event is Inserted,
        IdempotencyAction::Finish(Ok(IdempotencyOutcome::Replay(v))) => (event matches IdempotencyEvent::Found(
            Some(rec),
        ) && rec.spec_completed() && rec.spec_request_hash() == request_hash && rec.spec_result()
            == Some(v)),
        _ => true,
    }
    &&& match (state, event) {
        (BeginPhase::Start, _) => r.0 is AwaitFind && r.1 is Find,
        (BeginPhase::AwaitFind, IdempotencyEvent::Found(None)) => r.0 is AwaitInsert
            && r.1 is Insert,
        (BeginPhase::AwaitFind, IdempotencyEvent::Found(Some(rec)))
        | (BeginPhase::AwaitRefind, IdempotencyEvent::Found(Some(rec))) => r.0 is Finished && (r.1 matches IdempotencyAction::Finish(
            Ok(o),
        ) && (o is Replay) == (rec.spec_completed() && rec.spec_request_hash() == request_hash)
            && !(o is Execute)),
        (BeginPhase::AwaitInsert, IdempotencyEvent::Inserted) => r.0 is Finished && r.1
            == IdempotencyAction::Finish(Ok(IdempotencyOutcome::Execute)),
        (BeginPhase::AwaitInsert, IdempotencyEvent::Failed(CoreError::Conflict(_))) => r.0 is AwaitRefind
            && r.1 is Find,
        (BeginPhase::AwaitRefind, IdempotencyEvent::Found(None)) => r.0 is Finished && r.1
            == IdempotencyAction::Finish(Ok(IdempotencyOutcome::Conflict)),
        (_, IdempotencyEvent::Failed(e)) => r.0 is Finished && r.1 == IdempotencyAction::Finish(
            Err(e),
        ),
        _ => r.0 is Finished && r.1 == IdempotencyAction::Finish(
            Err(CoreError::Invariant(crate::error::Invariant::UnexpectedRecoveryEvent)),
        ),
    }
}

/// Step `i` of a recorded run of beginning a guarded command is one that `begin_step` can take.
pub open spec fn begin_run_step(
    key: IdempotencyKey,
    request_hash: Seq<char>,
    states: Seq<BeginPhase>,
    events: Seq<IdempotencyEvent>,
    actions: Seq<IdempotencyAction>,
    i: int,
) -> bool {
    begin_transition(key, request_hash, states[i], events[i], (states[i + 1], actions[i]))
}

/// Beginning a guarded command decides once and writes at most a new in-progress record: in a
/// run from the start that ends with an outcome, if the key had a record, nothing was inserted
/// and the outcome replays the stored result when that record completed for the same request,
/// and is a conflict otherwise; if the key had none, a record for the key and the request, not
/// completed, was inserted, and the command executes exactly when that insert succeeded.
pub proof fn lemma_begin_decides_once(
    key: IdempotencyKey,
    request_hash: Seq<char>,
    states: Seq<BeginPhase>,
    events: Seq<IdempotencyEvent>,
    actions: Seq<IdempotencyAction>,
)
    requires
        states.len() == actions.len() + 1,
        events.len() == actions.len(),
        actions.len() > 0,
        states[0] is Start,
        forall|i: int| 0 <= i < actions.len() ==> #[trigger] begin_run_step(key, request_hash, states, events, actions, i),
        actions.last() matches IdempotencyAction::Finish(Ok(_)),
    ensures
        actions.len() >= 2,
        actions[0] is Find,
        actions.last() matches IdempotencyAction::Finish(Ok(o)) && match events[1] {
            IdempotencyEvent::Found(Some(rec)) => {
                &&& actions.len() == 2
                &&& (o is Replay) == (rec.spec_completed() && rec.spec_request_hash() == request_hash)
                &&& !(o is Execute)
                &&& o matches IdempotencyOutcome::Replay(v) ==> rec.spec_result() == Some(v)
            },
            IdempotencyEvent::Found(None) => {
                &&& actions[1] matches IdempotencyAction::Insert(rec) && rec.spec_key() == key@
                    && rec.spec_request_hash() == request_hash && !rec.spec_completed()
                &&& (o is Execute) == (actions.len() == 3 && events[2] is Inserted)
                &&& forall|i: int| 1 < i < actions.len() ==> !(#[trigger] actions[i] is Insert)
            },
            _ => false,
        },
{
    let n = actions.len() as int;
    assert(begin_run_step(key, request_hash, states, events, actions, n - 1));
    assert(n - 1 != 0);
    assert(begin_run_step(key, request_hash, states, events, actions, n - 2));
    if n - 2 != 0 {
        assert(begin_run_step(key, request_hash, states, events, actions, n - 3));
        if n - 3 != 0 {
            assert(begin_run_step(key, request_hash, states, events, actions, n - 4));
            if n - 4 != 0 {
                assert(begin_run_step(key, request_hash, states, events, actions, n - 5));
            }
        }
    }
    assert(begin_run_step(key, request_hash, states, events, actions, 0));
    assert(begin_run_step(key, request_hash, states, events, actions, 1));
    if n > 2 {
        assert(begin_run_step(key, request_hash, states, events, actions, 2));
    }
}

/// One step of beginning a command under `key` for the request `request_hash`.
///
/// An existing record is decided on. Otherwise a new record is inserted and the command may
/// execute; if a concurrent caller inserted first, the persisted record is decided on, and a
/// record that vanished again is a conflict.
pub fn begin_step(key: &IdempotencyKey, request_hash: &str, state: BeginPhase, event: IdempotencyEvent) -> (r:
    (BeginPhase, IdempotencyAction))
    ensures
        begin_transition(*key, request_hash@, state, event, r),
{
    match state {
        BeginPhase::Start => (BeginPhase::AwaitFind, IdempotencyAction::Find),
        BeginPhase::AwaitFind => match event {
            IdempotencyEvent::Found(Some(record)) => (
                BeginPhase::Finished,
                IdempotencyAction::Finish(Ok(decide(&record, request_hash))),
            ),
            IdempotencyEvent::Found(None) => (
                BeginPhase::AwaitInsert,
                IdempotencyAction::Insert(IdempotencyRecord::new(key.clone(), request_hash.to_owned())),
            ),
            IdempotencyEvent::Failed(e) => (BeginPhase::Finished, IdempotencyAction::Finish(Err(e))),
            _ => (
                BeginPhase::Finished,
                IdempotencyAction::Finish(
                    Err(CoreError::Invariant(crate::error::Invariant::UnexpectedRecoveryEvent)),
                ),
            ),
        },
        BeginPhase::AwaitInsert => match event {
            IdempotencyEvent::Inserted => (
                BeginPhase::Finished,
                IdempotencyAction::Finish(Ok(IdempotencyOutcome::Execute)),
            ),
            IdempotencyEvent::Failed(e) => match e {
                CoreError::Conflict(_) => (BeginPhase::AwaitRefind, IdempotencyAction::Find),
                _ => (BeginPhase::Finished, IdempotencyAction::Finish(Err(e))),
            },
            _ => (
                BeginPhase::Finished,
                IdempotencyAction::Finish(
                    Err(CoreError::Invariant(crate::error::Invariant::UnexpectedRecoveryEvent)),
                ),
            ),
        },
        BeginPhase::AwaitRefind => match event {
            IdempotencyEvent::Found(Some(record)) => (
                BeginPhase::Finished,
                IdempotencyAction::Finish(Ok(decide(&record, request_hash))),
            ),
            IdempotencyEvent::Found(None) => (
                BeginPhase::Finished,
                IdempotencyAction::Finish(Ok(IdempotencyOutcome::Conflict)),
            ),
            IdempotencyEvent::Failed(e) => (BeginPhase::Finished, IdempotencyAction::Finish(Err(e))),
            _ => (
                BeginPhase::Finished,
                IdempotencyAction::Finish(
                    Err(CoreError::Invariant(crate::error::Invariant::UnexpectedRecoveryEvent)),
                ),
            ),
        },
        BeginPhase::Finished => match event {
            IdempotencyEvent::Failed(e) => (BeginPhase::Finished, IdempotencyAction::Finish(Err(e))),
            _ => (
                BeginPhase::Finished,
                IdempotencyAction::Finish(
                    Err(CoreError::Invariant(crate::error::Invariant::UnexpectedRecoveryEvent)),
                ),
            ),
        },
    }
}

} // verus!
