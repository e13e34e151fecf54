use asset_core::domain::checksum::{calculate_checksum, hex_sha256, Checksum};
use asset_core::domain::ids::{DirectoryId, UploadId, UserId};
use asset_core::domain::path::{DirectoryPath, StorageKey};
use asset_core::domain::resource::{DirectoryLocation, Resource};
use asset_core::error::{Conflict, CoreError};
use asset_core::resource::contract::CreateUpload;
use asset_core::resource::query::LocatedResource;
use asset_core::resource::upload::{accept_upload_chunk, UploadSession, UploadStatus};
use asset_core::resource::upload_flow::{
    accept_content_kind, append_step, choose_content_kind, create_step, finalization_step, generated_step,
    GeneratedPhase, GeneratedRun,
    finalize_entry_step, session_step, AppendPhase, AppendRun, CreatePhase, CreateRun,
    Finalization, FinalizeEntry, SessionCommand, SessionPhase, SessionRun, StoredBlob,
    UploadAction, UploadEvent, UploadOutcome,
};

/// Sessions, Blob storage and the Resource store held in memory.
struct Host {
    sessions: Vec<UploadSession>,
    blobs: Vec<(String, Vec<u8>)>,
    resources: Vec<Resource>,
    directories: Vec<DirectoryLocation>,
    incoming: Vec<Result<Vec<u8>, CoreError>>,
    generated: Vec<u8>,
}

fn set_status(session: &UploadSession, status: UploadStatus) -> UploadSession {
    UploadSession::rehydrate(
        session.id(),
        session.owner_id(),
        session.resource_id(),
        session.name(),
        session.directory_id(),
        session.kind().clone(),
        session.mime_type().map(|m| m.to_string()),
        session.expected_size(),
        session.expected_checksum().clone(),
        session.offset(),
        status,
        session.actual_checksum().cloned(),
    )
    .unwrap()
}

impl Host {
    fn new() -> Host {
        Host {
            sessions: Vec::new(),
            blobs: Vec::new(),
            resources: Vec::new(),
            directories: vec![DirectoryLocation::new(DirectoryId::root(), DirectoryPath::root())],
            incoming: Vec::new(),
            generated: Vec::new(),
        }
    }

    fn get(&self, key: &str) -> Option<Vec<u8>> {
        self.blobs.iter().find(|(k, _)| k == key).map(|(_, d)| d.clone())
    }

    fn put(&mut self, key: &str, data: Vec<u8>) {
        self.blobs.retain(|(k, _)| k != key);
        self.blobs.push((key.to_string(), data));
    }

    fn remove(&mut self, key: &str) {
        self.blobs.retain(|(k, _)| k != key);
    }

    fn session(&self, id: UploadId) -> Option<UploadSession> {
        self.sessions.iter().find(|s| s.id() == id).cloned()
    }

    fn store_session(&mut self, session: UploadSession) {
        self.sessions.retain(|s| s.id() != session.id());
        self.sessions.push(session);
    }

    fn perform(&mut self, action: UploadAction) -> Result<UploadEvent, Result<UploadOutcome, CoreError>> {
        Ok(match action {
            UploadAction::LoadSession(id) => UploadEvent::SessionLoaded(self.session(id)),
            UploadAction::LoadResource(id) => {
                UploadEvent::ResourceLoaded(self.resources.iter().find(|r| r.id() == id).cloned())
            }
            UploadAction::InspectStaged(key) => {
                UploadEvent::StagedSize(self.get(key.as_str()).map(|d| d.len() as u64))
            }
            UploadAction::UpdateOffset { id, from, to } => match self.session(id) {
                Some(mut s) if s.offset() == from => match s.synchronize_offset(to) {
                    Ok(()) => {
                        self.store_session(s);
                        UploadEvent::Applied(true)
                    }
                    Err(e) => UploadEvent::Failed(e),
                },
                _ => UploadEvent::Applied(false),
            },
            UploadAction::DiscardStaged(staged) => {
                self.remove(staged.key().as_str());
                UploadEvent::Completed
            }
            UploadAction::CreateStaged(key) => {
                self.put(key.as_str(), Vec::new());
                UploadEvent::Completed
            }
            UploadAction::AppendChunk { chunk, remaining } => {
                self.put(chunk.as_str(), Vec::new());
                let mut received = 0;
                let mut data = Vec::new();
                for piece in std::mem::take(&mut self.incoming) {
                    let piece = match piece {
                        Ok(p) => p,
                        Err(e) => {
                            self.put(chunk.as_str(), data);
                            return Ok(UploadEvent::Failed(e));
                        }
                    };
                    received = match accept_upload_chunk(received, piece.len() as u64, remaining) {
                        Ok(total) => total,
                        Err(e) => return Ok(UploadEvent::Failed(e)),
                    };
                    data.extend_from_slice(&piece);
                }
                let checksum = calculate_checksum(&data).unwrap();
                self.put(chunk.as_str(), data);
                UploadEvent::ChunkAppended(checksum)
            }
            UploadAction::AppendFromChunk { chunk, staged, offset } => match self.get(chunk.as_str()) {
                None => UploadEvent::ChunkMissing,
                Some(bytes) => {
                    let mut content = self.get(staged.as_str()).unwrap_or_default();
                    content.truncate(offset as usize);
                    content.extend_from_slice(&bytes);
                    let written = content.len() as u64;
                    self.put(staged.as_str(), content);
                    UploadEvent::Written(written)
                }
            },
            UploadAction::MarkFinalizing(id) => match self.session(id) {
                Some(mut s) => match s.mark_finalizing() {
                    Ok(()) => {
                        self.store_session(s);
                        UploadEvent::Applied(true)
                    }
                    Err(_) => UploadEvent::Applied(false),
                },
                None => UploadEvent::Applied(false),
            },
            UploadAction::MarkCompleted(id) => {
                let s = self.session(id).unwrap();
                self.store_session(set_status(&s, UploadStatus::Completed));
                UploadEvent::Completed
            }
            UploadAction::MarkFailed { id, error } => {
                let s = self.session(id).unwrap();
                self.store_session(set_status(&s, UploadStatus::Failed));
                return Err(Err(error));
            }
            UploadAction::RunFinalization(session) => UploadEvent::Finalized(self.run_finalization(&session)),
            UploadAction::ResolveKind { kind, mime_type: _, storage_key: _ } => {
                UploadEvent::KindResolved(accept_content_kind(choose_content_kind(kind, None), true, true).unwrap())
            }
            UploadAction::ComputeChecksum(key) => {
                UploadEvent::ChecksumComputed(self.get(key.as_str()).map(|d| calculate_checksum(&d).unwrap()))
            }
            UploadAction::SaveActualChecksum { id, checksum } => {
                let mut s = self.session(id).unwrap();
                s.set_actual_checksum(checksum).unwrap();
                self.store_session(s);
                UploadEvent::Completed
            }
            UploadAction::LocateDirectory(id) => UploadEvent::DirectoryLocated(
                self.directories.iter().find(|d| d.id() == id).cloned().unwrap(),
            ),
            UploadAction::FindByDirectoryAndName { directory_id, name } => UploadEvent::ResourceFound(
                self.resources
                    .iter()
                    .find(|r| r.directory_id() == directory_id && r.name() == name)
                    .map(|r| {
                        let location = self.directories.iter().find(|d| d.id() == directory_id).cloned().unwrap();
                        asset_core::resource::query::LocatedResource::new(r.clone(), location).unwrap()
                    }),
            ),
            UploadAction::PublishStaged { staged, to } => {
                if self.get(to.as_str()).is_some() {
                    UploadEvent::Failed(CoreError::Conflict(Conflict::PhysicalDestinationExists))
                } else {
                    let data = self.get(staged.key().as_str()).unwrap();
                    self.remove(staged.key().as_str());
                    self.put(to.as_str(), data);
                    UploadEvent::Completed
                }
            }
            UploadAction::Inspect(key) => UploadEvent::Stored(
                self.get(key.as_str()).map(|d| StoredBlob { size: d.len() as u64, modified_at: 1 }),
            ),
            UploadAction::InsertResource(resource) => {
                self.resources.push(resource);
                UploadEvent::Completed
            }
            UploadAction::DeleteIfRevision { id, revision } => {
                let before = self.resources.len();
                self.resources.retain(|r| !(r.id() == id && r.revision() == revision));
                UploadEvent::Applied(before != self.resources.len())
            }
            UploadAction::DeleteBlob(key) => {
                self.remove(key.as_str());
                UploadEvent::Completed
            }
            UploadAction::SaveSession(session) => {
                self.store_session(session);
                UploadEvent::Completed
            }
            UploadAction::RemoveSession(id) => {
                self.sessions.retain(|s| s.id() != id);
                UploadEvent::Completed
            }
            UploadAction::AppendGenerated(key) => {
                let data = self.generated.clone();
                let written = data.len() as u64;
                self.put(key.as_str(), data);
                UploadEvent::Written(written)
            }
            UploadAction::Finish(result) => return Err(result),
        })
    }

    fn run_finalization(&mut self, session: &UploadSession) -> Result<Resource, CoreError> {
        let (mut state, mut action) = finalization_step(session, Finalization::Start, UploadEvent::Started);
        loop {
            match self.perform(action) {
                Ok(event) => (state, action) = finalization_step(session, state, event),
                Err(Ok(UploadOutcome::Resource(resource))) => return Ok(resource),
                Err(Ok(_)) => panic!("finalization ends with a Resource"),
                Err(Err(e)) => return Err(e),
            }
        }
    }

    fn store_generated(&mut self, name: &str, data: &[u8]) -> Result<LocatedResource, CoreError> {
        self.generated = data.to_vec();
        let run = GeneratedRun {
            directory: self.directories[0].clone(),
            name: name.to_string(),
            kind: None,
            mime_type: Some("text/plain".to_string()),
            data: data.to_vec(),
        };
        let (mut state, mut action) = generated_step(&run, GeneratedPhase::Start, UploadEvent::Started);
        loop {
            match self.perform(action) {
                Ok(event) => (state, action) = generated_step(&run, state, event),
                Err(Ok(UploadOutcome::Located(l))) => return Ok(l),
                Err(Ok(_)) => panic!("storing generated content ends with a located Resource"),
                Err(Err(e)) => return Err(e),
            }
        }
    }

    fn create(&mut self, owner: UserId, command: CreateUpload) -> Result<UploadSession, CoreError> {
        let run = CreateRun { owner_id: owner, command };
        let (mut state, mut action) = create_step(&run, CreatePhase::Start, UploadEvent::Started);
        loop {
            match self.perform(action) {
                Ok(event) => (state, action) = create_step(&run, state, event),
                Err(Ok(UploadOutcome::Session(s))) => return Ok(s),
                Err(Ok(_)) => panic!("creation ends with a session"),
                Err(Err(e)) => return Err(e),
            }
        }
    }

    fn append(&mut self, owner: UserId, id: UploadId, offset: u64, checksum: Checksum, data: Vec<Result<Vec<u8>, CoreError>>) -> Result<UploadSession, CoreError> {
        self.incoming = data;
        let run = AppendRun { owner_id: owner, id, requested_offset: offset, expected_chunk_checksum: checksum };
        let (mut state, mut action) = append_step(&run, AppendPhase::Start, UploadEvent::Started);
        loop {
            match self.perform(action) {
                Ok(event) => (state, action) = append_step(&run, state, event),
                Err(Ok(UploadOutcome::Session(s))) => return Ok(s),
                Err(Ok(_)) => panic!("appending ends with a session"),
                Err(Err(e)) => return Err(e),
            }
        }
    }

    fn session_command(&mut self, owner: UserId, id: UploadId, command: SessionCommand) -> Result<UploadOutcome, CoreError> {
        let run = SessionRun { owner_id: owner, id, command };
        let (mut state, mut action) = session_step(&run, SessionPhase::Start, UploadEvent::Started);
        loop {
            match self.perform(action) {
                Ok(event) => (state, action) = session_step(&run, state, event),
                Err(result) => return result,
            }
        }
    }

    fn status(&mut self, owner: UserId, id: UploadId) -> UploadSession {
        match self.session_command(owner, id, SessionCommand::Status).unwrap() {
            UploadOutcome::Session(s) => s,
            _ => panic!("status reports the session"),
        }
    }

    fn finalize(&mut self, id: UploadId) -> Result<UploadOutcome, CoreError> {
        let (mut state, mut action) = finalize_entry_step(id, FinalizeEntry::Start, UploadEvent::Started);
        loop {
            match self.perform(action) {
                Ok(event) => (state, action) = finalize_entry_step(id, state, event),
                Err(result) => return result,
            }
        }
    }
}

fn checksum_of(data: &[u8]) -> Checksum {
    Checksum::sha256(&hex_sha256(data)).unwrap()
}

fn staged_key(id: UploadId) -> String {
    format!(".asset-hub/uploads/{}", id.to_text())
}

#[test]
fn upload_chunk_checksum_mismatch_keeps_offset_and_staged_content_unchanged() {
    let mut host = Host::new();
    let owner = UserId(11);
    let data = b"verified chunk".to_vec();
    let session = host
        .create(owner, CreateUpload::new("chunk.bin", DirectoryId::root(), data.len() as u64, checksum_of(&data)))
        .unwrap();

    let error = host
        .append(owner, session.id(), 0, checksum_of(b"different chunk"), vec![Ok(data.clone())])
        .unwrap_err();
    assert!(matches!(error, CoreError::Conflict(Conflict::UploadChunkChecksumMismatch)));
    let status = host.status(owner, session.id());
    assert_eq!(status.offset(), 0);
    assert_eq!(host.get(&staged_key(session.id())), Some(Vec::new()));
    assert!(!host.blobs.iter().any(|(k, _)| k.contains(".chunk")));

    let resumed = host.append(owner, session.id(), 0, checksum_of(&data), vec![Ok(data.clone())]).unwrap();
    assert_eq!(resumed.offset(), resumed.expected_size());
    assert_eq!(host.get(&staged_key(session.id())), Some(b"verified chunk".to_vec()));
    assert!(!host.blobs.iter().any(|(k, _)| k.contains(".chunk")));
}

#[test]
fn interrupted_upload_chunk_never_reaches_the_session_staging_file() {
    let mut host = Host::new();
    let owner = UserId(12);
    let session = host
        .create(owner, CreateUpload::new("interrupted.bin", DirectoryId::root(), 12, checksum_of(b"partial data")))
        .unwrap();

    let error = host
        .append(
            owner,
            session.id(),
            0,
            checksum_of(b"partial data"),
            vec![Ok(b"partial".to_vec()), Err(CoreError::Conflict(Conflict::UploadIncomplete))],
        )
        .unwrap_err();
    assert!(matches!(error, CoreError::Conflict(Conflict::UploadIncomplete)));
    let status = host.status(owner, session.id());
    assert_eq!(status.offset(), 0);
    assert_eq!(host.get(&staged_key(session.id())), Some(Vec::new()));
    assert!(!host.blobs.iter().any(|(k, _)| k.contains(".chunk")));
}

#[test]
fn upload_checksum_mismatch_fails_before_publication() {
    let mut host = Host::new();
    let assets = DirectoryLocation::new(DirectoryId::new(), DirectoryPath::from_path("assets").unwrap());
    let assets_id = assets.id();
    host.directories.push(assets);
    let owner = UserId(13);
    let expected = b"right".to_vec();
    let received = b"wrong".to_vec();
    let session = host
        .create(owner, CreateUpload::new("mismatch.bin", assets_id, received.len() as u64, checksum_of(&expected)))
        .unwrap();
    host.append(owner, session.id(), 0, checksum_of(&received), vec![Ok(received.clone())]).unwrap();
    host.session_command(owner, session.id(), SessionCommand::RequestFinalization).unwrap();

    let error = host.finalize(session.id()).unwrap_err();
    assert!(matches!(error, CoreError::Conflict(Conflict::UploadChecksumMismatch)));
    let failed = host.session(session.id()).unwrap();
    assert_eq!(failed.status(), UploadStatus::Failed);
    assert_eq!(failed.actual_checksum().unwrap().value(), hex_sha256(b"wrong"));
    assert!(host.resources.iter().all(|r| r.id() != session.resource_id()));
    assert!(host.get("assets/mismatch.bin").is_none());
    assert!(host.blobs.iter().any(|(k, _)| k.starts_with(".asset-hub/uploads/")));
}

#[test]
fn a_complete_upload_publishes_and_records_the_resource() {
    let mut host = Host::new();
    let owner = UserId(14);
    let data = b"hello world".to_vec();
    let session = host
        .create(owner, CreateUpload::new("hello.txt", DirectoryId::root(), data.len() as u64, checksum_of(&data)))
        .unwrap();
    host.append(owner, session.id(), 0, checksum_of(b"hello "), vec![Ok(b"hello ".to_vec())]).unwrap();
    let after = host.append(owner, session.id(), 6, checksum_of(b"world"), vec![Ok(b"world".to_vec())]).unwrap();
    assert_eq!(after.offset(), 11);

    let error = host.append(owner, session.id(), 11, checksum_of(b"!"), vec![Ok(b"!".to_vec())]);
    assert!(error.is_err());

    host.session_command(owner, session.id(), SessionCommand::RequestFinalization).unwrap();
    let finished = host.finalize(session.id()).unwrap();
    let resource = match finished {
        UploadOutcome::Resource(r) => r,
        other => panic!("expected the Resource, got {other:?}"),
    };
    assert_eq!(resource.id(), session.resource_id());
    assert_eq!(resource.name(), "hello.txt");
    assert_eq!(resource.content().unwrap().checksum().unwrap().value(), hex_sha256(b"hello world"));
    assert_eq!(host.get("hello.txt"), Some(data));
    assert_eq!(host.session(session.id()).unwrap().status(), UploadStatus::Completed);
    assert!(host.get(&staged_key(session.id())).is_none());

    let again = host.finalize(session.id()).unwrap();
    assert!(matches!(again, UploadOutcome::Resource(r) if r.id() == session.resource_id()));
}

#[test]
fn other_owners_cannot_see_an_upload_and_aborting_discards_it() {
    let mut host = Host::new();
    let owner = UserId(15);
    let session = host
        .create(owner, CreateUpload::new("gone.bin", DirectoryId::root(), 3, checksum_of(b"abc")))
        .unwrap();
    assert!(matches!(
        host.session_command(UserId(16), session.id(), SessionCommand::Status),
        Err(CoreError::NotFound { .. })
    ));
    assert!(matches!(
        host.session_command(owner, session.id(), SessionCommand::RequestFinalization),
        Err(CoreError::Conflict(Conflict::UploadIncomplete))
    ));
    assert!(matches!(
        host.session_command(owner, session.id(), SessionCommand::Abort),
        Ok(UploadOutcome::Aborted)
    ));
    assert!(host.session(session.id()).is_none());
    assert!(host.blobs.is_empty());
}

#[test]
fn generated_content_is_published_at_its_visible_key_and_recorded_verified() {
    let mut host = Host::new();
    let located = host.store_generated("report.txt", b"generated").unwrap();
    let content = located.resource().content().unwrap();
    assert_eq!(content.size(), 9);
    assert_eq!(content.checksum().unwrap().value(), hex_sha256(b"generated"));
    assert_eq!(content.mime_type(), Some("text/plain"));
    assert_eq!(host.get("report.txt"), Some(b"generated".to_vec()));
    assert_eq!(host.blobs.len(), 1);
    assert_eq!(host.resources.len(), 1);

    assert!(matches!(
        host.store_generated("report.txt", b"again"),
        Err(CoreError::Conflict(Conflict::ResourcePathOccupied))
    ));
    assert!(matches!(host.store_generated("a/../b", b"x"), Err(CoreError::InvalidStorageKey)));
}

#[test]
fn an_appended_chunk_over_eight_mebibytes_is_refused_even_when_the_declared_size_leaves_room() {
    let mib: u64 = 1024 * 1024;
    let refused = accept_upload_chunk(0, 9 * mib, 10 * mib);
    assert!(matches!(
        refused,
        Err(CoreError::LimitExceeded { limit, actual, .. }) if limit == 8 * mib && actual == 9 * mib
    ));
    assert!(matches!(accept_upload_chunk(0, 8 * mib, 10 * mib), Ok(total) if total == 8 * mib));
    assert!(matches!(
        accept_upload_chunk(4 * mib, 5 * mib, 10 * mib),
        Err(CoreError::LimitExceeded { .. })
    ));
    assert!(matches!(
        accept_upload_chunk(0, 11 * mib, 10 * mib),
        Err(CoreError::Conflict(Conflict::UploadChunkExceedsDeclaredSize))
    ));
}
