//! Reconciliation of Blob storage with the Resource and Directory stores.
//!
//! The storage scanner only reports facts; the decisions of projecting them onto the stores
//! stand here. Records are removed only after a complete scan, so that an incomplete scan
//! never deletes anything.

use crate::directory::domain::LocatedDirectory;
use crate::domain::path::{DirectoryPath, StorageKey};
use crate::domain::resource::{ContentVerificationStatus, ResourceContent, ResourceContentView};
use crate::error::CoreError;
use crate::resource::query::{located_key, LocatedResource};
use crate::text_order::{
    key_le, lemma_map_values_multiset, sort_by_text_key, text_le, texts_sorted,
};
use vstd::prelude::*;

verus! {

broadcast use vstd::seq_lib::group_to_multiset_ensures;

/// A Blob reported by the storage scanner: its key, size in bytes, MIME type and modification
/// time.
#[derive(Debug)]
pub struct ScannedBlob {
    pub key: StorageKey,
    pub size: u64,
    pub mime_type: Option<String>,
    pub modified_at: i64,
}

impl Clone for ScannedBlob {
    fn clone(&self) -> (r: Self)
        ensures
            r.key@ == self.key@,
            r.size == self.size,
            r.mime_type == self.mime_type,
            r.modified_at == self.modified_at,
    {
        ScannedBlob {
            key: self.key.clone(),
            size: self.size,
            mime_type: crate::resource::reconciliation::clone_text(&self.mime_type),
            modified_at: self.modified_at,
        }
    }
}

pub(crate) fn clone_text(o: &Option<String>) -> (r: Option<String>)
    ensures
        r == *o,
{
    match o {
        Some(s) => Some(s.clone()),
        None => None,
    }
}

/// What a scan does with a Blob.
#[derive(Debug, Clone, Copy, PartialEq, Eq, Structural)]
pub enum BlobDisposition {
    /// Its recorded content is still unverified: the checksum is left to a background pass.
    DeferVerification,
    /// Its recorded content is verified and matches size and modification time.
    Unchanged,
    /// Its checksum must be computed and the stores brought up to date.
    Rehash,
}

/// The recorded content that still describes a Blob of `size` bytes modified at
/// `modified_at`.
pub open spec fn matching_content(
    existing: Option<ResourceContentView>,
    size: u64,
    modified_at: i64,
) -> Option<ResourceContentView> {
    match existing {
        Some(c) => if c.size == size && c.modified_at == Some(modified_at) {
            Some(c)
        } else {
            None
        },
        None => None,
    }
}

/// The disposition of a scanned Blob given the content recorded at its key.
pub open spec fn blob_disposition(
    existing: Option<ResourceContentView>,
    size: u64,
    modified_at: i64,
    force_checksum: bool,
    defer_pending_verification: bool,
) -> BlobDisposition {
    let m = matching_content(existing, size, modified_at);
    if !force_checksum && defer_pending_verification && (m matches Some(c) && c.status
        != ContentVerificationStatus::Verified) {
        BlobDisposition::DeferVerification
    } else if !force_checksum && (m matches Some(c) && c.status
        == ContentVerificationStatus::Verified) {
        BlobDisposition::Unchanged
    } else {
        BlobDisposition::Rehash
    }
}

/// The view of an optional content reference.
pub open spec fn opt_ref_content(o: Option<&ResourceContent>) -> Option<ResourceContentView> {
    match o {
        Some(c) => Some(c@),
        None => None,
    }
}

/// Decide what a scan does with `blob`, given the content recorded at its key: a forced scan
/// rehashes everything; otherwise recorded content that matches size and modification time is
/// left alone when verified, and deferred when unverified and deferral is asked for.
pub fn classify_scanned_blob(
    existing: Option<&ResourceContent>,
    blob: &ScannedBlob,
    force_checksum: bool,
    defer_pending_verification: bool,
) -> (r: BlobDisposition)
    ensures
        r == blob_disposition(
            opt_ref_content(existing),
            blob.size,
            blob.modified_at,
            force_checksum,
            defer_pending_verification,
        ),
{
    let matching = match existing {
        Some(c) => if c.size() == blob.size && c.modified_at() == Some(blob.modified_at) {
            Some(c)
        } else {
            None
        },
        None => None,
    };
    match matching {
        Some(c) => {
            let verified = c.verification_status() == ContentVerificationStatus::Verified;
            if !force_checksum && defer_pending_verification && !verified {
                BlobDisposition::DeferVerification
            } else if !force_checksum && verified {
                BlobDisposition::Unchanged
            } else {
                BlobDisposition::Rehash
            }
        },
        None => BlobDisposition::Rehash,
    }
}

/// The abstract value of a located Resource.
pub type LocatedView = (crate::domain::resource::ResourceView, (crate::domain::ids::DirectoryId, Seq<char>));

/// The content recorded for `key`: that of the last listed Resource at that key, as a map
/// keyed by storage key keeps the last insertion.
pub open spec fn content_at_key(resources: Seq<LocatedView>, key: Seq<char>) -> Option<
    ResourceContentView,
>
    decreases resources.len(),
{
    if resources.len() == 0 {
        None
    } else if located_key(resources.last()) == key {
        resources.last().0.content
    } else {
        content_at_key(resources.drop_last(), key)
    }
}

/// `key` is among `keys`.
pub open spec fn key_in(keys: Seq<Seq<char>>, key: Seq<char>) -> bool {
    exists|i: int| 0 <= i < keys.len() && keys[i] == key
}

/// `keys` with `key` added unless already present, as a set keeps it.
pub open spec fn insert_key(keys: Seq<Seq<char>>, key: Seq<char>) -> Seq<Seq<char>> {
    if key_in(keys, key) {
        keys
    } else {
        keys.push(key)
    }
}

/// The views of storage keys.
pub open spec fn key_texts(keys: Seq<StorageKey>) -> Seq<Seq<char>> {
    keys.map_values(|k: StorageKey| k@)
}

/// The views of Directory paths.
pub open spec fn path_texts(paths: Seq<DirectoryPath>) -> Seq<Seq<char>> {
    paths.map_values(|p: DirectoryPath| p@)
}

/// The views of located Resources.
pub open spec fn located_views(resources: Seq<LocatedResource>) -> Seq<LocatedView> {
    resources.map_values(|l: LocatedResource| l@)
}

fn position_of_key(keys: &Vec<StorageKey>, key: &StorageKey) -> (r: Option<usize>)
    ensures
        match r {
            Some(i) => i < keys@.len() && keys@[i as int]@ == key@,
            None => !key_in(key_texts(keys@), key@),
        },
{
    let mut i: usize = 0;
    while i < keys.len()
        invariant
            i <= keys@.len(),
            forall|j: int| 0 <= j < i ==> keys@[j]@ != key@,
        decreases keys@.len() - i,
    {
        if keys[i].same_as(key) {
            return Some(i);
        }
        i = i + 1;
    }
    proof {
        assert forall|j: int| 0 <= j < key_texts(keys@).len() implies key_texts(keys@)[j]
            != key@ by {
            assert(key_texts(keys@)[j] == keys@[j]@);
        }
    }
    None
}

fn contains_path(paths: &Vec<DirectoryPath>, path: &DirectoryPath) -> (r: bool)
    ensures
        r == key_in(path_texts(paths@), path@),
{
    let mut i: usize = 0;
    while i < paths.len()
        invariant
            i <= paths@.len(),
            forall|j: int| 0 <= j < i ==> paths@[j]@ != path@,
        decreases paths@.len() - i,
    {
        if paths[i].same_as(path) {
            proof {
                assert(path_texts(paths@)[i as int] == path@);
            }
            return true;
        }
        i = i + 1;
    }
    proof {
        assert forall|j: int| 0 <= j < path_texts(paths@).len() implies path_texts(paths@)[j]
            != path@ by {
            assert(path_texts(paths@)[j] == paths@[j]@);
        }
    }
    false
}

/// The result of reconciling storage: counts of what was seen and done, the sorted keys of the
/// physical directories, and the sorted keys whose checksum is left to a background pass.
#[derive(Debug, Default, PartialEq, Eq)]
pub struct StorageReconciliationReport {
    pub files: u64,
    pub hashed_files: u64,
    pub unchanged_files: u64,
    pub directories: u64,
    pub removed_resources: u64,
    pub elapsed: std::time::Duration,
    pub hash_elapsed: std::time::Duration,
    directory_keys: Vec<StorageKey>,
    pending_verification_keys: Vec<StorageKey>,
}

/// The abstract value of a reconciliation report; the elapsed times are measurements and not
/// part of it.
pub struct ReportView {
    pub files: u64,
    pub hashed_files: u64,
    pub unchanged_files: u64,
    pub directories: u64,
    pub removed_resources: u64,
    pub directory_keys: Seq<Seq<char>>,
    pub pending_verification_keys: Seq<Seq<char>>,
}

impl View for StorageReconciliationReport {
    type V = ReportView;

    closed spec fn view(&self) -> ReportView {
        ReportView {
            files: self.files,
            hashed_files: self.hashed_files,
            unchanged_files: self.unchanged_files,
            directories: self.directories,
            removed_resources: self.removed_resources,
            directory_keys: key_texts(self.directory_keys@),
            pending_verification_keys: key_texts(self.pending_verification_keys@),
        }
    }
}

impl Clone for StorageReconciliationReport {
    fn clone(&self) -> (r: Self)
        ensures
            r@ == self@,
    {
        StorageReconciliationReport {
            files: self.files,
            hashed_files: self.hashed_files,
            unchanged_files: self.unchanged_files,
            directories: self.directories,
            removed_resources: self.removed_resources,
            elapsed: self.elapsed,
            hash_elapsed: self.hash_elapsed,
            directory_keys: clone_keys(&self.directory_keys),
            pending_verification_keys: clone_keys(&self.pending_verification_keys),
        }
    }
}

fn clone_keys(keys: &Vec<StorageKey>) -> (r: Vec<StorageKey>)
    ensures
        key_texts(r@) == key_texts(keys@),
{
    let mut out: Vec<StorageKey> = Vec::new();
    let mut i: usize = 0;
    while i < keys.len()
        invariant
            i <= keys@.len(),
            out@.len() == i,
            forall|j: int| 0 <= j < i ==> #[trigger] out@[j]@ == keys@[j]@,
        decreases keys@.len() - i,
    {
        out.push(keys[i].clone());
        i = i + 1;
    }
    proof {
        assert(key_texts(out@) =~= key_texts(keys@));
    }
    out
}

impl StorageReconciliationReport {
    /// The time the whole reconciliation took.
    pub closed spec fn elapsed_time(&self) -> std::time::Duration {
        self.elapsed
    }

    /// The time spent computing checksums.
    pub closed spec fn hash_time(&self) -> std::time::Duration {
        self.hash_elapsed
    }

    pub fn directory_keys(&self) -> (r: &[StorageKey])
        ensures
            key_texts(r@) == self@.directory_keys,
    {
        self.directory_keys.as_slice()
    }

    /// The objects whose checksum is to be computed in the background after a first recovery
    /// pass.
    pub fn pending_verification_keys(&self) -> (r: &[StorageKey])
        ensures
            key_texts(r@) == self@.pending_verification_keys,
    {
        self.pending_verification_keys.as_slice()
    }
}

/// The abstract state of a reconciliation pass.
pub struct ReconciliationPassView {
    pub force_checksum: bool,
    pub defer_pending_verification: bool,
    pub resources: Seq<LocatedView>,
    pub physical_keys: Seq<Seq<char>>,
    pub physical_directories: Seq<Seq<char>>,
    pub files: u64,
    pub hashed_files: u64,
    pub unchanged_files: u64,
    pub directories: u64,
    pub removed_resources: u64,
    pub pending: Seq<Seq<char>>,
}

/// How a pass treats a scanned Blob at `key` of `size` bytes modified at `modified_at`, given
/// the content recorded at that key.
pub open spec fn scanned_disposition(pass: ReconciliationPassView, key: Seq<char>, size: u64, modified_at: i64) -> BlobDisposition {
    blob_disposition(
        content_at_key(pass.resources, key),
        size,
        modified_at,
        pass.force_checksum,
        pass.defer_pending_verification,
    )
}

/// The pass after recording a scanned Blob: one more file, its key seen, and one more unchanged
/// file or one more deferred key as the Blob's disposition says.
pub open spec fn after_blob(pass: ReconciliationPassView, key: Seq<char>, size: u64, modified_at: i64) -> ReconciliationPassView {
    let d = scanned_disposition(pass, key, size, modified_at);
    ReconciliationPassView {
        files: (pass.files + 1) as u64,
        physical_keys: insert_key(pass.physical_keys, key),
        unchanged_files: if d == BlobDisposition::Unchanged {
            (pass.unchanged_files + 1) as u64
        } else {
            pass.unchanged_files
        },
        pending: if d == BlobDisposition::DeferVerification {
            pass.pending.push(key)
        } else {
            pass.pending
        },
        ..pass
    }
}

/// The pass after a Blob was rehashed.
pub open spec fn after_hashed(pass: ReconciliationPassView) -> ReconciliationPassView {
    ReconciliationPassView { hashed_files: (pass.hashed_files + 1) as u64, ..pass }
}

/// A forced scan rehashes every Blob, whatever was recorded for it: none is counted unchanged
/// and none is deferred, so a forced pass that hashes each Blob it records has hashed exactly
/// as many files as it saw.
pub proof fn lemma_forced_scan_rehashes_every_blob(
    pass: ReconciliationPassView,
    key: Seq<char>,
    size: u64,
    modified_at: i64,
)
    requires
        pass.force_checksum,
        pass.hashed_files == pass.files,
        pass.unchanged_files == 0,
        pass.files < u64::MAX,
    ensures
        scanned_disposition(pass, key, size, modified_at) == BlobDisposition::Rehash,
        after_hashed(after_blob(pass, key, size, modified_at)).hashed_files == after_hashed(
            after_blob(pass, key, size, modified_at),
        ).files,
        after_hashed(after_blob(pass, key, size, modified_at)).unchanged_files == 0,
        after_hashed(after_blob(pass, key, size, modified_at)).pending == pass.pending,
{
}

/// The pass after recording the scanned Blobs `blobs` (key, size, modification time) in order,
/// each one that is to be rehashed being rehashed right after it was recorded.
pub open spec fn scan_pass(pass: ReconciliationPassView, blobs: Seq<(Seq<char>, u64, i64)>) -> ReconciliationPassView
    decreases blobs.len(),
{
    if blobs.len() == 0 {
        pass
    } else {
        let before = scan_pass(pass, blobs.drop_last());
        let b = blobs.last();
        let recorded = after_blob(before, b.0, b.1, b.2);
        if scanned_disposition(before, b.0, b.1, b.2) == BlobDisposition::Rehash {
            after_hashed(recorded)
        } else {
            recorded
        }
    }
}

/// A forced scan re-hashes every Blob: over a whole pass, whatever size and modification time
/// each Blob has and whatever was recorded for it, every scanned file is hashed again, none is
/// counted unchanged and none is left for background verification.
pub proof fn lemma_forced_pass_rehashes_all(pass: ReconciliationPassView, blobs: Seq<(Seq<char>, u64, i64)>)
    requires
        pass.force_checksum,
        pass.hashed_files == pass.files,
        pass.unchanged_files == 0,
        pass.files + blobs.len() <= u64::MAX,
    ensures
        scan_pass(pass, blobs).files == pass.files + blobs.len(),
        scan_pass(pass, blobs).hashed_files == scan_pass(pass, blobs).files,
        scan_pass(pass, blobs).unchanged_files == 0,
        scan_pass(pass, blobs).pending == pass.pending,
        scan_pass(pass, blobs).force_checksum,
        scan_pass(pass, blobs).resources == pass.resources,
    decreases blobs.len(),
{
    if blobs.len() > 0 {
        let rest = blobs.drop_last();
        lemma_forced_pass_rehashes_all(pass, rest);
        let before = scan_pass(pass, rest);
        let b = blobs.last();
        lemma_forced_scan_rehashes_every_blob(before, b.0, b.1, b.2);
    }
}

/// One scan of storage against the active Resources listed before it began. The caller feeds
/// every scanned entry, acts on what each returns, removes the candidates left unseen, and
/// finishes the pass.
pub struct ReconciliationPass {
    force_checksum: bool,
    defer_pending_verification: bool,
    listed: KeyedResources,
    physical_keys: Vec<StorageKey>,
    physical_directories: Vec<DirectoryPath>,
    files: u64,
    hashed_files: u64,
    unchanged_files: u64,
    directories: u64,
    removed_resources: u64,
    pending: Vec<StorageKey>,
}

impl View for ReconciliationPass {
    type V = ReconciliationPassView;

    closed spec fn view(&self) -> ReconciliationPassView {
        ReconciliationPassView {
            force_checksum: self.force_checksum,
            defer_pending_verification: self.defer_pending_verification,
            resources: located_views(self.listed.resources@),
            physical_keys: key_texts(self.physical_keys@),
            physical_directories: path_texts(self.physical_directories@),
            files: self.files,
            hashed_files: self.hashed_files,
            unchanged_files: self.unchanged_files,
            directories: self.directories,
            removed_resources: self.removed_resources,
            pending: key_texts(self.pending@),
        }
    }
}

/// The active Resources listed before a pass, each beside its storage key.
struct KeyedResources {
    resources: Vec<LocatedResource>,
    keys: Vec<StorageKey>,
}

impl KeyedResources {
    /// The key of every listed Resource is kept beside it.
    #[verifier::type_invariant]
    closed spec fn keys_match(self) -> bool {
        &&& self.keys@.len() == self.resources@.len()
        &&& forall|i: int|
            0 <= i < self.keys@.len() ==> #[trigger] self.keys@[i]@ == located_key(
                self.resources@[i]@,
            )
    }
}

impl ReconciliationPass {
    /// Start a pass over the active Resources `resources`.
    pub fn begin(resources: Vec<LocatedResource>, force_checksum: bool, defer_pending_verification: bool) -> (r: Self)
        ensures
            r@ == (ReconciliationPassView {
                force_checksum,
                defer_pending_verification,
                resources: located_views(resources@),
                physical_keys: Seq::empty(),
                physical_directories: Seq::empty(),
                files: 0,
                hashed_files: 0,
                unchanged_files: 0,
                directories: 0,
                removed_resources: 0,
                pending: Seq::empty(),
            }),
    {
        let mut keys: Vec<StorageKey> = Vec::new();
        let mut i: usize = 0;
        while i < resources.len()
            invariant
                i <= resources@.len(),
                keys@.len() == i,
                forall|j: int| 0 <= j < i ==> #[trigger] keys@[j]@ == located_key(resources@[j]@),
            decreases resources@.len() - i,
        {
            let key = match resources[i].storage_key() {
                Ok(k) => k,
                Err(_) => vstd::pervasive::unreached(),
            };
            keys.push(key);
            i = i + 1;
        }
        let r = ReconciliationPass {
            force_checksum,
            defer_pending_verification,
            listed: KeyedResources { resources, keys },
            physical_keys: Vec::new(),
            physical_directories: Vec::new(),
            files: 0,
            hashed_files: 0,
            unchanged_files: 0,
            directories: 0,
            removed_resources: 0,
            pending: Vec::new(),
        };
        proof {
            assert(key_texts(r.physical_keys@) =~= Seq::empty());
            assert(path_texts(r.physical_directories@) =~= Seq::empty());
            assert(key_texts(r.pending@) =~= Seq::empty());
        }
        r
    }
}

impl ReconciliationPass {
    /// The content recorded at `key` when the pass began.
    fn content_at(&self, key: &StorageKey) -> (r: Option<ResourceContent>)
        ensures
            opt_content_view(r) == content_at_key(self@.resources, key@),
    {
        proof {
            use_type_invariant(&self.listed);
        }
        let listed = &self.listed;
        let ghost views = located_views(listed.resources@);
        let mut i: usize = listed.resources.len();
        proof {
            assert(views.take(i as int) =~= views);
        }
        while i > 0
            invariant
                i <= listed.resources@.len(),
                listed.keys@.len() == listed.resources@.len(),
                forall|j: int|
                    0 <= j < listed.keys@.len() ==> #[trigger] listed.keys@[j]@ == located_key(
                        listed.resources@[j]@,
                    ),
                views == located_views(listed.resources@),
                views == self@.resources,
                content_at_key(views, key@) == content_at_key(views.take(i as int), key@),
            decreases i,
        {
            i = i - 1;
            proof {
                assert(views.take(i + 1).drop_last() =~= views.take(i as int));
                assert(views.take(i + 1).last() == listed.resources@[i as int]@);
            }
            if listed.keys[i].same_as(key) {
                proof {
                    assert(content_at_key(views.take(i + 1), key@) == listed.resources@[i as int]@.0.content);
                }
                let found = match listed.resources[i].resource().content() {
                    Some(c) => Some(c.clone()),
                    None => None,
                };
                proof {
                    assert(opt_content_view(found) == listed.resources@[i as int]@.0.content);
                }
                return found;
            }
        }
        None
    }

    /// Record a physical directory reported by the scan.
    pub fn record_directory(&mut self, directory: DirectoryPath)
        requires
            old(self)@.directories < u64::MAX,
        ensures
            final(self)@ == (ReconciliationPassView {
                directories: (old(self)@.directories + 1) as u64,
                physical_directories: insert_key(old(self)@.physical_directories, directory@),
                ..old(self)@
            }),
    {
        if !contains_path(&self.physical_directories, &directory) {
            self.physical_directories.push(directory);
        }
        self.directories = self.directories + 1;
        proof {
            assert(path_texts(self.physical_directories@) =~= insert_key(
                old(self)@.physical_directories,
                directory@,
            ));
        }
    }

    /// Record a Blob reported by the scan and decide what becomes of it. A deferred Blob is
    /// kept for background verification and a matching verified one is counted as unchanged;
    /// for one to rehash the caller synchronizes it and then calls `record_hashed`.
    pub fn record_blob(&mut self, blob: &ScannedBlob) -> (r: BlobDisposition)
        requires
            old(self)@.files < u64::MAX,
            old(self)@.unchanged_files < u64::MAX,
        ensures
            r == scanned_disposition(old(self)@, blob.key@, blob.size, blob.modified_at),
            final(self)@ == after_blob(old(self)@, blob.key@, blob.size, blob.modified_at),
    {
        self.note_blob_seen(&blob.key);
        self.files = self.files + 1;
        let existing = self.content_at(&blob.key);
        let existing_ref = existing.as_ref();
        let disposition = classify_scanned_blob(
            existing_ref,
            blob,
            self.force_checksum,
            self.defer_pending_verification,
        );
        proof {
            assert(opt_ref_content(existing_ref) == opt_content_view(existing));
        }
        match disposition {
            BlobDisposition::DeferVerification => {
                self.pending.push(blob.key.clone());
                proof {
                    assert(key_texts(self.pending@) =~= old(self)@.pending.push(blob.key@));
                }
            },
            BlobDisposition::Unchanged => {
                self.unchanged_files = self.unchanged_files + 1;
            },
            BlobDisposition::Rehash => {},
        }
        disposition
    }

    /// Record that a Blob was rehashed and synchronized.
    pub fn record_hashed(&mut self)
        requires
            old(self)@.hashed_files < u64::MAX,
        ensures
            final(self)@ == after_hashed(old(self)@),
    {
        self.hashed_files = self.hashed_files + 1;
    }

    /// Record that a Blob key exists physically.
    pub fn note_blob_seen(&mut self, key: &StorageKey)
        ensures
            final(self)@ == (ReconciliationPassView {
                physical_keys: insert_key(old(self)@.physical_keys, key@),
                ..old(self)@
            }),
    {
        match position_of_key(&self.physical_keys, key) {
            Some(i) => {
                proof {
                    assert(key_texts(self.physical_keys@)[i as int] == key@);
                }
            },
            None => {
                self.physical_keys.push(key.clone());
                proof {
                    assert(key_texts(self.physical_keys@) =~= old(self)@.physical_keys.push(key@));
                }
            },
        }
    }

    /// Record a Blob recovered from its metadata alone; its checksum is left to a background
    /// pass.
    pub fn record_recovered(&mut self, key: StorageKey)
        requires
            old(self)@.files < u64::MAX,
        ensures
            final(self)@ == (ReconciliationPassView {
                files: (old(self)@.files + 1) as u64,
                pending: old(self)@.pending.push(key@),
                ..old(self)@
            }),
    {
        self.files = self.files + 1;
        self.pending.push(key);
        proof {
            assert(key_texts(self.pending@) =~= old(self)@.pending.push(key@));
        }
    }

    /// Record that a Resource whose Blob vanished was removed.
    pub fn record_removed(&mut self)
        requires
            old(self)@.removed_resources < u64::MAX,
        ensures
            final(self)@ == (ReconciliationPassView {
                removed_resources: (old(self)@.removed_resources + 1) as u64,
                ..old(self)@
            }),
    {
        self.removed_resources = self.removed_resources + 1;
    }
}

/// The view of an optional owned content reference.
pub open spec fn opt_content_view(o: Option<ResourceContent>) -> Option<ResourceContentView> {
    match o {
        Some(c) => Some(c@),
        None => None,
    }
}

/// A listed Resource is removed when its Blob was not seen by a complete scan: it has content
/// and its key is not among the physical keys.
pub open spec fn unseen_with_content(physical_keys: Seq<Seq<char>>) -> spec_fn(LocatedView) -> bool {
    |l: LocatedView| l.0.content is Some && !key_in(physical_keys, located_key(l))
}

/// Sorted Blob keys: the texts hold the same keys, each as often, in lexicographic order.
pub open spec fn sorted_key_texts(sorted: Seq<Seq<char>>, of: Seq<Seq<char>>) -> bool {
    sorted.to_multiset() == of.to_multiset() && texts_sorted(sorted)
}

fn sorted_keys(keys: Vec<StorageKey>) -> (r: Vec<StorageKey>)
    ensures
        sorted_key_texts(key_texts(r@), key_texts(keys@)),
{
    let r = sort_by_text_key(keys);
    proof {
        lemma_map_values_multiset(r@, keys@, |k: StorageKey| k@);
        assert forall|i: int, j: int| 0 <= i < j < key_texts(r@).len() implies text_le(
            #[trigger] key_texts(r@)[i],
            #[trigger] key_texts(r@)[j],
        ) by {
            assert(key_le(r@[i], r@[j]));
        }
    }
    r
}

impl ReconciliationPass {
    /// The listed Resources whose Blob the scan did not see, in listing order. Each is removed
    /// if its Blob is still missing and the Resource is unchanged.
    pub fn removal_candidates(&self) -> (r: Vec<LocatedResource>)
        ensures
            located_views(r@) == self@.resources.filter(unseen_with_content(self@.physical_keys)),
    {
        let listed = &self.listed;
        proof {
            use_type_invariant(listed);
        }
        let ghost views = located_views(listed.resources@);
        let ghost pred = unseen_with_content(self@.physical_keys);
        let mut out: Vec<LocatedResource> = Vec::new();
        let mut i: usize = 0;
        proof {
            assert(views.take(0) =~= Seq::<LocatedView>::empty());
            assert(located_views(out@) =~= Seq::<LocatedView>::empty());
            reveal(Seq::filter);
        }
        while i < listed.resources.len()
            invariant
                i <= listed.resources@.len(),
                listed.keys@.len() == listed.resources@.len(),
                forall|j: int|
                    0 <= j < listed.keys@.len() ==> #[trigger] listed.keys@[j]@ == located_key(
                        listed.resources@[j]@,
                    ),
                views == located_views(listed.resources@),
                views == self@.resources,
                pred == unseen_with_content(self@.physical_keys),
                located_views(out@) == views.take(i as int).filter(pred),
            decreases listed.resources@.len() - i,
        {
            let located = &listed.resources[i];
            let unseen = position_of_key(&self.physical_keys, &listed.keys[i]).is_none();
            proof {
                assert(views.take(i + 1) =~= views.take(i as int).push(views[i as int]));
                views.take(i as int).lemma_filter_push(views[i as int], pred);
                assert(views[i as int] == located@);
                if !unseen {
                    let k = choose|k: int|
                        0 <= k < self.physical_keys@.len() && self.physical_keys@[k]@
                            == listed.keys@[i as int]@;
                    assert(key_texts(self.physical_keys@)[k] == located_key(located@));
                }
            }
            if located.resource().content().is_some() && unseen {
                out.push(located.clone());
                proof {
                    assert(located_views(out@) =~= views.take(i as int).filter(pred).push(
                        views[i as int],
                    ));
                }
            }
            i = i + 1;
        }
        proof {
            assert(views.take(i as int) =~= views);
        }
        out
    }

    /// End the pass: the report with the sorted keys of the physical directories and of the
    /// Blobs left for background verification, and the physical directory paths, against which
    /// stored Directories are pruned. A physical directory at the root has no key and fails the
    /// pass.
    pub fn finish(self, elapsed: std::time::Duration, hash_elapsed: std::time::Duration) -> (r: Result<
        (StorageReconciliationReport, Vec<DirectoryPath>),
        CoreError,
    >)
        ensures
            match r {
                Ok((report, physical)) => {
                    &&& !key_in(self@.physical_directories, Seq::empty())
                    &&& report@.files == self@.files
                    &&& report@.hashed_files == self@.hashed_files
                    &&& report@.unchanged_files == self@.unchanged_files
                    &&& report@.directories == self@.directories
                    &&& report@.removed_resources == self@.removed_resources
                    &&& report.elapsed_time() == elapsed
                    &&& report.hash_time() == hash_elapsed
                    &&& sorted_key_texts(report@.directory_keys, self@.physical_directories)
                    &&& sorted_key_texts(report@.pending_verification_keys, self@.pending)
                    &&& path_texts(physical@) == self@.physical_directories
                },
                Err(e) => key_in(self@.physical_directories, Seq::empty()) && e
                    == CoreError::InvalidStorageKey,
            },
    {
        let ghost dirs = self@.physical_directories;
        let mut keys: Vec<StorageKey> = Vec::new();
        let mut i: usize = 0;
        while i < self.physical_directories.len()
            invariant
                i <= self.physical_directories@.len(),
                dirs == path_texts(self.physical_directories@),
                keys@.len() == i,
                forall|j: int| 0 <= j < i ==> #[trigger] keys@[j]@ == dirs[j],
                forall|j: int| 0 <= j < i ==> dirs[j].len() > 0,
            decreases self.physical_directories@.len() - i,
        {
            let directory = &self.physical_directories[i];
            proof {
                use_type_invariant(directory);
                assert(dirs[i as int] == directory@);
            }
            match StorageKey::new(directory.path()) {
                Ok(k) => keys.push(k),
                Err(e) => {
                    proof {
                        assert(dirs[i as int] =~= Seq::<char>::empty());
                    }
                    return Err(e);
                },
            }
            i = i + 1;
        }
        proof {
            assert(key_texts(keys@) =~= dirs);
            if key_in(dirs, Seq::empty()) {
                let k = choose|k: int| 0 <= k < dirs.len() && dirs[k] == Seq::<char>::empty();
                assert(dirs[k].len() > 0);
            }
        }
        let directory_keys = sorted_keys(keys);
        let pending_verification_keys = sorted_keys(self.pending);
        let report = StorageReconciliationReport {
            files: self.files,
            hashed_files: self.hashed_files,
            unchanged_files: self.unchanged_files,
            directories: self.directories,
            removed_resources: self.removed_resources,
            elapsed,
            hash_elapsed,
            directory_keys,
            pending_verification_keys,
        };
        Ok((report, self.physical_directories))
    }
}

/// Texts in strictly increasing order: sorted, each at most once.
pub open spec fn strictly_sorted(s: Seq<Seq<char>>) -> bool {
    forall|i: int, j: int|
        0 <= i < j < s.len() ==> text_le(#[trigger] s[i], #[trigger] s[j]) && s[i] != s[j]
}

/// `r` holds each text of `of` exactly once, in order.
pub open spec fn sorted_unique_of(r: Seq<Seq<char>>, of: Seq<Seq<char>>) -> bool {
    strictly_sorted(r) && r.to_set() == of.to_set()
}

/// The order in which individually reported keys are reconciled: the keys that exist, then
/// the missing ones, each sorted and without repetition. Handling destinations before sources
/// lets a rename reported as a separate removal and creation keep its Resource identity.
pub open spec fn reconcile_order(
    r: Seq<Seq<char>>,
    keys: Seq<Seq<char>>,
    present: Seq<bool>,
) -> bool {
    exists|n: int|
        0 <= n <= r.len() && sorted_unique_of(r.take(n), present_keys(keys, present, true))
            && sorted_unique_of(r.skip(n), present_keys(keys, present, false))
}

/// The keys whose presence is `which`.
pub open spec fn present_keys(keys: Seq<Seq<char>>, present: Seq<bool>, which: bool) -> Seq<
    Seq<char>,
>
    decreases keys.len(),
{
    if keys.len() == 0 || present.len() != keys.len() {
        Seq::empty()
    } else if present.last() == which {
        present_keys(keys.drop_last(), present.drop_last(), which).push(keys.last())
    } else {
        present_keys(keys.drop_last(), present.drop_last(), which)
    }
}

proof fn lemma_push_to_set(s: Seq<Seq<char>>, x: Seq<char>)
    ensures
        s.push(x).to_set() == s.to_set().insert(x),
{
    assert forall|t: Seq<char>| #[trigger] s.push(x).to_set().contains(t) <==> s.to_set().insert(
        x,
    ).contains(t) by {
        if s.push(x).contains(t) && t != x {
            let a = choose|a: int| 0 <= a < s.push(x).len() && #[trigger] s.push(x)[a] == t;
            assert(s[a] == t);
        }
        if s.contains(t) {
            let a = choose|a: int| 0 <= a < s.len() && #[trigger] s[a] == t;
            assert(s.push(x)[a] == t);
        }
        if t == x {
            assert(s.push(x)[s.len() as int] == t);
        }
    }
    assert(s.push(x).to_set() =~= s.to_set().insert(x));
}

fn dedup_sorted(v: Vec<StorageKey>) -> (r: Vec<StorageKey>)
    requires
        texts_sorted(key_texts(v@)),
    ensures
        sorted_unique_of(key_texts(r@), key_texts(v@)),
{
    let ghost vt = key_texts(v@);
    let mut out: Vec<StorageKey> = Vec::new();
    let mut i: usize = 0;
    proof {
        assert(key_texts(out@).to_set() =~= vt.take(0).to_set());
    }
    while i < v.len()
        invariant
            i <= v@.len(),
            vt == key_texts(v@),
            texts_sorted(vt),
            strictly_sorted(key_texts(out@)),
            key_texts(out@).to_set() == vt.take(i as int).to_set(),
            i > 0 ==> out@.len() > 0 && out@.last()@ == vt[i - 1],
            i == 0 ==> out@.len() == 0,
        decreases v@.len() - i,
    {
        let ghost before = key_texts(out@);
        let x = &v[i];
        proof {
            assert(vt[i as int] == x@);
            assert(vt.take(i + 1) =~= vt.take(i as int).push(x@));
            lemma_push_to_set(vt.take(i as int), x@);
        }
        let fresh = out.len() == 0 || !out[out.len() - 1].same_as(x);
        if fresh {
            proof {
                if before.len() > 0 {
                    let last = before.last();
                    assert(last == vt[i - 1]);
                    assert(text_le(last, x@));
                    assert forall|a: int| 0 <= a < before.len() implies text_le(before[a], x@)
                        && before[a] != x@ by {
                        if a < before.len() - 1 {
                            assert(text_le(before[a], last) && before[a] != last);
                            crate::text_order::lemma_text_le_transitive(before[a], last, x@);
                            if before[a] == x@ {
                                crate::text_order::lemma_text_le_antisymmetric(last, x@);
                            }
                        }
                    }
                }
            }
            out.push(x.clone());
            proof {
                assert(key_texts(out@) =~= before.push(x@));
                lemma_push_to_set(before, x@);
            }
        } else {
            proof {
                assert(before.last() == x@);
                assert(before[before.len() - 1] == x@);
                assert(before.to_set().contains(x@));
                assert(before.to_set().insert(x@) =~= before.to_set());
            }
        }
        i = i + 1;
    }
    proof {
        assert(vt.take(i as int) =~= vt);
    }
    out
}

fn sorted_unique_keys(v: Vec<StorageKey>) -> (r: Vec<StorageKey>)
    ensures
        sorted_unique_of(key_texts(r@), key_texts(v@)),
{
    let ghost vt = key_texts(v@);
    let sorted = sorted_keys(v);
    let ghost st = key_texts(sorted@);
    let r = dedup_sorted(sorted);
    proof {
        assert forall|t: Seq<char>| #[trigger] st.to_set().contains(t) <==> vt.to_set().contains(t) by {
            assert(st.contains(t) <==> st.to_multiset().count(t) > 0);
            assert(vt.contains(t) <==> vt.to_multiset().count(t) > 0);
        }
        assert(st.to_set() =~= vt.to_set());
    }
    r
}

/// Order individually reported keys for reconciliation, given whether each still exists: the
/// existing keys first, then the missing ones, each sorted and without repetition.
pub fn reconcile_key_order(keys: &Vec<StorageKey>, present: &Vec<bool>) -> (r: Vec<StorageKey>)
    requires
        keys@.len() == present@.len(),
    ensures
        reconcile_order(key_texts(r@), key_texts(keys@), present@),
{
    let ghost kt = key_texts(keys@);
    let mut existing: Vec<StorageKey> = Vec::new();
    let mut missing: Vec<StorageKey> = Vec::new();
    let mut i: usize = 0;
    proof {
        assert(kt.take(0) =~= Seq::<Seq<char>>::empty());
        assert(key_texts(existing@) =~= Seq::<Seq<char>>::empty());
        assert(key_texts(missing@) =~= Seq::<Seq<char>>::empty());
    }
    while i < keys.len()
        invariant
            i <= keys@.len(),
            keys@.len() == present@.len(),
            kt == key_texts(keys@),
            key_texts(existing@) == present_keys(kt.take(i as int), present@.take(i as int), true),
            key_texts(missing@) == present_keys(kt.take(i as int), present@.take(i as int), false),
        decreases keys@.len() - i,
    {
        proof {
            assert(kt.take(i + 1).drop_last() =~= kt.take(i as int));
            assert(present@.take(i + 1).drop_last() =~= present@.take(i as int));
            assert(kt.take(i + 1).last() == keys@[i as int]@);
        }
        let ghost e0 = key_texts(existing@);
        let ghost m0 = key_texts(missing@);
        if present[i] {
            existing.push(keys[i].clone());
            proof {
                assert(key_texts(existing@) =~= e0.push(keys@[i as int]@));
            }
        } else {
            missing.push(keys[i].clone());
            proof {
                assert(key_texts(missing@) =~= m0.push(keys@[i as int]@));
            }
        }
        i = i + 1;
    }
    proof {
        assert(kt.take(i as int) =~= kt);
        assert(present@.take(i as int) =~= present@);
    }
    let mut ordered = sorted_unique_keys(existing);
    let ghost a = key_texts(ordered@);
    let tail = sorted_unique_keys(missing);
    let ghost b = key_texts(tail@);
    let mut tail = tail;
    ordered.append(&mut tail);
    proof {
        assert(key_texts(ordered@) =~= a + b);
        assert((a + b).take(a.len() as int) =~= a);
        assert((a + b).skip(a.len() as int) =~= b);
    }
    ordered
}

/// Startup recovers Resources from Blob metadata alone when nothing verified is recorded yet:
/// there are no active Resources, or each has content that is not verified.
pub open spec fn startup_needs_metadata_recovery(resources: Seq<LocatedView>) -> bool {
    resources.len() == 0 || forall|i: int|
        0 <= i < resources.len() ==> ((#[trigger] resources[i]).0.content matches Some(c)
            && c.status != ContentVerificationStatus::Verified)
}

/// Whether a startup reconciliation begins with the fast metadata recovery pass rather than
/// an incremental reconciliation.
pub fn needs_metadata_recovery(resources: &Vec<LocatedResource>) -> (r: bool)
    ensures
        r == startup_needs_metadata_recovery(located_views(resources@)),
{
    let ghost views = located_views(resources@);
    let mut i: usize = 0;
    while i < resources.len()
        invariant
            i <= resources@.len(),
            views == located_views(resources@),
            forall|j: int|
                0 <= j < i ==> ((#[trigger] views[j]).0.content matches Some(c) && c.status
                    != ContentVerificationStatus::Verified),
        decreases resources@.len() - i,
    {
        proof {
            assert(views[i as int] == resources@[i as int]@);
        }
        let unverified = match resources[i].resource().content() {
            Some(c) => c.verification_status() != ContentVerificationStatus::Verified,
            None => false,
        };
        if !unverified {
            return false;
        }
        i = i + 1;
    }
    true
}

/// The number of `/` in a path: its depth below the first level.
pub open spec fn slash_count(p: Seq<char>) -> nat
    decreases p.len(),
{
    if p.len() == 0 {
        0
    } else {
        slash_count(p.drop_last()) + if p.last() == '/' {
            1nat
        } else {
            0nat
        }
    }
}

fn depth_of(path: &DirectoryPath) -> (r: usize)
    ensures
        r == slash_count(path@),
{
    let chars = crate::text::chars_of(path.path());
    let mut count: usize = 0;
    let mut i: usize = 0;
    proof {
        assert(chars@.take(0) =~= Seq::<char>::empty());
    }
    while i < chars.len()
        invariant
            i <= chars@.len(),
            chars@ == path@,
            count == slash_count(chars@.take(i as int)),
            count <= i,
        decreases chars@.len() - i,
    {
        proof {
            assert(chars@.take(i + 1).drop_last() =~= chars@.take(i as int));
        }
        if chars[i] == '/' {
            count = count + 1;
        }
        i = i + 1;
    }
    proof {
        assert(chars@.take(i as int) =~= chars@);
    }
    count
}

/// A stored Directory is pruned when no physical directory has its path.
pub open spec fn not_physical(physical: Seq<Seq<char>>) -> spec_fn(LocatedDirectory) -> bool {
    |d: LocatedDirectory| !key_in(physical, d@.1.1)
}

/// The stored Directories without a physical directory, deepest first, so that children are
/// removed (when empty) before their parents.
pub fn directories_to_prune(stored: Vec<LocatedDirectory>, physical: &Vec<DirectoryPath>) -> (r: Vec<
    LocatedDirectory,
>)
    ensures
        r@.to_multiset() == stored@.filter(not_physical(path_texts(physical@))).to_multiset(),
        forall|i: int, j: int|
            0 <= i < j < r@.len() ==> slash_count((#[trigger] r@[i])@.1.1) >= slash_count(
                (#[trigger] r@[j])@.1.1,
            ),
{
    let ghost pred = not_physical(path_texts(physical@));
    let ghost initial = stored@;
    let mut rest = stored;
    let mut out: Vec<LocatedDirectory> = Vec::new();
    let mut depths: Vec<usize> = Vec::new();
    proof {
        reveal(Seq::filter);
        assert(initial.take(0) =~= Seq::<LocatedDirectory>::empty());
        assert(rest@ =~= initial.skip(0));
    }
    let mut taken: usize = 0;
    let total = rest.len();
    proof {
        assert(total == initial.len());
    }
    while rest.len() > 0
        invariant
            pred == not_physical(path_texts(physical@)),
            taken <= initial.len() <= usize::MAX,
            rest@ == initial.skip(taken as int),
            out@.to_multiset() == initial.take(taken as int).filter(pred).to_multiset(),
            depths@.len() == out@.len(),
            forall|k: int| 0 <= k < out@.len() ==> depths@[k] == slash_count((#[trigger] out@[k])@.1.1),
            forall|a: int, b: int|
                0 <= a < b < out@.len() ==> slash_count((#[trigger] out@[a])@.1.1) >= slash_count(
                    (#[trigger] out@[b])@.1.1,
                ),
        decreases rest@.len(),
    {
        let x = rest.remove(0);
        proof {
            assert(initial.take(taken + 1) =~= initial.take(taken as int).push(x));
            initial.take(taken as int).lemma_filter_push(x, pred);
            assert(rest@ =~= initial.skip(taken + 1));
        }
        taken = taken + 1;
        if contains_path(physical, x.path()) {
            continue;
        }
        let d = depth_of(x.path());
        let mut p: usize = 0;
        while p < out.len() && depths[p] >= d
            invariant
                p <= out@.len(),
                depths@.len() == out@.len(),
                forall|k: int| 0 <= k < out@.len() ==> depths@[k] == slash_count((#[trigger] out@[k])@.1.1),
                forall|k: int| 0 <= k < p ==> slash_count((#[trigger] out@[k])@.1.1) >= d,
            decreases out@.len() - p,
        {
            p = p + 1;
        }
        let ghost old_out = out@;
        let ghost old_depths = depths@;
        proof {
            assert(p < out@.len() ==> slash_count(out@[p as int]@.1.1) < d);
        }
        out.insert(p, x);
        depths.insert(p, d);
        proof {
            assert(out@ =~= old_out.insert(p as int, x));
            assert(depths@ =~= old_depths.insert(p as int, d));
            assert(out@.remove(p as int) =~= old_out);
            assert(out@[p as int] == x);
            assert(out@.contains(x));
            assert(out@.to_multiset() =~= old_out.to_multiset().insert(x));
        }
    }
    proof {
        assert(initial.take(taken as int) =~= initial);
    }
    out
}

/// The order in which a group of storage keys is locked: sorted, each key once.
pub fn storage_lock_order(keys: &Vec<StorageKey>) -> (r: Vec<StorageKey>)
    ensures
        sorted_unique_of(key_texts(r@), key_texts(keys@)),
{
    sorted_unique_keys(clone_keys(keys))
}

/// Two groups locked in lock order take the keys they share in the same order, so two tasks
/// that lock overlapping groups cannot wait on each other in a cycle.
pub proof fn lemma_lock_orders_agree(
    first: Seq<Seq<char>>,
    second: Seq<Seq<char>>,
    i1: int,
    j1: int,
    i2: int,
    j2: int,
)
    requires
        strictly_sorted(first),
        strictly_sorted(second),
        0 <= i1 < j1 < first.len(),
        0 <= i2 < second.len(),
        0 <= j2 < second.len(),
        first[i1] == second[i2],
        first[j1] == second[j2],
    ensures
        i2 < j2,
{
    if j2 < i2 {
        crate::text_order::lemma_text_le_antisymmetric(first[i1], first[j1]);
    }
}

/// A scan never removes what it saw: every removal candidate has content, and its key is not
/// among the keys the scan reported.
pub proof fn lemma_removal_candidates_unseen(pass: ReconciliationPassView, i: int)
    requires
        0 <= i < pass.resources.filter(unseen_with_content(pass.physical_keys)).len(),
    ensures
        pass.resources.filter(unseen_with_content(pass.physical_keys))[i].0.content is Some,
        !key_in(
            pass.physical_keys,
            located_key(pass.resources.filter(unseen_with_content(pass.physical_keys))[i]),
        ),
{
    pass.resources.lemma_filter_pred(unseen_with_content(pass.physical_keys), i);
}

impl ReconciliationPass {
    /// The Blobs counted so far.
    pub fn files(&self) -> (r: u64)
        ensures
            r == self@.files,
    {
        self.files
    }

    /// The Blobs rehashed so far.
    pub fn hashed_files(&self) -> (r: u64)
        ensures
            r == self@.hashed_files,
    {
        self.hashed_files
    }

    /// The Blobs found unchanged so far.
    pub fn unchanged_files(&self) -> (r: u64)
        ensures
            r == self@.unchanged_files,
    {
        self.unchanged_files
    }

    /// The physical directories counted so far.
    pub fn directories(&self) -> (r: u64)
        ensures
            r == self@.directories,
    {
        self.directories
    }

    /// The Resources removed so far.
    pub fn removed_resources(&self) -> (r: u64)
        ensures
            r == self@.removed_resources,
    {
        self.removed_resources
    }
}

} // verus!
