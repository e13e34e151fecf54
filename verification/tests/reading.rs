use asset_core::asset::{archive_step, ArchiveAction, ArchiveEvent, ArchivePhase, DirectoryArchiveManifest};
use asset_core::directory::domain::{Directory, DirectoryKind, LocatedDirectory};
use asset_core::domain::checksum::{hex_sha256, Checksum};
use asset_core::domain::ids::{DirectoryId, ResourceId};
use asset_core::domain::path::DirectoryPath;
use asset_core::domain::resource::{DirectoryLocation, Resource, ResourceContent, ResourceKind};
use asset_core::error::CoreError;
use asset_core::resource::content::{content_read_step, ContentRead, ContentReadAction, ContentReadEvent};
use asset_core::resource::contract::ResourceContentStream;
use asset_core::resource::query::{LocatedResource, ResourcePage};

fn located(directory: &LocatedDirectory, name: &str, content: Option<(&[u8], Option<&str>)>) -> LocatedResource {
    let mut resource = Resource::create(name, directory.id(), ResourceKind::fallback()).unwrap();
    if let Some((bytes, mime)) = content {
        resource
            .attach_content(ResourceContent::verified(
                bytes.len() as u64,
                Checksum::sha256(&hex_sha256(bytes)).unwrap(),
                mime.map(|m| m.to_string()),
                None,
            ))
            .unwrap();
    }
    LocatedResource::new(resource, directory.location().clone()).unwrap()
}

fn directory(id: DirectoryId, parent: Option<DirectoryId>, name: &str, path: &str) -> LocatedDirectory {
    let d = Directory::rehydrate(id, parent, name, DirectoryKind::try_new("core:directory").unwrap(), 1).unwrap();
    LocatedDirectory::new(d, DirectoryLocation::new(id, DirectoryPath::from_path(path).unwrap())).unwrap()
}

/// Read a Resource's content: `found` is what the read model holds, `blob` what the reader
/// opens at the key it is asked for.
fn read(
    found: Option<LocatedResource>,
    blob: Option<&'static str>,
) -> (Option<String>, Result<Option<ResourceContentStream<&'static str>>, CoreError>) {
    let id = ResourceId(1);
    let mut opened_key = None;
    let mut found = Some(found);
    let (mut state, mut action) = content_read_step(id, ContentRead::Start, ContentReadEvent::Started);
    loop {
        let event = match action {
            ContentReadAction::FindResource(asked) => {
                assert_eq!(asked, id);
                ContentReadEvent::ResourceFound(found.take().unwrap())
            }
            ContentReadAction::OpenContent(key) => {
                opened_key = Some(key.as_str().to_string());
                ContentReadEvent::ContentOpened(blob)
            }
            ContentReadAction::Finish(result) => return (opened_key, result),
        };
        (state, action) = content_read_step(id, state, event);
    }
}

#[test]
fn content_streams_announce_the_media_type_and_the_full_size() {
    let docs = directory(DirectoryId::new(), Some(DirectoryId::root()), "docs", "docs");
    let (key, result) = read(Some(located(&docs, "a.pdf", Some((b"%PDF-1.4", Some("application/pdf"))))), Some("bytes"));
    let stream = result.unwrap().unwrap();
    assert_eq!(key.as_deref(), Some("docs/a.pdf"));
    assert_eq!(stream.content_type(), "application/pdf");
    assert_eq!(stream.content_length(), 8);
    assert_eq!(stream.into_content(), "bytes");

    let (_, result) = read(Some(located(&docs, "raw.bin", Some((b"xyz", None)))), Some("xyz"));
    assert_eq!(result.unwrap().unwrap().content_type(), "application/octet-stream");
}

#[test]
fn missing_resources_content_or_blobs_stream_nothing() {
    let docs = directory(DirectoryId::new(), Some(DirectoryId::root()), "docs", "docs");
    assert!(read(None, Some("x")).1.unwrap().is_none());
    let (key, result) = read(Some(located(&docs, "empty.txt", None)), Some("x"));
    assert!(key.is_none());
    assert!(result.unwrap().is_none());
    assert!(read(Some(located(&docs, "gone.txt", Some((b"x", None)))), None).1.unwrap().is_none());
}

/// Directories and their Resources held in memory, for the archive walk.
struct Tree {
    directories: Vec<LocatedDirectory>,
    resources: Vec<LocatedResource>,
    outside: Vec<DirectoryId>,
}

impl Tree {
    fn manifest(&self, id: DirectoryId) -> Result<DirectoryArchiveManifest, CoreError> {
        let (mut state, mut action) = archive_step(id, ArchivePhase::Start, ArchiveEvent::Started);
        loop {
            let event = match action {
                ArchiveAction::FindDirectory(id) => {
                    ArchiveEvent::DirectoryFound(self.directories.iter().find(|d| d.id() == id).cloned())
                }
                ArchiveAction::Contains { candidate, .. } => ArchiveEvent::Contains(!self.outside.contains(&candidate)),
                ArchiveAction::ListPage(query) => {
                    let all: Vec<LocatedResource> = self
                        .resources
                        .iter()
                        .filter(|r| r.resource().directory_id() == query.directory_id())
                        .map(|r| LocatedResource::new(r.resource().clone(), r.directory().clone()).unwrap())
                        .collect();
                    let total = all.len() as u64;
                    let items = all
                        .into_iter()
                        .skip(query.offset() as usize)
                        .take(query.limit() as usize)
                        .collect();
                    ArchiveEvent::PageListed(ResourcePage { items, total, limit: query.limit(), offset: query.offset() })
                }
                ArchiveAction::ListChildren(id) => ArchiveEvent::ChildrenListed(
                    self.directories.iter().filter(|d| d.directory().parent_id() == Some(id)).cloned().collect(),
                ),
                ArchiveAction::Finish(result) => return result,
            };
            (state, action) = archive_step(id, state, event);
        }
    }
}

#[test]
fn an_archive_walk_lists_the_subtree_sorted_with_content_only() {
    let photos_id = DirectoryId::new();
    let photos = directory(photos_id, Some(DirectoryId::root()), "photos", "library/photos");
    let zeta = directory(DirectoryId::new(), Some(photos_id), "zeta", "library/photos/zeta");
    let alpha = directory(DirectoryId::new(), Some(photos_id), "alpha", "library/photos/alpha");
    let moved = directory(DirectoryId::new(), Some(photos_id), "moved", "elsewhere/moved");
    let resources = vec![
        located(&zeta, "z.png", Some((b"zz", Some("image/png")))),
        located(&photos, "b.png", Some((b"bee", None))),
        located(&photos, "note.txt", None),
        located(&alpha, "a.png", Some((b"a", None))),
        located(&moved, "lost.png", Some((b"l", None))),
    ];
    let tree = Tree {
        directories: vec![photos, zeta, alpha, moved.clone()],
        resources,
        outside: vec![moved.id()],
    };
    let manifest = tree.manifest(photos_id).unwrap();
    assert_eq!(manifest.filename(), "photos.zip");
    assert_eq!(
        manifest.directories(),
        &vec!["photos/".to_string(), "photos/alpha/".to_string(), "photos/zeta/".to_string()]
    );
    let paths: Vec<&str> = manifest.resources().iter().map(|r| r.path()).collect();
    assert_eq!(paths, vec!["photos/alpha/a.png", "photos/b.png", "photos/zeta/z.png"]);
    assert_eq!(manifest.resources()[1].content_length(), 3);

    assert!(matches!(tree.manifest(DirectoryId::new()), Err(CoreError::NotFound { .. })));
}
