//! Archive manifests of Directory trees: the ZIP paths of Directories and Resources below an
//! archive root, with the content each Resource is expected to have.

use crate::directory::domain::LocatedDirectory;
use crate::domain::checksum::Checksum;
use crate::domain::ids::ResourceId;
use crate::domain::path::slash_join;
use crate::domain::resource::opt_checksum;
use crate::error::{CoreError, Invariant};
use crate::domain::ids::DirectoryId;
use crate::resource::query::{ListResources, LocatedResource, ResourcePage};
use crate::text::{chars_of, is_prefix, join2, join3, str_eq, substring};
use crate::text_order::{sort_by_text_key, sorted_by_key, TextKeyed};
use vstd::prelude::*;

verus! {

/// The name of the archive root of the global root Directory.
pub open spec fn global_archive_root() -> Seq<char> {
    seq!['a', 's', 's', 'e', 't', '-', 'h', 'u', 'b']
}

/// The archive path of the Directory at `directory` below the archive root whose Directory is at
/// `root`: the archive root itself for the root Directory, `archive_root/relative` below it, and
/// `None` outside it.
pub open spec fn archive_path_of(archive_root: Seq<char>, root: Seq<char>, directory: Seq<char>) -> Option<
    Seq<char>,
> {
    if directory == root {
        Some(archive_root)
    } else {
        let relative = if root.len() == 0 {
            Some(directory)
        } else if root.len() < directory.len() && directory.subrange(0, root.len() as int) == root
            && directory[root.len() as int] == '/' {
            Some(directory.subrange(root.len() + 1int, directory.len() as int))
        } else {
            None
        };
        match relative {
            None => None,
            Some(r) => if r.len() == 0 {
                Some(archive_root)
            } else {
                Some(slash_join(archive_root, r))
            },
        }
    }
}

/// The archive path of a Directory below the archive root.
pub fn directory_archive_path(archive_root: &str, root_path: &str, directory_path: &str) -> (r:
    Result<String, CoreError>)
    ensures
        match archive_path_of(archive_root@, root_path@, directory_path@) {
            Some(p) => r matches Ok(s) && s@ == p,
            None => r == Err::<String, CoreError>(
                CoreError::Invariant(Invariant::DirectoryOutsideArchiveRoot),
            ),
        },
{
    if str_eq(directory_path, root_path) {
        return Ok(archive_root.to_owned());
    }
    let root = chars_of(root_path);
    let text = chars_of(directory_path);
    let relative = if root.len() == 0 {
        directory_path.to_owned()
    } else if root.len() < text.len() && is_prefix(&root, &text) && text[root.len()] == '/' {
        substring(directory_path, root.len() + 1, text.len())
    } else {
        return Err(CoreError::Invariant(Invariant::DirectoryOutsideArchiveRoot));
    };
    if relative.unicode_len() == 0 {
        return Ok(archive_root.to_owned());
    }
    let joined = join3(archive_root, "/", relative.as_str());
    proof {
        reveal_strlit("/");
        assert(joined@ =~= slash_join(archive_root@, relative@));
    }
    Ok(joined)
}

/// A Resource in an archive manifest: its ZIP path and the content it is expected to have.
#[derive(Debug)]
pub struct DirectoryArchiveResource {
    resource_id: ResourceId,
    path: String,
    content_length: u64,
    checksum: Option<Checksum>,
}

pub struct ArchiveResourceView {
    pub resource_id: ResourceId,
    pub path: Seq<char>,
    pub content_length: u64,
    pub checksum: Option<Seq<char>>,
}

impl View for DirectoryArchiveResource {
    type V = ArchiveResourceView;

    closed spec fn view(&self) -> ArchiveResourceView {
        ArchiveResourceView {
            resource_id: self.resource_id,
            path: self.path@,
            content_length: self.content_length,
            checksum: opt_checksum(self.checksum),
        }
    }
}

impl DirectoryArchiveResource {
    pub fn new(resource_id: ResourceId, path: String, content_length: u64, checksum: Option<Checksum>) -> (r:
        DirectoryArchiveResource)
        ensures
            r@ == (ArchiveResourceView {
                resource_id,
                path: path@,
                content_length,
                checksum: opt_checksum(checksum),
            }),
    {
        DirectoryArchiveResource { resource_id, path, content_length, checksum }
    }

    pub fn resource_id(&self) -> (r: ResourceId)
        ensures
            r == self@.resource_id,
    {
        self.resource_id
    }

    pub fn path(&self) -> (r: &str)
        ensures
            r@ == self@.path,
    {
        self.path.as_str()
    }

    pub fn checksum(&self) -> (r: Option<&Checksum>)
        ensures
            match r {
                Some(c) => self@.checksum == Some(c@),
                None => self@.checksum is None,
            },
    {
        self.checksum.as_ref()
    }

    pub fn content_length(&self) -> (r: u64)
        ensures
            r == self@.content_length,
    {
        self.content_length
    }
}

impl TextKeyed for DirectoryArchiveResource {
    open spec fn key_view(&self) -> Seq<char> {
        self@.path
    }

    fn text_key(&self) -> (r: &str) {
        self.path.as_str()
    }
}

/// The entries of a Directory archive: its file name, the ZIP paths of its Directories (each
/// ending in `/`) and its Resources with content, both sorted by path.
#[derive(Debug)]
pub struct DirectoryArchiveManifest {
    filename: String,
    directories: Vec<String>,
    resources: Vec<DirectoryArchiveResource>,
}

impl DirectoryArchiveManifest {
    pub closed spec fn spec_filename(&self) -> Seq<char> {
        self.filename@
    }

    pub closed spec fn spec_directories(&self) -> Seq<String> {
        self.directories@
    }

    pub closed spec fn spec_resources(&self) -> Seq<DirectoryArchiveResource> {
        self.resources@
    }

    pub fn new(filename: String, directories: Vec<String>, resources: Vec<DirectoryArchiveResource>) -> (r:
        DirectoryArchiveManifest)
        ensures
            r.spec_filename() == filename@,
            r.spec_directories() == directories@,
            r.spec_resources() == resources@,
    {
        DirectoryArchiveManifest { filename, directories, resources }
    }

    pub fn filename(&self) -> (r: &str)
        ensures
            r@ == self.spec_filename(),
    {
        self.filename.as_str()
    }

    pub fn directories(&self) -> (r: &Vec<String>)
        ensures
            r@ == self.spec_directories(),
    {
        &self.directories
    }

    pub fn resources(&self) -> (r: &Vec<DirectoryArchiveResource>)
        ensures
            r@ == self.spec_resources(),
    {
        &self.resources
    }
}

/// The archive entry of a located Resource in the Directory at `archive_path`: Resources with
/// content enter at `archive_path/name` with their size and checksum.
pub open spec fn archive_entry_of(
    archive_path: Seq<char>,
    located: (crate::domain::resource::ResourceView, (crate::domain::ids::DirectoryId, Seq<char>)),
) -> Option<ArchiveResourceView> {
    match located.0.content {
        Some(c) => Some(
            ArchiveResourceView {
                resource_id: located.0.id,
                path: slash_join(archive_path, located.0.name),
                content_length: c.size,
                checksum: c.checksum,
            },
        ),
        None => None,
    }
}

/// The archive entries of a page of located Resources, in page order.
pub open spec fn page_entries(
    archive_path: Seq<char>,
    page: Seq<LocatedResource>,
) -> Seq<ArchiveResourceView>
    decreases page.len(),
{
    if page.len() == 0 {
        Seq::empty()
    } else {
        let prev = page_entries(archive_path, page.drop_last());
        match archive_entry_of(archive_path, page.last()@) {
            Some(e) => prev.push(e),
            None => prev,
        }
    }
}

/// The views of archive entries.
pub open spec fn entry_views(v: Seq<DirectoryArchiveResource>) -> Seq<ArchiveResourceView> {
    v.map_values(|r: DirectoryArchiveResource| r@)
}

/// Collects the entries of a Directory archive while the caller walks the tree.
#[derive(Debug)]
pub struct ManifestBuilder {
    archive_root: String,
    root_path: String,
    directories: Vec<String>,
    resources: Vec<DirectoryArchiveResource>,
}

impl ManifestBuilder {
    pub closed spec fn spec_archive_root(&self) -> Seq<char> {
        self.archive_root@
    }

    pub closed spec fn spec_root_path(&self) -> Seq<char> {
        self.root_path@
    }

    pub closed spec fn spec_directories(&self) -> Seq<String> {
        self.directories@
    }

    pub closed spec fn spec_resources(&self) -> Seq<DirectoryArchiveResource> {
        self.resources@
    }

    /// Start the archive of the Directory `root`: the global root is archived as `asset-hub`,
    /// any other Directory under its own name.
    pub fn new(root: &LocatedDirectory) -> (r: ManifestBuilder)
        ensures
            r.spec_archive_root() == if root@.0.id.0 == 0 {
                global_archive_root()
            } else {
                root@.0.name
            },
            r.spec_root_path() == root@.1.1,
            r.spec_directories().len() == 0,
            r.spec_resources().len() == 0,
    {
        let archive_root = if root.id().is_root() {
            let text = "asset-hub";
            proof {
                reveal_strlit("asset-hub");
                assert(text@ =~= global_archive_root());
            }
            text.to_owned()
        } else {
            root.directory().name().to_owned()
        };
        ManifestBuilder {
            archive_root,
            root_path: root.path().path().to_owned(),
            directories: Vec::new(),
            resources: Vec::new(),
        }
    }

    /// Add a Directory of the tree and answer its archive path.
    pub fn add_directory(&mut self, directory_path: &str) -> (r: Result<String, CoreError>)
        ensures
            final(self).spec_archive_root() == old(self).spec_archive_root(),
            final(self).spec_root_path() == old(self).spec_root_path(),
            final(self).spec_resources() == old(self).spec_resources(),
            match archive_path_of(old(self).spec_archive_root(), old(self).spec_root_path(), directory_path@) {
                Some(p) => (r matches Ok(s) && s@ == p) && final(self).spec_directories().len()
                    == old(self).spec_directories().len() + 1 && final(self).spec_directories().drop_last()
                    == old(self).spec_directories() && final(self).spec_directories().last()@ == p + seq![
                    '/',
                ],
                None => r == Err::<String, CoreError>(
                    CoreError::Invariant(Invariant::DirectoryOutsideArchiveRoot),
                ) && final(self).spec_directories() == old(self).spec_directories(),
            },
    {
        let path = directory_archive_path(self.archive_root.as_str(), self.root_path.as_str(), directory_path)?;
        let entry = join2(path.as_str(), "/");
        proof {
            reveal_strlit("/");
        }
        self.directories.push(entry);
        proof {
            assert(self.directories@.drop_last() =~= old(self).directories@);
        }
        Ok(path)
    }

    /// Add the Resources of one listed page of the Directory at `archive_path`; only Resources
    /// with content enter the archive, each at `archive_path/name`, in page order.
    pub fn add_page(&mut self, archive_path: &str, page: &Vec<LocatedResource>)
        ensures
            final(self).spec_archive_root() == old(self).spec_archive_root(),
            final(self).spec_root_path() == old(self).spec_root_path(),
            final(self).spec_directories() == old(self).spec_directories(),
            entry_views(final(self).spec_resources()) == entry_views(old(self).spec_resources())
                + page_entries(archive_path@, page@),
    {
        let mut i: usize = 0;
        while i < page.len()
            invariant
                i <= page@.len(),
                self.archive_root@ == old(self).archive_root@,
                self.root_path@ == old(self).root_path@,
                self.directories@ == old(self).directories@,
                entry_views(self.resources@) == entry_views(old(self).resources@) + page_entries(
                    archive_path@,
                    page@.take(i as int),
                ),
            decreases page@.len() - i,
        {
            let resource = page[i].resource();
            proof {
                assert(page@.take(i + 1).drop_last() =~= page@.take(i as int));
                assert(page@.take(i + 1).last() == page@[i as int]);
            }
            if let Some(content) = resource.content() {
                let path = join3(archive_path, "/", resource.name());
                proof {
                    reveal_strlit("/");
                    assert(path@ =~= slash_join(archive_path@, resource@.name));
                }
                let checksum = match content.checksum() {
                    Some(c) => Some(c.clone()),
                    None => None,
                };
                let entry = DirectoryArchiveResource::new(resource.id(), path, content.size(), checksum);
                let ghost before = self.resources@;
                let ghost ev = entry@;
                self.resources.push(entry);
                proof {
                    assert(entry_views(self.resources@) =~= entry_views(before).push(ev));
                    assert(archive_entry_of(archive_path@, page@[i as int]@) == Some(ev));
                    assert(page_entries(archive_path@, page@.take(i + 1)) == page_entries(
                        archive_path@,
                        page@.take(i as int),
                    ).push(ev));
                    assert(entry_views(self.resources@) =~= entry_views(old(self).resources@)
                        + page_entries(archive_path@, page@.take(i + 1)));
                }
            } else {
                proof {
                    assert(archive_entry_of(archive_path@, page@[i as int]@) is None);
                    assert(page_entries(archive_path@, page@.take(i + 1)) == page_entries(
                        archive_path@,
                        page@.take(i as int),
                    ));
                }
            }
            i = i + 1;
        }
        proof {
            assert(page@.take(page@.len() as int) =~= page@);
        }
    }

    /// The manifest: the archive file name, and the Directories and Resources sorted by path.
    pub fn finish(self) -> (r: DirectoryArchiveManifest)
        ensures
            r.spec_filename() == self.spec_archive_root() + seq!['.', 'z', 'i', 'p'],
            r.spec_directories().to_multiset() == self.spec_directories().to_multiset(),
            sorted_by_key(r.spec_directories()),
            r.spec_resources().to_multiset() == self.spec_resources().to_multiset(),
            sorted_by_key(r.spec_resources()),
    {
        let filename = join2(self.archive_root.as_str(), ".zip");
        proof {
            reveal_strlit(".zip");
        }
        let directories = sort_by_text_key(self.directories);
        let resources = sort_by_text_key(self.resources);
        DirectoryArchiveManifest::new(filename, directories, resources)
    }
}

/// Paging through a listing: the next offset, and whether the listing is exhausted (the offset
/// reached the total, or the page was empty).
pub fn next_page(offset: u64, item_count: u64, total: u64) -> (r: (u64, bool))
    ensures
        r.0 == if offset + item_count > u64::MAX {
            u64::MAX as int
        } else {
            offset + item_count
        },
        r.1 == (r.0 >= total || item_count == 0),
{
    let next = if offset > u64::MAX - item_count {
        u64::MAX
    } else {
        offset + item_count
    };
    (next, next >= total || item_count == 0)
}

/// The page size of listing the Resources of one Directory of an archive.
pub const ARCHIVE_PAGE_SIZE: u32 = 100;

/// What the Directory index and the Resource read model answered.
#[derive(Debug)]
pub enum ArchiveEvent {
    /// No operation was performed yet.
    Started,
    /// The index returned this located Directory.
    DirectoryFound(Option<LocatedDirectory>),
    /// Whether the candidate is the archived Directory or lies below it.
    Contains(bool),
    /// The read model listed this page of a Directory's Resources.
    PageListed(ResourcePage),
    /// The index listed these children.
    ChildrenListed(Vec<LocatedDirectory>),
    /// The operation failed.
    Failed(CoreError),
}

/// The next operation of building an archive manifest.
#[derive(Debug)]
pub enum ArchiveAction {
    /// Find the archived Directory.
    FindDirectory(DirectoryId),
    /// Whether `candidate` is `ancestor` or lies below it.
    Contains { ancestor: DirectoryId, candidate: DirectoryId },
    /// List a page of a Directory's Resources.
    ListPage(ListResources),
    /// List the children of a Directory.
    ListChildren(DirectoryId),
    /// The walk ended with this manifest.
    Finish(Result<DirectoryArchiveManifest, CoreError>),
}

/// The walk so far: the manifest being built, the Directories found in breadth-first order,
/// and the position of the one being visited.
#[derive(Debug)]
pub struct ArchiveWalk {
    builder: ManifestBuilder,
    pending: Vec<LocatedDirectory>,
    next: usize,
}

impl ArchiveWalk {
    pub closed spec fn spec_builder(&self) -> ManifestBuilder {
        self.builder
    }

    pub closed spec fn spec_pending(&self) -> Seq<LocatedDirectory> {
        self.pending@
    }

    pub closed spec fn spec_next(&self) -> int {
        self.next as int
    }

    /// The Directory being visited is one that was found.
    pub closed spec fn visiting(&self) -> bool {
        self.next < self.pending@.len()
    }

    /// The Directory being visited.
    pub open spec fn current(&self) -> LocatedDirectory {
        self.spec_pending()[self.spec_next()]
    }
}

/// Phases of building an archive manifest.
#[derive(Debug)]
pub enum ArchivePhase {
    Start,
    AwaitRoot,
    AwaitScope { walk: ArchiveWalk },
    AwaitPage { walk: ArchiveWalk, archive_path: String, offset: u64 },
    AwaitChildren { walk: ArchiveWalk },
    Finished,
}

/// Every phase that visits a Directory has one to visit.
pub open spec fn archive_wf(state: ArchivePhase) -> bool {
    match state {
        ArchivePhase::AwaitScope { walk } => walk.visiting(),
        ArchivePhase::AwaitPage { walk, .. } => walk.visiting(),
        ArchivePhase::AwaitChildren { walk } => walk.visiting(),
        _ => true,
    }
}

/// The manifest builder is carried along unchanged, or with the given directories and
/// resources.
pub open spec fn same_root(a: ManifestBuilder, b: ManifestBuilder) -> bool {
    a.spec_archive_root() == b.spec_archive_root() && a.spec_root_path() == b.spec_root_path()
}

/// The walk ends with the manifest of what it collected: the archive file name, and the
/// collected Directories and Resources, each sorted by path.
pub open spec fn finishes_with_manifest(builder: ManifestBuilder, a: ArchiveAction) -> bool {
    match a {
        ArchiveAction::Finish(Ok(m)) => {
            &&& m.spec_filename() == builder.spec_archive_root() + seq!['.', 'z', 'i', 'p']
            &&& m.spec_directories().to_multiset() == builder.spec_directories().to_multiset()
            &&& sorted_by_key(m.spec_directories())
            &&& m.spec_resources().to_multiset() == builder.spec_resources().to_multiset()
            &&& sorted_by_key(m.spec_resources())
        },
        _ => false,
    }
}

fn visit_next(id: DirectoryId, walk: ArchiveWalk) -> (r: (ArchivePhase, ArchiveAction))
    ensures
        if walk.spec_next() + 1 < walk.spec_pending().len() {
            r.0 matches ArchivePhase::AwaitScope { walk: w } && w.spec_builder() == walk.spec_builder()
                && w.spec_pending() == walk.spec_pending() && w.spec_next() == walk.spec_next() + 1
                && r.1 == (ArchiveAction::Contains { ancestor: id, candidate: w.current()@.0.id })
        } else {
            r.0 is Finished && finishes_with_manifest(walk.spec_builder(), r.1)
        },
{
    let ArchiveWalk { builder, pending, next } = walk;
    if next < pending.len() && next + 1 < pending.len() {
        let candidate = pending[next + 1].id();
        (
            ArchivePhase::AwaitScope { walk: ArchiveWalk { builder, pending, next: next + 1 } },
            ArchiveAction::Contains { ancestor: id, candidate },
        )
    } else {
        (ArchivePhase::Finished, ArchiveAction::Finish(Ok(builder.finish())))
    }
}

fn archive_end(e: CoreError) -> (r: (ArchivePhase, ArchiveAction))
    ensures
        r.0 is Finished && r.1 == ArchiveAction::Finish(Err(e)),
{
    (ArchivePhase::Finished, ArchiveAction::Finish(Err(e)))
}

/// One step of building the archive manifest of the Directory `id`. The walk visits the
/// Directory and then, breadth-first, every child the index lists; a visited Directory that no
/// longer lies in the archived subtree is skipped. Each Directory in it adds its archive path
/// and, page by page, its Resources with content. The manifest lists both sorted by path.
pub fn archive_step(id: DirectoryId, state: ArchivePhase, event: ArchiveEvent) -> (r: (ArchivePhase, ArchiveAction))
    requires
        archive_wf(state),
    ensures
        archive_wf(r.0),
        match (state, event) {
            (_, ArchiveEvent::Failed(e)) => r.0 is Finished && r.1 == ArchiveAction::Finish(Err(e)),
            (ArchivePhase::Start, _) => r.0 is AwaitRoot && r.1 == ArchiveAction::FindDirectory(id),
            (ArchivePhase::AwaitRoot, ArchiveEvent::DirectoryFound(found)) => match found {
                None => r.0 is Finished && r.1 == ArchiveAction::Finish(
                    Err(CoreError::NotFound { subject: crate::error::Subject::Directory, id: id.0 }),
                ),
                Some(root) => r.0 matches ArchivePhase::AwaitScope { walk } && walk.spec_pending()
                    == seq![root] && walk.spec_next() == 0 && walk.spec_builder().spec_archive_root() == (
                if root@.0.id.0 == 0 {
                    global_archive_root()
                } else {
                    root@.0.name
                }) && walk.spec_builder().spec_root_path() == root@.1.1
                    && walk.spec_builder().spec_directories().len() == 0
                    && walk.spec_builder().spec_resources().len() == 0 && r.1 == (ArchiveAction::Contains {
                    ancestor: id,
                    candidate: root@.0.id,
                }),
            },
            (ArchivePhase::AwaitScope { walk }, ArchiveEvent::Contains(inside)) => if !inside {
                if walk.spec_next() + 1 < walk.spec_pending().len() {
                    r.0 matches ArchivePhase::AwaitScope { walk: w } && w.spec_builder() == walk.spec_builder()
                        && w.spec_next() == walk.spec_next() + 1 && w.spec_pending() == walk.spec_pending()
                } else {
                    r.0 is Finished && finishes_with_manifest(walk.spec_builder(), r.1)
                }
            } else {
                match archive_path_of(
                    walk.spec_builder().spec_archive_root(),
                    walk.spec_builder().spec_root_path(),
                    walk.current()@.1.1,
                ) {
                    None => r.0 is Finished && r.1 == ArchiveAction::Finish(
                        Err(CoreError::Invariant(Invariant::DirectoryOutsideArchiveRoot)),
                    ),
                    Some(p) => r.0 matches ArchivePhase::AwaitPage { walk: w, archive_path, offset }
                        && archive_path@ == p && offset == 0 && w.spec_pending() == walk.spec_pending()
                        && w.spec_next() == walk.spec_next() && same_root(w.spec_builder(), walk.spec_builder())
                        && w.spec_builder().spec_resources() == walk.spec_builder().spec_resources()
                        && w.spec_builder().spec_directories() == walk.spec_builder().spec_directories().push(
                        w.spec_builder().spec_directories().last(),
                    ) && w.spec_builder().spec_directories().last()@ == p + seq!['/'] && (r.1 matches ArchiveAction::ListPage(
                        q,
                    ) && q.spec_directory_id() == walk.current()@.0.id && q.spec_offset() == 0
                        && q.spec_limit() == ARCHIVE_PAGE_SIZE && q.spec_q() is None),
                }
            },
            (ArchivePhase::AwaitPage { walk, archive_path, offset }, ArchiveEvent::PageListed(page)) => {
                let count = page.items@.len();
                let next = if offset + count > u64::MAX { u64::MAX as int } else { offset + count };
                &&& count <= u64::MAX
                &&& if next >= page.total || count == 0 {
                    r.0 matches ArchivePhase::AwaitChildren { walk: w } && w.spec_pending() == walk.spec_pending()
                        && w.spec_next() == walk.spec_next() && same_root(w.spec_builder(), walk.spec_builder())
                        && w.spec_builder().spec_directories() == walk.spec_builder().spec_directories()
                        && entry_views(w.spec_builder().spec_resources()) == entry_views(
                        walk.spec_builder().spec_resources(),
                    ) + page_entries(archive_path@, page.items@) && r.1 == ArchiveAction::ListChildren(
                        walk.current()@.0.id,
                    )
                } else {
                    r.0 matches ArchivePhase::AwaitPage { walk: w, archive_path: ap, offset: o } && ap@
                        == archive_path@ && o == next && w.spec_pending() == walk.spec_pending() && w.spec_next()
                        == walk.spec_next() && same_root(w.spec_builder(), walk.spec_builder())
                        && w.spec_builder().spec_directories() == walk.spec_builder().spec_directories()
                        && entry_views(w.spec_builder().spec_resources()) == entry_views(
                        walk.spec_builder().spec_resources(),
                    ) + page_entries(archive_path@, page.items@) && (r.1 matches ArchiveAction::ListPage(q)
                        && q.spec_directory_id() == walk.current()@.0.id && q.spec_offset() == next
                        && q.spec_limit() == ARCHIVE_PAGE_SIZE && q.spec_q() is None)
                }
            },
            (ArchivePhase::AwaitChildren { walk }, ArchiveEvent::ChildrenListed(children)) => if walk.spec_next() + 1
                < walk.spec_pending().len() + children@.len() {
                r.0 matches ArchivePhase::AwaitScope { walk: w } && w.spec_builder() == walk.spec_builder()
                    && w.spec_pending() == walk.spec_pending() + children@ && w.spec_next() == walk.spec_next() + 1
                    && r.1 == (ArchiveAction::Contains { ancestor: id, candidate: w.current()@.0.id })
            } else {
                r.0 is Finished && finishes_with_manifest(walk.spec_builder(), r.1)
            },
            _ => r.0 is Finished && r.1 == ArchiveAction::Finish(
                Err(CoreError::Invariant(Invariant::UnexpectedRecoveryEvent)),
            ),
        },
{
    if let ArchiveEvent::Failed(e) = event {
        return archive_end(e);
    }
    match state {
        ArchivePhase::Start => (ArchivePhase::AwaitRoot, ArchiveAction::FindDirectory(id)),
        ArchivePhase::AwaitRoot => match event {
            ArchiveEvent::DirectoryFound(found) => match found {
                None => archive_end(CoreError::NotFound { subject: crate::error::Subject::Directory, id: id.0 }),
                Some(root) => {
                    let builder = ManifestBuilder::new(&root);
                    let candidate = root.id();
                    let pending = vec![root];
                    (
                        ArchivePhase::AwaitScope { walk: ArchiveWalk { builder, pending, next: 0 } },
                        ArchiveAction::Contains { ancestor: id, candidate },
                    )
                },
            },
            _ => archive_end(CoreError::Invariant(Invariant::UnexpectedRecoveryEvent)),
        },
        ArchivePhase::AwaitScope { walk } => match event {
            ArchiveEvent::Contains(inside) => {
                if !inside {
                    return visit_next(id, walk);
                }
                let ArchiveWalk { mut builder, pending, next } = walk;
                let current = pending[next].id();
                match builder.add_directory(pending[next].path().path()) {
                    Ok(archive_path) => (
                        ArchivePhase::AwaitPage { walk: ArchiveWalk { builder, pending, next }, archive_path, offset: 0 },
                        ArchiveAction::ListPage(ListResources::new(ARCHIVE_PAGE_SIZE, 0, current)),
                    ),
                    Err(e) => archive_end(e),
                }
            },
            _ => archive_end(CoreError::Invariant(Invariant::UnexpectedRecoveryEvent)),
        },
        ArchivePhase::AwaitPage { walk, archive_path, offset } => match event {
            ArchiveEvent::PageListed(page) => {
                let ArchiveWalk { mut builder, pending, next } = walk;
                builder.add_page(archive_path.as_str(), &page.items);
                let (next_offset, done) = next_page(offset, page.items.len() as u64, page.total);
                let current = pending[next].id();
                let walk = ArchiveWalk { builder, pending, next };
                if done {
                    (ArchivePhase::AwaitChildren { walk }, ArchiveAction::ListChildren(current))
                } else {
                    (
                        ArchivePhase::AwaitPage { walk, archive_path, offset: next_offset },
                        ArchiveAction::ListPage(ListResources::new(ARCHIVE_PAGE_SIZE, next_offset, current)),
                    )
                }
            },
            _ => archive_end(CoreError::Invariant(Invariant::UnexpectedRecoveryEvent)),
        },
        ArchivePhase::AwaitChildren { walk } => match event {
            ArchiveEvent::ChildrenListed(children) => {
                let ArchiveWalk { builder, mut pending, next } = walk;
                let mut children = children;
                pending.append(&mut children);
                visit_next(id, ArchiveWalk { builder, pending, next })
            },
            _ => archive_end(CoreError::Invariant(Invariant::UnexpectedRecoveryEvent)),
        },
        ArchivePhase::Finished => archive_end(CoreError::Invariant(Invariant::UnexpectedRecoveryEvent)),
    }
}

} // verus!
