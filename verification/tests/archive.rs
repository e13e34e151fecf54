use asset_core::asset::{directory_archive_path, next_page, ManifestBuilder};
use asset_core::directory::domain::{Directory, DirectoryKind, LocatedDirectory};
use asset_core::domain::checksum::{hex_sha256, Checksum};
use asset_core::domain::ids::DirectoryId;
use asset_core::domain::path::DirectoryPath;
use asset_core::domain::resource::{DirectoryLocation, Resource, ResourceContent, ResourceKind};
use asset_core::error::{CoreError, Invariant};
use asset_core::resource::query::LocatedResource;

fn located_directory(name: &str, path: &str) -> LocatedDirectory {
    let directory =
        Directory::new_with_kind(DirectoryId::root(), name, DirectoryKind::try_new("core:directory").unwrap())
            .unwrap();
    let location = DirectoryLocation::new(directory.id(), DirectoryPath::from_path(path).unwrap());
    LocatedDirectory::new(directory, location).unwrap()
}

fn resource_in(directory: DirectoryId, name: &str, content: Option<&[u8]>) -> Resource {
    let mut resource = Resource::create(name, directory, ResourceKind::fallback()).unwrap();
    if let Some(bytes) = content {
        resource
            .attach_content(ResourceContent::verified(
                bytes.len() as u64,
                Checksum::sha256(&hex_sha256(bytes)).unwrap(),
                None,
                None,
            ))
            .unwrap();
    }
    resource
}

#[test]
fn archive_paths_are_relative_to_the_archive_root() {
    assert_eq!(directory_archive_path("photos", "library/photos", "library/photos").unwrap(), "photos");
    assert_eq!(
        directory_archive_path("photos", "library/photos", "library/photos/2024/summer").unwrap(),
        "photos/2024/summer"
    );
    assert_eq!(directory_archive_path("asset-hub", "", "library").unwrap(), "asset-hub/library");
    assert_eq!(directory_archive_path("asset-hub", "", "").unwrap(), "asset-hub");
    assert!(matches!(
        directory_archive_path("photos", "library/photos", "library/photosets"),
        Err(CoreError::Invariant(Invariant::DirectoryOutsideArchiveRoot))
    ));
    assert!(matches!(
        directory_archive_path("photos", "library/photos", "library"),
        Err(CoreError::Invariant(Invariant::DirectoryOutsideArchiveRoot))
    ));
}

#[test]
fn paging_stops_at_the_total_or_on_an_empty_page() {
    assert_eq!(next_page(0, 100, 250), (100, false));
    assert_eq!(next_page(200, 50, 250), (250, true));
    assert_eq!(next_page(100, 0, 250), (100, true));
    assert_eq!(next_page(u64::MAX - 1, 5, u64::MAX), (u64::MAX, true));
}

#[test]
fn manifest_lists_sorted_directories_and_only_resources_with_content() {
    let root = located_directory("photos", "library/photos");
    let mut builder = ManifestBuilder::new(&root);
    let nested = builder.add_directory("library/photos/zeta").unwrap();
    assert_eq!(nested, "photos/zeta");
    let top = builder.add_directory("library/photos").unwrap();
    assert_eq!(top, "photos");
    assert!(matches!(
        builder.add_directory("library/other"),
        Err(CoreError::Invariant(Invariant::DirectoryOutsideArchiveRoot))
    ));

    let location = DirectoryLocation::new(root.id(), root.path().clone());
    let page = vec![
        LocatedResource::new(resource_in(root.id(), "b.png", Some(b"bee")), location.clone()).unwrap(),
        LocatedResource::new(resource_in(root.id(), "empty.txt", None), location.clone()).unwrap(),
        LocatedResource::new(resource_in(root.id(), "a.png", Some(b"a")), location).unwrap(),
    ];
    builder.add_page(&top, &page);
    let manifest = builder.finish();

    assert_eq!(manifest.filename(), "photos.zip");
    assert_eq!(manifest.directories(), &vec!["photos/".to_string(), "photos/zeta/".to_string()]);
    let paths: Vec<&str> = manifest.resources().iter().map(|r| r.path()).collect();
    assert_eq!(paths, vec!["photos/a.png", "photos/b.png"]);
    assert_eq!(manifest.resources()[1].content_length(), 3);
    assert_eq!(manifest.resources()[1].checksum().unwrap().value(), hex_sha256(b"bee"));
}

#[test]
fn the_global_root_is_archived_as_asset_hub() {
    let directory =
        Directory::rehydrate(DirectoryId::root(), None, "", DirectoryKind::try_new("core:directory").unwrap(), 1)
            .unwrap();
    let location = DirectoryLocation::new(directory.id(), DirectoryPath::root());
    let root = LocatedDirectory::new(directory, location).unwrap();
    let builder = ManifestBuilder::new(&root);
    assert_eq!(builder.finish().filename(), "asset-hub.zip");
}
