use asset_core::action::definition::{
    ResourceActionContentDelivery, ResourceActionDefinition, ResourceActionRequirements,
};
use asset_core::action::orchestration::resolved_content_delivery;
use asset_core::action::policy::{PluginExecutionPolicy, ResourceActionPolicy};
use asset_core::domain::path::DirectoryPath;
use asset_core::image_metadata::dimensions;
use asset_core::resource::storage_key_from_resource_path;

#[test]
fn derives_visible_blob_keys_from_root_and_nested_resource_paths() {
    assert_eq!(
        storage_key_from_resource_path(&DirectoryPath::root(), "note.txt")
            .unwrap()
            .as_str(),
        "note.txt"
    );
    assert_eq!(
        storage_key_from_resource_path(
            &DirectoryPath::from_path("documents/reports").unwrap(),
            "note.txt"
        )
        .unwrap()
        .as_str(),
        "documents/reports/note.txt"
    );
}

#[test]
fn normalizes_sub_limits_and_rejects_zero_values() {
    let policy = PluginExecutionPolicy::new(8, 9, 10, 16, 16, 1, 1, 1).unwrap();
    assert_eq!(policy.max_inline_content_bytes(), 8);
    assert_eq!(policy.max_content_read_bytes(), 8);
    assert!(PluginExecutionPolicy::new(8, 4, 4, 0, 16, 1, 1, 1).is_err());
}

fn test_resource_action_policy() -> ResourceActionPolicy {
    ResourceActionPolicy::new(64 * 1024 * 1024, 4 * 1024 * 1024).unwrap()
}

#[test]
fn action_tests_action_content_delivery_never_loads_unrequested_content() {
    let policy = test_resource_action_policy();

    let without_content = ResourceActionDefinition::new_static("test.inspect", "Inspect");
    assert_eq!(resolved_content_delivery(&without_content, 1, &policy), None);

    let required = |delivery| {
        ResourceActionDefinition::new_static("test.inspect", "Inspect").with_requirements(
            ResourceActionRequirements {
                content: true,
                content_delivery: delivery,
            },
        )
    };
    assert_eq!(
        resolved_content_delivery(
            &required(ResourceActionContentDelivery::Inline),
            policy.max_inline_content_bytes() + 1,
            &policy,
        ),
        Some(ResourceActionContentDelivery::Inline)
    );
    assert_eq!(
        resolved_content_delivery(
            &required(ResourceActionContentDelivery::Reference),
            1,
            &policy,
        ),
        Some(ResourceActionContentDelivery::Reference)
    );
    assert_eq!(
        resolved_content_delivery(
            &required(ResourceActionContentDelivery::Auto),
            policy.max_inline_content_bytes(),
            &policy,
        ),
        Some(ResourceActionContentDelivery::Inline)
    );
    assert_eq!(
        resolved_content_delivery(
            &required(ResourceActionContentDelivery::Auto),
            policy.max_inline_content_bytes() + 1,
            &policy,
        ),
        Some(ResourceActionContentDelivery::Reference)
    );
}

#[test]
fn reads_common_raster_dimensions_without_decoding_pixels() {
    let mut png = vec![0; 24];
    png[..8].copy_from_slice(b"\x89PNG\r\n\x1a\n");
    png[12..16].copy_from_slice(b"IHDR");
    png[16..20].copy_from_slice(&1920_u32.to_be_bytes());
    png[20..24].copy_from_slice(&1080_u32.to_be_bytes());
    assert_eq!(dimensions(&png), Some((1920, 1080)));

    let mut gif = b"GIF89a".to_vec();
    gif.extend_from_slice(&640_u16.to_le_bytes());
    gif.extend_from_slice(&480_u16.to_le_bytes());
    assert_eq!(dimensions(&gif), Some((640, 480)));

    let mut bmp = vec![0; 26];
    bmp[..2].copy_from_slice(b"BM");
    bmp[14..18].copy_from_slice(&40_u32.to_le_bytes());
    bmp[18..22].copy_from_slice(&800_i32.to_le_bytes());
    bmp[22..26].copy_from_slice(&(-600_i32).to_le_bytes());
    assert_eq!(dimensions(&bmp), Some((800, 600)));

    let mut jpeg = vec![0; 21];
    jpeg[..4].copy_from_slice(b"\xff\xd8\xff\xc0");
    jpeg[4..6].copy_from_slice(&17_u16.to_be_bytes());
    jpeg[6] = 8;
    jpeg[7..9].copy_from_slice(&720_u16.to_be_bytes());
    jpeg[9..11].copy_from_slice(&1280_u16.to_be_bytes());
    assert_eq!(dimensions(&jpeg), Some((1280, 720)));

    let mut webp = vec![0; 30];
    webp[..4].copy_from_slice(b"RIFF");
    webp[8..12].copy_from_slice(b"WEBP");
    webp[12..16].copy_from_slice(b"VP8X");
    webp[24..27].copy_from_slice(&[0xff, 0x03, 0x00]);
    webp[27..30].copy_from_slice(&[0x3f, 0x02, 0x00]);
    assert_eq!(dimensions(&webp), Some((1024, 576)));

    let mut avif = vec![0; 36];
    avif[4..8].copy_from_slice(b"ftyp");
    avif[8..12].copy_from_slice(b"avif");
    avif[16..20].copy_from_slice(&20_u32.to_be_bytes());
    avif[20..24].copy_from_slice(b"ispe");
    avif[28..32].copy_from_slice(&3840_u32.to_be_bytes());
    avif[32..36].copy_from_slice(&2160_u32.to_be_bytes());
    assert_eq!(dimensions(&avif), Some((3840, 2160)));
}

#[test]
fn rejects_truncated_or_zero_sized_headers() {
    assert_eq!(dimensions(b"\x89PNG"), None);
    let mut png = vec![0; 24];
    png[..8].copy_from_slice(b"\x89PNG\r\n\x1a\n");
    png[12..16].copy_from_slice(b"IHDR");
    assert_eq!(dimensions(&png), None);
}
