use asset_core::action::output::{ActionView, MediaEncoding, MediaView};
use asset_core::domain::checksum::{hex_sha256, Checksum};
use asset_core::domain::ids::DirectoryId;
use asset_core::domain::path::DirectoryPath;
use asset_core::domain::resource::{DirectoryLocation, Resource, ResourceContent, ResourceKind};
use asset_core::error::{Configuration, CoreError, Subject};
use asset_core::resource::preview::{decode_media_view, media_view_content, MediaContent};
use asset_core::resource::query::LocatedResource;

fn stored(directory: &str, name: &str, kind: &str, mime: &str, bytes: Option<&[u8]>) -> LocatedResource {
    let directory_id = DirectoryId::new();
    let mut resource = Resource::create(name, directory_id, ResourceKind::try_new(kind).unwrap()).unwrap();
    if let Some(bytes) = bytes {
        resource
            .attach_content(ResourceContent::verified(
                bytes.len() as u64,
                Checksum::sha256(&hex_sha256(bytes)).unwrap(),
                Some(mime.to_string()),
                None,
            ))
            .unwrap();
    }
    let location = DirectoryLocation::new(directory_id, DirectoryPath::from_path(directory).unwrap());
    LocatedResource::new(resource, location).unwrap()
}

/// The media view a built-in preview or thumbnail handler returns: the content inline, typed
/// by the content's MIME type.
fn inline_view(located: &LocatedResource, bytes: &[u8]) -> ActionView {
    let mime_type = located
        .resource()
        .content()
        .and_then(|content| content.mime_type())
        .unwrap_or("application/octet-stream")
        .to_string();
    ActionView {
        kind: "media".to_string(),
        media: Some(MediaView {
            mime_type,
            title: Some(located.resource().name().to_string()),
            encoding: MediaEncoding::Base64,
            data: base64::Engine::encode(&base64::engine::general_purpose::STANDARD, bytes),
        }),
    }
}

fn url_view(mime_type: &str) -> ActionView {
    ActionView {
        kind: "media".to_string(),
        media: Some(MediaView {
            mime_type: mime_type.to_string(),
            title: None,
            encoding: MediaEncoding::Url,
            data: "content".to_string(),
        }),
    }
}

#[test]
fn preview_resource_returns_pdf_content_for_preview_kind() {
    let located = stored("books", "book.pdf", "core:document", "application/pdf", Some(b"%PDF-1.4"));
    let view = inline_view(&located, b"%PDF-1.4");
    match media_view_content(&view, &located).unwrap() {
        MediaContent::Inline { content_type, bytes } => {
            assert_eq!(content_type, "application/pdf");
            assert_eq!(bytes, b"%PDF-1.4".to_vec());
        }
        other => panic!("expected inline media, got {other:?}"),
    }
}

#[test]
fn thumbnail_resource_returns_image_content_for_thumbnail_kind() {
    let image: &[u8] = b"fake-image";
    let located = stored("images", "pixel.png", "core:image", "image/png", Some(image));
    let view = inline_view(&located, image);
    match media_view_content(&view, &located).unwrap() {
        MediaContent::Inline { content_type, bytes } => {
            assert_eq!(content_type, "image/png");
            assert_eq!(bytes, image.to_vec());
        }
        other => panic!("expected inline media, got {other:?}"),
    }
}

#[test]
fn url_media_refers_to_the_stored_content() {
    let located = stored("images", "pixel.png", "core:image", "image/png", Some(b"png"));
    match media_view_content(&url_view("image/webp"), &located).unwrap() {
        MediaContent::Stored { content_type, key } => {
            assert_eq!(content_type, "image/webp");
            assert_eq!(key.as_str(), "images/pixel.png");
        }
        other => panic!("expected stored media, got {other:?}"),
    }
    match media_view_content(&url_view("  "), &located).unwrap() {
        MediaContent::Stored { content_type, .. } => assert_eq!(content_type, "image/png"),
        other => panic!("expected stored media, got {other:?}"),
    }
    let empty = stored("images", "empty.png", "core:image", "image/png", None);
    assert!(matches!(
        media_view_content(&url_view("image/png"), &empty),
        Err(CoreError::NotFound { subject: Subject::ResourceContent, .. })
    ));
}

#[test]
fn inline_media_must_be_a_base64_media_view() {
    let text = ActionView { kind: "text".to_string(), media: None };
    assert!(matches!(
        decode_media_view(&text),
        Err(CoreError::Configuration(Configuration::MediaViewRequired))
    ));
    assert!(matches!(
        decode_media_view(&url_view("image/png")),
        Err(CoreError::Configuration(Configuration::InlineMediaRequired))
    ));
    let invalid = ActionView {
        kind: "media".to_string(),
        media: Some(MediaView {
            mime_type: "image/png".to_string(),
            title: None,
            encoding: MediaEncoding::Base64,
            data: "***".to_string(),
        }),
    };
    assert!(matches!(
        decode_media_view(&invalid),
        Err(CoreError::Configuration(Configuration::InvalidMedia))
    ));
    let (content_type, bytes) =
        decode_media_view(&inline_view(&stored("docs", "a.txt", "core:file", "text/plain", Some(b"hi")), b"hi"))
            .unwrap();
    assert_eq!(content_type, "text/plain");
    assert_eq!(bytes, b"hi".to_vec());
}
