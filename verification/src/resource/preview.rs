//! The media that preview and thumbnail actions return: inline base64 bytes, or a reference to
//! the Resource's own stored content.

use crate::action::orchestration::{base64_standard_decoded, decode_base64, opt_bytes};
use crate::action::output::{ActionView, MediaEncoding, MediaView};
use crate::domain::path::StorageKey;
use crate::domain::resource::ResourceContentView;
use crate::error::{Configuration, CoreError, Subject};
use crate::resource::content::{content_type_for_media, octet_stream};
use crate::resource::query::{located_key, LocatedResource};
use crate::text::chars_of;
use crate::user::{is_white_space, white_space};
use vstd::prelude::*;

verus! {

/// Text made of white space only (the empty text included).
pub open spec fn blank(s: Seq<char>) -> bool {
    forall|i: int| 0 <= i < s.len() ==> is_white_space(#[trigger] s[i])
}

/// The media type served for stored content: its MIME type, or `application/octet-stream`.
pub open spec fn served_media_type(c: ResourceContentView) -> Seq<char> {
    match c.mime_type {
        Some(m) => m,
        None => octet_stream(),
    }
}

fn is_blank(text: &str) -> (r: bool)
    ensures
        r == blank(text@),
{
    let chars = chars_of(text);
    let mut i: usize = 0;
    while i < chars.len()
        invariant
            i <= chars@.len(),
            chars@ == text@,
            forall|j: int| 0 <= j < i ==> is_white_space(#[trigger] text@[j]),
        decreases chars@.len() - i,
    {
        if !white_space(chars[i]) {
            return false;
        }
        i = i + 1;
    }
    true
}

/// The bytes of inline media: an action that must answer with inline media returns a media
/// view in base64 encoding; its bytes are the decoded data, served with the view's MIME type.
pub open spec fn inline_media(view: Option<MediaView>) -> Result<(Seq<char>, Seq<u8>), CoreError> {
    match view {
        None => Err(CoreError::Configuration(Configuration::MediaViewRequired)),
        Some(m) => if m.encoding == MediaEncoding::Url {
            Err(CoreError::Configuration(Configuration::InlineMediaRequired))
        } else {
            match base64_standard_decoded(m.data@) {
                None => Err(CoreError::Configuration(Configuration::InvalidMedia)),
                Some(bytes) => Ok((m.mime_type@, bytes)),
            }
        },
    }
}

/// Decode the inline media an action returned.
pub fn decode_media_view(view: &ActionView) -> (r: Result<(String, Vec<u8>), CoreError>)
    ensures
        match (r, inline_media(view.media)) {
            (Ok((t, b)), Ok((et, eb))) => t@ == et && b@ == eb,
            (Err(e), Err(ee)) => e == ee,
            _ => false,
        },
{
    let media = match &view.media {
        None => return Err(CoreError::Configuration(Configuration::MediaViewRequired)),
        Some(m) => m,
    };
    match media.encoding {
        MediaEncoding::Url => Err(CoreError::Configuration(Configuration::InlineMediaRequired)),
        MediaEncoding::Base64 => match decode_base64(media.data.as_str()) {
            None => Err(CoreError::Configuration(Configuration::InvalidMedia)),
            Some(bytes) => Ok((media.mime_type.clone(), bytes)),
        },
    }
}

/// Where the bytes of a media view come from.
#[derive(Debug)]
pub enum MediaContent {
    /// Bytes the action returned inline.
    Inline { content_type: String, bytes: Vec<u8> },
    /// The Resource's own stored content, read from this key; it is missing if no Blob is
    /// stored there.
    Stored { content_type: String, key: StorageKey },
}

/// The content a preview or thumbnail action's view stands for. Inline media is decoded; a
/// URL view refers to the Resource's own content, which must exist, and is served with the
/// view's MIME type unless that is blank, in which case the content's own media type is used.
pub fn media_view_content(view: &ActionView, located: &LocatedResource) -> (r: Result<
    MediaContent,
    CoreError,
>)
    ensures
        match view.media {
            Some(m) if m.encoding == MediaEncoding::Url => match located@.0.content {
                None => r == Err::<MediaContent, CoreError>(
                    CoreError::NotFound { subject: Subject::ResourceContent, id: located@.0.id.0 },
                ),
                Some(c) => r matches Ok(MediaContent::Stored { content_type, key }) && key@
                    == located_key(located@) && content_type@ == if blank(m.mime_type@) {
                    served_media_type(c)
                } else {
                    m.mime_type@
                },
            },
            _ => match (r, inline_media(view.media)) {
                (Ok(MediaContent::Inline { content_type, bytes }), Ok((t, b))) => content_type@ == t
                    && bytes@ == b,
                (Err(e), Err(ee)) => e == ee,
                _ => false,
            },
        },
{
    if let Some(media) = &view.media {
        if media.encoding == MediaEncoding::Url {
            let content = match located.resource().content() {
                None => return Err(
                    CoreError::NotFound { subject: Subject::ResourceContent, id: located.resource().id().0 },
                ),
                Some(c) => c,
            };
            let key = match located.storage_key() {
                Ok(k) => k,
                Err(_) => vstd::pervasive::unreached(),
            };
            let content_type = if is_blank(media.mime_type.as_str()) {
                content_type_for_media(content)
            } else {
                media.mime_type.clone()
            };
            return Ok(MediaContent::Stored { content_type, key });
        }
    }
    match decode_media_view(view) {
        Ok((content_type, bytes)) => Ok(MediaContent::Inline { content_type, bytes }),
        Err(e) => Err(e),
    }
}

} // verus!
