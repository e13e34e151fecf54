//! Stable UUID identities of Resources, Directories, users, uploads and content replacements.

use crate::domain::checksum::hex_char;
use vstd::arithmetic::power::pow;
use vstd::prelude::*;

verus! {

/// The 32 lowercase hexadecimal digits of a UUID value, most significant first.
pub open spec fn uuid_digits(id: u128) -> Seq<char> {
    Seq::new(32, |i: int| hex_char(((id as int / pow(16, (31 - i) as nat)) % 16) as u8))
}

/// The canonical hyphenated lowercase text of a UUID given by its 128-bit value: its 32
/// hexadecimal digits grouped 8-4-4-4-12 by hyphens.
pub closed spec fn uuid_text(id: u128) -> Seq<char> {
    let d = uuid_digits(id);
    d.subrange(0, 8) + seq!['-'] + d.subrange(8, 12) + seq!['-'] + d.subrange(12, 16) + seq!['-']
        + d.subrange(16, 20) + seq!['-'] + d.subrange(20, 32)
}

/// A character of hyphenated lowercase UUID text.
pub open spec fn is_uuid_char(c: char) -> bool {
    ('0' <= c && c <= '9') || ('a' <= c && c <= 'f') || c == '-'
}

/// `uuid::Uuid::hyphenated` rendered with `to_string`: the UUID as 36 characters, its 32
/// lowercase hexadecimal digits grouped 8-4-4-4-12 by hyphens, as `uuid_text` spells out.
#[verifier::external_body]
pub(crate) fn uuid_hyphenated(id: u128) -> (s: String)
    ensures
        s@ == uuid_text(id),
        s@.len() == 36,
        forall|i: int| 0 <= i < 36 ==> is_uuid_char(#[trigger] s@[i]),
{
    uuid::Uuid::from_u128(id).hyphenated().to_string()
}

/// `uuid::Uuid::now_v7`: a fresh time-ordered UUID. Its value depends on the clock and on
/// random bits; the contract states only that its version field is 7.
#[verifier::external_body]
pub(crate) fn uuid_now_v7() -> (id: u128)
    ensures
        (id >> 76u128) & 0xfu128 == 7,
{
    uuid::Uuid::now_v7().as_u128()
}

/// The 128-bit value `uuid::Uuid::parse_str` reads from a text, if the text is a UUID in one of
/// the formats the `uuid` crate accepts.
pub uninterp spec fn uuid_parsed(input: Seq<char>) -> Option<u128>;

/// `uuid::Uuid::parse_str`: parse a UUID in simple, hyphenated, URN or braced form. The result
/// depends on the text alone and is named by `uuid_parsed`.
#[verifier::external_body]
pub(crate) fn uuid_parse(input: &str) -> (r: Option<u128>)
    ensures
        r == uuid_parsed(input@),
{
    match uuid::Uuid::parse_str(input) {
        Ok(u) => Some(u.as_u128()),
        Err(_) => None,
    }
}

/// Directory identity. The global root has the nil UUID.
#[derive(Debug, Clone, Copy, PartialEq, Eq, Structural, Hash)]
pub struct DirectoryId(pub u128);

/// Resource identity.
#[derive(Debug, Clone, Copy, PartialEq, Eq, Structural, Hash)]
pub struct ResourceId(pub u128);

/// Identity of a pending content replacement.
#[derive(Debug, Clone, Copy, PartialEq, Eq, Structural, Hash)]
pub struct ResourceContentReplacementId(pub u128);

/// Identity of a streamed upload session.
#[derive(Debug, Clone, Copy, PartialEq, Eq, Structural, Hash)]
pub struct UploadId(pub u128);

/// Identity of a user.
#[derive(Debug, Clone, Copy, PartialEq, Eq, Structural, Hash)]
pub struct UserId(pub u128);

impl DirectoryId {
    /// Parse a Directory identity from UUID text.
    pub fn parse(text: &str) -> (r: Option<DirectoryId>)
        ensures
            r == match uuid_parsed(text@) {
                Some(v) => Some(DirectoryId(v)),
                None => None,
            },
    {
        match uuid_parse(text) {
            Some(v) => Some(DirectoryId(v)),
            None => None,
        }
    }

    /// The root Directory identity (the nil UUID).
    pub fn root() -> (r: DirectoryId)
        ensures
            r.0 == 0,
    {
        DirectoryId(0)
    }

    /// Whether this is the root Directory.
    pub fn is_root(&self) -> (r: bool)
        ensures
            r == (self.0 == 0),
    {
        self.0 == 0
    }

    /// A fresh identity.
    pub fn new() -> (r: DirectoryId)
        ensures
            (r.0 >> 76u128) & 0xfu128 == 7,
    {
        DirectoryId(uuid_now_v7())
    }

    /// The hyphenated UUID text.
    pub fn to_text(&self) -> (s: String)
        ensures
            s@ == uuid_text(self.0),
    {
        uuid_hyphenated(self.0)
    }
}

impl ResourceId {
    /// A fresh identity.
    pub fn new() -> (r: ResourceId)
        ensures
            (r.0 >> 76u128) & 0xfu128 == 7,
    {
        ResourceId(uuid_now_v7())
    }

    /// The hyphenated UUID text.
    pub fn to_text(&self) -> (s: String)
        ensures
            s@ == uuid_text(self.0),
            s@.len() == 36,
            forall|i: int| 0 <= i < 36 ==> is_uuid_char(#[trigger] s@[i]),
    {
        uuid_hyphenated(self.0)
    }
}

impl ResourceContentReplacementId {
    /// A fresh identity.
    pub fn new() -> (r: ResourceContentReplacementId)
        ensures
            (r.0 >> 76u128) & 0xfu128 == 7,
    {
        ResourceContentReplacementId(uuid_now_v7())
    }

    /// The hyphenated UUID text.
    pub fn to_text(&self) -> (s: String)
        ensures
            s@ == uuid_text(self.0),
            s@.len() == 36,
            forall|i: int| 0 <= i < 36 ==> is_uuid_char(#[trigger] s@[i]),
    {
        uuid_hyphenated(self.0)
    }
}

impl UploadId {
    /// A fresh identity.
    pub fn new() -> (r: UploadId)
        ensures
            (r.0 >> 76u128) & 0xfu128 == 7,
    {
        UploadId(uuid_now_v7())
    }

    /// The hyphenated UUID text.
    pub fn to_text(&self) -> (s: String)
        ensures
            s@ == uuid_text(self.0),
            s@.len() == 36,
            forall|i: int| 0 <= i < 36 ==> is_uuid_char(#[trigger] s@[i]),
    {
        uuid_hyphenated(self.0)
    }
}

impl UserId {
    /// A fresh identity.
    pub fn new() -> (r: UserId)
        ensures
            (r.0 >> 76u128) & 0xfu128 == 7,
    {
        UserId(uuid_now_v7())
    }
}

} // verus!
