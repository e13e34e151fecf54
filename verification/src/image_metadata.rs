//! Bounded header parsing for the intrinsic `core:image` width and height fields.
//!
//! Only format headers are read; pixels are never decoded. Unsupported or malformed images
//! produce no dimensions, so metadata extraction cannot make a valid Resource unreadable.

use vstd::prelude::*;

verus! {

// ----- byte-level reading -----

/// Big-endian 16-bit value at `o`.
pub open spec fn be16(b: Seq<u8>, o: int) -> int {
    b[o] as int * 256 + b[o + 1] as int
}

/// Little-endian 16-bit value at `o`.
pub open spec fn le16(b: Seq<u8>, o: int) -> int {
    b[o] as int + b[o + 1] as int * 256
}

/// Little-endian 24-bit value at `o`.
pub open spec fn le24(b: Seq<u8>, o: int) -> int {
    b[o] as int + b[o + 1] as int * 256 + b[o + 2] as int * 65536
}

/// Big-endian 32-bit value at `o`.
pub open spec fn be32(b: Seq<u8>, o: int) -> int {
    b[o] as int * 16777216 + b[o + 1] as int * 65536 + b[o + 2] as int * 256 + b[o + 3] as int
}

/// Little-endian 32-bit value at `o`.
pub open spec fn le32(b: Seq<u8>, o: int) -> int {
    b[o] as int + b[o + 1] as int * 256 + b[o + 2] as int * 65536 + b[o + 3] as int * 16777216
}

/// Magnitude of the little-endian two's complement 32-bit value at `o`.
pub open spec fn le32_signed_magnitude(b: Seq<u8>, o: int) -> int {
    if le32(b, o) >= 0x8000_0000 {
        0x1_0000_0000 - le32(b, o)
    } else {
        le32(b, o)
    }
}

/// `tag` occurs in `b` at offset `o`.
pub open spec fn tag_at(b: Seq<u8>, o: int, tag: Seq<u8>) -> bool {
    0 <= o && o + tag.len() <= b.len() && b.subrange(o, o + tag.len()) == tag
}

/// `tag` occurs anywhere in `b`.
pub open spec fn has_tag(b: Seq<u8>, tag: Seq<u8>) -> bool {
    exists|o: int| #[trigger] tag_at(b, o, tag)
}

pub open spec fn tag4(a: u8, b: u8, c: u8, d: u8) -> Seq<u8> {
    seq![a, b, c, d]
}

/// The PNG signature `\x89PNG\r\n\x1a\n`.
pub open spec fn png_signature() -> Seq<u8> {
    seq![0x89u8, 0x50, 0x4e, 0x47, 0x0d, 0x0a, 0x1a, 0x0a]
}

// ----- the formats -----

/// PNG: the signature, an `IHDR` chunk type at offset 12, then big-endian width and height.
pub open spec fn png_dims(b: Seq<u8>) -> Option<(int, int)> {
    if !tag_at(b, 0, png_signature()) || !tag_at(b, 12, tag4(0x49, 0x48, 0x44, 0x52))
        || b.len() < 24 {
        None
    } else {
        Some((be32(b, 16), be32(b, 20)))
    }
}

/// GIF: `GIF87a` or `GIF89a`, then little-endian 16-bit width and height.
pub open spec fn gif_dims(b: Seq<u8>) -> Option<(int, int)> {
    if b.len() < 6 || !(tag_at(b, 0, tag4(0x47, 0x49, 0x46, 0x38)) && (b[4] == 0x37u8 || b[4]
        == 0x39u8) && b[5] == 0x61u8) || b.len() < 10 {
        None
    } else {
        Some((le16(b, 6), le16(b, 8)))
    }
}

/// JPEG start-of-frame markers carrying the frame dimensions.
pub open spec fn is_sof_marker(m: u8) -> bool {
    m == 0xc0 || m == 0xc1 || m == 0xc2 || m == 0xc3 || m == 0xc5 || m == 0xc6 || m == 0xc7 || m
        == 0xc9 || m == 0xca || m == 0xcb || m == 0xcd || m == 0xce || m == 0xcf
}

/// JPEG markers without a length field.
pub open spec fn is_standalone_marker(m: u8) -> bool {
    m == 0x00 || m == 0xd8 || m == 0xd9 || (0xd0 <= m && m <= 0xd7)
}

/// First index at or after `i` that does not hold the fill byte `0xff`.
pub open spec fn skip_fill(b: Seq<u8>, i: int) -> int
    decreases b.len() - i,
{
    if 0 <= i < b.len() && b[i] == 0xffu8 {
        skip_fill(b, i + 1)
    } else {
        i
    }
}

/// Walk the JPEG marker segments from `cursor` until a start-of-frame segment.
pub open spec fn jpeg_scan(b: Seq<u8>, cursor: int) -> Option<(int, int)>
    decreases b.len() - cursor,
{
    if cursor < 0 || cursor >= b.len() {
        None
    } else {
        let c1 = skip_fill(b, cursor);
        if c1 >= b.len() || c1 < cursor {
            None
        } else {
            let marker = b[c1];
            let c2 = c1 + 1;
            if is_standalone_marker(marker) {
                jpeg_scan(b, c2)
            } else if c2 + 2 > b.len() {
                None
            } else {
                let length = be16(b, c2);
                if length < 2 || c2 + length > b.len() {
                    None
                } else if is_sof_marker(marker) {
                    if length < 7 {
                        None
                    } else {
                        Some((be16(b, c2 + 5), be16(b, c2 + 3)))
                    }
                } else {
                    jpeg_scan(b, c2 + length)
                }
            }
        }
    }
}

/// JPEG: the SOI marker `\xff\xd8`, then marker segments until a start-of-frame segment.
pub open spec fn jpeg_dims(b: Seq<u8>) -> Option<(int, int)> {
    if b.len() < 2 || b[0] != 0xffu8 || b[1] != 0xd8u8 {
        None
    } else {
        jpeg_scan(b, 2)
    }
}

/// WebP: `RIFF....WEBP`, then a `VP8X`, `VP8 ` or `VP8L` chunk with its own size encoding.
pub open spec fn webp_dims(b: Seq<u8>) -> Option<(int, int)> {
    if !tag_at(b, 0, tag4(0x52, 0x49, 0x46, 0x46)) || !tag_at(b, 8, tag4(0x57, 0x45, 0x42, 0x50))
        || b.len() < 16 {
        None
    } else if tag_at(b, 12, tag4(0x56, 0x50, 0x38, 0x58)) {
        if b.len() < 30 {
            None
        } else {
            Some((1 + le24(b, 24), 1 + le24(b, 27)))
        }
    } else if tag_at(b, 12, tag4(0x56, 0x50, 0x38, 0x20)) {
        if !tag_at(b, 23, seq![0x9du8, 0x01, 0x2a]) || b.len() < 30 {
            None
        } else {
            Some((le16(b, 26) % 16384, le16(b, 28) % 16384))
        }
    } else if tag_at(b, 12, tag4(0x56, 0x50, 0x38, 0x4c)) {
        if b.len() < 21 || b[20] != 0x2fu8 || b.len() < 25 {
            None
        } else {
            Some(
                (
                    1 + b[21] as int + (b[22] as int % 64) * 256,
                    1 + b[22] as int / 64 + b[23] as int * 4 + (b[24] as int % 16) * 1024,
                ),
            )
        }
    } else {
        None
    }
}

/// BMP: `BM`, then the DIB header size at offset 14 selecting the core or the info header.
pub open spec fn bmp_dims(b: Seq<u8>) -> Option<(int, int)> {
    if b.len() < 2 || b[0] != 0x42u8 || b[1] != 0x4du8 || b.len() < 18 {
        None
    } else if le32(b, 14) == 12 {
        if b.len() < 22 {
            None
        } else {
            Some((le16(b, 18), le16(b, 20)))
        }
    } else if le32(b, 14) >= 40 {
        if b.len() < 26 {
            None
        } else {
            Some((le32_signed_magnitude(b, 18), le32_signed_magnitude(b, 22)))
        }
    } else {
        None
    }
}

/// An `ispe` property box at `o` with a plausible box size and positive dimensions.
pub open spec fn ispe_hit(b: Seq<u8>, o: int) -> bool {
    &&& o >= 4
    &&& tag_at(b, o, tag4(0x69, 0x73, 0x70, 0x65))
    &&& be32(b, o - 4) >= 20
    &&& o + 16 <= b.len()
    &&& be32(b, o + 8) > 0
    &&& be32(b, o + 12) > 0
}

/// The first `ispe` box at or after `o`.
pub open spec fn avif_scan(b: Seq<u8>, o: int) -> Option<(int, int)>
    decreases b.len() - o,
{
    if o < 0 || o + 4 > b.len() {
        None
    } else if ispe_hit(b, o) {
        Some((be32(b, o + 8), be32(b, o + 12)))
    } else {
        avif_scan(b, o + 1)
    }
}

/// AVIF/HEIF: an `ftyp` box and an `avif`, `avis` or `mif1` brand anywhere, then the first
/// `ispe` property box.
pub open spec fn avif_dims(b: Seq<u8>) -> Option<(int, int)> {
    if !has_tag(b, tag4(0x66, 0x74, 0x79, 0x70)) || !(has_tag(b, tag4(0x61, 0x76, 0x69, 0x66))
        || has_tag(b, tag4(0x61, 0x76, 0x69, 0x73)) || has_tag(b, tag4(0x6d, 0x69, 0x66, 0x31))) {
        None
    } else {
        avif_scan(b, 0)
    }
}

/// The dimensions of the first format that recognises the header, when both are positive.
pub open spec fn image_dims(b: Seq<u8>) -> Option<(int, int)> {
    let found = if png_dims(b) is Some {
        png_dims(b)
    } else if gif_dims(b) is Some {
        gif_dims(b)
    } else if jpeg_dims(b) is Some {
        jpeg_dims(b)
    } else if webp_dims(b) is Some {
        webp_dims(b)
    } else if bmp_dims(b) is Some {
        bmp_dims(b)
    } else {
        avif_dims(b)
    };
    match found {
        Some((w, h)) => if w > 0 && h > 0 {
            Some((w, h))
        } else {
            None
        },
        None => None,
    }
}

/// An exec pair of dimensions as integers.
pub open spec fn dims_view(r: Option<(u32, u32)>) -> Option<(int, int)> {
    match r {
        Some((w, h)) => Some((w as int, h as int)),
        None => None,
    }
}

// ----- executable readers -----

fn at4(bytes: &[u8], o: usize, a: u8, b: u8, c: u8, d: u8) -> (r: bool)
    ensures
        r == tag_at(bytes@, o as int, tag4(a, b, c, d)),
{
    if o > bytes.len() || bytes.len() - o < 4 {
        return false;
    }
    let r = bytes[o] == a && bytes[o + 1] == b && bytes[o + 2] == c && bytes[o + 3] == d;
    proof {
        let s = bytes@.subrange(o as int, o + 4);
        if r {
            assert(s =~= tag4(a, b, c, d));
        } else {
            assert(s[0] != a || s[1] != b || s[2] != c || s[3] != d);
            assert(s != tag4(a, b, c, d));
        }
    }
    r
}

fn be_u16(bytes: &[u8], offset: usize) -> (r: Option<u16>)
    ensures
        match r {
            Some(v) => offset + 2 <= bytes@.len() && v as int == be16(bytes@, offset as int),
            None => offset + 2 > bytes@.len(),
        },
{
    if offset > bytes.len() || bytes.len() - offset < 2 {
        return None;
    }
    Some((bytes[offset] as u16) * 256 + bytes[offset + 1] as u16)
}

fn le_u16(bytes: &[u8], offset: usize) -> (r: Option<u16>)
    ensures
        match r {
            Some(v) => offset + 2 <= bytes@.len() && v as int == le16(bytes@, offset as int),
            None => offset + 2 > bytes@.len(),
        },
{
    if offset > bytes.len() || bytes.len() - offset < 2 {
        return None;
    }
    Some(bytes[offset] as u16 + (bytes[offset + 1] as u16) * 256)
}

fn be_u32(bytes: &[u8], offset: usize) -> (r: Option<u32>)
    ensures
        match r {
            Some(v) => offset + 4 <= bytes@.len() && v as int == be32(bytes@, offset as int),
            None => offset + 4 > bytes@.len(),
        },
{
    if offset > bytes.len() || bytes.len() - offset < 4 {
        return None;
    }
    Some(
        (bytes[offset] as u32) * 16777216 + (bytes[offset + 1] as u32) * 65536 + (bytes[offset
            + 2] as u32) * 256 + bytes[offset + 3] as u32,
    )
}

fn le_u32(bytes: &[u8], offset: usize) -> (r: Option<u32>)
    ensures
        match r {
            Some(v) => offset + 4 <= bytes@.len() && v as int == le32(bytes@, offset as int),
            None => offset + 4 > bytes@.len(),
        },
{
    if offset > bytes.len() || bytes.len() - offset < 4 {
        return None;
    }
    Some(
        bytes[offset] as u32 + (bytes[offset + 1] as u32) * 256 + (bytes[offset + 2] as u32)
            * 65536 + (bytes[offset + 3] as u32) * 16777216,
    )
}

/// Little-endian two's complement 32-bit value at `offset`.
fn le_i32(bytes: &[u8], offset: usize) -> (r: Option<i32>)
    ensures
        match r {
            Some(v) => offset + 4 <= bytes@.len() && v as int == (if le32(bytes@, offset as int)
                >= 0x8000_0000 {
                le32(bytes@, offset as int) - 0x1_0000_0000
            } else {
                le32(bytes@, offset as int)
            }),
            None => offset + 4 > bytes@.len(),
        },
{
    let u = le_u32(bytes, offset)?;
    if u < 0x8000_0000 {
        Some(u as i32)
    } else {
        let below = (0xffff_ffffu32 - u) as i32;
        Some(-below - 1)
    }
}

/// Magnitude of a signed 32-bit value, as `i32::unsigned_abs`.
fn unsigned_abs(v: i32) -> (r: u32)
    ensures
        r as int == if v < 0 {
            -(v as int)
        } else {
            v as int
        },
{
    if v >= 0 {
        v as u32
    } else if v == i32::MIN {
        0x8000_0000
    } else {
        (-v) as u32
    }
}

fn le_u24(bytes: &[u8], offset: usize) -> (r: Option<u32>)
    ensures
        match r {
            Some(v) => offset + 3 <= bytes@.len() && v as int == le24(bytes@, offset as int),
            None => offset + 3 > bytes@.len(),
        },
{
    if offset > bytes.len() || bytes.len() - offset < 3 {
        return None;
    }
    Some(
        bytes[offset] as u32 + (bytes[offset + 1] as u32) * 256 + (bytes[offset + 2] as u32)
            * 65536,
    )
}

// ----- executable formats -----

fn png_dimensions(bytes: &[u8]) -> (r: Option<(u32, u32)>)
    ensures
        dims_view(r) == png_dims(bytes@),
{
    let signature = bytes.len() >= 8 && bytes[0] == 0x89 && bytes[1] == 0x50 && bytes[2] == 0x4e
        && bytes[3] == 0x47 && bytes[4] == 0x0d && bytes[5] == 0x0a && bytes[6] == 0x1a
        && bytes[7] == 0x0a;
    proof {
        if signature {
            assert(bytes@.subrange(0, 8) =~= png_signature());
        } else if bytes@.len() >= 8 {
            let s = bytes@.subrange(0, 8);
            assert(s[0] != 0x89 || s[1] != 0x50 || s[2] != 0x4e || s[3] != 0x47 || s[4] != 0x0d
                || s[5] != 0x0a || s[6] != 0x1a || s[7] != 0x0a);
            assert(s != png_signature());
        }
    }
    if !signature || !at4(bytes, 12, 0x49, 0x48, 0x44, 0x52) {
        return None;
    }
    let width = be_u32(bytes, 16)?;
    let height = be_u32(bytes, 20)?;
    Some((width, height))
}

fn gif_dimensions(bytes: &[u8]) -> (r: Option<(u32, u32)>)
    ensures
        dims_view(r) == gif_dims(bytes@),
{
    if bytes.len() < 6 {
        return None;
    }
    if !(at4(bytes, 0, 0x47, 0x49, 0x46, 0x38) && (bytes[4] == 0x37 || bytes[4] == 0x39)
        && bytes[5] == 0x61) {
        return None;
    }
    let width = le_u16(bytes, 6)?;
    let height = le_u16(bytes, 8)?;
    Some((width as u32, height as u32))
}

fn jpeg_dimensions(bytes: &[u8]) -> (r: Option<(u32, u32)>)
    ensures
        dims_view(r) == jpeg_dims(bytes@),
{
    if bytes.len() < 2 || bytes[0] != 0xff || bytes[1] != 0xd8 {
        return None;
    }
    let mut cursor: usize = 2;
    while cursor < bytes.len()
        invariant
            2 <= cursor <= bytes@.len(),
            jpeg_dims(bytes@) == jpeg_scan(bytes@, cursor as int),
        decreases bytes@.len() - cursor,
    {
        let start = cursor;
        while cursor < bytes.len() && bytes[cursor] == 0xff
            invariant
                start <= cursor <= bytes@.len(),
                start < bytes@.len(),
                skip_fill(bytes@, start as int) == skip_fill(bytes@, cursor as int),
            decreases bytes@.len() - cursor,
        {
            cursor += 1;
        }
        proof {
            assert(skip_fill(bytes@, cursor as int) == cursor as int);
            lemma_skip_fill_at_least(bytes@, start as int);
        }
        if cursor >= bytes.len() {
            return None;
        }
        let marker = bytes[cursor];
        cursor += 1;
        if marker == 0x00 || marker == 0xd8 || marker == 0xd9 || (0xd0 <= marker && marker
            <= 0xd7) {
            continue;
        }
        let length = match be_u16(bytes, cursor) {
            Some(l) => l as usize,
            None => {
                return None;
            },
        };
        if length < 2 || length > bytes.len() - cursor {
            return None;
        }
        if marker == 0xc0 || marker == 0xc1 || marker == 0xc2 || marker == 0xc3 || marker == 0xc5
            || marker == 0xc6 || marker == 0xc7 || marker == 0xc9 || marker == 0xca || marker
            == 0xcb || marker == 0xcd || marker == 0xce || marker == 0xcf {
            if length < 7 {
                return None;
            }
            let height = be_u16(bytes, cursor + 3)?;
            let width = be_u16(bytes, cursor + 5)?;
            return Some((width as u32, height as u32));
        }
        cursor += length;
    }
    None
}

proof fn lemma_skip_fill_at_least(b: Seq<u8>, i: int)
    ensures
        skip_fill(b, i) >= i,
    decreases b.len() - i,
{
    if 0 <= i < b.len() && b[i] == 0xffu8 {
        lemma_skip_fill_at_least(b, i + 1);
    }
}

fn webp_dimensions(bytes: &[u8]) -> (r: Option<(u32, u32)>)
    ensures
        dims_view(r) == webp_dims(bytes@),
{
    if !at4(bytes, 0, 0x52, 0x49, 0x46, 0x46) || !at4(bytes, 8, 0x57, 0x45, 0x42, 0x50) {
        return None;
    }
    if bytes.len() < 16 {
        return None;
    }
    let data: usize = 20;
    if at4(bytes, 12, 0x56, 0x50, 0x38, 0x58) {
        let w = le_u24(bytes, data + 4)?;
        let h = le_u24(bytes, data + 7)?;
        Some((1 + w, 1 + h))
    } else if at4(bytes, 12, 0x56, 0x50, 0x38, 0x20) {
        let frame = bytes.len() >= data + 6 && bytes[data + 3] == 0x9d && bytes[data + 4] == 0x01
            && bytes[data + 5] == 0x2a;
        proof {
            let tag = seq![0x9du8, 0x01, 0x2a];
            if frame {
                assert(bytes@.subrange(23, 26) =~= tag);
            } else if bytes@.len() >= 26 {
                let s = bytes@.subrange(23, 26);
                assert(s[0] != 0x9d || s[1] != 0x01 || s[2] != 0x2a);
                assert(s != tag);
            }
        }
        if !frame {
            return None;
        }
        let w = le_u16(bytes, data + 6)?;
        let h = le_u16(bytes, data + 8)?;
        Some(((w % 16384) as u32, (h % 16384) as u32))
    } else if at4(bytes, 12, 0x56, 0x50, 0x38, 0x4c) {
        if bytes.len() <= data || bytes[data] != 0x2f {
            return None;
        }
        if bytes.len() < data + 5 {
            return None;
        }
        let b1 = bytes[data + 1] as u32;
        let b2 = bytes[data + 2] as u32;
        let b3 = bytes[data + 3] as u32;
        let b4 = bytes[data + 4] as u32;
        Some((1 + b1 + (b2 % 64) * 256, 1 + b2 / 64 + b3 * 4 + (b4 % 16) * 1024))
    } else {
        None
    }
}

fn bmp_dimensions(bytes: &[u8]) -> (r: Option<(u32, u32)>)
    ensures
        dims_view(r) == bmp_dims(bytes@),
{
    if bytes.len() < 2 || bytes[0] != 0x42 || bytes[1] != 0x4d {
        return None;
    }
    let size = le_u32(bytes, 14)?;
    if size == 12 {
        let w = le_u16(bytes, 18)?;
        let h = le_u16(bytes, 20)?;
        Some((w as u32, h as u32))
    } else if size >= 40 {
        let w = unsigned_abs(le_i32(bytes, 18)?);
        let h = unsigned_abs(le_i32(bytes, 22)?);
        Some((w, h))
    } else {
        None
    }
}

fn contains_tag4(bytes: &[u8], a: u8, b: u8, c: u8, d: u8) -> (r: bool)
    ensures
        r == has_tag(bytes@, tag4(a, b, c, d)),
{
    if bytes.len() < 4 {
        proof {
            assert forall|o: int| !#[trigger] tag_at(bytes@, o, tag4(a, b, c, d)) by {}
        }
        return false;
    }
    let mut o: usize = 0;
    while o <= bytes.len() - 4
        invariant
            bytes@.len() >= 4,
            o <= bytes@.len() - 3,
            forall|j: int| 0 <= j < o ==> !#[trigger] tag_at(bytes@, j, tag4(a, b, c, d)),
        decreases bytes@.len() - o,
    {
        if at4(bytes, o, a, b, c, d) {
            return true;
        }
        o += 1;
    }
    proof {
        assert forall|j: int| !#[trigger] tag_at(bytes@, j, tag4(a, b, c, d)) by {
            if 0 <= j < o {
            }
        }
    }
    false
}

fn avif_dimensions(bytes: &[u8]) -> (r: Option<(u32, u32)>)
    ensures
        dims_view(r) == avif_dims(bytes@),
{
    if !contains_tag4(bytes, 0x66, 0x74, 0x79, 0x70) || !(contains_tag4(
        bytes,
        0x61,
        0x76,
        0x69,
        0x66,
    ) || contains_tag4(bytes, 0x61, 0x76, 0x69, 0x73) || contains_tag4(
        bytes,
        0x6d,
        0x69,
        0x66,
        0x31,
    )) {
        return None;
    }
    let mut offset: usize = 0;
    while offset <= bytes.len() && bytes.len() - offset >= 4
        invariant
            offset <= bytes@.len(),
            avif_dims(bytes@) == avif_scan(bytes@, offset as int),
        decreases bytes@.len() - offset,
    {
        if at4(bytes, offset, 0x69, 0x73, 0x70, 0x65) && offset >= 4 {
            let size = be_u32(bytes, offset - 4);
            match size {
                Some(size) => {
                    if size >= 20 && bytes.len() - offset >= 16 {
                        let width = be_u32(bytes, offset + 8);
                        let height = be_u32(bytes, offset + 12);
                        match (width, height) {
                            (Some(w), Some(h)) => {
                                if w > 0 && h > 0 {
                                    return Some((w, h));
                                }
                            },
                            _ => {},
                        }
                    }
                },
                None => {},
            }
        }
        offset += 1;
    }
    None
}

/// Width and height read from a PNG, GIF, JPEG, WebP, BMP or AVIF header, trying the formats
/// in that order; only positive dimensions are reported.
pub fn dimensions(bytes: &[u8]) -> (r: Option<(u32, u32)>)
    ensures
        dims_view(r) == image_dims(bytes@),
{
    let found = match png_dimensions(bytes) {
        Some(d) => Some(d),
        None => match gif_dimensions(bytes) {
            Some(d) => Some(d),
            None => match jpeg_dimensions(bytes) {
                Some(d) => Some(d),
                None => match webp_dimensions(bytes) {
                    Some(d) => Some(d),
                    None => match bmp_dimensions(bytes) {
                        Some(d) => Some(d),
                        None => avif_dimensions(bytes),
                    },
                },
            },
        },
    };
    match found {
        Some((width, height)) => if width > 0 && height > 0 {
            Some((width, height))
        } else {
            None
        },
        None => None,
    }
}


// ----- what each format's header says -----

/// The answer for a header that carries `width` and `height`: both, when both are positive.
pub open spec fn reported(width: int, height: int) -> Option<(int, int)> {
    if width > 0 && height > 0 {
        Some((width, height))
    } else {
        None
    }
}

/// A PNG file reports the width stored big-endian in bytes 16..20 of its `IHDR` chunk and the
/// height stored big-endian in bytes 20..24.
pub proof fn lemma_png_dimensions(b: Seq<u8>)
    requires
        b.len() >= 24,
        b[0] == 0x89u8 && b[1] == 0x50u8 && b[2] == 0x4eu8 && b[3] == 0x47u8,
        b[4] == 0x0du8 && b[5] == 0x0au8 && b[6] == 0x1au8 && b[7] == 0x0au8,
        b[12] == 0x49u8 && b[13] == 0x48u8 && b[14] == 0x44u8 && b[15] == 0x52u8,
    ensures
        image_dims(b) == reported(
            ((b[16] as int * 256 + b[17] as int) * 256 + b[18] as int) * 256 + b[19] as int,
            ((b[20] as int * 256 + b[21] as int) * 256 + b[22] as int) * 256 + b[23] as int,
        ),
{
    assert(b.subrange(0, 8) =~= png_signature());
    assert(b.subrange(12, 16) =~= tag4(0x49, 0x48, 0x44, 0x52));
}

/// A GIF file (`GIF87a` or `GIF89a`) reports the little-endian width in bytes 6..8 and the
/// little-endian height in bytes 8..10 of its logical screen descriptor.
pub proof fn lemma_gif_dimensions(b: Seq<u8>)
    requires
        b.len() >= 10,
        b[0] == 0x47u8 && b[1] == 0x49u8 && b[2] == 0x46u8 && b[3] == 0x38u8,
        b[4] == 0x37u8 || b[4] == 0x39u8,
        b[5] == 0x61u8,
    ensures
        image_dims(b) == reported(b[6] as int + b[7] as int * 256, b[8] as int + b[9] as int * 256),
{
    assert(b.subrange(0, 8)[0] == b[0]);
    assert(b.subrange(0, 4) =~= tag4(0x47, 0x49, 0x46, 0x38));
}

/// A JPEG file whose first segment is a baseline start-of-frame (`FFD8 FFC0`) reports the
/// big-endian width in bytes 9..11 and the big-endian height in bytes 7..9: the frame header
/// stores the number of lines before the number of samples per line.
pub proof fn lemma_jpeg_dimensions(b: Seq<u8>)
    requires
        b[0] == 0xffu8 && b[1] == 0xd8u8 && b[2] == 0xffu8 && b[3] == 0xc0u8,
        7 <= b[4] as int * 256 + b[5] as int,
        4 + b[4] as int * 256 + b[5] as int <= b.len(),
    ensures
        image_dims(b) == reported(b[9] as int * 256 + b[10] as int, b[7] as int * 256 + b[8] as int),
{
    assert(b.subrange(0, 8)[0] == b[0]);
    assert(b.subrange(0, 4)[0] == b[0]);
    assert(skip_fill(b, 3) == 3);
    assert(skip_fill(b, 2) == 3);
}

/// A simple lossy WebP file (`RIFF....WEBPVP8 ` with the `9d 01 2a` frame start code) reports the
/// 14-bit little-endian width in bytes 26..28 and the 14-bit little-endian height in bytes
/// 28..30; the two top bits of each field are the scaling code and are not part of the size.
pub proof fn lemma_webp_lossy_dimensions(b: Seq<u8>)
    requires
        b.len() >= 30,
        b[0] == 0x52u8 && b[1] == 0x49u8 && b[2] == 0x46u8 && b[3] == 0x46u8,
        b[8] == 0x57u8 && b[9] == 0x45u8 && b[10] == 0x42u8 && b[11] == 0x50u8,
        b[12] == 0x56u8 && b[13] == 0x50u8 && b[14] == 0x38u8 && b[15] == 0x20u8,
        b[23] == 0x9du8 && b[24] == 0x01u8 && b[25] == 0x2au8,
    ensures
        image_dims(b) == reported(
            b[26] as int + (b[27] as int % 64) * 256,
            b[28] as int + (b[29] as int % 64) * 256,
        ),
{
    assert(b.subrange(0, 8)[0] == b[0]);
    assert(b.subrange(0, 4) =~= tag4(0x52, 0x49, 0x46, 0x46));
    assert(b.subrange(8, 12) =~= tag4(0x57, 0x45, 0x42, 0x50));
    assert(b.subrange(12, 16) =~= tag4(0x56, 0x50, 0x38, 0x20));
    assert(b.subrange(12, 16)[3] == b[15]);
    assert(b.subrange(23, 26) =~= seq![0x9du8, 0x01, 0x2a]);
    assert((b[26] as int + b[27] as int * 256) % 16384 == b[26] as int + (b[27] as int % 64) * 256);
    assert((b[28] as int + b[29] as int * 256) % 16384 == b[28] as int + (b[29] as int % 64) * 256);
}

/// An extended WebP file (`RIFF....WEBPVP8X`) reports one more than the 24-bit little-endian
/// canvas width minus one in bytes 24..27, and likewise for the height in bytes 27..30.
pub proof fn lemma_webp_extended_dimensions(b: Seq<u8>)
    requires
        b.len() >= 30,
        b[0] == 0x52u8 && b[1] == 0x49u8 && b[2] == 0x46u8 && b[3] == 0x46u8,
        b[8] == 0x57u8 && b[9] == 0x45u8 && b[10] == 0x42u8 && b[11] == 0x50u8,
        b[12] == 0x56u8 && b[13] == 0x50u8 && b[14] == 0x38u8 && b[15] == 0x58u8,
    ensures
        image_dims(b) == Some(
            (
                1 + b[24] as int + b[25] as int * 256 + b[26] as int * 65536,
                1 + b[27] as int + b[28] as int * 256 + b[29] as int * 65536,
            ),
        ),
{
    assert(b.subrange(0, 8)[0] == b[0]);
    assert(b.subrange(0, 4) =~= tag4(0x52, 0x49, 0x46, 0x46));
    assert(b.subrange(8, 12) =~= tag4(0x57, 0x45, 0x42, 0x50));
    assert(b.subrange(12, 16) =~= tag4(0x56, 0x50, 0x38, 0x58));
}

/// A lossless WebP file (`RIFF....WEBPVP8L` with the `2f` signature byte) reports one more than
/// the 14-bit width field that starts the bit stream after the signature, and one more than the
/// 14-bit height field that follows it.
pub proof fn lemma_webp_lossless_dimensions(b: Seq<u8>)
    requires
        b.len() >= 25,
        b[0] == 0x52u8 && b[1] == 0x49u8 && b[2] == 0x46u8 && b[3] == 0x46u8,
        b[8] == 0x57u8 && b[9] == 0x45u8 && b[10] == 0x42u8 && b[11] == 0x50u8,
        b[12] == 0x56u8 && b[13] == 0x50u8 && b[14] == 0x38u8 && b[15] == 0x4cu8,
        b[20] == 0x2fu8,
    ensures
        ({
            let bits = b[21] as int + b[22] as int * 256 + b[23] as int * 65536 + b[24] as int
                * 16777216;
            image_dims(b) == Some((1 + bits % 16384, 1 + (bits / 16384) % 16384))
        }),
{
    assert(b.subrange(0, 8)[0] == b[0]);
    assert(b.subrange(0, 4) =~= tag4(0x52, 0x49, 0x46, 0x46));
    assert(b.subrange(8, 12) =~= tag4(0x57, 0x45, 0x42, 0x50));
    assert(b.subrange(12, 16) =~= tag4(0x56, 0x50, 0x38, 0x4c));
    assert(b.subrange(12, 16)[3] == b[15]);
    assert(b.subrange(12, 16)[0] == b[12]);
    let (b1, b2, b3, b4) = (b[21], b[22], b[23], b[24]);
    assert((b1 as int + b2 as int * 256 + b3 as int * 65536 + b4 as int * 16777216) % 16384
        == b1 as int + (b2 as int % 64) * 256) by (nonlinear_arith)
        requires
            b1 < 256,
            b2 < 256,
            b3 < 256,
            b4 < 256,
    ;
    assert(((b1 as int + b2 as int * 256 + b3 as int * 65536 + b4 as int * 16777216) / 16384)
        % 16384 == b2 as int / 64 + b3 as int * 4 + (b4 as int % 16) * 1024) by (nonlinear_arith)
        requires
            b1 < 256,
            b2 < 256,
            b3 < 256,
            b4 < 256,
    ;
}

/// A BMP file with the 12-byte core header reports the little-endian 16-bit width in bytes
/// 18..20 and height in bytes 20..22.
pub proof fn lemma_bmp_core_dimensions(b: Seq<u8>)
    requires
        b.len() >= 22,
        b[0] == 0x42u8 && b[1] == 0x4du8,
        b[14] == 12u8 && b[15] == 0u8 && b[16] == 0u8 && b[17] == 0u8,
    ensures
        image_dims(b) == reported(b[18] as int + b[19] as int * 256, b[20] as int + b[21] as int * 256),
{
    assert(b.subrange(0, 8)[0] == b[0]);
    assert(b.subrange(0, 4)[0] == b[0]);
}

/// A BMP file with a 40-byte info header reports the magnitudes of the signed little-endian
/// 32-bit width in bytes 18..22 and height in bytes 22..26 (a negative height marks a top-down
/// bitmap).
pub proof fn lemma_bmp_info_dimensions(b: Seq<u8>)
    requires
        b.len() >= 26,
        b[0] == 0x42u8 && b[1] == 0x4du8,
        b[14] == 40u8 && b[15] == 0u8 && b[16] == 0u8 && b[17] == 0u8,
    ensures
        ({
            let w = b[18] as int + b[19] as int * 256 + b[20] as int * 65536 + b[21] as int
                * 16777216;
            let h = b[22] as int + b[23] as int * 256 + b[24] as int * 65536 + b[25] as int
                * 16777216;
            let width = if b[21] >= 128 { 4294967296 - w } else { w };
            let height = if b[25] >= 128 { 4294967296 - h } else { h };
            image_dims(b) == reported(width, height)
        }),
{
    assert(b.subrange(0, 8)[0] == b[0]);
    assert(b.subrange(0, 4)[0] == b[0]);
}

proof fn lemma_avif_scan_skips(b: Seq<u8>, k: int, o: int)
    requires
        0 <= k <= o,
        forall|j: int| k <= j < o ==> !tag_at(b, j, tag4(0x69, 0x73, 0x70, 0x65)),
    ensures
        avif_scan(b, k) == avif_scan(b, o),
    decreases o - k,
{
    if k < o {
        lemma_avif_scan_skips(b, k + 1, o);
    }
}

/// An AVIF file (a box that starts with a zero size byte, an `ftyp` box with the `avif` brand)
/// reports the big-endian width and height of its first `ispe` property box: the box type at
/// `o`, then four bytes of version and flags, then the width in bytes `o+8..o+12` and the height
/// in bytes `o+12..o+16`.
pub proof fn lemma_avif_dimensions(b: Seq<u8>, o: int)
    requires
        b[0] == 0u8,
        b.len() >= 12,
        b[4] == 0x66u8 && b[5] == 0x74u8 && b[6] == 0x79u8 && b[7] == 0x70u8,
        b[8] == 0x61u8 && b[9] == 0x76u8 && b[10] == 0x69u8 && b[11] == 0x66u8,
        4 <= o,
        o + 16 <= b.len(),
        b[o] == 0x69u8 && b[o + 1] == 0x73u8 && b[o + 2] == 0x70u8 && b[o + 3] == 0x65u8,
        ((b[o - 4] as int * 256 + b[o - 3] as int) * 256 + b[o - 2] as int) * 256 + b[o - 1] as int
            >= 20,
        forall|j: int| 0 <= j < o ==> !tag_at(b, j, tag4(0x69, 0x73, 0x70, 0x65)),
    ensures
        ({
            let width = ((b[o + 8] as int * 256 + b[o + 9] as int) * 256 + b[o + 10] as int) * 256
                + b[o + 11] as int;
            let height = ((b[o + 12] as int * 256 + b[o + 13] as int) * 256 + b[o + 14] as int)
                * 256 + b[o + 15] as int;
            width > 0 && height > 0 ==> image_dims(b) == Some((width, height))
        }),
{
    assert(b.subrange(0, 8)[0] == b[0]);
    assert(b.subrange(0, 4)[0] == b[0]);
    assert(b.subrange(4, 8) =~= tag4(0x66, 0x74, 0x79, 0x70));
    assert(tag_at(b, 4, tag4(0x66, 0x74, 0x79, 0x70)));
    assert(b.subrange(8, 12) =~= tag4(0x61, 0x76, 0x69, 0x66));
    assert(tag_at(b, 8, tag4(0x61, 0x76, 0x69, 0x66)));
    assert(b.subrange(o, o + 4) =~= tag4(0x69, 0x73, 0x70, 0x65));
    lemma_avif_scan_skips(b, 0, o);
}

} // verus!
