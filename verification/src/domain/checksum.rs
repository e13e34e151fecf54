//! SHA-256 content checksums in lowercase hexadecimal form.

use crate::error::{CoreError, FormatField};
use crate::text::{chars_of, str_eq};
use vstd::prelude::*;
use vstd::std_specs::cmp::PartialEqSpecImpl;
use vstd::string::*;

verus! {

/// The SHA-256 digest of a byte sequence.
pub uninterp spec fn sha256_digest(data: Seq<u8>) -> Seq<u8>;

/// The standard SHA-256 test vectors (FIPS 180-2, appendix B): the digests of the empty message,
/// of `abc`, of the 56-byte two-block message `abcdbcdecdef...nopq`, and of one million bytes
/// `a`. A function that ignored any part of its input could not give all of them.
pub open spec fn sha256_test_vector(data: Seq<u8>) -> Option<Seq<u8>> {
    if data == Seq::<u8>::empty() {
        Some(seq![0xe3u8, 0xb0, 0xc4, 0x42, 0x98, 0xfc, 0x1c, 0x14, 0x9a, 0xfb, 0xf4, 0xc8, 0x99, 0x6f, 0xb9, 0x24, 0x27, 0xae, 0x41, 0xe4, 0x64, 0x9b, 0x93, 0x4c, 0xa4, 0x95, 0x99, 0x1b, 0x78, 0x52, 0xb8, 0x55])
    } else if data == seq![0x61u8, 0x62, 0x63] {
        Some(seq![0xbau8, 0x78, 0x16, 0xbf, 0x8f, 0x01, 0xcf, 0xea, 0x41, 0x41, 0x40, 0xde, 0x5d, 0xae, 0x22, 0x23, 0xb0, 0x03, 0x61, 0xa3, 0x96, 0x17, 0x7a, 0x9c, 0xb4, 0x10, 0xff, 0x61, 0xf2, 0x00, 0x15, 0xad])
    } else if data == sha256_two_block_message() {
        Some(seq![0x24u8, 0x8d, 0x6a, 0x61, 0xd2, 0x06, 0x38, 0xb8, 0xe5, 0xc0, 0x26, 0x93, 0x0c, 0x3e, 0x60, 0x39, 0xa3, 0x3c, 0xe4, 0x59, 0x64, 0xff, 0x21, 0x67, 0xf6, 0xec, 0xed, 0xd4, 0x19, 0xdb, 0x06, 0xc1])
    } else if data == Seq::new(1000000, |i: int| 0x61u8) {
        Some(seq![0xcdu8, 0xc7, 0x6e, 0x5c, 0x99, 0x14, 0xfb, 0x92, 0x81, 0xa1, 0xc7, 0xe2, 0x84, 0xd7, 0x3e, 0x67, 0xf1, 0x80, 0x9a, 0x48, 0xa4, 0x97, 0x20, 0x0e, 0x04, 0x6d, 0x39, 0xcc, 0xc7, 0x11, 0x2c, 0xd0])
    } else {
        None
    }
}

/// The 56-byte message `abcdbcdecdefdefgefghfghighijhijkijkljklmklmnlmnomnopnopq`.
pub open spec fn sha256_two_block_message() -> Seq<u8> {
    seq![0x61u8, 0x62, 0x63, 0x64, 0x62, 0x63, 0x64, 0x65, 0x63, 0x64, 0x65, 0x66, 0x64, 0x65, 0x66, 0x67, 0x65, 0x66, 0x67, 0x68, 0x66, 0x67, 0x68, 0x69, 0x67, 0x68, 0x69, 0x6a, 0x68, 0x69, 0x6a, 0x6b, 0x69, 0x6a, 0x6b, 0x6c, 0x6a, 0x6b, 0x6c, 0x6d, 0x6b, 0x6c, 0x6d, 0x6e, 0x6c, 0x6d, 0x6e, 0x6f, 0x6d, 0x6e, 0x6f, 0x70, 0x6e, 0x6f, 0x70, 0x71]
}

/// `sha2::Sha256::digest`: the 32-byte SHA-256 digest of all of `data`, named by
/// `sha256_digest`; on the standard test messages it is the standard digest.
#[verifier::external_body]
fn sha256(data: &[u8]) -> (d: Vec<u8>)
    ensures
        d@ == sha256_digest(data@),
        d@.len() == 32,
        sha256_test_vector(data@) matches Some(v) ==> d@ == v,
{
    <sha2::Sha256 as sha2::Digest>::digest(data).to_vec()
}

/// The lowercase hexadecimal digit for a value below 16.
pub open spec fn hex_char(n: u8) -> char {
    if n < 10 {
        (('0' as u8) + n) as char
    } else {
        (('a' as u8) + (n - 10)) as char
    }
}

/// Lowercase hexadecimal text of a byte sequence, two digits per byte.
pub open spec fn hex_text(bytes: Seq<u8>) -> Seq<char>
    decreases bytes.len(),
{
    if bytes.len() == 0 {
        Seq::empty()
    } else {
        hex_text(bytes.drop_last()) + seq![hex_char(bytes.last() / 16), hex_char(bytes.last() % 16)]
    }
}

/// A lowercase hexadecimal digit.
pub open spec fn is_lower_hex(c: char) -> bool {
    ('0' <= c && c <= '9') || ('a' <= c && c <= 'f')
}

/// The canonical SHA-256 checksum text: 64 lowercase hexadecimal digits.
pub open spec fn is_sha256_hex(s: Seq<char>) -> bool {
    s.len() == 64 && forall|i: int| 0 <= i < 64 ==> is_lower_hex(#[trigger] s[i])
}

proof fn lemma_hex_text_shape(bytes: Seq<u8>)
    ensures
        hex_text(bytes).len() == 2 * bytes.len(),
        forall|i: int| 0 <= i < hex_text(bytes).len() ==> is_lower_hex(#[trigger] hex_text(bytes)[i]),
    decreases bytes.len(),
{
    if bytes.len() > 0 {
        lemma_hex_text_shape(bytes.drop_last());
        let b = bytes.last();
        assert(b / 16 < 16);
        assert(b % 16 < 16);
        let prev = hex_text(bytes.drop_last());
        assert forall|i: int| 0 <= i < hex_text(bytes).len() implies is_lower_hex(
            #[trigger] hex_text(bytes)[i],
        ) by {
            if i < prev.len() {
                assert(hex_text(bytes)[i] == prev[i]);
            }
        }
    }
}

/// Lowercase hexadecimal text of `bytes`.
pub fn hex_digest(bytes: &[u8]) -> (s: String)
    ensures
        s@ == hex_text(bytes@),
{
    let digits = "0123456789abcdef";
    proof {
        reveal_strlit("0123456789abcdef");
    }
    let mut out = String::new();
    let mut i: usize = 0;
    while i < bytes.len()
        invariant
            i <= bytes@.len(),
            out@ == hex_text(bytes@.subrange(0, i as int)),
            digits@ =~= seq!['0', '1', '2', '3', '4', '5', '6', '7', '8', '9', 'a', 'b', 'c', 'd', 'e', 'f'],
        decreases bytes@.len() - i,
    {
        let b = bytes[i];
        let hi = (b / 16) as usize;
        let lo = (b % 16) as usize;
        let high = digits.substring_char(hi, hi + 1);
        let low = digits.substring_char(lo, lo + 1);
        proof {
            assert(high@ =~= seq![hex_char(b / 16)]) by {
                assert(high@[0] == digits@[hi as int]);
            }
            assert(low@ =~= seq![hex_char(b % 16)]) by {
                assert(low@[0] == digits@[lo as int]);
            }
        }
        out.append(high);
        out.append(low);
        proof {
            let prefix = bytes@.subrange(0, i as int + 1);
            assert(prefix.drop_last() =~= bytes@.subrange(0, i as int));
            assert(prefix.last() == b);
        }
        i += 1;
    }
    assert(bytes@.subrange(0, bytes@.len() as int) =~= bytes@);
    out
}

/// The checksum algorithm.
#[derive(Debug, Clone, Copy, PartialEq, Eq, Structural)]
pub enum ChecksumKind {
    Sha256,
}

/// A validated content checksum.
#[derive(Debug)]
pub struct Checksum {
    value: String,
}

impl View for Checksum {
    type V = Seq<char>;

    closed spec fn view(&self) -> Seq<char> {
        self.value@
    }
}

impl Checksum {
    /// Every checksum holds 64 lowercase hexadecimal digits.
    #[verifier::type_invariant]
    pub open spec fn wf(self) -> bool {
        is_sha256_hex(self@)
    }

    /// Validate a SHA-256 checksum in lowercase hexadecimal form.
    pub fn sha256(value: &str) -> (r: Result<Checksum, CoreError>)
        ensures
            match r {
                Ok(c) => is_sha256_hex(value@) && c@ == value@,
                Err(e) => !is_sha256_hex(value@) && e == (CoreError::InvalidFormat {
                    field: FormatField::Checksum,
                }),
            },
    {
        let chars = chars_of(value);
        if chars.len() != 64 {
            return Err(CoreError::InvalidFormat { field: FormatField::Checksum });
        }
        let mut i: usize = 0;
        while i < 64
            invariant
                chars@ == value@,
                chars@.len() == 64,
                i <= 64,
                forall|j: int| 0 <= j < i ==> is_lower_hex(#[trigger] chars@[j]),
            decreases 64 - i,
        {
            let c = chars[i];
            if !(('0' <= c && c <= '9') || ('a' <= c && c <= 'f')) {
                return Err(CoreError::InvalidFormat { field: FormatField::Checksum });
            }
            i += 1;
        }
        Ok(Checksum { value: value.to_owned() })
    }

    /// The checksum algorithm.
    pub fn kind(&self) -> (k: ChecksumKind)
        ensures
            k == ChecksumKind::Sha256,
    {
        ChecksumKind::Sha256
    }

    /// The hexadecimal checksum text.
    pub fn value(&self) -> (r: &str)
        ensures
            r@ == self@,
    {
        self.value.as_str()
    }

    /// Exact checksum equality.
    pub fn same_as(&self, other: &Checksum) -> (r: bool)
        ensures
            r == (self@ == other@),
    {
        str_eq(self.value.as_str(), other.value.as_str())
    }
}

impl Clone for Checksum {
    fn clone(&self) -> (r: Self)
        ensures
            r@ == self@,
    {
        proof {
            use_type_invariant(self);
        }
        Checksum { value: self.value.clone() }
    }
}

impl PartialEq for Checksum {
    fn eq(&self, other: &Self) -> (r: bool) {
        self.same_as(other)
    }
}

impl PartialEqSpecImpl for Checksum {
    open spec fn obeys_eq_spec() -> bool {
        true
    }

    open spec fn eq_spec(&self, other: &Checksum) -> bool {
        self@ == other@
    }
}

impl Eq for Checksum {}

/// The checksum of a 32-byte digest.
pub fn checksum_from_digest(digest: &[u8]) -> (c: Checksum)
    requires
        digest@.len() == 32,
    ensures
        c@ == hex_text(digest@),
{
    let text = hex_digest(digest);
    proof {
        lemma_hex_text_shape(digest@);
    }
    Checksum { value: text }
}

/// Lowercase hexadecimal text of the SHA-256 digest of `data`.
pub fn hex_sha256(data: &[u8]) -> (s: String)
    ensures
        s@ == hex_text(sha256_digest(data@)),
        sha256_test_vector(data@) matches Some(v) ==> s@ == hex_text(v),
{
    let digest = sha256(data);
    hex_digest(digest.as_slice())
}

/// The SHA-256 checksum of `data`.
pub fn calculate_checksum(data: &[u8]) -> (r: Result<Checksum, CoreError>)
    ensures
        r matches Ok(c) && c@ == hex_text(sha256_digest(data@)),
        sha256_test_vector(data@) matches Some(v) ==> (r matches Ok(c) && c@ == hex_text(v)),
{
    let digest = sha256(data);
    Ok(checksum_from_digest(digest.as_slice()))
}

/// The checksum of empty content.
pub fn placeholder_checksum() -> (r: Result<Checksum, CoreError>)
    ensures
        r matches Ok(c) && c@ == hex_text(sha256_digest(Seq::<u8>::empty())),
{
    let empty: Vec<u8> = Vec::new();
    proof {
        assert(empty@ =~= Seq::<u8>::empty());
    }
    calculate_checksum(empty.as_slice())
}

/// The running state of a SHA-256 checksum over bytes received piece by piece.
#[verifier::external_body]
pub struct ChecksumState {
    hasher: sha2::Sha256,
}

/// The bytes a checksum state has absorbed so far.
pub uninterp spec fn absorbed_bytes(state: ChecksumState) -> Seq<u8>;

/// `sha2::Sha256::new` (through `sha2::Digest`): a hasher that has absorbed nothing.
#[verifier::external_body]
fn checksum_state_new() -> (r: ChecksumState)
    ensures
        absorbed_bytes(r) == Seq::<u8>::empty(),
{
    ChecksumState { hasher: <sha2::Sha256 as sha2::Digest>::new() }
}

/// `sha2::Digest::update`: the hasher absorbs `bytes` after what it absorbed before.
#[verifier::external_body]
fn checksum_state_update(state: &mut ChecksumState, bytes: &[u8])
    ensures
        absorbed_bytes(*final(state)) == absorbed_bytes(*old(state)) + bytes@,
{
    sha2::Digest::update(&mut state.hasher, bytes)
}

/// `sha2::Digest::finalize` on a copy of the hasher: the 32-byte SHA-256 digest of everything
/// absorbed, which is what `sha2::Digest::digest` gives for those bytes at once.
#[verifier::external_body]
fn checksum_state_digest(state: &ChecksumState) -> (d: Vec<u8>)
    ensures
        d@ == sha256_digest(absorbed_bytes(*state)),
        d@.len() == 32,
        sha256_test_vector(absorbed_bytes(*state)) matches Some(v) ==> d@ == v,
{
    sha2::Digest::finalize(state.hasher.clone()).to_vec()
}

impl ChecksumState {
    /// A state for checksums of the given kind that has seen no bytes.
    pub fn new(kind: ChecksumKind) -> (r: ChecksumState)
        ensures
            absorbed_bytes(r) == Seq::<u8>::empty(),
    {
        match kind {
            ChecksumKind::Sha256 => checksum_state_new(),
        }
    }

    /// Absorb the next bytes.
    pub fn update(&mut self, bytes: &[u8])
        ensures
            absorbed_bytes(*final(self)) == absorbed_bytes(*old(self)) + bytes@,
    {
        checksum_state_update(self, bytes)
    }

    /// The checksum of everything absorbed so far.
    pub fn finish(&self) -> (r: Result<Checksum, CoreError>)
        ensures
            r matches Ok(c) && c@ == hex_text(sha256_digest(absorbed_bytes(*self))),
    {
        let digest = checksum_state_digest(self);
        Ok(checksum_from_digest(digest.as_slice()))
    }
}

} // verus!
