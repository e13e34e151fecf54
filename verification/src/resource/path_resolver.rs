//! Derivation of physical storage keys: visible Resource keys and the internal keys of the
//! reserved `.asset-hub` namespace used for staging, backups and deletions.

use crate::domain::ids::{
    is_uuid_char, uuid_text, ResourceContentReplacementId, ResourceId, UploadId,
};
use crate::domain::path::{
    forbidden_char, pos_ok, slash_join, valid_directory_path, valid_path, DirectoryPath, StorageKey,
};
use crate::error::{CoreError, InvalidOperation};
use crate::text::{chars_of, is_prefix, join2, join3};
use vstd::prelude::*;

verus! {

/// `.asset-hub`: the reserved internal namespace of Blob storage.
pub open spec fn reserved_prefix() -> Seq<char> {
    seq!['.', 'a', 's', 's', 'e', 't', '-', 'h', 'u', 'b']
}

/// The key is the reserved namespace itself or lies inside it.
pub open spec fn in_reserved_namespace(k: Seq<char>) -> bool {
    ||| k == reserved_prefix()
    ||| (k.len() > reserved_prefix().len() && k.subrange(0, reserved_prefix().len() as int)
        == reserved_prefix() && k[reserved_prefix().len() as int] == '/')
}

/// The visible key of Resource `name` in Directory `directory`.
pub open spec fn resource_key_text(directory: Seq<char>, name: Seq<char>) -> Seq<char> {
    if directory.len() == 0 {
        name
    } else {
        slash_join(directory, name)
    }
}

/// `.asset-hub/uploads/replacement-`
pub open spec fn replacement_staging_base() -> Seq<char> {
    reserved_prefix() + seq!['/', 'u', 'p', 'l', 'o', 'a', 'd', 's', '/'] + seq![
        'r',
        'e',
        'p',
        'l',
        'a',
        'c',
        'e',
        'm',
        'e',
        'n',
        't',
        '-',
    ]
}

/// `.asset-hub/content-backups`
pub open spec fn backup_dir() -> Seq<char> {
    reserved_prefix() + seq!['/', 'c', 'o', 'n', 't', 'e', 'n', 't', '-'] + seq![
        'b',
        'a',
        'c',
        'k',
        'u',
        'p',
        's',
    ]
}

/// `.asset-hub/uploads`
pub open spec fn uploads_dir() -> Seq<char> {
    reserved_prefix() + seq!['/', 'u', 'p', 'l', 'o', 'a', 'd', 's']
}

/// `.asset-hub/deletions`
pub open spec fn deletions_dir() -> Seq<char> {
    reserved_prefix() + seq!['/', 'd', 'e', 'l', 'e', 't', 'i', 'o', 'n', 's']
}

/// `.chunk`
pub open spec fn chunk_suffix() -> Seq<char> {
    seq!['.', 'c', 'h', 'u', 'n', 'k']
}

/// Characters that may follow a path segment without starting a new one.
pub open spec fn tail_char(c: char) -> bool {
    c != '/' && !forbidden_char(c)
}

/// Appending separator-free characters to a valid path keeps it valid.
pub proof fn lemma_append_tail(a: Seq<char>, t: Seq<char>)
    requires
        valid_path(a),
        t.len() > 0,
        forall|j: int| 0 <= j < t.len() ==> tail_char(#[trigger] t[j]),
    ensures
        valid_path(a + t),
{
    let q = a + t;
    let la = a.len() as int;
    assert forall|i: int| 0 <= i < q.len() implies #[trigger] pos_ok(q, i) by {
        if i < la {
            assert(pos_ok(a, i));
            assert(q[i] == a[i]);
            if i > 0 {
                assert(q[i - 1] == a[i - 1]);
            }
            if i + 1 < la {
                assert(q[i + 1] == a[i + 1]);
            } else {
                assert(q[i + 1] == t[0]);
            }
            if i + 2 < la {
                assert(q[i + 2] == a[i + 2]);
            } else if i + 2 < q.len() {
                assert(q[i + 2] == t[i + 2 - la]);
            }
            if i == la - 1 {
                assert(pos_ok(a, la - 1));
            }
        } else {
            let j = i - la;
            assert(q[i] == t[j]);
            assert(tail_char(t[j]));
            if j > 0 {
                assert(q[i - 1] == t[j - 1]);
                assert(tail_char(t[j - 1]));
            } else {
                assert(q[i - 1] == a[la - 1]);
            }
        }
    }
    assert(q[0] == a[0]);
    assert(q[q.len() - 1] == t[t.len() - 1]);
    assert(tail_char(t[t.len() - 1]));
}

/// UUID text is a valid single segment made of separator-free characters.
pub proof fn lemma_uuid_text_plain(id: u128, s: Seq<char>)
    requires
        s == uuid_text(id),
        s.len() == 36,
        forall|i: int| 0 <= i < 36 ==> is_uuid_char(#[trigger] s[i]),
    ensures
        valid_path(s),
        forall|j: int| 0 <= j < s.len() ==> tail_char(#[trigger] s[j]),
{
    assert forall|j: int| 0 <= j < s.len() implies tail_char(#[trigger] s[j]) by {
        assert(is_uuid_char(s[j]));
    }
    assert forall|i: int| 0 <= i < s.len() implies #[trigger] pos_ok(s, i) by {
        assert(is_uuid_char(s[i]));
        if i + 1 < s.len() {
            assert(is_uuid_char(s[i + 1]));
        }
    }
    assert(is_uuid_char(s[0]));
    assert(is_uuid_char(s[35]));
}

proof fn lemma_reserved_prefix_valid()
    ensures
        valid_path(reserved_prefix()),
{
    let p = reserved_prefix();
    assert forall|i: int| 0 <= i < p.len() implies #[trigger] pos_ok(p, i) by {
    }
}

proof fn lemma_internal_dirs_valid()
    ensures
        valid_path(uploads_dir()),
        valid_path(deletions_dir()),
        valid_path(backup_dir()),
        valid_path(replacement_staging_base()),
{
    lemma_reserved_prefix_valid();
    let u = seq!['u', 'p', 'l', 'o', 'a', 'd', 's'];
    assert forall|j: int| 0 <= j < u.len() implies tail_char(#[trigger] u[j]) by {}
    assert(valid_path(u)) by {
        assert forall|i: int| 0 <= i < u.len() implies #[trigger] pos_ok(u, i) by {}
    }
    crate::domain::path::lemma_join_valid(reserved_prefix(), u);
    assert(uploads_dir() =~= slash_join(reserved_prefix(), u));
    let d = seq!['d', 'e', 'l', 'e', 't', 'i', 'o', 'n', 's'];
    assert(valid_path(d)) by {
        assert forall|i: int| 0 <= i < d.len() implies #[trigger] pos_ok(d, i) by {}
    }
    crate::domain::path::lemma_join_valid(reserved_prefix(), d);
    assert(deletions_dir() =~= slash_join(reserved_prefix(), d));
    let b = seq!['c', 'o', 'n', 't', 'e', 'n', 't', '-', 'b', 'a', 'c', 'k', 'u', 'p', 's'];
    assert(valid_path(b)) by {
        assert forall|i: int| 0 <= i < b.len() implies #[trigger] pos_ok(b, i) by {}
    }
    crate::domain::path::lemma_join_valid(reserved_prefix(), b);
    assert(backup_dir() =~= slash_join(reserved_prefix(), b));
    let r = seq!['r', 'e', 'p', 'l', 'a', 'c', 'e', 'm', 'e', 'n', 't', '-'];
    assert(valid_path(r)) by {
        assert forall|i: int| 0 <= i < r.len() implies #[trigger] pos_ok(r, i) by {}
    }
    crate::domain::path::lemma_join_valid(uploads_dir(), r);
    assert(replacement_staging_base() =~= slash_join(uploads_dir(), r));
}

proof fn lemma_internal_dirs_reserved()
    ensures
        forall|d: Seq<char>|
            d == uploads_dir() || d == deletions_dir() || d == backup_dir() || d
                == replacement_staging_base() ==> #[trigger] d.len() > reserved_prefix().len()
                && d.subrange(0, reserved_prefix().len() as int) == reserved_prefix()
                && d[reserved_prefix().len() as int] == '/',
{
    assert(uploads_dir().subrange(0, 10) =~= reserved_prefix());
    assert(deletions_dir().subrange(0, 10) =~= reserved_prefix());
    assert(backup_dir().subrange(0, 10) =~= reserved_prefix());
    assert(replacement_staging_base().subrange(0, 10) =~= reserved_prefix());
}

/// Keys under a valid internal directory lie in the reserved namespace.
proof fn lemma_under_reserved(dir: Seq<char>, rest: Seq<char>)
    requires
        dir.len() > reserved_prefix().len(),
        dir.subrange(0, reserved_prefix().len() as int) == reserved_prefix(),
        dir[reserved_prefix().len() as int] == '/',
    ensures
        in_reserved_namespace(dir + rest),
{
    let k = dir + rest;
    assert(k.subrange(0, reserved_prefix().len() as int) =~= dir.subrange(
        0,
        reserved_prefix().len() as int,
    ));
    assert(k[reserved_prefix().len() as int] == dir[reserved_prefix().len() as int]);
}

/// Logical Resource path (Directory path and name) to its visible Blob key.
pub fn resource_key(directory: &DirectoryPath, name: &str) -> (r: Result<StorageKey, CoreError>)
    ensures
        match r {
            Ok(k) => valid_path(resource_key_text(directory@, name@)) && k@ == resource_key_text(
                directory@,
                name@,
            ),
            Err(e) => !valid_path(resource_key_text(directory@, name@)) && e
                == CoreError::InvalidStorageKey,
        },
{
    let value = if directory.is_root() {
        name.to_owned()
    } else {
        let joined = join3(directory.path(), "/", name);
        proof {
            reveal_strlit("/");
            assert(joined@ =~= slash_join(directory@, name@));
        }
        joined
    };
    StorageKey::from_string(value)
}

/// Internal staging key for a content replacement.
pub fn replacement_staging_key(id: ResourceContentReplacementId) -> (r: Result<StorageKey, CoreError>)
    ensures
        r matches Ok(k) && k@ == replacement_staging_base() + uuid_text(id.0) && in_reserved_namespace(k@),
{
    let uuid = id.to_text();
    let base = ".asset-hub/uploads/replacement-";
    let value = join2(base, uuid.as_str());
    proof {
        reveal_strlit(".asset-hub/uploads/replacement-");
        assert(base@ =~= replacement_staging_base());
        lemma_internal_dirs_valid();
        lemma_internal_dirs_reserved();
        lemma_uuid_text_plain(id.0, uuid@);
        lemma_append_tail(replacement_staging_base(), uuid@);
        lemma_under_reserved(replacement_staging_base(), uuid@);
    }
    StorageKey::from_string(value)
}

/// `.asset-hub/uploads/generated-`
pub open spec fn generated_staging_base() -> Seq<char> {
    uploads_dir() + seq!['/', 'g', 'e', 'n', 'e', 'r', 'a', 't', 'e', 'd', '-']
}

/// Internal staging key for content generated by the service itself, named by a fresh UUID.
pub fn generated_staging_key(id: u128) -> (r: Result<StorageKey, CoreError>)
    ensures
        r matches Ok(k) && k@ == generated_staging_base() + uuid_text(id) && in_reserved_namespace(k@),
{
    let uuid = crate::domain::ids::uuid_hyphenated(id);
    let base = ".asset-hub/uploads/generated-";
    let value = join2(base, uuid.as_str());
    proof {
        reveal_strlit(".asset-hub/uploads/generated-");
        assert(base@ =~= generated_staging_base());
        lemma_internal_dirs_valid();
        lemma_internal_dirs_reserved();
        let g = seq!['g', 'e', 'n', 'e', 'r', 'a', 't', 'e', 'd', '-'];
        assert(valid_path(g)) by {
            assert forall|i: int| 0 <= i < g.len() implies #[trigger] pos_ok(g, i) by {}
        }
        crate::domain::path::lemma_join_valid(uploads_dir(), g);
        assert(generated_staging_base() =~= slash_join(uploads_dir(), g));
        lemma_uuid_text_plain(id, uuid@);
        lemma_append_tail(generated_staging_base(), uuid@);
        assert(generated_staging_base() + uuid@ =~= uploads_dir() + (seq!['/'] + g + uuid@));
        lemma_under_reserved(uploads_dir(), seq!['/'] + g + uuid@);
    }
    StorageKey::from_string(value)
}

/// Internal backup key for a content replacement.
pub fn replacement_backup_key(id: ResourceContentReplacementId) -> (r: Result<StorageKey, CoreError>)
    ensures
        r matches Ok(k) && k@ == slash_join(backup_dir(), uuid_text(id.0)) && in_reserved_namespace(
            k@,
        ),
{
    let uuid = id.to_text();
    let dir = ".asset-hub/content-backups";
    let value = join3(dir, "/", uuid.as_str());
    proof {
        reveal_strlit(".asset-hub/content-backups");
        reveal_strlit("/");
        assert(dir@ =~= backup_dir());
        assert(value@ =~= slash_join(backup_dir(), uuid@));
        lemma_internal_dirs_valid();
        lemma_internal_dirs_reserved();
        lemma_uuid_text_plain(id.0, uuid@);
        crate::domain::path::lemma_join_valid(backup_dir(), uuid@);
        assert(slash_join(backup_dir(), uuid@) =~= backup_dir() + (seq!['/'] + uuid@));
        lemma_under_reserved(backup_dir(), seq!['/'] + uuid@);
    }
    StorageKey::from_string(value)
}

/// Internal staging key for a streamed upload session.
pub fn upload_staging_key(id: UploadId) -> (r: Result<StorageKey, CoreError>)
    ensures
        r matches Ok(k) && k@ == slash_join(uploads_dir(), uuid_text(id.0)) && in_reserved_namespace(
            k@,
        ),
{
    let uuid = id.to_text();
    let dir = ".asset-hub/uploads";
    let value = join3(dir, "/", uuid.as_str());
    proof {
        reveal_strlit(".asset-hub/uploads");
        reveal_strlit("/");
        assert(dir@ =~= uploads_dir());
        assert(value@ =~= slash_join(uploads_dir(), uuid@));
        lemma_internal_dirs_valid();
        lemma_internal_dirs_reserved();
        lemma_uuid_text_plain(id.0, uuid@);
        crate::domain::path::lemma_join_valid(uploads_dir(), uuid@);
        assert(slash_join(uploads_dir(), uuid@) =~= uploads_dir() + (seq!['/'] + uuid@));
        lemma_under_reserved(uploads_dir(), seq!['/'] + uuid@);
    }
    StorageKey::from_string(value)
}

/// Internal chunk key for a streamed upload session.
pub fn upload_chunk_key(id: UploadId) -> (r: Result<StorageKey, CoreError>)
    ensures
        r matches Ok(k) && k@ == slash_join(uploads_dir(), uuid_text(id.0)) + chunk_suffix()
            && in_reserved_namespace(k@),
{
    let uuid = id.to_text();
    let dir = ".asset-hub/uploads";
    let suffix = ".chunk";
    let staged = join3(dir, "/", uuid.as_str());
    let value = join2(staged.as_str(), suffix);
    proof {
        reveal_strlit(".asset-hub/uploads");
        reveal_strlit("/");
        reveal_strlit(".chunk");
        assert(dir@ =~= uploads_dir());
        assert(suffix@ =~= chunk_suffix());
        assert(staged@ =~= slash_join(uploads_dir(), uuid@));
        lemma_internal_dirs_valid();
        lemma_internal_dirs_reserved();
        lemma_uuid_text_plain(id.0, uuid@);
        crate::domain::path::lemma_join_valid(uploads_dir(), uuid@);
        assert forall|j: int| 0 <= j < chunk_suffix().len() implies tail_char(
            #[trigger] chunk_suffix()[j],
        ) by {}
        lemma_append_tail(staged@, chunk_suffix());
        assert(staged@ + chunk_suffix() =~= uploads_dir() + (seq!['/'] + uuid@ + chunk_suffix()));
        lemma_under_reserved(uploads_dir(), seq!['/'] + uuid@ + chunk_suffix());
    }
    StorageKey::from_string(value)
}

/// Internal key used to stage a Resource Blob before its aggregate is deleted.
pub fn deletion_key(id: ResourceId) -> (r: Result<StorageKey, CoreError>)
    ensures
        r matches Ok(k) && k@ == slash_join(deletions_dir(), uuid_text(id.0)) && in_reserved_namespace(
            k@,
        ),
{
    let uuid = id.to_text();
    let dir = ".asset-hub/deletions";
    let value = join3(dir, "/", uuid.as_str());
    proof {
        reveal_strlit(".asset-hub/deletions");
        reveal_strlit("/");
        assert(dir@ =~= deletions_dir());
        assert(value@ =~= slash_join(deletions_dir(), uuid@));
        lemma_internal_dirs_valid();
        lemma_internal_dirs_reserved();
        lemma_uuid_text_plain(id.0, uuid@);
        crate::domain::path::lemma_join_valid(deletions_dir(), uuid@);
        assert(slash_join(deletions_dir(), uuid@) =~= deletions_dir() + (seq!['/'] + uuid@));
        lemma_under_reserved(deletions_dir(), seq!['/'] + uuid@);
    }
    StorageKey::from_string(value)
}

/// Whether a key lies in the reserved namespace.
pub fn is_reserved_storage_key(key: &StorageKey) -> (r: bool)
    ensures
        r == in_reserved_namespace(key@),
{
    let prefix = ".asset-hub";
    proof {
        reveal_strlit(".asset-hub");
        assert(prefix@ =~= reserved_prefix());
    }
    let p = chars_of(prefix);
    let k = chars_of(key.as_str());
    if k.len() == p.len() {
        proof {
            assert(k@.subrange(0, k@.len() as int) =~= k@);
        }
        return is_prefix(&p, &k);
    }
    k.len() > p.len() && is_prefix(&p, &k) && k[p.len()] == '/'
}

/// Reject user-visible keys inside the reserved namespace.
pub fn reject_reserved_storage_key(key: &StorageKey) -> (r: Result<(), CoreError>)
    ensures
        match r {
            Ok(_) => !in_reserved_namespace(key@),
            Err(e) => in_reserved_namespace(key@) && e == CoreError::InvalidOperation(
                InvalidOperation::ReservedStorageKey,
            ),
        },
{
    if is_reserved_storage_key(key) {
        Err(CoreError::InvalidOperation(InvalidOperation::ReservedStorageKey))
    } else {
        Ok(())
    }
}

/// Split a key into its Directory path (text before the last `/`, or the root) and name.
pub open spec fn key_split(k: Seq<char>) -> (Seq<char>, Seq<char>) {
    if exists|i: int| 0 <= i < k.len() && k[i] == '/' {
        let i = choose|i: int|
            0 <= i < k.len() && k[i] == '/' && forall|j: int| i < j < k.len() ==> k[j] != '/';
        (k.subrange(0, i), k.subrange(i + 1, k.len() as int))
    } else {
        (Seq::empty(), k)
    }
}

/// The Directory path and Resource name of a visible storage key.
pub fn resource_path_from_key(key: &StorageKey) -> (r: Result<(DirectoryPath, String), CoreError>)
    ensures
        r matches Ok((d, n)) && valid_directory_path(d@) && (d@, n@) == key_split(key@)
            && resource_key_text(d@, n@) == key@,
{
    proof {
        use_type_invariant(key);
    }
    let chars = chars_of(key.as_str());
    match crate::text::rfind(&chars, '/') {
        Some(i) => {
            let directory = crate::text::substring(key.as_str(), 0, i);
            let n = chars.len();
            assert(i < n);
            let name = crate::text::substring(key.as_str(), i + 1, n);
            proof {
                assert(i > 0) by {
                    assert(key@[0] != '/');
                }
                crate::domain::path::lemma_prefix_valid(key@, i as int);
                let w = i as int;
                assert(0 <= w < key@.len() && key@[w] == '/' && forall|j: int|
                    w < j < key@.len() ==> key@[j] != '/');
                let c = choose|c: int|
                    0 <= c < key@.len() && key@[c] == '/' && forall|j: int|
                        c < j < key@.len() ==> key@[j] != '/';
                assert(c == w);
                assert(directory@.len() > 0);
                assert(resource_key_text(directory@, name@) =~= key@);
            }
            match DirectoryPath::from_path(directory.as_str()) {
                Ok(path) => Ok((path, name)),
                Err(e) => Err(e),
            }
        },
        None => {
            proof {
                assert(!(exists|i: int| 0 <= i < key@.len() && key@[i] == '/'));
            }
            Ok((DirectoryPath::root(), key.as_str().to_owned()))
        },
    }
}

/// Splitting the key of a Resource gives back its Directory path and name: the visible key of
/// a Resource named by a single segment is the name in the root and `directory/name`
/// elsewhere, and the Directory path and name read back from that key are the ones it was
/// derived from.
pub proof fn lemma_key_split_of_resource_key(directory: Seq<char>, name: Seq<char>)
    requires
        crate::domain::path::valid_segment(name),
    ensures
        key_split(resource_key_text(directory, name)) == (directory, name),
{
    let k = resource_key_text(directory, name);
    if directory.len() == 0 {
        assert(k == name);
        assert(!exists|i: int| 0 <= i < k.len() && k[i] == '/');
    } else {
        let w = directory.len() as int;
        assert(k == directory + seq!['/'] + name);
        assert(k[w] == '/');
        assert(forall|j: int| w < j < k.len() ==> k[j] == name[j - w - 1]);
        assert(0 <= w < k.len() && k[w] == '/' && forall|j: int| w < j < k.len() ==> k[j] != '/');
        let c = choose|c: int|
            0 <= c < k.len() && k[c] == '/' && forall|j: int| c < j < k.len() ==> k[j] != '/';
        if c < w {
            assert(k[w] != '/');
        }
        if c > w {
            assert(k[c] == name[c - w - 1]);
        }
        assert(c == w);
        assert(k.subrange(0, w) =~= directory);
        assert(k.subrange(w + 1, k.len() as int) =~= name);
    }
}

} // verus!
