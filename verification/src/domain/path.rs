//! Canonical `/`-separated paths: Directory paths and Blob storage keys.
//!
//! A valid path is a non-empty sequence of non-empty segments separated by single `/`
//! characters. No segment is `.` or `..`, and no character is a backslash or NUL.

use crate::error::CoreError;
use crate::text::{chars_of, join3, str_eq};
use vstd::prelude::*;
use vstd::std_specs::cmp::PartialEqSpecImpl;

verus! {

/// Characters that never appear in a path.
pub open spec fn forbidden_char(c: char) -> bool {
    c == '\\' || c == '\u{0}'
}

/// Position `i` starts a segment.
pub open spec fn seg_start(p: Seq<char>, i: int) -> bool {
    i == 0 || p[i - 1] == '/'
}

/// Position `i` ends a segment (exclusive end).
pub open spec fn seg_end(p: Seq<char>, i: int) -> bool {
    i == p.len() || p[i] == '/'
}

/// A `.` or `..` segment starts at position `i`.
pub open spec fn dot_segment_at(p: Seq<char>, i: int) -> bool {
    &&& seg_start(p, i)
    &&& p[i] == '.'
    &&& (seg_end(p, i + 1) || (i + 1 < p.len() && p[i + 1] == '.' && seg_end(p, i + 2)))
}

/// Every local rule of a valid path holds at position `i`.
pub open spec fn pos_ok(p: Seq<char>, i: int) -> bool {
    &&& !forbidden_char(p[i])
    &&& (i + 1 < p.len() ==> !(p[i] == '/' && p[i + 1] == '/'))
    &&& !dot_segment_at(p, i)
}

/// A non-empty canonical path.
pub open spec fn valid_path(p: Seq<char>) -> bool {
    &&& p.len() > 0
    &&& p[0] != '/'
    &&& p[p.len() - 1] != '/'
    &&& forall|i: int| 0 <= i < p.len() ==> #[trigger] pos_ok(p, i)
}

/// A single valid path segment (a name).
pub open spec fn valid_segment(s: Seq<char>) -> bool {
    valid_path(s) && forall|i: int| 0 <= i < s.len() ==> s[i] != '/'
}

/// A valid Directory path: the empty root path or a valid path.
pub open spec fn valid_directory_path(p: Seq<char>) -> bool {
    p.len() == 0 || valid_path(p)
}

/// `a/b` for two sequences.
pub open spec fn slash_join(a: Seq<char>, b: Seq<char>) -> Seq<char> {
    a + seq!['/'] + b
}

/// Joining two valid paths with `/` gives a valid path.
pub proof fn lemma_join_valid(a: Seq<char>, b: Seq<char>)
    requires
        valid_path(a),
        valid_path(b),
    ensures
        valid_path(slash_join(a, b)),
{
    let q = slash_join(a, b);
    let la = a.len() as int;
    assert(q.len() == la + 1 + b.len());
    assert forall|i: int| 0 <= i < q.len() implies #[trigger] pos_ok(q, i) by {
        assert(forall|j: int| 0 <= j < la ==> q[j] == a[j]);
        assert(q[la] == '/');
        assert(forall|j: int| 0 <= j < b.len() ==> q[la + 1 + j] == b[j]);
        if i < la {
            assert(pos_ok(a, i));
            if i + 1 < la {
                assert(q[i + 1] == a[i + 1]);
            }
            if i + 2 < la {
                assert(q[i + 2] == a[i + 2]);
            }
            if i > 0 {
                assert(q[i - 1] == a[i - 1]);
            }
        } else if i == la {
            assert(q[la + 1] == b[0]);
        } else {
            let j = i - la - 1;
            assert(pos_ok(b, j));
            assert(q[i] == b[j]);
            if j + 1 < b.len() {
                assert(q[i + 1] == b[j + 1]);
            }
            if j + 2 < b.len() {
                assert(q[i + 2] == b[j + 2]);
            }
            if j > 0 {
                assert(q[i - 1] == b[j - 1]);
            }
        }
    }
    assert(q[0] == a[0]);
    assert(q[q.len() - 1] == b[b.len() - 1]);
}

/// The part of a valid path after a `/` is a valid path.
pub proof fn lemma_suffix_valid(p: Seq<char>, k: int)
    requires
        valid_path(p),
        0 < k < p.len(),
        p[k - 1] == '/',
    ensures
        valid_path(p.subrange(k, p.len() as int)),
{
    let s = p.subrange(k, p.len() as int);
    assert(pos_ok(p, k - 1));
    assert forall|j: int| 0 <= j < s.len() implies #[trigger] pos_ok(s, j) by {
        assert(pos_ok(p, k + j));
        assert(s[j] == p[k + j]);
        if j + 1 < s.len() {
            assert(s[j + 1] == p[k + j + 1]);
        }
        if j + 2 < s.len() {
            assert(s[j + 2] == p[k + j + 2]);
        }
        if j > 0 {
            assert(s[j - 1] == p[k + j - 1]);
        }
    }
}

/// The part of a valid path before a `/` is a valid path.
pub proof fn lemma_prefix_valid(p: Seq<char>, k: int)
    requires
        valid_path(p),
        0 < k < p.len(),
        p[k] == '/',
    ensures
        valid_path(p.subrange(0, k)),
{
    let s = p.subrange(0, k);
    assert(pos_ok(p, k - 1));
    assert forall|j: int| 0 <= j < s.len() implies #[trigger] pos_ok(s, j) by {
        assert(pos_ok(p, j));
        assert(s[j] == p[j]);
        if j + 1 < s.len() {
            assert(s[j + 1] == p[j + 1]);
        }
        if j + 2 < s.len() {
            assert(s[j + 2] == p[j + 2]);
        }
        if j > 0 {
            assert(s[j - 1] == p[j - 1]);
        }
    }
}

/// `slash_join(a, b)` splits back into `a` and `b` at the separator after `a`.
pub proof fn lemma_slash_join_parts(a: Seq<char>, b: Seq<char>)
    ensures
        slash_join(a, b).subrange(0, a.len() as int) == a,
        slash_join(a, b).subrange(a.len() + 1int, slash_join(a, b).len() as int) == b,
        slash_join(a, b)[a.len() as int] == '/',
        slash_join(a, b).len() == a.len() + 1 + b.len(),
{
    assert(slash_join(a, b).subrange(0, a.len() as int) =~= a);
    assert(slash_join(a, b).subrange(a.len() + 1int, slash_join(a, b).len() as int) =~= b);
}

fn pos_ok_exec(v: &Vec<char>, i: usize) -> (r: bool)
    requires
        i < v@.len(),
    ensures
        r == pos_ok(v@, i as int),
{
    let n = v.len();
    let c = v[i];
    if c == '\\' || c == '\u{0}' {
        return false;
    }
    if i + 1 < n && c == '/' && v[i + 1] == '/' {
        return false;
    }
    let start = i == 0 || v[i - 1] == '/';
    let end1 = i + 1 == n || v[i + 1] == '/';
    let dotdot = i + 1 < n && v[i + 1] == '.' && (i + 2 == n || v[i + 2] == '/');
    !(start && c == '.' && (end1 || dotdot))
}

/// Exact validity check of a path held as characters.
pub fn is_valid_path(v: &Vec<char>) -> (r: bool)
    ensures
        r == valid_path(v@),
{
    let n = v.len();
    if n == 0 || v[0] == '/' || v[n - 1] == '/' {
        return false;
    }
    let mut i: usize = 0;
    while i < n
        invariant
            n == v@.len(),
            i <= n,
            forall|j: int| 0 <= j < i ==> #[trigger] pos_ok(v@, j),
        decreases n - i,
    {
        if !pos_ok_exec(v, i) {
            return false;
        }
        i += 1;
    }
    true
}

/// Exact check that `v` is a single valid segment.
pub fn is_valid_segment(v: &Vec<char>) -> (r: bool)
    ensures
        r == valid_segment(v@),
{
    if !is_valid_path(v) {
        return false;
    }
    let mut i: usize = 0;
    while i < v.len()
        invariant
            i <= v@.len(),
            forall|j: int| 0 <= j < i ==> v@[j] != '/',
        decreases v@.len() - i,
    {
        if v[i] == '/' {
            return false;
        }
        i += 1;
    }
    true
}

/// A validated Blob storage key.
#[derive(Debug)]
pub struct StorageKey {
    value: String,
}

impl View for StorageKey {
    type V = Seq<char>;

    closed spec fn view(&self) -> Seq<char> {
        self.value@
    }
}

impl StorageKey {
    /// Every storage key is a valid path.
    #[verifier::type_invariant]
    pub open spec fn wf(self) -> bool {
        valid_path(self@)
    }

    /// Validate a storage key.
    pub fn new(value: &str) -> (r: Result<StorageKey, CoreError>)
        ensures
            match r {
                Ok(k) => valid_path(value@) && k@ == value@,
                Err(e) => !valid_path(value@) && e == CoreError::InvalidStorageKey,
            },
    {
        let chars = chars_of(value);
        if is_valid_path(&chars) {
            Ok(StorageKey { value: value.to_owned() })
        } else {
            Err(CoreError::InvalidStorageKey)
        }
    }

    /// Validate an owned storage key string.
    pub fn from_string(value: String) -> (r: Result<StorageKey, CoreError>)
        ensures
            match r {
                Ok(k) => valid_path(value@) && k@ == value@,
                Err(e) => !valid_path(value@) && e == CoreError::InvalidStorageKey,
            },
    {
        let chars = chars_of(value.as_str());
        if is_valid_path(&chars) {
            Ok(StorageKey { value })
        } else {
            Err(CoreError::InvalidStorageKey)
        }
    }

    /// The key text.
    pub fn as_str(&self) -> (r: &str)
        ensures
            r@ == self@,
    {
        self.value.as_str()
    }

    /// Exact key equality.
    pub fn same_as(&self, other: &StorageKey) -> (r: bool)
        ensures
            r == (self@ == other@),
    {
        str_eq(self.value.as_str(), other.value.as_str())
    }
}

impl PartialEq for StorageKey {
    fn eq(&self, other: &Self) -> (r: bool) {
        self.same_as(other)
    }
}

impl PartialEqSpecImpl for StorageKey {
    open spec fn obeys_eq_spec() -> bool {
        true
    }

    open spec fn eq_spec(&self, other: &StorageKey) -> bool {
        self@ == other@
    }
}

impl Eq for StorageKey {}

impl Clone for StorageKey {
    fn clone(&self) -> (r: Self)
        ensures
            r@ == self@,
    {
        proof {
            use_type_invariant(self);
        }
        StorageKey { value: self.value.clone() }
    }
}

/// A canonical global Directory path. The root path is empty.
#[derive(Debug)]
pub struct DirectoryPath {
    path: String,
}

impl View for DirectoryPath {
    type V = Seq<char>;

    closed spec fn view(&self) -> Seq<char> {
        self.path@
    }
}

impl DirectoryPath {
    /// Every Directory path is the root or a valid path.
    #[verifier::type_invariant]
    pub open spec fn wf(self) -> bool {
        valid_directory_path(self@)
    }

    /// The root path.
    pub fn root() -> (r: DirectoryPath)
        ensures
            r@ == Seq::<char>::empty(),
    {
        DirectoryPath { path: String::new() }
    }

    /// Validate a Directory path. The empty text is the root.
    pub fn from_path(value: &str) -> (r: Result<DirectoryPath, CoreError>)
        ensures
            match r {
                Ok(p) => valid_directory_path(value@) && p@ == value@,
                Err(e) => !valid_directory_path(value@) && e == CoreError::InvalidDirectoryPath,
            },
    {
        let chars = chars_of(value);
        if chars.len() == 0 || is_valid_path(&chars) {
            Ok(DirectoryPath { path: value.to_owned() })
        } else {
            Err(CoreError::InvalidDirectoryPath)
        }
    }

    /// The path text.
    pub fn path(&self) -> (r: &str)
        ensures
            r@ == self@,
    {
        self.path.as_str()
    }

    /// Whether this is the root path.
    pub fn is_root(&self) -> (r: bool)
        ensures
            r == (self@.len() == 0),
    {
        self.path.as_str().unicode_len() == 0
    }

    /// Exact path equality.
    pub fn same_as(&self, other: &DirectoryPath) -> (r: bool)
        ensures
            r == (self@ == other@),
    {
        str_eq(self.path.as_str(), other.path.as_str())
    }

    /// The path of the child named `name`.
    pub fn child(&self, name: &str) -> (r: Result<DirectoryPath, CoreError>)
        ensures
            match r {
                Ok(p) => valid_segment(name@) && p@ == child_path(self@, name@),
                Err(e) => !valid_segment(name@) && e == CoreError::InvalidFormat {
                    field: crate::error::FormatField::DirectoryName,
                },
            },
    {
        proof {
            use_type_invariant(self);
        }
        let chars = chars_of(name);
        if !crate::domain::path::is_valid_segment(&chars) {
            return Err(CoreError::InvalidFormat { field: crate::error::FormatField::DirectoryName });
        }
        if self.is_root() {
            Ok(DirectoryPath { path: name.to_owned() })
        } else {
            let joined = join3(self.path.as_str(), "/", name);
            proof {
                reveal_strlit("/");
                assert(joined@ =~= slash_join(self@, name@));
                lemma_join_valid(self@, name@);
            }
            Ok(DirectoryPath { path: joined })
        }
    }

    /// Whether `other` is this path or lies below it.
    pub fn contains(&self, other: &DirectoryPath) -> (r: bool)
        ensures
            r == path_contains(self@, other@),
    {
        if self.is_root() {
            return true;
        }
        let mine = chars_of(self.path.as_str());
        let theirs = chars_of(other.path.as_str());
        if mine.len() == theirs.len() {
            proof {
                assert(theirs@.subrange(0, theirs@.len() as int) =~= theirs@);
            }
            return crate::text::is_prefix(&mine, &theirs);
        }
        if mine.len() < theirs.len() && crate::text::is_prefix(&mine, &theirs) {
            return theirs[mine.len()] == '/';
        }
        proof {
            if theirs@.len() == mine@.len() {
            } else if mine@.len() < theirs@.len() {
            } else {
            }
        }
        false
    }
}

/// The path of child `name` below `parent`.
pub open spec fn child_path(parent: Seq<char>, name: Seq<char>) -> Seq<char> {
    if parent.len() == 0 {
        name
    } else {
        slash_join(parent, name)
    }
}

/// `other` is `p` itself or below `p`; everything is below the root.
pub open spec fn path_contains(p: Seq<char>, other: Seq<char>) -> bool {
    ||| p.len() == 0
    ||| other == p
    ||| (p.len() < other.len() && other.subrange(0, p.len() as int) == p && other[p.len() as int]
        == '/')
}

impl PartialEq for DirectoryPath {
    fn eq(&self, other: &Self) -> (r: bool) {
        self.same_as(other)
    }
}

impl PartialEqSpecImpl for DirectoryPath {
    open spec fn obeys_eq_spec() -> bool {
        true
    }

    open spec fn eq_spec(&self, other: &DirectoryPath) -> bool {
        self@ == other@
    }
}

impl Eq for DirectoryPath {}

impl Clone for DirectoryPath {
    fn clone(&self) -> (r: Self)
        ensures
            r@ == self@,
    {
        proof {
            use_type_invariant(self);
        }
        DirectoryPath { path: self.path.clone() }
    }
}

} // verus!
