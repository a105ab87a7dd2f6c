//! Where stored files live on disk and under which URL they are served.
//!
//! The reading and writing itself is I/O and stays with the caller; this
//! module decides the paths.

use vstd::prelude::*;
use crate::text::{chars_of, concat, has_prefix, owned, string_of};

verus! {

/// Settings of the local file store.
pub struct StorageConfig {
    /// Directory all stored files live under.
    pub root: String,
}

/// A file store in a local directory.
pub struct LocalStorage {
    config: StorageConfig,
}

/// What `PathBuf::push` makes of `base` when `segment` is pushed onto it,
/// on Unix: an absolute `segment` replaces the path; a relative one extends
/// it, after a `/` unless `base` is empty or already ends in one.
pub open spec fn pushed_path(base: Seq<char>, segment: Seq<char>) -> Seq<char> {
    if has_prefix(segment, "/"@) {
        segment
    } else if base.len() == 0 || base.last() == '/' {
        base + segment
    } else {
        base + "/"@ + segment
    }
}

/// `PathBuf::push` on a path made from `base`, read back as a string (the
/// path came from a `String`, so the reading loses nothing). The contract
/// is that of Unix targets, where `/` is the only separator and the root.
#[verifier::external_body]
pub(crate) fn push_path(base: String, segment: &str) -> (r: String)
    ensures
        r@ == pushed_path(base@, segment@),
{
    let mut p = std::path::PathBuf::from(base);
    p.push(segment);
    p.to_string_lossy().into_owned()
}

/// Where a key is stored under `root`: in the subdirectory named by its
/// first two characters when it has that many, then under the key itself.
pub open spec fn stored_path(root: Seq<char>, key: Seq<char>) -> Seq<char> {
    if key.len() >= 2 {
        pushed_path(pushed_path(root, key.take(2)), key)
    } else {
        pushed_path(root, key)
    }
}

/// Pushing a relative segment keeps the path it is pushed onto as a prefix.
proof fn pushed_relative_extends(base: Seq<char>, segment: Seq<char>)
    requires
        !has_prefix(segment, "/"@),
    ensures
        has_prefix(pushed_path(base, segment), base),
{
    let r = pushed_path(base, segment);
    if base.len() == 0 || base.last() == '/' {
        assert(r.take(base.len() as int) =~= base);
    } else {
        assert(r.take(base.len() as int) =~= base);
    }
}

impl LocalStorage {
    /// A store rooted at `config.root`.
    pub fn new(config: StorageConfig) -> (s: Self)
        ensures
            s.root()@ == config.root@,
    {
        LocalStorage { config }
    }

    /// The directory the store lives in.
    pub closed spec fn root(&self) -> String {
        self.config.root
    }

    /// The path of the file stored under `key`.
    pub fn full_path(&self, key: &str) -> (p: String)
        ensures
            p@ == stored_path(self.root()@, key@),
    {
        let base = owned(self.config.root.as_str());
        let chars = chars_of(key);
        if chars.len() >= 2 {
            let mut first_two: Vec<char> = Vec::new();
            first_two.push(chars[0]);
            first_two.push(chars[1]);
            let shard = string_of(&first_two);
            proof {
                assert(shard@ =~= key@.take(2));
            }
            let sharded = push_path(base, shard.as_str());
            push_path(sharded, key)
        } else {
            push_path(base, key)
        }
    }

    /// The URL a stored file is served under: `/api/files/` and its key.
    pub fn url(&self, key: &str) -> (u: String)
        ensures
            u@ == "/api/files/"@ + key@,
    {
        concat("/api/files/", key)
    }
}

/// Every key that is not an absolute path is stored under the store's root:
/// its path begins with the root.
pub proof fn relative_keys_stay_under_root(s: LocalStorage, key: Seq<char>)
    requires
        !has_prefix(key, "/"@),
    ensures
        has_prefix(stored_path(s.root()@, key), s.root()@),
{
    let root = s.root()@;
    if key.len() >= 2 {
        let shard = key.take(2);
        reveal_strlit("/");
        assert(!has_prefix(shard, "/"@)) by {
            if has_prefix(shard, "/"@) {
                assert(shard.take(1)[0] == '/');
                assert(key.take(1) =~= shard.take(1));
            }
        }
        pushed_relative_extends(root, shard);
        let mid = pushed_path(root, shard);
        pushed_relative_extends(mid, key);
        let full = pushed_path(mid, key);
        assert(full.take(root.len() as int) =~= mid.take(root.len() as int));
    } else {
        pushed_relative_extends(root, key);
    }
}

} // verus!
