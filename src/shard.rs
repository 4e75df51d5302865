//! The path resolver: where an object lives under the storage root.
//!
//! An object is stored at `root/repo/objects/<shard1>/<shard2>/<oid>`, where the
//! two shard directories are the first and the second pair of characters of the
//! object identifier, or `00` and `00` for identifiers shorter than four
//! characters.
use vstd::prelude::*;
use crate::text::{contains, str_contains};

verus! {

pub open spec fn fallback_shard() -> Seq<char> {
    seq!['0', '0']
}

/// The two shard directory names of an object identifier.
pub open spec fn shard_of(oid: Seq<char>) -> (Seq<char>, Seq<char>) {
    if oid.len() >= 4 {
        (oid.subrange(0, 2), oid.subrange(2, 4))
    } else {
        (fallback_shard(), fallback_shard())
    }
}

pub open spec fn objects_segment() -> Seq<char> {
    seq!['o', 'b', 'j', 'e', 'c', 't', 's', '/']
}

/// The directory holding an object: `root + repo + "objects/" + shard1 + "/" + shard2`.
pub open spec fn object_dir_of(root: Seq<char>, repo: Seq<char>, oid: Seq<char>) -> Seq<char> {
    root + repo + objects_segment() + shard_of(oid).0 + seq!['/'] + shard_of(oid).1
}

/// The file holding an object: its directory, a slash, and the identifier.
pub open spec fn object_path_of(root: Seq<char>, repo: Seq<char>, oid: Seq<char>) -> Seq<char> {
    object_dir_of(root, repo, oid) + seq!['/'] + oid
}

/// An object identifier that can name a file without leaving its shard
/// directory: non-empty, with no separator and no `..`.
pub open spec fn safe_oid(oid: Seq<char>) -> bool {
    oid.len() > 0 && !contains(oid, seq!['/']) && !contains(oid, seq!['\\'])
        && !contains(oid, seq!['.', '.'])
}

/// A repository identifier that cannot climb above the storage root: no `..`
/// and no backslash.
pub open spec fn safe_repo(repo: Seq<char>) -> bool {
    !contains(repo, seq!['.', '.']) && !contains(repo, seq!['\\'])
}

/// The two shard directory names of `oid`.
pub fn shard_dirs(oid: &str) -> (r: (String, String))
    ensures
        r.0@ == shard_of(oid@).0,
        r.1@ == shard_of(oid@).1,
{
    if oid.unicode_len() >= 4 {
        (String::from_str(oid.substring_char(0, 2)), String::from_str(oid.substring_char(2, 4)))
    } else {
        proof {
            reveal_strlit("00");
        }
        (String::from_str("00"), String::from_str("00"))
    }
}

/// The directory under `root` that holds object `oid` of repository `repo`.
pub fn object_dir(root: &str, repo: &str, oid: &str) -> (r: String)
    ensures
        r@ == object_dir_of(root@, repo@, oid@),
{
    let (d1, d2) = shard_dirs(oid);
    let mut r = String::from_str(root);
    r.append(repo);
    r.append("objects/");
    r.append(d1.as_str());
    r.append("/");
    r.append(d2.as_str());
    proof {
        reveal_strlit("objects/");
        reveal_strlit("/");
        assert(r@ =~= object_dir_of(root@, repo@, oid@));
    }
    r
}

/// The file under `root` that holds object `oid` of repository `repo`.
pub fn object_path(root: &str, repo: &str, oid: &str) -> (r: String)
    ensures
        r@ == object_path_of(root@, repo@, oid@),
{
    let mut r = object_dir(root, repo, oid);
    r.append("/");
    r.append(oid);
    proof {
        reveal_strlit("/");
        assert(r@ =~= object_path_of(root@, repo@, oid@));
    }
    r
}

/// Whether `oid` may be used as a file name (see `safe_oid`).
pub fn is_safe_oid(oid: &str) -> (r: bool)
    ensures
        r == safe_oid(oid@),
{
    proof {
        reveal_strlit("/");
        reveal_strlit("\\");
        reveal_strlit("..");
        assert("/"@ =~= seq!['/']);
        assert("\\"@ =~= seq!['\\']);
        assert(".."@ =~= seq!['.', '.']);
    }
    oid.unicode_len() > 0 && !str_contains(oid, "/") && !str_contains(oid, "\\")
        && !str_contains(oid, "..")
}

/// Whether `repo` may be used as a directory prefix (see `safe_repo`).
pub fn is_safe_repo(repo: &str) -> (r: bool)
    ensures
        r == safe_repo(repo@),
{
    proof {
        reveal_strlit("\\");
        reveal_strlit("..");
        assert("\\"@ =~= seq!['\\']);
        assert(".."@ =~= seq!['.', '.']);
    }
    !str_contains(repo, "..") && !str_contains(repo, "\\")
}

/// The shard directories are the identifier's first two character pairs when
/// it has at least four characters, and `00`/`00` otherwise; the object's file
/// sits under them, named by the identifier.
pub proof fn lemma_shard_components(root: Seq<char>, repo: Seq<char>, oid: Seq<char>)
    ensures
        oid.len() >= 4 ==> shard_of(oid) == (oid.subrange(0, 2), oid.subrange(2, 4)),
        oid.len() < 4 ==> shard_of(oid) == (seq!['0', '0'], seq!['0', '0']),
        object_path_of(root, repo, oid) == root + repo + objects_segment() + shard_of(oid).0
            + seq!['/'] + shard_of(oid).1 + seq!['/'] + oid,
{
}

} // verus!
