//! Byte-level path handling for cache files.
//!
//! Paths are handled as byte sequences with `/` as the separator. Archive
//! entry names are untrusted input: before an entry is written under the
//! destination directory its stored path must pass [`check_entry_path`],
//! which rejects absolute paths, parent-directory traversal segments, and
//! bytes that act as separators or terminators on common platforms.

use vstd::prelude::*;

verus! {

/// True when byte position `i` starts a path segment of `s`.
pub open spec fn seg_starts_at(s: Seq<u8>, i: int) -> bool {
    i == 0 || s[i - 1] == 47u8
}

/// True when byte position `i` ends a path segment of `s` (one past its last byte).
pub open spec fn seg_ends_at(s: Seq<u8>, i: int) -> bool {
    i == s.len() || s[i] == 47u8
}

/// True when a parent-directory traversal segment `..` stands at position `i`.
pub open spec fn traversal_at(s: Seq<u8>, i: int) -> bool {
    &&& 0 <= i
    &&& i + 2 <= s.len()
    &&& s[i] == 46u8
    &&& s[i + 1] == 46u8
    &&& seg_starts_at(s, i)
    &&& seg_ends_at(s, i + 2)
}

/// True when the path holds a parent-directory traversal segment anywhere.
pub open spec fn has_traversal(s: Seq<u8>) -> bool {
    exists|i: int| traversal_at(s, i)
}

/// A stored entry path that is safe to join under a destination directory:
/// non-empty, relative, free of traversal segments, and free of backslash
/// and NUL bytes.
pub open spec fn path_is_safe(s: Seq<u8>) -> bool {
    &&& s.len() > 0
    &&& s[0] != 47u8
    &&& forall|i: int| 0 <= i < s.len() ==> s[i] != 92u8 && s[i] != 0u8
    &&& !has_traversal(s)
}

/// Decides [`path_is_safe`] for an untrusted stored entry path.
pub fn check_entry_path(name: &[u8]) -> (ok: bool)
    ensures
        ok == path_is_safe(name@),
{
    let n = name.len();
    if n == 0 {
        return false;
    }
    if name[0] == 47 {
        return false;
    }
    let mut i: usize = 0;
    while i < n
        invariant
            n == name@.len(),
            0 < n,
            name@[0] != 47u8,
            i <= n,
            forall|j: int| 0 <= j < i ==> name@[j] != 92u8 && name@[j] != 0u8,
            forall|j: int| 0 <= j < i ==> !traversal_at(name@, j),
        decreases n - i,
    {
        let b = name[i];
        if b == 92 || b == 0 {
            assert(!path_is_safe(name@)) by {
                assert(name@[i as int] == 92u8 || name@[i as int] == 0u8);
            }
            return false;
        }
        if b == 46 && i + 1 < n && name[i + 1] == 46 {
            let starts = i == 0 || name[i - 1] == 47;
            let ends = i + 2 == n || name[i + 2] == 47;
            if starts && ends {
                assert(traversal_at(name@, i as int));
                return false;
            }
        }
        proof {
            assert(!traversal_at(name@, i as int));
        }
        i += 1;
    }
    proof {
        assert(forall|j: int| traversal_at(name@, j) ==> 0 <= j < n);
        assert(!has_traversal(name@));
    }
    true
}

/// The joined path: `dir`, one separator byte, then `rel`.
pub open spec fn joined(dir: Seq<u8>, rel: Seq<u8>) -> Seq<u8> {
    dir + seq![47u8] + rel
}

/// Joins a relative path under a directory with a single separator byte.
pub fn join_path(dir: &[u8], rel: &[u8]) -> (r: Vec<u8>)
    ensures
        r@ == joined(dir@, rel@),
{
    let mut r: Vec<u8> = Vec::new();
    let mut i: usize = 0;
    while i < dir.len()
        invariant
            i <= dir@.len(),
            r@ == dir@.take(i as int),
        decreases dir@.len() - i,
    {
        r.push(dir[i]);
        proof {
            assert(r@ =~= dir@.take(i + 1));
        }
        i += 1;
    }
    proof {
        assert(dir@.take(dir@.len() as int) =~= dir@);
    }
    r.push(47);
    let mut j: usize = 0;
    while j < rel.len()
        invariant
            j <= rel@.len(),
            r@ == dir@ + seq![47u8] + rel@.take(j as int),
        decreases rel@.len() - j,
    {
        r.push(rel[j]);
        proof {
            assert(r@ =~= dir@ + seq![47u8] + rel@.take(j + 1));
        }
        j += 1;
    }
    proof {
        assert(rel@.take(rel@.len() as int) =~= rel@);
        assert(r@ =~= joined(dir@, rel@));
    }
    r
}

/// Where an archive entry with stored path `name` is written under `dir`:
/// the joined path when the stored path is safe, nowhere otherwise.
pub open spec fn entry_dest_spec(dir: Seq<u8>, name: Seq<u8>) -> Option<Seq<u8>> {
    if path_is_safe(name) {
        Some(joined(dir, name))
    } else {
        None
    }
}

/// Resolves the destination of one archive entry under `dir`, refusing any
/// unsafe stored path.
pub fn entry_destination(dir: &[u8], name: &[u8]) -> (r: Option<Vec<u8>>)
    ensures
        r is Some <==> path_is_safe(name@),
        r is Some ==> r.unwrap()@ == joined(dir@, name@),
{
    if check_entry_path(name) {
        Some(join_path(dir, name))
    } else {
        None
    }
}

/// Law: an entry whose stored path holds a parent-directory traversal
/// segment is never assigned a destination, so no file is written for it.
pub proof fn lemma_traversal_rejected(dir: Seq<u8>, name: Seq<u8>)
    requires
        has_traversal(name),
    ensures
        entry_dest_spec(dir, name) is None,
{
}

/// Law: every destination an entry is assigned lies strictly inside the
/// destination directory: it extends `dir` by a separator and a safe
/// relative remainder that is exactly the stored path.
pub proof fn lemma_dest_stays_inside(dir: Seq<u8>, name: Seq<u8>)
    requires
        entry_dest_spec(dir, name) is Some,
    ensures
        entry_dest_spec(dir, name).unwrap().len() > dir.len() + 1,
        entry_dest_spec(dir, name).unwrap().take(dir.len() as int) == dir,
        entry_dest_spec(dir, name).unwrap()[dir.len() as int] == 47u8,
        entry_dest_spec(dir, name).unwrap().skip(dir.len() + 1 as int) == name,
        path_is_safe(entry_dest_spec(dir, name).unwrap().skip(dir.len() + 1 as int)),
{
    let p = entry_dest_spec(dir, name).unwrap();
    assert(p.take(dir.len() as int) =~= dir);
    assert(p.skip(dir.len() + 1 as int) =~= name);
}

} // verus!
