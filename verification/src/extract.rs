//! Archive extraction planning.
//!
//! The extractor walks the archive's entries in archive order and writes
//! each entry's decompressed payload under the destination directory,
//! overwriting on path collision and skipping any entry whose stored path
//! is unsafe. The destination is modeled as a map from absolute paths to
//! file contents; [`extract_spec`] is the effect of one full extraction on
//! that model, and the laws below relate repeated extractions and pin down
//! which paths an extraction can touch.
//!
//! Extraction is not transactional: a write failure aborts the remaining
//! entries and leaves the files already written in place.

use vstd::prelude::*;

use crate::paths::entry_dest_spec;
use crate::paths::entry_destination;
use crate::paths::path_is_safe;

verus! {

/// One logical archive entry: an untrusted stored path and its full
/// decompressed payload.
pub struct ArchiveEntry {
    /// The stored relative path, as raw bytes.
    pub name: Vec<u8>,
    /// The decompressed payload.
    pub data: Vec<u8>,
}

/// The spec-level image of one archive entry.
pub struct EntrySpec {
    /// The stored relative path.
    pub name: Seq<u8>,
    /// The decompressed payload.
    pub data: Seq<u8>,
}

impl View for ArchiveEntry {
    type V = EntrySpec;

    open spec fn view(&self) -> EntrySpec {
        EntrySpec { name: self.name@, data: self.data@ }
    }
}

/// The effect of writing one entry into the destination model: the entry's
/// payload lands at its resolved destination, and an entry with an unsafe
/// stored path writes nothing.
pub open spec fn write_entry(
    fs: Map<Seq<u8>, Seq<u8>>,
    dir: Seq<u8>,
    e: EntrySpec,
) -> Map<Seq<u8>, Seq<u8>> {
    match entry_dest_spec(dir, e.name) {
        Some(p) => fs.insert(p, e.data),
        None => fs,
    }
}

/// The effect of one full extraction: the entries applied in archive
/// order, later entries overwriting earlier ones on path collision.
pub open spec fn extract_spec(
    fs: Map<Seq<u8>, Seq<u8>>,
    dir: Seq<u8>,
    entries: Seq<EntrySpec>,
) -> Map<Seq<u8>, Seq<u8>>
    decreases entries.len(),
{
    if entries.len() == 0 {
        fs
    } else {
        write_entry(extract_spec(fs, dir, entries.drop_last()), dir, entries.last())
    }
}

/// The destination paths an extraction writes.
pub open spec fn written_paths(dir: Seq<u8>, entries: Seq<EntrySpec>) -> Set<Seq<u8>>
    decreases entries.len(),
{
    if entries.len() == 0 {
        Set::empty()
    } else {
        match entry_dest_spec(dir, entries.last().name) {
            Some(p) => written_paths(dir, entries.drop_last()).insert(p),
            None => written_paths(dir, entries.drop_last()),
        }
    }
}

/// Law: an extraction leaves every path it does not write exactly as it
/// found it.
pub proof fn lemma_extract_frame(
    fs: Map<Seq<u8>, Seq<u8>>,
    dir: Seq<u8>,
    entries: Seq<EntrySpec>,
    k: Seq<u8>,
)
    requires
        !written_paths(dir, entries).contains(k),
    ensures
        extract_spec(fs, dir, entries).contains_key(k) == fs.contains_key(k),
        fs.contains_key(k) ==> extract_spec(fs, dir, entries)[k] == fs[k],
    decreases entries.len(),
{
    if entries.len() > 0 {
        lemma_extract_frame(fs, dir, entries.drop_last(), k);
    }
}

/// Law: on the paths an extraction writes, the outcome is a function of
/// the destination directory and the entries alone: whatever stood in the
/// destination before, the same contents land at the same paths.
pub proof fn lemma_extract_written(
    fs1: Map<Seq<u8>, Seq<u8>>,
    fs2: Map<Seq<u8>, Seq<u8>>,
    dir: Seq<u8>,
    entries: Seq<EntrySpec>,
    k: Seq<u8>,
)
    requires
        written_paths(dir, entries).contains(k),
    ensures
        extract_spec(fs1, dir, entries).contains_key(k),
        extract_spec(fs2, dir, entries).contains_key(k),
        extract_spec(fs1, dir, entries)[k] == extract_spec(fs2, dir, entries)[k],
    decreases entries.len(),
{
    let e = entries.last();
    match entry_dest_spec(dir, e.name) {
        Some(p) => {
            if k != p {
                lemma_extract_written(fs1, fs2, dir, entries.drop_last(), k);
            }
        },
        None => {
            lemma_extract_written(fs1, fs2, dir, entries.drop_last(), k);
        },
    }
}

/// Law: extracting the same archive into the same destination twice yields
/// exactly the file set and contents that one extraction yields — the
/// overwrite semantics duplicate nothing and change nothing on the second
/// pass.
pub proof fn lemma_extract_idempotent(
    fs: Map<Seq<u8>, Seq<u8>>,
    dir: Seq<u8>,
    entries: Seq<EntrySpec>,
)
    ensures
        extract_spec(extract_spec(fs, dir, entries), dir, entries) == extract_spec(
            fs,
            dir,
            entries,
        ),
{
    let once = extract_spec(fs, dir, entries);
    let twice = extract_spec(once, dir, entries);
    assert forall|k: Seq<u8>| #[trigger]
        twice.contains_key(k) == once.contains_key(k) && (twice.contains_key(k) ==> twice[k]
            == once[k]) by {
        if written_paths(dir, entries).contains(k) {
            lemma_extract_written(fs, once, dir, entries, k);
        } else {
            lemma_extract_frame(once, dir, entries, k);
        }
    }
    assert(twice =~= once);
}

/// Resolves the destinations of all entries in archive order: one
/// destination per safe stored path, `None` for each entry that is skipped.
/// The extractor in the binary performs exactly these writes, creating
/// missing parent directories first.
pub fn plan_extraction(dir: &[u8], names: &Vec<Vec<u8>>) -> (r: Vec<Option<Vec<u8>>>)
    ensures
        r@.len() == names@.len(),
        forall|i: int|
            0 <= i < names@.len() ==> match #[trigger] r@[i] {
                Some(p) => entry_dest_spec(dir@, names@[i]@) == Some(p@),
                None => entry_dest_spec(dir@, names@[i]@) is None,
            },
{
    let mut r: Vec<Option<Vec<u8>>> = Vec::new();
    let mut i: usize = 0;
    while i < names.len()
        invariant
            i <= names@.len(),
            r@.len() == i,
            forall|j: int|
                0 <= j < i ==> match #[trigger] r@[j] {
                    Some(p) => entry_dest_spec(dir@, names@[j]@) == Some(p@),
                    None => entry_dest_spec(dir@, names@[j]@) is None,
                },
        decreases names@.len() - i,
    {
        let dest = entry_destination(dir, names[i].as_slice());
        proof {
            if path_is_safe(names@[i as int]@) {
                assert(entry_dest_spec(dir@, names@[i as int]@) is Some);
            }
        }
        r.push(dest);
        i += 1;
    }
    r
}

} // verus!
