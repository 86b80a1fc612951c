//! The cover-asset cache component.
//!
//! [`WiiResources`] owns the resolved cache root, the shared download
//! registry, and the embedded default payload. The surrounding binary
//! performs the network and filesystem work: it hands the library the HTTP
//! status and declared content length when a response arrives, the size of
//! each durably written chunk, and the outcome of the cover file read. The
//! library makes every decision: whether the fetch proceeds, where the
//! archive file lands, how progress advances, and which bytes a lookup
//! yields.

use vstd::prelude::*;

use crate::CacheError;
use crate::paths::entry_dest_spec;
use crate::paths::joined;
use crate::paths::join_path;
use crate::paths::path_is_safe;
use crate::progress::ProgressRegistry;
use vstd::string::StringSliceAdditionalSpecFns;

verus! {

/// `directories::ProjectDirs` carried as an opaque value.
#[verifier::external_type_specification]
#[verifier::external_body]
pub struct ExProjectDirs(directories::ProjectDirs);

/// Relies on `directories::ProjectDirs::from`: computes the platform
/// project directories for an application namespace, `None` when the
/// platform yields no home directory. The result depends on the process
/// environment, so nothing more is assumed of it.
#[verifier::external_body]
fn project_dirs_from(qualifier: &str, organization: &str, application: &str) -> Option<
    directories::ProjectDirs,
> {
    directories::ProjectDirs::from(qualifier, organization, application)
}

/// Relies on `directories::ProjectDirs::cache_dir`: returns the stored
/// per-project cache directory path, converted here to raw path bytes.
#[verifier::external_body]
fn cache_dir_bytes(dirs: &directories::ProjectDirs) -> Vec<u8> {
    dirs.cache_dir().to_string_lossy().into_owned().into_bytes()
}

/// Resolves the cache root for an application namespace from the platform
/// conventions: the per-project cache directory, when the platform yields
/// one. The caller creates the directory on disk; repeated calls are safe
/// and return the same environment-determined path.
pub fn resolve_cache_root(qualifier: &str, organization: &str, application: &str) -> Option<
    Vec<u8>,
> {
    match project_dirs_from(qualifier, organization, application) {
        Some(dirs) => Some(cache_dir_bytes(&dirs)),
        None => None,
    }
}

/// The fixed remote resource the disc-cover archive is fetched from.
pub const DISC_ARCHIVE_URL: &'static str =
    "https://www.gametdb.com/download.php?FTP=GameTDB-wii_disc-US-2025-03-19.zip";

/// The display label of the disc-cover archive fetch.
pub const DISC_ARCHIVE_LABEL: &'static str = "discs";

/// True for an HTTP status in the success range.
pub open spec fn is_success_status(status: int) -> bool {
    200 <= status < 300
}

/// The stored file name of the transient archive download: `label` with a
/// `.zip` suffix.
pub open spec fn zip_name_spec(label: Seq<u8>) -> Seq<u8> {
    label + seq![46u8, 122u8, 105u8, 112u8]
}

/// The destination of the transient archive download for `label` under the
/// cache root.
pub open spec fn archive_dest_spec(root: Seq<u8>, label: Seq<u8>) -> Seq<u8> {
    joined(root, zip_name_spec(label))
}

/// The relative cover path for an identifier: `wii/disc/US/<id>.png`.
pub open spec fn cover_rel_spec(id: Seq<u8>) -> Seq<u8> {
    seq![119u8, 105u8, 105u8, 47u8, 100u8, 105u8, 115u8, 99u8, 47u8, 85u8, 83u8, 47u8] + id
        + seq![46u8, 112u8, 110u8, 103u8]
}

/// An identifier that is safe to embed as a single path segment: non-empty,
/// free of separator and terminator bytes, and not the parent-directory
/// segment itself.
pub open spec fn id_is_clean(id: Seq<u8>) -> bool {
    &&& id.len() > 0
    &&& forall|i: int| 0 <= i < id.len() ==> id[i] != 47u8 && id[i] != 92u8 && id[i] != 0u8
    &&& id != seq![46u8, 46u8]
}

/// One in-flight fetch as the library tracks it: where the archive file is
/// written and which registry entry, if any, follows it.
#[derive(Debug)]
pub struct FetchState {
    /// The destination path of the transient archive file.
    pub dest: Vec<u8>,
    /// The index of the registry entry tracking this fetch, present exactly
    /// when the response declared a content length.
    pub progress_index: Option<usize>,
}

impl FetchState {
    /// The fetch's registry entry, when there is one, lies inside the
    /// registry of `w`.
    pub open spec fn valid_for(self, w: WiiResources) -> bool {
        match self.progress_index {
            Some(i) => i < w.downloads@.len(),
            None => true,
        }
    }
}

/// The resolved output of a cover lookup: either the bytes of the cached
/// file, or the embedded default payload.
#[derive(Clone, Debug)]
pub enum CoverAsset {
    /// Bytes read from the expected cache path.
    FromCache(Vec<u8>),
    /// The embedded default payload, substituted on any read failure.
    Embedded(Vec<u8>),
}

impl CoverAsset {
    /// The raw displayable bytes of the asset.
    pub open spec fn bytes_spec(self) -> Seq<u8> {
        match self {
            CoverAsset::FromCache(b) => b@,
            CoverAsset::Embedded(b) => b@,
        }
    }

    /// Collapses the asset to its raw bytes.
    pub fn into_bytes(self) -> (r: Vec<u8>)
        ensures
            r@ == self.bytes_spec(),
    {
        match self {
            CoverAsset::FromCache(b) => b,
            CoverAsset::Embedded(b) => b,
        }
    }
}

/// The cover-asset cache: cache root, shared download registry, and the
/// embedded default payload.
pub struct WiiResources {
    /// The resolved cache directory root, as raw path bytes.
    pub cache_root: Vec<u8>,
    /// The shared, append-only registry of in-flight downloads.
    pub downloads: ProgressRegistry,
    /// The embedded default cover payload, returned verbatim on a miss.
    pub default_cover: Vec<u8>,
}

impl WiiResources {
    /// Every registry entry was created for a declared positive length.
    pub open spec fn wf(self) -> bool {
        self.downloads.wf()
    }

    /// Creates the cache component over a resolved cache root and the
    /// embedded default payload, with an empty download registry.
    pub fn new(cache_root: Vec<u8>, default_cover: Vec<u8>) -> (r: WiiResources)
        ensures
            r.wf(),
            r.cache_root@ == cache_root@,
            r.default_cover@ == default_cover@,
            r.downloads@.len() == 0,
    {
        WiiResources { cache_root, downloads: ProgressRegistry::new(), default_cover }
    }

    /// The cache directory root under which every download and asset lives.
    pub fn cache_dir(&self) -> (r: &Vec<u8>)
        ensures
            r@ == self.cache_root@,
    {
        &self.cache_root
    }

    /// Begins one fetch once the response headers have arrived.
    ///
    /// A non-success status fails with [`CacheError::RemoteFailure`] before
    /// any local file is created and leaves the registry untouched. On
    /// success the transient archive path `<root>/<label>.zip` is fixed;
    /// when the response declared a content length a progress entry named
    /// `label` is appended at fraction zero before the first byte is
    /// written, and with no declared length progress tracking is skipped
    /// entirely — there is no indeterminate-progress state. A declared
    /// length of zero leaves nothing to progress through and is treated as
    /// undeclared.
    ///
    /// The label is a display name and is not validated further: two
    /// fetches given the same label share the same archive file, an
    /// accepted limitation of the label-derived layout.
    pub fn begin_fetch(&mut self, status: u16, content_length: Option<u64>, label: &str) -> (r:
        Result<FetchState, CacheError>)
        requires
            old(self).wf(),
        ensures
            final(self).wf(),
            final(self).cache_root@ == old(self).cache_root@,
            final(self).default_cover@ == old(self).default_cover@,
            !is_success_status(status as int) ==> (r matches Err(e) && e
                == CacheError::RemoteFailure && final(self).downloads@ == old(self).downloads@),
            is_success_status(status as int) ==> (r matches Ok(st) && {
                &&& st.dest@ == archive_dest_spec(old(self).cache_root@, label.spec_bytes())
                &&& st.valid_for(*final(self))
                &&& match content_length {
                    Some(n) => {
                        &&& n > 0 ==> {
                            &&& st.progress_index == Some(old(self).downloads@.len() as usize)
                            &&& final(self).downloads@ == old(self).downloads@.push(
                                final(self).downloads@.last(),
                            )
                            &&& final(self).downloads@.last().name@ == label@
                            &&& final(self).downloads@.last().consumed == 0
                            &&& final(self).downloads@.last().total == n
                        }
                        &&& n == 0 ==> st.progress_index is None && final(self).downloads@ == old(
                            self,
                        ).downloads@
                    },
                    None => st.progress_index is None && final(self).downloads@ == old(
                        self,
                    ).downloads@,
                }
            }),
    {
        if status < 200 || status >= 300 {
            return Err(CacheError::RemoteFailure);
        }
        let mut name = vstd::slice::slice_to_vec(label.as_bytes());
        // the bytes of ".zip"
        name.push(46);
        name.push(122);
        name.push(105);
        name.push(112);
        proof {
            assert(name@ =~= zip_name_spec(label.spec_bytes()));
        }
        let dest = join_path(self.cache_root.as_slice(), name.as_slice());
        let progress_index = match content_length {
            Some(n) => {
                if n > 0 {
                    Some(self.downloads.begin(label, n))
                } else {
                    None
                }
            },
            None => None,
        };
        Ok(FetchState { dest, progress_index })
    }

    /// Accounts one durably written chunk of the response body. For a
    /// tracked fetch the registry entry's byte total grows by the chunk
    /// size and every other entry is untouched; for an untracked fetch the
    /// registry does not change at all.
    pub fn fetch_chunk(&mut self, st: &FetchState, chunk_len: u64)
        requires
            old(self).wf(),
            st.valid_for(*old(self)),
        ensures
            final(self).wf(),
            final(self).cache_root@ == old(self).cache_root@,
            final(self).default_cover@ == old(self).default_cover@,
            final(self).downloads@.len() == old(self).downloads@.len(),
            st.valid_for(*final(self)),
            match st.progress_index {
                Some(i) => {
                    &&& forall|j: int|
                        0 <= j < old(self).downloads@.len() && j != i
                            ==> final(self).downloads@[j] == old(self).downloads@[j]
                    &&& final(self).downloads@[i as int].name@ == old(
                        self,
                    ).downloads@[i as int].name@
                    &&& final(self).downloads@[i as int].total == old(
                        self,
                    ).downloads@[i as int].total
                    &&& final(self).downloads@[i as int].consumed == if old(
                        self,
                    ).downloads@[i as int].consumed + chunk_len <= u64::MAX {
                        old(self).downloads@[i as int].consumed + chunk_len
                    } else {
                        u64::MAX as int
                    }
                    &&& final(self).downloads@[i as int].consumed >= old(
                        self,
                    ).downloads@[i as int].consumed
                },
                None => final(self).downloads@ == old(self).downloads@,
            },
    {
        match st.progress_index {
            Some(i) => {
                self.downloads.record(i, chunk_len);
            },
            None => {},
        }
    }

    /// The expected on-disk path `<root>/wii/disc/US/<id>.png` of a cover,
    /// for an untrusted identifier that is safe to embed as one path
    /// segment; `None` for an identifier that is not, which a lookup then
    /// treats as a miss.
    pub fn cover_path(&self, id: &[u8]) -> (r: Option<Vec<u8>>)
        ensures
            r is Some <==> id_is_clean(id@),
            r is Some ==> r.unwrap()@ == joined(self.cache_root@, cover_rel_spec(id@)),
    {
        if !check_id(id) {
            return None;
        }
        let mut rel: Vec<u8> = Vec::new();
        // the bytes of "wii/disc/US/"
        rel.push(119);
        rel.push(105);
        rel.push(105);
        rel.push(47);
        rel.push(100);
        rel.push(105);
        rel.push(115);
        rel.push(99);
        rel.push(47);
        rel.push(85);
        rel.push(83);
        rel.push(47);
        let mut i: usize = 0;
        while i < id.len()
            invariant
                i <= id@.len(),
                rel@ == seq![
                    119u8,
                    105u8,
                    105u8,
                    47u8,
                    100u8,
                    105u8,
                    115u8,
                    99u8,
                    47u8,
                    85u8,
                    83u8,
                    47u8,
                ] + id@.take(i as int),
            decreases id@.len() - i,
        {
            rel.push(id[i]);
            proof {
                assert(rel@ =~= seq![
                    119u8,
                    105u8,
                    105u8,
                    47u8,
                    100u8,
                    105u8,
                    115u8,
                    99u8,
                    47u8,
                    85u8,
                    83u8,
                    47u8,
                ] + id@.take(i + 1));
            }
            i += 1;
        }
        // the bytes of ".png"
        rel.push(46);
        rel.push(112);
        rel.push(110);
        rel.push(103);
        proof {
            assert(id@.take(id@.len() as int) =~= id@);
            assert(rel@ =~= cover_rel_spec(id@));
        }
        Some(join_path(self.cache_root.as_slice(), rel.as_slice()))
    }

    /// Resolves a cover lookup from what the filesystem read returned.
    ///
    /// The lookup never fails: when the read succeeded the asset is exactly
    /// the file's bytes, and on any read failure — missing file, permission
    /// error, unclean identifier — the asset is exactly the embedded
    /// default payload.
    pub fn get_cover(&self, read: Option<Vec<u8>>) -> (r: CoverAsset)
        ensures
            read matches Some(b) ==> r is FromCache && r.bytes_spec() == b@,
            read is None ==> r is Embedded && r.bytes_spec() == self.default_cover@,
    {
        match read {
            Some(b) => CoverAsset::FromCache(b),
            None => CoverAsset::Embedded(vstd::slice::slice_to_vec(self.default_cover.as_slice())),
        }
    }
}

/// Decides [`id_is_clean`] for an untrusted identifier.
pub fn check_id(id: &[u8]) -> (ok: bool)
    ensures
        ok == id_is_clean(id@),
{
    let n = id.len();
    if n == 0 {
        return false;
    }
    if n == 2 && id[0] == 46 && id[1] == 46 {
        proof {
            assert(id@ =~= seq![46u8, 46u8]);
        }
        return false;
    }
    let mut i: usize = 0;
    while i < n
        invariant
            n == id@.len(),
            i <= n,
            forall|j: int| 0 <= j < i ==> id@[j] != 47u8 && id@[j] != 92u8 && id@[j] != 0u8,
        decreases n - i,
    {
        let b = id[i];
        if b == 47 || b == 92 || b == 0 {
            return false;
        }
        i += 1;
    }
    true
}

/// Law: the path a lookup expects for a clean identifier is exactly the
/// destination the extractor assigns to an archive entry stored at
/// `wii/disc/US/<id>.png` — the cache layout the archive dictates is
/// preserved, so an extracted cover is found by the lookup.
pub proof fn lemma_lookup_finds_extracted_cover(root: Seq<u8>, id: Seq<u8>)
    requires
        id_is_clean(id),
    ensures
        entry_dest_spec(root, cover_rel_spec(id)) == Some(joined(root, cover_rel_spec(id))),
{
    lemma_clean_id_cover_path_safe(id);
}

/// Law: a clean identifier yields a cover path whose relative part is safe
/// to join under the cache root: it has no traversal segment, no absolute
/// prefix, and no separator-switching bytes.
pub proof fn lemma_clean_id_cover_path_safe(id: Seq<u8>)
    requires
        id_is_clean(id),
    ensures
        path_is_safe(cover_rel_spec(id)),
{
    let rel = cover_rel_spec(id);
    assert(rel[0] == 119u8);
    assert forall|i: int| 0 <= i < rel.len() implies rel[i] != 92u8 && rel[i] != 0u8 by {
        if 12 <= i < 12 + id.len() {
            assert(rel[i] == id[i - 12]);
        }
    }
    assert forall|i: int| !crate::paths::traversal_at(rel, i) by {
        lemma_cover_rel_no_traversal(id, i);
    }
}

/// Helper for [`lemma_clean_id_cover_path_safe`]: no position of the
/// relative cover path of a clean identifier starts a traversal segment.
proof fn lemma_cover_rel_no_traversal(id: Seq<u8>, i: int)
    requires
        id_is_clean(id),
    ensures
        !crate::paths::traversal_at(cover_rel_spec(id), i),
{
    let rel = cover_rel_spec(id);
    if crate::paths::traversal_at(rel, i) {
        // The fixed prefix holds no `.` at a segment start, so both dots
        // must fall inside `<id>.png`; a clean identifier leaves no room
        // for a full `..` segment there.
        assert(rel[i] == 46u8 && rel[i + 1] == 46u8);
        assert(crate::paths::seg_starts_at(rel, i));
        assert(crate::paths::seg_ends_at(rel, i + 2));
        if i < 12 {
            assert(false);
        } else {
            // Positions 12 .. 12 + id.len() hold the identifier; the
            // suffix `.png` starts at 12 + id.len().
            let idlen = id.len() as int;
            if i == 12 {
                // A segment starts at 12 (the byte before is the slash),
                // so the identifier would begin `..` and either end there
                // or continue with a byte of its own.
                if idlen == 2 {
                    assert(id =~= seq![46u8, 46u8]);
                    assert(false);
                } else if idlen == 1 {
                    // rel[13] is the `.` of `.png`; rel[14] == 112 is no
                    // segment end, and 14 == rel.len() is false.
                    assert(rel[i + 2] == 112u8);
                    assert(i + 2 != rel.len());
                    assert(false);
                } else {
                    // The identifier itself holds no separator, so the
                    // segment cannot end at 14 < 12 + idlen.
                    assert(rel[i + 2] == id[2]);
                    assert(id[2] != 47u8);
                    assert(i + 2 != rel.len());
                    assert(false);
                }
            } else {
                // A segment start past 12 needs a slash inside the
                // identifier or the suffix, and neither holds one.
                assert(rel[i - 1] == 47u8);
                if i - 1 < 12 + idlen {
                    assert(rel[i - 1] == id[i - 1 - 12]);
                    assert(false);
                } else {
                    assert(i - 1 - (12 + idlen) < 4);
                    assert(false);
                }
            }
        }
    }
}

} // verus!
