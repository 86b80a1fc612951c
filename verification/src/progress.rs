//! Download progress tracking.
//!
//! Each in-flight fetch with a declared content length owns one
//! [`InProgress`] entry in a process-wide [`ProgressRegistry`]. The registry
//! is append-only: an entry is never removed, and finished entries are
//! retained so that observers can still read their terminal state. A fetch
//! mutates only the entry it created; the fraction an entry reports is
//! derived from a running byte total that only increases, so it never
//! regresses.

use vstd::prelude::*;

verus! {

/// One in-flight download: a display name, the bytes durably written so
/// far, and the declared total length.
///
/// The progress fraction is the exact rational
/// [`fraction_num`](InProgress::fraction_num) over
/// [`fraction_den`](InProgress::fraction_den), clamped to at most one when
/// the server sends more bytes than it declared.
#[derive(Clone, Debug)]
pub struct InProgress {
    /// The display name of the fetch.
    pub name: String,
    /// Bytes durably written so far.
    pub consumed: u64,
    /// The declared total content length.
    pub total: u64,
}

impl InProgress {
    /// An entry is only ever created for a declared positive length; with no
    /// declared length there is no indeterminate-progress state at all.
    pub open spec fn wf(self) -> bool {
        self.total > 0
    }

    /// Numerator of the progress fraction, clamped to the declared total.
    pub open spec fn fraction_num(self) -> int {
        if self.consumed >= self.total {
            self.total as int
        } else {
            self.consumed as int
        }
    }

    /// Denominator of the progress fraction.
    pub open spec fn fraction_den(self) -> int {
        self.total as int
    }

    /// Creates a fresh entry at fraction zero.
    pub fn new(name: &str, total: u64) -> (p: InProgress)
        requires
            total > 0,
        ensures
            p.wf(),
            p.name@ == name@,
            p.consumed == 0,
            p.total == total,
            p.fraction_num() == 0,
    {
        InProgress { name: name.to_owned(), consumed: 0, total }
    }

    /// Adds durably written bytes to the running total, which only
    /// increases (saturating at the largest representable count).
    pub fn record(&mut self, bytes: u64)
        ensures
            final(self).name@ == old(self).name@,
            final(self).total == old(self).total,
            final(self).consumed == if old(self).consumed + bytes <= u64::MAX {
                old(self).consumed + bytes
            } else {
                u64::MAX as int
            },
            final(self).consumed >= old(self).consumed,
            old(self).wf() ==> final(self).wf(),
    {
        if bytes > u64::MAX - self.consumed {
            self.consumed = u64::MAX;
        } else {
            self.consumed = self.consumed + bytes;
        }
    }

    /// The progress fraction as an exact numerator and denominator pair.
    pub fn fraction(&self) -> (r: (u64, u64))
        requires
            self.wf(),
        ensures
            r.0 as int == self.fraction_num(),
            r.1 as int == self.fraction_den(),
            r.0 <= r.1,
            r.1 > 0,
    {
        if self.consumed >= self.total {
            (self.total, self.total)
        } else {
            (self.consumed, self.total)
        }
    }
}

/// Law: a fetch that wrote at least its declared length records a fraction
/// of exactly one.
pub proof fn lemma_complete_fraction(p: InProgress)
    requires
        p.wf(),
        p.consumed >= p.total,
    ensures
        p.fraction_num() == p.fraction_den(),
{
}

/// Law: within one fetch the observed fraction is monotonically
/// non-decreasing: more consumed bytes over the same total never lower the
/// numerator, and the denominator never changes.
pub proof fn lemma_fraction_monotone(earlier: InProgress, later: InProgress)
    requires
        earlier.wf(),
        later.wf(),
        earlier.total == later.total,
        earlier.consumed <= later.consumed,
    ensures
        earlier.fraction_num() <= later.fraction_num(),
        earlier.fraction_den() == later.fraction_den(),
{
}

/// The spec-level image of one registry entry: its name and exact byte
/// counts.
pub struct EntryModel {
    /// The display name.
    pub name: Seq<char>,
    /// Bytes durably written so far.
    pub consumed: int,
    /// The declared total content length.
    pub total: int,
}

impl InProgress {
    /// The spec-level image of this entry.
    pub open spec fn model(self) -> EntryModel {
        EntryModel { name: self.name@, consumed: self.consumed as int, total: self.total as int }
    }
}

/// One operation a fetch performs against the registry. A run of the
/// registry is a sequence of these, in the order the operations took
/// effect — any interleaving of concurrent fetches is such a sequence.
pub enum RegistryOp {
    /// Begin tracking a fetch with the given name and declared total.
    Begin { name: Seq<char>, total: int },
    /// Record bytes against the entry at the given index.
    Record { idx: int, bytes: nat },
}

/// A byte count clamped to the largest representable value.
pub open spec fn clamped(x: int) -> int {
    if x <= u64::MAX {
        x
    } else {
        u64::MAX as int
    }
}

/// The registry contents after one operation: a begin appends a fresh
/// entry at the end, a record adds bytes to its own entry and touches
/// nothing else.
pub open spec fn apply_op(s: Seq<EntryModel>, op: RegistryOp) -> Seq<EntryModel> {
    match op {
        RegistryOp::Begin { name, total } => s.push(EntryModel { name, consumed: 0, total }),
        RegistryOp::Record { idx, bytes } => if 0 <= idx < s.len() {
            s.update(
                idx,
                EntryModel {
                    name: s[idx].name,
                    consumed: clamped(s[idx].consumed + bytes),
                    total: s[idx].total,
                },
            )
        } else {
            s
        },
    }
}

/// The registry contents after a whole run.
pub open spec fn apply_ops(s: Seq<EntryModel>, ops: Seq<RegistryOp>) -> Seq<EntryModel>
    decreases ops.len(),
{
    if ops.len() == 0 {
        s
    } else {
        apply_ops(apply_op(s, ops.first()), ops.drop_first())
    }
}

/// True when the operation records bytes against entry `i`.
pub open spec fn op_targets(op: RegistryOp, i: int) -> bool {
    match op {
        RegistryOp::Record { idx, .. } => idx == i,
        RegistryOp::Begin { .. } => false,
    }
}

/// Law: over any run — any interleaving of concurrent fetches — an entry
/// is never lost and never corrupted: the registry only grows, every entry
/// keeps its index, name and declared total, and its byte count, hence its
/// fraction, is monotonically non-decreasing.
pub proof fn lemma_run_monotone(s: Seq<EntryModel>, ops: Seq<RegistryOp>, i: int)
    requires
        0 <= i < s.len(),
        s[i].consumed <= u64::MAX,
    ensures
        s.len() <= apply_ops(s, ops).len(),
        apply_ops(s, ops)[i].name == s[i].name,
        apply_ops(s, ops)[i].total == s[i].total,
        apply_ops(s, ops)[i].consumed >= s[i].consumed,
        apply_ops(s, ops)[i].consumed <= u64::MAX,
    decreases ops.len(),
{
    if ops.len() > 0 {
        let s1 = apply_op(s, ops.first());
        assert(s1[i].name == s[i].name && s1[i].total == s[i].total && s1[i].consumed >= s[i].consumed && s1[i].consumed <= u64::MAX);
        lemma_run_monotone(s1, ops.drop_first(), i);
    }
}

/// Law: fetches are independent: a run in which no operation records
/// against entry `i` — every other fetch mutates only its own entry —
/// leaves entry `i` exactly as it was.
pub proof fn lemma_run_independent(s: Seq<EntryModel>, ops: Seq<RegistryOp>, i: int)
    requires
        0 <= i < s.len(),
        forall|k: int| 0 <= k < ops.len() ==> !op_targets(#[trigger] ops[k], i),
    ensures
        apply_ops(s, ops)[i] == s[i],
    decreases ops.len(),
{
    if ops.len() > 0 {
        let s1 = apply_op(s, ops.first());
        assert(!op_targets(ops[0], i));
        assert(s1[i] == s[i]);
        assert forall|k: int| 0 <= k < ops.drop_first().len() implies !op_targets(
            #[trigger] ops.drop_first()[k],
            i,
        ) by {
            assert(ops.drop_first()[k] == ops[k + 1]);
        }
        lemma_run_independent(s1, ops.drop_first(), i);
    }
}

/// Law: begun fetches stand in append order: the `n`-th begin of a run
/// lands at index `n` of the registry, and what a begin appends carries
/// the given name at fraction zero.
pub proof fn lemma_begin_appends(s: Seq<EntryModel>, name: Seq<char>, total: int)
    ensures
        apply_op(s, RegistryOp::Begin { name, total }) == s.push(
            EntryModel { name, consumed: 0, total },
        ),
        apply_op(s, RegistryOp::Begin { name, total })[s.len() as int] == (EntryModel {
            name,
            consumed: 0,
            total,
        }),
{
}

/// The shared, ordered collection of download states.
///
/// Entries are strictly append-ordered and never removed; finished entries
/// are retained. Each fetch mutates only the entry at the index it was
/// handed at creation.
pub struct ProgressRegistry {
    entries: Vec<InProgress>,
}

impl View for ProgressRegistry {
    type V = Seq<InProgress>;

    closed spec fn view(&self) -> Seq<InProgress> {
        self.entries@
    }
}

impl ProgressRegistry {
    /// Every entry was created for a declared positive length.
    pub open spec fn wf(self) -> bool {
        forall|i: int| 0 <= i < self@.len() ==> (#[trigger] self@[i]).wf()
    }

    /// The spec-level image of the registry: each entry's model, in order.
    pub open spec fn models(self) -> Seq<EntryModel> {
        Seq::new(self@.len(), |i: int| self@[i].model())
    }

    /// Creates an empty registry.
    pub fn new() -> (r: ProgressRegistry)
        ensures
            r@ == Seq::<InProgress>::empty(),
            r.wf(),
    {
        ProgressRegistry { entries: Vec::new() }
    }

    /// The number of entries ever begun.
    pub fn len(&self) -> (n: usize)
        ensures
            n == self@.len(),
    {
        self.entries.len()
    }

    /// Begins tracking one fetch: appends a fresh entry at fraction zero
    /// and returns its index. Every existing entry is left untouched.
    pub fn begin(&mut self, name: &str, total: u64) -> (idx: usize)
        requires
            old(self).wf(),
            total > 0,
        ensures
            final(self).wf(),
            idx == old(self)@.len(),
            final(self)@ == old(self)@.push(final(self)@[idx as int]),
            final(self)@[idx as int].name@ == name@,
            final(self)@[idx as int].consumed == 0,
            final(self)@[idx as int].total == total,
            final(self).models() == apply_op(
                old(self).models(),
                RegistryOp::Begin { name: name@, total: total as int },
            ),
    {
        let idx = self.entries.len();
        self.entries.push(InProgress::new(name, total));
        proof {
            assert forall|i: int| 0 <= i < self@.len() implies (#[trigger] self@[i]).wf() by {
                if i < old(self)@.len() {
                    assert(self@[i] == old(self)@[i]);
                }
            }
            assert(self.models() =~= apply_op(
                old(self).models(),
                RegistryOp::Begin { name: name@, total: total as int },
            ));
        }
        idx
    }

    /// Records durably written bytes against the entry at `idx`. Every
    /// other entry is left untouched, and the entry's own byte total only
    /// increases.
    pub fn record(&mut self, idx: usize, bytes: u64)
        requires
            old(self).wf(),
            idx < old(self)@.len(),
        ensures
            final(self).wf(),
            final(self)@.len() == old(self)@.len(),
            forall|j: int|
                0 <= j < old(self)@.len() && j != idx ==> final(self)@[j] == old(self)@[j],
            final(self)@[idx as int].name@ == old(self)@[idx as int].name@,
            final(self)@[idx as int].total == old(self)@[idx as int].total,
            final(self)@[idx as int].consumed == if old(self)@[idx as int].consumed + bytes
                <= u64::MAX {
                old(self)@[idx as int].consumed + bytes
            } else {
                u64::MAX as int
            },
            final(self)@[idx as int].consumed >= old(self)@[idx as int].consumed,
            final(self).models() == apply_op(
                old(self).models(),
                RegistryOp::Record { idx: idx as int, bytes: bytes as nat },
            ),
    {
        let entry = &mut self.entries[idx];
        entry.record(bytes);
        proof {
            assert(self.models() =~= apply_op(
                old(self).models(),
                RegistryOp::Record { idx: idx as int, bytes: bytes as nat },
            ));
        }
    }

    /// Reads the fraction of the entry at `idx` as an exact numerator and
    /// denominator pair.
    pub fn fraction(&self, idx: usize) -> (r: (u64, u64))
        requires
            self.wf(),
            idx < self@.len(),
        ensures
            r.0 as int == self@[idx as int].fraction_num(),
            r.1 as int == self@[idx as int].fraction_den(),
            r.0 <= r.1,
            r.1 > 0,
    {
        self.entries[idx].fraction()
    }

    /// Reads the display name of the entry at `idx`.
    pub fn name(&self, idx: usize) -> (r: String)
        requires
            idx < self@.len(),
        ensures
            r@ == self@[idx as int].name@,
    {
        self.entries[idx].name.clone()
    }
}

} // verus!
