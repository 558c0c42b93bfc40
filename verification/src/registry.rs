//! The result registry: the identifier generator, the record store, the
//! aggregate counters, and the lease bookkeeping over the stored state.

use vstd::prelude::*;

use crate::records::ExamResult;
use crate::records::RegistryError;
use crate::records::ResultBook;
use crate::records::ResultStats;
use crate::records::lemma_counts_partition;
use crate::records::lemma_counts_push;
use crate::records::lemma_counts_update;
use crate::records::lemma_pending_pos;
use crate::records::pending_count;
use crate::records::verified_count;

verus! {

/// Mathematical state of a registry: the records in order of creation, the
/// aggregate counters, the last identifier issued, the configured lease
/// length, and the instant the current lease runs to.
pub struct RegistryView {
    pub records: Seq<ExamResult>,
    pub stats: ResultStats,
    pub last_id: u64,
    pub lease_length: u64,
    pub lease_until: u64,
}

impl RegistryView {
    /// Well-formedness: identifiers are issued consecutively from 1, the
    /// identifier counter equals the number of records, and the aggregate
    /// counters agree with the record set.
    pub open spec fn wf(self) -> bool {
        &&& self.last_id == self.records.len()
        &&& forall|i: int|
            0 <= i < self.records.len() ==> (#[trigger] self.records[i]).result_id == i + 1
        &&& self.stats.total == self.records.len()
        &&& self.stats.verified == verified_count(self.records)
        &&& self.stats.pending == pending_count(self.records)
    }
}

/// The deadline a lease refreshed at `now` runs to: `now` plus the configured
/// lease length, capped at the largest representable instant.
pub open spec fn lease_deadline(now: u64, lease_length: u64) -> u64 {
    if now + lease_length <= u64::MAX {
        (now + lease_length) as u64
    } else {
        u64::MAX
    }
}

/// The record a submission with these inputs creates.
pub open spec fn new_record(
    id: u64,
    student_id: String,
    exam_name: String,
    score: u64,
    now: u64,
) -> ExamResult {
    ExamResult {
        result_id: id,
        student_id: student_id,
        exam_name: exam_name,
        score: score,
        timestamp: now,
        is_verified: false,
    }
}

/// Whether a `verify` call on this record set succeeds, and with which error
/// it fails: `NotFound` for an identifier outside the issued range,
/// `AlreadyVerified` for a record already in its terminal state.
pub open spec fn verify_outcome(records: Seq<ExamResult>, result_id: u64) -> Result<
    (),
    RegistryError,
> {
    if result_id < 1 || result_id > records.len() {
        Err(RegistryError::NotFound)
    } else if records[result_id - 1].is_verified {
        Err(RegistryError::AlreadyVerified)
    } else {
        Ok(())
    }
}

/// `r` with its verification flag set.
pub open spec fn mark_verified(r: ExamResult) -> ExamResult {
    ExamResult {
        result_id: r.result_id,
        student_id: r.student_id,
        exam_name: r.exam_name,
        score: r.score,
        timestamp: r.timestamp,
        is_verified: true,
    }
}

/// The record set after a `verify` call: on success the addressed record's
/// flag is set; on failure the records are unchanged.
pub open spec fn verify_applied(records: Seq<ExamResult>, result_id: u64) -> Seq<ExamResult> {
    if verify_outcome(records, result_id) is Ok {
        records.update(result_id - 1, mark_verified(records[result_id - 1]))
    } else {
        records
    }
}

/// The result registry. Owns all records, the identifier generator and the
/// aggregate counters; enforces the one-way verification transition and keeps
/// the counters consistent with the record set.
pub struct ExamResultContract {
    records: Vec<ExamResult>,
    stats: ResultStats,
    last_id: u64,
    lease_length: u64,
    lease_until: u64,
}

impl View for ExamResultContract {
    type V = RegistryView;

    closed spec fn view(&self) -> RegistryView {
        RegistryView {
            records: self.records@,
            stats: self.stats,
            last_id: self.last_id,
            lease_length: self.lease_length,
            lease_until: self.lease_until,
        }
    }
}

impl ExamResultContract {
    /// Creates an empty registry. `lease_length` is the validity window, in
    /// time units, granted to the stored state by every mutation.
    pub fn new(lease_length: u64) -> (r: Self)
        ensures
            r@.wf(),
            r@.records =~= Seq::<ExamResult>::empty(),
            r@.stats == ResultStats::zero(),
            r@.last_id == 0,
            r@.lease_length == lease_length,
            r@.lease_until == 0,
    {
        ExamResultContract {
            records: Vec::new(),
            stats: ResultStats { verified: 0, pending: 0, total: 0 },
            last_id: 0,
            lease_length,
            lease_until: 0,
        }
    }

    /// Accepts a new result submission. Issues the next identifier, stores a
    /// pending record stamped with `now` as its creation time, grows the
    /// pending and total counters, and refreshes the lease on the stored
    /// state to run `lease_length` units from `now`.
    ///
    /// The caller-supplied strings and score are stored as given: empty
    /// strings and any score value are accepted.
    pub fn submit_result(
        &mut self,
        student_id: String,
        exam_name: String,
        score: u64,
        now: u64,
    ) -> (id: u64)
        requires
            old(self)@.wf(),
            old(self)@.last_id < u64::MAX,
        ensures
            final(self)@.wf(),
            id == old(self)@.last_id + 1,
            final(self)@.last_id == id,
            final(self)@.records =~= old(self)@.records.push(
                new_record(id, student_id, exam_name, score, now),
            ),
            final(self)@.stats.verified == old(self)@.stats.verified,
            final(self)@.stats.pending == old(self)@.stats.pending + 1,
            final(self)@.stats.total == old(self)@.stats.total + 1,
            final(self)@.lease_length == old(self)@.lease_length,
            final(self)@.lease_until == lease_deadline(now, old(self)@.lease_length),
    {
        proof {
            lemma_counts_partition(self@.records);
        }
        let id = self.last_id + 1;
        let record = ExamResult {
            result_id: id,
            student_id,
            exam_name,
            score,
            timestamp: now,
            is_verified: false,
        };
        proof {
            lemma_counts_push(self@.records, record);
        }
        self.records.push(record);
        self.stats.pending = self.stats.pending + 1;
        self.stats.total = self.stats.total + 1;
        self.last_id = id;
        self.lease_until = if now <= u64::MAX - self.lease_length {
            now + self.lease_length
        } else {
            u64::MAX
        };
        proof {
            assert forall|i: int|
                0 <= i < self@.records.len() implies (#[trigger] self@.records[i]).result_id == i
                + 1 by {
                if i < self@.records.len() - 1 {
                    assert(self@.records[i] == old(self)@.records[i]);
                }
            }
        }
        id
    }

    /// Marks the record with identifier `result_id` as verified: the single,
    /// one-way lifecycle transition. Fails with `NotFound` when the
    /// identifier was never issued, and with `AlreadyVerified` when the
    /// record is already in its terminal state; a failed call leaves the
    /// registry unchanged. On success the verified counter grows and the
    /// pending counter shrinks by one, and the lease on the stored state is
    /// refreshed to run `lease_length` units from `now`.
    pub fn verify_result(&mut self, result_id: u64, now: u64) -> (r: Result<(), RegistryError>)
        requires
            old(self)@.wf(),
        ensures
            final(self)@.wf(),
            r == verify_outcome(old(self)@.records, result_id),
            final(self)@.records =~= verify_applied(old(self)@.records, result_id),
            final(self)@.last_id == old(self)@.last_id,
            final(self)@.lease_length == old(self)@.lease_length,
            r is Ok ==> final(self)@.stats.verified == old(self)@.stats.verified + 1
                && final(self)@.stats.pending == old(self)@.stats.pending - 1
                && final(self)@.stats.total == old(self)@.stats.total
                && final(self)@.lease_until == lease_deadline(now, old(self)@.lease_length),
            r is Err ==> *final(self) == *old(self),
    {
        let key = ResultBook::Result(result_id);
        let id = key.id();
        if id < 1 || id > self.records.len() as u64 {
            return Err(RegistryError::NotFound);
        }
        let idx: usize = (id - 1) as usize;
        if self.records[idx].is_verified {
            return Err(RegistryError::AlreadyVerified);
        }
        proof {
            lemma_counts_partition(self@.records);
            lemma_pending_pos(self@.records, idx as int);
            lemma_counts_update(
                self@.records,
                idx as int,
                mark_verified(self@.records[idx as int]),
            );
        }
        self.records[idx].is_verified = true;
        self.stats.verified = self.stats.verified + 1;
        self.stats.pending = self.stats.pending - 1;
        self.lease_until = if now <= u64::MAX - self.lease_length {
            now + self.lease_length
        } else {
            u64::MAX
        };
        proof {
            assert(self@.records =~= old(self)@.records.update(
                idx as int,
                mark_verified(old(self)@.records[idx as int]),
            ));
            assert forall|i: int|
                0 <= i < self@.records.len() implies (#[trigger] self@.records[i]).result_id == i
                + 1 by {
                if i != idx as int {
                    assert(self@.records[i] == old(self)@.records[i]);
                }
            }
        }
        Ok(())
    }

    /// Looks up the record with identifier `result_id` and returns a copy of
    /// it, fields exactly as stored. Fails with `NotFound` when the
    /// identifier names no record. A pure read: neither state nor lease
    /// changes.
    pub fn get_result(&self, result_id: u64) -> (r: Result<ExamResult, RegistryError>)
        ensures
            (match r {
                Ok(rec) => 1 <= result_id <= self@.records.len() && rec == self@.records[result_id
                    - 1],
                Err(e) => e == RegistryError::NotFound && !(1 <= result_id
                    <= self@.records.len()),
            }),
    {
        let key = ResultBook::Result(result_id);
        let id = key.id();
        if 1 <= id && id <= self.records.len() as u64 {
            Ok(self.records[(id - 1) as usize].clone())
        } else {
            Err(RegistryError::NotFound)
        }
    }

    /// Models the storage layer evicting state whose lease has run out: when
    /// `now` lies past the lease deadline, every stored entry — records,
    /// counters and the identifier counter — is gone, and the registry reads
    /// as freshly initialized. Before the deadline nothing changes. The
    /// registry tolerates this eviction; it never initiates it.
    pub fn evict_expired(&mut self, now: u64)
        ensures
            final(self)@.lease_length == old(self)@.lease_length,
            now > old(self)@.lease_until ==> final(self)@.records =~= Seq::<ExamResult>::empty()
                && final(self)@.stats == ResultStats::zero()
                && final(self)@.last_id == 0
                && final(self)@.lease_until == 0,
            now <= old(self)@.lease_until ==> *final(self) == *old(self),
            old(self)@.wf() ==> final(self)@.wf(),
    {
        if now > self.lease_until {
            self.records = Vec::new();
            self.stats = ResultStats { verified: 0, pending: 0, total: 0 };
            self.last_id = 0;
            self.lease_until = 0;
        }
    }

    /// Current aggregate counters; all zero for a registry that has never
    /// seen a submission. A pure read: neither state nor lease changes.
    pub fn get_statistics(&self) -> (r: ResultStats)
        ensures
            r == self@.stats,
    {
        self.stats
    }

    /// The instant the current lease runs to.
    pub fn lease_valid_until(&self) -> (r: u64)
        ensures
            r == self@.lease_until,
    {
        self.lease_until
    }

    /// The configured lease length.
    pub fn lease_length(&self) -> (r: u64)
        ensures
            r == self@.lease_length,
    {
        self.lease_length
    }
}

/// Law: identifiers are issued consecutively from 1 — the record created by
/// the i-th submission carries identifier i + 1 — so across any sequence of
/// submissions the issued identifiers are strictly increasing, with no gaps
/// and no repeats, and every identifier issued so far is at most the
/// identifier counter.
pub proof fn lemma_identifiers_sequential(v: RegistryView)
    requires
        v.wf(),
    ensures
        forall|i: int| 0 <= i < v.records.len() ==> (#[trigger] v.records[i]).result_id == i + 1,
        forall|i: int, j: int|
            0 <= i < j < v.records.len() ==> (#[trigger] v.records[i]).result_id < (
            #[trigger] v.records[j]).result_id,
        forall|i: int|
            0 <= i < v.records.len() ==> (#[trigger] v.records[i]).result_id <= v.last_id,
{
}

/// Law: the aggregate counters always partition the record set — the
/// verified and pending counts sum to the total, and the total equals the
/// number of records ever created.
pub proof fn lemma_statistics_partition(v: RegistryView)
    requires
        v.wf(),
    ensures
        v.stats.verified + v.stats.pending == v.stats.total,
        v.stats.total == v.records.len(),
{
    lemma_counts_partition(v.records);
}

/// Law: the verified state is terminal. `verify` on an identifier outside
/// the issued range fails with `NotFound`; after a successful `verify`, the
/// record's flag is set, a second `verify` of the same identifier fails with
/// `AlreadyVerified`, and that failed call leaves the record set — the flag
/// included — unchanged.
pub proof fn lemma_verify_terminal(records: Seq<ExamResult>, result_id: u64)
    ensures
        result_id < 1 || result_id > records.len() ==> verify_outcome(records, result_id) == Err::<
            (),
            RegistryError,
        >(RegistryError::NotFound),
        verify_outcome(records, result_id) is Ok ==> verify_applied(records, result_id)[result_id
            - 1].is_verified,
        verify_outcome(records, result_id) is Ok ==> verify_outcome(
            verify_applied(records, result_id),
            result_id,
        ) == Err::<(), RegistryError>(RegistryError::AlreadyVerified),
        verify_outcome(records, result_id) is Ok ==> verify_applied(
            verify_applied(records, result_id),
            result_id,
        ) =~= verify_applied(records, result_id),
{
}

} // verus!
