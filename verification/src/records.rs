//! The record and counter types of the registry, and the counting functions
//! that tie the aggregate counters to the record set.

use vstd::prelude::*;

verus! {

/// Aggregate counters over the record set: how many records are verified,
/// how many are still pending, and how many exist in total.
#[derive(Clone, Copy, PartialEq, Eq, Structural, Debug)]
pub struct ResultStats {
    pub verified: u64,
    pub pending: u64,
    pub total: u64,
}

impl ResultStats {
    /// The counters of a registry that has never seen a submission.
    pub open spec fn zero() -> ResultStats {
        ResultStats { verified: 0, pending: 0, total: 0 }
    }
}

/// One exam result record. Assigned its identifier and creation time by the
/// registry at submission; the caller-supplied fields are stored unchanged
/// and unvalidated. Only the verification flag ever changes after creation.
#[derive(Debug, PartialEq, Eq)]
pub struct ExamResult {
    pub result_id: u64,
    pub student_id: String,
    pub exam_name: String,
    pub score: u64,
    pub timestamp: u64,
    pub is_verified: bool,
}

impl Clone for ExamResult {
    fn clone(&self) -> (r: Self)
        ensures
            r == *self,
    {
        ExamResult {
            result_id: self.result_id,
            student_id: self.student_id.clone(),
            exam_name: self.exam_name.clone(),
            score: self.score,
            timestamp: self.timestamp,
            is_verified: self.is_verified,
        }
    }
}

/// Why an operation on the registry failed.
#[derive(Clone, Copy, PartialEq, Eq, Structural, Debug)]
pub enum RegistryError {
    /// The identifier names no record: it was never issued, or the stored
    /// state holding it has expired.
    NotFound,
    /// The record is already in its terminal, verified state.
    AlreadyVerified,
}

/// Typed storage key addressing one record by its identifier.
pub enum ResultBook {
    Result(u64),
}

impl ResultBook {
    /// The identifier this key addresses.
    pub open spec fn spec_id(self) -> u64 {
        match self {
            ResultBook::Result(id) => id,
        }
    }

    /// Reads the identifier out of the key.
    pub fn id(&self) -> (r: u64)
        ensures
            r == self.spec_id(),
    {
        match self {
            ResultBook::Result(id) => *id,
        }
    }
}

/// Number of records in `s` whose verification flag is set.
pub open spec fn verified_count(s: Seq<ExamResult>) -> nat
    decreases s.len(),
{
    if s.len() == 0 {
        0
    } else {
        verified_count(s.drop_last()) + (if s.last().is_verified {
            1nat
        } else {
            0nat
        })
    }
}

/// Number of records in `s` whose verification flag is still clear.
pub open spec fn pending_count(s: Seq<ExamResult>) -> nat
    decreases s.len(),
{
    if s.len() == 0 {
        0
    } else {
        pending_count(s.drop_last()) + (if s.last().is_verified {
            0nat
        } else {
            1nat
        })
    }
}

/// Every record is either verified or pending, so the two counts partition
/// the record set.
pub proof fn lemma_counts_partition(s: Seq<ExamResult>)
    ensures
        verified_count(s) + pending_count(s) == s.len(),
    decreases s.len(),
{
    if s.len() > 0 {
        lemma_counts_partition(s.drop_last());
    }
}

/// Appending a record grows exactly one of the two counts, according to its
/// verification flag.
pub proof fn lemma_counts_push(s: Seq<ExamResult>, r: ExamResult)
    ensures
        verified_count(s.push(r)) == verified_count(s) + (if r.is_verified {
            1nat
        } else {
            0nat
        }),
        pending_count(s.push(r)) == pending_count(s) + (if r.is_verified {
            0nat
        } else {
            1nat
        }),
{
    assert(s.push(r).drop_last() =~= s);
    assert(s.push(r).last() == r);
}

/// Replacing the record at `i` adjusts the counts by the difference between
/// the old and the new record's verification flag.
pub proof fn lemma_counts_update(s: Seq<ExamResult>, i: int, r: ExamResult)
    requires
        0 <= i < s.len(),
    ensures
        verified_count(s.update(i, r)) == verified_count(s) + (if r.is_verified {
            1nat
        } else {
            0nat
        }) - (if s[i].is_verified {
            1nat
        } else {
            0nat
        }),
        pending_count(s.update(i, r)) == pending_count(s) + (if r.is_verified {
            0nat
        } else {
            1nat
        }) - (if s[i].is_verified {
            0nat
        } else {
            1nat
        }),
    decreases s.len(),
{
    if i == s.len() - 1 {
        assert(s.update(i, r).drop_last() =~= s.drop_last());
        assert(s.update(i, r).last() == r);
    } else {
        lemma_counts_update(s.drop_last(), i, r);
        assert(s.update(i, r).drop_last() =~= s.drop_last().update(i, r));
        assert(s.update(i, r).last() == s.last());
    }
}

/// A record set holding an unverified record has at least one pending record.
pub proof fn lemma_pending_pos(s: Seq<ExamResult>, i: int)
    requires
        0 <= i < s.len(),
        !s[i].is_verified,
    ensures
        pending_count(s) >= 1,
    decreases s.len(),
{
    if i < s.len() - 1 {
        lemma_pending_pos(s.drop_last(), i);
    }
}

} // verus!
