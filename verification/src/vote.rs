use vstd::prelude::*;
use tokio::time::Instant;

verus! {

/// Declares tokio's monotonic clock instant (`tokio::time::Instant`) so that
/// vote timestamps can be stored and handed back.  The instant is opaque
/// here: this record never reads or compares it, it only keeps the value the
/// external election logic attached to the vote.
#[verifier::external_type_specification]
#[verifier::external_body]
pub struct ExInstant(Instant);

/// Relies on `tokio::time::Instant` being `Copy`: the returned value is the
/// very instant that was passed in.
#[verifier::external_body]
fn copy_instant(t: &Instant) -> (r: Instant)
    ensures
        r == *t,
{
    *t
}

/// The node's current term / leader claim.
///
/// `committed` means a quorum has granted leadership for `term`, so the claim
/// is a stable fact rather than a pending candidacy.
#[derive(Clone, Copy, Debug)]
pub struct Vote {
    /// The leader epoch this vote belongs to.
    pub term: u64,
    /// The node this vote was granted to, if any.
    pub voted_for: Option<u64>,
    /// Whether a quorum has granted leadership for this term.
    pub committed: bool,
}

impl Vote {
    /// A committed vote has necessarily been granted to some node.
    pub open spec fn wf(self) -> bool {
        self.committed ==> self.voted_for is Some
    }

    /// The leader id a committed vote stands for: the epoch under which that
    /// leader writes new log entries.  Absent while the vote is uncommitted.
    pub open spec fn committed_leader_id_spec(self) -> Option<u64> {
        if self.committed {
            Some(self.term)
        } else {
            None
        }
    }

    /// Whether a quorum has granted leadership for this vote's term.
    pub fn is_committed(&self) -> (r: bool)
        ensures
            r == self.committed,
    {
        self.committed
    }

    /// The node this vote was granted to, if any.
    pub fn voted_for(&self) -> (r: Option<u64>)
        ensures
            r == self.voted_for,
    {
        self.voted_for
    }

    /// The leader epoch of a committed vote, absent if not committed.
    pub fn committed_leader_id(&self) -> (r: Option<u64>)
        ensures
            r == self.committed_leader_id_spec(),
    {
        if self.committed {
            Some(self.term)
        } else {
            None
        }
    }
}

/// A value tagged with the instant it was last changed.
pub struct UTime<T> {
    pub data: T,
    pub utime: Option<Instant>,
}

impl<T> UTime<T> {
    /// Pair `data` with the instant of its last change.
    pub fn new(data: T, utime: Option<Instant>) -> (r: Self)
        ensures
            r.data == data,
            r.utime == utime,
    {
        UTime { data, utime }
    }

    /// Wrap `data` that has never been changed.
    pub fn without_utime(data: T) -> (r: Self)
        ensures
            r.data == data,
            r.utime is None,
    {
        UTime { data, utime: None }
    }

    /// Read the wrapped value.
    pub fn data(&self) -> (r: &T)
        ensures
            *r == self.data,
    {
        &self.data
    }

    /// The instant of the last change, absent if never set.
    pub fn utime(&self) -> (r: Option<Instant>)
        ensures
            r == self.utime,
    {
        match &self.utime {
            Some(t) => Some(copy_instant(t)),
            None => None,
        }
    }
}

} // verus!
