use vstd::prelude::*;
use tokio::time::Instant;
use crate::log_id::{
    LogId, RaftLogId, log_id_le, opt_log_id_le, opt_log_id_lt, opt_log_id_max, next_index_of,
    opt_log_id_le_exec, opt_log_id_lt_exec,
};
use crate::log_id_list::LogIdList;
use crate::membership::{BasicNode, MembershipState, commit_relation};
use crate::vote::{UTime, Vote};

verus! {

/// The role a node plays, derived from vote and membership, never stored as
/// ground truth.
#[derive(Clone, Copy, Debug, PartialEq, Eq, Structural)]
pub enum ServerState {
    Learner,
    Follower,
    Candidate,
    Leader,
}

/// Metadata of the most recent locally-held snapshot: the last log id the
/// snapshot includes.  Absent while no snapshot exists.
pub struct SnapshotMeta {
    pub last_log_id: Option<LogId>,
}

/// Where a client request received by a non-leader should be forwarded:
/// the committed leader's id and metadata, or empty when no committed leader
/// is known or the leader has left the membership.
pub struct ForwardToLeader {
    pub leader_id: Option<u64>,
    pub leader_node: Option<BasicNode>,
}

impl ForwardToLeader {
    /// A populated forwarding target.
    pub fn new(leader_id: u64, leader_node: BasicNode) -> (r: Self)
        ensures
            r.leader_id == Some(leader_id),
            r.leader_node == Some(leader_node),
    {
        ForwardToLeader { leader_id: Some(leader_id), leader_node: Some(leader_node) }
    }

    /// No known leader to forward to.
    pub fn empty() -> (r: Self)
        ensures
            r.leader_id is None,
            r.leader_node is None,
    {
        ForwardToLeader { leader_id: None, leader_node: None }
    }
}

/// Names the invariant inequality that a validation pass found violated.
#[derive(Clone, Copy, Debug, PartialEq, Eq)]
pub enum ValidateError {
    /// Nothing was purged, yet the first retained log id has a nonzero index.
    FirstLogIdIndexNotZero,
    /// The purge boundary disagrees with the index after the first retained
    /// log id.
    PurgedNextMismatch,
    /// The last purged log id lies above the pending purge-upto watermark.
    PurgedAbovePurgeUpto,
    /// With no snapshot, the pending purge-upto lies above the committed
    /// log id.
    PurgeUptoAboveCommitted,
    /// The pending purge-upto lies above the snapshot's last log id.
    PurgeUptoAboveSnapshot,
    /// The snapshot's last log id lies above the committed log id.
    SnapshotAboveCommitted,
    /// The committed log id lies above the last retained log id.
    CommittedAboveLastLogId,
    /// The membership record violates its own invariants.
    MembershipInvalid,
}

/// The node-local consensus state record: vote, retained log ids, commit
/// point, purge bookkeeping, membership, and snapshot metadata.
pub struct RaftState {
    /// The vote state of this node, tagged with its last change time.
    pub vote: UTime<Vote>,
    /// The last log id committed (replicated to a quorum under the leader's
    /// lineage), absent if none is yet.
    pub committed: Option<LogId>,
    /// The index one past the last index ever purged; 0 while nothing was
    /// purged.
    pub purged_next: u64,
    /// All log ids this node retains.
    pub log_ids: LogIdList,
    /// The committed and the effective cluster membership configurations.
    pub membership_state: MembershipState,
    /// The metadata of the last snapshot.
    pub snapshot_meta: SnapshotMeta,
    /// The role this node played when it was last computed; volatile.
    pub server_state: ServerState,
    /// The log id up to which the next purge will run; a purge deferred
    /// while replication still needs the data is recorded here.
    pub purge_upto: Option<LogId>,
}

impl RaftState {
    /// The last retained log id, if any.
    pub open spec fn last_log_id_spec(self) -> Option<LogId> {
        self.log_ids.last_spec()
    }

    /// The last purged log id: absent while nothing was purged, else the
    /// first retained log id, which a purge leaves behind as the boundary
    /// marker.
    pub open spec fn last_purged_log_id_spec(self) -> Option<LogId> {
        if self.purged_next == 0 {
            None
        } else {
            self.log_ids.first_spec()
        }
    }

    /// The local log holds `log_id` exactly: the log id in effect at that
    /// index is `log_id` itself.
    pub open spec fn has_log_id_spec(self, log_id: LogId) -> bool {
        self.log_ids.get_spec(log_id.index) == Some(log_id)
    }

    /// Nothing purged yet: the first retained log id, if any, sits at
    /// index 0.
    pub open spec fn inv_first_index_zero(self) -> bool {
        self.purged_next == 0 ==> (self.log_ids.first_spec() matches Some(f) ==> f.index == 0)
    }

    /// Something purged: the purge boundary is exactly the index after the
    /// first retained log id.
    pub open spec fn inv_purged_next_agrees(self) -> bool {
        self.purged_next != 0 ==> self.purged_next == next_index_of(self.log_ids.first_spec())
    }

    /// The last purged log id never passes the pending purge-upto watermark.
    pub open spec fn inv_purged_le_purge_upto(self) -> bool {
        opt_log_id_le(self.last_purged_log_id_spec(), self.purge_upto)
    }

    /// With no snapshot, purging may not pass the committed log id.
    pub open spec fn inv_purge_upto_le_committed(self) -> bool {
        self.snapshot_meta.last_log_id is None ==> opt_log_id_le(self.purge_upto, self.committed)
    }

    /// With a snapshot, purging may not pass the snapshot's last log id.
    pub open spec fn inv_purge_upto_le_snapshot(self) -> bool {
        self.snapshot_meta.last_log_id is Some ==> opt_log_id_le(
            self.purge_upto,
            self.snapshot_meta.last_log_id,
        )
    }

    /// The snapshot never includes more than what is committed.
    pub open spec fn inv_snapshot_le_committed(self) -> bool {
        opt_log_id_le(self.snapshot_meta.last_log_id, self.committed)
    }

    /// The commit point never passes the last retained log id.
    pub open spec fn inv_committed_le_last(self) -> bool {
        opt_log_id_le(self.committed, self.last_log_id_spec())
    }

    /// The data-model invariants that an explicit validation pass checks.
    pub open spec fn inv(self) -> bool {
        &&& self.inv_first_index_zero()
        &&& self.inv_purged_next_agrees()
        &&& self.inv_purged_le_purge_upto()
        &&& self.inv_purge_upto_le_committed()
        &&& self.inv_purge_upto_le_snapshot()
        &&& self.inv_snapshot_le_committed()
        &&& self.inv_committed_le_last()
        &&& self.membership_state.wf()
    }

    /// Full well-formedness: the retained log ids form a contiguous range,
    /// the vote is internally consistent, and the invariants hold.
    pub open spec fn valid(self) -> bool {
        &&& self.log_ids.wf()
        &&& self.vote.data.wf()
        &&& self.inv()
    }

    /// Get a reference to the current vote.
    pub fn vote_ref(&self) -> (r: &Vote)
        ensures
            *r == self.vote.data,
    {
        self.vote.data()
    }

    /// Return the last updated time of the vote, absent if never set.
    pub fn vote_last_modified(&self) -> (r: Option<Instant>)
        ensures
            r == self.vote.utime,
    {
        self.vote.utime()
    }

    /// The log id in effect at `index`: absent if unknown, purged away, or
    /// beyond the end of the log.
    pub fn get_log_id(&self, index: u64) -> (r: Option<LogId>)
        requires
            self.log_ids.wf(),
        ensures
            r == self.log_ids.get_spec(index),
    {
        self.log_ids.get(index)
    }

    /// The last retained log id, if any.
    pub fn last_log_id(&self) -> (r: Option<LogId>)
        ensures
            r == self.last_log_id_spec(),
    {
        self.log_ids.last()
    }

    /// The committed log id, if any.
    pub fn committed(&self) -> (r: Option<LogId>)
        ensures
            r == self.committed,
    {
        self.committed
    }

    /// The last log id the current snapshot includes, if a snapshot exists.
    pub fn snapshot_last_log_id(&self) -> (r: Option<LogId>)
        ensures
            r == self.snapshot_meta.last_log_id,
    {
        self.snapshot_meta.last_log_id
    }

    /// The pending purge watermark, if any.
    pub fn purge_upto(&self) -> (r: Option<LogId>)
        ensures
            r == self.purge_upto,
    {
        self.purge_upto
    }

    /// The last purged log id: absent while nothing was purged.
    pub fn last_purged_log_id(&self) -> (r: Option<LogId>)
        ensures
            r == self.last_purged_log_id_spec(),
    {
        if self.purged_next == 0 {
            return None;
        }
        self.log_ids.first()
    }

    /// Whether the local log holds exactly `log_id`.
    pub fn has_log_id(&self, log_id: &LogId) -> (r: bool)
        requires
            self.log_ids.wf(),
        ensures
            r == self.has_log_id_spec(*log_id),
    {
        match self.log_ids.get(log_id.index) {
            Some(l) => l == *log_id,
            None => false,
        }
    }

    /// Run the explicit validation pass: report `Ok` exactly when every
    /// data-model invariant holds, else name the first violated inequality.
    pub fn validate(&self) -> (r: Result<(), ValidateError>)
        ensures
            r == (if !self.inv_first_index_zero() {
                Result::<(), ValidateError>::Err(ValidateError::FirstLogIdIndexNotZero)
            } else if !self.inv_purged_next_agrees() {
                Result::<(), ValidateError>::Err(ValidateError::PurgedNextMismatch)
            } else if !self.inv_purged_le_purge_upto() {
                Result::<(), ValidateError>::Err(ValidateError::PurgedAbovePurgeUpto)
            } else if !self.inv_purge_upto_le_committed() {
                Result::<(), ValidateError>::Err(ValidateError::PurgeUptoAboveCommitted)
            } else if !self.inv_purge_upto_le_snapshot() {
                Result::<(), ValidateError>::Err(ValidateError::PurgeUptoAboveSnapshot)
            } else if !self.inv_snapshot_le_committed() {
                Result::<(), ValidateError>::Err(ValidateError::SnapshotAboveCommitted)
            } else if !self.inv_committed_le_last() {
                Result::<(), ValidateError>::Err(ValidateError::CommittedAboveLastLogId)
            } else if !self.membership_state.wf() {
                Result::<(), ValidateError>::Err(ValidateError::MembershipInvalid)
            } else {
                Result::<(), ValidateError>::Ok(())
            }),
            r is Ok <==> self.inv(),
    {
        let first = self.log_ids.first();
        if self.purged_next == 0 {
            if let Some(f) = first {
                if f.index != 0 {
                    return Err(ValidateError::FirstLogIdIndexNotZero);
                }
            }
        } else {
            let agrees = match first {
                Some(f) => self.purged_next >= 1 && self.purged_next - 1 == f.index,
                None => false,
            };
            if !agrees {
                return Err(ValidateError::PurgedNextMismatch);
            }
        }
        let last_purged = self.last_purged_log_id();
        if !opt_log_id_le_exec(&last_purged, &self.purge_upto) {
            return Err(ValidateError::PurgedAbovePurgeUpto);
        }
        match self.snapshot_meta.last_log_id {
            None => {
                if !opt_log_id_le_exec(&self.purge_upto, &self.committed) {
                    return Err(ValidateError::PurgeUptoAboveCommitted);
                }
            },
            Some(_) => {
                if !opt_log_id_le_exec(&self.purge_upto, &self.snapshot_meta.last_log_id) {
                    return Err(ValidateError::PurgeUptoAboveSnapshot);
                }
            },
        }
        if !opt_log_id_le_exec(&self.snapshot_meta.last_log_id, &self.committed) {
            return Err(ValidateError::SnapshotAboveCommitted);
        }
        let last = self.log_ids.last();
        if !opt_log_id_le_exec(&self.committed, &last) {
            return Err(ValidateError::CommittedAboveLastLogId);
        }
        if !self.membership_state.check() {
            return Err(ValidateError::MembershipInvalid);
        }
        Ok(())
    }

    /// Append a run of log ids that continues the local log.  Entry `i` must
    /// carry the index `i` past the current tail, and the entries' terms may
    /// not decrease, nor fall below the current last term: a log only ever
    /// grows in log order.
    pub fn extend_log_ids<LID: RaftLogId>(&mut self, new_log_ids: &Vec<LID>)
        requires
            old(self).valid(),
            forall|i: int|
                0 <= i < new_log_ids@.len() ==> (#[trigger] new_log_ids@[i].log_id_spec()).index
                    == next_index_of(old(self).last_log_id_spec()) + i,
            forall|i: int, j: int|
                0 <= i <= j < new_log_ids@.len() ==> new_log_ids@[i].log_id_spec().term
                    <= new_log_ids@[j].log_id_spec().term,
            old(self).last_log_id_spec() matches Some(last) ==> (new_log_ids@.len() > 0
                ==> last.term <= new_log_ids@[0].log_id_spec().term),
        ensures
            final(self).valid(),
            final(self).log_ids.log_ids@ == old(self).log_ids.log_ids@ + new_log_ids@.map_values(
                (|e: LID| e.log_id_spec()),
            ),
            final(self).last_log_id_spec() == (if new_log_ids@.len() == 0 {
                old(self).last_log_id_spec()
            } else {
                Some(new_log_ids@[new_log_ids@.len() - 1].log_id_spec())
            }),
            final(self).vote == old(self).vote,
            final(self).committed == old(self).committed,
            final(self).purged_next == old(self).purged_next,
            final(self).membership_state == old(self).membership_state,
            final(self).snapshot_meta == old(self).snapshot_meta,
            final(self).purge_upto == old(self).purge_upto,
            final(self).server_state == old(self).server_state,
    {
        self.log_ids.extend(new_log_ids);
        proof {
            let olds = old(self).log_ids.log_ids@;
            let news = self.log_ids.log_ids@;
            let mapped = new_log_ids@.map_values(|e: LID| e.log_id_spec());
            let n = new_log_ids@.len() as int;
            if n > 0 {
                assert(news[olds.len() as int + n - 1] == mapped[n - 1]);
                let newlast = new_log_ids@[n - 1].log_id_spec();
                assert(self.last_log_id_spec() == Some(newlast));
                match old(self).last_log_id_spec() {
                    Some(oldlast) => {
                        assert(news[0] == olds[0]);
                        assert(new_log_ids@[0].log_id_spec().term <= newlast.term);
                        assert(newlast.index == oldlast.index + n);
                        assert(log_id_le(oldlast, newlast));
                    },
                    None => {
                        assert(olds.len() == 0);
                        assert(news[0] == mapped[0]);
                        assert(self.log_ids.first_spec() == Some(new_log_ids@[0].log_id_spec()));
                        assert(new_log_ids@[0].log_id_spec().index == 0);
                        assert(old(self).purged_next == 0);
                        assert(old(self).committed is None);
                    },
                }
            } else {
                assert(news =~= olds);
            }
        }
    }

    /// Append a run of log ids that all stem from one leader epoch and
    /// continue the local log.
    pub fn extend_log_ids_from_same_leader<LID: RaftLogId>(&mut self, new_log_ids: &Vec<LID>)
        requires
            old(self).valid(),
            forall|i: int|
                0 <= i < new_log_ids@.len() ==> (#[trigger] new_log_ids@[i].log_id_spec()).index
                    == next_index_of(old(self).last_log_id_spec()) + i,
            forall|i: int, j: int|
                0 <= i < new_log_ids@.len() && 0 <= j < new_log_ids@.len()
                    ==> new_log_ids@[i].log_id_spec().term == new_log_ids@[j].log_id_spec().term,
            old(self).last_log_id_spec() matches Some(last) ==> (new_log_ids@.len() > 0
                ==> last.term <= new_log_ids@[0].log_id_spec().term),
        ensures
            final(self).valid(),
            final(self).log_ids.log_ids@ == old(self).log_ids.log_ids@ + new_log_ids@.map_values(
                (|e: LID| e.log_id_spec()),
            ),
            final(self).last_log_id_spec() == (if new_log_ids@.len() == 0 {
                old(self).last_log_id_spec()
            } else {
                Some(new_log_ids@[new_log_ids@.len() - 1].log_id_spec())
            }),
            final(self).vote == old(self).vote,
            final(self).committed == old(self).committed,
            final(self).purged_next == old(self).purged_next,
            final(self).membership_state == old(self).membership_state,
            final(self).snapshot_meta == old(self).snapshot_meta,
            final(self).purge_upto == old(self).purge_upto,
            final(self).server_state == old(self).server_state,
    {
        self.extend_log_ids(new_log_ids)
    }

    /// Update the committed log id if the input is greater; on an update the
    /// previous value comes back in `Some`, and the membership record is
    /// told of the new commit point.  A non-advancing input changes nothing
    /// and reports `None`: commit is monotone.
    pub fn update_committed(&mut self, committed: &Option<LogId>) -> (r: Option<Option<LogId>>)
        requires
            old(self).valid(),
            opt_log_id_lt(old(self).committed, *committed) ==> opt_log_id_le(
                *committed,
                old(self).last_log_id_spec(),
            ),
        ensures
            final(self).valid(),
            final(self).committed == opt_log_id_max(old(self).committed, *committed),
            r is Some <==> opt_log_id_lt(old(self).committed, *committed),
            opt_log_id_lt(old(self).committed, *committed) ==> {
                &&& r == Some(old(self).committed)
                &&& final(self).committed == *committed
                &&& commit_relation(
                    old(self).membership_state,
                    final(self).membership_state,
                    *committed,
                )
            },
            !opt_log_id_lt(old(self).committed, *committed) ==> *final(self) == *old(self),
            final(self).vote == old(self).vote,
            final(self).purged_next == old(self).purged_next,
            final(self).log_ids == old(self).log_ids,
            final(self).snapshot_meta == old(self).snapshot_meta,
            final(self).purge_upto == old(self).purge_upto,
            final(self).server_state == old(self).server_state,
    {
        if opt_log_id_lt_exec(&self.committed, committed) {
            let prev = self.committed;
            self.committed = *committed;
            self.membership_state.commit(committed);
            Some(prev)
        } else {
            None
        }
    }

    /// Find the position of the first entry in the input whose log id the
    /// local log does not hold: the earliest divergence point between an
    /// incoming stream and local history.  Returns the input's length when
    /// every entry already matches.
    pub fn first_conflicting_index<Ent: RaftLogId>(&self, entries: &Vec<Ent>) -> (r: usize)
        requires
            self.log_ids.wf(),
        ensures
            r <= entries@.len(),
            forall|j: int|
                0 <= j < r ==> self.has_log_id_spec(#[trigger] entries@[j].log_id_spec()),
            r < entries@.len() ==> !self.has_log_id_spec(entries@[r as int].log_id_spec()),
    {
        let l = entries.len();
        let mut i: usize = 0;
        while i < l
            invariant
                self.log_ids.wf(),
                0 <= i <= entries@.len(),
                l == entries@.len(),
                forall|j: int|
                    0 <= j < i ==> self.has_log_id_spec(#[trigger] entries@[j].log_id_spec()),
            decreases entries@.len() - i,
        {
            let log_id = entries[i].get_log_id();
            if !self.has_log_id(&log_id) {
                return i;
            }
            i = i + 1;
        }
        l
    }

    /// Advance the purge boundary to just past `upto` and discard every
    /// retained log id below it.  `upto` must be a log id the node holds and
    /// must not pass the pending purge-upto watermark.
    pub fn purge_log(&mut self, upto: &LogId)
        requires
            old(self).valid(),
            old(self).log_ids.get_spec(upto.index) == Some(*upto),
            opt_log_id_le(Some(*upto), old(self).purge_upto),
            upto.index < u64::MAX,
        ensures
            final(self).valid(),
            final(self).purged_next == upto.index + 1,
            final(self).last_purged_log_id_spec() == Some(*upto),
            final(self).last_log_id_spec() == old(self).last_log_id_spec(),
            final(self).log_ids.log_ids@ == old(self).log_ids.log_ids@.skip(
                upto.index - old(self).log_ids.log_ids@[0].index,
            ),
            final(self).vote == old(self).vote,
            final(self).committed == old(self).committed,
            final(self).membership_state == old(self).membership_state,
            final(self).snapshot_meta == old(self).snapshot_meta,
            final(self).purge_upto == old(self).purge_upto,
            final(self).server_state == old(self).server_state,
    {
        self.purged_next = upto.index + 1;
        self.log_ids.purge(upto);
    }

    /// Whether `id` counts toward quorum in the effective membership.
    pub open spec fn is_voter_spec(self, id: u64) -> bool {
        self.membership_state.effective.membership.is_voter_spec(id)
    }

    /// Whether `id` is the claimed leader: candidate (claim pending a
    /// quorum) or leader (claim granted).
    pub open spec fn is_leading_spec(self, id: u64) -> bool {
        self.vote.data.voted_for == Some(id)
    }

    /// Whether `id` is the established leader: claimed and granted by a
    /// quorum.
    pub open spec fn is_leader_spec(self, id: u64) -> bool {
        self.is_leading_spec(id) && self.vote.data.committed
    }

    /// The role `id` plays, derived from vote and membership: a non-voter is
    /// a learner whatever it believes; a voter is leader if its claim is
    /// granted, candidate if its claim is pending, else follower.
    pub open spec fn calc_server_state_spec(self, id: u64) -> ServerState {
        if !self.is_voter_spec(id) {
            ServerState::Learner
        } else if self.is_leader_spec(id) {
            ServerState::Leader
        } else if self.is_leading_spec(id) {
            ServerState::Candidate
        } else {
            ServerState::Follower
        }
    }

    /// Whether `id` counts toward quorum in the effective membership.
    pub fn is_voter(&self, id: u64) -> (r: bool)
        ensures
            r == self.is_voter_spec(id),
    {
        self.membership_state.is_voter(id)
    }

    /// Whether `id` is the claimed leader, granted or not.
    pub fn is_leading(&self, id: u64) -> (r: bool)
        ensures
            r == self.is_leading_spec(id),
    {
        match self.vote.data.voted_for {
            Some(v) => v == id,
            None => false,
        }
    }

    /// Whether `id` is the leader whose claim a quorum has granted.
    pub fn is_leader(&self, id: u64) -> (r: bool)
        ensures
            r == self.is_leader_spec(id),
    {
        self.is_leading(id) && self.vote.data.committed
    }

    /// Determine the current server state of node `id`: a pure derivation
    /// from vote and membership, nothing stored.
    pub fn calc_server_state(&self, id: u64) -> (r: ServerState)
        ensures
            r == self.calc_server_state_spec(id),
    {
        if self.is_voter(id) {
            if self.is_leader(id) {
                ServerState::Leader
            } else if self.is_leading(id) {
                ServerState::Candidate
            } else {
                ServerState::Follower
            }
        } else {
            ServerState::Learner
        }
    }

    /// Assign sequential log ids to a batch of fresh entries, in place:
    /// entry `i` gets the committed leader's epoch and the index `i` past
    /// the current last log id.  Only a node whose vote carries a committed
    /// leader claim may call this.
    pub fn assign_log_ids<Ent: RaftLogId>(&mut self, entries: &mut Vec<Ent>)
        requires
            old(self).vote.data.committed_leader_id_spec() is Some,
            old(entries)@.len() > 0 ==> next_index_of(old(self).last_log_id_spec()) + old(
                entries,
            )@.len() - 1 <= u64::MAX,
        ensures
            *final(self) == *old(self),
            final(entries)@.len() == old(entries)@.len(),
            forall|j: int|
                0 <= j < old(entries)@.len() ==> (#[trigger] final(entries)@[j].log_id_spec())
                    == (LogId {
                    term: old(self).vote.data.term,
                    index: (next_index_of(old(self).last_log_id_spec()) + j) as u64,
                }),
    {
        if entries.len() == 0 {
            return ;
        }
        let term = self.vote.data.term;
        let start: u64 = match self.log_ids.last() {
            None => 0,
            Some(l) => l.index + 1,
        };
        let n = entries.len();
        let mut i: usize = 0;
        while i < n
            invariant
                0 < n == entries@.len() == old(entries)@.len(),
                0 <= i <= n,
                term == old(self).vote.data.term,
                start == next_index_of(old(self).last_log_id_spec()),
                start + n - 1 <= u64::MAX,
                forall|j: int|
                    0 <= j < i ==> (#[trigger] entries@[j].log_id_spec()) == (LogId {
                        term: old(self).vote.data.term,
                        index: (start + j) as u64,
                    }),
            decreases n - i,
        {
            let index: u64 = start + i as u64;
            let e = &mut entries[i];
            e.set_log_id(&(LogId { term, index }));
            i = i + 1;
        }
    }

    /// The forwarding target this state yields: the committed leader and its
    /// metadata while that leader is still in the effective membership, else
    /// the empty result.
    pub open spec fn forward_to_leader_spec(self) -> ForwardToLeader {
        match self.vote.data.voted_for {
            Some(l) => if self.vote.data.committed {
                match self.membership_state.effective.membership.get_node_spec(l) {
                    Some(n) => ForwardToLeader { leader_id: Some(l), leader_node: Some(n) },
                    None => ForwardToLeader { leader_id: None, leader_node: None },
                }
            } else {
                ForwardToLeader { leader_id: None, leader_node: None }
            },
            None => ForwardToLeader { leader_id: None, leader_node: None },
        }
    }

    /// Build the forwarding metadata for client requests that arrived at a
    /// non-leader: the committed leader's id and metadata if it is still in
    /// the effective membership, else the empty result.  A deposed leader
    /// may not have stepped down locally yet, so membership is what decides;
    /// an unknown leader is an ordinary outcome, not an error.
    pub fn forward_to_leader(&self) -> (r: ForwardToLeader)
        requires
            self.membership_state.effective.membership.wf(),
        ensures
            r == self.forward_to_leader_spec(),
    {
        if self.vote.data.committed {
            if let Some(id) = self.vote.data.voted_for {
                let node = self.membership_state.effective.membership.get_node(id);
                if let Some(n) = node {
                    return ForwardToLeader::new(id, n);
                }
            }
        }
        ForwardToLeader::empty()
    }
}

impl Default for RaftState {
    /// The state of a fresh node: nothing voted, nothing logged, nothing
    /// committed, nothing purged, empty membership, no snapshot.
    fn default() -> (r: Self)
        ensures
            r.vote.data == (Vote { term: 0, voted_for: None, committed: false }),
            r.vote.utime is None,
            r.committed is None,
            r.purged_next == 0,
            r.log_ids.log_ids@ == Seq::<LogId>::empty(),
            r.membership_state.committed.log_id is None,
            r.membership_state.committed.membership.voters@ == Seq::<u64>::empty(),
            r.membership_state.committed.membership.nodes@.len() == 0,
            r.membership_state.effective.log_id is None,
            r.membership_state.effective.membership.voters@ == Seq::<u64>::empty(),
            r.membership_state.effective.membership.nodes@.len() == 0,
            r.snapshot_meta.last_log_id is None,
            r.server_state == ServerState::Learner,
            r.purge_upto is None,
            r.valid(),
    {
        RaftState {
            vote: UTime::without_utime(Vote { term: 0, voted_for: None, committed: false }),
            committed: None,
            purged_next: 0,
            log_ids: LogIdList::new(),
            membership_state: MembershipState {
                committed: crate::membership::StoredMembership {
                    log_id: None,
                    membership: crate::membership::Membership {
                        voters: Vec::new(),
                        nodes: Vec::new(),
                    },
                },
                effective: crate::membership::StoredMembership {
                    log_id: None,
                    membership: crate::membership::Membership {
                        voters: Vec::new(),
                        nodes: Vec::new(),
                    },
                },
            },
            snapshot_meta: SnapshotMeta { last_log_id: None },
            server_state: ServerState::Learner,
            purge_upto: None,
        }
    }
}

} // verus!
