use vstd::prelude::*;
use crate::log_id::{LogId, opt_log_id_le, opt_log_id_max};
use crate::raft_state::{RaftState, ServerState};

verus! {

/// The committed log id left behind by a sequence of commit candidates,
/// starting from `c0`: each candidate in turn replaces the value exactly
/// when it is greater, which is what one `update_committed` call ensures
/// (`final(self).committed == opt_log_id_max(old(self).committed, *committed)`).
pub open spec fn committed_after(c0: Option<LogId>, cands: Seq<Option<LogId>>) -> Option<LogId>
    decreases cands.len(),
{
    if cands.len() == 0 {
        c0
    } else {
        committed_after(opt_log_id_max(c0, cands[0]), cands.drop_first())
    }
}

/// Monotone commit, the whole-sequence view: after any sequence of commit
/// candidates the committed value is the maximum of the starting value and
/// every candidate ever offered — it is an upper bound of all of them, and
/// it is one of them (or the starting value).
pub proof fn lemma_committed_after_is_max(c0: Option<LogId>, cands: Seq<Option<LogId>>)
    ensures
        opt_log_id_le(c0, committed_after(c0, cands)),
        forall|i: int|
            0 <= i < cands.len() ==> opt_log_id_le(#[trigger] cands[i], committed_after(c0, cands)),
        committed_after(c0, cands) == c0 || cands.contains(committed_after(c0, cands)),
    decreases cands.len(),
{
    if cands.len() > 0 {
        let m = opt_log_id_max(c0, cands[0]);
        let d = cands.drop_first();
        lemma_committed_after_is_max(m, d);
        assert(opt_log_id_le(c0, m));
        assert(opt_log_id_le(cands[0], m));
        assert forall|i: int|
            0 <= i < cands.len() implies opt_log_id_le(
            #[trigger] cands[i],
            committed_after(c0, cands),
        ) by {
            if i > 0 {
                assert(cands[i] == d[i - 1]);
            }
        }
        if committed_after(m, d) == m {
            assert(m == c0 || m == cands[0]);
        } else {
            assert(d.contains(committed_after(m, d)));
            let w = choose|w: int| 0 <= w < d.len() && d[w] == committed_after(m, d);
            assert(cands[w + 1] == d[w]);
        }
    }
}

/// Monotone commit, the history view: the committed value observed after a
/// prefix of the candidate sequence — in particular any previously returned
/// "previous value" — is never greater than the value after the whole
/// sequence.
pub proof fn lemma_committed_after_prefix_le(c0: Option<LogId>, cands: Seq<Option<LogId>>, i: int)
    requires
        0 <= i <= cands.len(),
    ensures
        opt_log_id_le(committed_after(c0, cands.take(i)), committed_after(c0, cands)),
    decreases i,
{
    if i == 0 {
        assert(cands.take(0) =~= Seq::<Option<LogId>>::empty());
        lemma_committed_after_is_max(c0, cands);
    } else {
        let m = opt_log_id_max(c0, cands[0]);
        let d = cands.drop_first();
        assert(cands.take(i)[0] == cands[0]);
        assert(cands.take(i).drop_first() =~= d.take(i - 1));
        lemma_committed_after_prefix_le(m, d, i - 1);
    }
}

/// Conflict-detection correctness: a position that meets the contract of
/// `first_conflicting_index` — every entry before it matches the local log
/// and the entry at it (if any) does not — is unique.  So when the first
/// `k` entries' log ids match the local log and entry `k + 1` does not, the
/// function returns exactly `k`, and when all match it returns the length.
pub proof fn lemma_first_conflicting_index_exact(s: RaftState, lids: Seq<LogId>, r: int, k: int)
    requires
        0 <= r <= lids.len(),
        forall|j: int| 0 <= j < r ==> s.has_log_id_spec(#[trigger] lids[j]),
        r < lids.len() ==> !s.has_log_id_spec(lids[r]),
        0 <= k <= lids.len(),
        forall|j: int| 0 <= j < k ==> s.has_log_id_spec(#[trigger] lids[j]),
        k < lids.len() ==> !s.has_log_id_spec(lids[k]),
    ensures
        r == k,
{
    if r < k {
        assert(s.has_log_id_spec(lids[r]));
        assert(false);
    }
    if k < r {
        assert(s.has_log_id_spec(lids[k]));
        assert(false);
    }
}

/// Role derivation is a pure function of vote and effective voter set: two
/// states that agree on those yield the same role for every id.
pub proof fn lemma_role_is_derived(a: RaftState, b: RaftState, id: u64)
    requires
        a.vote.data == b.vote.data,
        a.membership_state.effective.membership.voters@
            == b.membership_state.effective.membership.voters@,
    ensures
        a.calc_server_state_spec(id) == b.calc_server_state_spec(id),
{
}

/// A node that is not a voter in the effective membership derives Learner,
/// whatever its vote claims.
pub proof fn lemma_removed_voter_is_learner(s: RaftState, id: u64)
    requires
        !s.is_voter_spec(id),
    ensures
        s.calc_server_state_spec(id) == ServerState::Learner,
{
}

} // verus!
