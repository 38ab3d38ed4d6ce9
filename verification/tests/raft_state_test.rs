use raft_state::log_id::LogId;
use raft_state::membership::{BasicNode, Member, Membership, MembershipState, StoredMembership};
use raft_state::raft_state::{RaftState, ServerState, ValidateError};
use raft_state::vote::{UTime, Vote};

fn log_id(term: u64, index: u64) -> LogId {
    LogId { term, index }
}

/// A state holding log ids (1,0) (1,1) (2,2), nothing committed or purged.
fn state_with_log() -> RaftState {
    let mut s = RaftState::default();
    s.extend_log_ids(&vec![log_id(1, 0), log_id(1, 1)]);
    s.extend_log_ids(&vec![log_id(2, 2)]);
    s
}

fn membership_of(voters: Vec<u64>, members: Vec<(u64, &str)>, at: Option<LogId>) -> StoredMembership {
    StoredMembership {
        log_id: at,
        membership: Membership {
            voters,
            nodes: members
                .into_iter()
                .map(|(id, addr)| Member { id, node: BasicNode::new(addr.to_string()) })
                .collect(),
        },
    }
}

#[test]
fn fresh_state_is_valid() {
    let s = RaftState::default();
    assert!(s.validate().is_ok());
    assert_eq!(s.last_log_id(), None);
    assert_eq!(s.committed(), None);
    assert_eq!(s.last_purged_log_id(), None);
    assert_eq!(s.purge_upto(), None);
    assert_eq!(s.snapshot_last_log_id(), None);
    assert_eq!(s.vote_last_modified(), None);
}

#[test]
fn extend_log_ids_appends_in_order() {
    let s = state_with_log();
    assert_eq!(s.last_log_id(), Some(log_id(2, 2)));
    assert_eq!(s.get_log_id(0), Some(log_id(1, 0)));
    assert_eq!(s.get_log_id(1), Some(log_id(1, 1)));
    assert_eq!(s.get_log_id(2), Some(log_id(2, 2)));
    assert_eq!(s.get_log_id(3), None);
    assert!(s.validate().is_ok());
}

#[test]
fn extend_log_ids_from_same_leader_appends_in_order() {
    let mut s = RaftState::default();
    s.extend_log_ids_from_same_leader(&vec![log_id(3, 0), log_id(3, 1), log_id(3, 2)]);
    assert_eq!(s.last_log_id(), Some(log_id(3, 2)));
    assert_eq!(s.get_log_id(1), Some(log_id(3, 1)));
    assert!(s.validate().is_ok());
}

#[test]
fn update_committed_advances_and_reports_previous() {
    let mut s = state_with_log();
    let r = s.update_committed(&Some(log_id(1, 1)));
    assert_eq!(r, Some(None));
    assert_eq!(s.committed(), Some(log_id(1, 1)));
    let r = s.update_committed(&Some(log_id(2, 2)));
    assert_eq!(r, Some(Some(log_id(1, 1))));
    assert_eq!(s.committed(), Some(log_id(2, 2)));
}

#[test]
fn update_committed_ignores_non_advancing_input() {
    let mut s = state_with_log();
    s.update_committed(&Some(log_id(2, 2)));
    // A smaller candidate, an equal one, and an absent one are all no-ops.
    assert_eq!(s.update_committed(&Some(log_id(1, 1))), None);
    assert_eq!(s.update_committed(&Some(log_id(2, 2))), None);
    assert_eq!(s.update_committed(&None), None);
    assert_eq!(s.committed(), Some(log_id(2, 2)));
}

#[test]
fn committed_is_max_of_all_candidates() {
    let mut s = state_with_log();
    let candidates = [
        Some(log_id(1, 0)),
        Some(log_id(2, 2)),
        None,
        Some(log_id(1, 1)),
    ];
    let mut previous_returns = Vec::new();
    for c in candidates.iter() {
        if let Some(prev) = s.update_committed(c) {
            previous_returns.push(prev);
        }
    }
    // The final value is the maximum candidate; every returned "previous"
    // value is below it.
    assert_eq!(s.committed(), Some(log_id(2, 2)));
    assert_eq!(previous_returns, vec![None, Some(log_id(1, 0))]);
    assert!(s.validate().is_ok());
}

#[test]
fn first_conflicting_index_finds_divergence() {
    let s = state_with_log();
    // First two match local history, the third does not: divergence at 2.
    let entries = vec![log_id(1, 0), log_id(1, 1), log_id(1, 2)];
    assert_eq!(s.first_conflicting_index(&entries), 2);
    // Immediate mismatch: 0.
    assert_eq!(s.first_conflicting_index(&vec![log_id(9, 0)]), 0);
    // Everything matches: the input length.
    let all = vec![log_id(1, 0), log_id(1, 1), log_id(2, 2)];
    assert_eq!(s.first_conflicting_index(&all), 3);
    // An empty batch never conflicts.
    assert_eq!(s.first_conflicting_index(&Vec::<LogId>::new()), 0);
}

#[test]
fn has_log_id_compares_term_and_index() {
    let s = state_with_log();
    assert!(s.has_log_id(&log_id(1, 1)));
    assert!(!s.has_log_id(&log_id(2, 1)));
    assert!(!s.has_log_id(&log_id(1, 3)));
}

#[test]
fn purge_log_moves_the_boundary() {
    let mut s = state_with_log();
    s.update_committed(&Some(log_id(2, 2)));
    s.purge_upto = Some(log_id(1, 1));
    s.purge_log(&log_id(1, 1));
    assert_eq!(s.last_purged_log_id(), Some(log_id(1, 1)));
    assert_eq!(s.purged_next, 2);
    // The log id purged up to stays as boundary marker; earlier ones are gone.
    assert_eq!(s.get_log_id(0), None);
    assert_eq!(s.get_log_id(1), Some(log_id(1, 1)));
    assert_eq!(s.get_log_id(2), Some(log_id(2, 2)));
    assert_eq!(s.last_log_id(), Some(log_id(2, 2)));
    assert!(s.validate().is_ok());
}

#[test]
fn roles_follow_vote_and_membership() {
    let mut s = RaftState::default();
    s.membership_state = MembershipState {
        committed: membership_of(vec![1, 2], vec![(1, "n1"), (2, "n2"), (3, "n3")], None),
        effective: membership_of(vec![1, 2], vec![(1, "n1"), (2, "n2"), (3, "n3")], None),
    };
    s.vote = UTime::without_utime(Vote { term: 7, voted_for: Some(1), committed: true });
    assert_eq!(s.calc_server_state(1), ServerState::Leader);
    assert_eq!(s.calc_server_state(2), ServerState::Follower);
    // Node 3 is a member but not a voter: a learner.
    assert_eq!(s.calc_server_state(3), ServerState::Learner);
    assert!(s.is_leader(1));
    assert!(s.is_leading(1));
    assert!(s.is_voter(2));
    assert!(!s.is_voter(3));

    // An uncommitted claim makes the claimant a candidate.
    s.vote = UTime::without_utime(Vote { term: 8, voted_for: Some(2), committed: false });
    assert_eq!(s.calc_server_state(2), ServerState::Candidate);
    assert!(s.is_leading(2));
    assert!(!s.is_leader(2));
}

#[test]
fn role_derivation_is_deterministic() {
    let mut s = RaftState::default();
    s.membership_state = MembershipState {
        committed: membership_of(vec![1], vec![(1, "n1")], None),
        effective: membership_of(vec![1], vec![(1, "n1")], None),
    };
    s.vote = UTime::without_utime(Vote { term: 1, voted_for: Some(1), committed: true });
    assert_eq!(s.calc_server_state(1), s.calc_server_state(1));
    // Removing the id from the voters yields Learner regardless of the vote.
    s.membership_state.effective.membership.voters = vec![2];
    assert_eq!(s.calc_server_state(1), ServerState::Learner);
}

#[test]
fn forward_to_leader_returns_leader_and_node() {
    let mut s = RaftState::default();
    s.membership_state = MembershipState {
        committed: membership_of(vec![1, 2], vec![(1, "addr-one"), (2, "addr-two")], None),
        effective: membership_of(vec![1, 2], vec![(1, "addr-one"), (2, "addr-two")], None),
    };
    s.vote = UTime::without_utime(Vote { term: 3, voted_for: Some(2), committed: true });
    let f = s.forward_to_leader();
    assert_eq!(f.leader_id, Some(2));
    assert_eq!(f.leader_node.map(|n| n.addr), Some("addr-two".to_string()));
}

#[test]
fn forward_to_leader_empty_when_leader_left_membership() {
    let mut s = RaftState::default();
    s.membership_state = MembershipState {
        committed: membership_of(vec![1], vec![(1, "n1")], None),
        effective: membership_of(vec![1], vec![(1, "n1")], None),
    };
    // Committed vote for a node that is no longer in the membership.
    s.vote = UTime::without_utime(Vote { term: 3, voted_for: Some(9), committed: true });
    let f = s.forward_to_leader();
    assert_eq!(f.leader_id, None);
    assert!(f.leader_node.is_none());
}

#[test]
fn forward_to_leader_empty_without_committed_vote() {
    let mut s = RaftState::default();
    s.membership_state = MembershipState {
        committed: membership_of(vec![1], vec![(1, "n1")], None),
        effective: membership_of(vec![1], vec![(1, "n1")], None),
    };
    s.vote = UTime::without_utime(Vote { term: 3, voted_for: Some(1), committed: false });
    let f = s.forward_to_leader();
    assert_eq!(f.leader_id, None);
    assert!(f.leader_node.is_none());
}

#[test]
fn assign_log_ids_numbers_a_batch_sequentially() {
    let mut s = state_with_log();
    s.vote = UTime::without_utime(Vote { term: 5, voted_for: Some(1), committed: true });
    let mut entries = vec![log_id(0, 0), log_id(0, 0), log_id(0, 0)];
    s.assign_log_ids(&mut entries);
    assert_eq!(entries, vec![log_id(5, 3), log_id(5, 4), log_id(5, 5)]);
    // The state itself is untouched.
    assert_eq!(s.last_log_id(), Some(log_id(2, 2)));
}

#[test]
fn assign_log_ids_starts_at_zero_on_an_empty_log() {
    let mut s = RaftState::default();
    s.vote = UTime::without_utime(Vote { term: 2, voted_for: Some(1), committed: true });
    let mut entries = vec![log_id(0, 0), log_id(0, 0)];
    s.assign_log_ids(&mut entries);
    assert_eq!(entries, vec![log_id(2, 0), log_id(2, 1)]);
}

#[test]
fn vote_accessors_return_the_stored_vote() {
    let mut s = RaftState::default();
    let now = tokio::time::Instant::now();
    s.vote = UTime::new(Vote { term: 4, voted_for: Some(7), committed: true }, Some(now));
    let v = s.vote_ref();
    assert_eq!(v.term, 4);
    assert_eq!(v.voted_for, Some(7));
    assert!(v.is_committed());
    assert_eq!(v.committed_leader_id(), Some(4));
    assert_eq!(s.vote_last_modified(), Some(now));
}

#[test]
fn committed_leader_id_absent_while_uncommitted() {
    let v = Vote { term: 4, voted_for: Some(7), committed: false };
    assert_eq!(v.committed_leader_id(), None);
    assert_eq!(v.voted_for(), Some(7));
    assert!(!v.is_committed());
}

#[test]
fn validate_reports_first_log_id_index() {
    let mut s = RaftState::default();
    // A retained log id at a nonzero index although nothing was purged.
    s.log_ids.log_ids = vec![log_id(1, 5)];
    assert_eq!(s.validate(), Err(ValidateError::FirstLogIdIndexNotZero));
}

#[test]
fn validate_reports_purged_next_mismatch() {
    let mut s = state_with_log();
    s.purged_next = 5;
    assert_eq!(s.validate(), Err(ValidateError::PurgedNextMismatch));
}

#[test]
fn validate_reports_purged_above_purge_upto() {
    let mut s = state_with_log();
    s.update_committed(&Some(log_id(2, 2)));
    s.purge_upto = Some(log_id(1, 1));
    s.purge_log(&log_id(1, 1));
    // Pulling the watermark back below the purge boundary breaks the record.
    s.purge_upto = Some(log_id(1, 0));
    assert_eq!(s.validate(), Err(ValidateError::PurgedAbovePurgeUpto));
}

#[test]
fn validate_reports_purge_upto_above_committed() {
    let mut s = state_with_log();
    s.update_committed(&Some(log_id(1, 1)));
    s.purge_upto = Some(log_id(2, 2));
    assert_eq!(s.validate(), Err(ValidateError::PurgeUptoAboveCommitted));
}

#[test]
fn validate_reports_purge_upto_above_snapshot() {
    let mut s = state_with_log();
    s.update_committed(&Some(log_id(2, 2)));
    s.snapshot_meta.last_log_id = Some(log_id(1, 1));
    s.purge_upto = Some(log_id(2, 2));
    assert_eq!(s.validate(), Err(ValidateError::PurgeUptoAboveSnapshot));
}

#[test]
fn validate_reports_snapshot_above_committed() {
    let mut s = state_with_log();
    s.update_committed(&Some(log_id(1, 1)));
    s.snapshot_meta.last_log_id = Some(log_id(2, 2));
    assert_eq!(s.validate(), Err(ValidateError::SnapshotAboveCommitted));
}

#[test]
fn validate_reports_committed_above_last_log_id() {
    let mut s = state_with_log();
    s.committed = Some(log_id(3, 3));
    assert_eq!(s.validate(), Err(ValidateError::CommittedAboveLastLogId));
}

#[test]
fn validate_reports_membership_invalid() {
    let mut s = RaftState::default();
    // Voter 9 is not listed among the members.
    s.membership_state.effective.membership.voters = vec![9];
    assert_eq!(s.validate(), Err(ValidateError::MembershipInvalid));

    // Duplicate member ids are refused too.
    let mut s = RaftState::default();
    s.membership_state = MembershipState {
        committed: membership_of(vec![], vec![(1, "a"), (1, "b")], None),
        effective: membership_of(vec![], vec![], None),
    };
    assert_eq!(s.validate(), Err(ValidateError::MembershipInvalid));

    // A committed configuration newer than the effective one is refused.
    let mut s = RaftState::default();
    s.membership_state.committed.log_id = Some(log_id(1, 1));
    assert_eq!(s.validate(), Err(ValidateError::MembershipInvalid));
}

#[test]
fn invariants_hold_along_a_whole_history() {
    let mut s = RaftState::default();
    s.membership_state = MembershipState {
        committed: membership_of(vec![1, 2, 3], vec![(1, "a"), (2, "b"), (3, "c")], None),
        effective: membership_of(vec![1, 2, 3], vec![(1, "a"), (2, "b"), (3, "c")], Some(log_id(1, 0))),
    };
    s.vote = UTime::without_utime(Vote { term: 1, voted_for: Some(1), committed: true });
    assert!(s.validate().is_ok());

    s.extend_log_ids(&vec![log_id(1, 0), log_id(1, 1)]);
    assert!(s.validate().is_ok());

    s.update_committed(&Some(log_id(1, 0)));
    assert!(s.validate().is_ok());
    // The commit point reached the effective configuration's entry, so the
    // committed configuration caught up with it.
    assert_eq!(s.membership_state.committed().log_id, Some(log_id(1, 0)));

    s.extend_log_ids_from_same_leader(&vec![log_id(2, 2), log_id(2, 3)]);
    assert!(s.validate().is_ok());

    s.update_committed(&Some(log_id(2, 3)));
    assert!(s.validate().is_ok());

    s.purge_upto = Some(log_id(1, 1));
    assert!(s.validate().is_ok());
    s.purge_log(&log_id(1, 1));
    assert!(s.validate().is_ok());
    assert_eq!(s.last_purged_log_id(), Some(log_id(1, 1)));
    assert_eq!(s.committed(), Some(log_id(2, 3)));
    assert_eq!(s.last_log_id(), Some(log_id(2, 3)));
}

#[test]
fn membership_lookup_and_commit() {
    let mut m = MembershipState {
        committed: membership_of(vec![1], vec![(1, "a")], None),
        effective: membership_of(vec![1, 2], vec![(1, "a"), (2, "b")], Some(log_id(1, 3))),
    };
    assert!(m.is_voter(2));
    assert!(!m.is_voter(9));
    let n = m.effective().membership.get_node(2);
    assert_eq!(n.map(|b| b.addr), Some("b".to_string()));
    assert_eq!(m.effective().membership.get_node(9).map(|b| b.addr), None);

    // Below the effective configuration's entry: nothing retired.
    m.commit(&Some(log_id(1, 2)));
    assert_eq!(m.committed().log_id, None);
    // At it: the effective configuration supersedes the previous one.
    m.commit(&Some(log_id(1, 3)));
    assert_eq!(m.committed().log_id, Some(log_id(1, 3)));
    assert_eq!(m.committed().membership.voters, vec![1, 2]);
}
