//! Node-local consensus state for a Raft participant: vote tracking, log-id
//! bookkeeping, commit advancement, conflict detection, purge bookkeeping,
//! role computation, and leader-forwarding metadata, with the record's
//! invariants stated and proved on every mutator.

pub mod log_id;
pub mod vote;
pub mod log_id_list;
pub mod membership;
pub mod raft_state;
pub mod laws;
