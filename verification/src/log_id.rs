use vstd::prelude::*;

verus! {

/// Identifier of a log entry: the leader epoch (`term`) under which the entry
/// was written, and the entry's position in the log.
///
/// Log ids are totally ordered, lexicographically by `(term, index)`.
#[derive(Clone, Copy, Debug, PartialEq, Eq, Structural)]
pub struct LogId {
    pub term: u64,
    pub index: u64,
}

/// Strict lexicographic order on log ids.
pub open spec fn log_id_lt(a: LogId, b: LogId) -> bool {
    a.term < b.term || (a.term == b.term && a.index < b.index)
}

/// Reflexive lexicographic order on log ids.
pub open spec fn log_id_le(a: LogId, b: LogId) -> bool {
    log_id_lt(a, b) || a == b
}

/// Strict order on optional log ids: an absent log id sorts below every
/// present one, as the order on `Option` does in the original bookkeeping.
pub open spec fn opt_log_id_lt(a: Option<LogId>, b: Option<LogId>) -> bool {
    match (a, b) {
        (Option::None, Option::None) => false,
        (Option::None, Option::Some(_)) => true,
        (Option::Some(_), Option::None) => false,
        (Option::Some(x), Option::Some(y)) => log_id_lt(x, y),
    }
}

/// Reflexive order on optional log ids.
pub open spec fn opt_log_id_le(a: Option<LogId>, b: Option<LogId>) -> bool {
    opt_log_id_lt(a, b) || a == b
}

/// The greater of two optional log ids.
pub open spec fn opt_log_id_max(a: Option<LogId>, b: Option<LogId>) -> Option<LogId> {
    if opt_log_id_lt(a, b) {
        b
    } else {
        a
    }
}

/// The index that would follow `a`: 0 when there is no log id yet, else one
/// past `a`'s index.  Stated over `int` so that it is defined for every value.
pub open spec fn next_index_of(a: Option<LogId>) -> int {
    match a {
        Option::None => 0,
        Option::Some(l) => l.index + 1,
    }
}

impl LogId {
    /// Decides the strict lexicographic order.
    pub fn lt(&self, other: &LogId) -> (r: bool)
        ensures
            r == log_id_lt(*self, *other),
    {
        self.term < other.term || (self.term == other.term && self.index < other.index)
    }
}

/// Decides the strict order on optional log ids.
pub fn opt_log_id_lt_exec(a: &Option<LogId>, b: &Option<LogId>) -> (r: bool)
    ensures
        r == opt_log_id_lt(*a, *b),
{
    match (a, b) {
        (Option::None, Option::None) => false,
        (Option::None, Option::Some(_)) => true,
        (Option::Some(_), Option::None) => false,
        (Option::Some(x), Option::Some(y)) => x.lt(y),
    }
}

/// Decides the reflexive order on optional log ids.
pub fn opt_log_id_le_exec(a: &Option<LogId>, b: &Option<LogId>) -> (r: bool)
    ensures
        r == opt_log_id_le(*a, *b),
{
    match (a, b) {
        (Option::None, Option::None) => true,
        (Option::None, Option::Some(_)) => true,
        (Option::Some(_), Option::None) => false,
        (Option::Some(x), Option::Some(y)) => x.lt(y) || (x.term == y.term && x.index == y.index),
    }
}

/// Anything that carries a log id: log entries, or bare log ids themselves.
/// Batch operations on the state read and assign entry log ids through it.
pub trait RaftLogId: Sized {
    /// The log id this value carries.
    spec fn log_id_spec(&self) -> LogId;

    /// Read the carried log id.
    fn get_log_id(&self) -> (r: LogId)
        ensures
            r == self.log_id_spec(),
    ;

    /// Replace the carried log id.
    fn set_log_id(&mut self, log_id: &LogId)
        ensures
            final(self).log_id_spec() == *log_id,
    ;
}

impl RaftLogId for LogId {
    open spec fn log_id_spec(&self) -> LogId {
        *self
    }

    fn get_log_id(&self) -> (r: LogId) {
        *self
    }

    fn set_log_id(&mut self, log_id: &LogId) {
        *self = *log_id;
    }
}

} // verus!
