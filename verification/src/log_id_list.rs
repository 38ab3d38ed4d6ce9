use vstd::prelude::*;
use crate::log_id::{LogId, RaftLogId, next_index_of};

verus! {

/// The ordered record of the log ids this node retains: one log id per held
/// index, over one contiguous index range.  After a purge the log id purged
/// up to stays as the first element, marking the purge boundary.
pub struct LogIdList {
    pub log_ids: Vec<LogId>,
}

impl LogIdList {
    /// Each element's stored index agrees with its position: the record
    /// covers one contiguous, gap-free range of indices.
    pub open spec fn wf(self) -> bool {
        forall|i: int|
            0 <= i < self.log_ids@.len() ==> (#[trigger] self.log_ids@[i]).index
                == self.log_ids@[0].index + i
    }

    /// The first retained log id, if any.
    pub open spec fn first_spec(self) -> Option<LogId> {
        if self.log_ids@.len() == 0 {
            None
        } else {
            Some(self.log_ids@[0])
        }
    }

    /// The last retained log id, if any.
    pub open spec fn last_spec(self) -> Option<LogId> {
        if self.log_ids@.len() == 0 {
            None
        } else {
            Some(self.log_ids@[self.log_ids@.len() - 1])
        }
    }

    /// The log id in effect at `index`: present exactly when `index` lies in
    /// the retained range.
    pub open spec fn get_spec(self, index: u64) -> Option<LogId> {
        let s = self.log_ids@;
        if s.len() > 0 && s[0].index <= index && index - s[0].index < s.len() {
            Some(s[index - s[0].index])
        } else {
            None
        }
    }

    /// An empty record: no log id retained, nothing purged.
    pub fn new() -> (r: Self)
        ensures
            r.log_ids@ == Seq::<LogId>::empty(),
            r.wf(),
    {
        LogIdList { log_ids: Vec::new() }
    }

    /// Look up the log id in effect at `index`; absent if `index` is below
    /// the retained range or past its end.
    pub fn get(&self, index: u64) -> (r: Option<LogId>)
        requires
            self.wf(),
        ensures
            r == self.get_spec(index),
    {
        if self.log_ids.len() == 0 {
            return None;
        }
        let first: u64 = self.log_ids[0].index;
        if index < first {
            return None;
        }
        let off: u64 = index - first;
        if off >= self.log_ids.len() as u64 {
            return None;
        }
        Some(self.log_ids[off as usize])
    }

    /// The first retained log id, if any.
    pub fn first(&self) -> (r: Option<LogId>)
        ensures
            r == self.first_spec(),
    {
        if self.log_ids.len() == 0 {
            None
        } else {
            Some(self.log_ids[0])
        }
    }

    /// The last retained log id, if any.
    pub fn last(&self) -> (r: Option<LogId>)
        ensures
            r == self.last_spec(),
    {
        if self.log_ids.len() == 0 {
            None
        } else {
            Some(self.log_ids[self.log_ids.len() - 1])
        }
    }

    /// Append a run of log ids that continues the retained range: entry `i`
    /// of the input must carry the index `i` past the current tail.
    pub fn extend<LID: RaftLogId>(&mut self, new_log_ids: &Vec<LID>)
        requires
            old(self).wf(),
            forall|i: int|
                0 <= i < new_log_ids@.len() ==> (#[trigger] new_log_ids@[i].log_id_spec()).index
                    == next_index_of(old(self).last_spec()) + i,
        ensures
            final(self).wf(),
            final(self).log_ids@ == old(self).log_ids@ + new_log_ids@.map_values(
                (|e: LID| e.log_id_spec()),
            ),
    {
        let ghost added: Seq<LogId> = new_log_ids@.map_values(|e: LID| e.log_id_spec());
        let mut i: usize = 0;
        while i < new_log_ids.len()
            invariant
                0 <= i <= new_log_ids@.len(),
                added == new_log_ids@.map_values(|e: LID| e.log_id_spec()),
                forall|k: int|
                    0 <= k < new_log_ids@.len() ==> (#[trigger] new_log_ids@[k].log_id_spec()).index
                        == next_index_of(old(self).last_spec()) + k,
                self.log_ids@ == old(self).log_ids@ + added.take(i as int),
            decreases new_log_ids@.len() - i,
        {
            let lid = new_log_ids[i].get_log_id();
            assert(lid == added[i as int]);
            self.log_ids.push(lid);
            assert(self.log_ids@ == old(self).log_ids@ + added.take(i as int + 1));
            i = i + 1;
        }
        assert(added.take(new_log_ids@.len() as int) == added);
        proof {
            let olds = old(self).log_ids@;
            let n = olds.len() as int;
            assert forall|k: int|
                0 <= k < self.log_ids@.len() implies (#[trigger] self.log_ids@[k]).index
                == self.log_ids@[0].index + k by {
                if n > 0 {
                    assert(olds[0].index == olds[0].index + 0);
                    if k < n {
                        assert(olds[k].index == olds[0].index + k);
                    } else {
                        assert(olds[n - 1].index == olds[0].index + (n - 1));
                        assert(self.log_ids@[k] == new_log_ids@[k - n].log_id_spec());
                    }
                } else {
                    assert(self.log_ids@[k] == new_log_ids@[k].log_id_spec());
                    assert(self.log_ids@[0] == new_log_ids@[0].log_id_spec());
                }
            }
        }
    }

    /// Append a run of log ids from a single leader epoch that continues the
    /// retained range.
    pub fn extend_from_same_leader<LID: RaftLogId>(&mut self, new_log_ids: &Vec<LID>)
        requires
            old(self).wf(),
            forall|i: int|
                0 <= i < new_log_ids@.len() ==> (#[trigger] new_log_ids@[i].log_id_spec()).index
                    == next_index_of(old(self).last_spec()) + i,
            forall|i: int, j: int|
                0 <= i < new_log_ids@.len() && 0 <= j < new_log_ids@.len()
                    ==> new_log_ids@[i].log_id_spec().term == new_log_ids@[j].log_id_spec().term,
        ensures
            final(self).wf(),
            final(self).log_ids@ == old(self).log_ids@ + new_log_ids@.map_values(
                (|e: LID| e.log_id_spec()),
            ),
    {
        self.extend(new_log_ids)
    }

    /// Discard every retained log id below `upto`, keeping `upto` itself as
    /// the first element to mark the purge boundary.  `upto` must be a log id
    /// the record holds.
    pub fn purge(&mut self, upto: &LogId)
        requires
            old(self).wf(),
            old(self).get_spec(upto.index) == Some(*upto),
        ensures
            final(self).wf(),
            final(self).log_ids@ == old(self).log_ids@.skip(
                upto.index - old(self).log_ids@[0].index,
            ),
            final(self).first_spec() == Some(*upto),
            final(self).last_spec() == old(self).last_spec(),
    {
        let first: u64 = self.log_ids[0].index;
        let len: usize = self.log_ids.len();
        let off64: u64 = upto.index - first;
        assert(off64 < len as u64);
        let off: usize = off64 as usize;
        assert(off as int == off64 as int);
        let tail = self.log_ids.split_off(off);
        self.log_ids = tail;
        assert(self.log_ids@ =~= old(self).log_ids@.skip(off as int));
    }
}

} // verus!
