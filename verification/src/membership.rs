use vstd::prelude::*;
use crate::log_id::{LogId, opt_log_id_le, opt_log_id_le_exec};

verus! {

/// Network metadata of one cluster member.
pub struct BasicNode {
    pub addr: String,
}

impl BasicNode {
    /// A node record with the given address.
    pub fn new(addr: String) -> (r: Self)
        ensures
            r.addr == addr,
    {
        BasicNode { addr }
    }

    /// An equal copy of this record.
    pub fn duplicate(&self) -> (r: Self)
        ensures
            r == *self,
    {
        BasicNode { addr: self.addr.clone() }
    }
}

/// One cluster member: its id and its metadata.
pub struct Member {
    pub id: u64,
    pub node: BasicNode,
}

impl Member {
    /// An equal copy of this member record.
    pub fn duplicate(&self) -> (r: Self)
        ensures
            r == *self,
    {
        Member { id: self.id, node: self.node.duplicate() }
    }
}

/// One membership configuration: the ids whose votes count toward quorum,
/// and the metadata of every member, voter or learner.
pub struct Membership {
    pub voters: Vec<u64>,
    pub nodes: Vec<Member>,
}

impl Membership {
    /// Configuration well-formedness: member ids are unique, and every voter
    /// is listed among the members.
    pub open spec fn wf(self) -> bool {
        &&& forall|i: int, j: int|
            0 <= i < j < self.nodes@.len() ==> (#[trigger] self.nodes@[i]).id != (
            #[trigger] self.nodes@[j]).id
        &&& forall|i: int|
            0 <= i < self.voters@.len() ==> self.is_member_spec(#[trigger] self.voters@[i])
    }

    /// Whether `id` counts toward quorum in this configuration.
    pub open spec fn is_voter_spec(self, id: u64) -> bool {
        self.voters@.contains(id)
    }

    /// Whether `id` is listed among the members of this configuration.
    pub open spec fn is_member_spec(self, id: u64) -> bool {
        exists|j: int| 0 <= j < self.nodes@.len() && (#[trigger] self.nodes@[j]).id == id
    }

    /// The metadata stored for `id`, absent if `id` is not a member.
    /// Well defined on a well-formed configuration, where ids are unique.
    pub open spec fn get_node_spec(self, id: u64) -> Option<BasicNode> {
        if self.is_member_spec(id) {
            let j = choose|j: int|
                0 <= j < self.nodes@.len() && (#[trigger] self.nodes@[j]).id == id;
            Some(self.nodes@[j].node)
        } else {
            None
        }
    }

    /// An equal copy of this configuration (member metadata copied deeply).
    pub fn duplicate(&self) -> (r: Self)
        ensures
            r.voters@ == self.voters@,
            r.nodes@ == self.nodes@,
    {
        let mut voters: Vec<u64> = Vec::new();
        let mut v: usize = 0;
        while v < self.voters.len()
            invariant
                0 <= v <= self.voters@.len(),
                voters@ == self.voters@.take(v as int),
            decreases self.voters@.len() - v,
        {
            voters.push(self.voters[v]);
            assert(voters@ == self.voters@.take(v as int + 1));
            v = v + 1;
        }
        assert(voters@ == self.voters@.take(self.voters@.len() as int));
        let mut nodes: Vec<Member> = Vec::new();
        let mut i: usize = 0;
        while i < self.nodes.len()
            invariant
                0 <= i <= self.nodes@.len(),
                nodes@ == self.nodes@.take(i as int),
            decreases self.nodes@.len() - i,
        {
            nodes.push(self.nodes[i].duplicate());
            assert(nodes@ == self.nodes@.take(i as int + 1));
            i = i + 1;
        }
        assert(nodes@ == self.nodes@.take(self.nodes@.len() as int));
        assert(nodes@ =~= self.nodes@);
        assert(voters@ =~= self.voters@);
        Membership { voters, nodes }
    }

    /// Decide whether `id` counts toward quorum.
    pub fn is_voter(&self, id: u64) -> (r: bool)
        ensures
            r == self.is_voter_spec(id),
    {
        let mut i: usize = 0;
        while i < self.voters.len()
            invariant
                0 <= i <= self.voters@.len(),
                forall|k: int| 0 <= k < i ==> self.voters@[k] != id,
            decreases self.voters@.len() - i,
        {
            if self.voters[i] == id {
                assert(self.voters@.contains(id));
                return true;
            }
            i = i + 1;
        }
        assert(!self.voters@.contains(id));
        false
    }

    /// Look up the metadata stored for `id`, returning an equal copy of it;
    /// absent if `id` is not a member.
    pub fn get_node(&self, id: u64) -> (r: Option<BasicNode>)
        requires
            self.wf(),
        ensures
            r == self.get_node_spec(id),
    {
        let mut i: usize = 0;
        while i < self.nodes.len()
            invariant
                self.wf(),
                0 <= i <= self.nodes@.len(),
                forall|k: int| 0 <= k < i ==> (#[trigger] self.nodes@[k]).id != id,
            decreases self.nodes@.len() - i,
        {
            if self.nodes[i].id == id {
                let n = self.nodes[i].node.duplicate();
                proof {
                    assert(self.is_member_spec(id));
                    let j = choose|j: int|
                        0 <= j < self.nodes@.len() && (#[trigger] self.nodes@[j]).id == id;
                    assert(j == i as int);
                }
                return Some(n);
            }
            i = i + 1;
        }
        assert(!self.is_member_spec(id));
        None
    }

    /// Decide configuration well-formedness.
    pub fn check(&self) -> (r: bool)
        ensures
            r == self.wf(),
    {
        let mut i: usize = 0;
        while i < self.nodes.len()
            invariant
                0 <= i <= self.nodes@.len(),
                forall|p: int, q: int|
                    0 <= p < q < self.nodes@.len() && p < i ==> (#[trigger] self.nodes@[p]).id != (
                    #[trigger] self.nodes@[q]).id,
            decreases self.nodes@.len() - i,
        {
            let mut j: usize = i + 1;
            while j < self.nodes.len()
                invariant
                    0 <= i < j <= self.nodes@.len(),
                    forall|q: int|
                        i < q < j ==> (#[trigger] self.nodes@[q]).id != self.nodes@[i as int].id,
                decreases self.nodes@.len() - j,
            {
                if self.nodes[j].id == self.nodes[i].id {
                    return false;
                }
                j = j + 1;
            }
            i = i + 1;
        }
        let mut k: usize = 0;
        while k < self.voters.len()
            invariant
                0 <= k <= self.voters@.len(),
                forall|p: int, q: int|
                    0 <= p < q < self.nodes@.len() ==> (#[trigger] self.nodes@[p]).id != (
                    #[trigger] self.nodes@[q]).id,
                forall|p: int| 0 <= p < k ==> self.is_member_spec(#[trigger] self.voters@[p]),
            decreases self.voters@.len() - k,
        {
            if !self.is_listed_member(self.voters[k]) {
                return false;
            }
            k = k + 1;
        }
        true
    }

    /// Decide whether `id` is listed among the members.
    fn is_listed_member(&self, id: u64) -> (r: bool)
        ensures
            r == self.is_member_spec(id),
    {
        let mut j: usize = 0;
        while j < self.nodes.len()
            invariant
                0 <= j <= self.nodes@.len(),
                forall|k: int| 0 <= k < j ==> (#[trigger] self.nodes@[k]).id != id,
            decreases self.nodes@.len() - j,
        {
            if self.nodes[j].id == id {
                return true;
            }
            j = j + 1;
        }
        false
    }
}

/// A membership configuration together with the log id of the entry that
/// established it.
pub struct StoredMembership {
    pub log_id: Option<LogId>,
    pub membership: Membership,
}

impl StoredMembership {
    /// An equal copy of this stored configuration.
    pub fn duplicate(&self) -> (r: Self)
        ensures
            r.log_id == self.log_id,
            r.membership.voters@ == self.membership.voters@,
            r.membership.nodes@ == self.membership.nodes@,
    {
        StoredMembership { log_id: self.log_id, membership: self.membership.duplicate() }
    }
}

/// The two membership configurations a node tracks during a joint-consensus
/// transition: the last committed one and the currently effective one.
pub struct MembershipState {
    pub committed: StoredMembership,
    pub effective: StoredMembership,
}

impl MembershipState {
    /// Internal invariants: both configurations are well-formed and the
    /// committed one was established no later than the effective one.
    pub open spec fn wf(self) -> bool {
        &&& self.committed.membership.wf()
        &&& self.effective.membership.wf()
        &&& opt_log_id_le(self.committed.log_id, self.effective.log_id)
    }

    /// The currently effective configuration.
    pub fn effective(&self) -> (r: &StoredMembership)
        ensures
            *r == self.effective,
    {
        &self.effective
    }

    /// The last committed configuration.
    pub fn committed(&self) -> (r: &StoredMembership)
        ensures
            *r == self.committed,
    {
        &self.committed
    }

    /// Whether `id` counts toward quorum in the effective configuration.
    pub fn is_voter(&self, id: u64) -> (r: bool)
        ensures
            r == self.effective.membership.is_voter_spec(id),
    {
        self.effective.membership.is_voter(id)
    }

    /// Decide whether this membership record meets its internal invariants.
    pub fn check(&self) -> (r: bool)
        ensures
            r == self.wf(),
    {
        self.committed.membership.check() && self.effective.membership.check()
            && opt_log_id_le_exec(&self.committed.log_id, &self.effective.log_id)
    }

    /// Note that the log is committed up to `committed`: once the commit
    /// point has reached the entry that established the effective
    /// configuration, that configuration supersedes the previous one.
    pub fn commit(&mut self, committed: &Option<LogId>)
        ensures
            commit_relation(*old(self), *final(self), *committed),
            old(self).wf() ==> final(self).wf(),
    {
        if opt_log_id_le_exec(&self.effective.log_id, committed) {
            self.committed = self.effective.duplicate();
        }
    }
}

/// How a membership record changes when the log is committed up to
/// `committed`: the effective configuration stays; the committed slot takes
/// an equal copy of the effective configuration once the commit point has
/// reached the entry that established it, else it stays too.
pub open spec fn commit_relation(
    pre: MembershipState,
    post: MembershipState,
    committed: Option<LogId>,
) -> bool {
    &&& post.effective == pre.effective
    &&& opt_log_id_le(pre.effective.log_id, committed) ==> {
        &&& post.committed.log_id == pre.effective.log_id
        &&& post.committed.membership.voters@ == pre.effective.membership.voters@
        &&& post.committed.membership.nodes@ == pre.effective.membership.nodes@
    }
    &&& !opt_log_id_le(pre.effective.log_id, committed) ==> post.committed == pre.committed
}

} // verus!
