//! The result of a discovery cycle: node identities, each at most once.

use crate::identity::{IdentityKey, NodeIdentity};
use vstd::prelude::*;

verus! {

/// The keys of a sequence of identities, in the same order.
pub open spec fn keys_of(nodes: Seq<NodeIdentity>) -> Seq<IdentityKey> {
    nodes.map_values(|n: NodeIdentity| n@)
}

/// A set of node identities. No two members have the same
/// `(ip, port, submitter)`; the order of the members carries no meaning.
#[derive(Debug)]
pub struct DiscoveredSet {
    nodes: Vec<NodeIdentity>,
}

impl View for DiscoveredSet {
    type V = Set<IdentityKey>;

    closed spec fn view(&self) -> Set<IdentityKey> {
        keys_of(self.nodes@).to_set()
    }
}

impl DiscoveredSet {
    #[verifier::type_invariant]
    spec fn distinct(self) -> bool {
        keys_of(self.nodes@).no_duplicates()
    }

    /// Every discovered set is finite.
    pub proof fn lemma_finite(self)
        ensures
            self@.finite(),
    {
        vstd::seq_lib::seq_to_set_is_finite(keys_of(self.nodes@));
    }

    /// The empty set.
    pub fn new() -> (s: DiscoveredSet)
        ensures
            s@ == Set::<IdentityKey>::empty(),
    {
        let s = DiscoveredSet { nodes: Vec::new() };
        assert(keys_of(s.nodes@) =~= Seq::<IdentityKey>::empty());
        assert(keys_of(s.nodes@).to_set() =~= Set::<IdentityKey>::empty());
        s
    }

    /// The number of distinct identities.
    pub fn len(&self) -> (n: usize)
        ensures
            n == self@.len(),
    {
        proof {
            use_type_invariant(self);
            keys_of(self.nodes@).unique_seq_to_set();
        }
        self.nodes.len()
    }

    /// Whether the set has no member.
    pub fn is_empty(&self) -> (b: bool)
        ensures
            b == (self@ == Set::<IdentityKey>::empty()),
    {
        proof {
            use_type_invariant(self);
            keys_of(self.nodes@).unique_seq_to_set();
            self.lemma_finite();
            if self@.len() == 0 {
                assert(self@ =~= Set::<IdentityKey>::empty()) by {
                    vstd::set_lib::lemma_set_empty_equivalency_len(self@);
                }
            }
        }
        self.nodes.len() == 0
    }

    /// Whether an identity with the key of `node` is a member.
    pub fn contains(&self, node: &NodeIdentity) -> (b: bool)
        ensures
            b == self@.contains(node@),
    {
        let mut i: usize = 0;
        while i < self.nodes.len()
            invariant
                i <= self.nodes.len(),
                forall|j: int| 0 <= j < i ==> keys_of(self.nodes@)[j] != node@,
            decreases self.nodes.len() - i,
        {
            if self.nodes[i] == *node {
                assert(keys_of(self.nodes@)[i as int] == node@);
                return true;
            }
            i += 1;
        }
        false
    }

    /// Adds `node` unless an identity with the same key is already a
    /// member; says whether it was added.
    pub fn insert(&mut self, node: NodeIdentity) -> (added: bool)
        ensures
            final(self)@ == old(self)@.insert(node@),
            added == !old(self)@.contains(node@),
    {
        proof {
            use_type_invariant(&*self);
        }
        if self.contains(&node) {
            assert(self@.insert(node@) =~= self@);
            false
        } else {
            let mut taken = DiscoveredSet::new();
            std::mem::swap(self, &mut taken);
            let mut nodes = taken.nodes;
            let ghost before = keys_of(nodes@);
            nodes.push(node);
            proof {
                assert(keys_of(nodes@) =~= before.push(node@));
                before.lemma_push_to_set_commute(node@);
            }
            *self = DiscoveredSet { nodes };
            true
        }
    }

    /// The members, each once, in no particular order.
    pub fn into_vec(self) -> (v: Vec<NodeIdentity>)
        ensures
            keys_of(v@).no_duplicates(),
            keys_of(v@).to_set() == self@,
    {
        proof {
            use_type_invariant(&self);
        }
        self.nodes
    }
}

/// Identities that differ in ip, port or submitter are both kept by a
/// set; identities that agree in all three are kept once.
pub proof fn lemma_kept_once_per_key(nodes: Set<IdentityKey>, a: NodeIdentity, b: NodeIdentity)
    requires
        nodes.finite(),
        !nodes.contains(a@),
        !nodes.contains(b@),
    ensures
        nodes.insert(a@).insert(b@).contains(a@),
        nodes.insert(a@).insert(b@).contains(b@),
        a@ != b@ ==> nodes.insert(a@).insert(b@).len() == nodes.len() + 2,
        a@ == b@ ==> nodes.insert(a@).insert(b@).len() == nodes.len() + 1,
{
}

} // verus!
