//! The canonical identity of a node.

use vstd::prelude::*;
use vstd::std_specs::cmp::{PartialEqSpec, PartialEqSpecImpl};

verus! {

/// What a node identity is, mathematically: host, port and optional
/// submitter. Two identities are the same node exactly when these agree.
pub type IdentityKey = (Seq<char>, u16, Option<Seq<char>>);

/// A reachable node: the host to connect to, the port of its control
/// interface, and the identity of whoever submitted it.
#[derive(Debug, Clone, Hash)]
pub struct NodeIdentity {
    pub ip: String,
    pub graphql_port: u16,
    pub submitter_pk: Option<String>,
}

/// The view of an optional string.
pub open spec fn opt_text(s: Option<String>) -> Option<Seq<char>> {
    match s {
        Some(t) => Some(t@),
        None => None,
    }
}

impl View for NodeIdentity {
    type V = IdentityKey;

    open spec fn view(&self) -> IdentityKey {
        (self.ip@, self.graphql_port, opt_text(self.submitter_pk))
    }
}

impl PartialEq for NodeIdentity {
    fn eq(&self, other: &NodeIdentity) -> (res: bool) {
        let same_ip = self.ip == other.ip;
        let same_port = self.graphql_port == other.graphql_port;
        let same_submitter = match &self.submitter_pk {
            Some(a) => match &other.submitter_pk {
                Some(b) => *a == *b,
                None => false,
            },
            None => other.submitter_pk.is_none(),
        };
        same_ip && same_port && same_submitter
    }
}

impl PartialEqSpecImpl for NodeIdentity {
    open spec fn obeys_eq_spec() -> bool {
        true
    }

    open spec fn eq_spec(&self, other: &NodeIdentity) -> bool {
        self@ == other@
    }
}

impl Eq for NodeIdentity {}

/// Two identities are equal exactly when their ip, port and submitter
/// agree; nothing else enters the comparison.
pub proof fn lemma_equal_by_ip_port_submitter(a: NodeIdentity, b: NodeIdentity)
    ensures
        PartialEqSpec::eq_spec(&a, &b) <==> {
            &&& a.ip@ == b.ip@
            &&& a.graphql_port == b.graphql_port
            &&& opt_text(a.submitter_pk) == opt_text(b.submitter_pk)
        },
        PartialEqSpec::eq_spec(&a, &b) <==> a@ == b@,
{
}

} // verus!
