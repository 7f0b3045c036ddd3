//! From a submission record to a node identity.
//!
//! A control port of 10000 or more is a routed port: its ten-thousands
//! select an override template and its remainder fills the template's
//! placeholder. Everything else is taken as submitted.

use crate::identity::{IdentityKey, NodeIdentity};
use crate::text::{decimal, decimal_string, host_of, host_part, substitute, substituted};
use vstd::prelude::*;

verus! {

/// The smallest control port that is read as a routed port.
pub const ROUTED_PORT_BASE: u16 = 10000;

/// The port of every identity that was resolved through a template.
pub const TEMPLATE_PORT: u16 = 80;

/// A registration entry as a node wrote it.
#[derive(Debug, Clone)]
pub struct SubmissionRecord {
    /// `ip` or `ip:port`.
    pub remote_addr: String,
    pub submitter: String,
    pub graphql_control_port: u16,
}

/// The texts of a list of templates.
pub open spec fn template_texts(templates: Seq<String>) -> Seq<Seq<char>> {
    templates.map_values(|t: String| t@)
}

/// The texts of an optional list of templates.
pub open spec fn override_texts(url_overrides: Option<&[String]>) -> Option<Seq<Seq<char>>> {
    match url_overrides {
        Some(list) => Some(template_texts(list@)),
        None => None,
    }
}

/// The position in the override list that a routed port selects.
pub open spec fn override_index(control_port: u16) -> int {
    control_port / 10000 - 1
}

/// Whether `control_port` is routed and the list has a template for it.
pub open spec fn has_override(control_port: u16, overrides: Option<Seq<Seq<char>>>) -> bool {
    &&& control_port >= ROUTED_PORT_BASE
    &&& overrides matches Some(list) && override_index(control_port) < list.len()
}

/// The identity that a record resolves to, given the override templates.
pub open spec fn resolved(
    remote_addr: Seq<char>,
    control_port: u16,
    submitter: Seq<char>,
    overrides: Option<Seq<Seq<char>>>,
) -> IdentityKey {
    if has_override(control_port, overrides) {
        (
            substituted(
                overrides->0[override_index(control_port)],
                decimal((control_port % 10000) as nat),
            ),
            TEMPLATE_PORT,
            Some(submitter),
        )
    } else {
        (remote_addr, control_port, Some(submitter))
    }
}

/// The identity of a record that was read from the object store: the
/// address is cut at its first `:`, the port is taken as it is, and no
/// template applies.
pub open spec fn stored(remote_addr: Seq<char>, control_port: u16, submitter: Seq<char>)
    -> IdentityKey {
    (host_part(remote_addr), control_port, Some(submitter))
}

/// Resolves a submission to a node identity, applying the override
/// templates to a routed port. A routed port without a template at its
/// index is not an error: the submission is then taken as it is.
pub fn node_identity(
    remote_addr: &str,
    control_port: u16,
    submitter: String,
    url_overrides: Option<&[String]>,
) -> (node: NodeIdentity)
    ensures
        node@ == resolved(remote_addr@, control_port, submitter@, override_texts(url_overrides)),
        node.submitter_pk == Some(submitter),
{
    if control_port >= ROUTED_PORT_BASE {
        let index: usize = (control_port / 10000) as usize - 1;
        if let Some(overrides) = url_overrides {
            if index < overrides.len() {
                let port_suffix: u16 = control_port % 10000;
                let numeral = decimal_string(port_suffix);
                let ip = substitute(overrides[index].as_str(), numeral.as_str());
                return NodeIdentity {
                    ip,
                    graphql_port: TEMPLATE_PORT,
                    submitter_pk: Some(submitter),
                };
            }
        }
    }
    NodeIdentity {
        ip: remote_addr.to_owned(),
        graphql_port: control_port,
        submitter_pk: Some(submitter),
    }
}

/// The identity of a record that was read from the object store.
pub fn stored_identity(record: SubmissionRecord) -> (node: NodeIdentity)
    ensures
        node@ == stored(record.remote_addr@, record.graphql_control_port, record.submitter@),
        node.submitter_pk == Some(record.submitter),
{
    NodeIdentity {
        ip: host_of(record.remote_addr.as_str()),
        graphql_port: record.graphql_control_port,
        submitter_pk: Some(record.submitter),
    }
}

/// A control port below 10000 is never rewritten: the host is the
/// submitted address and the port the submitted port, whatever the
/// override list holds.
pub proof fn lemma_direct_port_is_verbatim(
    remote_addr: Seq<char>,
    control_port: u16,
    submitter: Seq<char>,
    overrides: Option<Seq<Seq<char>>>,
)
    requires
        control_port < 10000,
    ensures
        resolved(remote_addr, control_port, submitter, overrides).0 == remote_addr,
        resolved(remote_addr, control_port, submitter, overrides).1 == control_port,
        resolved(remote_addr, control_port, submitter, overrides).2 == Some(submitter),
{
}

/// A routed port whose index `control_port / 10000 - 1` lies within the
/// override list resolves to that template with its placeholder replaced
/// by the numeral of `control_port % 10000`, on port 80.
pub proof fn lemma_routed_port_uses_template(
    remote_addr: Seq<char>,
    control_port: u16,
    submitter: Seq<char>,
    templates: Seq<Seq<char>>,
)
    requires
        control_port >= 10000,
        control_port / 10000 - 1 < templates.len(),
    ensures
        resolved(remote_addr, control_port, submitter, Some(templates)).0 == substituted(
            templates[control_port / 10000 - 1],
            decimal((control_port % 10000) as nat),
        ),
        resolved(remote_addr, control_port, submitter, Some(templates)).1 == 80,
        resolved(remote_addr, control_port, submitter, Some(templates)).2 == Some(submitter),
{
}

/// A routed port without a template at its index (no list, an empty
/// list, a list too short) resolves exactly as a port below 10000 does.
pub proof fn lemma_routed_port_without_template(
    remote_addr: Seq<char>,
    control_port: u16,
    submitter: Seq<char>,
    overrides: Option<Seq<Seq<char>>>,
)
    requires
        control_port >= 10000,
        overrides matches Some(list) ==> list.len() <= control_port / 10000 - 1,
    ensures
        resolved(remote_addr, control_port, submitter, overrides) == (
            remote_addr,
            control_port,
            Some(submitter),
        ),
{
}

/// The submitter is carried through every resolution unchanged.
pub proof fn lemma_submitter_is_kept(
    remote_addr: Seq<char>,
    control_port: u16,
    submitter: Seq<char>,
    overrides: Option<Seq<Seq<char>>>,
)
    ensures
        resolved(remote_addr, control_port, submitter, overrides).2 == Some(submitter),
        stored(remote_addr, control_port, submitter).2 == Some(submitter),
{
}

} // verus!
