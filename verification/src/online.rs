//! The online backend: from the answer of the registration endpoint to
//! the set of nodes.

use crate::discovered::DiscoveredSet;
use crate::error::{failure_error, DiscoveryError, FetchFailure};
use crate::identity::IdentityKey;
use crate::resolver::{node_identity, override_texts, resolved, SubmissionRecord};
use vstd::prelude::*;
use vstd::std_specs::iter::IteratorSpec;

verus! {

/// The identity that a record of the endpoint resolves to.
pub open spec fn resolved_key(record: SubmissionRecord, overrides: Option<Seq<Seq<char>>>)
    -> IdentityKey {
    resolved(record.remote_addr@, record.graphql_control_port, record.submitter@, overrides)
}

/// The identities of a list of records: one for each record, equal ones
/// counted once.
pub open spec fn resolved_all(records: Seq<SubmissionRecord>, overrides: Option<Seq<Seq<char>>>)
    -> Set<IdentityKey> {
    Set::new(
        |key: IdentityKey|
            exists|i: int|
                0 <= i < records.len() && resolved_key(#[trigger] records[i], overrides) == key,
    )
}

/// Gathers the identities of the records that the endpoint answered.
pub fn resolve_all(records: Vec<SubmissionRecord>, url_overrides: Option<&[String]>) -> (results:
    DiscoveredSet)
    ensures
        results@ == resolved_all(records@, override_texts(url_overrides)),
{
    broadcast use vstd::std_specs::vec::axiom_spec_into_iter;

    let ghost overrides = override_texts(url_overrides);
    let mut results = DiscoveredSet::new();
    assert(results@ =~= resolved_all(records@.take(0), overrides));
    for meta in it: records.into_iter()
        invariant
            it.seq() == records@,
            overrides == override_texts(url_overrides),
            results@ == resolved_all(it.seq().take(it.index() as int), overrides),
    {
        let ghost seen = it.seq().take(it.index() as int);
        let ghost next = it.seq().take(it.index() + 1);
        let ghost key = resolved_key(meta, overrides);
        assert(forall|j: int| 0 <= j < seen.len() ==> seen[j] == next[j]);
        assert(next[it.index() as int] == meta);
        let SubmissionRecord { remote_addr, submitter, graphql_control_port } = meta;
        let node = node_identity(remote_addr.as_str(), graphql_control_port, submitter, url_overrides);
        results.insert(node);
        assert(resolved_all(seen, overrides).insert(key) =~= resolved_all(next, overrides));
    }
    assert(records@.take(records@.len() as int) == records@);
    results
}

/// The result of a cycle of the online backend, from what the request to
/// the registration endpoint gave. A failed request or a malformed
/// answer fails the cycle: there are no partial results. Otherwise every
/// record is resolved and the identities are gathered, equal ones once.
pub fn fetch_online(
    response: Result<Vec<SubmissionRecord>, FetchFailure>,
    url_overrides: Option<&[String]>,
) -> (results: Result<DiscoveredSet, DiscoveryError>)
    ensures
        match response {
            Ok(records) => results matches Ok(set) && set@ == resolved_all(
                records@,
                override_texts(url_overrides),
            ),
            Err(failure) => results matches Err(error) && error == failure_error(failure),
        },
{
    match response {
        Ok(records) => Ok(resolve_all(records, url_overrides)),
        Err(FetchFailure::Transport) => Err(DiscoveryError::Transport),
        Err(FetchFailure::Malformed) => Err(DiscoveryError::ResponseParse),
    }
}

/// Two records with different identities give a set of two; two records
/// with the same identity give a set of one.
pub proof fn lemma_two_records(
    first: SubmissionRecord,
    second: SubmissionRecord,
    overrides: Option<Seq<Seq<char>>>,
)
    ensures
        resolved_all(seq![first, second], overrides) == set![
            resolved_key(first, overrides),
            resolved_key(second, overrides),
        ],
        resolved_key(first, overrides) != resolved_key(second, overrides) ==> resolved_all(
            seq![first, second],
            overrides,
        ).len() == 2,
        resolved_key(first, overrides) == resolved_key(second, overrides) ==> resolved_all(
            seq![first, second],
            overrides,
        ).len() == 1,
{
    let records = seq![first, second];
    let pair = set![resolved_key(first, overrides), resolved_key(second, overrides)];
    assert(records[0] == first && records[1] == second);
    assert(resolved_all(records, overrides) =~= pair);
}

} // verus!
