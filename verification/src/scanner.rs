//! The decisions of an object-store scan: which listed objects are
//! fetched, and what the fetched records add up to.
//!
//! A fault on a single object never fails a scan: an entry that could not
//! be listed, and a body that could not be fetched or parsed, is left out
//! and the rest goes on.

use crate::discovered::DiscoveredSet;
use crate::identity::IdentityKey;
use crate::resolver::{stored, stored_identity, SubmissionRecord};
use vstd::prelude::*;
use vstd::std_specs::iter::IteratorSpec;

verus! {

/// One entry of a listing as the object store gave it.
#[derive(Debug, Clone)]
pub enum ListingEntry {
    /// An object, by its key.
    Listed { location: String },
    /// An entry that the store failed to list.
    Failed,
}

/// What became of the fetch of one object.
#[derive(Debug, Clone)]
pub enum FetchOutcome {
    /// The body was fetched and held a submission record.
    Loaded { record: SubmissionRecord },
    /// The body could not be fetched, or was no submission record.
    Failed,
}

/// The keys of the entries that were listed, in the order of the listing.
pub open spec fn listed(entries: Seq<ListingEntry>) -> Seq<Seq<char>>
    decreases entries.len(),
{
    if entries.len() == 0 {
        Seq::empty()
    } else {
        match entries.last() {
            ListingEntry::Listed { location } => listed(entries.drop_last()).push(location@),
            ListingEntry::Failed => listed(entries.drop_last()),
        }
    }
}

/// The texts of a list of keys.
pub open spec fn key_texts(keys: Seq<String>) -> Seq<Seq<char>> {
    keys.map_values(|k: String| k@)
}

/// The objects to fetch after a listing: every entry that was listed,
/// the last of the listing first. Entries that failed are left out.
pub fn candidates(entries: Vec<ListingEntry>) -> (keys: Vec<String>)
    ensures
        key_texts(keys@) == listed(entries@).reverse(),
{
    let ghost all = entries@;
    let mut entries = entries;
    let mut keys: Vec<String> = Vec::new();
    assert(key_texts(keys@) + listed(all).reverse() =~= listed(all).reverse());
    while entries.len() > 0
        invariant
            listed(all).reverse() == key_texts(keys@) + listed(entries@).reverse(),
        decreases entries.len(),
    {
        let ghost rest = entries@.drop_last();
        let ghost done = key_texts(keys@);
        match entries.pop() {
            Some(ListingEntry::Listed { location }) => {
                assert(listed(rest).push(location@).reverse() =~= seq![location@] + listed(
                    rest,
                ).reverse());
                keys.push(location);
                assert(key_texts(keys@) =~= done.push(location@));
                assert(done.push(location@) + listed(rest).reverse() =~= done + (seq![location@]
                    + listed(rest).reverse()));
            },
            _ => {},
        }
    }
    assert(key_texts(keys@) + listed(entries@).reverse() =~= key_texts(keys@));
    keys
}

/// The identity that a stored record stands for.
pub open spec fn stored_key(record: SubmissionRecord) -> IdentityKey {
    stored(record.remote_addr@, record.graphql_control_port, record.submitter@)
}

/// Whether `outcome` is a loaded record that stands for the identity
/// `key`.
pub open spec fn loaded_as(outcome: FetchOutcome, key: IdentityKey) -> bool {
    outcome matches FetchOutcome::Loaded { record } && stored_key(record) == key
}

/// The identities of a batch of fetches: one for each record that was
/// loaded, equal ones counted once; nothing for a fetch that failed.
pub open spec fn scanned(outcomes: Seq<FetchOutcome>) -> Set<IdentityKey> {
    Set::new(
        |key: IdentityKey|
            exists|i: int| 0 <= i < outcomes.len() && loaded_as(#[trigger] outcomes[i], key),
    )
}

/// Gathers the identities of an object-store scan from the outcome of
/// each fetch. A failed fetch adds nothing and fails nothing.
pub fn discover_aws(outcomes: Vec<FetchOutcome>) -> (results: DiscoveredSet)
    ensures
        results@ == scanned(outcomes@),
{
    broadcast use vstd::std_specs::vec::axiom_spec_into_iter;

    let mut results = DiscoveredSet::new();
    assert(results@ =~= scanned(outcomes@.take(0)));
    for outcome in it: outcomes.into_iter()
        invariant
            it.seq() == outcomes@,
            results@ == scanned(it.seq().take(it.index() as int)),
    {
        let ghost seen = it.seq().take(it.index() as int);
        let ghost next = it.seq().take(it.index() + 1);
        assert(forall|j: int| 0 <= j < seen.len() ==> seen[j] == next[j]);
        assert(next[it.index() as int] == outcome);
        match outcome {
            FetchOutcome::Loaded { record } => {
                let ghost key = stored_key(record);
                let node = stored_identity(record);
                results.insert(node);
                assert(loaded_as(next[it.index() as int], key));
                assert(scanned(seen).insert(key) =~= scanned(next));
            },
            FetchOutcome::Failed => {
                assert(scanned(seen) =~= scanned(next));
            },
        }
    }
    assert(outcomes@.take(outcomes@.len() as int) == outcomes@);
    results
}

} // verus!
