use node_discovery::{
    candidates, discover_aws, fetch_online, DiscoveryError, FetchFailure, FetchOutcome,
    ListingEntry, NodeIdentity, SubmissionRecord,
};

fn record(addr: &str, submitter: &str, port: u16) -> SubmissionRecord {
    SubmissionRecord {
        remote_addr: addr.to_string(),
        submitter: submitter.to_string(),
        graphql_control_port: port,
    }
}

fn identity(ip: &str, port: u16, submitter: &str) -> NodeIdentity {
    NodeIdentity { ip: ip.to_string(), graphql_port: port, submitter_pk: Some(submitter.to_string()) }
}

fn listed(key: &str) -> ListingEntry {
    ListingEntry::Listed { location: key.to_string() }
}

fn loaded(addr: &str, submitter: &str, port: u16) -> FetchOutcome {
    FetchOutcome::Loaded { record: record(addr, submitter, port) }
}

#[test]
fn candidates_are_the_listed_entries_last_first() {
    let keys = candidates(vec![listed("a"), listed("b"), listed("c")]);
    assert_eq!(keys, vec!["c".to_string(), "b".to_string(), "a".to_string()]);
}

#[test]
fn candidates_leave_out_failed_entries() {
    let keys = candidates(vec![
        ListingEntry::Failed,
        listed("a"),
        ListingEntry::Failed,
        ListingEntry::Failed,
        listed("b"),
        ListingEntry::Failed,
    ]);
    assert_eq!(keys, vec!["b".to_string(), "a".to_string()]);
    assert!(candidates(vec![ListingEntry::Failed]).is_empty());
    assert!(candidates(Vec::new()).is_empty());
}

#[test]
fn candidates_keep_repeated_keys() {
    let keys = candidates(vec![listed("a"), listed("a")]);
    assert_eq!(keys, vec!["a".to_string(), "a".to_string()]);
}

#[test]
fn scan_with_one_good_and_one_corrupt_object() {
    let nodes = discover_aws(vec![loaded("10.0.0.7:51234", "pk1", 3085), FetchOutcome::Failed]);
    assert_eq!(nodes.len(), 1);
    assert_eq!(nodes.into_vec(), vec![identity("10.0.0.7", 3085, "pk1")]);
    let nodes = discover_aws(vec![FetchOutcome::Failed, loaded("10.0.0.7:51234", "pk1", 3085)]);
    assert_eq!(nodes.into_vec(), vec![identity("10.0.0.7", 3085, "pk1")]);
}

#[test]
fn scan_of_failures_only_is_empty() {
    assert!(discover_aws(vec![FetchOutcome::Failed, FetchOutcome::Failed]).is_empty());
    assert!(discover_aws(Vec::new()).is_empty());
}

#[test]
fn scan_counts_equal_identities_once() {
    let nodes = discover_aws(vec![
        loaded("10.0.0.7:1", "pk1", 3085),
        loaded("10.0.0.7:2", "pk1", 3085),
        loaded("10.0.0.7", "pk1", 3085),
        loaded("10.0.0.7", "pk2", 3085),
        loaded("10.0.0.8", "pk1", 3085),
        loaded("10.0.0.7", "pk1", 3086),
    ]);
    assert_eq!(nodes.len(), 4);
    assert!(nodes.contains(&identity("10.0.0.7", 3085, "pk1")));
    assert!(nodes.contains(&identity("10.0.0.7", 3085, "pk2")));
    assert!(nodes.contains(&identity("10.0.0.8", 3085, "pk1")));
    assert!(nodes.contains(&identity("10.0.0.7", 3086, "pk1")));
}

#[test]
fn scan_applies_no_template() {
    let nodes = discover_aws(vec![loaded("10.0.0.7:9", "pk1", 10042)]);
    assert_eq!(nodes.into_vec(), vec![identity("10.0.0.7", 10042, "pk1")]);
}

#[test]
fn online_fetch_of_two_distinct_records() {
    let records = vec![record("10.0.0.7", "pk1", 3085), record("10.0.0.8", "pk2", 3085)];
    let nodes = fetch_online(Ok(records), None).unwrap();
    assert_eq!(nodes.len(), 2);
    assert!(nodes.contains(&identity("10.0.0.7", 3085, "pk1")));
    assert!(nodes.contains(&identity("10.0.0.8", 3085, "pk2")));
}

#[test]
fn online_fetch_of_two_identical_records() {
    let records = vec![record("10.0.0.7", "pk1", 3085), record("10.0.0.7", "pk1", 3085)];
    let nodes = fetch_online(Ok(records), None).unwrap();
    assert_eq!(nodes.len(), 1);
    assert_eq!(nodes.into_vec(), vec![identity("10.0.0.7", 3085, "pk1")]);
}

#[test]
fn online_fetch_keeps_the_address_whole() {
    let nodes = fetch_online(Ok(vec![record("10.0.0.7:51234", "pk1", 3085)]), None).unwrap();
    assert_eq!(nodes.into_vec(), vec![identity("10.0.0.7:51234", 3085, "pk1")]);
}

#[test]
fn online_fetch_applies_templates() {
    let overrides = vec!["http://a-{}.example.com".to_string()];
    let records = vec![
        record("10.0.0.7", "pk1", 10001),
        record("10.0.0.8", "pk1", 10001),
        record("10.0.0.9", "pk1", 20001),
        record("10.0.0.9", "pk2", 3085),
    ];
    let nodes = fetch_online(Ok(records), Some(&overrides)).unwrap();
    assert_eq!(nodes.len(), 3);
    assert!(nodes.contains(&identity("http://a-1.example.com", 80, "pk1")));
    assert!(nodes.contains(&identity("10.0.0.9", 20001, "pk1")));
    assert!(nodes.contains(&identity("10.0.0.9", 3085, "pk2")));
}

#[test]
fn online_fetch_of_no_records_is_empty() {
    assert!(fetch_online(Ok(Vec::new()), None).unwrap().is_empty());
}

#[test]
fn online_fetch_fails_as_a_whole() {
    assert!(matches!(
        fetch_online(Err(FetchFailure::Transport), None),
        Err(DiscoveryError::Transport)
    ));
    assert!(matches!(
        fetch_online(Err(FetchFailure::Malformed), None),
        Err(DiscoveryError::ResponseParse)
    ));
}
