use node_discovery::text::{decimal_string, host_of, substitute};
use node_discovery::{node_identity, stored_identity, NodeIdentity, SubmissionRecord};

fn templates(list: &[&str]) -> Vec<String> {
    list.iter().map(|t| t.to_string()).collect()
}

fn identity(ip: &str, port: u16, submitter: &str) -> NodeIdentity {
    NodeIdentity { ip: ip.to_string(), graphql_port: port, submitter_pk: Some(submitter.to_string()) }
}

#[test]
fn direct_port_is_taken_verbatim() {
    let overrides = templates(&["node-{}.example.com"]);
    let node = node_identity("10.0.0.7", 3085, "pk1".to_string(), Some(&overrides));
    assert_eq!(node, identity("10.0.0.7", 3085, "pk1"));
    let node = node_identity("10.0.0.7:99", 9999, "pk1".to_string(), None);
    assert_eq!(node, identity("10.0.0.7:99", 9999, "pk1"));
    let node = node_identity("", 0, String::new(), Some(&overrides));
    assert_eq!(node, identity("", 0, ""));
}

#[test]
fn routed_port_fills_its_template() {
    let overrides = templates(&["http://a-{}.example.com/graphql", "http://b-{}.example.com"]);
    let node = node_identity("10.0.0.7", 10042, "pk1".to_string(), Some(&overrides));
    assert_eq!(node, identity("http://a-42.example.com/graphql", 80, "pk1"));
    let node = node_identity("10.0.0.7", 20007, "pk2".to_string(), Some(&overrides));
    assert_eq!(node, identity("http://b-7.example.com", 80, "pk2"));
    let node = node_identity("10.0.0.7", 19999, "pk3".to_string(), Some(&overrides));
    assert_eq!(node, identity("http://a-9999.example.com/graphql", 80, "pk3"));
}

#[test]
fn routed_port_boundaries() {
    let overrides = templates(&["h{}", "i{}", "j{}", "k{}", "l{}", "m{}"]);
    let node = node_identity("x", 10000, "s".to_string(), Some(&overrides));
    assert_eq!(node, identity("h0", 80, "s"));
    let node = node_identity("x", 65535, "s".to_string(), Some(&overrides));
    assert_eq!(node, identity("m5535", 80, "s"));
    let node = node_identity("x", 9999, "s".to_string(), Some(&overrides));
    assert_eq!(node, identity("x", 9999, "s"));
}

#[test]
fn routed_port_without_template_falls_back() {
    let node = node_identity("10.0.0.7", 10042, "pk1".to_string(), None);
    assert_eq!(node, identity("10.0.0.7", 10042, "pk1"));
    let empty: Vec<String> = Vec::new();
    let node = node_identity("10.0.0.7", 10042, "pk1".to_string(), Some(&empty));
    assert_eq!(node, identity("10.0.0.7", 10042, "pk1"));
    let short = templates(&["only-{}"]);
    let node = node_identity("10.0.0.7", 20042, "pk1".to_string(), Some(&short));
    assert_eq!(node, identity("10.0.0.7", 20042, "pk1"));
    let node = node_identity("10.0.0.7", 65535, "pk1".to_string(), Some(&short));
    assert_eq!(node, identity("10.0.0.7", 65535, "pk1"));
}

#[test]
fn submitter_is_carried_through() {
    let overrides = templates(&["t{}"]);
    for port in [0u16, 80, 9999, 10000, 10001, 20000, 65535] {
        let node = node_identity("a", port, "the submitter".to_string(), Some(&overrides));
        assert_eq!(node.submitter_pk, Some("the submitter".to_string()));
    }
}

#[test]
fn substitute_replaces_every_placeholder() {
    assert_eq!(substitute("node-{}.example.com", "42"), "node-42.example.com");
    assert_eq!(substitute("{}", "7"), "7");
    assert_eq!(substitute("{}-{}", "7"), "7-7");
    assert_eq!(substitute("{}{}", "12"), "1212");
    assert_eq!(substitute("no placeholder", "7"), "no placeholder");
    assert_eq!(substitute("", "7"), "");
    assert_eq!(substitute("{{}}", "7"), "{7}");
    assert_eq!(substitute("{ }", "7"), "{ }");
    assert_eq!(substitute("}{", "7"), "}{");
    assert_eq!(substitute("a{", "7"), "a{");
    assert_eq!(substitute("{}", ""), "");
    assert_eq!(substitute("{}", "{}"), "{}");
    assert_eq!(substitute("n\u{f6}de-{}-\u{2713}", "5"), "n\u{f6}de-5-\u{2713}");
}

#[test]
fn substitute_agrees_with_str_replace() {
    let values = ["", "0", "42", "{}", "}"];
    let texts = ["", "{}", "{{}}", "a{}b{}c", "{}{}{}", "{", "}", "{a}", "}{}{", "x"];
    for t in texts {
        for v in values {
            assert_eq!(substitute(t, v), t.replace("{}", v));
        }
    }
}

#[test]
fn decimal_string_has_no_leading_zero() {
    assert_eq!(decimal_string(0), "0");
    assert_eq!(decimal_string(7), "7");
    assert_eq!(decimal_string(10), "10");
    assert_eq!(decimal_string(42), "42");
    assert_eq!(decimal_string(100), "100");
    assert_eq!(decimal_string(9999), "9999");
    assert_eq!(decimal_string(10000), "10000");
    assert_eq!(decimal_string(65535), "65535");
}

#[test]
fn decimal_string_agrees_with_to_string() {
    for n in 0..=u16::MAX {
        assert_eq!(decimal_string(n), n.to_string());
    }
}

#[test]
fn host_of_cuts_at_the_first_colon() {
    assert_eq!(host_of("10.0.0.7:8302"), "10.0.0.7");
    assert_eq!(host_of("10.0.0.7"), "10.0.0.7");
    assert_eq!(host_of("a:b:c"), "a");
    assert_eq!(host_of(":8302"), "");
    assert_eq!(host_of("host:"), "host");
    assert_eq!(host_of(""), "");
    assert_eq!(host_of("h\u{f6}st:1"), "h\u{f6}st");
}

#[test]
fn stored_identity_ignores_templates_and_strips_the_port() {
    let record = SubmissionRecord {
        remote_addr: "10.0.0.7:51234".to_string(),
        submitter: "pk1".to_string(),
        graphql_control_port: 10042,
    };
    assert_eq!(stored_identity(record), identity("10.0.0.7", 10042, "pk1"));
    let record = SubmissionRecord {
        remote_addr: "10.0.0.8".to_string(),
        submitter: "pk2".to_string(),
        graphql_control_port: 3085,
    };
    assert_eq!(stored_identity(record), identity("10.0.0.8", 3085, "pk2"));
}
