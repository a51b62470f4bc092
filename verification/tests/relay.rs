//! The upstream reconnection notifier's request plan.

use firehose::relay::{crawl_body, crawl_plan, crawl_url};

#[test]
fn crawl_url_targets_the_request_crawl_endpoint() {
    assert_eq!(
        crawl_url("relay.example.com"),
        "https://relay.example.com/xrpc/com.atproto.sync.requestCrawl"
    );
}

#[test]
fn crawl_body_announces_this_node() {
    let body = crawl_body("pds.example.com");
    assert_eq!(body, "{\"hostname\":\"https://pds.example.com\"}");
    // The body is the JSON object the peer expects.
    let v: serde_json::Value = serde_json::from_str(&body).unwrap();
    assert_eq!(
        v.get("hostname").and_then(|h| h.as_str()),
        Some("https://pds.example.com")
    );
}

#[test]
fn exactly_one_request_per_configured_peer() {
    let hosts = vec!["one.example".to_string(), "two.example".to_string()];
    let plan = crawl_plan(&hosts, "self.example");
    assert_eq!(plan.len(), 2);
    assert_eq!(plan[0].url, "https://one.example/xrpc/com.atproto.sync.requestCrawl");
    assert_eq!(plan[1].url, "https://two.example/xrpc/com.atproto.sync.requestCrawl");
    assert!(plan.iter().all(|r| r.body == "{\"hostname\":\"https://self.example\"}"));
}

#[test]
fn no_peers_no_requests() {
    let plan = crawl_plan(&Vec::new(), "self.example");
    assert!(plan.is_empty());
}
