//! The upstream reconnection notifier's requests.
//!
//! When an idle tick finds the live-subscriber set empty, every
//! configured upstream peer is asked, best effort, to (re)start
//! streaming to this node.  The request targets and bodies are
//! computed here, exactly one per peer; the surrounding runtime
//! performs the calls and only logs their outcomes.

use vstd::prelude::*;
use vstd::string::*;

verus! {

/// The endpoint on peer `host` asked to (re)start crawling this node.
pub open spec fn crawl_url_chars(host: Seq<char>) -> Seq<char> {
    ("https://")@ + host + ("/xrpc/com.atproto.sync.requestCrawl")@
}

/// The JSON body announcing this node under `own_host`.  Hostnames
/// are plain DNS names, so no JSON escaping is called for.
pub open spec fn crawl_body_chars(own_host: Seq<char>) -> Seq<char> {
    ("{\"hostname\":\"https://")@ + own_host + ("\"}")@
}

/// One outbound notification: where to send it and what to say.
pub struct CrawlRequest {
    pub url: String,
    pub body: String,
}

/// Build the request target for one peer.
pub fn crawl_url(host: &str) -> (url: String)
    ensures
        url@ == crawl_url_chars(host@),
{
    let mut url = String::new();
    url.append("https://");
    url.append(host);
    url.append("/xrpc/com.atproto.sync.requestCrawl");
    url
}

/// Build the request body announcing this node.
pub fn crawl_body(own_host: &str) -> (body: String)
    ensures
        body@ == crawl_body_chars(own_host@),
{
    let mut body = String::new();
    body.append("{\"hostname\":\"https://");
    body.append(own_host);
    body.append("\"}");
    body
}

/// Build exactly one notification per configured peer, in order.
pub fn crawl_plan(hosts: &Vec<String>, own_host: &str) -> (plan: Vec<CrawlRequest>)
    ensures
        plan@.len() == hosts@.len(),
        forall|i: int|
            0 <= i < plan@.len() ==> (#[trigger] plan@[i]).url@ == crawl_url_chars(hosts@[i]@)
                && plan@[i].body@ == crawl_body_chars(own_host@),
{
    let mut plan: Vec<CrawlRequest> = Vec::new();
    let mut i: usize = 0;
    while i < hosts.len()
        invariant
            i <= hosts@.len(),
            plan@.len() == i,
            forall|j: int|
                0 <= j < i ==> (#[trigger] plan@[j]).url@ == crawl_url_chars(hosts@[j]@)
                    && plan@[j].body@ == crawl_body_chars(own_host@),
        decreases hosts@.len() - i,
    {
        let req = CrawlRequest { url: crawl_url(hosts[i].as_str()), body: crawl_body(own_host) };
        plan.push(req);
        i = i + 1;
    }
    plan
}

} // verus!
