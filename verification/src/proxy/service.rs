//! The executor as a service.

use crate::proxy::executor::{begins, execute_request, Step};
use crate::proxy::headers::Headers;
use crate::proxy::types::ProxyRequest;
use std::sync::Arc;
use vstd::prelude::*;
use vstd::string::*;

verus! {

/// `request` asks for `url` by `method`, with `body`, without headers of
/// its own and under the timeout that holds where none is named.
pub open spec fn plain_request(
    request: ProxyRequest,
    method: Seq<char>,
    url: Seq<char>,
    body: Option<String>,
) -> bool {
    &&& request.method@ == method
    &&& request.url@ == url
    &&& request.headers@.len() == 0
    &&& request.body == body
    &&& request.timeout is None
}

/// The request that gets `url`.
pub fn get_request(url: &str) -> (request: ProxyRequest)
    ensures
        plain_request(request, "GET"@, url@, None),
{
    ProxyRequest {
        method: String::from_str("GET"),
        url: String::from_str(url),
        headers: Headers::new(),
        body: None,
        timeout: None,
    }
}

/// The request that posts `body` to `url`.
pub fn post_request(url: &str, body: Option<String>) -> (request: ProxyRequest)
    ensures
        plain_request(request, "POST"@, url@, body),
{
    ProxyRequest {
        method: String::from_str("POST"),
        url: String::from_str(url),
        headers: Headers::new(),
        body,
        timeout: None,
    }
}

/// The service that executes requests over HTTP.
#[derive(Default, Clone)]
pub struct HttpProxyService;

impl HttpProxyService {
    /// A service.
    pub fn new() -> (service: Self) {
        HttpProxyService
    }

    /// A service behind a shared pointer.
    pub fn arc() -> (service: Arc<Self>) {
        Arc::new(HttpProxyService::new())
    }

    /// Begins the execution of `request` at the instant `now`.
    pub fn execute(&self, request: ProxyRequest, now: u64) -> (post: Step)
        ensures
            begins(request, now, post),
            post matches Step::Continue { execution, .. } ==> execution@.wf(),
    {
        execute_request(request, now)
    }

    /// Begins to get `url` at the instant `now`.
    pub fn get(&self, url: &str, now: u64) -> (post: Step)
        ensures
            exists|request: ProxyRequest|
                plain_request(request, "GET"@, url@, None) && begins(request, now, post),
    {
        self.execute(get_request(url), now)
    }

    /// Begins to post `body` to `url` at the instant `now`.
    pub fn post(&self, url: &str, body: Option<String>, now: u64) -> (post: Step)
        ensures
            exists|request: ProxyRequest|
                plain_request(request, "POST"@, url@, body) && begins(request, now, post),
    {
        self.execute(post_request(url, body), now)
    }
}

} // verus!
