//! The request as it goes out on a hop.
//!
//! Methods and header names are judged by `hyper`, which reads them as it
//! will when the request is sent. Its judgement of a text is named here;
//! what is made of it is stated and proved for either judgement.

use crate::proxy::headers::{lookup, Header};
use crate::proxy::redirect::HopState;
use crate::proxy::types::ProxyRequest;
use crate::shared::text::{to_uppercase, uppercase};
use vstd::prelude::*;
use vstd::string::*;

verus! {

/// Whether `hyper::Method::from_str` takes a text for a method.
pub uninterp spec fn method_accepted(method: Seq<char>) -> bool;

/// Whether `hyper::header::HeaderName::from_str` takes a text for the name
/// of a header.
pub uninterp spec fn header_name_accepted(name: Seq<char>) -> bool;

/// Asks `hyper::Method::from_str`. Trusted: the result is `method_accepted`
/// of the text.
#[verifier::external_body]
fn accepts_method(method: &str) -> (b: bool)
    ensures
        b == method_accepted(method@),
{
    <hyper::Method as std::str::FromStr>::from_str(method).is_ok()
}

/// Asks `hyper::header::HeaderName::from_str`. Trusted: the result is
/// `header_name_accepted` of the text.
#[verifier::external_body]
fn accepts_header_name(name: &str) -> (b: bool)
    ensures
        b == header_name_accepted(name@),
{
    <hyper::header::HeaderName as std::str::FromStr>::from_str(name).is_ok()
}

/// The method as it is sent, from the method as it was given, the same in
/// uppercase, and whether that was taken for a method.
pub fn checked_method(given: &str, upper: String, accepted: bool) -> (r: Result<String, String>)
    ensures
        match r {
            Ok(method) => accepted && method == upper,
            Err(message) => !accepted && message@ == "Invalid method: "@ + given@,
        },
{
    if accepted {
        Ok(upper)
    } else {
        let mut message = String::from_str("Invalid method: ");
        message.append(given);
        Err(message)
    }
}

/// The method of a request as it is sent: in uppercase. A text that is no
/// method is refused with a message that names it.
pub fn validate_method(method: &str) -> (r: Result<String, String>)
    ensures
        match r {
            Ok(sent) => method_accepted(uppercase(method@)) && sent@ == uppercase(method@),
            Err(message) => !method_accepted(uppercase(method@)) && message@
                == "Invalid method: "@ + method@,
        },
{
    let upper = to_uppercase(method);
    let accepted = accepts_method(upper.as_str());
    checked_method(method, upper, accepted)
}

/// The pairs whose names are names of headers, in their order.
pub open spec fn kept(pairs: Seq<(Seq<char>, Seq<char>)>) -> Seq<(Seq<char>, Seq<char>)>
    decreases pairs.len(),
{
    if pairs.len() == 0 {
        Seq::empty()
    } else if header_name_accepted(pairs.last().0) {
        kept(pairs.drop_last()).push(pairs.last())
    } else {
        kept(pairs.drop_last())
    }
}

/// The headers that go out to `host` for a request with the headers
/// `pairs`: `Host`, then the request's own as far as their names are names
/// of headers, then `Accept-Encoding` unless the request has its own.
pub open spec fn outgoing_headers(host: Seq<char>, pairs: Seq<(Seq<char>, Seq<char>)>) -> Seq<
    (Seq<char>, Seq<char>),
> {
    let own = seq![("Host"@, host)] + kept(pairs);
    if lookup(pairs, "accept-encoding"@) is Some {
        own
    } else {
        own.push(("Accept-Encoding"@, "gzip, deflate, br"@))
    }
}

/// A request as it goes out on one hop.
#[derive(Debug)]
pub struct OutgoingRequest {
    pub method: String,
    /// The request target: path and query.
    pub target: String,
    /// The headers in the order in which they are sent.
    pub headers: Vec<Header>,
    pub body: String,
}

impl OutgoingRequest {
    /// The headers as pairs of name and value.
    pub open spec fn pairs(&self) -> Seq<(Seq<char>, Seq<char>)> {
        self.headers@.map_values(|h: Header| (h.name@, h.value@))
    }

    /// `self` is what goes out on `hop` for `request` under `method`.
    pub open spec fn carries(&self, method: Seq<char>, hop: HopState, request: ProxyRequest) -> bool {
        &&& self.method@ == method
        &&& self.target@ == hop.path@
        &&& self.pairs() == outgoing_headers(hop.host@, request.headers@)
        &&& self.body@ == match request.body {
            Some(body) => body@,
            None => Seq::<char>::empty(),
        }
    }
}

/// The request that goes out on `hop` for `request` under `method`.
pub fn outgoing(method: &str, hop: &HopState, request: &ProxyRequest) -> (out: OutgoingRequest)
    ensures
        out.carries(method@, *hop, *request),
{
    let mut headers: Vec<Header> = Vec::new();
    headers.push(Header { name: String::from_str("Host"), value: hop.host.clone() });
    let ghost pairs = request.headers@;
    let ghost first = seq![("Host"@, hop.host@)];
    let mut i: usize = 0;
    while i < request.headers.len()
        invariant
            i <= pairs.len(),
            pairs == request.headers@,
            first == seq![("Host"@, hop.host@)],
            headers@.map_values(|h: Header| (h.name@, h.value@)) == first + kept(
                pairs.take(i as int),
            ),
        decreases pairs.len() - i,
    {
        proof {
            assert(pairs.take(i + 1).drop_last() == pairs.take(i as int));
        }
        let ghost before = headers@.map_values(|h: Header| (h.name@, h.value@));
        match request.headers.entry(i) {
            Some(pair) => {
                if accepts_header_name(pair.name.as_str()) {
                    headers.push(Header { name: pair.name.clone(), value: pair.value.clone() });
                    assert(headers@.map_values(|h: Header| (h.name@, h.value@)) =~= before.push(
                        pairs[i as int],
                    ));
                }
            },
            None => {},
        }
        i = i + 1;
    }
    proof {
        assert(pairs.take(pairs.len() as int) == pairs);
    }
    if !request.headers.contains_key("accept-encoding") {
        let ghost before = headers@.map_values(|h: Header| (h.name@, h.value@));
        headers.push(
            Header {
                name: String::from_str("Accept-Encoding"),
                value: String::from_str("gzip, deflate, br"),
            },
        );
        assert(headers@.map_values(|h: Header| (h.name@, h.value@)) =~= before.push(
            ("Accept-Encoding"@, "gzip, deflate, br"@),
        ));
    }
    OutgoingRequest {
        method: String::from_str(method),
        target: hop.path.clone(),
        headers,
        body: match &request.body {
            Some(body) => body.clone(),
            None => String::new(),
        },
    }
}

} // verus!
