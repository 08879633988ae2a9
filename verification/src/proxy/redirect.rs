//! Where a request goes, and where a redirect takes it from there.
//!
//! A hop is one request to one server. The hop state says where the next
//! request goes: it is made from the URL of the request and remade from each
//! `Location` header that is followed.
//!
//! URLs are parsed by the `url` crate. What it returns for a string is named
//! `url_parsed` here; the rules of this module are stated over that name and
//! proved for whatever it is.

use crate::shared::text::{decimal, decimal_text, has_prefix, same_text, starts_with};
use vstd::prelude::*;
use vstd::string::*;

verus! {

/// The components of a parsed URL.
#[derive(Debug)]
pub struct UrlParts {
    pub scheme: String,
    pub host: Option<String>,
    /// The port, where the URL names one that is not its scheme's own.
    pub port: Option<u16>,
    pub path: String,
    pub query: Option<String>,
}

/// The components of a parsed URL, as values of specifications.
pub struct UrlPartsView {
    pub scheme: Seq<char>,
    pub host: Option<Seq<char>>,
    pub port: Option<u16>,
    pub path: Seq<char>,
    pub query: Option<Seq<char>>,
}

impl View for UrlParts {
    type V = UrlPartsView;

    open spec fn view(&self) -> UrlPartsView {
        UrlPartsView {
            scheme: self.scheme@,
            host: match self.host {
                Some(h) => Some(h@),
                None => None,
            },
            port: self.port,
            path: self.path@,
            query: match self.query {
                Some(q) => Some(q@),
                None => None,
            },
        }
    }
}

/// What `url::Url::parse` makes of a string: the components of the URL as
/// its accessors `scheme`, `host_str`, `port`, `path` and `query` give them,
/// or the text of the parse error.
pub uninterp spec fn url_parsed(text: Seq<char>) -> Result<UrlPartsView, Seq<char>>;

/// The exec result `r` stands for the parse outcome `model`.
pub open spec fn parse_stands_for(
    r: Result<UrlParts, String>,
    model: Result<UrlPartsView, Seq<char>>,
) -> bool {
    match r {
        Ok(parts) => model == Ok::<UrlPartsView, Seq<char>>(parts@),
        Err(e) => model == Err::<UrlPartsView, Seq<char>>(e@),
    }
}

/// Parses `text` with `url::Url::parse` and copies the components out.
/// Trusted: the result is `url_parsed` of the text, the error being the
/// parser's own message.
#[verifier::external_body]
fn parse_url(text: &str) -> (r: Result<UrlParts, String>)
    ensures
        parse_stands_for(r, url_parsed(text@)),
{
    match url::Url::parse(text) {
        Ok(u) => Ok(
            UrlParts {
                scheme: u.scheme().to_string(),
                host: u.host_str().map(|h| h.to_string()),
                port: u.port(),
                path: u.path().to_string(),
                query: u.query().map(|q| q.to_string()),
            },
        ),
        Err(e) => Err(e.to_string()),
    }
}

/// Where the next request goes.
#[derive(Debug)]
pub struct HopState {
    /// The URL of the request.
    pub url: String,
    pub host: String,
    pub port: u16,
    /// The path, with `?` and the query where there is one.
    pub path: String,
    /// Whether the request goes over TLS.
    pub secure: bool,
}

/// A hop state as a value of specifications.
pub struct HopView {
    pub url: Seq<char>,
    pub host: Seq<char>,
    pub port: u16,
    pub path: Seq<char>,
    pub secure: bool,
}

impl View for HopState {
    type V = HopView;

    open spec fn view(&self) -> HopView {
        HopView {
            url: self.url@,
            host: self.host@,
            port: self.port,
            path: self.path@,
            secure: self.secure,
        }
    }
}

/// A URL that cannot be requested, with the reason.
#[derive(Debug)]
pub struct InvalidUrl {
    pub message: String,
}

/// The port of a scheme where a URL names none: 443 over TLS, else 80.
pub open spec fn default_port(secure: bool) -> u16 {
    if secure {
        443
    } else {
        80
    }
}

/// The name of the scheme.
pub open spec fn scheme_name(secure: bool) -> Seq<char> {
    if secure {
        "https"@
    } else {
        "http"@
    }
}

/// The request target: the path, `/` for an empty one, with `?` and the
/// query where there is one.
pub open spec fn target(path: Seq<char>, query: Option<Seq<char>>) -> Seq<char> {
    let full = match query {
        Some(q) => path + "?"@ + q,
        None => path,
    };
    if full.len() == 0 {
        "/"@
    } else {
        full
    }
}

/// Host and port as a URL holds them: the port stays away where it is the
/// scheme's own.
pub open spec fn authority(host: Seq<char>, port: u16, secure: bool) -> Seq<char> {
    if port == default_port(secure) {
        host
    } else {
        host + ":"@ + decimal(port as nat)
    }
}

/// The full URL of a hop.
pub open spec fn hop_url(secure: bool, host: Seq<char>, port: u16, path: Seq<char>) -> Seq<char> {
    scheme_name(secure) + "://"@ + authority(host, port, secure) + path
}

/// The first hop of a request for `url`, given what parsing made of it: a
/// URL that does not parse, or has no host, is refused.
pub open spec fn first_hop(url: Seq<char>, parsed: Result<UrlPartsView, Seq<char>>) -> Result<
    HopView,
    Seq<char>,
> {
    match parsed {
        Err(e) => Err("Invalid URL: "@ + e),
        Ok(parts) => match parts.host {
            None => Err("URL has no host"@),
            Some(host) => {
                let secure = parts.scheme == "https"@;
                Ok(
                    HopView {
                        url,
                        host,
                        port: match parts.port {
                            Some(p) => p,
                            None => default_port(secure),
                        },
                        path: target(parts.path, parts.query),
                        secure,
                    },
                )
            },
        },
    }
}

/// A location is absolute when it begins with `http://` or `https://`.
pub open spec fn is_absolute(location: Seq<char>) -> bool {
    has_prefix(location, "http://"@) || has_prefix(location, "https://"@)
}

/// The hop to which an absolute location takes `current`, given its parsed
/// components. The port is the one the location names; without one, a
/// location on the current host keeps a current port that is not the new
/// scheme's own; else the port is the new scheme's own.
pub open spec fn absolute_hop(current: HopView, parts: UrlPartsView) -> HopView {
    let secure = parts.scheme == "https"@;
    let host = match parts.host {
        Some(h) => h,
        None => current.host,
    };
    let port = match parts.port {
        Some(p) => p,
        None => if host == current.host && current.port != default_port(secure) {
            current.port
        } else {
            default_port(secure)
        },
    };
    let path = target(parts.path, parts.query);
    HopView { url: hop_url(secure, host, port, path), host, port, path, secure }
}

/// The hop to which a relative location takes `current`: scheme, host and
/// port stay; the location is the new path, behind a `/` where it does not
/// begin with one.
pub open spec fn relative_hop(current: HopView, location: Seq<char>) -> HopView {
    let path = if has_prefix(location, "/"@) {
        location
    } else {
        "/"@ + location
    };
    HopView {
        url: hop_url(current.secure, current.host, current.port, path),
        host: current.host,
        port: current.port,
        path,
        secure: current.secure,
    }
}

/// The hop to which `location` takes `current`, given what parsing made of
/// the location. An absolute location that does not parse changes nothing
/// but the URL, which becomes the location.
pub open spec fn next_hop(
    current: HopView,
    location: Seq<char>,
    parsed: Result<UrlPartsView, Seq<char>>,
) -> HopView {
    if is_absolute(location) {
        match parsed {
            Ok(parts) => absolute_hop(current, parts),
            Err(_) => HopView { url: location, ..current },
        }
    } else {
        relative_hop(current, location)
    }
}

/// The port of a scheme where a URL names none.
pub fn scheme_port(secure: bool) -> (port: u16)
    ensures
        port == default_port(secure),
{
    if secure {
        443
    } else {
        80
    }
}

/// The request target of a path and a query.
fn request_target(path: &str, query: &Option<String>) -> (r: String)
    ensures
        r@ == target(
            path@,
            match *query {
                Some(q) => Some(q@),
                None => None,
            },
        ),
{
    let mut full = String::from_str(path);
    match query {
        Some(q) => {
            full.append("?");
            full.append(q.as_str());
        },
        None => {},
    }
    if full.as_str().is_empty() {
        String::from_str("/")
    } else {
        full
    }
}

/// The full URL of a hop.
fn render_url(secure: bool, host: &str, port: u16, path: &str) -> (r: String)
    ensures
        r@ == hop_url(secure, host@, port, path@),
{
    let mut url = String::from_str(
        if secure {
            "https"
        } else {
            "http"
        },
    );
    url.append("://");
    url.append(host);
    if port != scheme_port(secure) {
        url.append(":");
        let digits = decimal_text(port as u64);
        url.append(digits.as_str());
    }
    url.append(path);
    url
}

/// The first hop of a request for `url`, given what parsing made of it.
pub fn hop_from(url: &str, parsed: Result<UrlParts, String>) -> (r: Result<HopState, InvalidUrl>)
    ensures
        match r {
            Ok(hop) => first_hop(
                url@,
                match parsed {
                    Ok(parts) => Ok(parts@),
                    Err(e) => Err(e@),
                },
            ) == Ok::<HopView, Seq<char>>(hop@),
            Err(refusal) => first_hop(
                url@,
                match parsed {
                    Ok(parts) => Ok(parts@),
                    Err(e) => Err(e@),
                },
            ) == Err::<HopView, Seq<char>>(refusal.message@),
        },
{
    match parsed {
        Err(e) => {
            let mut message = String::from_str("Invalid URL: ");
            message.append(e.as_str());
            Err(InvalidUrl { message })
        },
        Ok(parts) => {
            let secure = same_text(parts.scheme.as_str(), "https");
            let path = request_target(parts.path.as_str(), &parts.query);
            let port = match parts.port {
                Some(p) => p,
                None => scheme_port(secure),
            };
            match parts.host {
                None => Err(InvalidUrl { message: String::from_str("URL has no host") }),
                Some(host) => Ok(HopState { url: String::from_str(url), host, port, path, secure }),
            }
        },
    }
}

/// The first hop of a request for `url`. A URL that does not parse, or has
/// no host, is refused.
pub fn initialize(url: &str) -> (r: Result<HopState, InvalidUrl>)
    ensures
        match r {
            Ok(hop) => first_hop(url@, url_parsed(url@)) == Ok::<HopView, Seq<char>>(hop@),
            Err(refusal) => first_hop(url@, url_parsed(url@)) == Err::<HopView, Seq<char>>(
                refusal.message@,
            ),
        },
{
    hop_from(url, parse_url(url))
}

/// Whether a location is absolute.
pub fn location_is_absolute(location: &str) -> (b: bool)
    ensures
        b == is_absolute(location@),
{
    starts_with(location, "http://") || starts_with(location, "https://")
}

/// The hop to which `location` takes `current`, given what parsing made of
/// the location.
pub fn advance_with(current: &HopState, location: &str, parsed: Result<UrlParts, String>) -> (next:
    HopState)
    ensures
        next@ == next_hop(
            current@,
            location@,
            match parsed {
                Ok(parts) => Ok(parts@),
                Err(e) => Err(e@),
            },
        ),
{
    if location_is_absolute(location) {
        match parsed {
            Ok(parts) => {
                let secure = same_text(parts.scheme.as_str(), "https");
                let host = match parts.host {
                    Some(h) => h,
                    None => current.host.clone(),
                };
                let port = match parts.port {
                    Some(p) => p,
                    None => if same_text(host.as_str(), current.host.as_str()) && current.port
                        != scheme_port(secure) {
                        current.port
                    } else {
                        scheme_port(secure)
                    },
                };
                let path = request_target(parts.path.as_str(), &parts.query);
                let url = render_url(secure, host.as_str(), port, path.as_str());
                HopState { url, host, port, path, secure }
            },
            Err(_) => HopState {
                url: String::from_str(location),
                host: current.host.clone(),
                port: current.port,
                path: current.path.clone(),
                secure: current.secure,
            },
        }
    } else {
        let path = if starts_with(location, "/") {
            String::from_str(location)
        } else {
            let mut p = String::from_str("/");
            p.append(location);
            p
        };
        let url = render_url(current.secure, current.host.as_str(), current.port, path.as_str());
        HopState {
            url,
            host: current.host.clone(),
            port: current.port,
            path,
            secure: current.secure,
        }
    }
}

/// The hop to which the `Location` header `location` takes `current`.
pub fn advance(current: &HopState, location: &str) -> (next: HopState)
    ensures
        next@ == next_hop(current@, location@, url_parsed(location@)),
{
    if location_is_absolute(location) {
        advance_with(current, location, parse_url(location))
    } else {
        advance_with(current, location, Err(String::new()))
    }
}

/// A relative location keeps scheme, host and port. Where it begins with
/// `/` it becomes the path as it stands, query and all.
pub proof fn lemma_relative_keeps_origin(
    current: HopView,
    location: Seq<char>,
    parsed: Result<UrlPartsView, Seq<char>>,
)
    requires
        !is_absolute(location),
    ensures
        next_hop(current, location, parsed).secure == current.secure,
        next_hop(current, location, parsed).host == current.host,
        next_hop(current, location, parsed).port == current.port,
        has_prefix(location, "/"@) ==> next_hop(current, location, parsed).path == location,
        !has_prefix(location, "/"@) ==> next_hop(current, location, parsed).path == "/"@
            + location,
{
}

/// An absolute location on the current host that names no port keeps the
/// current port, unless that is the port of the new scheme anyway.
pub proof fn lemma_same_host_keeps_port(
    current: HopView,
    location: Seq<char>,
    parts: UrlPartsView,
)
    requires
        is_absolute(location),
        parts.host == Some(current.host),
        parts.port is None,
    ensures
        next_hop(current, location, Ok(parts)).port == current.port,
        next_hop(current, location, Ok(parts)).host == current.host,
        next_hop(current, location, Ok(parts)).secure == (parts.scheme == "https"@),
        next_hop(current, location, Ok(parts)).path == target(parts.path, parts.query),
{
}

/// An absolute location on another host never takes the current port
/// along: the port is the one the location names, else the port of its
/// scheme.
pub proof fn lemma_other_host_drops_port(
    current: HopView,
    location: Seq<char>,
    parts: UrlPartsView,
)
    requires
        is_absolute(location),
        parts.host matches Some(h) && h != current.host,
    ensures
        next_hop(current, location, Ok(parts)).port == match parts.port {
            Some(p) => p,
            None => default_port(parts.scheme == "https"@),
        },
        next_hop(current, location, Ok(parts)).host == parts.host->0,
{
}

/// The URL of the hop that a redirect leads to is fully qualified, and
/// holds the port only where it is not the scheme's own.
pub proof fn lemma_next_url_qualified(
    current: HopView,
    location: Seq<char>,
    parsed: Result<UrlPartsView, Seq<char>>,
)
    requires
        !is_absolute(location) || parsed is Ok,
    ensures
        ({
            let next = next_hop(current, location, parsed);
            next.url == scheme_name(next.secure) + "://"@ + authority(
                next.host,
                next.port,
                next.secure,
            ) + next.path
        }),
        ({
            let next = next_hop(current, location, parsed);
            next.port == default_port(next.secure) ==> next.url == scheme_name(next.secure)
                + "://"@ + next.host + next.path
        }),
{
}

} // verus!
