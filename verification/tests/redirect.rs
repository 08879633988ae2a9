use http_visualizer_app::proxy::redirect::{
    advance, advance_with, hop_from, initialize, location_is_absolute, scheme_port, HopState,
    UrlParts,
};

fn hop(url: &str, host: &str, port: u16, path: &str, secure: bool) -> HopState {
    HopState {
        url: url.to_string(),
        host: host.to_string(),
        port,
        path: path.to_string(),
        secure,
    }
}

#[test]
fn plain_url_goes_to_port_80() {
    let hop = initialize("http://example.com").unwrap();
    assert_eq!(hop.url, "http://example.com");
    assert_eq!(hop.host, "example.com");
    assert_eq!(hop.port, 80);
    assert_eq!(hop.path, "/");
    assert!(!hop.secure);
}

#[test]
fn secure_url_goes_to_port_443() {
    let hop = initialize("https://example.com/a/b?x=1&y=2#frag").unwrap();
    assert_eq!(hop.url, "https://example.com/a/b?x=1&y=2#frag");
    assert_eq!(hop.host, "example.com");
    assert_eq!(hop.port, 443);
    assert_eq!(hop.path, "/a/b?x=1&y=2");
    assert!(hop.secure);
}

#[test]
fn explicit_port_is_kept() {
    let hop = initialize("http://localhost:8080/api").unwrap();
    assert_eq!(hop.host, "localhost");
    assert_eq!(hop.port, 8080);
    assert_eq!(hop.path, "/api");
    let hop = initialize("https://example.com:8443/").unwrap();
    assert_eq!(hop.port, 8443);
    assert!(hop.secure);
}

#[test]
fn host_is_normalized_by_the_parser() {
    let hop = initialize("HTTP://EXAMPLE.com/Path").unwrap();
    assert_eq!(hop.host, "example.com");
    assert_eq!(hop.path, "/Path");
    assert_eq!(hop.url, "HTTP://EXAMPLE.com/Path");
    assert!(!hop.secure);
}

#[test]
fn empty_query_is_kept() {
    let hop = initialize("http://example.com/search?").unwrap();
    assert_eq!(hop.path, "/search?");
}

#[test]
fn unparsable_url_is_refused() {
    let refusal = initialize("not a url").unwrap_err();
    assert!(refusal.message.starts_with("Invalid URL: "));
    assert!(refusal.message.len() > "Invalid URL: ".len());
    let refusal = initialize("").unwrap_err();
    assert!(refusal.message.starts_with("Invalid URL: "));
    let refusal = initialize("http://").unwrap_err();
    assert!(refusal.message.starts_with("Invalid URL: "));
}

#[test]
fn url_without_host_is_refused() {
    let refusal = initialize("data:text/plain,hello").unwrap_err();
    assert_eq!(refusal.message, "URL has no host");
    let refusal = initialize("mailto:someone@example.com").unwrap_err();
    assert_eq!(refusal.message, "URL has no host");
}

#[test]
fn hop_is_made_from_parts() {
    let parts = UrlParts {
        scheme: "https".to_string(),
        host: Some("h".to_string()),
        port: None,
        path: String::new(),
        query: Some("q=1".to_string()),
    };
    let hop = hop_from("given", Ok(parts)).unwrap();
    assert_eq!(hop.url, "given");
    assert_eq!(hop.host, "h");
    assert_eq!(hop.port, 443);
    assert_eq!(hop.path, "?q=1");
    assert!(hop.secure);

    let parts = UrlParts {
        scheme: "ftp".to_string(),
        host: Some("h".to_string()),
        port: Some(21),
        path: String::new(),
        query: None,
    };
    let hop = hop_from("ftp://h", Ok(parts)).unwrap();
    assert_eq!(hop.port, 21);
    assert_eq!(hop.path, "/");
    assert!(!hop.secure);

    let refusal = hop_from("x", Err("empty host".to_string())).unwrap_err();
    assert_eq!(refusal.message, "Invalid URL: empty host");
}

#[test]
fn scheme_ports_are_the_usual_ones() {
    assert_eq!(scheme_port(false), 80);
    assert_eq!(scheme_port(true), 443);
}

#[test]
fn absolute_locations_are_told_apart() {
    assert!(location_is_absolute("http://a.com/"));
    assert!(location_is_absolute("https://a.com/"));
    assert!(location_is_absolute("http://"));
    assert!(!location_is_absolute("HTTP://a.com/"));
    assert!(!location_is_absolute("//a.com/"));
    assert!(!location_is_absolute("/http://"));
    assert!(!location_is_absolute("ftp://a.com/"));
    assert!(!location_is_absolute(""));
    assert!(!location_is_absolute("http:/"));
}

#[test]
fn same_host_redirect_keeps_nonstandard_port() {
    let current = hop("http://a.com:9000/x", "a.com", 9000, "/x", false);
    let next = advance(&current, "http://a.com/y");
    assert_eq!(next.host, "a.com");
    assert_eq!(next.port, 9000);
    assert_eq!(next.path, "/y");
    assert!(!next.secure);
    assert_eq!(next.url, "http://a.com:9000/y");
}

#[test]
fn other_host_redirect_drops_the_port() {
    let current = hop("http://a.com:9000/x", "a.com", 9000, "/x", false);
    let next = advance(&current, "http://b.com/y");
    assert_eq!(next.host, "b.com");
    assert_eq!(next.port, 80);
    assert_eq!(next.path, "/y");
    assert_eq!(next.url, "http://b.com/y");

    let next = advance(&current, "https://b.com/y");
    assert_eq!(next.port, 443);
    assert!(next.secure);
    assert_eq!(next.url, "https://b.com/y");
}

#[test]
fn explicit_port_of_the_location_wins() {
    let current = hop("http://a.com:9000/x", "a.com", 9000, "/x", false);
    let next = advance(&current, "http://a.com:8080/y?z=1");
    assert_eq!(next.port, 8080);
    assert_eq!(next.path, "/y?z=1");
    assert_eq!(next.url, "http://a.com:8080/y?z=1");
    let next = advance(&current, "https://b.com:9443/");
    assert_eq!(next.host, "b.com");
    assert_eq!(next.port, 9443);
    assert_eq!(next.url, "https://b.com:9443/");
}

#[test]
fn standard_port_is_not_carried_to_another_scheme() {
    let current = hop("http://a.com/x", "a.com", 80, "/x", false);
    let next = advance(&current, "https://a.com/x");
    // Port 80 is not the port of https, so the same host keeps it.
    assert_eq!(next.port, 80);
    assert!(next.secure);
    assert_eq!(next.url, "https://a.com:80/x");

    let next = advance(&current, "http://a.com/y");
    assert_eq!(next.port, 80);
    assert_eq!(next.url, "http://a.com/y");

    let secure = hop("https://a.com/x", "a.com", 443, "/x", true);
    let next = advance(&secure, "https://a.com/y");
    assert_eq!(next.port, 443);
    assert_eq!(next.url, "https://a.com/y");
}

#[test]
fn relative_location_replaces_the_path() {
    let current = hop("https://a.com:9000/x?old=1", "a.com", 9000, "/x?old=1", true);
    let next = advance(&current, "/foo?x=1");
    assert_eq!(next.host, "a.com");
    assert_eq!(next.port, 9000);
    assert!(next.secure);
    assert_eq!(next.path, "/foo?x=1");
    assert_eq!(next.url, "https://a.com:9000/foo?x=1");
}

#[test]
fn relative_location_without_slash_gets_one() {
    let current = hop("http://a.com/dir/page", "a.com", 80, "/dir/page", false);
    let next = advance(&current, "other");
    assert_eq!(next.path, "/other");
    assert_eq!(next.url, "http://a.com/other");
    assert_eq!(next.host, "a.com");
    assert_eq!(next.port, 80);

    let next = advance(&current, "../up?x");
    assert_eq!(next.path, "/../up?x");
    assert_eq!(next.url, "http://a.com/../up?x");

    let next = advance(&current, "");
    assert_eq!(next.path, "/");
    assert_eq!(next.url, "http://a.com/");
}

#[test]
fn default_port_is_left_out_of_the_url() {
    let current = hop("https://a.com/", "a.com", 443, "/", true);
    assert_eq!(advance(&current, "/x").url, "https://a.com/x");
    let current = hop("https://a.com:80/", "a.com", 80, "/", true);
    assert_eq!(advance(&current, "/x").url, "https://a.com:80/x");
    let current = hop("http://a.com:443/", "a.com", 443, "/", false);
    assert_eq!(advance(&current, "/x").url, "http://a.com:443/x");
    let current = hop("http://a.com:65535/", "a.com", 65535, "/", false);
    assert_eq!(advance(&current, "/x").url, "http://a.com:65535/x");
}

#[test]
fn unparsable_absolute_location_changes_only_the_url() {
    let current = hop("http://a.com:9000/x", "a.com", 9000, "/x", false);
    let next = advance(&current, "http://");
    assert_eq!(next.url, "http://");
    assert_eq!(next.host, "a.com");
    assert_eq!(next.port, 9000);
    assert_eq!(next.path, "/x");
    assert!(!next.secure);
}

#[test]
fn advance_with_follows_the_given_parts() {
    let current = hop("http://a.com:9000/x", "a.com", 9000, "/x", false);
    let parts = UrlParts {
        scheme: "https".to_string(),
        host: None,
        port: None,
        path: "/p".to_string(),
        query: Some("q".to_string()),
    };
    let next = advance_with(&current, "https://ignored/", Ok(parts));
    assert_eq!(next.host, "a.com");
    assert_eq!(next.port, 9000);
    assert!(next.secure);
    assert_eq!(next.path, "/p?q");
    assert_eq!(next.url, "https://a.com:9000/p?q");

    // The parts of a relative location are not looked at.
    let next = advance_with(&current, "/rel", Err("whatever".to_string()));
    assert_eq!(next.path, "/rel");
    assert_eq!(next.url, "http://a.com:9000/rel");
}
