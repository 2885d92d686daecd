use firecrawl_command::command::Verb;
use firecrawl_command::error::Error;
use firecrawl_command::request::{
    build_request, build_request_for, request_around, request_body, HttpMethod, RedirectPolicy,
};

#[test]
fn scrape_request_is_an_authorized_post() {
    let r = build_request(Verb::Scrape, "https://example.com", "abc123");
    assert_eq!(r.method, HttpMethod::Post);
    assert_eq!(r.redirect_policy, RedirectPolicy::FollowAll);
    assert_eq!(r.url, "https://api.firecrawl.dev/v1/scrape");
    assert_eq!(
        r.headers,
        vec![
            ("Authorization".to_string(), "Bearer abc123".to_string()),
            ("Content-Type".to_string(), "application/json".to_string()),
        ]
    );
    assert_eq!(
        r.body,
        Some(b"{\"formats\":[\"markdown\"],\"url\":\"https://example.com\"}".to_vec())
    );
}

#[test]
fn crawl_request_goes_to_its_own_endpoint() {
    let r = build_request(Verb::Crawl, "https://example.com", "k");
    assert_eq!(r.url, "https://api.firecrawl.dev/v1/crawl");
    assert_eq!(r.headers[0].1, "Bearer k");
}

#[test]
fn body_is_the_json_of_the_request_object() {
    let r = build_request(Verb::Scrape, "https://example.com/a?b=c", "k");
    let body = r.body.unwrap();
    let parsed: serde_json::Value = serde_json::from_slice(&body).unwrap();
    let mut object = serde_json::Map::new();
    object.insert(
        "url".to_string(),
        serde_json::Value::String("https://example.com/a?b=c".to_string()),
    );
    object.insert(
        "formats".to_string(),
        serde_json::Value::Array(vec![serde_json::Value::String("markdown".to_string())]),
    );
    let expected = serde_json::Value::Object(object);
    assert_eq!(parsed, expected);
    assert_eq!(body, serde_json::to_vec(&expected).unwrap());
}

#[test]
fn address_is_escaped_in_the_body() {
    let url = "https://example.com/\"quoted\"\\path\n\u{e9}";
    let r = build_request(Verb::Scrape, url, "k");
    let body = r.body.unwrap();
    assert_eq!(
        body,
        "{\"formats\":[\"markdown\"],\"url\":\"https://example.com/\\\"quoted\\\"\\\\path\\n\u{e9}\"}"
            .as_bytes()
            .to_vec()
    );
    let parsed: serde_json::Value = serde_json::from_slice(&body).unwrap();
    assert_eq!(parsed.get("url").and_then(|v| v.as_str()), Some(url));
}

#[test]
fn body_wraps_a_given_literal() {
    assert_eq!(
        request_body("\"x\""),
        b"{\"formats\":[\"markdown\"],\"url\":\"x\"}".to_vec()
    );
    assert_eq!(request_body(""), b"{\"formats\":[\"markdown\"],\"url\":}".to_vec());
}

#[test]
fn request_around_a_literal_keeps_it() {
    let r = request_around(Verb::Scrape, "\"u\"", "secret");
    assert_eq!(r.method, HttpMethod::Post);
    assert_eq!(r.redirect_policy, RedirectPolicy::FollowAll);
    assert_eq!(r.url, "https://api.firecrawl.dev/v1/scrape");
    assert_eq!(r.headers.len(), 2);
    assert_eq!(r.headers[0], ("Authorization".to_string(), "Bearer secret".to_string()));
    assert_eq!(r.headers[1], ("Content-Type".to_string(), "application/json".to_string()));
    assert_eq!(r.body, Some(b"{\"formats\":[\"markdown\"],\"url\":\"u\"}".to_vec()));
}

#[test]
fn request_for_a_keyword_is_that_of_its_verb() {
    assert_eq!(
        build_request_for("scrape", "https://example.com", "abc123"),
        Ok(build_request(Verb::Scrape, "https://example.com", "abc123"))
    );
    assert_eq!(
        build_request_for("crawl", "https://example.com", "abc123"),
        Ok(build_request(Verb::Crawl, "https://example.com", "abc123"))
    );
}

#[test]
fn keyword_without_endpoint_is_an_invalid_verb() {
    assert_eq!(build_request_for("parse", "https://example.com", "k"), Err(Error::InvalidVerb));
    assert_eq!(build_request_for("", "https://example.com", "k"), Err(Error::InvalidVerb));
    assert_eq!(
        build_request_for("parse", "https://example.com", "k").unwrap_err().message(),
        "Invalid verb."
    );
}
