use shifter_api::{ApiError, Dict, HttpMethod, QueryBuilder, WebScrapingAPI};

#[test]
fn url_begins_with_endpoint_and_api_key() {
    let wsa = WebScrapingAPI::new("my_key");
    let mut params = Dict::new();
    params.set("render_js", "1");
    params.set("country", "US");
    let url = wsa.params_to_api_url(&params);
    assert!(url.starts_with("https://scrape.shifter.io/v1?api_key=my_key"));
    assert!(url.contains("&render_js=1"));
    assert!(url.contains("&country=US"));
    // one `&name=value` segment per entry
    assert_eq!(url.matches('&').count(), 2);
}

#[test]
fn url_with_no_parameters_is_just_endpoint_and_key() {
    let wsa = WebScrapingAPI::new("k");
    let params = Dict::new();
    assert_eq!(wsa.params_to_api_url(&params), "https://scrape.shifter.io/v1?api_key=k");
}

#[test]
fn only_the_url_parameter_is_percent_encoded() {
    let wsa = WebScrapingAPI::new("k");
    let mut params = Dict::new();
    params.set("url", "http://a.com/b c");
    params.set("wait_for", "a b");
    let url = wsa.params_to_api_url(&params);
    assert!(url.contains("b%20c"));
    assert!(url.contains("&url=http%3A%2F%2Fa.com%2Fb%20c"));
    assert!(url.contains("&wait_for=a b"));
    assert!(!url.contains("a%20b"));
}

#[test]
fn get_builds_a_get_plan_with_url_headers_and_no_body() {
    let wsa = WebScrapingAPI::new("secret");
    let mut qb = QueryBuilder::new();
    qb.url("http://httpbin.org/headers");
    let mut headers = Dict::new();
    headers.set("Wsa-test", "abcd");
    qb.headers(headers);

    let plan = wsa.get(qb).unwrap();
    assert_eq!(plan.method, HttpMethod::Get);
    assert!(plan.url.starts_with("https://scrape.shifter.io/v1?api_key=secret"));
    assert!(plan.url.contains("&url=http%3A%2F%2Fhttpbin.org%2Fheaders"));
    assert_eq!(plan.headers.len(), 1);
    assert_eq!(plan.headers.get("Wsa-test"), Some("abcd".to_string()));
    assert!(plan.body.is_none());
}

#[test]
fn post_builds_a_post_plan_with_json_body() {
    let wsa = WebScrapingAPI::new("secret");
    let mut qb = QueryBuilder::new();
    qb.url("http://httpbin.org/post");
    let mut body = Dict::new();
    body.set("a", "1");
    body.set("b", "2");
    qb.body(body);

    let plan = wsa.post(qb).unwrap();
    assert_eq!(plan.method, HttpMethod::Post);
    assert!(plan.url.starts_with("https://scrape.shifter.io/v1?api_key=secret"));
    assert_eq!(plan.body, Some("{\"a\":\"1\",\"b\":\"2\"}".to_string()));
}

#[test]
fn put_builds_a_put_plan_with_json_body() {
    let wsa = WebScrapingAPI::new("secret");
    let mut qb = QueryBuilder::new();
    qb.url("http://httpbin.org/put");
    let mut body = Dict::new();
    body.set("k", "v");
    qb.body(body);

    let plan = wsa.put(qb).unwrap();
    assert_eq!(plan.method, HttpMethod::Put);
    assert_eq!(plan.body, Some("{\"k\":\"v\"}".to_string()));
}

#[test]
fn post_with_empty_body_sends_an_empty_json_object() {
    let wsa = WebScrapingAPI::new("secret");
    let qb = QueryBuilder::new();
    let plan = wsa.post(qb).unwrap();
    assert_eq!(plan.body, Some("{}".to_string()));
}

#[test]
fn json_body_escapes_quotes_backslashes_and_control_characters() {
    let wsa = WebScrapingAPI::new("k");
    let params = Dict::new();
    let headers = Dict::new();
    let mut body = Dict::new();
    body.set("k", "a\"b\\c\nd");
    let plan = wsa.raw_post(params, headers, body).unwrap();
    assert_eq!(plan.body, Some("{\"k\":\"a\\\"b\\\\c\\u000ad\"}".to_string()));
}

#[test]
fn raw_get_builds_a_get_plan_from_raw_mappings() {
    let wsa = WebScrapingAPI::new("k");
    let mut params = Dict::new();
    params.set("url", "http://httpbin.org/headers");
    let mut headers = Dict::new();
    headers.set("Wsa-test", "abcd");

    let plan = wsa.raw_get(params, headers).unwrap();
    assert_eq!(plan.method, HttpMethod::Get);
    assert!(plan.url.contains("&url=http%3A%2F%2Fhttpbin.org%2Fheaders"));
    assert_eq!(plan.headers.get("Wsa-test"), Some("abcd".to_string()));
    assert!(plan.body.is_none());
}

#[test]
fn raw_put_builds_a_put_plan_from_raw_mappings() {
    let wsa = WebScrapingAPI::new("k");
    let mut params = Dict::new();
    params.set("session", "9");
    let headers = Dict::new();
    let mut body = Dict::new();
    body.set("x", "y");

    let plan = wsa.raw_put(params, headers, body).unwrap();
    assert_eq!(plan.method, HttpMethod::Put);
    assert!(plan.url.contains("&session=9"));
    assert_eq!(plan.body, Some("{\"x\":\"y\"}".to_string()));
}

#[test]
fn control_character_in_header_value_fails_before_any_plan_is_built() {
    let wsa = WebScrapingAPI::new("k");
    let mut headers = Dict::new();
    headers.set("X-Test", "bad\nvalue");

    let mut qb = QueryBuilder::new();
    qb.url("http://a.com");
    qb.headers(headers.duplicate());
    assert_eq!(wsa.get(qb).unwrap_err(), ApiError::InvalidHeaders);

    let mut qb = QueryBuilder::new();
    qb.headers(headers.duplicate());
    assert_eq!(wsa.post(qb).unwrap_err(), ApiError::InvalidHeaders);

    let mut qb = QueryBuilder::new();
    qb.headers(headers.duplicate());
    assert_eq!(wsa.put(qb).unwrap_err(), ApiError::InvalidHeaders);

    assert_eq!(
        wsa.raw_get(Dict::new(), headers.duplicate()).unwrap_err(),
        ApiError::InvalidHeaders
    );
}

#[test]
fn invalid_header_name_fails_before_any_plan_is_built() {
    let wsa = WebScrapingAPI::new("k");

    let mut spaced = Dict::new();
    spaced.set("Bad Name", "x");
    assert_eq!(wsa.raw_get(Dict::new(), spaced).unwrap_err(), ApiError::InvalidHeaders);

    let mut empty_name = Dict::new();
    empty_name.set("", "x");
    assert_eq!(wsa.raw_get(Dict::new(), empty_name).unwrap_err(), ApiError::InvalidHeaders);
}

#[test]
fn tab_in_header_value_is_allowed() {
    let wsa = WebScrapingAPI::new("k");
    let mut headers = Dict::new();
    headers.set("X-Test", "a\tb");
    assert!(wsa.raw_get(Dict::new(), headers).is_ok());
}
