use shifter_api::{ApiError, Dict, QueryBuilder};

#[test]
fn set_then_get_returns_value_for_every_parameter() {
    let mut qb = QueryBuilder::new();
    qb.url("http://httpbin.org/headers");
    qb.render_js("1");
    qb.proxy_type("datacenter");
    qb.country("US");
    qb.keep_headers("1");
    qb.session("100");
    qb.timeout("20000");
    qb.device("desktop");
    qb.wait_until("domcontentloaded");
    qb.wait_for("2000");
    qb.wait_for_css(".content");
    qb.screenshot("1");
    qb.extract_rules("{}");
    qb.disable_stealth("1");
    qb.auto_parser("1");
    qb.js_instructions("[]");

    assert_eq!(qb.get_url().unwrap(), "http://httpbin.org/headers");
    assert_eq!(qb.get_render_js().unwrap(), "1");
    assert_eq!(qb.get_proxy_type().unwrap(), "datacenter");
    assert_eq!(qb.get_country().unwrap(), "US");
    assert_eq!(qb.get_keep_headers().unwrap(), "1");
    assert_eq!(qb.get_session().unwrap(), "100");
    assert_eq!(qb.get_timeout().unwrap(), "20000");
    assert_eq!(qb.get_device().unwrap(), "desktop");
    assert_eq!(qb.get_wait_until().unwrap(), "domcontentloaded");
    assert_eq!(qb.get_wait_for().unwrap(), "2000");
    assert_eq!(qb.get_wait_for_css().unwrap(), ".content");
    assert_eq!(qb.get_screenshot().unwrap(), "1");
    assert_eq!(qb.get_extract_rules().unwrap(), "{}");
    assert_eq!(qb.get_disable_stealth().unwrap(), "1");
    assert_eq!(qb.get_auto_parser().unwrap(), "1");
    assert_eq!(qb.get_js_instructions().unwrap(), "[]");
}

#[test]
fn get_before_set_fails_for_every_parameter() {
    let qb = QueryBuilder::new();
    assert_eq!(qb.get_url(), Err(ApiError::MissingParameter));
    assert_eq!(qb.get_render_js(), Err(ApiError::MissingParameter));
    assert_eq!(qb.get_proxy_type(), Err(ApiError::MissingParameter));
    assert_eq!(qb.get_country(), Err(ApiError::MissingParameter));
    assert_eq!(qb.get_keep_headers(), Err(ApiError::MissingParameter));
    assert_eq!(qb.get_session(), Err(ApiError::MissingParameter));
    assert_eq!(qb.get_timeout(), Err(ApiError::MissingParameter));
    assert_eq!(qb.get_device(), Err(ApiError::MissingParameter));
    assert_eq!(qb.get_wait_until(), Err(ApiError::MissingParameter));
    assert_eq!(qb.get_wait_for(), Err(ApiError::MissingParameter));
    assert_eq!(qb.get_wait_for_css(), Err(ApiError::MissingParameter));
    assert_eq!(qb.get_screenshot(), Err(ApiError::MissingParameter));
    assert_eq!(qb.get_extract_rules(), Err(ApiError::MissingParameter));
    assert_eq!(qb.get_disable_stealth(), Err(ApiError::MissingParameter));
    assert_eq!(qb.get_auto_parser(), Err(ApiError::MissingParameter));
    assert_eq!(qb.get_js_instructions(), Err(ApiError::MissingParameter));
}

#[test]
fn setting_a_parameter_twice_keeps_the_last_value() {
    let mut qb = QueryBuilder::new();
    qb.country("US");
    qb.country("DE");
    assert_eq!(qb.get_country().unwrap(), "DE");

    let params = qb.get_params();
    assert_eq!(params.len(), 1);
}

#[test]
fn setter_leaves_other_parameters_alone() {
    let mut qb = QueryBuilder::new();
    qb.url("http://a.com");
    qb.render_js("1");
    qb.url("http://b.com");
    assert_eq!(qb.get_render_js().unwrap(), "1");
    assert_eq!(qb.get_url().unwrap(), "http://b.com");
}

#[test]
fn headers_setter_replaces_the_whole_mapping() {
    let mut qb = QueryBuilder::new();

    let mut first = Dict::new();
    first.set("Wsa-test", "abcd");
    first.set("X-One", "1");
    qb.headers(first);

    let mut second = Dict::new();
    second.set("X-Two", "2");
    qb.headers(second);

    let headers = qb.get_headers();
    assert_eq!(headers.len(), 1);
    assert_eq!(headers.get("X-Two"), Some("2".to_string()));
    assert_eq!(headers.get("Wsa-test"), None);
    assert_eq!(headers.get("X-One"), None);
}

#[test]
fn body_setter_replaces_the_whole_mapping() {
    let mut qb = QueryBuilder::new();

    let mut first = Dict::new();
    first.set("a", "1");
    first.set("b", "2");
    qb.body(first);

    let mut second = Dict::new();
    second.set("c", "3");
    qb.body(second);

    let body = qb.get_body();
    assert_eq!(body.len(), 1);
    assert_eq!(body.get("c"), Some("3".to_string()));
    assert_eq!(body.get("a"), None);
    assert_eq!(body.get("b"), None);
}

#[test]
fn get_params_returns_a_copy_of_the_parameter_mapping() {
    let mut qb = QueryBuilder::new();
    qb.url("http://a.com");
    qb.session("7");
    let params = qb.get_params();
    assert_eq!(params.len(), 2);
    assert_eq!(params.get("url"), Some("http://a.com".to_string()));
    assert_eq!(params.get("session"), Some("7".to_string()));
    assert_eq!(params.get("timeout"), None);
}

#[test]
fn dict_overwrites_and_reports_missing_keys() {
    let mut d = Dict::new();
    assert_eq!(d.len(), 0);
    assert_eq!(d.get("k"), None);
    d.set("k", "v1");
    d.set("k", "v2");
    d.set("other", "x");
    assert_eq!(d.len(), 2);
    assert_eq!(d.get("k"), Some("v2".to_string()));
    assert_eq!(d.get("other"), Some("x".to_string()));
    let copy = d.duplicate();
    assert_eq!(copy.len(), 2);
    assert_eq!(copy.get("k"), Some("v2".to_string()));
}

#[test]
fn error_messages_describe_the_failure() {
    assert_eq!(ApiError::MissingParameter.message(), "missing parameter");
    assert_eq!(ApiError::InvalidHeaders.message(), "invalid headers");
}
