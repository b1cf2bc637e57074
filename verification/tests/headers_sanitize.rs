//! Header sanitizing: invalid entries are dropped, never fatal.

use fortnite_api::headers::sanitize_headers;
use fortnite_api::utils::fetch::build_request;

fn h(name: &str, value: &str) -> (String, String) {
    (name.to_string(), value.to_string())
}

#[test]
fn valid_headers_pass_in_order() {
    let hs = vec![h("Authorization", "abc"), h("x-custom", "1"), h("ACCEPT", "*/*")];
    assert_eq!(sanitize_headers(hs.clone()), hs);
}

#[test]
fn invalid_names_are_dropped() {
    let hs = vec![h("bad name", "v"), h("", "v"), h("ok", "v"), h("bad\u{e9}", "v")];
    assert_eq!(sanitize_headers(hs), vec![h("ok", "v")]);
}

#[test]
fn invalid_values_are_dropped() {
    let hs = vec![h("a", "line\nbreak"), h("b", "ok value \u{e9}\t"), h("c", "\u{7f}")];
    assert_eq!(sanitize_headers(hs), vec![h("b", "ok value \u{e9}\t")]);
}

#[test]
fn build_request_passes_everything_else_through() {
    let r = build_request(
        "https://example.invalid/x".to_string(),
        "GET",
        "",
        vec![h("ok", "1"), h("not ok", "2")],
    );
    assert_eq!(r.url, "https://example.invalid/x");
    assert_eq!(r.method, "GET");
    assert_eq!(r.body, "");
    assert_eq!(r.headers, vec![h("ok", "1")]);
}
