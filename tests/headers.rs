use http::header::HeaderValue;
use owasp_headers::headers;

const EXPECTED: [(&str, &str); 13] = [
    ("strict-transport-security", "max-age=31536000 ; includeSubDomains"),
    ("x-frame-options", "deny"),
    ("x-content-type-options", "nosniff"),
    (
        "content-security-policy",
        "default-src 'self'; object-src 'none'; child-src 'self'; frame-ancestors 'none'; upgrade-insecure-requests; block-all-mixed-content",
    ),
    ("x-permitted-cross-domain-policies", "none"),
    ("referrer-policy", "no-referrer"),
    ("clear-site-data", "\"cache\",\"cookies\",\"storage\""),
    ("cross-origin-embedder-policy", "require-corp"),
    ("cross-origin-opener-policy", "same-origin"),
    ("cross-origin-resource-policy", "same-origin"),
    (
        "permissions-policy",
        "accelerometer=(),autoplay=(),camera=(),display-capture=(),document-domain=(),encrypted-media=(),fullscreen=(),geolocation=(),gyroscope=(),magnetometer=(),microphone=(),midi=(),payment=(),picture-in-picture=(),publickey-credentials-get=(),screen-wake-lock=(),sync-xhr=(self),usb=(),web-share=(),xr-spatial-tracking=()",
    ),
    ("cache-control", "no-store, max-age=0"),
    ("pragma", "no-cache"),
];

#[test]
fn headers_returns_headermap_with_expected_len() {
    let got = headers();
    assert_eq!(got.len(), 13);
}

#[test]
fn headers_returns_headermap_with_expected_contents() {
    let got = headers();
    assert_eq!(EXPECTED.len(), 13);
    for (name, value) in EXPECTED.iter() {
        assert_eq!(got[*name], *value);
    }
}

#[test]
fn headers_hold_one_value_per_name() {
    let got = headers();
    assert_eq!(got.keys_len(), 13);
    for (name, _) in EXPECTED.iter() {
        assert_eq!(got.get_all(*name).iter().count(), 1);
    }
}

#[test]
fn headers_values_are_byte_exact() {
    let got = headers();
    assert_eq!(
        got["clear-site-data"].as_bytes(),
        b"\"cache\",\"cookies\",\"storage\""
    );
    assert_eq!(
        got["strict-transport-security"].as_bytes(),
        b"max-age=31536000 ; includeSubDomains"
    );
}

#[test]
fn headers_scenario_frame_options_and_cache_control() {
    let got = headers();
    assert_eq!(got["x-frame-options"], "deny");
    assert_eq!(got["cache-control"], "no-store, max-age=0");
    assert!(got.get("x-powered-by").is_none());
    assert!(got.get("http-strict-transport-security").is_none());
}

#[test]
fn headers_results_are_independent() {
    let mut first = headers();
    first.insert("x-frame-options", HeaderValue::from_static("sameorigin"));
    first.insert("x-powered-by", HeaderValue::from_static("test"));
    first.remove("pragma");
    let second = headers();
    assert_eq!(second["x-frame-options"], "deny");
    assert!(second.get("x-powered-by").is_none());
    assert_eq!(second["pragma"], "no-cache");
    assert_eq!(second.len(), 13);
}

#[test]
fn headers_repeated_calls_are_equal() {
    let a = headers();
    let b = headers();
    assert_eq!(a, b);
    for (name, _) in EXPECTED.iter() {
        assert_eq!(a[*name], b[*name]);
    }
}
