//! Recommended HTTP security response headers with hardened default values,
//! following the OWASP secure-headers guidance.
//!
//! [`headers`] builds a fresh `http::HeaderMap` holding the thirteen headers
//! each time it is called, ready to be merged into a response.
use vstd::prelude::*;

pub mod header_map;

use http::HeaderMap;

verus! {

use crate::header_map::{ascii_bytes, header_entries, insert_static, new_header_map};

// Header names (lower case) and the values set for them.

pub const STRICT_TRANSPORT_SECURITY: &'static str = "strict-transport-security";
pub const STRICT_TRANSPORT_SECURITY_DEFAULT: &'static str = "max-age=31536000 ; includeSubDomains";
pub const X_FRAME_OPTIONS: &'static str = "x-frame-options";
pub const X_FRAME_OPTIONS_DEFAULT: &'static str = "deny";
pub const X_CONTENT_TYPE_OPTIONS: &'static str = "x-content-type-options";
pub const X_CONTENT_TYPE_OPTIONS_DEFAULT: &'static str = "nosniff";
pub const CONTENT_SECURITY_POLICY: &'static str = "content-security-policy";
pub const CONTENT_SECURITY_POLICY_DEFAULT: &'static str = "default-src 'self'; object-src 'none'; child-src 'self'; frame-ancestors 'none'; upgrade-insecure-requests; block-all-mixed-content";
pub const X_PERMITTED_CROSS_DOMAIN_POLICIES: &'static str = "x-permitted-cross-domain-policies";
pub const X_PERMITTED_CROSS_DOMAIN_POLICIES_DEFAULT: &'static str = "none";
pub const REFERRER_POLICY: &'static str = "referrer-policy";
pub const REFERRER_POLICY_DEFAULT: &'static str = "no-referrer";
pub const CLEAR_SITE_DATA: &'static str = "clear-site-data";
pub const CLEAR_SITE_DATA_DEFAULT: &'static str = "\"cache\",\"cookies\",\"storage\"";
pub const CROSS_ORIGIN_EMBEDDER_POLICY: &'static str = "cross-origin-embedder-policy";
pub const CROSS_ORIGIN_EMBEDDER_POLICY_DEFAULT: &'static str = "require-corp";
pub const CROSS_ORIGIN_OPENER_POLICY: &'static str = "cross-origin-opener-policy";
pub const CROSS_ORIGIN_RESOURCE_POLICY: &'static str = "cross-origin-resource-policy";
pub const SAME_ORIGIN: &'static str = "same-origin";
pub const PERMISSIONS_POLICY: &'static str = "permissions-policy";
pub const PERMISSIONS_POLICY_DEFAULT: &'static str = "accelerometer=(),autoplay=(),camera=(),display-capture=(),document-domain=(),encrypted-media=(),fullscreen=(),geolocation=(),gyroscope=(),magnetometer=(),microphone=(),midi=(),payment=(),picture-in-picture=(),publickey-credentials-get=(),screen-wake-lock=(),sync-xhr=(self),usb=(),web-share=(),xr-spatial-tracking=()";
pub const CACHE_CONTROL: &'static str = "cache-control";
pub const CACHE_CONTROL_DEFAULT: &'static str = "no-store, max-age=0";
pub const PRAGMA: &'static str = "pragma";
pub const PRAGMA_DEFAULT: &'static str = "no-cache";

/// The security header set: each of the thirteen header names mapped to its
/// one fixed value, as bytes.
pub open spec fn security_headers() -> Map<Seq<char>, Seq<Seq<u8>>> {
    Map::empty()
        .insert(
            "strict-transport-security"@,
            seq![ascii_bytes("max-age=31536000 ; includeSubDomains"@)],
        )
        .insert("x-frame-options"@, seq![ascii_bytes("deny"@)])
        .insert("x-content-type-options"@, seq![ascii_bytes("nosniff"@)])
        .insert(
            "content-security-policy"@,
            seq![ascii_bytes("default-src 'self'; object-src 'none'; child-src 'self'; frame-ancestors 'none'; upgrade-insecure-requests; block-all-mixed-content"@)],
        )
        .insert("x-permitted-cross-domain-policies"@, seq![ascii_bytes("none"@)])
        .insert("referrer-policy"@, seq![ascii_bytes("no-referrer"@)])
        .insert("clear-site-data"@, seq![ascii_bytes("\"cache\",\"cookies\",\"storage\""@)])
        .insert("cross-origin-embedder-policy"@, seq![ascii_bytes("require-corp"@)])
        .insert("cross-origin-opener-policy"@, seq![ascii_bytes("same-origin"@)])
        .insert("cross-origin-resource-policy"@, seq![ascii_bytes("same-origin"@)])
        .insert(
            "permissions-policy"@,
            seq![ascii_bytes("accelerometer=(),autoplay=(),camera=(),display-capture=(),document-domain=(),encrypted-media=(),fullscreen=(),geolocation=(),gyroscope=(),magnetometer=(),microphone=(),midi=(),payment=(),picture-in-picture=(),publickey-credentials-get=(),screen-wake-lock=(),sync-xhr=(self),usb=(),web-share=(),xr-spatial-tracking=()"@)],
        )
        .insert("cache-control"@, seq![ascii_bytes("no-store, max-age=0"@)])
        .insert("pragma"@, seq![ascii_bytes("no-cache"@)])
}

/// Produces an owned collection of the security headers and their values.
pub fn headers() -> (r: HeaderMap)
    ensures
        header_entries(r) == security_headers(),
{
    proof {
        reveal_strlit("strict-transport-security");
        reveal_strlit("max-age=31536000 ; includeSubDomains");
        reveal_strlit("x-frame-options");
        reveal_strlit("deny");
        reveal_strlit("x-content-type-options");
        reveal_strlit("nosniff");
        reveal_strlit("content-security-policy");
        reveal_strlit("default-src 'self'; object-src 'none'; child-src 'self'; frame-ancestors 'none'; upgrade-insecure-requests; block-all-mixed-content");
        reveal_strlit("x-permitted-cross-domain-policies");
        reveal_strlit("none");
        reveal_strlit("referrer-policy");
        reveal_strlit("no-referrer");
        reveal_strlit("clear-site-data");
        reveal_strlit("\"cache\",\"cookies\",\"storage\"");
        reveal_strlit("cross-origin-embedder-policy");
        reveal_strlit("require-corp");
        reveal_strlit("cross-origin-opener-policy");
        reveal_strlit("same-origin");
        reveal_strlit("cross-origin-resource-policy");
        reveal_strlit("permissions-policy");
        reveal_strlit("accelerometer=(),autoplay=(),camera=(),display-capture=(),document-domain=(),encrypted-media=(),fullscreen=(),geolocation=(),gyroscope=(),magnetometer=(),microphone=(),midi=(),payment=(),picture-in-picture=(),publickey-credentials-get=(),screen-wake-lock=(),sync-xhr=(self),usb=(),web-share=(),xr-spatial-tracking=()");
        reveal_strlit("cache-control");
        reveal_strlit("no-store, max-age=0");
        reveal_strlit("pragma");
        reveal_strlit("no-cache");
    }
    let mut h = new_header_map();
    insert_static(&mut h, STRICT_TRANSPORT_SECURITY, STRICT_TRANSPORT_SECURITY_DEFAULT);
    insert_static(&mut h, X_FRAME_OPTIONS, X_FRAME_OPTIONS_DEFAULT);
    insert_static(&mut h, X_CONTENT_TYPE_OPTIONS, X_CONTENT_TYPE_OPTIONS_DEFAULT);
    insert_static(&mut h, CONTENT_SECURITY_POLICY, CONTENT_SECURITY_POLICY_DEFAULT);
    insert_static(&mut h, X_PERMITTED_CROSS_DOMAIN_POLICIES, X_PERMITTED_CROSS_DOMAIN_POLICIES_DEFAULT);
    insert_static(&mut h, REFERRER_POLICY, REFERRER_POLICY_DEFAULT);
    insert_static(&mut h, CLEAR_SITE_DATA, CLEAR_SITE_DATA_DEFAULT);
    insert_static(&mut h, CROSS_ORIGIN_EMBEDDER_POLICY, CROSS_ORIGIN_EMBEDDER_POLICY_DEFAULT);
    insert_static(&mut h, CROSS_ORIGIN_OPENER_POLICY, SAME_ORIGIN);
    insert_static(&mut h, CROSS_ORIGIN_RESOURCE_POLICY, SAME_ORIGIN);
    insert_static(&mut h, PERMISSIONS_POLICY, PERMISSIONS_POLICY_DEFAULT);
    insert_static(&mut h, CACHE_CONTROL, CACHE_CONTROL_DEFAULT);
    insert_static(&mut h, PRAGMA, PRAGMA_DEFAULT);
    h
}

/// The set holds exactly thirteen headers, each with exactly one value.
pub proof fn lemma_thirteen_headers(h: HeaderMap)
    requires
        header_entries(h) == security_headers(),
    ensures
        header_entries(h).dom().finite(),
        header_entries(h).dom().len() == 13,
        forall|name: Seq<char>| #[trigger]
            header_entries(h).contains_key(name) ==> header_entries(h)[name].len() == 1,
{
    reveal_strlit("strict-transport-security");
    reveal_strlit("x-frame-options");
    reveal_strlit("x-content-type-options");
    reveal_strlit("content-security-policy");
    reveal_strlit("x-permitted-cross-domain-policies");
    reveal_strlit("referrer-policy");
    reveal_strlit("clear-site-data");
    reveal_strlit("cross-origin-embedder-policy");
    reveal_strlit("cross-origin-opener-policy");
    reveal_strlit("cross-origin-resource-policy");
    reveal_strlit("permissions-policy");
    reveal_strlit("cache-control");
    reveal_strlit("pragma");
    // The names are added one at a time; each differs from every name before
    // it at the position that the assertions name.
    let d0 = Set::<Seq<char>>::empty().insert("strict-transport-security"@);
    assert(d0.len() == 1);
    let d1 = d0.insert("x-frame-options"@);
    assert("x-frame-options"@[0] != "strict-transport-security"@[0]);
    assert(!d0.contains("x-frame-options"@));
    assert(d1.len() == 2);
    let d2 = d1.insert("x-content-type-options"@);
    assert("x-content-type-options"@[0] != "strict-transport-security"@[0]);
    assert("x-content-type-options"@[2] != "x-frame-options"@[2]);
    assert(!d1.contains("x-content-type-options"@));
    assert(d2.len() == 3);
    let d3 = d2.insert("content-security-policy"@);
    assert("content-security-policy"@[0] != "strict-transport-security"@[0]);
    assert("content-security-policy"@[0] != "x-frame-options"@[0]);
    assert("content-security-policy"@[0] != "x-content-type-options"@[0]);
    assert(!d2.contains("content-security-policy"@));
    assert(d3.len() == 4);
    let d4 = d3.insert("x-permitted-cross-domain-policies"@);
    assert("x-permitted-cross-domain-policies"@[0] != "strict-transport-security"@[0]);
    assert("x-permitted-cross-domain-policies"@[2] != "x-frame-options"@[2]);
    assert("x-permitted-cross-domain-policies"@[2] != "x-content-type-options"@[2]);
    assert("x-permitted-cross-domain-policies"@[0] != "content-security-policy"@[0]);
    assert(!d3.contains("x-permitted-cross-domain-policies"@));
    assert(d4.len() == 5);
    let d5 = d4.insert("referrer-policy"@);
    assert("referrer-policy"@[0] != "strict-transport-security"@[0]);
    assert("referrer-policy"@[0] != "x-frame-options"@[0]);
    assert("referrer-policy"@[0] != "x-content-type-options"@[0]);
    assert("referrer-policy"@[0] != "content-security-policy"@[0]);
    assert("referrer-policy"@[0] != "x-permitted-cross-domain-policies"@[0]);
    assert(!d4.contains("referrer-policy"@));
    assert(d5.len() == 6);
    let d6 = d5.insert("clear-site-data"@);
    assert("clear-site-data"@[0] != "strict-transport-security"@[0]);
    assert("clear-site-data"@[0] != "x-frame-options"@[0]);
    assert("clear-site-data"@[0] != "x-content-type-options"@[0]);
    assert("clear-site-data"@[1] != "content-security-policy"@[1]);
    assert("clear-site-data"@[0] != "x-permitted-cross-domain-policies"@[0]);
    assert("clear-site-data"@[0] != "referrer-policy"@[0]);
    assert(!d5.contains("clear-site-data"@));
    assert(d6.len() == 7);
    let d7 = d6.insert("cross-origin-embedder-policy"@);
    assert("cross-origin-embedder-policy"@[0] != "strict-transport-security"@[0]);
    assert("cross-origin-embedder-policy"@[0] != "x-frame-options"@[0]);
    assert("cross-origin-embedder-policy"@[0] != "x-content-type-options"@[0]);
    assert("cross-origin-embedder-policy"@[1] != "content-security-policy"@[1]);
    assert("cross-origin-embedder-policy"@[0] != "x-permitted-cross-domain-policies"@[0]);
    assert("cross-origin-embedder-policy"@[0] != "referrer-policy"@[0]);
    assert("cross-origin-embedder-policy"@[1] != "clear-site-data"@[1]);
    assert(!d6.contains("cross-origin-embedder-policy"@));
    assert(d7.len() == 8);
    let d8 = d7.insert("cross-origin-opener-policy"@);
    assert("cross-origin-opener-policy"@[0] != "strict-transport-security"@[0]);
    assert("cross-origin-opener-policy"@[0] != "x-frame-options"@[0]);
    assert("cross-origin-opener-policy"@[0] != "x-content-type-options"@[0]);
    assert("cross-origin-opener-policy"@[1] != "content-security-policy"@[1]);
    assert("cross-origin-opener-policy"@[0] != "x-permitted-cross-domain-policies"@[0]);
    assert("cross-origin-opener-policy"@[0] != "referrer-policy"@[0]);
    assert("cross-origin-opener-policy"@[1] != "clear-site-data"@[1]);
    assert("cross-origin-opener-policy"@[13] != "cross-origin-embedder-policy"@[13]);
    assert(!d7.contains("cross-origin-opener-policy"@));
    assert(d8.len() == 9);
    let d9 = d8.insert("cross-origin-resource-policy"@);
    assert("cross-origin-resource-policy"@[0] != "strict-transport-security"@[0]);
    assert("cross-origin-resource-policy"@[0] != "x-frame-options"@[0]);
    assert("cross-origin-resource-policy"@[0] != "x-content-type-options"@[0]);
    assert("cross-origin-resource-policy"@[1] != "content-security-policy"@[1]);
    assert("cross-origin-resource-policy"@[0] != "x-permitted-cross-domain-policies"@[0]);
    assert("cross-origin-resource-policy"@[0] != "referrer-policy"@[0]);
    assert("cross-origin-resource-policy"@[1] != "clear-site-data"@[1]);
    assert("cross-origin-resource-policy"@[13] != "cross-origin-embedder-policy"@[13]);
    assert("cross-origin-resource-policy"@[13] != "cross-origin-opener-policy"@[13]);
    assert(!d8.contains("cross-origin-resource-policy"@));
    assert(d9.len() == 10);
    let d10 = d9.insert("permissions-policy"@);
    assert("permissions-policy"@[0] != "strict-transport-security"@[0]);
    assert("permissions-policy"@[0] != "x-frame-options"@[0]);
    assert("permissions-policy"@[0] != "x-content-type-options"@[0]);
    assert("permissions-policy"@[0] != "content-security-policy"@[0]);
    assert("permissions-policy"@[0] != "x-permitted-cross-domain-policies"@[0]);
    assert("permissions-policy"@[0] != "referrer-policy"@[0]);
    assert("permissions-policy"@[0] != "clear-site-data"@[0]);
    assert("permissions-policy"@[0] != "cross-origin-embedder-policy"@[0]);
    assert("permissions-policy"@[0] != "cross-origin-opener-policy"@[0]);
    assert("permissions-policy"@[0] != "cross-origin-resource-policy"@[0]);
    assert(!d9.contains("permissions-policy"@));
    assert(d10.len() == 11);
    let d11 = d10.insert("cache-control"@);
    assert("cache-control"@[0] != "strict-transport-security"@[0]);
    assert("cache-control"@[0] != "x-frame-options"@[0]);
    assert("cache-control"@[0] != "x-content-type-options"@[0]);
    assert("cache-control"@[1] != "content-security-policy"@[1]);
    assert("cache-control"@[0] != "x-permitted-cross-domain-policies"@[0]);
    assert("cache-control"@[0] != "referrer-policy"@[0]);
    assert("cache-control"@[1] != "clear-site-data"@[1]);
    assert("cache-control"@[1] != "cross-origin-embedder-policy"@[1]);
    assert("cache-control"@[1] != "cross-origin-opener-policy"@[1]);
    assert("cache-control"@[1] != "cross-origin-resource-policy"@[1]);
    assert("cache-control"@[0] != "permissions-policy"@[0]);
    assert(!d10.contains("cache-control"@));
    assert(d11.len() == 12);
    let d12 = d11.insert("pragma"@);
    assert("pragma"@[0] != "strict-transport-security"@[0]);
    assert("pragma"@[0] != "x-frame-options"@[0]);
    assert("pragma"@[0] != "x-content-type-options"@[0]);
    assert("pragma"@[0] != "content-security-policy"@[0]);
    assert("pragma"@[0] != "x-permitted-cross-domain-policies"@[0]);
    assert("pragma"@[0] != "referrer-policy"@[0]);
    assert("pragma"@[0] != "clear-site-data"@[0]);
    assert("pragma"@[0] != "cross-origin-embedder-policy"@[0]);
    assert("pragma"@[0] != "cross-origin-opener-policy"@[0]);
    assert("pragma"@[0] != "cross-origin-resource-policy"@[0]);
    assert("pragma"@[1] != "permissions-policy"@[1]);
    assert("pragma"@[0] != "cache-control"@[0]);
    assert(!d11.contains("pragma"@));
    assert(d12.len() == 13);
    assert(header_entries(h).dom() =~= d12);
}

/// Building the set twice gives two maps with the same contents.
pub proof fn lemma_headers_idempotent(a: HeaderMap, b: HeaderMap)
    requires
        header_entries(a) == security_headers(),
        header_entries(b) == security_headers(),
    ensures
        header_entries(a) == header_entries(b),
{
}

} // verus!
