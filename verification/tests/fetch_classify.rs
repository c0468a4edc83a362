//! Classification of completed upstream responses.

use jwks_cache::client::{RequestParts, cache_control_header, classify_response, header_lookup};
use jwks_cache::error::Error;

const JWKS_BODY: &[u8] = b"{\"keys\": [{\"kty\": \"oct\", \"kid\": \"primary\", \"k\": \"c2VjcmV0\"}]}";

fn sample_request() -> RequestParts {
    RequestParts {
        method: "GET".to_owned(),
        uri: "https://example.com/.well-known/jwks.json".to_owned(),
        headers: vec![("accept".to_owned(), "application/json".to_owned())],
    }
}

#[test]
fn success_with_body_yields_parsed_document() {
    let r = classify_response(
        "https://example.com/jwks",
        sample_request(),
        200,
        vec![("etag".to_owned(), "\"v1\"".to_owned())],
        Some(JWKS_BODY.to_vec()),
        7,
        1_048_576,
    )
    .expect("fetch");
    let doc = r.jwks.expect("document");
    assert_eq!(doc.key_count(), 1);
    assert_eq!(doc.json().as_slice(), JWKS_BODY);
    assert_eq!(r.etag.as_deref(), Some("\"v1\""));
    assert_eq!(r.exchange.status(), 200);
}

#[test]
fn oversized_body_is_rejected_as_validation() {
    let limit = JWKS_BODY.len() as u64 - 1;
    let r = classify_response(
        "https://example.com/jwks",
        sample_request(),
        200,
        Vec::new(),
        Some(JWKS_BODY.to_vec()),
        7,
        limit,
    );
    assert!(matches!(r, Err(Error::Validation { .. })));

    // Exactly at the limit the body is accepted.
    let r = classify_response(
        "https://example.com/jwks",
        sample_request(),
        200,
        Vec::new(),
        Some(JWKS_BODY.to_vec()),
        7,
        JWKS_BODY.len() as u64,
    );
    assert!(r.is_ok());
}

#[test]
fn invalid_json_is_rejected_as_serde() {
    let r = classify_response(
        "https://example.com/jwks",
        sample_request(),
        200,
        Vec::new(),
        Some(b"not json".to_vec()),
        7,
        1_048_576,
    );
    assert!(matches!(r, Err(Error::Serde(_))));
}

#[test]
fn not_modified_preserves_absence_of_body_and_extracts_validators() {
    let r = classify_response(
        "https://example.com/jwks",
        sample_request(),
        304,
        vec![
            ("etag".to_owned(), "\"v2\"".to_owned()),
            ("last-modified".to_owned(), "Wed, 21 Oct 2015 07:28:00 GMT".to_owned()),
        ],
        None,
        3,
        1_048_576,
    )
    .expect("fetch");
    assert!(r.jwks.is_none());
    assert_eq!(r.etag.as_deref(), Some("\"v2\""));
    assert_eq!(r.last_modified, Some(1_445_412_480_000));
}

#[test]
fn non_success_status_surfaces_http_status_error() {
    let r = classify_response(
        "https://example.com/jwks",
        sample_request(),
        500,
        Vec::new(),
        Some(b"boom".to_vec()),
        3,
        1_048_576,
    );
    match r {
        Err(Error::HttpStatus { status, url, body }) => {
            assert_eq!(status, 500);
            assert_eq!(url, "https://example.com/jwks");
            assert_eq!(body.as_deref(), Some("boom"));
        },
        other => panic!("expected an HttpStatus error, got {:?}", other),
    }
}

#[test]
fn unparsable_last_modified_header_is_dropped() {
    let r = classify_response(
        "https://example.com/jwks",
        sample_request(),
        304,
        vec![
            ("etag".to_owned(), "\"v2\"".to_owned()),
            ("last-modified".to_owned(), "not a date".to_owned()),
        ],
        None,
        3,
        1_048_576,
    )
    .expect("fetch");
    assert_eq!(r.last_modified, None);
}

#[test]
fn header_lookup_finds_first_match_only() {
    let headers = vec![
        ("cache-control".to_owned(), "max-age=5".to_owned()),
        ("etag".to_owned(), "\"a\"".to_owned()),
        ("etag".to_owned(), "\"b\"".to_owned()),
    ];
    assert_eq!(header_lookup(&headers, "etag").as_deref(), Some("\"a\""));
    assert_eq!(header_lookup(&headers, "missing"), None);
    assert_eq!(cache_control_header(&headers).as_deref(), Some("max-age=5"));
}
