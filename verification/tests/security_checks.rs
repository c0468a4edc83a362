//! Security helpers: base64 fingerprints, allowlists, HTTPS, SPKI pins.

use base64::Engine;
use base64::prelude::{BASE64_STANDARD, BASE64_URL_SAFE_NO_PAD};
use jwks_cache::error::Error;
use jwks_cache::registry::IdentityProviderRegistration;
use jwks_cache::security::{
    SpkiFingerprint, UrlParts, canonicalize_dns_name, enforce_https, fingerprint_spki,
    host_is_allowed, normalize_allowlist, verify_spki_pins,
};

#[test]
fn base64_variants_are_accepted() {
    let bytes = [42u8; 32];
    let standard = BASE64_STANDARD.encode(bytes);
    let url_safe = BASE64_URL_SAFE_NO_PAD.encode(bytes);

    for encoded in [standard, url_safe] {
        let fingerprint = SpkiFingerprint::from_b64(&encoded).expect("valid fingerprint");
        assert_eq!(fingerprint.as_bytes().as_slice(), &bytes);
    }
}

#[test]
fn base64_length_error_is_reported() {
    let err = SpkiFingerprint::from_b64("AQID");
    assert!(err.is_err());
    assert!(matches!(err, Err(Error::Validation { .. })));
}

#[test]
fn host_allowlist_handles_case_and_trailing_dot() {
    let domains = normalize_allowlist(vec!["Example.COM.".into()]);
    assert!(host_is_allowed("api.EXAMPLE.com.", &domains));
    assert!(host_is_allowed("example.com.", &domains));
    assert!(!host_is_allowed("other.org", &domains));
    let empty_allowlist: Vec<String> = Vec::new();
    assert!(host_is_allowed("anything.example", &empty_allowlist));
}

#[test]
fn verify_spki_pins_success_and_failure() {
    let spki_primary = b"primary";
    let spki_other = b"other";
    let pin_value = BASE64_STANDARD.encode(fingerprint_spki(spki_primary));
    let pins = vec![SpkiFingerprint::from_b64(&pin_value).unwrap()];

    assert!(verify_spki_pins(&vec![spki_primary.to_vec()], &pins).is_ok());
    assert!(verify_spki_pins(&vec![spki_other.to_vec()], &pins).is_err());
}

#[test]
fn enforce_https_rejects_insecure_scheme() {
    let http = IdentityProviderRegistration::new(
        "tenant".to_owned(),
        "provider".to_owned(),
        "http://example.com/jwks",
    )
    .unwrap()
    .jwks_url;
    assert!(enforce_https(&http).is_err());
    let https = UrlParts {
        serialized: "https://example.com/jwks".to_owned(),
        scheme: "https".to_owned(),
        host: Some("example.com".to_owned()),
    };
    assert!(enforce_https(&https).is_ok());
}

#[test]
fn sha256_fingerprint_matches_known_vector() {
    let digest = fingerprint_spki(b"abc");
    let expected: [u8; 32] = [
        0xba, 0x78, 0x16, 0xbf, 0x8f, 0x01, 0xcf, 0xea, 0x41, 0x41, 0x40, 0xde, 0x5d, 0xae, 0x22,
        0x23, 0xb0, 0x03, 0x61, 0xa3, 0x96, 0x17, 0x7a, 0x9c, 0xb4, 0x10, 0xff, 0x61, 0xf2, 0x00,
        0x15, 0xad,
    ];
    assert_eq!(digest.as_slice(), &expected);
}

#[test]
fn canonicalize_trims_lowercases_and_strips_dots() {
    assert_eq!(canonicalize_dns_name("  Example.COM.. ").as_deref(), Some("example.com"));
    assert_eq!(canonicalize_dns_name("host").as_deref(), Some("host"));
    assert_eq!(canonicalize_dns_name("   "), None);
    assert_eq!(canonicalize_dns_name("..."), None);
    assert_eq!(canonicalize_dns_name(""), None);
}

#[test]
fn normalize_allowlist_deduplicates_in_order() {
    let domains = normalize_allowlist(vec![
        "B.example".into(),
        "a.example.".into(),
        "b.EXAMPLE".into(),
        "".into(),
        "a.example".into(),
    ]);
    assert_eq!(domains, vec!["b.example".to_owned(), "a.example".to_owned()]);
}

#[test]
fn empty_pin_set_accepts_everything() {
    let pins: Vec<SpkiFingerprint> = Vec::new();
    assert!(verify_spki_pins(&vec![b"whatever".to_vec()], &pins).is_ok());
}

#[test]
fn url_parsing_feeds_registration_components() {
    let err = IdentityProviderRegistration::new(
        "tenant".to_owned(),
        "provider".to_owned(),
        "not a url",
    );
    assert!(matches!(err, Err(Error::Url(_))));
    let ok = IdentityProviderRegistration::new(
        "tenant".to_owned(),
        "provider".to_owned(),
        "https://ISSUER.example.com/keys",
    )
    .unwrap();
    assert_eq!(ok.jwks_url.scheme, "https");
    assert_eq!(ok.jwks_url.host.as_deref(), Some("issuer.example.com"));
}
