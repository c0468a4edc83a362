//! Security helpers: HTTPS enforcement, domain allowlists, and SPKI pinning.
//!
//! These helpers assume upstream TLS validation has already succeeded and
//! defend the cache pipeline against downgrade attempts, host confusion,
//! and certificate substitution.

use vstd::prelude::*;

use base64::Engine;
use base64::prelude::BASE64_STANDARD;
use base64::prelude::BASE64_URL_SAFE_NO_PAD;
use sha2::Digest;

use crate::error::Error;
use crate::error::JwksResult;
use crate::strutil::drop_leading_ws;
use crate::strutil::drop_trailing_dots;
use crate::strutil::drop_trailing_ws;
use crate::strutil::is_space_char;
use crate::strutil::lower_seq;
use crate::strutil::str_eq;
use crate::strutil::to_lower;
use crate::strutil::trim_spaces;
use crate::strutil::trim_trailing_dots;

verus! {

/// The SHA-256 digest of a byte sequence, as computed by the `sha2` crate.
pub uninterp spec fn sha256_of(data: Seq<u8>) -> Seq<u8>;

/// Relies on `sha2::Sha256::digest`: the digest is a function of the input
/// bytes alone and is always 32 bytes long.
#[verifier::external_body]
fn sha256_digest(data: &[u8]) -> (r: Vec<u8>)
    ensures
        r@ == sha256_of(data@),
        r@.len() == 32,
{
    sha2::Sha256::digest(data).to_vec()
}

/// The bytes denoted by a standard-alphabet, padded base64 string, when valid.
pub uninterp spec fn b64_standard_decode_of(s: Seq<char>) -> Option<Seq<u8>>;

/// Relies on `base64::prelude::BASE64_STANDARD.decode`: decoding is a
/// function of the input characters alone.
#[verifier::external_body]
fn b64_standard_decode(s: &str) -> (r: Option<Vec<u8>>)
    ensures
        r is Some <==> b64_standard_decode_of(s@) is Some,
        r matches Some(v) ==> b64_standard_decode_of(s@) == Some(v@),
{
    BASE64_STANDARD.decode(s).ok()
}

/// The bytes denoted by a URL-safe, unpadded base64 string, when valid.
pub uninterp spec fn b64_url_nopad_decode_of(s: Seq<char>) -> Option<Seq<u8>>;

/// Relies on `base64::prelude::BASE64_URL_SAFE_NO_PAD.decode`: decoding is a
/// function of the input characters alone.
#[verifier::external_body]
fn b64_url_nopad_decode(s: &str) -> (r: Option<Vec<u8>>)
    ensures
        r is Some <==> b64_url_nopad_decode_of(s@) is Some,
        r matches Some(v) ==> b64_url_nopad_decode_of(s@) == Some(v@),
{
    BASE64_URL_SAFE_NO_PAD.decode(s).ok()
}

/// What `url::Url::parse` yields for a given input, when it parses:
/// the serialized form, the scheme, and the host, if any.
pub uninterp spec fn url_parse_of(s: Seq<char>) -> Option<(Seq<char>, Seq<char>, Option<Seq<char>>)>;

/// Components of a parsed absolute URL that the cache logic reads.
#[derive(Debug)]
pub struct UrlParts {
    /// The URL in serialized form.
    pub serialized: String,
    /// The URL scheme, lowercase.
    pub scheme: String,
    /// The host component, when the URL has one.
    pub host: Option<String>,
}

impl Clone for UrlParts {
    /// Field-preserving copy.
    fn clone(&self) -> (r: Self)
        ensures
            r == *self,
    {
        let host = match &self.host {
            Some(h) => Some(h.clone()),
            None => None,
        };
        let r = UrlParts { serialized: self.serialized.clone(), scheme: self.scheme.clone(), host };
        assert(r.host == self.host);
        r
    }
}

/// Relies on `url::Url::parse`, `Url::as_str`, `Url::scheme` and
/// `Url::host_str`: parsing is a function of the input characters alone.
#[verifier::external_body]
pub(crate) fn parse_url(input: &str) -> (r: JwksResult<UrlParts>)
    ensures
        r is Ok <==> url_parse_of(input@) is Some,
        r matches Ok(p) ==> {
            let t = url_parse_of(input@)->Some_0;
            &&& p.serialized@ == t.0
            &&& p.scheme@ == t.1
            &&& (p.host matches Some(h) ==> t.2 == Some(h@))
            &&& (p.host is None <==> t.2 is None)
        },
        r matches Err(e) ==> e is Url,
{
    match url::Url::parse(input) {
        Ok(u) => Ok(UrlParts {
            serialized: u.as_str().to_owned(),
            scheme: u.scheme().to_owned(),
            host: u.host_str().map(|h| h.to_owned()),
        }),
        Err(e) => Err(Error::Url(e.to_string())),
    }
}

/// SHA-256 fingerprint of a Subject Public Key Info (SPKI) structure.
#[derive(Debug)]
pub struct SpkiFingerprint {
    bytes: Vec<u8>,
}

impl View for SpkiFingerprint {
    type V = Seq<u8>;

    closed spec fn view(&self) -> Seq<u8> {
        self.bytes@
    }
}

impl Clone for SpkiFingerprint {
    /// Field-preserving copy.
    fn clone(&self) -> (r: Self)
        ensures
            r@ == self@,
    {
        SpkiFingerprint { bytes: self.bytes.clone() }
    }
}

/// What a fingerprint string decodes to, by the decision of `from_b64`:
/// standard base64 first, URL-safe unpadded as the fallback.
pub open spec fn fingerprint_decode_of(cleaned: Seq<char>) -> Option<Seq<u8>> {
    match b64_standard_decode_of(cleaned) {
        Some(bytes) => Some(bytes),
        None => b64_url_nopad_decode_of(cleaned),
    }
}

impl SpkiFingerprint {
    /// Whether the fingerprint holds exactly 32 bytes.
    pub open spec fn wf(&self) -> bool {
        self@.len() == 32
    }

    /// Decode a base64 fingerprint value into 32 raw bytes.
    ///
    /// The value is trimmed, then decoded with the standard alphabet, or
    /// with the URL-safe unpadded alphabet when the former fails; any
    /// decode that is not exactly 32 bytes long is rejected.
    pub fn from_b64(value: &str) -> (r: JwksResult<Self>)
        ensures
            ({
                let cleaned = drop_trailing_ws(drop_leading_ws(value@));
                match fingerprint_decode_of(cleaned) {
                    Some(bytes) => {
                        if bytes.len() == 32 {
                            r matches Ok(f) && f@ == bytes && f.wf()
                        } else {
                            r matches Err(e) && e is Validation
                        }
                    },
                    None => r matches Err(e) && e is Validation,
                }
            }),
    {
        let cleaned = trim_spaces(value);
        let decoded = match b64_standard_decode(cleaned) {
            Some(bytes) => bytes,
            None => match b64_url_nopad_decode(cleaned) {
                Some(bytes) => bytes,
                None => {
                    return Err(Error::Validation {
                        field: "pinned_spki".to_owned(),
                        reason: "Invalid base64 fingerprint.".to_owned(),
                    });
                },
            },
        };
        if decoded.len() != 32 {
            return Err(Error::Validation {
                field: "pinned_spki".to_owned(),
                reason: "Fingerprint must decode to 32 bytes (SHA-256).".to_owned(),
            });
        }
        Ok(SpkiFingerprint { bytes: decoded })
    }

    /// Raw fingerprint bytes.
    pub fn as_bytes(&self) -> (r: &Vec<u8>)
        ensures
            r@ == self@,
    {
        &self.bytes
    }
}

/// Whether an allowlist entry is already canonical: non-empty, no trailing
/// dot, no surrounding whitespace, no ASCII uppercase.
pub open spec fn canonical_entry_chars(d: Seq<char>) -> bool {
    d.len() > 0 && d.last() != '.' && !is_space_char(d[0]) && !is_space_char(d.last())
        && (forall|i: int| 0 <= i < d.len() ==> !('A' <= d[i] && d[i] <= 'Z'))
}

/// The canonical form of a DNS name: ASCII whitespace trimmed, trailing
/// dots removed, ASCII-lowercased; nothing when that leaves it empty.
pub open spec fn canonical_dns(s: Seq<char>) -> Option<Seq<char>> {
    let t = drop_trailing_dots(drop_trailing_ws(drop_leading_ws(s)));
    if t.len() == 0 {
        None
    } else {
        Some(lower_seq(t))
    }
}

/// Canonicalise a DNS name: trim whitespace, remove trailing dots, lowercase.
pub fn canonicalize_dns_name(value: &str) -> (r: Option<String>)
    ensures
        r is Some <==> canonical_dns(value@) is Some,
        r matches Some(out) ==> canonical_dns(value@) == Some(out@),
{
    let trimmed = trim_spaces(value);
    let stripped = trim_trailing_dots(trimmed);
    if stripped.unicode_len() == 0 {
        None
    } else {
        Some(to_lower(stripped))
    }
}

/// Whether a vector of strings holds the given characters.
pub fn contains_string(v: &Vec<String>, s: &String) -> (r: bool)
    ensures
        r == v.deep_view().contains(s@),
{
    let ghost dv = v.deep_view();
    let mut i: usize = 0;
    while i < v.len()
        invariant
            0 <= i <= v.len(),
            dv == v.deep_view(),
            dv.len() == v.len(),
            forall|k: int| 0 <= k < dv.len() ==> dv[k] == v@[k]@,
            forall|k: int| 0 <= k < i ==> dv[k] != s@,
        decreases v.len() - i,
    {
        if str_eq(v[i].as_str(), s.as_str()) {
            assert(dv[i as int] == s@);
            return true;
        }
        i += 1;
    }
    assert(forall|k: int| 0 <= k < dv.len() ==> dv[k] != s@);
    false
}

/// Canonicalisation and deduplication of an allowlist, one entry at a time:
/// entries that do not canonicalise, or whose canonical form was already
/// seen, are dropped; the rest appear in order, canonicalised.
pub open spec fn normalize_acc(doms: Seq<Seq<char>>, seen: Set<Seq<char>>) -> Seq<Seq<char>>
    decreases doms.len(),
{
    if doms.len() == 0 {
        Seq::empty()
    } else {
        let rest = doms.drop_first();
        match canonical_dns(doms[0]) {
            Option::None => normalize_acc(rest, seen),
            Option::Some(c) => {
                if seen.contains(c) {
                    normalize_acc(rest, seen)
                } else {
                    seq![c] + normalize_acc(rest, seen.insert(c))
                }
            },
        }
    }
}

/// The normalised form of an allowlist.
pub open spec fn normalize_spec(doms: Seq<Seq<char>>) -> Seq<Seq<char>> {
    normalize_acc(doms, Set::empty())
}

/// Normalise an allowlist by canonicalising entries and removing
/// duplicates and empties.
pub fn normalize_allowlist(domains: Vec<String>) -> (r: Vec<String>)
    ensures
        r.deep_view() == normalize_spec(domains.deep_view()),
{
    let ghost doms = domains.deep_view();
    let mut out: Vec<String> = Vec::new();
    let mut i: usize = 0;
    proof {
        assert(doms.skip(0) =~= doms);
        assert(out.deep_view() =~= Seq::<Seq<char>>::empty());
        assert(out.deep_view().to_set() =~= Set::<Seq<char>>::empty());
        assert(normalize_spec(doms) =~= out.deep_view() + normalize_acc(
            doms.skip(0),
            out.deep_view().to_set(),
        ));
    }
    while i < domains.len()
        invariant
            0 <= i <= domains.len(),
            doms == domains.deep_view(),
            doms.len() == domains.len(),
            forall|k: int| 0 <= k < doms.len() ==> doms[k] == domains@[k]@,
            forall|k: int| 0 <= k < out.deep_view().len() ==> out.deep_view()[k] == out@[k]@,
            normalize_spec(doms) =~= out.deep_view() + normalize_acc(
                doms.skip(i as int),
                out.deep_view().to_set(),
            ),
        decreases domains.len() - i,
    {
        let ghost out_dv = out.deep_view();
        let ghost seen = out_dv.to_set();
        proof {
            assert(doms.skip(i as int)[0] == doms[i as int]);
            assert(doms.skip(i as int).drop_first() =~= doms.skip(i + 1));
        }
        match canonicalize_dns_name(domains[i].as_str()) {
            Some(canonical) => {
                if contains_string(&out, &canonical) {
                    proof {
                        assert(seen.contains(canonical@));
                    }
                } else {
                    proof {
                        assert(!seen.contains(canonical@));
                    }
                    out.push(canonical);
                    proof {
                        let c = doms[i as int];
                        let cc = canonical_dns(c)->Some_0;
                        assert(out.deep_view() =~= out_dv.push(cc));
                        assert forall|x: Seq<char>|
                            out.deep_view().to_set().contains(x) <==> seen.insert(cc).contains(
                                x,
                            ) by {
                            if out.deep_view().contains(x) {
                                let k = choose|k: int|
                                    0 <= k < out.deep_view().len() && out.deep_view()[k] == x;
                                if k < out_dv.len() {
                                    assert(out_dv.contains(x));
                                }
                            }
                            if seen.contains(x) {
                                let k = choose|k: int| 0 <= k < out_dv.len() && out_dv[k] == x;
                                assert(out.deep_view()[k] == x);
                            }
                            if x == cc {
                                assert(out.deep_view()[out_dv.len() as int] == x);
                            }
                        }
                        assert(out.deep_view().to_set() =~= seen.insert(cc));
                        assert(out_dv + (seq![cc] + normalize_acc(
                            doms.skip(i + 1),
                            seen.insert(cc),
                        )) =~= out.deep_view() + normalize_acc(doms.skip(i + 1), seen.insert(cc)));
                    }
                }
            },
            None => {},
        }
        i += 1;
    }
    proof {
        assert(doms.skip(i as int) =~= Seq::<Seq<char>>::empty());
        assert(normalize_spec(doms) =~= out.deep_view());
    }
    out
}

/// Whether `host` equals `domain` or ends in `"." + domain`.
pub open spec fn suffix_match(host: Seq<char>, domain: Seq<char>) -> bool {
    host == domain || (host.len() > domain.len() && host.subrange(
        host.len() - domain.len(),
        host.len() as int,
    ) == domain && host[host.len() - domain.len() - 1] == '.')
}

fn matches_allowlist(host: &str, domain: &str) -> (r: bool)
    ensures
        r == suffix_match(host@, domain@),
{
    let hl = host.unicode_len();
    let dl = domain.unicode_len();
    if hl == dl {
        let eq = str_eq(host, domain);
        assert(host@.len() == domain@.len());
        if eq {
            return true;
        }
        assert(!suffix_match(host@, domain@));
        return false;
    }
    if hl < dl {
        assert(!suffix_match(host@, domain@));
        return false;
    }
    if host.get_char(hl - dl - 1) != '.' {
        assert(!suffix_match(host@, domain@));
        return false;
    }
    let mut i: usize = 0;
    while i < dl
        invariant
            0 <= i <= dl,
            hl == host@.len(),
            dl == domain@.len(),
            hl > dl,
            forall|k: int| 0 <= k < i ==> host@[hl - dl + k] == domain@[k],
        decreases dl - i,
    {
        if host.get_char(hl - dl + i) != domain.get_char(i) {
            assert(host@.subrange(hl - dl, hl as int)[i as int] != domain@[i as int]);
            assert(!suffix_match(host@, domain@));
            return false;
        }
        i += 1;
    }
    assert(host@.subrange(hl - dl, hl as int) =~= domain@);
    true
}

fn is_canonical_allowlist_entry(domain: &str) -> (r: bool)
    ensures
        r == canonical_entry_chars(domain@),
{
    let n = domain.unicode_len();
    if n == 0 {
        return false;
    }
    let first = domain.get_char(0);
    let last = domain.get_char(n - 1);
    if last == '.' || crate::strutil::is_space(first) || crate::strutil::is_space(last) {
        return false;
    }
    let mut i: usize = 0;
    while i < n
        invariant
            0 <= i <= n,
            n == domain@.len(),
            forall|k: int| 0 <= k < i ==> !('A' <= domain@[k] && domain@[k] <= 'Z'),
        decreases n - i,
    {
        let c = domain.get_char(i);
        if 'A' <= c && c <= 'Z' {
            return false;
        }
        i += 1;
    }
    true
}

/// Whether one allowlist entry admits the canonical host `host`.
pub open spec fn entry_allows(host: Seq<char>, d: Seq<char>) -> bool {
    if canonical_entry_chars(d) {
        suffix_match(host, d)
    } else {
        match canonical_dns(d) {
            Some(c) => suffix_match(host, c),
            None => false,
        }
    }
}

/// Whether a hostname passes the suffix allowlist; an empty list admits all.
pub open spec fn host_allowed(host: Seq<char>, doms: Seq<Seq<char>>) -> bool {
    if doms.len() == 0 {
        true
    } else {
        match canonical_dns(host) {
            Some(h) => exists|i: int| 0 <= i < doms.len() && entry_allows(h, doms[i]),
            None => false,
        }
    }
}

/// Evaluate whether the given hostname is allowed by the suffix allowlist.
///
/// When the list is empty, all hosts are considered valid.
pub fn host_is_allowed(host: &str, allowed_domains: &Vec<String>) -> (r: bool)
    ensures
        r == host_allowed(host@, allowed_domains.deep_view()),
{
    if allowed_domains.len() == 0 {
        return true;
    }
    let canonical_host = match canonicalize_dns_name(host) {
        Some(h) => h,
        None => {
            return false;
        },
    };
    let ghost doms = allowed_domains.deep_view();
    let mut i: usize = 0;
    while i < allowed_domains.len()
        invariant
            0 <= i <= allowed_domains.len(),
            doms == allowed_domains.deep_view(),
            doms.len() == allowed_domains.len(),
            forall|k: int| 0 <= k < doms.len() ==> doms[k] == allowed_domains@[k]@,
            canonical_dns(host@) == Some(canonical_host@),
            forall|k: int| 0 <= k < i ==> !entry_allows(canonical_host@, doms[k]),
        decreases allowed_domains.len() - i,
    {
        let domain = &allowed_domains[i];
        let admitted = if is_canonical_allowlist_entry(domain.as_str()) {
            matches_allowlist(canonical_host.as_str(), domain.as_str())
        } else {
            match canonicalize_dns_name(domain.as_str()) {
                Some(c) => matches_allowlist(canonical_host.as_str(), c.as_str()),
                None => false,
            }
        };
        if admitted {
            assert(entry_allows(canonical_host@, doms[i as int]));
            return true;
        }
        assert(!entry_allows(canonical_host@, doms[i as int]));
        i += 1;
    }
    false
}

/// Ensure the provided URL uses HTTPS.
pub fn enforce_https(url: &UrlParts) -> (r: JwksResult<()>)
    ensures
        r is Ok <==> url.scheme@ == "https"@,
        r matches Err(e) ==> e is Security,
{
    if str_eq(url.scheme.as_str(), "https") {
        Ok(())
    } else {
        Err(Error::Security("Upstream URL must use HTTPS.".to_owned()))
    }
}

/// Compute the SHA-256 fingerprint of a DER-encoded SPKI payload.
pub fn fingerprint_spki(spki_der: &[u8]) -> (r: Vec<u8>)
    ensures
        r@ == sha256_of(spki_der@),
        r@.len() == 32,
{
    sha256_digest(spki_der)
}

/// Whether some presented SPKI matches some configured pin.
pub open spec fn some_pin_matches(present: Seq<Seq<u8>>, pins: Seq<Seq<u8>>) -> bool {
    exists|i: int, j: int|
        0 <= i < present.len() && 0 <= j < pins.len() && sha256_of(present[i]) == pins[j]
}

/// Validate that at least one configured SPKI fingerprint matches the
/// presented SPKI set; an empty pin set accepts everything.
pub fn verify_spki_pins(present_spki: &Vec<Vec<u8>>, pins: &Vec<SpkiFingerprint>) -> (r: JwksResult<
    (),
>)
    ensures
        r is Ok <==> (pins@.len() == 0 || some_pin_matches(
            present_spki.deep_view(),
            Seq::new(pins@.len(), |j: int| pins@[j]@),
        )),
        r matches Err(e) ==> e is Security,
{
    if pins.len() == 0 {
        return Ok(());
    }
    let ghost present = present_spki.deep_view();
    let ghost pin_views = Seq::new(pins@.len(), |j: int| pins@[j]@);
    let mut i: usize = 0;
    while i < present_spki.len()
        invariant
            0 <= i <= present_spki.len(),
            present == present_spki.deep_view(),
            present.len() == present_spki.len(),
            forall|k: int| 0 <= k < present.len() ==> present[k] == present_spki@[k]@,
            pin_views == Seq::new(pins@.len(), |j: int| pins@[j]@),
            forall|k: int, j: int|
                0 <= k < i && 0 <= j < pin_views.len() ==> sha256_of(present[k]) != pin_views[j],
        decreases present_spki.len() - i,
    {
        let fingerprint = fingerprint_spki(present_spki[i].as_slice());
        let mut j: usize = 0;
        while j < pins.len()
            invariant
                0 <= j <= pins.len(),
                0 <= i < present_spki.len(),
                present == present_spki.deep_view(),
                present.len() == present_spki.len(),
                forall|k: int| 0 <= k < present.len() ==> present[k] == present_spki@[k]@,
                pin_views == Seq::new(pins@.len(), |jj: int| pins@[jj]@),
                fingerprint@ == sha256_of(present[i as int]),
                forall|jj: int| 0 <= jj < j ==> sha256_of(present[i as int]) != pin_views[jj],
            decreases pins.len() - j,
        {
            if pins[j].as_bytes() == &fingerprint {
                assert(sha256_of(present[i as int]) == pin_views[j as int]);
                assert(some_pin_matches(present, pin_views));
                return Ok(());
            }
            assert(sha256_of(present[i as int]) != pin_views[j as int]);
            j += 1;
        }
        i += 1;
    }
    Err(Error::Security("Presented certificate chain does not match any configured SPKI pins.".to_owned()))
}

} // verus!
