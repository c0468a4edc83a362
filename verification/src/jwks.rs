//! The cached JWKS document: raw JSON bytes validated as a key set.

use vstd::prelude::*;

use crate::error::Error;
use crate::error::JwksResult;
use vstd::std_specs::cmp::PartialEqSpec;

verus! {

/// How many keys a byte sequence lists when it parses as a JWKS document;
/// nothing when it does not parse.
pub uninterp spec fn jwks_keys_of(bytes: Seq<u8>) -> Option<int>;

/// Relies on `serde_json::from_slice::<jsonwebtoken::jwk::JwkSet>`: whether
/// bytes parse as a JWKS document, and how many keys the set lists, are
/// functions of the bytes alone.
#[verifier::external_body]
fn parse_jwks_keys(bytes: &Vec<u8>) -> (r: Option<usize>)
    ensures
        r is Some <==> jwks_keys_of(bytes@) is Some,
        r matches Some(n) ==> jwks_keys_of(bytes@) == Some(n as int),
{
    serde_json::from_slice::<jsonwebtoken::jwk::JwkSet>(bytes).ok().map(|s| s.keys.len())
}

/// The characters of a byte sequence when it is valid UTF-8.
pub uninterp spec fn utf8_str_of(bytes: Seq<u8>) -> Option<Seq<char>>;

/// Relies on `String::from_utf8`: succeeds exactly on valid UTF-8, and the
/// resulting string holds exactly the input bytes.
#[verifier::external_body]
pub(crate) fn utf8_to_string(bytes: &Vec<u8>) -> (r: Option<String>)
    ensures
        r is Some <==> utf8_str_of(bytes@) is Some,
        r matches Some(s) ==> utf8_str_of(bytes@) == Some(s@) && vstd::utf8::encode_utf8(s@)
            == bytes@,
{
    String::from_utf8(bytes.clone()).ok()
}

/// A JWKS document retained for a provider: the raw JSON bytes, known to
/// parse as a key set, and the number of keys it lists.
#[derive(Debug)]
pub struct JwksDoc {
    json: Vec<u8>,
    key_count: usize,
}

impl View for JwksDoc {
    type V = Seq<u8>;

    closed spec fn view(&self) -> Seq<u8> {
        self.json@
    }
}

impl Clone for JwksDoc {
    /// Preserves the document and its key count.
    fn clone(&self) -> (r: Self)
        ensures
            r@ == self@,
            r.spec_key_count() == self.spec_key_count(),
    {
        JwksDoc { json: self.json.clone(), key_count: self.key_count }
    }
}

impl JwksDoc {
    /// The number of keys the document lists.
    pub closed spec fn spec_key_count(&self) -> int {
        self.key_count as int
    }

    /// The document parses as a JWKS and the key count matches it.
    pub open spec fn wf(&self) -> bool {
        jwks_keys_of(self@) == Some(self.spec_key_count())
    }

    /// Validate raw bytes as a JWKS document.
    pub fn parse(bytes: Vec<u8>) -> (r: JwksResult<Self>)
        ensures
            r is Ok <==> jwks_keys_of(bytes@) is Some,
            r matches Ok(doc) ==> doc@ == bytes@ && doc.wf(),
            r matches Err(e) ==> e is Serde,
    {
        match parse_jwks_keys(&bytes) {
            Some(n) => Ok(JwksDoc { json: bytes, key_count: n }),
            None => Err(Error::Serde("Response body is not a valid JWKS document.".to_owned())),
        }
    }

    /// The raw JSON bytes.
    pub fn json(&self) -> (r: &Vec<u8>)
        ensures
            r@ == self@,
    {
        &self.json
    }

    /// The number of keys in the set.
    pub fn key_count(&self) -> (r: usize)
        ensures
            r as int == self.spec_key_count(),
    {
        self.key_count
    }

    /// Whether two documents hold the same bytes.
    pub fn same_document(&self, other: &JwksDoc) -> (r: bool)
        ensures
            r == (self@ == other@),
    {
        let eq = self.json == other.json;
        proof {
            if eq {
                assert(self.json@ =~= other.json@);
            } else {
                if self.json@ == other.json@ {
                    assert(self.json.eq_spec(&other.json));
                    assert(false);
                }
            }
        }
        eq
    }
}

} // verus!
