//! Calls into the encoding, hashing, date and URL crates that the pipeline
//! builds on. Each function here is taken on trust: its body makes one call and
//! converts the result, and its contract states what that crate documents.
use hmac::Mac;
use vstd::prelude::*;

verus! {

#[verifier::external_type_specification]
#[verifier::external_body]
pub struct ExInvalidLength(hmac::digest::InvalidLength);

#[verifier::external_type_specification]
#[verifier::external_body]
pub struct ExDateParseError(chrono::format::ParseError);

/// The bytes that standard base64 decodes `s` to, or, where `s` is not
/// well-formed standard base64, the text of the decode error.
pub uninterp spec fn base64_decode_of(s: Seq<char>) -> Result<Seq<u8>, Seq<char>>;

/// The standard base64 text (with padding) of the bytes `b`.
pub uninterp spec fn base64_encode_of(b: Seq<u8>) -> Seq<char>;

/// The HMAC-SHA256 tag of the UTF-8 bytes of `msg` under the key `key`.
pub uninterp spec fn hmac_sha256_of(key: Seq<u8>, msg: Seq<char>) -> Seq<u8>;

/// The instant (seconds since the Unix epoch) that the RFC 2822 date `s`
/// denotes, or `None` where `s` is not such a date.
pub uninterp spec fn http_date_of(s: Seq<char>) -> Option<i64>;

/// The serialization of the absolute URL `s` once parsed, or, where `s` is not
/// an absolute URL, the text of the parse error.
pub uninterp spec fn url_parse_of(s: Seq<char>) -> Result<Seq<char>, Seq<char>>;

/// The serialization of the URL `url` with the path segment `segment`
/// appended (percent-encoded), or `None` where `url` cannot take path
/// segments.
pub uninterp spec fn url_push_segment_of(url: Seq<char>, segment: Seq<char>) -> Option<Seq<char>>;

/// The serialization of the URL `url` with the pair `name=value` appended to
/// its query (form-urlencoded), or `None` where `url` does not parse.
pub uninterp spec fn url_append_pair_of(url: Seq<char>, name: Seq<char>, value: Seq<char>) -> Option<
    Seq<char>,
>;

/// The longest text, in characters, handed to the URL editing calls: far
/// enough below the 4 GiB at which `url` stops indexing its serialization.
pub const URL_TEXT_LIMIT: usize = 0x0400_0000;

/// Relies on `base64::decode` (standard alphabet; padding may be left out) and
/// on the `Display` of `base64::DecodeError`: the bytes, or the error and its
/// text, depend on the input alone.
#[verifier::external_body]
pub(crate) fn base64_decode(s: &str) -> (r: Result<Vec<u8>, String>)
    ensures
        match base64_decode_of(s@) {
            Ok(b) => r matches Ok(x) && x@ == b,
            Err(m) => r matches Err(x) && x@ == m,
        },
{
    base64::decode(s).map_err(|e| e.to_string())
}

/// Relies on `base64::encode` (standard alphabet, padded): the text depends on
/// the bytes alone.
#[verifier::external_body]
pub(crate) fn base64_encode(b: &[u8]) -> (r: String)
    ensures
        r@ == base64_encode_of(b@),
{
    base64::encode(b)
}

/// Relies on `Hmac::<Sha256>::new_from_slice`, `update` and `finalize`: HMAC
/// accepts a key of any length (`new_from_slice` returns `Ok` for every key),
/// and the tag depends on the key and the message alone.
#[verifier::external_body]
pub(crate) fn hmac_sha256(key: &[u8], msg: &str) -> (r: Result<Vec<u8>, hmac::digest::InvalidLength>)
    ensures
        r is Ok,
        r matches Ok(tag) ==> tag@ == hmac_sha256_of(key@, msg@),
{
    let mut mac = hmac::Hmac::<sha2::Sha256>::new_from_slice(key)?;
    mac.update(msg.as_bytes());
    Ok(mac.finalize().into_bytes().to_vec())
}

/// Relies on `chrono::DateTime::parse_from_rfc2822` and `DateTime::timestamp`:
/// whether the text parses, and the instant it names, depend on the text alone.
#[verifier::external_body]
pub(crate) fn parse_http_date(s: &str) -> (r: Result<i64, chrono::format::ParseError>)
    ensures
        r matches Ok(t) ==> http_date_of(s@) == Some(t),
        r is Err ==> http_date_of(s@) is None,
{
    chrono::DateTime::parse_from_rfc2822(s).map(|d| d.timestamp())
}

/// Relies on `url::Url::parse`, the `From<Url> for String` conversion and the
/// `Display` of `url::ParseError`: the serialization, or the error text,
/// depends on the input alone.
#[verifier::external_body]
pub(crate) fn parse_url(s: &str) -> (r: Result<String, String>)
    ensures
        match url_parse_of(s@) {
            Ok(u) => r matches Ok(x) && x@ == u,
            Err(m) => r matches Err(x) && x@ == m,
        },
{
    url::Url::parse(s).map(String::from).map_err(|e| e.to_string())
}

/// Relies on `url::PathSegmentsMut::push` (reached through `Url::parse` and
/// `Url::path_segments_mut`, which fails on a cannot-be-a-base URL): the
/// result depends on the URL and the segment alone.
#[verifier::external_body]
pub(crate) fn push_segment(url: &str, segment: &str) -> (r: Option<String>)
    requires
        url@.len() <= URL_TEXT_LIMIT,
        segment@.len() <= URL_TEXT_LIMIT,
    ensures
        match url_push_segment_of(url@, segment@) {
            Some(u) => r matches Some(x) && x@ == u,
            None => r is None,
        },
{
    let mut u = url::Url::parse(url).ok()?;
    u.path_segments_mut().ok()?.push(segment);
    Some(u.into())
}

/// Relies on `form_urlencoded::Serializer::append_pair` as `Url::query_pairs_mut`
/// hands it out (after `Url::parse`): the result depends on the URL, the name
/// and the value alone.
#[verifier::external_body]
pub(crate) fn append_query_pair(url: &str, name: &str, value: &str) -> (r: Option<String>)
    requires
        url@.len() <= URL_TEXT_LIMIT,
        name@.len() <= URL_TEXT_LIMIT,
        value@.len() <= URL_TEXT_LIMIT,
    ensures
        match url_append_pair_of(url@, name@, value@) {
            Some(u) => r matches Some(x) && x@ == u,
            None => r is None,
        },
{
    let mut u = url::Url::parse(url).ok()?;
    u.query_pairs_mut().append_pair(name, value);
    Some(u.into())
}

} // verus!
