//! Trusted boundary to the `url` crate.
//!
//! The engine's request URLs are built by parsing a base address, resolving
//! an endpoint path against it, and appending percent-encoded query pairs.
//! All three operations are pure text-to-text computations of the `url`
//! crate; each gets a name here, and the wrappers below tie the executable
//! calls to those names.

use vstd::prelude::*;

verus! {

/// A URL string could not be parsed or resolved.
#[derive(Clone, Copy, Debug, PartialEq, Eq, Structural)]
pub struct UrlError;

/// Parsing `s` as an absolute URL succeeds: a function of the text alone.
pub uninterp spec fn url_parse_ok(s: Seq<char>) -> bool;

/// The normalized serialization of the absolute URL that parsing `s` yields,
/// where parsing succeeds.
pub uninterp spec fn url_parse_of(s: Seq<char>) -> Seq<char>;

/// Parsing `base` as an absolute URL and resolving `path` against it both
/// succeed: a function of the two texts alone.
pub uninterp spec fn url_join_ok(base: Seq<char>, path: Seq<char>) -> bool;

/// The serialization of `path` resolved against the absolute URL parsed from
/// `base`, where both steps succeed.
pub uninterp spec fn url_join_of(base: Seq<char>, path: Seq<char>) -> Seq<char>;

/// The serialization of the URL parsed from `u` after one percent-encoded
/// query pair `key`/`value` is appended to its query string.
pub uninterp spec fn url_append_pair_of(u: Seq<char>, key: Seq<char>, value: Seq<char>) -> Seq<char>;

/// Relies on url::Url::parse: parsing an absolute URL depends on the input
/// text alone, and `as_str` returns its normalized serialization, which the
/// url crate guarantees to parse back into the same URL.
#[verifier::external_body]
pub(crate) fn url_parse(s: &str) -> (r: Result<String, UrlError>)
    ensures
        r is Ok <==> url_parse_ok(s@),
        r matches Ok(u) ==> u@ == url_parse_of(s@) && url_parse_ok(u@),
{
    match url::Url::parse(s) {
        Ok(u) => Ok(u.as_str().to_owned()),
        Err(_) => Err(UrlError),
    }
}

/// Relies on url::Url::join: resolving `path` against the absolute URL
/// parsed from `base` depends on the two texts alone. The result is a URL
/// serialization, which the url crate guarantees to parse back.
#[verifier::external_body]
pub(crate) fn url_join(base: &str, path: &str) -> (r: Result<String, UrlError>)
    ensures
        r is Ok <==> url_join_ok(base@, path@),
        r matches Ok(u) ==> u@ == url_join_of(base@, path@) && url_parse_ok(u@),
{
    let parsed = match url::Url::parse(base) {
        Ok(b) => b,
        Err(_) => return Err(UrlError),
    };
    match parsed.join(path) {
        Ok(u) => Ok(u.as_str().to_owned()),
        Err(_) => Err(UrlError),
    }
}

/// Relies on form_urlencoded::Serializer::append_pair, reached through
/// url::Url::query_pairs_mut: appending one percent-encoded query pair to
/// the URL parsed from `u` depends on the three texts alone; the append
/// itself cannot fail, so the call succeeds exactly when `u` parses. The
/// result is a URL serialization, which the url crate guarantees to parse
/// back.
#[verifier::external_body]
pub(crate) fn url_append_pair(u: &str, key: &str, value: &str) -> (r: Result<String, UrlError>)
    ensures
        r is Ok <==> url_parse_ok(u@),
        r matches Ok(w) ==> w@ == url_append_pair_of(u@, key@, value@) && url_parse_ok(w@),
{
    let mut parsed = match url::Url::parse(u) {
        Ok(p) => p,
        Err(_) => return Err(UrlError),
    };
    parsed.query_pairs_mut().append_pair(key, value);
    Ok(parsed.as_str().to_owned())
}

} // verus!
